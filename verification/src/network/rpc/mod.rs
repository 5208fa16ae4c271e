//! The RPC messages: the base message and its three shapes.

pub mod message;
pub mod notify;
pub mod request;
pub mod response;

pub use self::message::Message;
pub use self::message::MessageType;
pub use self::message::{CodeConvert, RpcMessage};
pub use self::notify::NotificationMessage;
pub use self::notify::RpcNotice;
pub use self::request::RequestMessage;
pub use self::request::RpcRequest;
pub use self::response::ResponseMessage;
pub use self::response::RpcResponse;
