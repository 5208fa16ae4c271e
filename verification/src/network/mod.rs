//! The network side of the service: the RPC messages and the frame codec.

pub mod codec;
pub mod rpc;
pub mod server;

pub use self::rpc::Message;
pub use self::rpc::MessageType;
pub use self::rpc::NotificationMessage;
pub use self::rpc::RequestMessage;
pub use self::rpc::ResponseMessage;
pub use self::rpc::RpcNotice;
pub use self::rpc::RpcRequest;
pub use self::rpc::RpcResponse;
pub use self::rpc::{CodeConvert, RpcMessage};
