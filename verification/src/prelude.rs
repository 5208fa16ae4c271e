//! The names that a user of the RPC messages needs, in one place.

pub use crate::network::rpc::Message;
pub use crate::network::rpc::MessageType;
pub use crate::network::rpc::NotificationMessage;
pub use crate::network::rpc::RequestMessage;
pub use crate::network::rpc::ResponseMessage;
pub use crate::network::rpc::RpcNotice;
pub use crate::network::rpc::RpcRequest;
pub use crate::network::rpc::RpcResponse;
pub use crate::network::rpc::{CodeConvert, RpcMessage};
pub use crate::value::{Integer, Value};
