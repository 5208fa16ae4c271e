//! Errors that the RPC message types report.

use crate::error::{Error, ErrorMessage};
use vstd::prelude::*;
use vstd::string::StringExecFns;

verus! {

/// The result of an operation that fails with an [`RpcError`].
pub type RpcResult<T> = core::result::Result<T, Error<RpcError>>;

/// What can be wrong with a value that should be an RPC message.
#[derive(Debug, Copy, Clone, Eq, Hash, Ord, PartialEq, PartialOrd, Structural)]
pub enum RpcError {
    InvalidMessage,
    InvalidArrayLength,
    InvalidMessageType,
    InvalidIDType,
    InvalidRequest,
    InvalidRequestType,
    InvalidResponse,
    InvalidResponseType,
    InvalidNotification,
    InvalidNotificationType,
    InvalidRequestArgs,
    InvalidNotificationArgs,
}

impl ErrorMessage for RpcError {
    open spec fn message_text(&self) -> Seq<char> {
        match self {
            RpcError::InvalidMessage => "Invalid message"@,
            RpcError::InvalidArrayLength => "Invalid message array length"@,
            RpcError::InvalidMessageType => "Invalid message type"@,
            RpcError::InvalidIDType => "Invalid message id type"@,
            RpcError::InvalidRequest => "Invalid request message"@,
            RpcError::InvalidRequestType => "Invalid request type"@,
            RpcError::InvalidResponse => "Invalid response message"@,
            RpcError::InvalidResponseType => "Invalid response type"@,
            RpcError::InvalidNotification => "Invalid notification message"@,
            RpcError::InvalidNotificationType => "Invalid notification type"@,
            RpcError::InvalidRequestArgs => "Invalid request arguments"@,
            RpcError::InvalidNotificationArgs => "Invalid notification arguments"@,
        }
    }

    fn message(&self) -> (s: &'static str) {
        match self {
            RpcError::InvalidMessage => "Invalid message",
            RpcError::InvalidArrayLength => "Invalid message array length",
            RpcError::InvalidMessageType => "Invalid message type",
            RpcError::InvalidIDType => "Invalid message id type",
            RpcError::InvalidRequest => "Invalid request message",
            RpcError::InvalidRequestType => "Invalid request type",
            RpcError::InvalidResponse => "Invalid response message",
            RpcError::InvalidResponseType => "Invalid response type",
            RpcError::InvalidNotification => "Invalid notification message",
            RpcError::InvalidNotificationType => "Invalid notification type",
            RpcError::InvalidRequestArgs => "Invalid request arguments",
            RpcError::InvalidNotificationArgs => "Invalid notification arguments",
        }
    }
}

impl RpcError {
    /// The kind as it is displayed, which is its message.
    pub fn to_string(&self) -> (s: String)
        ensures
            s@ == self.message_text(),
    {
        String::from_str(self.message())
    }
}

} // verus!
