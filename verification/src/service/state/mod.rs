//! The states of a session and the moves between them.
//!
//! A session starts in [`Start`]. The notice that opens it chooses between
//! the boot and the authenticated protocol; from then on every request is
//! answered with a response, until the notice `Done` ends the session.
//! Anything else is a protocol error.

pub mod auth;
pub mod boot;

use crate::network::rpc::message::{Message, RpcMessage};
use crate::network::rpc::notify::{
    notification_code, notification_fault, NotificationMessage, RpcNotice,
};
use crate::protocol::message::{ProtocolError, SessionType};
use crate::storage::KeyFileStore;
use vstd::prelude::*;

verus! {

/// The result of a move of the session.
pub type StateResult<T> = core::result::Result<T, ProtocolError>;

/// The notice that opens a session.
pub type SessionInfo = NotificationMessage<SessionType>;

/// The states of a session.
pub enum State<S: KeyFileStore> {
    /// The session was closed.
    Nil,
    /// Nothing was received yet.
    Start(Start<S>),
    /// A boot session is open. The response is the answer to the request
    /// that led here, if a request did.
    ProcessBootMessage(boot::ProcessBootMessage<S>, Option<boot::BootResponse>),
    /// The boot session is done.
    BootEnd,
    /// An authenticated session is open. The response is the answer to
    /// the request that led here, if a request did.
    ProcessAuthMessage(auth::ProcessAuthMessage<S>, Option<auth::AuthResponse>),
    /// The authenticated session is done.
    AuthEnd,
}

/// A state that a message moves on.
pub trait SessionState<S: KeyFileStore>: Sized {
    /// The state after the message, or the protocol error that the message
    /// is in this state.
    fn change(self, m: Message) -> StateResult<State<S>>;
}

/// The state of a session that has received nothing yet.
pub struct Start<S: KeyFileStore> {
    db: S,
}

impl<S: KeyFileStore> Start<S> {
    /// The first state of a session on the store `db`.
    pub fn new(db: S) -> (r: Self)
        ensures
            r.store() == db,
    {
        Start { db }
    }

    /// The store of the session.
    pub closed spec fn store(&self) -> S {
        self.db
    }
}

impl<S: KeyFileStore> SessionState<S> for Start<S> {
    /// A notice with the code of a kind of session opens a session of that
    /// kind on the same store, with no response. Any other message is an
    /// `InvalidNotification` error.
    fn change(self, m: Message) -> (r: StateResult<State<S>>)
        ensures
            match r {
                Ok(State::ProcessBootMessage(next, response)) => {
                    &&& notification_fault::<SessionType>(m.value()@) is None
                    &&& notification_code(m.value()@) == 0
                    &&& next.store() == self.store()
                    &&& response is None
                },
                Ok(State::ProcessAuthMessage(next, response)) => {
                    &&& notification_fault::<SessionType>(m.value()@) is None
                    &&& notification_code(m.value()@) == 1
                    &&& next.store() == self.store()
                    &&& response is None
                },
                Ok(_) => false,
                Err(e) => notification_fault::<SessionType>(m.value()@) is Some && e
                    == ProtocolError::InvalidNotification,
            },
    {
        let notice = match SessionInfo::from(m) {
            Ok(notice) => notice,
            Err(_) => {
                return Err(ProtocolError::InvalidNotification);
            },
        };
        match notice.message_code() {
            SessionType::Boot => Ok(
                State::ProcessBootMessage(boot::ProcessBootMessage::new(self.db), None),
            ),
            SessionType::Auth => Ok(
                State::ProcessAuthMessage(auth::ProcessAuthMessage::new(self.db), None),
            ),
        }
    }
}

} // verus!
