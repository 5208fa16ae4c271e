//! The driver of a session: it hands each message to the state of the
//! session, keeps the state that follows, and says what is to be sent
//! back. When the session ends, by its last notice or by a protocol error,
//! it asks for the shutdown of the server.

use crate::network::rpc::message::{message_fault, message_head, Message, RpcMessage};
use crate::network::rpc::notify::{notification_code, notification_fault};
use crate::protocol::message::{ProtocolError, SessionType};
use crate::service::state::auth::{auth_outcome, only_reads};
use crate::service::state::boot::boot_outcome;
use crate::service::state::{SessionState, Start, State};
use crate::storage::{asked_since, goes_on, Exchange, KeyFileStore};
use crate::value::Value;
use vstd::prelude::*;

verus! {

/// A service that can ask for the shutdown of the server.
pub trait ServiceWithShutdown {
    /// Whether the shutdown of the server was asked for.
    spec fn wants_shutdown(&self) -> bool;

    /// Asks for the shutdown of the server.
    fn shutdown(&mut self)
        ensures
            final(self).wants_shutdown(),
    ;

    /// Whether the shutdown of the server was asked for.
    fn shutdown_requested(&self) -> (b: bool)
        ensures
            b == self.wants_shutdown(),
    ;
}

/// The first stop of a value that came off the wire: it must be a message.
pub struct RpcService {
    stop: bool,
}

impl RpcService {
    /// A service that has not asked for a shutdown.
    pub fn new() -> (r: Self)
        ensures
            !r.wants_shutdown(),
    {
        RpcService { stop: false }
    }

    /// Lets a value pass that is a valid message. For any other value
    /// nothing passes, and the shutdown of the server is asked for.
    pub fn call(&mut self, val: Value) -> (r: Option<Value>)
        ensures
            match r {
                Some(v) => message_fault(val@) is None && v == val && final(self).wants_shutdown()
                    == old(self).wants_shutdown(),
                None => message_fault(val@) is Some && final(self).wants_shutdown(),
            },
    {
        match Message::from(val) {
            Err(_) => {
                self.shutdown();
                None
            },
            Ok(m) => Some(m.into_value()),
        }
    }
}

impl ServiceWithShutdown for RpcService {
    closed spec fn wants_shutdown(&self) -> bool {
        self.stop
    }

    fn shutdown(&mut self) {
        self.stop = true;
    }

    fn shutdown_requested(&self) -> (b: bool) {
        self.stop
    }
}

/// The session of one connection.
pub struct RpcState<S: KeyFileStore> {
    stop: bool,
    state: State<S>,
}

impl<S: KeyFileStore> ServiceWithShutdown for RpcState<S> {
    closed spec fn wants_shutdown(&self) -> bool {
        self.stop
    }

    fn shutdown(&mut self)
        ensures
            final(self).session() == old(self).session(),
    {
        self.stop = true;
    }

    fn shutdown_requested(&self) -> (b: bool) {
        self.stop
    }
}

impl<S: KeyFileStore> RpcState<S> {
    /// The state of the session.
    pub closed spec fn session(&self) -> State<S> {
        self.state
    }

    /// The store of the session, while the session is open.
    pub open spec fn store(&self) -> S
        recommends
            self.is_open(),
    {
        match self.session() {
            State::Start(s) => s.store(),
            State::ProcessBootMessage(s, _) => s.store(),
            State::ProcessAuthMessage(s, _) => s.store(),
            _ => arbitrary(),
        }
    }

    /// What the session has asked the store since it has started, and
    /// what the store answered.
    pub open spec fn record(&self) -> Seq<Exchange> {
        match self.session() {
            State::ProcessBootMessage(s, _) => s.record(),
            State::ProcessAuthMessage(s, _) => s.record(),
            _ => Seq::empty(),
        }
    }

    /// Whether the session is open: it has started or is yet to start, and
    /// has not ended.
    pub open spec fn is_open(&self) -> bool {
        self.session() is Start || self.session() is ProcessBootMessage
            || self.session() is ProcessAuthMessage
    }

    /// A session on the store `db` that is yet to start.
    pub fn new(db: S) -> (r: Self)
        ensures
            r.session() is Start,
            r.store() == db,
            !r.wants_shutdown(),
    {
        RpcState { stop: false, state: State::Start(Start::new(db)) }
    }

    /// The state of the session.
    pub fn state(&self) -> (s: &State<S>)
        ensures
            *s == self.session(),
    {
        &self.state
    }

    /// Whether the session is open.
    pub fn open(&self) -> (b: bool)
        ensures
            b == self.is_open(),
    {
        match &self.state {
            State::Start(_) => true,
            State::ProcessBootMessage(_, _) => true,
            State::ProcessAuthMessage(_, _) => true,
            _ => false,
        }
    }

    /// Moves the session on by one message, and returns the response to
    /// send, if there is one.
    ///
    /// Before the session has started, the notice of a kind of session
    /// starts it. In a started session, a request that the store can be
    /// asked about is answered, and the session stays open. Anything else
    /// ends the session: nothing is returned, the session is closed, and
    /// the shutdown of the server is asked for. That holds of the notice
    /// `Done` as of every protocol error.
    pub fn process_message(&mut self, msg: Message) -> (r: Option<Value>)
        requires
            old(self).is_open(),
        ensures
            match old(self).session() {
                State::Start(_) => {
                    &&& r is None
                    &&& if notification_fault::<SessionType>(msg.value()@) is Some {
                        final(self).session() is Nil && final(self).wants_shutdown()
                    } else {
                        &&& final(self).wants_shutdown() == old(self).wants_shutdown()
                        &&& final(self).store() == old(self).store()
                        &&& if notification_code(msg.value()@) == 0 {
                            final(self).session() matches State::ProcessBootMessage(_, None)
                        } else {
                            final(self).session() matches State::ProcessAuthMessage(_, None)
                        }
                    }
                },
                State::ProcessBootMessage(_, _) => match r {
                    Some(v) => {
                        &&& final(self).session() matches State::ProcessBootMessage(_, None)
                        &&& final(self).store() == old(self).store()
                        &&& final(self).wants_shutdown() == old(self).wants_shutdown()
                        &&& message_head(msg.value()@) == 0
                        &&& goes_on(old(self).record(), final(self).record())
                        &&& boot_outcome(
                            msg.value()@,
                            asked_since(old(self).record(), final(self).record()),
                            Ok(v@),
                        )
                    },
                    None => {
                        &&& final(self).session() is Nil
                        &&& final(self).wants_shutdown()
                        &&& message_head(msg.value()@) == 0 ==> exists|
                            asked: Seq<Exchange>,
                            e: ProtocolError,
                        | #[trigger] boot_outcome(msg.value()@, asked, Err(e))
                    },
                },
                State::ProcessAuthMessage(_, _) => match r {
                    Some(v) => {
                        &&& final(self).session() matches State::ProcessAuthMessage(_, None)
                        &&& final(self).wants_shutdown() == old(self).wants_shutdown()
                        &&& message_head(msg.value()@) == 0
                        &&& goes_on(old(self).record(), final(self).record())
                        &&& auth_outcome(
                            msg.value()@,
                            asked_since(old(self).record(), final(self).record()),
                            Ok(v@),
                        )
                        &&& only_reads(asked_since(old(self).record(), final(self).record()))
                            ==> final(self).store() == old(self).store()
                    },
                    None => {
                        &&& final(self).session() is Nil
                        &&& final(self).wants_shutdown()
                        &&& message_head(msg.value()@) == 0 ==> exists|e: ProtocolError| #[trigger]
                            auth_outcome(msg.value()@, Seq::<Exchange>::empty(), Err(e))
                    },
                },
                _ => true,
            },
    {
        let mut state = State::Nil;
        core::mem::swap(&mut self.state, &mut state);
        match state {
            State::Start(s) => {
                match s.change(msg) {
                    Ok(newstate) => {
                        self.state = newstate;
                    },
                    Err(_) => {
                        self.shutdown();
                    },
                }
                None
            },
            State::ProcessBootMessage(s, _) => {
                match s.change(msg) {
                    Ok(State::ProcessBootMessage(s, Some(resp))) => {
                        self.state = State::ProcessBootMessage(s, None);
                        Some(resp.into_value())
                    },
                    _ => {
                        self.shutdown();
                        None
                    },
                }
            },
            State::ProcessAuthMessage(s, _) => {
                match s.change(msg) {
                    Ok(State::ProcessAuthMessage(s, Some(resp))) => {
                        self.state = State::ProcessAuthMessage(s, None);
                        Some(resp.into_value())
                    },
                    _ => {
                        self.shutdown();
                        None
                    },
                }
            },
            _ => None,
        }
    }
}

} // verus!
