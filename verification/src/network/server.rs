//! The decisions of the acceptor.
//!
//! The acceptor owns a listener and two channels: the control channel,
//! which carries connections and the order to shut down, and the handler
//! channel, which hands connections on to be served. It is polled as a
//! stream of connections. Each poll looks at the control channel first,
//! then at the listener, then at the handler channel; what it finds in one
//! decides whether it looks at the next. The polls themselves, and what
//! they move, are the caller's; here is what follows from each answer.

use vstd::prelude::*;

verus! {

/// What travels on the control channel.
#[derive(Debug, PartialEq)]
pub enum ServerTypeMessage<M> {
    /// A connection to be served.
    Send(M),
    /// The order to shut down.
    Shutdown,
}

/// What travels on the control channel of a server of connections `C`.
pub type ServerMessage<C> = ServerTypeMessage<C>;

/// The two channels of the acceptor.
#[derive(Debug, Clone, Copy, PartialEq, Eq, Structural)]
pub enum ServerTypeChannel {
    Control,
    Handler,
}

/// What a poll of a stream found: an item, the end of the stream, or
/// nothing yet.
#[derive(Debug, PartialEq)]
pub enum Polled<T> {
    Ready(Option<T>),
    NotReady,
}

/// What the acceptor has to do with what a poll found.
#[derive(Debug, PartialEq)]
pub enum ServerAction<M> {
    /// Nothing.
    Nothing,
    /// Send the connection on the handler channel.
    Forward(M),
    /// Close the receiving end of the handler channel.
    CloseHandler,
    /// Send the connection on the control channel.
    Reroute(M),
}

/// How a poll of the acceptor goes on after one of its three looks.
#[derive(Debug, PartialEq)]
pub enum ServerStep<M, E> {
    /// The poll ends with this answer.
    Return(core::result::Result<Polled<M>, E>),
    /// The poll goes on to the next look.
    Next,
}

/// What the error of a channel says.
pub open spec fn channel_error_text(channel: ServerTypeChannel) -> Seq<char> {
    match channel {
        ServerTypeChannel::Control => "Error receiving server command"@,
        ServerTypeChannel::Handler => "Error receiving socket"@,
    }
}

/// What the error of a channel says.
pub fn channel_error(channel: ServerTypeChannel) -> (s: &'static str)
    ensures
        s@ == channel_error_text(channel),
{
    match channel {
        ServerTypeChannel::Control => "Error receiving server command",
        ServerTypeChannel::Handler => "Error receiving socket",
    }
}

/// The answer to a poll of the control channel, and what is to be done.
///
/// A connection is sent on to the handler channel, and the order to shut
/// down closes that channel; neither is an item of the stream, so both
/// answer `NotReady`. The end of the control channel is the end of the
/// stream. A failed poll is the error of the control channel.
pub fn poll_msg<M>(polled: core::result::Result<Polled<ServerTypeMessage<M>>, ()>) -> (r: (
    core::result::Result<Polled<M>, ServerTypeChannel>,
    ServerAction<M>,
))
    ensures
        r == (match polled {
            Err(_) => (
                Err::<Polled<M>, ServerTypeChannel>(ServerTypeChannel::Control),
                ServerAction::Nothing,
            ),
            Ok(Polled::Ready(None)) => (Ok(Polled::Ready(None)), ServerAction::Nothing),
            Ok(Polled::Ready(Some(ServerTypeMessage::Send(m)))) => (
                Ok(Polled::NotReady),
                ServerAction::Forward(m),
            ),
            Ok(Polled::Ready(Some(ServerTypeMessage::Shutdown))) => (
                Ok(Polled::NotReady),
                ServerAction::CloseHandler,
            ),
            Ok(Polled::NotReady) => (Ok(Polled::NotReady), ServerAction::Nothing),
        }),
{
    match polled {
        Err(_) => (Err(ServerTypeChannel::Control), ServerAction::Nothing),
        Ok(Polled::Ready(None)) => (Ok(Polled::Ready(None)), ServerAction::Nothing),
        Ok(Polled::Ready(Some(ServerTypeMessage::Send(m)))) => (
            Ok(Polled::NotReady),
            ServerAction::Forward(m),
        ),
        Ok(Polled::Ready(Some(ServerTypeMessage::Shutdown))) => (
            Ok(Polled::NotReady),
            ServerAction::CloseHandler,
        ),
        Ok(Polled::NotReady) => (Ok(Polled::NotReady), ServerAction::Nothing),
    }
}

/// The answer to a poll of the listener, and what is to be done.
///
/// A new connection is not an item of the stream yet: it is sent on the
/// control channel, and the answer is `NotReady`. The end of the listener
/// and its errors are answered as they are.
pub fn poll_listener<M, E>(polled: core::result::Result<Polled<M>, E>) -> (r: (
    core::result::Result<Polled<M>, E>,
    ServerAction<M>,
))
    ensures
        r == (match polled {
            Err(e) => (Err::<Polled<M>, E>(e), ServerAction::Nothing),
            Ok(Polled::NotReady) => (Ok(Polled::NotReady), ServerAction::Nothing),
            Ok(Polled::Ready(None)) => (Ok(Polled::Ready(None)), ServerAction::Nothing),
            Ok(Polled::Ready(Some(m))) => (Ok(Polled::NotReady), ServerAction::Reroute(m)),
        }),
{
    match polled {
        Err(e) => (Err(e), ServerAction::Nothing),
        Ok(Polled::NotReady) => (Ok(Polled::NotReady), ServerAction::Nothing),
        Ok(Polled::Ready(None)) => (Ok(Polled::Ready(None)), ServerAction::Nothing),
        Ok(Polled::Ready(Some(m))) => (Ok(Polled::NotReady), ServerAction::Reroute(m)),
    }
}

/// The answer to a poll of the handler channel: what the poll found, or
/// the error of the handler channel.
pub fn poll_handler<M>(polled: core::result::Result<Polled<M>, ()>) -> (r: core::result::Result<
    Polled<M>,
    ServerTypeChannel,
>)
    ensures
        r == (match polled {
            Err(_) => Err::<Polled<M>, ServerTypeChannel>(ServerTypeChannel::Handler),
            Ok(v) => Ok(v),
        }),
{
    match polled {
        Err(_) => Err(ServerTypeChannel::Handler),
        Ok(v) => Ok(v),
    }
}

/// How the poll goes on after the look at the control channel: to the
/// listener where the channel had nothing, else it ends with the answer.
pub fn after_msg<M, E>(msg: core::result::Result<Polled<M>, E>) -> (r: ServerStep<M, E>)
    ensures
        r == (match msg {
            Ok(Polled::NotReady) => ServerStep::Next,
            _ => ServerStep::Return(msg),
        }),
{
    match msg {
        Ok(Polled::NotReady) => ServerStep::Next,
        _ => ServerStep::Return(msg),
    }
}

/// How the poll goes on after the look at the listener: to the handler
/// channel where the listener had nothing or has ended, else it ends with
/// the answer.
pub fn after_listener<M, E>(res: core::result::Result<Polled<M>, E>) -> (r: ServerStep<M, E>)
    ensures
        r == (match res {
            Ok(Polled::NotReady) => ServerStep::Next,
            Ok(Polled::Ready(None)) => ServerStep::Next,
            _ => ServerStep::Return(res),
        }),
{
    match res {
        Ok(Polled::NotReady) => ServerStep::Next,
        Ok(Polled::Ready(None)) => ServerStep::Next,
        _ => ServerStep::Return(res),
    }
}

} // verus!
