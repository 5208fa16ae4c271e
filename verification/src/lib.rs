//! A keyfile service: a MessagePack RPC message model, a streaming frame
//! codec, and the per-connection session state machine that answers
//! requests against a keyfile store.

pub mod error;
pub mod network;
pub mod prelude;
pub mod protocol;
pub mod service;
pub mod storage;
pub mod text;
pub mod value;

use crate::value::Value;
use vstd::prelude::*;

verus! {

/// Whether the stream of a connection goes on after this item: the first
/// item without a value closes it.
pub fn keeps_open(item: &Option<Value>) -> (b: bool)
    ensures
        b == (*item is Some),
{
    item.is_some()
}

/// Whether this item of the stream of a connection is passed on: a value
/// is, unless it is nil.
pub fn is_sent(item: &Option<Value>) -> (b: bool)
    ensures
        b == (*item is Some && !(item->0@ is Nil)),
{
    match item {
        Some(Value::Nil) => false,
        Some(_) => true,
        None => false,
    }
}

/// Where the sending of the responses of a connection stands.
#[derive(Debug, PartialEq)]
pub enum SendMessageState<M> {
    /// The next message is to be taken from the stream.
    Start,
    /// The sink was full: this message is to be sent again.
    Full(M),
    /// A message was sent and is yet to be flushed.
    Waiting,
    /// A poll is under way, or the sending is done.
    Empty,
}

/// What the driver of the sending has to ask next.
#[derive(Debug, PartialEq)]
pub enum SendAction<M> {
    /// Poll the stream of messages.
    PollStream,
    /// Start to send this message to the sink.
    StartSend(M),
    /// Poll the sink for the end of the flush.
    PollComplete,
}

/// How a poll of the sending goes on after an answer.
#[derive(Debug, PartialEq)]
pub enum SendProgress<M> {
    /// This is to be asked next, within the same poll.
    Next(SendAction<M>),
    /// The poll ends as not ready. With `notify`, the task is to be woken
    /// at once, to be polled again.
    NotReady { notify: bool },
    /// The poll ends as ready: all messages were sent.
    Ready,
}

/// What a poll of the stream of messages found.
#[derive(Debug, PartialEq)]
pub enum StreamPoll<M> {
    /// The stream has ended.
    Ended,
    /// The next message.
    Item(M),
    /// Nothing yet.
    NotReady,
}

/// How the sink answered the start of a send.
#[derive(Debug, PartialEq)]
pub enum SinkAnswer<M> {
    /// It took the message.
    Ready,
    /// It is full, and hands the message back.
    NotReady(M),
}

/// The sending of the responses of a connection, one after the other,
/// each flushed before the next is taken from the stream.
///
/// It holds where the sending stands. The stream and the sink are the
/// caller's: a poll starts with `poll`, which says what to ask of them,
/// and goes on with the method for each answer, until one ends the poll.
pub struct SendMessage<M> {
    state: SendMessageState<M>,
}

/// A sending that is yet to take its first message.
pub fn send_message<M>() -> (r: SendMessage<M>)
    ensures
        r.state() == SendMessageState::<M>::Start,
{
    SendMessage { state: SendMessageState::Start }
}

impl<M> SendMessage<M> {
    /// Where the sending stands.
    pub closed spec fn state(&self) -> SendMessageState<M> {
        self.state
    }

    /// Whether a poll may start: none is under way, and the sending is not
    /// done.
    pub fn can_poll(&self) -> (b: bool)
        ensures
            b == !(self.state() is Empty),
    {
        match &self.state {
            SendMessageState::Empty => false,
            _ => true,
        }
    }

    /// Starts a poll: says what to ask first, by where the sending stands.
    pub fn poll(&mut self) -> (r: SendAction<M>)
        requires
            !(old(self).state() is Empty),
        ensures
            final(self).state() == SendMessageState::<M>::Empty,
            r == (match old(self).state() {
                SendMessageState::Full(msg) => SendAction::StartSend(msg),
                SendMessageState::Waiting => SendAction::PollComplete,
                _ => SendAction::PollStream,
            }),
    {
        let mut state = SendMessageState::Empty;
        core::mem::swap(&mut self.state, &mut state);
        match state {
            SendMessageState::Start => SendAction::PollStream,
            SendMessageState::Full(msg) => SendAction::StartSend(msg),
            SendMessageState::Waiting => SendAction::PollComplete,
            SendMessageState::Empty => vstd::pervasive::unreached(),
        }
    }

    /// Goes on after a poll of the stream: a message is to be sent, the
    /// end of the stream is the end of the sending, and without a message
    /// the poll ends, to start again at the stream.
    pub fn stream_polled(&mut self, polled: StreamPoll<M>) -> (r: SendProgress<M>)
        ensures
            match polled {
                StreamPoll::Ended => r == SendProgress::<M>::Ready && final(self).state() == old(
                    self,
                ).state(),
                StreamPoll::Item(msg) => r == SendProgress::Next(SendAction::StartSend(msg))
                    && final(self).state() == old(self).state(),
                StreamPoll::NotReady => r == (SendProgress::<M>::NotReady { notify: false })
                    && final(self).state() == SendMessageState::<M>::Start,
            },
    {
        match polled {
            StreamPoll::Ended => SendProgress::Ready,
            StreamPoll::Item(msg) => SendProgress::Next(SendAction::StartSend(msg)),
            StreamPoll::NotReady => {
                self.state = SendMessageState::Start;
                SendProgress::NotReady { notify: false }
            },
        }
    }

    /// Goes on after the start of a send: a message that the sink took is
    /// to be flushed; one that it handed back is kept, and the poll ends,
    /// to start again at once with that message.
    pub fn start_send(&mut self, answer: SinkAnswer<M>) -> (r: SendProgress<M>)
        ensures
            match answer {
                SinkAnswer::NotReady(msg) => r == (SendProgress::<M>::NotReady { notify: true })
                    && final(self).state() == SendMessageState::Full(msg),
                SinkAnswer::Ready => r == SendProgress::<M>::Next(SendAction::PollComplete)
                    && final(self).state() == old(self).state(),
            },
    {
        match answer {
            SinkAnswer::NotReady(msg) => {
                self.state = SendMessageState::Full(msg);
                SendProgress::NotReady { notify: true }
            },
            SinkAnswer::Ready => SendProgress::Next(SendAction::PollComplete),
        }
    }

    /// Goes on after a poll of the flush: either way the poll ends as not
    /// ready. After a flush that is done it starts again at once, at the
    /// stream; after one that is not, it waits for the sink.
    pub fn poll_complete(&mut self, flushed: bool) -> (r: SendProgress<M>)
        ensures
            r == (SendProgress::<M>::NotReady { notify: flushed }),
            final(self).state() == (if flushed {
                SendMessageState::<M>::Start
            } else {
                SendMessageState::<M>::Waiting
            }),
    {
        if flushed {
            self.state = SendMessageState::Start;
        } else {
            self.state = SendMessageState::Waiting;
        }
        SendProgress::NotReady { notify: flushed }
    }
}

} // verus!
