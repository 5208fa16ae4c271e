//! The boot session: two requests, both on one key, and neither changes
//! the store.

use crate::network::rpc::message::{message_head, Message, MessageType, RpcMessage};
use crate::network::rpc::notify::{notification_fault, NotificationMessage, RpcNotice};
use crate::network::rpc::request::{
    request_code, request_fault, request_id, RequestMessage, RpcRequest,
};
use crate::network::rpc::response::{response_view, ResponseMessage};
use crate::protocol::message::{BootError, BootMessage, BootNotice, ProtocolError};
use crate::service::state::{SessionState, State, StateResult};
use crate::storage::{
    asked_since, goes_on, Exchange, KeyFileError, KeyFileResult, KeyFileStore, Recorded,
};
use crate::value::{copy_bytes, Value, ValueView};
use vstd::prelude::*;

verus! {

/// A request of a boot session.
pub type BootRequest = RequestMessage<BootMessage>;

/// A response of a boot session.
pub type BootResponse = ResponseMessage<BootError>;

/// A notice of a boot session.
pub type BootInfo = NotificationMessage<BootNotice>;

/// The key that the arguments of a boot request name, or why they name
/// none: there must be one argument, and it must be binary.
pub open spec fn boot_key(args: Seq<ValueView>) -> StateResult<Seq<u8>> {
    if args.len() != 1 {
        Err(ProtocolError::InvalidRequestArgs)
    } else if !(args[0] is Binary) {
        Err(ProtocolError::InvalidRequest)
    } else {
        Ok(args[0]->Binary_0)
    }
}

/// The arguments of a request.
pub open spec fn request_args(v: ValueView) -> Seq<ValueView> {
    v->Array_0[3]->Array_0
}

/// The response to `KeyExists`: no error, and whether the key exists.
pub open spec fn key_exists_reply(msgid: u32, found: bool) -> ValueView {
    response_view(msgid, 0, ValueView::Boolean(found))
}

/// The response to `GetKeyFile` for an answer of the store: the keyfile,
/// or `KeyFileNotFound` with the key that the store handed back. Another
/// failure of the store has no response: it ends the session.
pub open spec fn get_keyfile_reply(msgid: u32, answer: KeyFileResult<Vec<u8>>) -> StateResult<
    ValueView,
> {
    match answer {
        Ok(file) => Ok(response_view(msgid, 0, ValueView::Binary(file@))),
        Err(KeyFileError::Key(k)) => Ok(response_view(msgid, 1, ValueView::Binary(k@))),
        Err(KeyFileError::Other) => Err(ProtocolError::InvalidData),
    }
}

/// The response to `KeyExists` for an answer of the store.
pub fn key_exists_response(msgid: u32, found: bool) -> (r: BootResponse)
    ensures
        r.value()@ == key_exists_reply(msgid, found),
{
    BootResponse::new(msgid, BootError::Nil, Value::Boolean(found))
}

/// The response to `GetKeyFile` for an answer of the store.
pub fn get_keyfile_response(msgid: u32, answer: KeyFileResult<Vec<u8>>) -> (r: StateResult<
    BootResponse,
>)
    ensures
        match r {
            Ok(resp) => get_keyfile_reply(msgid, answer) == Ok::<ValueView, ProtocolError>(
                resp.value()@,
            ),
            Err(e) => get_keyfile_reply(msgid, answer) == Err::<ValueView, ProtocolError>(e),
        },
{
    match answer {
        Ok(f) => Ok(BootResponse::new(msgid, BootError::Nil, Value::Binary(f))),
        Err(KeyFileError::Key(k)) => Ok(
            BootResponse::new(msgid, BootError::KeyFileNotFound, Value::Binary(k)),
        ),
        Err(KeyFileError::Other) => Err(ProtocolError::InvalidData),
    }
}

/// The state of an open boot session.
pub struct ProcessBootMessage<S: KeyFileStore> {
    db: Recorded<S>,
}

impl<S: KeyFileStore> ProcessBootMessage<S> {
    /// The state of an open boot session on the store `db`, which was
    /// asked nothing yet.
    pub fn new(db: S) -> (r: Self)
        ensures
            r.store() == db,
            r.record() == Seq::<Exchange>::empty(),
    {
        ProcessBootMessage { db: Recorded::new(db) }
    }

    /// The store of the session.
    pub closed spec fn store(&self) -> S {
        self.db.store()
    }

    /// What the session has asked the store, and what the store answered.
    pub closed spec fn record(&self) -> Seq<Exchange> {
        self.db.record()
    }
}

/// Whether the boot request with the method of the number `method` on the
/// key `key` has the outcome `outcome` after it has asked the store
/// `asked`: it asks once, `KeyExists` whether the key exists and
/// `GetKeyFile` for its keyfile, and the answer decides the outcome.
pub open spec fn boot_exchange(
    method: u8,
    msgid: u32,
    key: Seq<u8>,
    asked: Seq<Exchange>,
    outcome: StateResult<ValueView>,
) -> bool {
    if method == 0 {
        exists|found: bool|
            asked == seq![Exchange::Found(key, found)] && outcome == Ok::<
                ValueView,
                ProtocolError,
            >(#[trigger] key_exists_reply(msgid, found))
    } else {
        exists|answer: KeyFileResult<Vec<u8>>|
            asked == seq![Exchange::Read(key, answer)] && outcome == #[trigger] get_keyfile_reply(
                msgid,
                answer,
            )
    }
}

/// Whether the valid request `request`, served as the method of the number
/// `method`, has the outcome `outcome` after it has asked the store
/// `asked`.
///
/// Arguments that name no key are an error, and the store is not asked: an
/// argument that is not binary is an `InvalidRequest` error, a wrong
/// number of arguments an `InvalidRequestArgs` error. Else the store is
/// asked once, and its answer decides.
pub open spec fn boot_request_outcome(
    request: ValueView,
    method: u8,
    asked: Seq<Exchange>,
    outcome: StateResult<ValueView>,
) -> bool {
    if boot_key(request_args(request)) is Err {
        asked.len() == 0 && outcome is Err && boot_key(request_args(request)) == Err::<
            Seq<u8>,
            ProtocolError,
        >(outcome->Err_0)
    } else {
        boot_exchange(
            method,
            request_id(request),
            boot_key(request_args(request))->Ok_0,
            asked,
            outcome,
        )
    }
}

/// Whether the message `message`, taken as a boot request, has the outcome
/// `outcome` after it has asked the store `asked`. A message that is no
/// boot request is an `InvalidRequest` error, and the store is not asked.
pub open spec fn boot_outcome(
    message: ValueView,
    asked: Seq<Exchange>,
    outcome: StateResult<ValueView>,
) -> bool {
    if request_fault::<BootMessage>(message) is Some {
        asked.len() == 0 && outcome == Err::<ValueView, ProtocolError>(
            ProtocolError::InvalidRequest,
        )
    } else {
        boot_request_outcome(message, request_code(message), asked, outcome)
    }
}

/// The outcome of a request by what it holds: the response by its value.
pub open spec fn response_value(r: StateResult<BootResponse>) -> StateResult<ValueView> {
    match r {
        Ok(resp) => Ok(resp.value()@),
        Err(e) => Err(e),
    }
}

/// Serves the requests of a boot session.
pub struct ProcessBootRequest;

impl ProcessBootRequest {
    /// Answers the request that the message is.
    ///
    /// The store is asked at most once, and is left as it was.
    pub fn run<S: KeyFileStore>(&self, db: &mut Recorded<S>, m: Message) -> (r: StateResult<
        BootResponse,
    >)
        ensures
            final(db).store() == old(db).store(),
            goes_on(old(db).record(), final(db).record()),
            boot_outcome(
                m.value()@,
                asked_since(old(db).record(), final(db).record()),
                response_value(r),
            ),
    {
        let req = match BootRequest::from(m) {
            Ok(req) => req,
            Err(_) => {
                assert(asked_since(db.record(), db.record()).len() == 0);
                assert(db.record().subrange(0, db.record().len() as int) =~= db.record());
                return Err(ProtocolError::InvalidRequest);
            },
        };
        match req.message_code() {
            BootMessage::KeyExists => self.req_key_exists(req, db),
            BootMessage::GetKeyFile => self.req_get_keyfile(req, db),
        }
    }

    /// The key that the request names.
    pub fn _check_message(&self, req: &BootRequest) -> (r: StateResult<Vec<u8>>)
        ensures
            match r {
                Ok(key) => boot_key(request_args(req.value()@)) == Ok::<Seq<u8>, ProtocolError>(
                    key@,
                ),
                Err(e) => boot_key(request_args(req.value()@)) == Err::<Seq<u8>, ProtocolError>(
                    e,
                ),
            },
    {
        let args = req.message_args();
        if args.len() != 1 {
            return Err(ProtocolError::InvalidRequestArgs);
        }
        match &args[0] {
            Value::Binary(bytes) => Ok(copy_bytes(bytes.as_slice())),
            _ => Err(ProtocolError::InvalidRequest),
        }
    }

    /// Answers `KeyExists`: asks the store whether the key exists, and
    /// answers what the store says.
    pub fn req_key_exists<S: KeyFileStore>(
        &self,
        req: BootRequest,
        db: &mut Recorded<S>,
    ) -> (r: StateResult<BootResponse>)
        ensures
            final(db).store() == old(db).store(),
            goes_on(old(db).record(), final(db).record()),
            boot_request_outcome(
                req.value()@,
                0,
                asked_since(old(db).record(), final(db).record()),
                response_value(r),
            ),
    {
        let ghost before = db.record();
        let key = match self._check_message(&req) {
            Ok(key) => key,
            Err(e) => {
                assert(asked_since(before, db.record()).len() == 0);
                assert(db.record().subrange(0, before.len() as int) =~= before);
                return Err(e);
            },
        };
        let found = db.key_exists(&key);
        let resp = key_exists_response(req.message_id(), found);
        proof {
            assert(asked_since(before, db.record()) =~= seq![Exchange::Found(key@, found)]);
            assert(db.record().subrange(0, before.len() as int) =~= before);
            assert(resp.value()@ == key_exists_reply(request_id(req.value()@), found));
        }
        Ok(resp)
    }

    /// Answers `GetKeyFile`: asks the store for the keyfile under the key,
    /// and answers with what the store says.
    pub fn req_get_keyfile<S: KeyFileStore>(
        &self,
        req: BootRequest,
        db: &mut Recorded<S>,
    ) -> (r: StateResult<BootResponse>)
        ensures
            final(db).store() == old(db).store(),
            goes_on(old(db).record(), final(db).record()),
            boot_request_outcome(
                req.value()@,
                1,
                asked_since(old(db).record(), final(db).record()),
                response_value(r),
            ),
    {
        let ghost before = db.record();
        let key = match self._check_message(&req) {
            Ok(key) => key,
            Err(e) => {
                assert(asked_since(before, db.record()).len() == 0);
                assert(db.record().subrange(0, before.len() as int) =~= before);
                return Err(e);
            },
        };
        let answer = db.get(&key);
        let ghost answered = answer;
        let r = get_keyfile_response(req.message_id(), answer);
        proof {
            assert(asked_since(before, db.record()) =~= seq![Exchange::Read(key@, answered)]);
            assert(db.record().subrange(0, before.len() as int) =~= before);
            assert(response_value(r) == get_keyfile_reply(request_id(req.value()@), answered));
        }
        r
    }
}

impl<S: KeyFileStore> SessionState<S> for ProcessBootMessage<S> {
    /// A request is answered, and the session stays open with the response.
    /// The notice `Done` ends the session. A response, a message of an
    /// unknown type and any other notice are protocol errors. The store is
    /// asked for a request only, and never changed.
    fn change(self, m: Message) -> (r: StateResult<State<S>>)
        ensures
            match r {
                Ok(State::ProcessBootMessage(next, response)) => {
                    &&& next.store() == self.store()
                    &&& goes_on(self.record(), next.record())
                    &&& message_head(m.value()@) == 0
                    &&& response is Some
                    &&& boot_outcome(
                        m.value()@,
                        asked_since(self.record(), next.record()),
                        Ok(response->0.value()@),
                    )
                },
                Ok(State::BootEnd) => message_head(m.value()@) == 2 && notification_fault::<
                    BootNotice,
                >(m.value()@) is None,
                Ok(_) => false,
                Err(e) => if message_head(m.value()@) == 0 {
                    exists|asked: Seq<Exchange>| #[trigger]
                        boot_outcome(m.value()@, asked, Err(e))
                } else if message_head(m.value()@) == 1 {
                    e == ProtocolError::UnexpectedMessage
                } else if message_head(m.value()@) == 2 {
                    notification_fault::<BootNotice>(m.value()@) is Some && e
                        == ProtocolError::InvalidNotification
                } else {
                    e == ProtocolError::InvalidMessageType
                },
            },
    {
        let msgtype = match m.message_type() {
            Ok(t) => t,
            Err(_) => {
                return Err(ProtocolError::InvalidMessageType);
            },
        };
        match msgtype {
            MessageType::Request => {
                let mut next = self;
                let ghost before = next.db.record();
                match ProcessBootRequest.run(&mut next.db, m) {
                    Ok(response) => Ok(State::ProcessBootMessage(next, Some(response))),
                    Err(e) => {
                        assert(boot_outcome(
                            m.value()@,
                            asked_since(before, next.db.record()),
                            Err(e),
                        ));
                        Err(e)
                    },
                }
            },
            MessageType::Notification => {
                let notice = match BootInfo::from(m) {
                    Ok(notice) => notice,
                    Err(_) => {
                        return Err(ProtocolError::InvalidNotification);
                    },
                };
                match notice.message_code() {
                    BootNotice::Done => Ok(State::BootEnd),
                }
            },
            MessageType::Response => Err(ProtocolError::UnexpectedMessage),
        }
    }
}

} // verus!
