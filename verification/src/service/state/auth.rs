//! The authenticated session: seven requests on keys and keyfiles.
//!
//! Every argument is binary, and each method has its own number of them.
//! The store is asked in a fixed order, and the first answer that settles
//! the request decides the response: where the new key of `ChangeKey` or
//! `ReplaceKeyFile` exists already, nothing is changed.

use crate::network::rpc::message::{message_head, Message, MessageType, RpcMessage};
use crate::network::rpc::notify::{notification_fault, NotificationMessage, RpcNotice};
use crate::network::rpc::request::{
    request_code, request_fault, request_id, RequestMessage, RpcRequest,
};
use crate::network::rpc::response::{response_view, ResponseMessage};
use crate::protocol::message::{AuthError, AuthMessage, AuthNotice, ProtocolError};
use crate::service::state::boot::request_args;
use crate::service::state::{SessionState, State, StateResult};
use crate::storage::{
    all_answered_by, asked_since, files_after_all, goes_on, Exchange, KeyFileError,
    KeyFileResult, KeyFileStore, Recorded,
};
use crate::value::{copy_bytes, Value, ValueView};
use vstd::prelude::*;

verus! {

/// A request of an authenticated session.
pub type AuthRequest = RequestMessage<AuthMessage>;

/// A response of an authenticated session.
pub type AuthResponse = ResponseMessage<AuthError>;

/// A notice of an authenticated session.
pub type AuthInfo = NotificationMessage<AuthNotice>;

/// The number of arguments of the method with the given number.
pub open spec fn auth_arity(code: u8) -> nat {
    if code == 0 || code == 5 || code == 6 {
        1
    } else if code == 4 {
        3
    } else {
        2
    }
}

/// The bytes that the arguments of a request hold, or why they will not
/// do: there must be `numargs` of them, and each must be binary.
pub open spec fn binary_args(args: Seq<ValueView>, numargs: nat) -> StateResult<Seq<Seq<u8>>> {
    if args.len() != numargs {
        Err(ProtocolError::InvalidRequestArgs)
    } else if exists|i: int| 0 <= i < numargs && !(#[trigger] args[i] is Binary) {
        Err(ProtocolError::InvalidRequest)
    } else {
        Ok(Seq::new(numargs, |i: int| args[i]->Binary_0))
    }
}

/// The byte vectors as sequences.
pub open spec fn bytes_of(keys: Seq<Vec<u8>>) -> Seq<Seq<u8>> {
    Seq::new(keys.len(), |i: int| keys[i]@)
}

/// No error, and whether the key exists.
pub open spec fn found_reply(msgid: u32, found: bool) -> ValueView {
    response_view(msgid, 0, ValueView::Boolean(found))
}

/// No error, and the keyfile.
pub open spec fn keyfile_reply(msgid: u32, file: Seq<u8>) -> ValueView {
    response_view(msgid, 0, ValueView::Binary(file))
}

/// No error, and `true`: the store did what was asked.
pub open spec fn done_reply(msgid: u32) -> ValueView {
    response_view(msgid, 0, ValueView::Boolean(true))
}

/// `KeyFileNotFound`, and the key that has no keyfile.
pub open spec fn missing_reply(msgid: u32, key: Seq<u8>) -> ValueView {
    response_view(msgid, 1, ValueView::Binary(key))
}

/// `KeyFileExists`, and the key that has a keyfile already.
pub open spec fn taken_reply(msgid: u32, key: Seq<u8>) -> ValueView {
    response_view(msgid, 2, ValueView::Binary(key))
}

/// `DatabaseError`, and `false`: the store failed.
pub open spec fn failed_reply(msgid: u32) -> ValueView {
    response_view(msgid, 3, ValueView::Boolean(false))
}

/// The response to a read of a keyfile, for the answer of the store.
pub open spec fn read_reply(msgid: u32, answer: KeyFileResult<Vec<u8>>) -> ValueView {
    match answer {
        Ok(file) => keyfile_reply(msgid, file@),
        Err(KeyFileError::Key(k)) => missing_reply(msgid, k@),
        Err(KeyFileError::Other) => failed_reply(msgid),
    }
}

/// The response to the last write of a request, for the answer of the
/// store: any failure is a `DatabaseError`.
pub open spec fn write_reply(msgid: u32, answer: KeyFileResult<()>) -> ValueView {
    match answer {
        Ok(_) => done_reply(msgid),
        Err(_) => failed_reply(msgid),
    }
}

/// The response that ends `ReplaceKeyFile` after the removal of the old
/// key, for the answer of the store; none where the key was removed.
pub open spec fn removal_reply(msgid: u32, answer: KeyFileResult<()>) -> Option<ValueView> {
    match answer {
        Ok(_) => None,
        Err(KeyFileError::Key(k)) => Some(missing_reply(msgid, k@)),
        Err(KeyFileError::Other) => Some(failed_reply(msgid)),
    }
}

/// The response to `CreateKeyFile`, for the answers of the store: first
/// to whether the key exists and, where it does not, to the write.
pub open spec fn create_keyfile_reply(
    msgid: u32,
    key: Seq<u8>,
    found: bool,
    stored: KeyFileResult<()>,
) -> ValueView {
    if found {
        taken_reply(msgid, key)
    } else {
        write_reply(msgid, stored)
    }
}

/// The response to `ChangeKeyFile` and to `DeleteKeyFile`, for the answers
/// of the store: first to whether the key exists and, where it does, to
/// the write or the removal.
pub open spec fn change_keyfile_reply(
    msgid: u32,
    key: Seq<u8>,
    found: bool,
    written: KeyFileResult<()>,
) -> ValueView {
    if !found {
        missing_reply(msgid, key)
    } else {
        write_reply(msgid, written)
    }
}

/// The response to `ChangeKey`, for the answers of the store, in the order
/// in which it is asked: whether the new key exists; the keyfile of the
/// old key; the removal of the old key; the write under the new key. The
/// first answer that settles the request decides, and the store is asked
/// no further.
pub open spec fn change_key_reply(
    msgid: u32,
    newkey: Seq<u8>,
    new_found: bool,
    got: KeyFileResult<Vec<u8>>,
    removed: KeyFileResult<()>,
    stored: KeyFileResult<()>,
) -> ValueView {
    if new_found {
        taken_reply(msgid, newkey)
    } else if got is Err {
        read_reply(msgid, got)
    } else if removed is Err {
        failed_reply(msgid)
    } else {
        write_reply(msgid, stored)
    }
}

/// The response to `ReplaceKeyFile`, for the answers of the store, in the
/// order in which it is asked: whether the new key exists; the removal of
/// the old key; the write under the new key. The first answer that settles
/// the request decides, and the store is asked no further.
pub open spec fn replace_keyfile_reply(
    msgid: u32,
    newkey: Seq<u8>,
    new_found: bool,
    removed: KeyFileResult<()>,
    stored: KeyFileResult<()>,
) -> ValueView {
    if new_found {
        taken_reply(msgid, newkey)
    } else if removal_reply(msgid, removed) is Some {
        removal_reply(msgid, removed)->0
    } else {
        write_reply(msgid, stored)
    }
}

/// What `CreateKeyFile` asks the store, for the answers of the store:
/// whether the key exists and, where it does not, to put the keyfile
/// under it.
pub open spec fn create_keyfile_asks(
    key: Seq<u8>,
    file: Seq<u8>,
    found: bool,
    stored: KeyFileResult<()>,
) -> Seq<Exchange> {
    if found {
        seq![Exchange::Found(key, found)]
    } else {
        seq![Exchange::Found(key, found), Exchange::Written(key, file, stored)]
    }
}

/// What `ChangeKeyFile` asks the store, for the answers of the store:
/// whether the key exists and, where it does, to put the new keyfile
/// under it.
pub open spec fn change_keyfile_asks(
    key: Seq<u8>,
    file: Seq<u8>,
    found: bool,
    stored: KeyFileResult<()>,
) -> Seq<Exchange> {
    if !found {
        seq![Exchange::Found(key, found)]
    } else {
        seq![Exchange::Found(key, found), Exchange::Written(key, file, stored)]
    }
}

/// What `DeleteKeyFile` asks the store, for the answers of the store:
/// whether the key exists and, where it does, to remove its keyfile.
pub open spec fn del_keyfile_asks(key: Seq<u8>, found: bool, removed: KeyFileResult<()>) -> Seq<
    Exchange,
> {
    if !found {
        seq![Exchange::Found(key, found)]
    } else {
        seq![Exchange::Found(key, found), Exchange::Removed(key, removed)]
    }
}

/// What `ChangeKey` asks the store, for the answers of the store: whether
/// the new key exists; where it does not, for the keyfile of the old key;
/// where there is one, to remove the old key; where that is done, to put
/// the keyfile that was read under the new key.
pub open spec fn change_key_asks(
    oldkey: Seq<u8>,
    newkey: Seq<u8>,
    new_found: bool,
    got: KeyFileResult<Vec<u8>>,
    removed: KeyFileResult<()>,
    stored: KeyFileResult<()>,
) -> Seq<Exchange> {
    if new_found {
        seq![Exchange::Found(newkey, new_found)]
    } else if got is Err {
        seq![Exchange::Found(newkey, new_found), Exchange::Read(oldkey, got)]
    } else if removed is Err {
        seq![
            Exchange::Found(newkey, new_found),
            Exchange::Read(oldkey, got),
            Exchange::Removed(oldkey, removed),
        ]
    } else {
        seq![
            Exchange::Found(newkey, new_found),
            Exchange::Read(oldkey, got),
            Exchange::Removed(oldkey, removed),
            Exchange::Written(newkey, got->Ok_0@, stored),
        ]
    }
}

/// What `ReplaceKeyFile` asks the store, for the answers of the store:
/// whether the new key exists; where it does not, to remove the old key;
/// where that is done, to put the new keyfile under the new key.
pub open spec fn replace_keyfile_asks(
    oldkey: Seq<u8>,
    newkey: Seq<u8>,
    file: Seq<u8>,
    new_found: bool,
    removed: KeyFileResult<()>,
    stored: KeyFileResult<()>,
) -> Seq<Exchange> {
    if new_found {
        seq![Exchange::Found(newkey, new_found)]
    } else if removed is Err {
        seq![Exchange::Found(newkey, new_found), Exchange::Removed(oldkey, removed)]
    } else {
        seq![
            Exchange::Found(newkey, new_found),
            Exchange::Removed(oldkey, removed),
            Exchange::Written(newkey, file, stored),
        ]
    }
}

/// Whether the request with the method of the number `method`, the id
/// `msgid` and the binary arguments `keys` is answered with `response`
/// after it has asked the store `asked`.
///
/// For some answers of the store, `asked` is what the method asks for
/// these answers, question by question with its arguments, and `response`
/// is the response of the method for them.
pub open spec fn auth_exchange(
    method: u8,
    msgid: u32,
    keys: Seq<Seq<u8>>,
    asked: Seq<Exchange>,
    response: ValueView,
) -> bool {
    if method == 6 {
        exists|found: bool|
            asked == seq![Exchange::Found(keys[0], found)] && response == #[trigger] found_reply(
                msgid,
                found,
            )
    } else if method == 0 {
        exists|answer: KeyFileResult<Vec<u8>>|
            asked == seq![Exchange::Read(keys[0], answer)] && response == #[trigger] read_reply(
                msgid,
                answer,
            )
    } else if method == 1 {
        exists|found: bool, stored: KeyFileResult<()>|
            asked == #[trigger] create_keyfile_asks(keys[0], keys[1], found, stored) && response
                == create_keyfile_reply(msgid, keys[0], found, stored)
    } else if method == 2 {
        exists|found: bool, stored: KeyFileResult<()>|
            asked == #[trigger] change_keyfile_asks(keys[0], keys[1], found, stored) && response
                == change_keyfile_reply(msgid, keys[0], found, stored)
    } else if method == 5 {
        exists|found: bool, removed: KeyFileResult<()>|
            asked == #[trigger] del_keyfile_asks(keys[0], found, removed) && response
                == change_keyfile_reply(msgid, keys[0], found, removed)
    } else if method == 3 {
        exists|
            new_found: bool,
            got: KeyFileResult<Vec<u8>>,
            removed: KeyFileResult<()>,
            stored: KeyFileResult<()>,
        |
            asked == #[trigger] change_key_asks(
                keys[0],
                keys[1],
                new_found,
                got,
                removed,
                stored,
            ) && response == change_key_reply(msgid, keys[1], new_found, got, removed, stored)
    } else {
        exists|new_found: bool, removed: KeyFileResult<()>, stored: KeyFileResult<()>|
            asked == #[trigger] replace_keyfile_asks(
                keys[0],
                keys[1],
                keys[2],
                new_found,
                removed,
                stored,
            ) && response == replace_keyfile_reply(msgid, keys[1], new_found, removed, stored)
    }
}

/// Whether the store was asked nothing that changes it: only whether a
/// key exists, and for keyfiles.
pub open spec fn only_reads(asked: Seq<Exchange>) -> bool {
    forall|i: int| 0 <= i < asked.len() ==> (#[trigger] asked[i]) is Found || asked[i] is Read
}

/// The response that says whether the key exists.
pub fn found_response(msgid: u32, found: bool) -> (r: AuthResponse)
    ensures
        r.value()@ == found_reply(msgid, found),
{
    AuthResponse::new(msgid, AuthError::Nil, Value::Boolean(found))
}

/// The response that says that the store did what was asked.
pub fn done_response(msgid: u32) -> (r: AuthResponse)
    ensures
        r.value()@ == done_reply(msgid),
{
    AuthResponse::new(msgid, AuthError::Nil, Value::Boolean(true))
}

/// The response that says that the key has no keyfile.
pub fn missing_response(msgid: u32, key: Vec<u8>) -> (r: AuthResponse)
    ensures
        r.value()@ == missing_reply(msgid, key@),
{
    AuthResponse::new(msgid, AuthError::KeyFileNotFound, Value::Binary(key))
}

/// The response that says that the key has a keyfile already.
pub fn taken_response(msgid: u32, key: Vec<u8>) -> (r: AuthResponse)
    ensures
        r.value()@ == taken_reply(msgid, key@),
{
    AuthResponse::new(msgid, AuthError::KeyFileExists, Value::Binary(key))
}

/// The response that says that the store failed.
pub fn failed_response(msgid: u32) -> (r: AuthResponse)
    ensures
        r.value()@ == failed_reply(msgid),
{
    AuthResponse::new(msgid, AuthError::DatabaseError, Value::Boolean(false))
}

/// The response to a read of a keyfile, for the answer of the store.
pub fn read_response(msgid: u32, answer: KeyFileResult<Vec<u8>>) -> (r: AuthResponse)
    ensures
        r.value()@ == read_reply(msgid, answer),
{
    match answer {
        Ok(f) => AuthResponse::new(msgid, AuthError::Nil, Value::Binary(f)),
        Err(KeyFileError::Key(k)) => missing_response(msgid, k),
        Err(KeyFileError::Other) => failed_response(msgid),
    }
}

/// The response to the last write of a request, for the answer of the
/// store.
pub fn write_response(msgid: u32, answer: KeyFileResult<()>) -> (r: AuthResponse)
    ensures
        r.value()@ == write_reply(msgid, answer),
{
    match answer {
        Ok(_) => done_response(msgid),
        Err(_) => failed_response(msgid),
    }
}

/// The response that ends `ReplaceKeyFile` after the removal of the old
/// key, for the answer of the store; none where the key was removed.
pub fn removal_response(msgid: u32, answer: KeyFileResult<()>) -> (r: Option<AuthResponse>)
    ensures
        match r {
            Some(resp) => removal_reply(msgid, answer) == Some(resp.value()@),
            None => removal_reply(msgid, answer) is None,
        },
{
    match answer {
        Ok(_) => None,
        Err(KeyFileError::Key(k)) => Some(missing_response(msgid, k)),
        Err(KeyFileError::Other) => Some(failed_response(msgid)),
    }
}

/// What follows from the answer to whether a key exists that has to be
/// free: where it exists, the response that ends the request; where it
/// does not, nothing, and the request goes on.
pub fn taken_or_go_on(msgid: u32, key: &Vec<u8>, found: bool) -> (r: Option<AuthResponse>)
    ensures
        match r {
            Some(resp) => found && resp.value()@ == taken_reply(msgid, key@),
            None => !found,
        },
{
    if found {
        Some(taken_response(msgid, copy_bytes(key.as_slice())))
    } else {
        None
    }
}

/// What follows from the answer to whether a key exists that has to be
/// there: where it does not exist, the response that ends the request;
/// where it does, nothing, and the request goes on.
pub fn missing_or_go_on(msgid: u32, key: &Vec<u8>, found: bool) -> (r: Option<AuthResponse>)
    ensures
        match r {
            Some(resp) => !found && resp.value()@ == missing_reply(msgid, key@),
            None => found,
        },
{
    if found {
        None
    } else {
        Some(missing_response(msgid, copy_bytes(key.as_slice())))
    }
}

/// What follows from the answer to the read of the keyfile that is to be
/// moved: the keyfile, with which the request goes on, or the response
/// that ends the request.
pub fn keyfile_or_response(msgid: u32, answer: KeyFileResult<Vec<u8>>) -> (r: core::result::Result<
    Vec<u8>,
    AuthResponse,
>)
    ensures
        match r {
            Ok(file) => answer == Ok::<Vec<u8>, KeyFileError>(file),
            Err(resp) => answer is Err && resp.value()@ == read_reply(msgid, answer),
        },
{
    match answer {
        Ok(file) => Ok(file),
        Err(e) => Err(read_response(msgid, Err(e))),
    }
}

/// What follows from the answer to a removal that has to succeed for the
/// request to go on: where it failed, for whatever reason, the response
/// that ends the request; where it did not, nothing.
pub fn failed_or_go_on(msgid: u32, answer: KeyFileResult<()>) -> (r: Option<AuthResponse>)
    ensures
        match r {
            Some(resp) => answer is Err && resp.value()@ == failed_reply(msgid),
            None => answer is Ok,
        },
{
    match answer {
        Ok(_) => None,
        Err(_) => Some(failed_response(msgid)),
    }
}

/// On a store that never fails, `KeyExists` answers whether the store
/// holds the key, and `GetKeyFile` answers the keyfile that the store
/// holds under the key, or is refused with the key where it holds none.
/// Neither changes the store.
pub proof fn law_reads(
    msgid: u32,
    key: Seq<u8>,
    files: Map<Seq<u8>, Seq<u8>>,
    asked: Seq<Exchange>,
    response: ValueView,
)
    requires
        auth_exchange(6, msgid, seq![key], asked, response) || auth_exchange(
            0,
            msgid,
            seq![key],
            asked,
            response,
        ),
        all_answered_by(files, asked),
    ensures
        files_after_all(files, asked) == files,
        only_reads(asked),
        auth_exchange(6, msgid, seq![key], asked, response) ==> response == found_reply(
            msgid,
            files.contains_key(key),
        ),
        auth_exchange(0, msgid, seq![key], asked, response) ==> response == (if files.contains_key(
            key,
        ) {
            keyfile_reply(msgid, files[key])
        } else {
            missing_reply(msgid, key)
        }),
{
    reveal_with_fuel(all_answered_by, 2);
    reveal_with_fuel(files_after_all, 2);
    assert(asked.len() == 1);
    assert(asked.drop_first() =~= Seq::<Exchange>::empty());
}

/// On a store that never fails, `CreateKeyFile` is refused with the key
/// where the store holds the key, and the store stays as it is; else the
/// keyfile is put under the key, and the answer is `true`.
pub proof fn law_create_keyfile(
    msgid: u32,
    key: Seq<u8>,
    file: Seq<u8>,
    files: Map<Seq<u8>, Seq<u8>>,
    asked: Seq<Exchange>,
    response: ValueView,
)
    requires
        auth_exchange(1, msgid, seq![key, file], asked, response),
        all_answered_by(files, asked),
    ensures
        files.contains_key(key) ==> response == taken_reply(msgid, key) && files_after_all(
            files,
            asked,
        ) == files,
        !files.contains_key(key) ==> response == done_reply(msgid) && files_after_all(
            files,
            asked,
        ) == files.insert(key, file),
{
    reveal_with_fuel(all_answered_by, 3);
    reveal_with_fuel(files_after_all, 3);
    let (found, stored) = choose|found: bool, stored: KeyFileResult<()>|
        asked == #[trigger] create_keyfile_asks(key, file, found, stored) && response
            == create_keyfile_reply(msgid, key, found, stored);
    if !found {
        assert(asked.drop_first() =~= seq![Exchange::Written(key, file, stored)]);
        assert(asked.drop_first().drop_first() =~= Seq::<Exchange>::empty());
    } else {
        assert(asked.drop_first() =~= Seq::<Exchange>::empty());
    }
}

/// On a store that never fails, `ChangeKeyFile` is refused with the key
/// where the store lacks the key, and the store stays as it is; else the
/// new keyfile is put under the key, and the answer is `true`.
pub proof fn law_change_keyfile(
    msgid: u32,
    key: Seq<u8>,
    file: Seq<u8>,
    files: Map<Seq<u8>, Seq<u8>>,
    asked: Seq<Exchange>,
    response: ValueView,
)
    requires
        auth_exchange(2, msgid, seq![key, file], asked, response),
        all_answered_by(files, asked),
    ensures
        !files.contains_key(key) ==> response == missing_reply(msgid, key) && files_after_all(
            files,
            asked,
        ) == files,
        files.contains_key(key) ==> response == done_reply(msgid) && files_after_all(
            files,
            asked,
        ) == files.insert(key, file),
{
    reveal_with_fuel(all_answered_by, 3);
    reveal_with_fuel(files_after_all, 3);
    let (found, stored) = choose|found: bool, stored: KeyFileResult<()>|
        asked == #[trigger] change_keyfile_asks(key, file, found, stored) && response
            == change_keyfile_reply(msgid, key, found, stored);
    if found {
        assert(asked.drop_first() =~= seq![Exchange::Written(key, file, stored)]);
        assert(asked.drop_first().drop_first() =~= Seq::<Exchange>::empty());
    } else {
        assert(asked.drop_first() =~= Seq::<Exchange>::empty());
    }
}

/// On a store that never fails, `DeleteKeyFile` is refused with the key
/// where the store lacks the key, and the store stays as it is; else the
/// key is removed, and the answer is `true`.
pub proof fn law_del_keyfile(
    msgid: u32,
    key: Seq<u8>,
    files: Map<Seq<u8>, Seq<u8>>,
    asked: Seq<Exchange>,
    response: ValueView,
)
    requires
        auth_exchange(5, msgid, seq![key], asked, response),
        all_answered_by(files, asked),
    ensures
        !files.contains_key(key) ==> response == missing_reply(msgid, key) && files_after_all(
            files,
            asked,
        ) == files,
        files.contains_key(key) ==> response == done_reply(msgid) && files_after_all(
            files,
            asked,
        ) == files.remove(key),
{
    reveal_with_fuel(all_answered_by, 3);
    reveal_with_fuel(files_after_all, 3);
    let (found, removed) = choose|found: bool, removed: KeyFileResult<()>|
        asked == #[trigger] del_keyfile_asks(key, found, removed) && response
            == change_keyfile_reply(msgid, key, found, removed);
    if found {
        assert(asked.drop_first() =~= seq![Exchange::Removed(key, removed)]);
        assert(asked.drop_first().drop_first() =~= Seq::<Exchange>::empty());
    } else {
        assert(asked.drop_first() =~= Seq::<Exchange>::empty());
    }
}

/// On a store that never fails, `ChangeKey` is refused with the new key
/// where the store holds the new key, whether or not it holds the old
/// one, and with the old key where it holds neither; either way the store
/// stays as it is. Else the keyfile of the old key is under the new key
/// afterwards, the old key is gone, and the answer is `true`.
pub proof fn law_change_key(
    msgid: u32,
    oldkey: Seq<u8>,
    newkey: Seq<u8>,
    files: Map<Seq<u8>, Seq<u8>>,
    asked: Seq<Exchange>,
    response: ValueView,
)
    requires
        auth_exchange(3, msgid, seq![oldkey, newkey], asked, response),
        all_answered_by(files, asked),
    ensures
        files.contains_key(newkey) ==> response == taken_reply(msgid, newkey) && files_after_all(
            files,
            asked,
        ) == files,
        !files.contains_key(newkey) && !files.contains_key(oldkey) ==> response == missing_reply(
            msgid,
            oldkey,
        ) && files_after_all(files, asked) == files,
        !files.contains_key(newkey) && files.contains_key(oldkey) ==> response == done_reply(
            msgid,
        ) && files_after_all(files, asked) == files.remove(oldkey).insert(newkey, files[oldkey]),
{
    reveal_with_fuel(all_answered_by, 5);
    reveal_with_fuel(files_after_all, 5);
    let (new_found, got, removed, stored) = choose|
        new_found: bool,
        got: KeyFileResult<Vec<u8>>,
        removed: KeyFileResult<()>,
        stored: KeyFileResult<()>,
    |
        asked == #[trigger] change_key_asks(oldkey, newkey, new_found, got, removed, stored)
            && response == change_key_reply(msgid, newkey, new_found, got, removed, stored);
    let first = Exchange::Found(newkey, new_found);
    let second = Exchange::Read(oldkey, got);
    let third = Exchange::Removed(oldkey, removed);
    let fourth = Exchange::Written(newkey, got->Ok_0@, stored);
    if new_found {
        assert(asked.drop_first() =~= Seq::<Exchange>::empty());
    } else if got is Err {
        assert(asked.drop_first() =~= seq![second]);
        assert(asked.drop_first().drop_first() =~= Seq::<Exchange>::empty());
    } else if removed is Err {
        assert(asked.drop_first() =~= seq![second, third]);
        assert(asked.drop_first().drop_first() =~= seq![third]);
        assert(asked.drop_first().drop_first().drop_first() =~= Seq::<Exchange>::empty());
    } else {
        assert(asked.drop_first() =~= seq![second, third, fourth]);
        assert(asked.drop_first().drop_first() =~= seq![third, fourth]);
        assert(asked.drop_first().drop_first().drop_first() =~= seq![fourth]);
        assert(asked.drop_first().drop_first().drop_first().drop_first() =~= Seq::<
            Exchange,
        >::empty());
    }
}

/// On a store that never fails, `ReplaceKeyFile` is refused with the new
/// key where the store holds the new key, and with the old key where it
/// holds neither; either way the store stays as it is. Else the new
/// keyfile is under the new key afterwards, the old key is gone, and the
/// answer is `true`.
pub proof fn law_replace_keyfile(
    msgid: u32,
    oldkey: Seq<u8>,
    newkey: Seq<u8>,
    file: Seq<u8>,
    files: Map<Seq<u8>, Seq<u8>>,
    asked: Seq<Exchange>,
    response: ValueView,
)
    requires
        auth_exchange(4, msgid, seq![oldkey, newkey, file], asked, response),
        all_answered_by(files, asked),
    ensures
        files.contains_key(newkey) ==> response == taken_reply(msgid, newkey) && files_after_all(
            files,
            asked,
        ) == files,
        !files.contains_key(newkey) && !files.contains_key(oldkey) ==> response == missing_reply(
            msgid,
            oldkey,
        ) && files_after_all(files, asked) == files,
        !files.contains_key(newkey) && files.contains_key(oldkey) ==> response == done_reply(
            msgid,
        ) && files_after_all(files, asked) == files.remove(oldkey).insert(newkey, file),
{
    reveal_with_fuel(all_answered_by, 4);
    reveal_with_fuel(files_after_all, 4);
    let (new_found, removed, stored) = choose|
        new_found: bool,
        removed: KeyFileResult<()>,
        stored: KeyFileResult<()>,
    |
        asked == #[trigger] replace_keyfile_asks(oldkey, newkey, file, new_found, removed, stored)
            && response == replace_keyfile_reply(msgid, newkey, new_found, removed, stored);
    let second = Exchange::Removed(oldkey, removed);
    let third = Exchange::Written(newkey, file, stored);
    if new_found {
        assert(asked.drop_first() =~= Seq::<Exchange>::empty());
    } else if removed is Err {
        assert(asked.drop_first() =~= seq![second]);
        assert(asked.drop_first().drop_first() =~= Seq::<Exchange>::empty());
        assert(files.remove(oldkey) =~= files);
    } else {
        assert(asked.drop_first() =~= seq![second, third]);
        assert(asked.drop_first().drop_first() =~= seq![third]);
        assert(asked.drop_first().drop_first().drop_first() =~= Seq::<Exchange>::empty());
    }
}

/// The state of an open authenticated session.
pub struct ProcessAuthMessage<S: KeyFileStore> {
    db: Recorded<S>,
}

impl<S: KeyFileStore> ProcessAuthMessage<S> {
    /// The state of an open authenticated session on the store `db`,
    /// which was asked nothing yet.
    pub fn new(db: S) -> (r: Self)
        ensures
            r.store() == db,
            r.record() == Seq::<Exchange>::empty(),
    {
        ProcessAuthMessage { db: Recorded::new(db) }
    }

    /// The store of the session.
    pub closed spec fn store(&self) -> S {
        self.db.store()
    }

    /// What the session has asked the store, and what the store answered.
    pub closed spec fn record(&self) -> Seq<Exchange> {
        self.db.record()
    }
}

/// Whether the valid request `request`, served as the method of the number
/// `method`, has the outcome `outcome` after it has asked the store
/// `asked`.
///
/// Arguments that will not do are an error, and the store is not asked:
/// an argument that is not binary is an `InvalidRequest` error, a wrong
/// number of arguments an `InvalidRequestArgs` error. Else the request is
/// answered, as the answers of the store decide.
pub open spec fn auth_request_outcome(
    request: ValueView,
    method: u8,
    asked: Seq<Exchange>,
    outcome: StateResult<ValueView>,
) -> bool {
    let args = binary_args(request_args(request), auth_arity(method));
    match outcome {
        Ok(response) => args is Ok && auth_exchange(
            method,
            request_id(request),
            args->Ok_0,
            asked,
            response,
        ),
        Err(e) => args == Err::<Seq<Seq<u8>>, ProtocolError>(e) && asked.len() == 0,
    }
}

/// Whether the message `message`, taken as a request of an authenticated
/// session, has the outcome `outcome` after it has asked the store
/// `asked`. A message that is no such request is an `InvalidRequest`
/// error, and the store is not asked.
pub open spec fn auth_outcome(
    message: ValueView,
    asked: Seq<Exchange>,
    outcome: StateResult<ValueView>,
) -> bool {
    if request_fault::<AuthMessage>(message) is Some {
        asked.len() == 0 && outcome == Err::<ValueView, ProtocolError>(
            ProtocolError::InvalidRequest,
        )
    } else {
        auth_request_outcome(message, request_code(message), asked, outcome)
    }
}

/// The outcome of a request by what it holds: the response by its value.
pub open spec fn outcome_of(r: StateResult<AuthResponse>) -> StateResult<ValueView> {
    match r {
        Ok(resp) => Ok(resp.value()@),
        Err(e) => Err(e),
    }
}

/// Serves the requests of an authenticated session.
pub struct ProcessAuthRequest;

impl ProcessAuthRequest {
    /// Answers the request that the message is.
    ///
    /// A message that is no request of this session is an `InvalidRequest`
    /// error, and so is one with an argument that is not binary; a wrong
    /// number of arguments is an `InvalidRequestArgs` error. Else the
    /// store is asked what the method asks, in its order, and the answers
    /// decide the response. The store is as it was unless it was asked to
    /// write or to remove.
    pub fn run<S: KeyFileStore>(&self, db: &mut Recorded<S>, m: Message) -> (r: StateResult<
        AuthResponse,
    >)
        ensures
            goes_on(old(db).record(), final(db).record()),
            auth_outcome(
                m.value()@,
                asked_since(old(db).record(), final(db).record()),
                outcome_of(r),
            ),
            only_reads(asked_since(old(db).record(), final(db).record())) ==> final(db).store()
                == old(db).store(),
    {
        let req = match AuthRequest::from(m) {
            Ok(req) => req,
            Err(_) => {
                assert(asked_since(db.record(), db.record()).len() == 0);
                assert(db.record().subrange(0, db.record().len() as int) =~= db.record());
                return Err(ProtocolError::InvalidRequest);
            },
        };
        match req.message_code() {
            AuthMessage::KeyExists => self.req_key_exists(req, db),
            AuthMessage::GetKeyFile => self.req_get_keyfile(req, db),
            AuthMessage::CreateKeyFile => self.req_create_keyfile(req, db),
            AuthMessage::ChangeKeyFile => self.req_change_keyfile(req, db),
            AuthMessage::DeleteKeyFile => self.req_del_keyfile(req, db),
            AuthMessage::ChangeKey => self.req_change_key(req, db),
            AuthMessage::ReplaceKeyFile => self.req_replace_keyfile(req, db),
        }
    }

    /// The bytes of the arguments of the request, of which there must be
    /// `numargs`, all binary.
    pub fn _check_message(&self, req: &AuthRequest, numargs: usize) -> (r: StateResult<
        Vec<Vec<u8>>,
    >)
        ensures
            match r {
                Ok(keys) => binary_args(request_args(req.value()@), numargs as nat) == Ok::<
                    Seq<Seq<u8>>,
                    ProtocolError,
                >(bytes_of(keys@)) && keys@.len() == numargs,
                Err(e) => binary_args(request_args(req.value()@), numargs as nat) == Err::<
                    Seq<Seq<u8>>,
                    ProtocolError,
                >(e),
            },
    {
        let args = req.message_args();
        let ghost views = request_args(req.value()@);
        if args.len() != numargs {
            return Err(ProtocolError::InvalidRequestArgs);
        }
        let mut ret: Vec<Vec<u8>> = Vec::new();
        let mut i: usize = 0;
        while i < numargs
            invariant
                i <= numargs,
                args@.len() == numargs,
                views.len() == numargs,
                views == request_args(req.value()@),
                forall|j: int| 0 <= j < numargs ==> views[j] == args@[j]@,
                ret@.len() == i,
                forall|j: int| 0 <= j < i ==> views[j] == ValueView::Binary(#[trigger] ret@[j]@),
            decreases numargs - i,
        {
            match &args[i] {
                Value::Binary(bytes) => {
                    ret.push(copy_bytes(bytes.as_slice()));
                },
                _ => {
                    assert(!(views[i as int] is Binary));
                    return Err(ProtocolError::InvalidRequest);
                },
            }
            i += 1;
        }
        proof {
            assert forall|j: int| 0 <= j < numargs implies #[trigger] views[j] is Binary by {
                assert(views[j] == ValueView::Binary(ret@[j]@));
            }
            assert(bytes_of(ret@) =~= Seq::new(numargs as nat, |j: int| views[j]->Binary_0));
        }
        Ok(ret)
    }

    /// Answers `KeyExists`: asks the store whether the key exists, and
    /// answers what the store says.
    pub fn req_key_exists<S: KeyFileStore>(
        &self,
        req: AuthRequest,
        db: &mut Recorded<S>,
    ) -> (r: StateResult<AuthResponse>)
        ensures
            goes_on(old(db).record(), final(db).record()),
            auth_request_outcome(
                req.value()@,
                6,
                asked_since(old(db).record(), final(db).record()),
                outcome_of(r),
            ),
            only_reads(asked_since(old(db).record(), final(db).record())) ==> final(db).store()
                == old(db).store(),
    {
        let ghost before = db.record();
        let mut args = match self._check_message(&req, 1) {
            Ok(args) => args,
            Err(e) => {
                assert(asked_since(before, db.record()).len() == 0);
                assert(db.record().subrange(0, before.len() as int) =~= before);
                return Err(e);
            },
        };
        let msgid = req.message_id();
        let key = args.pop().unwrap();
        let found = db.key_exists(&key);
        let resp = found_response(msgid, found);
        proof {
            assert(asked_since(before, db.record()) =~= seq![Exchange::Found(key@, found)]);
            assert(db.record().subrange(0, before.len() as int) =~= before);
            assert(resp.value()@ == found_reply(msgid, found));
        }
        Ok(resp)
    }

    /// Answers `GetKeyFile`: asks the store for the keyfile under the key,
    /// and answers with what the store says.
    pub fn req_get_keyfile<S: KeyFileStore>(
        &self,
        req: AuthRequest,
        db: &mut Recorded<S>,
    ) -> (r: StateResult<AuthResponse>)
        ensures
            goes_on(old(db).record(), final(db).record()),
            auth_request_outcome(
                req.value()@,
                0,
                asked_since(old(db).record(), final(db).record()),
                outcome_of(r),
            ),
            only_reads(asked_since(old(db).record(), final(db).record())) ==> final(db).store()
                == old(db).store(),
    {
        let ghost before = db.record();
        let mut args = match self._check_message(&req, 1) {
            Ok(args) => args,
            Err(e) => {
                assert(asked_since(before, db.record()).len() == 0);
                assert(db.record().subrange(0, before.len() as int) =~= before);
                return Err(e);
            },
        };
        let msgid = req.message_id();
        let key = args.pop().unwrap();
        let answer = db.get(&key);
        let ghost answered = answer;
        let resp = read_response(msgid, answer);
        proof {
            assert(asked_since(before, db.record()) =~= seq![Exchange::Read(key@, answered)]);
            assert(db.record().subrange(0, before.len() as int) =~= before);
            assert(resp.value()@ == read_reply(msgid, answered));
        }
        Ok(resp)
    }

    /// Answers `CreateKeyFile`: asks whether the key exists. Where it does,
    /// the request is refused; else the keyfile is put under it.
    pub fn req_create_keyfile<S: KeyFileStore>(
        &self,
        req: AuthRequest,
        db: &mut Recorded<S>,
    ) -> (r: StateResult<AuthResponse>)
        ensures
            goes_on(old(db).record(), final(db).record()),
            auth_request_outcome(
                req.value()@,
                1,
                asked_since(old(db).record(), final(db).record()),
                outcome_of(r),
            ),
            only_reads(asked_since(old(db).record(), final(db).record())) ==> final(db).store()
                == old(db).store(),
    {
        let ghost before = db.record();
        let mut args = match self._check_message(&req, 2) {
            Ok(args) => args,
            Err(e) => {
                assert(asked_since(before, db.record()).len() == 0);
                assert(db.record().subrange(0, before.len() as int) =~= before);
                return Err(e);
            },
        };
        let msgid = req.message_id();
        let keyfile = args.pop().unwrap();
        let key = args.pop().unwrap();
        let found = db.key_exists(&key);
        if let Some(resp) = taken_or_go_on(msgid, &key, found) {
            proof {
                assert(asked_since(before, db.record()) =~= create_keyfile_asks(
                    key@,
                    keyfile@,
                    found,
                    Ok(()),
                ));
                assert(db.record().subrange(0, before.len() as int) =~= before);
                assert(resp.value()@ == create_keyfile_reply(msgid, key@, found, Ok(())));
            }
            return Ok(resp);
        }
        let stored = db.set(&key, &keyfile);
        let ghost written = stored;
        let resp = write_response(msgid, stored);
        proof {
            assert(asked_since(before, db.record()) =~= create_keyfile_asks(
                key@,
                keyfile@,
                found,
                written,
            ));
            assert(db.record().subrange(0, before.len() as int) =~= before);
            assert(resp.value()@ == create_keyfile_reply(msgid, key@, found, written));
            assert(!(asked_since(before, db.record())[1] is Found) && !(asked_since(
                before,
                db.record(),
            )[1] is Read));
        }
        Ok(resp)
    }

    /// Answers `ChangeKeyFile`: asks whether the key exists. Where it does
    /// not, the request is refused; else the new keyfile is put under it.
    pub fn req_change_keyfile<S: KeyFileStore>(
        &self,
        req: AuthRequest,
        db: &mut Recorded<S>,
    ) -> (r: StateResult<AuthResponse>)
        ensures
            goes_on(old(db).record(), final(db).record()),
            auth_request_outcome(
                req.value()@,
                2,
                asked_since(old(db).record(), final(db).record()),
                outcome_of(r),
            ),
            only_reads(asked_since(old(db).record(), final(db).record())) ==> final(db).store()
                == old(db).store(),
    {
        let ghost before = db.record();
        let mut args = match self._check_message(&req, 2) {
            Ok(args) => args,
            Err(e) => {
                assert(asked_since(before, db.record()).len() == 0);
                assert(db.record().subrange(0, before.len() as int) =~= before);
                return Err(e);
            },
        };
        let msgid = req.message_id();
        let new_keyfile = args.pop().unwrap();
        let key = args.pop().unwrap();
        let found = db.key_exists(&key);
        if let Some(resp) = missing_or_go_on(msgid, &key, found) {
            proof {
                assert(asked_since(before, db.record()) =~= change_keyfile_asks(
                    key@,
                    new_keyfile@,
                    found,
                    Ok(()),
                ));
                assert(db.record().subrange(0, before.len() as int) =~= before);
                assert(resp.value()@ == change_keyfile_reply(msgid, key@, found, Ok(())));
            }
            return Ok(resp);
        }
        let stored = db.set(&key, &new_keyfile);
        let ghost written = stored;
        let resp = write_response(msgid, stored);
        proof {
            assert(asked_since(before, db.record()) =~= change_keyfile_asks(
                key@,
                new_keyfile@,
                found,
                written,
            ));
            assert(db.record().subrange(0, before.len() as int) =~= before);
            assert(resp.value()@ == change_keyfile_reply(msgid, key@, found, written));
            assert(!(asked_since(before, db.record())[1] is Found) && !(asked_since(
                before,
                db.record(),
            )[1] is Read));
        }
        Ok(resp)
    }

    /// Answers `DeleteKeyFile`: asks whether the key exists. Where it does
    /// not, the request is refused; else its keyfile is removed.
    pub fn req_del_keyfile<S: KeyFileStore>(
        &self,
        req: AuthRequest,
        db: &mut Recorded<S>,
    ) -> (r: StateResult<AuthResponse>)
        ensures
            goes_on(old(db).record(), final(db).record()),
            auth_request_outcome(
                req.value()@,
                5,
                asked_since(old(db).record(), final(db).record()),
                outcome_of(r),
            ),
            only_reads(asked_since(old(db).record(), final(db).record())) ==> final(db).store()
                == old(db).store(),
    {
        let ghost before = db.record();
        let mut args = match self._check_message(&req, 1) {
            Ok(args) => args,
            Err(e) => {
                assert(asked_since(before, db.record()).len() == 0);
                assert(db.record().subrange(0, before.len() as int) =~= before);
                return Err(e);
            },
        };
        let msgid = req.message_id();
        let key = args.pop().unwrap();
        let found = db.key_exists(&key);
        if let Some(resp) = missing_or_go_on(msgid, &key, found) {
            proof {
                assert(asked_since(before, db.record()) =~= del_keyfile_asks(key@, found, Ok(())));
                assert(db.record().subrange(0, before.len() as int) =~= before);
                assert(resp.value()@ == change_keyfile_reply(msgid, key@, found, Ok(())));
            }
            return Ok(resp);
        }
        let removed = db.delete(&key);
        let ghost written = removed;
        let resp = write_response(msgid, removed);
        proof {
            assert(asked_since(before, db.record()) =~= del_keyfile_asks(key@, found, written));
            assert(db.record().subrange(0, before.len() as int) =~= before);
            assert(resp.value()@ == change_keyfile_reply(msgid, key@, found, written));
            assert(!(asked_since(before, db.record())[1] is Found) && !(asked_since(
                before,
                db.record(),
            )[1] is Read));
        }
        Ok(resp)
    }

    /// Answers `ChangeKey`: asks whether the new key exists, and refuses the
    /// request where it does. Else it reads the keyfile of the old key,
    /// removes the old key, and puts the keyfile under the new key; the
    /// first of these that fails ends the request.
    pub fn req_change_key<S: KeyFileStore>(
        &self,
        req: AuthRequest,
        db: &mut Recorded<S>,
    ) -> (r: StateResult<AuthResponse>)
        ensures
            goes_on(old(db).record(), final(db).record()),
            auth_request_outcome(
                req.value()@,
                3,
                asked_since(old(db).record(), final(db).record()),
                outcome_of(r),
            ),
            only_reads(asked_since(old(db).record(), final(db).record())) ==> final(db).store()
                == old(db).store(),
    {
        let ghost before = db.record();
        let mut args = match self._check_message(&req, 2) {
            Ok(args) => args,
            Err(e) => {
                assert(asked_since(before, db.record()).len() == 0);
                assert(db.record().subrange(0, before.len() as int) =~= before);
                return Err(e);
            },
        };
        let msgid = req.message_id();
        let newkey = args.pop().unwrap();
        let oldkey = args.pop().unwrap();
        let ghost unasked: KeyFileResult<Vec<u8>> = Err(KeyFileError::Other);
        let new_found = db.key_exists(&newkey);
        if let Some(resp) = taken_or_go_on(msgid, &newkey, new_found) {
            proof {
                assert(asked_since(before, db.record()) =~= change_key_asks(
                    oldkey@,
                    newkey@,
                    new_found,
                    unasked,
                    Ok(()),
                    Ok(()),
                ));
                assert(db.record().subrange(0, before.len() as int) =~= before);
                assert(resp.value()@ == change_key_reply(
                    msgid,
                    newkey@,
                    new_found,
                    unasked,
                    Ok(()),
                    Ok(()),
                ));
            }
            return Ok(resp);
        }
        let got = db.get(&oldkey);
        let ghost got_answer = got;
        let keyfile: Vec<u8> = match keyfile_or_response(msgid, got) {
            Ok(kf) => kf,
            Err(resp) => {
                proof {
                    assert(asked_since(before, db.record()) =~= change_key_asks(
                        oldkey@,
                        newkey@,
                        new_found,
                        got_answer,
                        Ok(()),
                        Ok(()),
                    ));
                    assert(db.record().subrange(0, before.len() as int) =~= before);
                    assert(resp.value()@ == change_key_reply(
                        msgid,
                        newkey@,
                        new_found,
                        got_answer,
                        Ok(()),
                        Ok(()),
                    ));
                }
                return Ok(resp);
            },
        };
        let removed = db.delete(&oldkey);
        let ghost removed_answer = removed;
        if let Some(resp) = failed_or_go_on(msgid, removed) {
            proof {
                assert(asked_since(before, db.record()) =~= change_key_asks(
                    oldkey@,
                    newkey@,
                    new_found,
                    got_answer,
                    removed_answer,
                    Ok(()),
                ));
                assert(db.record().subrange(0, before.len() as int) =~= before);
                assert(resp.value()@ == change_key_reply(
                    msgid,
                    newkey@,
                    new_found,
                    got_answer,
                    removed_answer,
                    Ok(()),
                ));
                assert(!(asked_since(before, db.record())[2] is Found) && !(asked_since(
                    before,
                    db.record(),
                )[2] is Read));
            }
            return Ok(resp);
        }
        let stored = db.set(&newkey, &keyfile);
        let ghost stored_answer = stored;
        let resp = write_response(msgid, stored);
        proof {
            assert(asked_since(before, db.record()) =~= change_key_asks(
                oldkey@,
                newkey@,
                new_found,
                got_answer,
                removed_answer,
                stored_answer,
            ));
            assert(db.record().subrange(0, before.len() as int) =~= before);
            assert(resp.value()@ == change_key_reply(
                msgid,
                newkey@,
                new_found,
                got_answer,
                removed_answer,
                stored_answer,
            ));
            assert(!(asked_since(before, db.record())[2] is Found) && !(asked_since(
                before,
                db.record(),
            )[2] is Read));
        }
        Ok(resp)
    }

    /// Answers `ReplaceKeyFile`: asks whether the new key exists, and
    /// refuses the request where it does. Else it removes the old key and
    /// puts the new keyfile under the new key; the first of these that
    /// fails ends the request.
    pub fn req_replace_keyfile<S: KeyFileStore>(
        &self,
        req: AuthRequest,
        db: &mut Recorded<S>,
    ) -> (r: StateResult<AuthResponse>)
        ensures
            goes_on(old(db).record(), final(db).record()),
            auth_request_outcome(
                req.value()@,
                4,
                asked_since(old(db).record(), final(db).record()),
                outcome_of(r),
            ),
            only_reads(asked_since(old(db).record(), final(db).record())) ==> final(db).store()
                == old(db).store(),
    {
        let ghost before = db.record();
        let ghost keys = binary_args(request_args(req.value()@), 3)->Ok_0;
        let mut args = match self._check_message(&req, 3) {
            Ok(args) => args,
            Err(e) => {
                assert(asked_since(before, db.record()).len() == 0);
                assert(db.record().subrange(0, before.len() as int) =~= before);
                return Err(e);
            },
        };
        let msgid = req.message_id();
        let ghost all = args@;
        let newkeyfile = args.pop().unwrap();
        let newkey = args.pop().unwrap();
        let oldkey = args.pop().unwrap();
        assert(keys[0] == bytes_of(all)[0] && keys[1] == bytes_of(all)[1] && keys[2] == bytes_of(
            all,
        )[2]);
        assert(keys[0] == oldkey@ && keys[1] == newkey@ && keys[2] == newkeyfile@);
        let new_found = db.key_exists(&newkey);
        if let Some(resp) = taken_or_go_on(msgid, &newkey, new_found) {
            proof {
                assert(asked_since(before, db.record()) =~= replace_keyfile_asks(
                    oldkey@,
                    newkey@,
                    newkeyfile@,
                    new_found,
                    Ok(()),
                    Ok(()),
                ));
                assert(db.record().subrange(0, before.len() as int) =~= before);
                assert(resp.value()@ == replace_keyfile_reply(
                    msgid,
                    newkey@,
                    new_found,
                    Ok(()),
                    Ok(()),
                ));
            }
            return Ok(resp);
        }
        let removed = db.delete(&oldkey);
        let ghost removed_answer = removed;
        if let Some(resp) = removal_response(msgid, removed) {
            proof {
                assert(asked_since(before, db.record()) =~= replace_keyfile_asks(
                    oldkey@,
                    newkey@,
                    newkeyfile@,
                    new_found,
                    removed_answer,
                    Ok(()),
                ));
                assert(db.record().subrange(0, before.len() as int) =~= before);
                assert(resp.value()@ == replace_keyfile_reply(
                    msgid,
                    newkey@,
                    new_found,
                    removed_answer,
                    Ok(()),
                ));
                assert(!(asked_since(before, db.record())[1] is Found) && !(asked_since(
                    before,
                    db.record(),
                )[1] is Read));
            }
            return Ok(resp);
        }
        let stored = db.set(&newkey, &newkeyfile);
        let ghost stored_answer = stored;
        let resp = write_response(msgid, stored);
        proof {
            assert(asked_since(before, db.record()) =~= replace_keyfile_asks(
                oldkey@,
                newkey@,
                newkeyfile@,
                new_found,
                removed_answer,
                stored_answer,
            ));
            assert(db.record().subrange(0, before.len() as int) =~= before);
            assert(resp.value()@ == replace_keyfile_reply(
                msgid,
                newkey@,
                new_found,
                removed_answer,
                stored_answer,
            ));
            assert(!(asked_since(before, db.record())[1] is Found) && !(asked_since(
                before,
                db.record(),
            )[1] is Read));
        }
        Ok(resp)
    }
}

impl<S: KeyFileStore> SessionState<S> for ProcessAuthMessage<S> {
    /// A request is answered, and the session stays open with the response.
    /// The notice `Done` ends the session. A response, a message of an
    /// unknown type and any other notice are protocol errors. The store is
    /// asked for a request only.
    fn change(self, m: Message) -> (r: StateResult<State<S>>)
        ensures
            match r {
                Ok(State::ProcessAuthMessage(next, response)) => {
                    &&& goes_on(self.record(), next.record())
                    &&& message_head(m.value()@) == 0
                    &&& response is Some
                    &&& auth_outcome(
                        m.value()@,
                        asked_since(self.record(), next.record()),
                        Ok(response->0.value()@),
                    )
                    &&& only_reads(asked_since(self.record(), next.record())) ==> next.store()
                        == self.store()
                },
                Ok(State::AuthEnd) => message_head(m.value()@) == 2 && notification_fault::<
                    AuthNotice,
                >(m.value()@) is None,
                Ok(_) => false,
                Err(e) => if message_head(m.value()@) == 0 {
                    auth_outcome(m.value()@, Seq::<Exchange>::empty(), Err(e))
                } else if message_head(m.value()@) == 1 {
                    e == ProtocolError::UnexpectedMessage
                } else if message_head(m.value()@) == 2 {
                    notification_fault::<AuthNotice>(m.value()@) is Some && e
                        == ProtocolError::InvalidNotification
                } else {
                    e == ProtocolError::InvalidMessageType
                },
            },
    {
        let msgtype = match m.message_type() {
            Ok(t) => t,
            Err(_) => {
                return Err(ProtocolError::InvalidMessageType);
            },
        };
        match msgtype {
            MessageType::Request => {
                let mut next = self;
                let ghost before = next.db.record();
                match ProcessAuthRequest.run(&mut next.db, m) {
                    Ok(response) => Ok(State::ProcessAuthMessage(next, Some(response))),
                    Err(e) => {
                        assert(asked_since(before, next.db.record()) =~= Seq::<Exchange>::empty());
                        Err(e)
                    },
                }
            },
            MessageType::Notification => {
                let notice = match AuthInfo::from(m) {
                    Ok(notice) => notice,
                    Err(_) => {
                        return Err(ProtocolError::InvalidNotification);
                    },
                };
                match notice.message_code() {
                    AuthNotice::Done => Ok(State::AuthEnd),
                }
            },
            MessageType::Response => Err(ProtocolError::UnexpectedMessage),
        }
    }
}

} // verus!
