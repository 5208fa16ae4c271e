use safesec::network::rpc::{Message, RpcResponse};
use safesec::protocol::message::{AuthError, AuthMessage, AuthNotice, ProtocolError};
use safesec::service::state::auth::{
    failed_or_go_on, keyfile_or_response, missing_or_go_on, removal_response, taken_or_go_on,
    AuthInfo, AuthRequest, AuthResponse, ProcessAuthMessage, ProcessAuthRequest,
};
use safesec::service::state::{SessionState, State};
use safesec::storage::{KeyFileError, KeyFileResult, KeyFileStore, Recorded};
use safesec::value::Value;
use std::cell::RefCell;
use std::rc::Rc;

struct FakeDB {
    exists: fn(&Vec<u8>) -> bool,
    get: fn(&Vec<u8>) -> KeyFileResult<Vec<u8>>,
    set: fn(&Vec<u8>, &Vec<u8>) -> KeyFileResult<()>,
    delete: fn(&Vec<u8>) -> KeyFileResult<()>,
}

impl KeyFileStore for FakeDB {
    fn key_exists(&self, k: &Vec<u8>) -> bool {
        (self.exists)(k)
    }
    fn get(&self, k: &Vec<u8>) -> KeyFileResult<Vec<u8>> {
        (self.get)(k)
    }
    fn set(&mut self, k: &Vec<u8>, file: &Vec<u8>) -> KeyFileResult<()> {
        (self.set)(k, file)
    }
    fn delete(&mut self, k: &Vec<u8>) -> KeyFileResult<()> {
        (self.delete)(k)
    }
}

fn no_exists(_k: &Vec<u8>) -> bool {
    panic!("exists is not expected")
}

fn no_get(_k: &Vec<u8>) -> KeyFileResult<Vec<u8>> {
    panic!("get is not expected")
}

fn no_set(_k: &Vec<u8>, _file: &Vec<u8>) -> KeyFileResult<()> {
    panic!("set is not expected")
}

fn no_delete(_k: &Vec<u8>) -> KeyFileResult<()> {
    panic!("delete is not expected")
}

fn bytes(text: &str) -> Vec<u8> {
    text.to_string().into_bytes()
}

fn bin(text: &str) -> Value {
    Value::Binary(bytes(text))
}

fn is_answer(k: &Vec<u8>) -> bool {
    &bytes("ANSWER") == k
}

fn is_not_answer(k: &Vec<u8>) -> bool {
    &bytes("ANSWER") != k
}

fn is_not_universe(k: &Vec<u8>) -> bool {
    &bytes("UNIVERSE") != k
}

fn always(_k: &Vec<u8>) -> bool {
    true
}

fn never(_k: &Vec<u8>) -> bool {
    false
}

fn get_42(_k: &Vec<u8>) -> KeyFileResult<Vec<u8>> {
    Ok(bytes("42"))
}

fn get_life(_k: &Vec<u8>) -> KeyFileResult<Vec<u8>> {
    Ok(bytes("LIFE"))
}

fn get_42_of_answer(k: &Vec<u8>) -> KeyFileResult<Vec<u8>> {
    if &bytes("ANSWER") == k {
        Ok(bytes("42"))
    } else {
        unreachable!()
    }
}

fn get_missing_unless_answer(k: &Vec<u8>) -> KeyFileResult<Vec<u8>> {
    if &bytes("ANSWER") != k {
        Err(KeyFileError::Key(k.clone()))
    } else {
        unreachable!()
    }
}

fn get_missing(k: &Vec<u8>) -> KeyFileResult<Vec<u8>> {
    Err(KeyFileError::Key(Vec::from(&k[..])))
}

fn get_fails(_k: &Vec<u8>) -> KeyFileResult<Vec<u8>> {
    Err(KeyFileError::Other)
}

fn set_ok(_k: &Vec<u8>, _file: &Vec<u8>) -> KeyFileResult<()> {
    Ok(())
}

fn set_fails(_k: &Vec<u8>, _file: &Vec<u8>) -> KeyFileResult<()> {
    Err(KeyFileError::Other)
}

fn delete_ok(_k: &Vec<u8>) -> KeyFileResult<()> {
    Ok(())
}

fn delete_fails(_k: &Vec<u8>) -> KeyFileResult<()> {
    Err(KeyFileError::Other)
}

fn delete_missing(k: &Vec<u8>) -> KeyFileResult<()> {
    Err(KeyFileError::Key(k.clone()))
}

fn unused_db() -> FakeDB {
    FakeDB { exists: no_exists, get: no_get, set: no_set, delete: no_delete }
}

fn is_answer_or_universe(k: &Vec<u8>) -> bool {
    let old = bytes("ANSWER");
    let new = bytes("UNIVERSE");
    &old == k || &new == k
}

#[test]
fn processauthmessage_request_error() {
    let db = FakeDB { exists: is_answer, get: get_42_of_answer, set: no_set, delete: no_delete };

    let key = bytes("noanswer");
    let args = vec![Value::Binary(key), Value::Nil];
    let req = AuthRequest::new(42, AuthMessage::GetKeyFile, args);
    let msg: Message = req.into_message();
    let process_msg = ProcessAuthMessage::new(db);

    let result = process_msg.change(msg);

    let val = match result {
        Err(ProtocolError::InvalidRequestArgs) => true,
        _ => false,
    };
    assert!(val);
}

#[test]
fn processauthmessage_response_any() {
    let db = unused_db();

    let info = AuthResponse::new(42, AuthError::Nil, Value::Nil);
    let msg: Message = info.into_message();
    let process_msg = ProcessAuthMessage::new(db);

    let result = process_msg.change(msg);

    let val = match result {
        Err(ProtocolError::UnexpectedMessage) => true,
        _ => false,
    };
    assert!(val);
}

#[test]
fn processauthmessage_request_response() {
    let db = FakeDB { exists: is_answer, get: no_get, set: no_set, delete: no_delete };

    let key = bytes("ANSWER");
    let args = vec![Value::Binary(key)];
    let req = AuthRequest::new(42, AuthMessage::KeyExists, args);
    let msg: Message = req.into_message();
    let process_msg = ProcessAuthMessage::new(db);

    let result = process_msg.change(msg);

    let val = match result {
        Ok(State::ProcessAuthMessage(_state, Some(response))) => {
            assert_eq!(response.message_id(), 42);
            assert_eq!(response.error_code(), AuthError::Nil);
            let expected = Value::Boolean(true);
            assert_eq!(response.result(), &expected);
            true
        }
        _ => false,
    };
    assert!(val);
}

#[test]
fn processauthmessage_notice_valid() {
    let db = unused_db();

    let args: Vec<Value> = Vec::new();
    let info = AuthInfo::new(AuthNotice::Done, args);
    let msg: Message = info.into_message();
    let process_msg = ProcessAuthMessage::new(db);

    let result = process_msg.change(msg);

    let val = match result {
        Ok(State::AuthEnd) => true,
        _ => false,
    };
    assert!(val);
}

#[test]
fn processauthmessage_notice_invalid() {
    let db = unused_db();

    // A notification with the code 42, which is no notice of this session.
    let args: Vec<Value> = Vec::new();
    let val = Value::Array(vec![Value::from_u64(2), Value::from_u64(42), Value::Array(args)]);
    let msg = Message::from(val).unwrap();
    let process_msg = ProcessAuthMessage::new(db);

    let result = process_msg.change(msg);

    let val = match result {
        Err(ProtocolError::InvalidNotification) => true,
        _ => false,
    };
    assert!(val);
}

#[test]
fn processauthmessage_unknown_message_type() {
    let db = unused_db();
    let val = Value::Array(vec![Value::from_u64(3), Value::from_u64(42), Value::Array(vec![])]);
    let msg = Message::from(val).unwrap();
    let result = ProcessAuthMessage::new(db).change(msg);
    assert!(matches!(result, Err(ProtocolError::InvalidMessageType)));
}

#[test]
fn processauthmessage_request_that_is_no_request() {
    // The head says request, the method is not one of this session.
    let db = unused_db();
    let val = Value::Array(vec![
        Value::from_u64(0),
        Value::from_u64(42),
        Value::from_u64(7),
        Value::Array(vec![bin("ANSWER")]),
    ]);
    let msg = Message::from(val).unwrap();
    let result = ProcessAuthMessage::new(db).change(msg);
    assert!(matches!(result, Err(ProtocolError::InvalidRequest)));
}

#[test]
fn processauthrequest_bad_numargs() {
    for numargs in [0usize, 2, 3, 9] {
        let mut db = Recorded::new(FakeDB { exists: always, get: no_get, set: no_set, delete: no_delete });
        let args: Vec<Value> = (0..numargs).map(|v| Value::from_u64(v as u64)).collect();
        let req = AuthRequest::new(42, AuthMessage::KeyExists, args);
        let msg: Message = req.into_message();
        let result = ProcessAuthRequest.run(&mut db, msg);
        let val = match result {
            Err(ProtocolError::InvalidRequestArgs) => true,
            _ => false,
        };
        assert!(val);
    }
}

#[test]
fn processauthrequest_bad_argtype() {
    let mut db = Recorded::new(FakeDB { exists: always, get: no_get, set: no_set, delete: no_delete });

    let args = vec![Value::Nil];
    let req = AuthRequest::new(42, AuthMessage::KeyExists, args);
    let msg: Message = req.into_message();

    let result = match ProcessAuthRequest.run(&mut db, msg) {
        Err(ProtocolError::InvalidRequest) => true,
        _ => false,
    };

    assert!(result);
}

#[test]
fn processauthrequest_second_argument_not_binary() {
    let mut db = Recorded::new(unused_db());
    let args = vec![bin("ANSWER"), Value::from_str("42")];
    let req = AuthRequest::new(42, AuthMessage::CreateKeyFile, args);
    let result = ProcessAuthRequest.run(&mut db, req.into_message());
    assert!(matches!(result, Err(ProtocolError::InvalidRequest)));
}

#[test]
fn processauthrequest_run_key_exists() {
    let mut db = Recorded::new(FakeDB { exists: is_answer, get: no_get, set: no_set, delete: no_delete });

    let args = vec![bin("ANSWER")];
    let req = AuthRequest::new(42, AuthMessage::KeyExists, args);
    let msg: Message = req.into_message();

    let response = ProcessAuthRequest.run(&mut db, msg).unwrap();

    assert_eq!(response.message_id(), 42);
    assert_eq!(response.error_code(), AuthError::Nil);
    let expected = Value::Boolean(true);
    assert_eq!(response.result(), &expected);
}

#[test]
fn processauthrequest_run_key_notexists() {
    let mut db = Recorded::new(FakeDB { exists: is_answer, get: no_get, set: no_set, delete: no_delete });

    let args = vec![bin("42")];
    let req = AuthRequest::new(42, AuthMessage::KeyExists, args);
    let msg: Message = req.into_message();

    let response = ProcessAuthRequest.run(&mut db, msg).unwrap();

    assert_eq!(response.message_id(), 42);
    assert_eq!(response.error_code(), AuthError::Nil);
    let expected = Value::Boolean(false);
    assert_eq!(response.result(), &expected);
}

#[test]
fn processauthrequest_run_getkey_notexists() {
    let mut db = Recorded::new(FakeDB { exists: is_answer, get: get_missing_unless_answer, set: no_set, delete: no_delete });

    let args = vec![bin("42")];
    let req = AuthRequest::new(42, AuthMessage::GetKeyFile, args);
    let msg: Message = req.into_message();

    let response = ProcessAuthRequest.run(&mut db, msg).unwrap();

    assert_eq!(response.message_id(), 42);
    assert_eq!(response.error_code(), AuthError::KeyFileNotFound);
    let expected = bin("42");
    assert_eq!(response.result(), &expected);
}

#[test]
fn processauthrequest_run_getkey_exists() {
    let mut db = Recorded::new(FakeDB { exists: is_answer, get: get_42_of_answer, set: no_set, delete: no_delete });

    let args = vec![bin("ANSWER")];
    let req = AuthRequest::new(42, AuthMessage::GetKeyFile, args);
    let msg: Message = req.into_message();

    let response = ProcessAuthRequest.run(&mut db, msg).unwrap();

    assert_eq!(response.message_id(), 42);
    assert_eq!(response.error_code(), AuthError::Nil);
    let expected = bin("42");
    assert_eq!(response.result(), &expected);
}

#[test]
fn processauthrequest_run_getkey_dberror() {
    let mut db = Recorded::new(FakeDB { exists: no_exists, get: get_fails, set: no_set, delete: no_delete });

    let args = vec![bin("ANSWER")];
    let req = AuthRequest::new(42, AuthMessage::GetKeyFile, args);
    let msg: Message = req.into_message();

    let response = ProcessAuthRequest.run(&mut db, msg).unwrap();

    assert_eq!(response.message_id(), 42);
    assert_eq!(response.error_code(), AuthError::DatabaseError);
    let expected = Value::Boolean(false);
    assert_eq!(response.result(), &expected);
}

#[test]
fn processauthrequest_run_createkeyfile_keyexists() {
    let mut db = Recorded::new(FakeDB { exists: is_answer, get: get_42, set: set_ok, delete: no_delete });

    let args = vec![bin("ANSWER"), bin("42")];
    let req = AuthRequest::new(42, AuthMessage::CreateKeyFile, args);
    let msg: Message = req.into_message();

    let response = ProcessAuthRequest.run(&mut db, msg).unwrap();

    assert_eq!(response.message_id(), 42);
    assert_eq!(response.error_code(), AuthError::KeyFileExists);
    let expected = bin("ANSWER");
    assert_eq!(response.result(), &expected);
}

#[test]
fn processauthrequest_run_createkeyfile_notexists() {
    let mut db = Recorded::new(FakeDB { exists: is_not_answer, get: get_42, set: set_ok, delete: no_delete });

    let args = vec![bin("ANSWER"), bin("42")];
    let req = AuthRequest::new(42, AuthMessage::CreateKeyFile, args);
    let msg: Message = req.into_message();

    let response = ProcessAuthRequest.run(&mut db, msg).unwrap();

    assert_eq!(response.message_id(), 42);
    assert_eq!(response.error_code(), AuthError::Nil);
    let expected = Value::Boolean(true);
    assert_eq!(response.result(), &expected);
}

#[test]
fn processauthrequest_run_createkeyfile_dberror() {
    let mut db = Recorded::new(FakeDB { exists: is_not_answer, get: get_42, set: set_fails, delete: no_delete });

    let args = vec![bin("ANSWER"), bin("42")];
    let req = AuthRequest::new(42, AuthMessage::CreateKeyFile, args);
    let msg: Message = req.into_message();

    let response = ProcessAuthRequest.run(&mut db, msg).unwrap();

    assert_eq!(response.message_id(), 42);
    assert_eq!(response.error_code(), AuthError::DatabaseError);
    let expected = Value::Boolean(false);
    assert_eq!(response.result(), &expected);
}

#[test]
fn processauthrequest_run_changekeyfile_keyexists() {
    let mut db = Recorded::new(FakeDB { exists: is_answer, get: get_life, set: set_ok, delete: no_delete });

    let args = vec![bin("ANSWER"), bin("42")];
    let req = AuthRequest::new(42, AuthMessage::ChangeKeyFile, args);
    let msg: Message = req.into_message();

    let response = ProcessAuthRequest.run(&mut db, msg).unwrap();

    assert_eq!(response.message_id(), 42);
    assert_eq!(response.error_code(), AuthError::Nil);
    let expected = Value::Boolean(true);
    assert_eq!(response.result(), &expected);
}

#[test]
fn processauthrequest_run_changekeyfile_notexists() {
    let mut db = Recorded::new(FakeDB { exists: is_not_answer, get: no_get, set: no_set, delete: no_delete });

    let args = vec![bin("ANSWER"), bin("42")];
    let req = AuthRequest::new(42, AuthMessage::ChangeKeyFile, args);
    let msg: Message = req.into_message();

    let response = ProcessAuthRequest.run(&mut db, msg).unwrap();

    assert_eq!(response.message_id(), 42);
    assert_eq!(response.error_code(), AuthError::KeyFileNotFound);
    let expected = bin("ANSWER");
    assert_eq!(response.result(), &expected);
}

#[test]
fn processauthrequest_run_changekeyfile_dberror() {
    let mut db = Recorded::new(FakeDB { exists: is_answer, get: no_get, set: set_fails, delete: no_delete });

    let args = vec![bin("ANSWER"), bin("42")];
    let req = AuthRequest::new(42, AuthMessage::ChangeKeyFile, args);
    let msg: Message = req.into_message();

    let response = ProcessAuthRequest.run(&mut db, msg).unwrap();

    assert_eq!(response.message_id(), 42);
    assert_eq!(response.error_code(), AuthError::DatabaseError);
    let expected = Value::Boolean(false);
    assert_eq!(response.result(), &expected);
}

#[test]
fn processauthrequest_run_deletekeyfile_keyexists() {
    let mut db = Recorded::new(FakeDB { exists: is_answer, get: no_get, set: no_set, delete: delete_ok });

    let args = vec![bin("ANSWER")];
    let req = AuthRequest::new(42, AuthMessage::DeleteKeyFile, args);
    let msg: Message = req.into_message();

    let response = ProcessAuthRequest.run(&mut db, msg).unwrap();

    assert_eq!(response.message_id(), 42);
    assert_eq!(response.error_code(), AuthError::Nil);
    let expected = Value::Boolean(true);
    assert_eq!(response.result(), &expected);
}

#[test]
fn processauthrequest_run_deletekeyfile_notexists() {
    let mut db = Recorded::new(FakeDB { exists: is_not_answer, get: no_get, set: no_set, delete: no_delete });

    let args = vec![bin("ANSWER")];
    let req = AuthRequest::new(42, AuthMessage::DeleteKeyFile, args);
    let msg: Message = req.into_message();

    let response = ProcessAuthRequest.run(&mut db, msg).unwrap();

    assert_eq!(response.message_id(), 42);
    assert_eq!(response.error_code(), AuthError::KeyFileNotFound);
    let expected = bin("ANSWER");
    assert_eq!(response.result(), &expected);
}

#[test]
fn processauthrequest_run_deletekeyfile_dberror() {
    let mut db = Recorded::new(FakeDB { exists: is_answer, get: no_get, set: no_set, delete: delete_fails });

    let args = vec![bin("ANSWER")];
    let req = AuthRequest::new(42, AuthMessage::DeleteKeyFile, args);
    let msg: Message = req.into_message();

    let response = ProcessAuthRequest.run(&mut db, msg).unwrap();

    assert_eq!(response.message_id(), 42);
    assert_eq!(response.error_code(), AuthError::DatabaseError);
    let expected = Value::Boolean(false);
    assert_eq!(response.result(), &expected);
}

#[test]
fn processauthrequest_run_deletekeyfile_vanished() {
    let mut db = Recorded::new(FakeDB { exists: is_answer, get: no_get, set: no_set, delete: delete_missing });

    let args = vec![bin("ANSWER")];
    let req = AuthRequest::new(42, AuthMessage::DeleteKeyFile, args);
    let msg: Message = req.into_message();

    let response = ProcessAuthRequest.run(&mut db, msg).unwrap();

    assert_eq!(response.message_id(), 42);
    assert_eq!(response.error_code(), AuthError::DatabaseError);
    let expected = Value::Boolean(false);
    assert_eq!(response.result(), &expected);
}

#[test]
fn processauthrequest_run_changekey_oldkeyexists() {
    let mut db = Recorded::new(FakeDB { exists: is_answer, get: get_life, set: set_ok, delete: delete_ok });

    let args = vec![bin("ANSWER"), bin("UNIVERSE")];
    let req = AuthRequest::new(42, AuthMessage::ChangeKey, args);
    let msg: Message = req.into_message();

    let response = ProcessAuthRequest.run(&mut db, msg).unwrap();

    assert_eq!(response.message_id(), 42);
    assert_eq!(response.error_code(), AuthError::Nil);
    let expected = Value::Boolean(true);
    assert_eq!(response.result(), &expected);
}

#[test]
fn processauthrequest_run_changekey_newkeyexists() {
    let mut db = Recorded::new(FakeDB { exists: is_answer_or_universe, get: no_get, set: no_set, delete: no_delete });

    let args = vec![bin("ANSWER"), bin("UNIVERSE")];
    let req = AuthRequest::new(42, AuthMessage::ChangeKey, args);
    let msg: Message = req.into_message();

    let response = ProcessAuthRequest.run(&mut db, msg).unwrap();

    assert_eq!(response.message_id(), 42);
    assert_eq!(response.error_code(), AuthError::KeyFileExists);
    let expected = bin("UNIVERSE");
    assert_eq!(response.result(), &expected);
}

#[test]
fn processauthrequest_run_changekey_oldkey_notexists() {
    let mut db = Recorded::new(FakeDB { exists: never, get: get_missing, set: no_set, delete: no_delete });

    let args = vec![bin("ANSWER"), bin("UNIVERSE")];
    let req = AuthRequest::new(42, AuthMessage::ChangeKey, args);
    let msg: Message = req.into_message();

    let response = ProcessAuthRequest.run(&mut db, msg).unwrap();

    assert_eq!(response.message_id(), 42);
    assert_eq!(response.error_code(), AuthError::KeyFileNotFound);
    let expected = bin("ANSWER");
    assert_eq!(response.result(), &expected);
}

#[test]
fn processauthrequest_run_changekey_get_dberror() {
    let mut db = Recorded::new(FakeDB { exists: never, get: get_fails, set: no_set, delete: no_delete });

    let args = vec![bin("ANSWER"), bin("UNIVERSE")];
    let req = AuthRequest::new(42, AuthMessage::ChangeKey, args);
    let msg: Message = req.into_message();

    let response = ProcessAuthRequest.run(&mut db, msg).unwrap();

    assert_eq!(response.message_id(), 42);
    assert_eq!(response.error_code(), AuthError::DatabaseError);
    let expected = Value::Boolean(false);
    assert_eq!(response.result(), &expected);
}

#[test]
fn processauthrequest_run_changekey_delete_dberror() {
    let mut db = Recorded::new(FakeDB { exists: is_answer, get: get_42, set: no_set, delete: delete_fails });

    let args = vec![bin("ANSWER"), bin("UNIVERSE")];
    let req = AuthRequest::new(42, AuthMessage::ChangeKey, args);
    let msg: Message = req.into_message();

    let response = ProcessAuthRequest.run(&mut db, msg).unwrap();

    assert_eq!(response.message_id(), 42);
    assert_eq!(response.error_code(), AuthError::DatabaseError);
    let expected = Value::Boolean(false);
    assert_eq!(response.result(), &expected);
}

#[test]
fn processauthrequest_run_changekey_set_dberror() {
    let mut db = Recorded::new(FakeDB { exists: is_answer, get: get_42, set: set_fails, delete: delete_ok });

    let args = vec![bin("ANSWER"), bin("UNIVERSE")];
    let req = AuthRequest::new(42, AuthMessage::ChangeKey, args);
    let msg: Message = req.into_message();

    let response = ProcessAuthRequest.run(&mut db, msg).unwrap();

    assert_eq!(response.message_id(), 42);
    assert_eq!(response.error_code(), AuthError::DatabaseError);
    let expected = Value::Boolean(false);
    assert_eq!(response.result(), &expected);
}

#[test]
fn processauthrequest_run_changekey_success() {
    let mut db = Recorded::new(FakeDB { exists: is_answer, get: get_42, set: set_ok, delete: delete_ok });

    let args = vec![bin("ANSWER"), bin("UNIVERSE")];
    let req = AuthRequest::new(42, AuthMessage::ChangeKey, args);
    let msg: Message = req.into_message();

    let response = ProcessAuthRequest.run(&mut db, msg).unwrap();

    assert_eq!(response.message_id(), 42);
    assert_eq!(response.error_code(), AuthError::Nil);
    let expected = Value::Boolean(true);
    assert_eq!(response.result(), &expected);
}

#[test]
fn processauthrequest_run_replacekeyfile_newkey_exists() {
    let mut db = Recorded::new(FakeDB { exists: always, get: no_get, set: no_set, delete: no_delete });

    let args = vec![bin("ANSWER"), bin("UNIVERSE"), bin("42")];
    let req = AuthRequest::new(42, AuthMessage::ReplaceKeyFile, args);
    let msg: Message = req.into_message();

    let response = ProcessAuthRequest.run(&mut db, msg).unwrap();

    assert_eq!(response.message_id(), 42);
    assert_eq!(response.error_code(), AuthError::KeyFileExists);
    let expected = bin("UNIVERSE");
    assert_eq!(response.result(), &expected);
}

#[test]
fn processauthrequest_run_replacekeyfile_deloldkey_dberror() {
    let mut db = Recorded::new(FakeDB { exists: is_not_universe, get: no_get, set: no_set, delete: delete_fails });

    let args = vec![bin("ANSWER"), bin("UNIVERSE"), bin("42")];
    let req = AuthRequest::new(42, AuthMessage::ReplaceKeyFile, args);
    let msg: Message = req.into_message();

    let response = ProcessAuthRequest.run(&mut db, msg).unwrap();

    assert_eq!(response.message_id(), 42);
    assert_eq!(response.error_code(), AuthError::DatabaseError);
    let expected = Value::Boolean(false);
    assert_eq!(response.result(), &expected);
}

#[test]
fn processauthrequest_run_replacekeyfile_oldkey_notexists() {
    let mut db = Recorded::new(FakeDB { exists: is_not_universe, get: no_get, set: no_set, delete: delete_missing });

    let args = vec![bin("ANSWER"), bin("UNIVERSE"), bin("42")];
    let req = AuthRequest::new(42, AuthMessage::ReplaceKeyFile, args);
    let msg: Message = req.into_message();

    let response = ProcessAuthRequest.run(&mut db, msg).unwrap();

    assert_eq!(response.message_id(), 42);
    assert_eq!(response.error_code(), AuthError::KeyFileNotFound);
    let expected = bin("ANSWER");
    assert_eq!(response.result(), &expected);
}

#[test]
fn processauthrequest_run_replacekeyfile_setnewkey_dberror() {
    let mut db = Recorded::new(FakeDB { exists: is_not_universe, get: no_get, set: set_fails, delete: delete_ok });

    let args = vec![bin("ANSWER"), bin("UNIVERSE"), bin("42")];
    let req = AuthRequest::new(42, AuthMessage::ReplaceKeyFile, args);
    let msg: Message = req.into_message();

    let response = ProcessAuthRequest.run(&mut db, msg).unwrap();

    assert_eq!(response.message_id(), 42);
    assert_eq!(response.error_code(), AuthError::DatabaseError);
    let expected = Value::Boolean(false);
    assert_eq!(response.result(), &expected);
}

#[test]
fn processauthrequest_run_replacekeyfile_success() {
    let mut db = Recorded::new(FakeDB { exists: is_not_universe, get: no_get, set: set_ok, delete: delete_ok });

    let args = vec![bin("ANSWER"), bin("UNIVERSE"), bin("42")];
    let req = AuthRequest::new(42, AuthMessage::ReplaceKeyFile, args);
    let msg: Message = req.into_message();

    let response = ProcessAuthRequest.run(&mut db, msg).unwrap();

    assert_eq!(response.message_id(), 42);
    assert_eq!(response.error_code(), AuthError::Nil);
    let expected = Value::Boolean(true);
    assert_eq!(response.result(), &expected);
}

/// A store that answers as scripted and writes down what it is asked.
struct LoggingDB {
    log: Rc<RefCell<Vec<String>>>,
    exists: fn(&Vec<u8>) -> bool,
    get: fn(&Vec<u8>) -> KeyFileResult<Vec<u8>>,
    set: fn(&Vec<u8>, &Vec<u8>) -> KeyFileResult<()>,
    delete: fn(&Vec<u8>) -> KeyFileResult<()>,
}

fn text(bytes: &Vec<u8>) -> String {
    String::from_utf8(bytes.clone()).unwrap()
}

impl KeyFileStore for LoggingDB {
    fn key_exists(&self, k: &Vec<u8>) -> bool {
        self.log.borrow_mut().push(format!("exists {}", text(k)));
        (self.exists)(k)
    }
    fn get(&self, k: &Vec<u8>) -> KeyFileResult<Vec<u8>> {
        self.log.borrow_mut().push(format!("get {}", text(k)));
        (self.get)(k)
    }
    fn set(&mut self, k: &Vec<u8>, file: &Vec<u8>) -> KeyFileResult<()> {
        self.log.borrow_mut().push(format!("set {} {}", text(k), text(file)));
        (self.set)(k, file)
    }
    fn delete(&mut self, k: &Vec<u8>) -> KeyFileResult<()> {
        self.log.borrow_mut().push(format!("delete {}", text(k)));
        (self.delete)(k)
    }
}

/// What the store is asked for a request, and the error code and the
/// result of the response.
fn asked(
    method: AuthMessage,
    args: Vec<Value>,
    exists: fn(&Vec<u8>) -> bool,
    get: fn(&Vec<u8>) -> KeyFileResult<Vec<u8>>,
    set: fn(&Vec<u8>, &Vec<u8>) -> KeyFileResult<()>,
    delete: fn(&Vec<u8>) -> KeyFileResult<()>,
) -> (Vec<String>, AuthError, Value) {
    let log = Rc::new(RefCell::new(Vec::new()));
    let mut db = Recorded::new(LoggingDB { log: log.clone(), exists, get, set, delete });
    let req = AuthRequest::new(7, method, args);
    let response = ProcessAuthRequest.run(&mut db, req.into_message()).unwrap();
    assert_eq!(response.message_id(), 7);
    let asked = log.borrow().clone();
    (asked, response.error_code(), response.result().clone())
}

#[test]
fn key_exists_and_get_keyfile_ask_once() {
    let (log, code, result) =
        asked(AuthMessage::KeyExists, vec![bin("ANSWER")], is_answer, no_get, no_set, no_delete);
    assert_eq!(log, vec!["exists ANSWER"]);
    assert_eq!((code, result), (AuthError::Nil, Value::Boolean(true)));

    let (log, code, result) =
        asked(AuthMessage::GetKeyFile, vec![bin("ANSWER")], no_exists, get_42, no_set, no_delete);
    assert_eq!(log, vec!["get ANSWER"]);
    assert_eq!((code, result), (AuthError::Nil, bin("42")));
}

#[test]
fn create_keyfile_asks_first_and_writes_only_a_free_key() {
    let args = vec![bin("ANSWER"), bin("42")];
    let (log, code, result) =
        asked(AuthMessage::CreateKeyFile, args.clone(), never, no_get, set_ok, no_delete);
    assert_eq!(log, vec!["exists ANSWER", "set ANSWER 42"]);
    assert_eq!((code, result), (AuthError::Nil, Value::Boolean(true)));

    let (log, code, result) =
        asked(AuthMessage::CreateKeyFile, args, always, no_get, no_set, no_delete);
    assert_eq!(log, vec!["exists ANSWER"]);
    assert_eq!((code, result), (AuthError::KeyFileExists, bin("ANSWER")));
}

#[test]
fn change_keyfile_and_delete_keyfile_ask_first() {
    let args = vec![bin("ANSWER"), bin("42")];
    let (log, code, _) =
        asked(AuthMessage::ChangeKeyFile, args.clone(), always, no_get, set_ok, no_delete);
    assert_eq!(log, vec!["exists ANSWER", "set ANSWER 42"]);
    assert_eq!(code, AuthError::Nil);
    let (log, code, result) =
        asked(AuthMessage::ChangeKeyFile, args, never, no_get, no_set, no_delete);
    assert_eq!(log, vec!["exists ANSWER"]);
    assert_eq!((code, result), (AuthError::KeyFileNotFound, bin("ANSWER")));

    let args = vec![bin("ANSWER")];
    let (log, code, _) =
        asked(AuthMessage::DeleteKeyFile, args.clone(), always, no_get, no_set, delete_ok);
    assert_eq!(log, vec!["exists ANSWER", "delete ANSWER"]);
    assert_eq!(code, AuthError::Nil);
    let (log, code, result) =
        asked(AuthMessage::DeleteKeyFile, args, never, no_get, no_set, no_delete);
    assert_eq!(log, vec!["exists ANSWER"]);
    assert_eq!((code, result), (AuthError::KeyFileNotFound, bin("ANSWER")));
}

#[test]
fn change_key_asks_in_order_and_stops_at_the_first_refusal() {
    let args = vec![bin("ANSWER"), bin("UNIVERSE")];
    let (log, code, result) =
        asked(AuthMessage::ChangeKey, args.clone(), never, get_42, set_ok, delete_ok);
    assert_eq!(
        log,
        vec!["exists UNIVERSE", "get ANSWER", "delete ANSWER", "set UNIVERSE 42"]
    );
    assert_eq!((code, result), (AuthError::Nil, Value::Boolean(true)));

    // The new key exists, and the old one does not: the new key decides.
    let (log, code, result) =
        asked(AuthMessage::ChangeKey, args.clone(), always, get_missing, no_set, no_delete);
    assert_eq!(log, vec!["exists UNIVERSE"]);
    assert_eq!((code, result), (AuthError::KeyFileExists, bin("UNIVERSE")));

    let (log, code, result) =
        asked(AuthMessage::ChangeKey, args.clone(), never, get_missing, no_set, no_delete);
    assert_eq!(log, vec!["exists UNIVERSE", "get ANSWER"]);
    assert_eq!((code, result), (AuthError::KeyFileNotFound, bin("ANSWER")));

    let (log, code, _) =
        asked(AuthMessage::ChangeKey, args.clone(), never, get_42, no_set, delete_fails);
    assert_eq!(log, vec!["exists UNIVERSE", "get ANSWER", "delete ANSWER"]);
    assert_eq!(code, AuthError::DatabaseError);

    let (log, code, result) =
        asked(AuthMessage::ChangeKey, args, never, get_42, set_fails, delete_ok);
    assert_eq!(
        log,
        vec!["exists UNIVERSE", "get ANSWER", "delete ANSWER", "set UNIVERSE 42"]
    );
    assert_eq!((code, result), (AuthError::DatabaseError, Value::Boolean(false)));
}

#[test]
fn replace_keyfile_asks_in_order_and_stops_at_the_first_refusal() {
    let args = vec![bin("ANSWER"), bin("UNIVERSE"), bin("42")];
    let (log, code, _) =
        asked(AuthMessage::ReplaceKeyFile, args.clone(), never, no_get, set_ok, delete_ok);
    assert_eq!(log, vec!["exists UNIVERSE", "delete ANSWER", "set UNIVERSE 42"]);
    assert_eq!(code, AuthError::Nil);

    let (log, code, result) =
        asked(AuthMessage::ReplaceKeyFile, args.clone(), always, no_get, no_set, no_delete);
    assert_eq!(log, vec!["exists UNIVERSE"]);
    assert_eq!((code, result), (AuthError::KeyFileExists, bin("UNIVERSE")));

    let (log, code, result) =
        asked(AuthMessage::ReplaceKeyFile, args, never, no_get, no_set, delete_missing);
    assert_eq!(log, vec!["exists UNIVERSE", "delete ANSWER"]);
    assert_eq!((code, result), (AuthError::KeyFileNotFound, bin("ANSWER")));
}

#[test]
fn the_steps_of_a_request_answer_as_the_store_does() {
    use_steps();
}

fn use_steps() {
    let key = bytes("ANSWER");
    assert!(taken_or_go_on(7, &key, false).is_none());
    let resp = taken_or_go_on(7, &key, true).unwrap();
    assert_eq!((resp.message_id(), resp.error_code()), (7, AuthError::KeyFileExists));
    assert_eq!(resp.result(), &bin("ANSWER"));

    assert!(missing_or_go_on(7, &key, true).is_none());
    let resp = missing_or_go_on(7, &key, false).unwrap();
    assert_eq!((resp.message_id(), resp.error_code()), (7, AuthError::KeyFileNotFound));
    assert_eq!(resp.result(), &bin("ANSWER"));

    assert_eq!(keyfile_or_response(7, Ok(bytes("42"))).ok(), Some(bytes("42")));
    let resp = keyfile_or_response(7, Err(KeyFileError::Key(bytes("K")))).err().unwrap();
    assert_eq!((resp.error_code(), resp.result().clone()), (AuthError::KeyFileNotFound, bin("K")));
    let resp = keyfile_or_response(7, Err(KeyFileError::Other)).err().unwrap();
    assert_eq!(
        (resp.error_code(), resp.result().clone()),
        (AuthError::DatabaseError, Value::Boolean(false))
    );

    assert!(failed_or_go_on(7, Ok(())).is_none());
    let resp = failed_or_go_on(7, Err(KeyFileError::Key(bytes("K")))).unwrap();
    assert_eq!(resp.error_code(), AuthError::DatabaseError);
    let resp = failed_or_go_on(7, Err(KeyFileError::Other)).unwrap();
    assert_eq!(resp.result(), &Value::Boolean(false));

    assert!(removal_response(7, Ok(())).is_none());
    let resp = removal_response(7, Err(KeyFileError::Key(bytes("K")))).unwrap();
    assert_eq!((resp.error_code(), resp.result().clone()), (AuthError::KeyFileNotFound, bin("K")));
    let resp = removal_response(7, Err(KeyFileError::Other)).unwrap();
    assert_eq!(resp.error_code(), AuthError::DatabaseError);
}
