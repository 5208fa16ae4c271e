use safesec::network::rpc::{Message, RpcResponse};
use safesec::protocol::message::{BootError, BootMessage, BootNotice, ProtocolError};
use safesec::service::state::boot::{
    BootInfo, BootRequest, BootResponse, ProcessBootMessage, ProcessBootRequest,
};
use safesec::service::state::{SessionState, State};
use safesec::storage::{KeyFileError, KeyFileResult, KeyFileStore, Recorded};
use safesec::value::Value;

struct FakeDB {
    exists: fn(&Vec<u8>) -> bool,
    get: fn(&Vec<u8>) -> KeyFileResult<Vec<u8>>,
}

impl KeyFileStore for FakeDB {
    fn key_exists(&self, k: &Vec<u8>) -> bool {
        (self.exists)(k)
    }
    fn get(&self, k: &Vec<u8>) -> KeyFileResult<Vec<u8>> {
        (self.get)(k)
    }
    fn set(&mut self, _k: &Vec<u8>, _file: &Vec<u8>) -> KeyFileResult<()> {
        panic!("set is not expected")
    }
    fn delete(&mut self, _k: &Vec<u8>) -> KeyFileResult<()> {
        panic!("delete is not expected")
    }
}

fn no_exists(_k: &Vec<u8>) -> bool {
    panic!("exists is not expected")
}

fn no_get(_k: &Vec<u8>) -> KeyFileResult<Vec<u8>> {
    panic!("get is not expected")
}

fn bytes(text: &str) -> Vec<u8> {
    text.to_string().into_bytes()
}

fn bin(text: &str) -> Value {
    Value::Binary(bytes(text))
}

fn always(_k: &Vec<u8>) -> bool {
    true
}

fn is_answer(k: &Vec<u8>) -> bool {
    &bytes("ANSWER") == k
}

fn get_42_of_answer(k: &Vec<u8>) -> KeyFileResult<Vec<u8>> {
    if &bytes("ANSWER") == k {
        Ok(bytes("42"))
    } else {
        unreachable!()
    }
}

fn get_missing_unless_answer(k: &Vec<u8>) -> KeyFileResult<Vec<u8>> {
    if &bytes("ANSWER") != k {
        Err(KeyFileError::Key(k.clone()))
    } else {
        unreachable!()
    }
}

fn get_fails(_k: &Vec<u8>) -> KeyFileResult<Vec<u8>> {
    Err(KeyFileError::Other)
}

fn unused_db() -> FakeDB {
    FakeDB { exists: no_exists, get: no_get }
}

#[test]
fn processbootrequest_bad_numargs() {
    for numargs in [0usize, 2, 3, 9] {
        let mut db = Recorded::new(FakeDB { exists: always, get: no_get });
        let args: Vec<Value> = (0..numargs).map(|v| Value::from_u64(v as u64)).collect();
        let req = BootRequest::new(42, BootMessage::KeyExists, args);
        let msg: Message = req.into_message();
        let result = ProcessBootRequest.run(&mut db, msg);
        let val = match result {
            Err(ProtocolError::InvalidRequestArgs) => true,
            _ => false,
        };
        assert!(val);
    }
}

#[test]
fn processbootrequest_bad_argtype() {
    let mut db = Recorded::new(FakeDB { exists: always, get: no_get });

    let args = vec![Value::Nil];
    let req = BootRequest::new(42, BootMessage::KeyExists, args);
    let msg: Message = req.into_message();

    let result = match ProcessBootRequest.run(&mut db, msg) {
        Err(ProtocolError::InvalidRequest) => true,
        _ => false,
    };

    assert!(result);
}

#[test]
fn processbootrequest_run_key_exists() {
    let mut db = Recorded::new(FakeDB { exists: is_answer, get: no_get });

    let args = vec![bin("ANSWER")];
    let req = BootRequest::new(42, BootMessage::KeyExists, args);
    let msg: Message = req.into_message();

    let response = ProcessBootRequest.run(&mut db, msg).unwrap();

    assert_eq!(response.message_id(), 42);
    assert_eq!(response.error_code(), BootError::Nil);
    assert_eq!(response.result(), &Value::Boolean(true));
}

#[test]
fn processbootrequest_run_key_notexists() {
    let mut db = Recorded::new(FakeDB { exists: is_answer, get: no_get });

    let args = vec![bin("42")];
    let req = BootRequest::new(42, BootMessage::KeyExists, args);
    let msg: Message = req.into_message();

    let response = ProcessBootRequest.run(&mut db, msg).unwrap();

    assert_eq!(response.message_id(), 42);
    assert_eq!(response.error_code(), BootError::Nil);
    assert_eq!(response.result(), &Value::Boolean(false));
}

#[test]
fn processbootrequest_run_getkey_notexists() {
    let mut db = Recorded::new(FakeDB { exists: is_answer, get: get_missing_unless_answer });

    let args = vec![bin("42")];
    let req = BootRequest::new(42, BootMessage::GetKeyFile, args);
    let msg: Message = req.into_message();

    let response = ProcessBootRequest.run(&mut db, msg).unwrap();

    assert_eq!(response.message_id(), 42);
    assert_eq!(response.error_code(), BootError::KeyFileNotFound);
    let key = bytes("42");
    assert_eq!(response.result(), &Value::Binary(key));
}

#[test]
fn processbootrequest_run_getkey_exists() {
    let mut db = Recorded::new(FakeDB { exists: is_answer, get: get_42_of_answer });

    let args = vec![bin("ANSWER")];
    let req = BootRequest::new(42, BootMessage::GetKeyFile, args);
    let msg: Message = req.into_message();

    let response = ProcessBootRequest.run(&mut db, msg).unwrap();

    assert_eq!(response.message_id(), 42);
    assert_eq!(response.error_code(), BootError::Nil);
    let expected = Value::Binary(bytes("42"));
    assert_eq!(response.result(), &expected);
}

#[test]
fn processbootrequest_run_getkey_store_fails() {
    let mut db = Recorded::new(FakeDB { exists: no_exists, get: get_fails });
    let req = BootRequest::new(42, BootMessage::GetKeyFile, vec![bin("ANSWER")]);
    let result = ProcessBootRequest.run(&mut db, req.into_message());
    assert!(matches!(result, Err(ProtocolError::InvalidData)));
}

#[test]
fn processbootrequest_check_message_copies_the_key() {
    let req = BootRequest::new(42, BootMessage::GetKeyFile, vec![bin("ANSWER")]);
    assert_eq!(ProcessBootRequest._check_message(&req).unwrap(), bytes("ANSWER"));
}

#[test]
fn processbootmessage_request_error() {
    let db = FakeDB { exists: is_answer, get: get_42_of_answer };

    let key = bytes("noanswer");
    let args = vec![Value::Binary(key), Value::Nil];
    let req = BootRequest::new(42, BootMessage::GetKeyFile, args);
    let msg: Message = req.into_message();
    let process_msg = ProcessBootMessage::new(db);

    let result = process_msg.change(msg);

    let val = match result {
        Err(ProtocolError::InvalidRequestArgs) => true,
        _ => false,
    };
    assert!(val);
}

#[test]
fn processbootmessage_request_response() {
    let db = FakeDB { exists: is_answer, get: no_get };

    let args = vec![bin("ANSWER")];
    let req = BootRequest::new(42, BootMessage::KeyExists, args);
    let msg: Message = req.into_message();
    let process_msg = ProcessBootMessage::new(db);

    let result = process_msg.change(msg);

    let val = match result {
        Ok(State::ProcessBootMessage(_state, Some(response))) => {
            assert_eq!(response.message_id(), 42);
            assert_eq!(response.error_code(), BootError::Nil);
            let expected = Value::Boolean(true);
            assert_eq!(response.result(), &expected);
            true
        }
        _ => false,
    };
    assert!(val);
}

#[test]
fn processbootmessage_notice_valid() {
    let db = unused_db();

    let args: Vec<Value> = Vec::new();
    let info = BootInfo::new(BootNotice::Done, args);
    let msg: Message = info.into_message();
    let process_msg = ProcessBootMessage::new(db);

    let result = process_msg.change(msg);

    let val = match result {
        Ok(State::BootEnd) => true,
        _ => false,
    };
    assert!(val);
}

#[test]
fn processbootmessage_notice_invalid() {
    let db = unused_db();

    // A notification with the code 42, which is no notice of this session.
    let args: Vec<Value> = Vec::new();
    let val = Value::Array(vec![Value::from_u64(2), Value::from_u64(42), Value::Array(args)]);
    let msg = Message::from(val).unwrap();
    let process_msg = ProcessBootMessage::new(db);

    let result = process_msg.change(msg);

    let val = match result {
        Err(ProtocolError::InvalidNotification) => true,
        _ => false,
    };
    assert!(val);
}

#[test]
fn processbootmessage_response_any() {
    let db = unused_db();

    let info = BootResponse::new(42, BootError::Nil, Value::Nil);
    let msg: Message = info.into_message();
    let process_msg = ProcessBootMessage::new(db);

    let result = process_msg.change(msg);

    let val = match result {
        Err(ProtocolError::UnexpectedMessage) => true,
        _ => false,
    };
    assert!(val);
}

#[test]
fn processbootmessage_unknown_message_type() {
    let db = unused_db();
    let val = Value::Array(vec![Value::from_u64(9), Value::from_u64(42), Value::Array(vec![])]);
    let msg = Message::from(val).unwrap();
    let result = ProcessBootMessage::new(db).change(msg);
    assert!(matches!(result, Err(ProtocolError::InvalidMessageType)));
}

#[test]
fn processbootmessage_auth_method_is_no_boot_request() {
    let db = unused_db();
    let val = Value::Array(vec![
        Value::from_u64(0),
        Value::from_u64(42),
        Value::from_u64(6),
        Value::Array(vec![bin("ANSWER")]),
    ]);
    let msg = Message::from(val).unwrap();
    let result = ProcessBootMessage::new(db).change(msg);
    assert!(matches!(result, Err(ProtocolError::InvalidRequest)));
}
