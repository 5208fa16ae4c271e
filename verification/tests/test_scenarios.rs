use bytes::BytesMut;
use rmp_serde::Serializer;
use rmpv::Value as Packed;
use safesec::network::codec::MsgPackCodec;
use safesec::network::rpc::Message;
use safesec::service::rpcservice::{RpcService, RpcState, ServiceWithShutdown};
use safesec::service::state::State;
use safesec::storage::{KeyFileError, KeyFileResult, KeyFileStore};
use safesec::value::{Integer, Value};
use serde::Serialize;
use std::cell::RefCell;
use std::collections::BTreeMap;
use std::rc::Rc;

/// A store in memory, shared with the test that looks into it.
#[derive(Clone)]
struct MemoryDB {
    files: Rc<RefCell<BTreeMap<Vec<u8>, Vec<u8>>>>,
}

impl MemoryDB {
    fn with(entries: &[(&str, &str)]) -> MemoryDB {
        let mut files = BTreeMap::new();
        for (k, v) in entries {
            files.insert(k.as_bytes().to_vec(), v.as_bytes().to_vec());
        }
        MemoryDB { files: Rc::new(RefCell::new(files)) }
    }

    fn snapshot(&self) -> BTreeMap<Vec<u8>, Vec<u8>> {
        self.files.borrow().clone()
    }
}

impl KeyFileStore for MemoryDB {
    fn key_exists(&self, k: &Vec<u8>) -> bool {
        self.files.borrow().contains_key(k)
    }
    fn get(&self, k: &Vec<u8>) -> KeyFileResult<Vec<u8>> {
        match self.files.borrow().get(k) {
            Some(file) => Ok(file.clone()),
            None => Err(KeyFileError::Key(k.clone())),
        }
    }
    fn set(&mut self, k: &Vec<u8>, file: &Vec<u8>) -> KeyFileResult<()> {
        self.files.borrow_mut().insert(k.clone(), file.clone());
        Ok(())
    }
    fn delete(&mut self, k: &Vec<u8>) -> KeyFileResult<()> {
        match self.files.borrow_mut().remove(k) {
            Some(_) => Ok(()),
            None => Err(KeyFileError::Key(k.clone())),
        }
    }
}

fn to_library(v: Packed) -> Value {
    match v {
        Packed::Nil => Value::Nil,
        Packed::Boolean(b) => Value::Boolean(b),
        Packed::Integer(n) => match n.as_u64() {
            Some(u) => Value::Integer(Integer::PosInt(u)),
            None => Value::Integer(Integer::NegInt(n.as_i64().unwrap())),
        },
        Packed::F32(f) => Value::F32(f.to_bits()),
        Packed::F64(f) => Value::F64(f.to_bits()),
        Packed::String(s) => match s.as_str() {
            Some(text) => Value::String(text.to_string()),
            None => Value::Binary(s.into_bytes()),
        },
        Packed::Binary(b) => Value::Binary(b),
        Packed::Array(a) => Value::Array(a.into_iter().map(to_library).collect()),
        Packed::Map(m) => {
            Value::Mapping(m.into_iter().map(|(k, v)| (to_library(k), to_library(v))).collect())
        }
        Packed::Ext(t, b) => Value::Ext(t, b),
    }
}

fn to_packed(v: &Value) -> Packed {
    match v {
        Value::Nil => Packed::Nil,
        Value::Boolean(b) => Packed::Boolean(*b),
        Value::Integer(Integer::PosInt(n)) => Packed::from(*n),
        Value::Integer(Integer::NegInt(n)) => Packed::from(*n),
        Value::F32(bits) => Packed::F32(f32::from_bits(*bits)),
        Value::F64(bits) => Packed::F64(f64::from_bits(*bits)),
        Value::String(s) => Packed::from(s.as_str()),
        Value::Binary(b) => Packed::Binary(b.clone()),
        Value::Array(a) => Packed::Array(a.iter().map(to_packed).collect()),
        Value::Mapping(m) => {
            Packed::Map(m.iter().map(|(k, v)| (to_packed(k), to_packed(v))).collect())
        }
        Value::Ext(t, b) => Packed::Ext(*t, b.clone()),
    }
}

fn pack(msg: &Packed) -> Vec<u8> {
    let mut buf = Vec::new();
    msg.serialize(&mut Serializer::new(&mut buf)).unwrap();
    buf
}

fn bin(text: &str) -> Packed {
    Packed::Binary(text.as_bytes().to_vec())
}

fn notice(code: u64) -> Packed {
    Packed::Array(vec![Packed::from(2), Packed::from(code), Packed::Array(vec![])])
}

fn request(id: u64, method: u64, args: Vec<Packed>) -> Packed {
    Packed::Array(vec![Packed::from(0), Packed::from(id), Packed::from(method), Packed::Array(args)])
}

fn response(id: u64, error: u64, result: Packed) -> Packed {
    Packed::Array(vec![Packed::from(1), Packed::from(id), Packed::from(error), result])
}

/// What a connection does with the bytes of a client: it cuts frames with
/// the codec, lets the messages pass the service, moves the session on,
/// and encodes the responses. Returns what is sent back, and whether the
/// shutdown of the server was asked for.
fn serve(db: MemoryDB, sent: &[u8]) -> (Vec<Packed>, bool) {
    let mut codec = MsgPackCodec;
    let mut inbound = BytesMut::from(sent.to_vec());
    let mut outbound = BytesMut::from(Vec::new());
    let mut service = RpcService::new();
    let mut session = RpcState::new(db);
    loop {
        let frame = match codec.decode(&mut inbound) {
            Ok(Some(frame)) => frame,
            Ok(None) => break,
            Err(_) => return (Vec::new(), true),
        };
        let value = to_library(rmp_serde::from_slice(&frame[..]).unwrap());
        let value = match service.call(value) {
            Some(value) => value,
            None => break,
        };
        let msg = Message::from(value).unwrap();
        if !session.open() {
            break;
        }
        match session.process_message(msg) {
            Some(reply) => codec.encode(&pack(&to_packed(&reply)), &mut outbound).unwrap(),
            None => {
                if session.shutdown_requested() {
                    break;
                }
            }
        }
    }
    let mut replies = Vec::new();
    while let Some(frame) = codec.decode(&mut outbound).unwrap() {
        replies.push(rmp_serde::from_slice(&frame[..]).unwrap());
    }
    (replies, service.shutdown_requested() || session.shutdown_requested())
}

fn wire(messages: &[Packed]) -> Vec<u8> {
    let mut bytes = Vec::new();
    for msg in messages {
        bytes.extend_from_slice(&pack(msg));
    }
    bytes
}

#[test]
fn scenario_auth_key_exists_round_trip() {
    let db = MemoryDB::with(&[("ANSWER", "42")]);
    let sent = wire(&[notice(1), request(42, 6, vec![bin("ANSWER")]), notice(2)]);
    let (replies, shutdown) = serve(db, &sent);
    assert_eq!(replies, vec![response(42, 0, Packed::Boolean(true))]);
    assert!(shutdown);
}

#[test]
fn scenario_boot_get_keyfile_miss() {
    let db = MemoryDB::with(&[]);
    let sent = wire(&[notice(0), request(42, 1, vec![bin("42")])]);
    let (replies, shutdown) = serve(db, &sent);
    assert_eq!(replies, vec![response(42, 1, bin("42"))]);
    assert!(!shutdown);
}

#[test]
fn scenario_boot_get_keyfile_hit_and_key_exists() {
    let db = MemoryDB::with(&[("42", "The Answer")]);
    let sent = wire(&[
        notice(0),
        request(1, 1, vec![bin("42")]),
        request(2, 0, vec![bin("42")]),
        request(3, 0, vec![bin("43")]),
    ]);
    let (replies, _) = serve(db, &sent);
    assert_eq!(
        replies,
        vec![
            response(1, 0, bin("The Answer")),
            response(2, 0, Packed::Boolean(true)),
            response(3, 0, Packed::Boolean(false)),
        ]
    );
}

#[test]
fn scenario_auth_create_then_get_keyfile() {
    let db = MemoryDB::with(&[]);
    let sent = wire(&[
        notice(1),
        request(7, 1, vec![bin("42"), bin("The Answer...")]),
        request(8, 0, vec![bin("42")]),
    ]);
    let (replies, _) = serve(db.clone(), &sent);
    assert_eq!(
        replies,
        vec![response(7, 0, Packed::Boolean(true)), response(8, 0, bin("The Answer..."))]
    );
    assert_eq!(db.snapshot(), MemoryDB::with(&[("42", "The Answer...")]).snapshot());
}

#[test]
fn scenario_auth_change_key_when_new_exists() {
    let db = MemoryDB::with(&[("A", "file of a"), ("B", "file of b")]);
    let before = db.snapshot();
    let sent = wire(&[notice(1), request(9, 3, vec![bin("A"), bin("B")])]);
    let (replies, _) = serve(db.clone(), &sent);
    assert_eq!(replies, vec![response(9, 2, bin("B"))]);
    assert_eq!(db.snapshot(), before);
}

#[test]
fn scenario_auth_replace_keyfile_when_new_exists() {
    let db = MemoryDB::with(&[("A", "file of a"), ("B", "file of b")]);
    let before = db.snapshot();
    let sent = wire(&[notice(1), request(9, 4, vec![bin("A"), bin("B"), bin("new file")])]);
    let (replies, _) = serve(db.clone(), &sent);
    assert_eq!(replies, vec![response(9, 2, bin("B"))]);
    assert_eq!(db.snapshot(), before);
}

#[test]
fn scenario_auth_every_method() {
    let db = MemoryDB::with(&[("A", "one")]);
    let sent = wire(&[
        notice(1),
        request(1, 6, vec![bin("A")]),
        request(2, 0, vec![bin("A")]),
        request(3, 1, vec![bin("A"), bin("two")]),
        request(4, 1, vec![bin("B"), bin("two")]),
        request(5, 2, vec![bin("B"), bin("three")]),
        request(6, 2, vec![bin("C"), bin("three")]),
        request(7, 3, vec![bin("A"), bin("C")]),
        request(8, 3, vec![bin("A"), bin("D")]),
        request(9, 4, vec![bin("C"), bin("D"), bin("four")]),
        request(10, 4, vec![bin("C"), bin("E"), bin("five")]),
        request(11, 5, vec![bin("B")]),
        request(12, 5, vec![bin("B")]),
        request(13, 0, vec![bin("B")]),
        notice(2),
    ]);
    let (replies, shutdown) = serve(db.clone(), &sent);
    assert_eq!(
        replies,
        vec![
            response(1, 0, Packed::Boolean(true)),
            response(2, 0, bin("one")),
            response(3, 2, bin("A")),
            response(4, 0, Packed::Boolean(true)),
            response(5, 0, Packed::Boolean(true)),
            response(6, 1, bin("C")),
            response(7, 0, Packed::Boolean(true)),
            response(8, 1, bin("A")),
            response(9, 0, Packed::Boolean(true)),
            response(10, 1, bin("C")),
            response(11, 0, Packed::Boolean(true)),
            response(12, 1, bin("B")),
            response(13, 1, bin("B")),
        ]
    );
    assert!(shutdown);
    assert_eq!(db.snapshot(), MemoryDB::with(&[("D", "four")]).snapshot());
}

#[test]
fn scenario_invalid_argument_type() {
    let db = MemoryDB::with(&[("ANSWER", "42")]);
    let sent = wire(&[
        notice(1),
        request(42, 6, vec![Packed::Nil]),
        request(43, 6, vec![bin("ANSWER")]),
    ]);
    let (replies, shutdown) = serve(db, &sent);
    assert_eq!(replies, Vec::<Packed>::new());
    assert!(shutdown);
}

#[test]
fn scenario_value_that_is_no_message() {
    let db = MemoryDB::with(&[]);
    let sent = wire(&[Packed::from("hello"), notice(1)]);
    let (replies, shutdown) = serve(db, &sent);
    assert_eq!(replies, Vec::<Packed>::new());
    assert!(shutdown);
}

#[test]
fn scenario_session_ends_in_nil_after_protocol_error() {
    let mut session = RpcState::new(MemoryDB::with(&[]));
    let open = Message::from(to_library(notice(0))).unwrap();
    assert_eq!(session.process_message(open), None);
    let reply = Message::from(to_library(response(1, 0, Packed::Nil))).unwrap();
    assert_eq!(session.process_message(reply), None);
    assert!(matches!(session.state(), State::Nil));
    assert!(session.shutdown_requested());
    assert!(!session.open());
}

#[test]
fn scenario_codec_partial_frame() {
    let first = request(1, 6, vec![bin("ANSWER")]);
    let second = request(2, 0, vec![bin("ANSWER")]);
    let e1 = pack(&first);
    let e2 = pack(&second);
    let half = &e2[..e2.len() / 2];
    let mut fed = e1.clone();
    fed.extend_from_slice(half);

    let mut codec = MsgPackCodec;
    let mut buf = BytesMut::from(fed);
    let frame = codec.decode(&mut buf).unwrap().unwrap();
    assert_eq!(&frame[..], &e1[..]);
    assert_eq!(rmp_serde::from_slice::<Packed>(&frame[..]).unwrap(), first);
    assert_eq!(&buf[..], half);
}

#[test]
fn scenario_bytes_arrive_one_by_one() {
    let db = MemoryDB::with(&[("ANSWER", "42")]);
    let sent = wire(&[notice(1), request(42, 0, vec![bin("ANSWER")])]);
    let mut codec = MsgPackCodec;
    let mut inbound = BytesMut::from(Vec::new());
    let mut session = RpcState::new(db);
    let mut replies = Vec::new();
    for byte in sent {
        codec.encode(&[byte], &mut inbound).unwrap();
        if let Some(frame) = codec.decode(&mut inbound).unwrap() {
            let value = to_library(rmp_serde::from_slice(&frame[..]).unwrap());
            if let Some(reply) = session.process_message(Message::from(value).unwrap()) {
                replies.push(to_packed(&reply));
            }
        }
    }
    assert_eq!(replies, vec![response(42, 0, bin("42"))]);
    assert_eq!(inbound.len(), 0);
}
