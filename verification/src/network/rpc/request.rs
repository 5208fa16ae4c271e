//! The request: a message of four items, `[0, id, method, arguments]`.
//!
//! The id fits a `u32`, the method is the number of a code of the
//! protocol at hand, and the arguments are an array.

use crate::error::network::rpc::{RpcError, RpcResult};
use crate::error::Error;
use crate::network::rpc::message::{
    bounded_number, check_int, check_int_text, message_head, valid_message, value_type,
    CodeConvert, Message, RpcMessage,
};
use crate::text::{decimal, decimal_text};
use crate::value::{lemma_array_view, views_of, Integer, Value, ValueView};
use core::marker::PhantomData;
use vstd::prelude::*;
use vstd::string::StringExecFns;

verus! {

/// What `RequestMessage::from` finds wrong with a message, if anything: the
/// kind of the error and its description. The items are checked in order,
/// and the first fault is the one reported.
pub open spec fn request_fault<C: CodeConvert>(v: ValueView) -> Option<(RpcError, Seq<char>)>
    recommends
        valid_message(v),
{
    let items = v->Array_0;
    if items.len() != 4 {
        Some(
            (
                RpcError::InvalidArrayLength,
                "expected array length of 4, got "@ + decimal_text(items.len()),
            ),
        )
    } else if message_head(v) != 0 {
        Some(
            (
                RpcError::InvalidMessageType,
                "expected 0 for message type (ie MessageType::Request), got "@ + decimal_text(
                    message_head(v) as nat,
                ),
            ),
        )
    } else if bounded_number(items[1], 0xffff_ffff) is None {
        Some((RpcError::InvalidIDType, check_int_text(items[1].as_u64(), 0xffff_ffff, "u32"@)))
    } else if bounded_number(items[2], 255) is None {
        Some((RpcError::InvalidRequest, check_int_text(items[2].as_u64(), 255, "u8"@)))
    } else if C::code_of(bounded_number(items[2], 255)->0 as u8) is None {
        Some((RpcError::InvalidRequest, decimal_text(bounded_number(items[2], 255)->0 as nat)))
    } else if !(items[3] is Array) {
        Some(
            (
                RpcError::InvalidRequestArgs,
                "expected array for request arguments but got "@ + items[3].variant_name(),
            ),
        )
    } else {
        None
    }
}

/// What every request is: a valid message without a fault.
pub open spec fn valid_request<C: CodeConvert>(v: ValueView) -> bool {
    valid_message(v) && request_fault::<C>(v) is None
}

/// The id of a request.
pub open spec fn request_id(v: ValueView) -> u32 {
    bounded_number(v->Array_0[1], 0xffff_ffff)->0 as u32
}

/// The number of the method of a request.
pub open spec fn request_code(v: ValueView) -> u8 {
    bounded_number(v->Array_0[2], 255)->0 as u8
}

/// The request with the given id, number of method, and arguments.
pub open spec fn request_view(msgid: u32, code: u8, args: Seq<ValueView>) -> ValueView {
    ValueView::Array(
        seq![
            ValueView::Integer(0),
            ValueView::Integer(msgid as int),
            ValueView::Integer(code as int),
            ValueView::Array(args),
        ],
    )
}

/// What a request offers beyond a message.
pub trait RpcRequest<C: CodeConvert>: RpcMessage {
    /// Return the message's ID value.
    fn message_id(&self) -> (id: u32)
        ensures
            valid_request::<C>(self.value()@),
            id == request_id(self.value()@),
    ;

    /// Return the message's code/method value.
    fn message_code(&self) -> (code: C)
        ensures
            valid_request::<C>(self.value()@),
            C::code_of(request_code(self.value()@)) == Some(code),
    ;

    /// Return the message's arguments.
    fn message_args(&self) -> (args: &Vec<Value>)
        ensures
            valid_request::<C>(self.value()@),
            self.value()@->Array_0[3] == ValueView::Array(views_of(args@)),
    ;
}

/// A message that is known to be a request with a method of `C`.
pub struct RequestMessage<C: CodeConvert> {
    msg: Message,
    codetype: PhantomData<C>,
}

impl<C: CodeConvert> RpcMessage for RequestMessage<C> {
    closed spec fn value(&self) -> Value {
        self.msg.value()
    }

    fn message(&self) -> (r: &Vec<Value>) {
        self.msg.message()
    }

    fn raw_message(&self) -> (r: &Value) {
        self.msg.raw_message()
    }
}

impl<C: CodeConvert> RpcRequest<C> for RequestMessage<C> {
    fn message_id(&self) -> (id: u32) {
        proof {
            use_type_invariant(self);
        }
        let items = self.msg.message();
        proof {
            lemma_array_view(*items);
        }
        match items[1].as_u64() {
            Some(n) => n as u32,
            None => vstd::pervasive::unreached(),
        }
    }

    fn message_code(&self) -> (code: C) {
        proof {
            use_type_invariant(self);
        }
        let items = self.msg.message();
        proof {
            lemma_array_view(*items);
        }
        let num: u8 = match items[2].as_u64() {
            Some(n) => n as u8,
            None => vstd::pervasive::unreached(),
        };
        match C::from_number(num) {
            Ok(code) => code,
            Err(_) => vstd::pervasive::unreached(),
        }
    }

    fn message_args(&self) -> (args: &Vec<Value>) {
        proof {
            use_type_invariant(self);
        }
        let items = self.msg.message();
        proof {
            lemma_array_view(*items);
        }
        match &items[3] {
            Value::Array(args) => {
                proof {
                    lemma_array_view(*args);
                }
                args
            },
            _ => vstd::pervasive::unreached(),
        }
    }
}

impl<C: CodeConvert> RequestMessage<C> {
    #[verifier::type_invariant]
    spec fn well_formed(self) -> bool {
        valid_request::<C>(self.msg.value()@)
    }

    /// Return the message as a vec of values.
    pub fn as_vec(&self) -> (r: &Vec<Value>)
        ensures
            self.value() == Value::Array(*r),
            valid_request::<C>(self.value()@),
    {
        proof {
            use_type_invariant(self);
        }
        self.msg.message()
    }

    /// Return a reference to the wrapped value.
    pub fn as_value(&self) -> (r: &Value)
        ensures
            *r == self.value(),
            valid_request::<C>(self.value()@),
    {
        proof {
            use_type_invariant(self);
        }
        self.msg.raw_message()
    }

    /// Return the request as a message.
    pub fn as_message(&self) -> (r: &Message)
        ensures
            r.value() == self.value(),
            valid_request::<C>(self.value()@),
    {
        proof {
            use_type_invariant(self);
        }
        &self.msg
    }

    /// Create a brand new request.
    pub fn new(msgid: u32, msgcode: C, args: Vec<Value>) -> (r: Self)
        ensures
            r.value()@ == request_view(msgid, msgcode.number(), views_of(args@)),
            valid_request::<C>(r.value()@),
    {
        let code = msgcode.to_number();
        let ghost argviews = views_of(args@);
        proof {
            C::lemma_number_code(msgcode);
            lemma_array_view(args);
        }
        let items = vec![
            Value::from_u64(0),
            Value::from_u64(msgid as u64),
            Value::from_u64(code as u64),
            Value::Array(args),
        ];
        proof {
            lemma_array_view(items);
            assert(views_of(items@) =~= request_view(msgid, code, argviews)->Array_0);
        }
        let msgval = Value::Array(items);
        match Message::from(msgval) {
            Ok(msg) => RequestMessage { msg, codetype: PhantomData },
            Err(_) => vstd::pervasive::unreached(),
        }
    }

    /// Create a request from a message.
    ///
    /// The message must have four items: the type of a request, an id that
    /// fits a `u32`, the number of a code of `C`, and an array of arguments.
    /// The first item that fails decides the error.
    pub fn from(msg: Message) -> (r: RpcResult<Self>)
        ensures
            match r {
                Ok(req) => request_fault::<C>(msg.value()@) is None && req.value() == msg.value(),
                Err(e) => request_fault::<C>(msg.value()@) == Some(
                    (e@.kind, e.description_text()),
                ) && e@.inner is Some,
            },
    {
        let array = msg.message();
        proof {
            lemma_array_view(*array);
        }
        let arraylen = array.len();
        if arraylen != 4 {
            let mut errmsg = String::from_str("expected array length of 4, got ");
            errmsg.append(decimal(arraylen as u64).as_str());
            return Err(Error::new(RpcError::InvalidArrayLength, errmsg));
        }
        if let Err(e) = Self::check_message_type(&array[0]) {
            return Err(e);
        }
        if let Err(e) = Self::check_message_id(&array[1]) {
            return Err(e);
        }
        if let Err(e) = Self::check_message_code(&array[2]) {
            return Err(e);
        }
        if let Err(e) = Self::check_message_args(&array[3]) {
            return Err(e);
        }
        Ok(RequestMessage { msg, codetype: PhantomData })
    }

    /// Checks that the head of a message is the type of a request.
    fn check_message_type(msgtype: &Value) -> (r: RpcResult<()>)
        requires
            bounded_number(msgtype@, 255) is Some,
        ensures
            match r {
                Ok(_) => bounded_number(msgtype@, 255)->0 == 0,
                Err(e) => bounded_number(msgtype@, 255)->0 != 0 && e@.kind
                    == RpcError::InvalidMessageType && e@.inner == Some(
                    "expected 0 for message type (ie MessageType::Request), got "@ + decimal_text(
                        bounded_number(msgtype@, 255)->0 as nat,
                    ),
                ),
            },
    {
        let msgtype: u8 = match msgtype.as_u64() {
            Some(n) => n as u8,
            None => vstd::pervasive::unreached(),
        };
        if msgtype != 0 {
            let mut errmsg = String::from_str("expected ");
            errmsg.append(decimal(0).as_str());
            errmsg.append(" for message type (ie MessageType::Request), got ");
            errmsg.append(decimal(msgtype as u64).as_str());
            proof {
                reveal_strlit("expected ");
                reveal_strlit(" for message type (ie MessageType::Request), got ");
                reveal_strlit("expected 0 for message type (ie MessageType::Request), got ");
                assert(decimal_text(0) =~= seq!['0']);
                assert(errmsg@ =~= "expected 0 for message type (ie MessageType::Request), got "@
                    + decimal_text(msgtype as nat));
            }
            return Err(Error::new(RpcError::InvalidMessageType, errmsg));
        }
        Ok(())
    }

    /// Checks that the id of a request fits a `u32`.
    fn check_message_id(msgid: &Value) -> (r: RpcResult<()>)
        ensures
            match r {
                Ok(_) => bounded_number(msgid@, 0xffff_ffff) is Some,
                Err(e) => bounded_number(msgid@, 0xffff_ffff) is None && e@.kind
                    == RpcError::InvalidIDType && e@.inner == Some(
                    check_int_text(msgid@.as_u64(), 0xffff_ffff, "u32"@),
                ),
            },
    {
        let msgid = check_int(msgid.as_u64(), 0xffff_ffff, String::from_str("u32"));
        if let Err(e) = msgid {
            return Err(Error::new(RpcError::InvalidIDType, e.to_string()));
        }
        Ok(())
    }

    /// Checks that the method of a request is the number of a code of `C`.
    fn check_message_code(msgcode: &Value) -> (r: RpcResult<()>)
        ensures
            match r {
                Ok(_) => bounded_number(msgcode@, 255) is Some && C::code_of(
                    bounded_number(msgcode@, 255)->0 as u8,
                ) is Some,
                Err(e) => e@.kind == RpcError::InvalidRequest && (if bounded_number(
                    msgcode@,
                    255,
                ) is None {
                    e@.inner == Some(check_int_text(msgcode@.as_u64(), 255, "u8"@))
                } else {
                    C::code_of(bounded_number(msgcode@, 255)->0 as u8) is None && e@.inner
                        == Some(decimal_text(bounded_number(msgcode@, 255)->0 as nat))
                }),
            },
    {
        let msgcode = check_int(msgcode.as_u64(), 255, String::from_str("u8"));
        match msgcode {
            Err(e) => {
                return Err(Error::new(RpcError::InvalidRequest, e.to_string()));
            },
            Ok(v) => {
                let u8val = v as u8;
                if let Err(e) = C::from_number(u8val) {
                    return Err(Error::new(RpcError::InvalidRequest, e.to_string()));
                }
            },
        }
        Ok(())
    }

    /// Checks that the arguments of a request are an array.
    fn check_message_args(msgargs: &Value) -> (r: RpcResult<()>)
        ensures
            match r {
                Ok(_) => msgargs@ is Array,
                Err(e) => !(msgargs@ is Array) && e@.kind == RpcError::InvalidRequestArgs
                    && e@.inner == Some(
                    "expected array for request arguments but got "@ + msgargs@.variant_name(),
                ),
            },
    {
        let args = msgargs.as_array();
        if args.is_none() {
            let mut errmsg = String::from_str("expected array for request arguments but got ");
            errmsg.append(value_type(msgargs).as_str());
            return Err(Error::new(RpcError::InvalidRequestArgs, errmsg));
        }
        Ok(())
    }

    /// Gives up the request for the message that it wraps.
    pub fn into_message(self) -> (m: Message)
        ensures
            m.value() == self.value(),
            valid_request::<C>(m.value()@),
    {
        proof {
            use_type_invariant(&self);
        }
        self.msg
    }

    /// Gives up the request for the value that it wraps.
    pub fn into_value(self) -> (v: Value)
        ensures
            v == self.value(),
            valid_request::<C>(v@),
    {
        proof {
            use_type_invariant(&self);
        }
        self.msg.into_value()
    }
}

} // verus!
