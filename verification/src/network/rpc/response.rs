//! The response: a message of four items, `[1, id, error, result]`.
//!
//! The id fits a `u32` and the error is the number of a code of the
//! protocol at hand. The result is any value.

use crate::error::network::rpc::{RpcError, RpcResult};
use crate::error::Error;
use crate::network::rpc::message::{
    bounded_number, check_int, check_int_text, message_head, valid_message, CodeConvert,
    Message, RpcMessage,
};
use crate::text::{decimal, decimal_text};
use crate::value::{lemma_array_view, views_of, Value, ValueView};
use core::marker::PhantomData;
use vstd::prelude::*;
use vstd::string::StringExecFns;

verus! {

/// What `ResponseMessage::from` finds wrong with a message, if anything:
/// the kind of the error and its description. The items are checked in
/// order, and the first fault is the one reported.
pub open spec fn response_fault<C: CodeConvert>(v: ValueView) -> Option<(RpcError, Seq<char>)>
    recommends
        valid_message(v),
{
    let items = v->Array_0;
    if items.len() != 4 {
        Some(
            (
                RpcError::InvalidArrayLength,
                "expected array length of 4, got "@ + decimal_text(items.len()),
            ),
        )
    } else if message_head(v) != 1 {
        Some(
            (
                RpcError::InvalidMessageType,
                "expected 1 for message type (ie MessageType::Response), got "@ + decimal_text(
                    message_head(v) as nat,
                ),
            ),
        )
    } else if bounded_number(items[1], 0xffff_ffff) is None {
        Some((RpcError::InvalidIDType, check_int_text(items[1].as_u64(), 0xffff_ffff, "u32"@)))
    } else if bounded_number(items[2], 255) is None {
        Some((RpcError::InvalidResponse, check_int_text(items[2].as_u64(), 255, "u8"@)))
    } else if C::code_of(bounded_number(items[2], 255)->0 as u8) is None {
        Some((RpcError::InvalidResponse, decimal_text(bounded_number(items[2], 255)->0 as nat)))
    } else {
        None
    }
}

/// What every response is: a valid message without a fault.
pub open spec fn valid_response<C: CodeConvert>(v: ValueView) -> bool {
    valid_message(v) && response_fault::<C>(v) is None
}

/// The id of a response.
pub open spec fn response_id(v: ValueView) -> u32 {
    bounded_number(v->Array_0[1], 0xffff_ffff)->0 as u32
}

/// The number of the error code of a response.
pub open spec fn response_code(v: ValueView) -> u8 {
    bounded_number(v->Array_0[2], 255)->0 as u8
}

/// The response with the given id, number of error code, and result.
pub open spec fn response_view(msgid: u32, code: u8, result: ValueView) -> ValueView {
    ValueView::Array(
        seq![
            ValueView::Integer(1),
            ValueView::Integer(msgid as int),
            ValueView::Integer(code as int),
            result,
        ],
    )
}

/// What a response offers beyond a message.
pub trait RpcResponse<C: CodeConvert>: RpcMessage {
    /// Return the message's ID value.
    fn message_id(&self) -> (id: u32)
        ensures
            valid_response::<C>(self.value()@),
            id == response_id(self.value()@),
    ;

    /// Return the message's error code.
    fn error_code(&self) -> (code: C)
        ensures
            valid_response::<C>(self.value()@),
            C::code_of(response_code(self.value()@)) == Some(code),
    ;

    /// Return the message's result.
    fn result(&self) -> (result: &Value)
        ensures
            valid_response::<C>(self.value()@),
            self.value()@->Array_0[3] == result@,
    ;
}

/// A message that is known to be a response with an error code of `C`.
pub struct ResponseMessage<C: CodeConvert> {
    msg: Message,
    msgtype: PhantomData<C>,
}

impl<C: CodeConvert> RpcMessage for ResponseMessage<C> {
    closed spec fn value(&self) -> Value {
        self.msg.value()
    }

    fn message(&self) -> (r: &Vec<Value>) {
        self.msg.message()
    }

    fn raw_message(&self) -> (r: &Value) {
        self.msg.raw_message()
    }
}

impl<C: CodeConvert> RpcResponse<C> for ResponseMessage<C> {
    fn message_id(&self) -> (id: u32) {
        proof {
            use_type_invariant(self);
        }
        let items = self.msg.message();
        proof {
            lemma_array_view(*items);
        }
        match items[1].as_u64() {
            Some(n) => n as u32,
            None => vstd::pervasive::unreached(),
        }
    }

    fn error_code(&self) -> (code: C) {
        proof {
            use_type_invariant(self);
        }
        let items = self.msg.message();
        proof {
            lemma_array_view(*items);
        }
        let num: u8 = match items[2].as_u64() {
            Some(n) => n as u8,
            None => vstd::pervasive::unreached(),
        };
        match C::from_number(num) {
            Ok(code) => code,
            Err(_) => vstd::pervasive::unreached(),
        }
    }

    fn result(&self) -> (result: &Value) {
        proof {
            use_type_invariant(self);
        }
        let items = self.msg.message();
        proof {
            lemma_array_view(*items);
        }
        &items[3]
    }
}

impl<C: CodeConvert> ResponseMessage<C> {
    #[verifier::type_invariant]
    spec fn well_formed(self) -> bool {
        valid_response::<C>(self.msg.value()@)
    }

    /// Return the message as a vec of values.
    pub fn as_vec(&self) -> (r: &Vec<Value>)
        ensures
            self.value() == Value::Array(*r),
            valid_response::<C>(self.value()@),
    {
        proof {
            use_type_invariant(self);
        }
        self.msg.message()
    }

    /// Return a reference to the wrapped value.
    pub fn as_value(&self) -> (r: &Value)
        ensures
            *r == self.value(),
            valid_response::<C>(self.value()@),
    {
        proof {
            use_type_invariant(self);
        }
        self.msg.raw_message()
    }

    /// Return the response as a message.
    pub fn as_message(&self) -> (r: &Message)
        ensures
            r.value() == self.value(),
            valid_response::<C>(self.value()@),
    {
        proof {
            use_type_invariant(self);
        }
        &self.msg
    }

    /// Create a brand new response.
    pub fn new(msgid: u32, errcode: C, result: Value) -> (r: Self)
        ensures
            r.value()@ == response_view(msgid, errcode.number(), result@),
            valid_response::<C>(r.value()@),
    {
        let code = errcode.to_number();
        let ghost result_view = result@;
        proof {
            C::lemma_number_code(errcode);
        }
        let items = vec![
            Value::from_u64(1),
            Value::from_u64(msgid as u64),
            Value::from_u64(code as u64),
            result,
        ];
        proof {
            lemma_array_view(items);
            assert(views_of(items@) =~= response_view(msgid, code, result_view)->Array_0);
        }
        let msgval = Value::Array(items);
        match Message::from(msgval) {
            Ok(msg) => ResponseMessage { msg, msgtype: PhantomData },
            Err(_) => vstd::pervasive::unreached(),
        }
    }

    /// Create a response from a message.
    ///
    /// The message must have four items: the type of a response, an id that
    /// fits a `u32`, the number of a code of `C`, and a result, which may be
    /// any value. The first item that fails decides the error.
    pub fn from(msg: Message) -> (r: RpcResult<Self>)
        ensures
            match r {
                Ok(resp) => response_fault::<C>(msg.value()@) is None && resp.value()
                    == msg.value(),
                Err(e) => response_fault::<C>(msg.value()@) == Some(
                    (e@.kind, e.description_text()),
                ) && e@.inner is Some,
            },
    {
        let array = msg.message();
        proof {
            lemma_array_view(*array);
        }
        let arraylen = array.len();
        if arraylen != 4 {
            let mut errmsg = String::from_str("expected array length of 4, got ");
            errmsg.append(decimal(arraylen as u64).as_str());
            return Err(Error::new(RpcError::InvalidArrayLength, errmsg));
        }
        if let Err(e) = Self::check_message_type(&array[0]) {
            return Err(e);
        }
        if let Err(e) = Self::check_message_id(&array[1]) {
            return Err(e);
        }
        if let Err(e) = Self::check_error_code(&array[2]) {
            return Err(e);
        }
        Ok(ResponseMessage { msg, msgtype: PhantomData })
    }

    /// Checks that the head of a message is the type of a response.
    fn check_message_type(msgtype: &Value) -> (r: RpcResult<()>)
        requires
            bounded_number(msgtype@, 255) is Some,
        ensures
            match r {
                Ok(_) => bounded_number(msgtype@, 255)->0 == 1,
                Err(e) => bounded_number(msgtype@, 255)->0 != 1 && e@.kind
                    == RpcError::InvalidMessageType && e@.inner == Some(
                    "expected 1 for message type (ie MessageType::Response), got "@ + decimal_text(
                        bounded_number(msgtype@, 255)->0 as nat,
                    ),
                ),
            },
    {
        let msgtype: u8 = match msgtype.as_u64() {
            Some(n) => n as u8,
            None => vstd::pervasive::unreached(),
        };
        if msgtype != 1 {
            let mut errmsg = String::from_str("expected ");
            errmsg.append(decimal(1).as_str());
            errmsg.append(" for message type (ie MessageType::Response), got ");
            errmsg.append(decimal(msgtype as u64).as_str());
            proof {
                reveal_strlit("expected ");
                reveal_strlit(" for message type (ie MessageType::Response), got ");
                reveal_strlit("expected 1 for message type (ie MessageType::Response), got ");
                assert(decimal_text(1) =~= seq!['1']);
                assert(errmsg@ =~= "expected 1 for message type (ie MessageType::Response), got "@
                    + decimal_text(msgtype as nat));
            }
            return Err(Error::new(RpcError::InvalidMessageType, errmsg));
        }
        Ok(())
    }

    /// Checks that the id of a response fits a `u32`.
    fn check_message_id(msgid: &Value) -> (r: RpcResult<()>)
        ensures
            match r {
                Ok(_) => bounded_number(msgid@, 0xffff_ffff) is Some,
                Err(e) => bounded_number(msgid@, 0xffff_ffff) is None && e@.kind
                    == RpcError::InvalidIDType && e@.inner == Some(
                    check_int_text(msgid@.as_u64(), 0xffff_ffff, "u32"@),
                ),
            },
    {
        let msgid = check_int(msgid.as_u64(), 0xffff_ffff, String::from_str("u32"));
        if let Err(e) = msgid {
            return Err(Error::new(RpcError::InvalidIDType, e.to_string()));
        }
        Ok(())
    }

    /// Checks that the error of a response is the number of a code of `C`.
    fn check_error_code(msgcode: &Value) -> (r: RpcResult<()>)
        ensures
            match r {
                Ok(_) => bounded_number(msgcode@, 255) is Some && C::code_of(
                    bounded_number(msgcode@, 255)->0 as u8,
                ) is Some,
                Err(e) => e@.kind == RpcError::InvalidResponse && (if bounded_number(
                    msgcode@,
                    255,
                ) is None {
                    e@.inner == Some(check_int_text(msgcode@.as_u64(), 255, "u8"@))
                } else {
                    C::code_of(bounded_number(msgcode@, 255)->0 as u8) is None && e@.inner
                        == Some(decimal_text(bounded_number(msgcode@, 255)->0 as nat))
                }),
            },
    {
        let msgcode = check_int(msgcode.as_u64(), 255, String::from_str("u8"));
        match msgcode {
            Err(e) => {
                return Err(Error::new(RpcError::InvalidResponse, e.to_string()));
            },
            Ok(v) => {
                let u8val = v as u8;
                if let Err(e) = C::from_number(u8val) {
                    return Err(Error::new(RpcError::InvalidResponse, e.to_string()));
                }
            },
        }
        Ok(())
    }

    /// Gives up the response for the message that it wraps.
    pub fn into_message(self) -> (m: Message)
        ensures
            m.value() == self.value(),
            valid_response::<C>(m.value()@),
    {
        proof {
            use_type_invariant(&self);
        }
        self.msg
    }

    /// Gives up the response for the value that it wraps.
    pub fn into_value(self) -> (v: Value)
        ensures
            v == self.value(),
            valid_response::<C>(v@),
    {
        proof {
            use_type_invariant(&self);
        }
        self.msg.into_value()
    }
}

} // verus!
