//! The base type of all RPC messages.
//!
//! A [`Message`] wraps a [`Value`] that is known to be an array of three or
//! four items whose first item is a number that fits a `u8`: the least that
//! every shape of message has in common.

use crate::error::network::rpc::{RpcError, RpcResult};
use crate::error::{Error, ErrorView, GeneralError, Result};
use crate::text::{decimal, decimal_text};
use crate::value::{lemma_array_view, Value, ValueView};
use vstd::prelude::*;
use vstd::string::StringExecFns;

verus! {

/// Return the name of the variant of a value.
pub fn value_type(arg: &Value) -> (s: String)
    ensures
        s@ == arg@.variant_name(),
{
    String::from_str(arg.variant_name())
}

/// Converts between a number and a code.
///
/// Implemented by the enums that name the methods, the error codes and
/// the notices of a protocol. A code has one number, and that number stands
/// for no other code.
pub trait CodeConvert: Sized {
    /// The number of a code.
    spec fn number(&self) -> u8;

    /// The code that a number stands for, if it stands for one.
    spec fn code_of(num: u8) -> Option<Self>;

    /// The number of a code stands for that code.
    proof fn lemma_number_code(code: Self)
        ensures
            Self::code_of(code.number()) == Some(code),
    ;

    /// A number stands for a code that has this number.
    proof fn lemma_code_number(num: u8)
        ensures
            Self::code_of(num) matches Some(code) ==> code.number() == num,
    ;

    /// Convert a number to a code.
    ///
    /// A number that stands for no code is an `InvalidValue` error that
    /// shows the number.
    fn from_number(num: u8) -> (r: Result<Self>)
        ensures
            match r {
                Ok(code) => Self::code_of(num) == Some(code),
                Err(e) => Self::code_of(num) is None && e@ == (ErrorView {
                    kind: GeneralError::InvalidValue,
                    inner: Some(decimal_text(num as nat)),
                }),
            },
    ;

    /// Convert a code to its number.
    fn to_number(&self) -> (n: u8)
        ensures
            n == self.number(),
    ;
}

/// The error of a number that stands for no code.
pub fn invalid_number(num: u8) -> (e: Error<GeneralError>)
    ensures
        e@ == (ErrorView {
            kind: GeneralError::InvalidValue,
            inner: Some(decimal_text(num as nat)),
        }),
{
    Error::new(GeneralError::InvalidValue, decimal(num as u64))
}

/// The types of message.
#[derive(Debug, PartialEq, Eq, Clone, Copy, Structural)]
pub enum MessageType {
    /// A message initiating a request.
    Request,
    /// A message sent in response to a request.
    Response,
    /// A message notifying of some additional information.
    Notification,
}

impl CodeConvert for MessageType {
    open spec fn number(&self) -> u8 {
        match self {
            MessageType::Request => 0,
            MessageType::Response => 1,
            MessageType::Notification => 2,
        }
    }

    open spec fn code_of(num: u8) -> Option<Self> {
        if num == 0 {
            Some(MessageType::Request)
        } else if num == 1 {
            Some(MessageType::Response)
        } else if num == 2 {
            Some(MessageType::Notification)
        } else {
            None
        }
    }

    proof fn lemma_number_code(code: Self) {
    }

    proof fn lemma_code_number(num: u8) {
    }

    fn from_number(num: u8) -> (r: Result<Self>) {
        match num {
            0 => Ok(MessageType::Request),
            1 => Ok(MessageType::Response),
            2 => Ok(MessageType::Notification),
            _ => Err(invalid_number(num)),
        }
    }

    fn to_number(&self) -> (n: u8) {
        match self {
            MessageType::Request => 0,
            MessageType::Response => 1,
            MessageType::Notification => 2,
        }
    }
}

/// The number that a value holds, where it is a whole number up to `max`.
pub open spec fn bounded_number(v: ValueView, max: u64) -> Option<u64> {
    match v.as_u64() {
        Some(n) => if n <= max {
            Some(n)
        } else {
            None
        },
        None => None,
    }
}

/// What every message is: an array of three or four items that starts with
/// a number up to 255.
pub open spec fn valid_message(v: ValueView) -> bool {
    &&& v is Array
    &&& v->Array_0.len() == 3 || v->Array_0.len() == 4
    &&& bounded_number(v->Array_0[0], 255) is Some
}

/// The number at the head of a message.
pub open spec fn message_head(v: ValueView) -> u8
    recommends
        valid_message(v),
{
    bounded_number(v->Array_0[0], 255)->0 as u8
}

/// The description of a number that `check_int` refuses.
pub open spec fn check_int_text(val: Option<u64>, max_value: u64, expected: Seq<char>) -> Seq<
    char,
> {
    match val {
        None => "expected "@ + expected + " but got None"@,
        Some(v) => "expected value <= "@ + decimal_text(max_value as nat) + " but got value "@
            + decimal_text(v as nat),
    }
}

/// What `Message::from` finds wrong with a value, if anything: the kind of
/// the error and its description.
pub open spec fn message_fault(v: ValueView) -> Option<(RpcError, Seq<char>)> {
    if !(v is Array) {
        Some((RpcError::InvalidMessage, "expected array but got "@ + v.variant_name()))
    } else if v->Array_0.len() < 3 || v->Array_0.len() > 4 {
        Some(
            (
                RpcError::InvalidArrayLength,
                "expected array length of either 3 or 4, got "@ + decimal_text(v->Array_0.len()),
            ),
        )
    } else if bounded_number(v->Array_0[0], 255) is None {
        Some(
            (
                RpcError::InvalidMessageType,
                check_int_text(v->Array_0[0].as_u64(), 255, "u8"@),
            ),
        )
    } else {
        None
    }
}

/// The type of a message: the type that the number at its head stands
/// for, if it stands for one.
pub open spec fn message_type_of(v: ValueView) -> Option<MessageType>
    recommends
        valid_message(v),
{
    MessageType::code_of(message_head(v))
}

/// A number converts to a code that converts back to the number.
pub proof fn law_number_of_code<C: CodeConvert>(num: u8)
    ensures
        C::code_of(num) matches Some(code) ==> code.number() == num,
{
    C::lemma_code_number(num);
}

/// A code converts to a number that converts back to the code.
pub proof fn law_code_of_number<C: CodeConvert>(code: C)
    ensures
        C::code_of(code.number()) == Some(code),
{
    C::lemma_number_code(code);
}

/// The numbers of the types of message are 0, 1 and 2.
pub proof fn law_message_type_numbers(num: u8)
    ensures
        MessageType::code_of(num) is Some <==> num < 3,
{
}

/// Of a value that `Message::from` accepts, the head is a number up to
/// 255, and the message has a type exactly where `MessageType` has a code
/// for that number: the code is the type.
pub proof fn law_message_type(v: ValueView)
    requires
        message_fault(v) is None,
    ensures
        valid_message(v),
        v->Array_0[0] == ValueView::Integer(message_head(v) as int),
        message_type_of(v) == MessageType::code_of(message_head(v)),
        message_type_of(v) is Some <==> message_head(v) < 3,
{
}

/// A value has no fault exactly when it is a valid message.
pub proof fn lemma_message_fault(v: ValueView)
    ensures
        message_fault(v) is None <==> valid_message(v),
{
}

/// Check if an unsigned integer value can be cast as a given integer type.
///
/// A missing value and a value above `max_value` are `InvalidType` errors;
/// any other value is returned.
pub fn check_int(val: Option<u64>, max_value: u64, expected: String) -> (r: Result<u64>)
    ensures
        match r {
            Ok(v) => val == Some(v) && v <= max_value,
            Err(e) => (val is None || val->0 > max_value) && e@ == (ErrorView {
                kind: GeneralError::InvalidType,
                inner: Some(check_int_text(val, max_value, expected@)),
            }),
        },
{
    match val {
        None => {
            let mut errmsg = String::from_str("expected ");
            errmsg.append(expected.as_str());
            errmsg.append(" but got None");
            Err(Error::new(GeneralError::InvalidType, errmsg))
        },
        Some(v) => {
            if v > max_value {
                let mut errmsg = String::from_str("expected value <= ");
                errmsg.append(decimal(max_value).as_str());
                errmsg.append(" but got value ");
                errmsg.append(decimal(v).as_str());
                return Err(Error::new(GeneralError::InvalidType, errmsg));
            }
            Ok(v)
        },
    }
}

/// What all RPC messages offer.
pub trait RpcMessage {
    /// The value that the message wraps.
    spec fn value(&self) -> Value;

    /// Return the message as a vec of values.
    ///
    /// The wrapped value is a valid message, and these are its items.
    fn message(&self) -> (r: &Vec<Value>)
        ensures
            self.value() == Value::Array(*r),
            valid_message(self.value()@),
    ;

    /// Return a reference to the wrapped value.
    fn raw_message(&self) -> (r: &Value)
        ensures
            *r == self.value(),
    ;

    /// Return the message's type.
    ///
    /// It is the type that the number at the head of the message stands
    /// for. A number that stands for no type is an `InvalidMessageType`
    /// error that shows the number.
    fn message_type(&self) -> (r: RpcResult<MessageType>)
        ensures
            match r {
                Ok(t) => message_type_of(self.value()@) == Some(t),
                Err(e) => message_type_of(self.value()@) is None && e@ == (
                ErrorView {
                    kind: RpcError::InvalidMessageType,
                    inner: Some(decimal_text(message_head(self.value()@) as nat)),
                }),
            },
    {
        let items = self.message();
        proof {
            lemma_array_view(*items);
        }
        let msgtype: u8 = match items[0].as_u64() {
            Some(v) => v as u8,
            None => {
                assert(false);
                0
            },
        };
        match MessageType::from_number(msgtype) {
            Ok(c) => Ok(c),
            Err(_) => Err(Error::new(RpcError::InvalidMessageType, decimal(msgtype as u64))),
        }
    }

    /// Check if an unsigned integer value can be cast as a given integer type.
    fn check_int(val: Option<u64>, max_value: u64, expected: String) -> (r: Result<u64>)
        ensures
            match r {
                Ok(v) => val == Some(v) && v <= max_value,
                Err(e) => (val is None || val->0 > max_value) && e@ == (ErrorView {
                    kind: GeneralError::InvalidType,
                    inner: Some(check_int_text(val, max_value, expected@)),
                }),
            },
    {
        check_int(val, max_value, expected)
    }

    /// Return the name of the variant of a value.
    fn value_type_name(arg: &Value) -> (s: String)
        ensures
            s@ == arg@.variant_name(),
    {
        value_type(arg)
    }
}

/// The base of all RPC messages: a value that is known to be an array of
/// three or four items that starts with a number up to 255.
#[derive(Debug, PartialEq)]
pub struct Message {
    msg: Value,
}

impl Message {
    #[verifier::type_invariant]
    spec fn well_formed(self) -> bool {
        valid_message(self.msg@)
    }

    /// Wraps a value that is a valid message.
    ///
    /// A value that is no array, an array of fewer than three or more than
    /// four items, and one whose first item is no number up to 255 are
    /// refused, each with an error of its own.
    pub fn from(val: Value) -> (r: RpcResult<Self>)
        ensures
            match r {
                Ok(m) => message_fault(val@) is None && m.value() == val,
                Err(e) => message_fault(val@) == Some((e@.kind, e.description_text()))
                    && e@.inner is Some,
            },
    {
        match &val {
            Value::Array(array) => {
                proof {
                    lemma_array_view(*array);
                }
                let arraylen = array.len();
                if arraylen < 3 || arraylen > 4 {
                    let mut errmsg = String::from_str(
                        "expected array length of either 3 or 4, got ",
                    );
                    errmsg.append(decimal(arraylen as u64).as_str());
                    return Err(Error::new(RpcError::InvalidArrayLength, errmsg));
                }
                let msgtype = check_int(array[0].as_u64(), 255, String::from_str("u8"));
                if let Err(e) = msgtype {
                    return Err(
                        Error::new(RpcError::InvalidMessageType, e.to_string()),
                    );
                }
            },
            _ => {
                let mut errmsg = String::from_str("expected array but got ");
                errmsg.append(val.variant_name());
                return Err(Error::new(RpcError::InvalidMessage, errmsg));
            },
        }
        Ok(Message { msg: val })
    }

    /// Gives up the message for the value that it wraps.
    pub fn into_value(self) -> (v: Value)
        ensures
            v == self.value(),
    {
        self.msg
    }
}

impl RpcMessage for Message {
    closed spec fn value(&self) -> Value {
        self.msg
    }

    fn message(&self) -> (r: &Vec<Value>) {
        proof {
            use_type_invariant(self);
        }
        match &self.msg {
            Value::Array(array) => array,
            _ => vstd::pervasive::unreached(),
        }
    }

    fn raw_message(&self) -> (r: &Value) {
        &self.msg
    }
}

impl Clone for Message {
    /// A message around a copy of the value.
    fn clone(&self) -> (r: Self)
        ensures
            r.value()@ == self.value()@,
    {
        proof {
            use_type_invariant(self);
        }
        Message { msg: self.msg.clone() }
    }
}

} // verus!
