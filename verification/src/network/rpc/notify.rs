//! The notification: a message of three items, `[2, code, arguments]`.
//!
//! The code is the number of a code of the protocol at hand, and the
//! arguments are an array.

use crate::error::network::rpc::{RpcError, RpcResult};
use crate::error::Error;
use crate::network::rpc::message::{
    bounded_number, check_int, check_int_text, message_head, valid_message, value_type,
    CodeConvert, Message, RpcMessage,
};
use crate::text::{decimal, decimal_text};
use crate::value::{lemma_array_view, views_of, Value, ValueView};
use core::marker::PhantomData;
use vstd::prelude::*;
use vstd::string::StringExecFns;

verus! {

/// What `NotificationMessage::from` finds wrong with a message, if
/// anything: the kind of the error and its description. The items are
/// checked in order, and the first fault is the one reported.
pub open spec fn notification_fault<C: CodeConvert>(v: ValueView) -> Option<
    (RpcError, Seq<char>),
>
    recommends
        valid_message(v),
{
    let items = v->Array_0;
    if items.len() != 3 {
        Some(
            (
                RpcError::InvalidArrayLength,
                "expected array length of 3, got "@ + decimal_text(items.len()),
            ),
        )
    } else if message_head(v) != 2 {
        Some(
            (
                RpcError::InvalidMessageType,
                "expected 2 for message type (ie MessageType::Notification), got "@
                    + decimal_text(message_head(v) as nat),
            ),
        )
    } else if bounded_number(items[1], 255) is None {
        Some((RpcError::InvalidNotification, check_int_text(items[1].as_u64(), 255, "u8"@)))
    } else if C::code_of(bounded_number(items[1], 255)->0 as u8) is None {
        Some(
            (RpcError::InvalidNotification, decimal_text(bounded_number(items[1], 255)->0 as nat)),
        )
    } else if !(items[2] is Array) {
        Some(
            (
                RpcError::InvalidNotificationArgs,
                "expected array for request arguments but got "@ + items[2].variant_name(),
            ),
        )
    } else {
        None
    }
}

/// What every notification is: a valid message without a fault.
pub open spec fn valid_notification<C: CodeConvert>(v: ValueView) -> bool {
    valid_message(v) && notification_fault::<C>(v) is None
}

/// The number of the code of a notification.
pub open spec fn notification_code(v: ValueView) -> u8 {
    bounded_number(v->Array_0[1], 255)->0 as u8
}

/// The notification with the given number of code and arguments.
pub open spec fn notification_view(code: u8, args: Seq<ValueView>) -> ValueView {
    ValueView::Array(
        seq![ValueView::Integer(2), ValueView::Integer(code as int), ValueView::Array(args)],
    )
}

/// What a notification offers beyond a message.
pub trait RpcNotice<C: CodeConvert>: RpcMessage {
    /// Return the message's code.
    fn message_code(&self) -> (code: C)
        ensures
            valid_notification::<C>(self.value()@),
            C::code_of(notification_code(self.value()@)) == Some(code),
    ;

    /// Return the message's arguments.
    fn message_args(&self) -> (args: &Vec<Value>)
        ensures
            valid_notification::<C>(self.value()@),
            self.value()@->Array_0[2] == ValueView::Array(views_of(args@)),
    ;
}

/// A message that is known to be a notification with a code of `C`.
pub struct NotificationMessage<C: CodeConvert> {
    msg: Message,
    msgtype: PhantomData<C>,
}

impl<C: CodeConvert> RpcMessage for NotificationMessage<C> {
    closed spec fn value(&self) -> Value {
        self.msg.value()
    }

    fn message(&self) -> (r: &Vec<Value>) {
        self.msg.message()
    }

    fn raw_message(&self) -> (r: &Value) {
        self.msg.raw_message()
    }
}

impl<C: CodeConvert> RpcNotice<C> for NotificationMessage<C> {
    fn message_code(&self) -> (code: C) {
        proof {
            use_type_invariant(self);
        }
        let items = self.msg.message();
        proof {
            lemma_array_view(*items);
        }
        let num: u8 = match items[1].as_u64() {
            Some(n) => n as u8,
            None => vstd::pervasive::unreached(),
        };
        match C::from_number(num) {
            Ok(code) => code,
            Err(_) => vstd::pervasive::unreached(),
        }
    }

    fn message_args(&self) -> (args: &Vec<Value>) {
        proof {
            use_type_invariant(self);
        }
        let items = self.msg.message();
        proof {
            lemma_array_view(*items);
        }
        match &items[2] {
            Value::Array(args) => {
                proof {
                    lemma_array_view(*args);
                }
                args
            },
            _ => vstd::pervasive::unreached(),
        }
    }
}

impl<C: CodeConvert> NotificationMessage<C> {
    #[verifier::type_invariant]
    spec fn well_formed(self) -> bool {
        valid_notification::<C>(self.msg.value()@)
    }

    /// Create a brand new notification.
    pub fn new(notifycode: C, args: Vec<Value>) -> (r: Self)
        ensures
            r.value()@ == notification_view(notifycode.number(), views_of(args@)),
            valid_notification::<C>(r.value()@),
    {
        let code = notifycode.to_number();
        let ghost argviews = views_of(args@);
        proof {
            C::lemma_number_code(notifycode);
            lemma_array_view(args);
        }
        let items = vec![Value::from_u64(2), Value::from_u64(code as u64), Value::Array(args)];
        proof {
            lemma_array_view(items);
            assert(views_of(items@) =~= notification_view(code, argviews)->Array_0);
        }
        let msgval = Value::Array(items);
        match Message::from(msgval) {
            Ok(msg) => NotificationMessage { msg, msgtype: PhantomData },
            Err(_) => vstd::pervasive::unreached(),
        }
    }

    /// Create a notification from a message.
    ///
    /// The message must have three items: the type of a notification, the
    /// number of a code of `C`, and an array of arguments. The first item
    /// that fails decides the error.
    pub fn from(msg: Message) -> (r: RpcResult<Self>)
        ensures
            match r {
                Ok(note) => notification_fault::<C>(msg.value()@) is None && note.value()
                    == msg.value(),
                Err(e) => notification_fault::<C>(msg.value()@) == Some(
                    (e@.kind, e.description_text()),
                ) && e@.inner is Some,
            },
    {
        let array = msg.message();
        proof {
            lemma_array_view(*array);
        }
        let arraylen = array.len();
        if arraylen != 3 {
            let mut errmsg = String::from_str("expected array length of 3, got ");
            errmsg.append(decimal(arraylen as u64).as_str());
            return Err(Error::new(RpcError::InvalidArrayLength, errmsg));
        }
        if let Err(e) = Self::check_message_type(&array[0]) {
            return Err(e);
        }
        if let Err(e) = Self::check_message_code(&array[1]) {
            return Err(e);
        }
        if let Err(e) = Self::check_message_args(&array[2]) {
            return Err(e);
        }
        Ok(NotificationMessage { msg, msgtype: PhantomData })
    }

    /// Checks that the head of a message is the type of a notification.
    fn check_message_type(msgtype: &Value) -> (r: RpcResult<()>)
        requires
            bounded_number(msgtype@, 255) is Some,
        ensures
            match r {
                Ok(_) => bounded_number(msgtype@, 255)->0 == 2,
                Err(e) => bounded_number(msgtype@, 255)->0 != 2 && e@.kind
                    == RpcError::InvalidMessageType && e@.inner == Some(
                    "expected 2 for message type (ie MessageType::Notification), got "@
                        + decimal_text(bounded_number(msgtype@, 255)->0 as nat),
                ),
            },
    {
        let msgtype: u8 = match msgtype.as_u64() {
            Some(n) => n as u8,
            None => vstd::pervasive::unreached(),
        };
        if msgtype != 2 {
            let mut errmsg = String::from_str("expected ");
            errmsg.append(decimal(2).as_str());
            errmsg.append(" for message type (ie MessageType::Notification), got ");
            errmsg.append(decimal(msgtype as u64).as_str());
            proof {
                reveal_strlit("expected ");
                reveal_strlit(" for message type (ie MessageType::Notification), got ");
                reveal_strlit("expected 2 for message type (ie MessageType::Notification), got ");
                assert(decimal_text(2) =~= seq!['2']);
                assert(errmsg@
                    =~= "expected 2 for message type (ie MessageType::Notification), got "@
                    + decimal_text(msgtype as nat));
            }
            return Err(Error::new(RpcError::InvalidMessageType, errmsg));
        }
        Ok(())
    }

    /// Checks that the code of a notification is the number of a code of
    /// `C`.
    fn check_message_code(msgcode: &Value) -> (r: RpcResult<()>)
        ensures
            match r {
                Ok(_) => bounded_number(msgcode@, 255) is Some && C::code_of(
                    bounded_number(msgcode@, 255)->0 as u8,
                ) is Some,
                Err(e) => e@.kind == RpcError::InvalidNotification && (if bounded_number(
                    msgcode@,
                    255,
                ) is None {
                    e@.inner == Some(check_int_text(msgcode@.as_u64(), 255, "u8"@))
                } else {
                    C::code_of(bounded_number(msgcode@, 255)->0 as u8) is None && e@.inner
                        == Some(decimal_text(bounded_number(msgcode@, 255)->0 as nat))
                }),
            },
    {
        let msgcode = check_int(msgcode.as_u64(), 255, String::from_str("u8"));
        match msgcode {
            Err(e) => {
                return Err(Error::new(RpcError::InvalidNotification, e.to_string()));
            },
            Ok(v) => {
                let u8val = v as u8;
                if let Err(e) = C::from_number(u8val) {
                    return Err(Error::new(RpcError::InvalidNotification, e.to_string()));
                }
            },
        }
        Ok(())
    }

    /// Checks that the arguments of a notification are an array.
    fn check_message_args(msgargs: &Value) -> (r: RpcResult<()>)
        ensures
            match r {
                Ok(_) => msgargs@ is Array,
                Err(e) => !(msgargs@ is Array) && e@.kind == RpcError::InvalidNotificationArgs
                    && e@.inner == Some(
                    "expected array for request arguments but got "@ + msgargs@.variant_name(),
                ),
            },
    {
        let args = msgargs.as_array();
        if args.is_none() {
            let mut errmsg = String::from_str("expected array for request arguments but got ");
            errmsg.append(value_type(msgargs).as_str());
            return Err(Error::new(RpcError::InvalidNotificationArgs, errmsg));
        }
        Ok(())
    }

    /// Gives up the notification for the message that it wraps.
    pub fn into_message(self) -> (m: Message)
        ensures
            m.value() == self.value(),
            valid_notification::<C>(m.value()@),
    {
        proof {
            use_type_invariant(&self);
        }
        self.msg
    }

    /// Gives up the notification for the value that it wraps.
    pub fn into_value(self) -> (v: Value)
        ensures
            v == self.value(),
            valid_notification::<C>(v@),
    {
        proof {
            use_type_invariant(&self);
        }
        self.msg.into_value()
    }
}

} // verus!
