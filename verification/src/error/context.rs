//! Errors that carry a message of their own and may name the error that
//! led to them.

use core::fmt::Display;
use vstd::prelude::*;
use vstd::string::to_string_from_display_ensures;
use vstd::string::StringExecFns;

verus! {

/// What an error with a kind and a message offers.
pub trait GenericError<E>: Sized {
    /// An error of kind `err` that says `msg`.
    fn new(err: E, msg: &str) -> Self;

    /// The error as it is displayed and debugged.
    fn _defaultfmt(&self) -> String;
}

/// An error of kind `E` with a message, and the error that led to it, if any.
pub struct Error<E: Display> {
    err: E,
    msg: String,
    parent: Option<Box<Error<E>>>,
}

/// Whether `text` reads `Error(kind) => msg`, where `kind` is a display of
/// `err`.
pub open spec fn is_display_text<E: Display>(err: E, msg: Seq<char>, text: Seq<char>) -> bool {
    exists|kind: String| #[trigger]
        to_string_from_display_ensures::<E>(&err, kind) && text == "Error("@ + kind@ + ") => "@
            + msg
}

impl<E: Display> Error<E> {
    /// The kind of the error.
    pub closed spec fn spec_err(&self) -> E {
        self.err
    }

    /// The message of the error.
    pub closed spec fn spec_msg(&self) -> Seq<char> {
        self.msg@
    }

    /// The error that led to this one.
    pub closed spec fn spec_parent(&self) -> Option<Error<E>> {
        match self.parent {
            Some(b) => Some(*b),
            None => None,
        }
    }

    /// Names `val` as the error that led to this one.
    pub fn parent(self, val: Error<E>) -> (e: Self)
        ensures
            e.spec_err() == self.spec_err(),
            e.spec_msg() == self.spec_msg(),
            e.spec_parent() == Some(val),
    {
        let mut e = self;
        e.parent = Some(Box::new(val));
        e
    }

    /// The kind of the error.
    pub fn kind(&self) -> (k: &E)
        ensures
            *k == self.spec_err(),
    {
        &self.err
    }

    /// The message of the error.
    pub fn description(&self) -> (s: &str)
        ensures
            s@ == self.spec_msg(),
    {
        self.msg.as_str()
    }

    /// The error that led to this one, if one was named.
    pub fn cause(&self) -> (r: Option<&Error<E>>)
        ensures
            match r {
                Some(p) => self.spec_parent() == Some(*p),
                None => self.spec_parent() is None,
            },
    {
        match &self.parent {
            None => None,
            Some(b) => Some(&**b),
        }
    }

    /// The error as it is displayed: `Error(kind) => message`.
    pub fn to_string(&self) -> (s: String)
        ensures
            is_display_text(self.spec_err(), self.spec_msg(), s@),
    {
        self._defaultfmt()
    }
}

impl<E: Display> GenericError<E> for Error<E> {
    fn new(err: E, msg: &str) -> (e: Self)
        ensures
            e.spec_err() == err,
            e.spec_msg() == msg@,
            e.spec_parent() is None,
    {
        Error { err, msg: String::from_str(msg), parent: None }
    }

    fn _defaultfmt(&self) -> (s: String)
        ensures
            is_display_text(self.spec_err(), self.spec_msg(), s@),
    {
        let kind = self.err.to_string();
        let mut s = String::from_str("Error(");
        s.append(kind.as_str());
        s.append(") => ");
        s.append(self.msg.as_str());
        s
    }
}

/// The kinds of error of a context.
#[derive(Debug, Copy, Clone, PartialEq, Eq, Structural)]
pub enum ContextErrorType {
    EnterError,
    Other,
}

impl ContextErrorType {
    /// The kind as it is displayed.
    pub open spec fn display_text(&self) -> Seq<char> {
        match self {
            ContextErrorType::EnterError => "ContextErrorType::EnterError"@,
            ContextErrorType::Other => "ContextErrorType::Other"@,
        }
    }

    /// The kind as it is displayed.
    pub fn to_text(&self) -> (s: &'static str)
        ensures
            s@ == self.display_text(),
    {
        match self {
            ContextErrorType::EnterError => "ContextErrorType::EnterError",
            ContextErrorType::Other => "ContextErrorType::Other",
        }
    }
}

} // verus!
