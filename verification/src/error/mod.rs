//! Errors of the service: a kind, taken from a small enum, with an optional
//! inner error that carries the details.

pub mod context;
pub mod network;

use vstd::prelude::*;
use vstd::string::StringExecFns;

verus! {

/// A fixed message for each kind of error.
///
/// Implemented by the enums that serve as error kinds.
pub trait ErrorMessage {
    /// The message of this kind, as `message` returns it.
    spec fn message_text(&self) -> Seq<char>;

    /// Return the message of this kind.
    fn message(&self) -> (s: &'static str)
        ensures
            s@ == self.message_text(),
    ;
}

/// The content of an [`Error`]: its kind and the text of its inner error.
pub struct ErrorView<T> {
    pub kind: T,
    pub inner: Option<Seq<char>>,
}

/// An error of kind `T`, alone or around an inner error.
///
/// The inner error is held by its text: it describes what went wrong, and a
/// description or a display of the outer error shows it in place of the
/// kind's own message.
#[derive(Debug)]
pub struct Error<T> where T: Copy + ErrorMessage {
    kind: T,
    error: Option<String>,
}

impl<T> View for Error<T> where T: Copy + ErrorMessage {
    type V = ErrorView<T>;

    closed spec fn view(&self) -> ErrorView<T> {
        ErrorView {
            kind: self.kind,
            inner: match self.error {
                Some(s) => Some(s@),
                None => None,
            },
        }
    }
}

impl<T> Error<T> where T: Copy + ErrorMessage {
    /// What `description` and `to_string` show: the inner error where there
    /// is one, else the message of the kind.
    pub open spec fn description_text(&self) -> Seq<char> {
        match self@.inner {
            Some(text) => text,
            None => self@.kind.message_text(),
        }
    }

    /// An error of the given kind without an inner error.
    pub fn from(kind: T) -> (e: Self)
        ensures
            e@ == (ErrorView { kind, inner: None }),
    {
        Error { kind, error: None }
    }

    /// An error of the given kind around an inner error.
    pub fn new(kind: T, error: String) -> (e: Self)
        ensures
            e@ == (ErrorView { kind, inner: Some(error@) }),
    {
        Error { kind, error: Some(error) }
    }

    /// The inner error, if this error was made by `new`.
    pub fn get_ref(&self) -> (r: Option<&String>)
        ensures
            match r {
                Some(s) => self@.inner == Some(s@),
                None => self@.inner is None,
            },
    {
        match &self.error {
            Some(s) => Some(s),
            None => None,
        }
    }

    /// The inner error for changing it, if this error was made by `new`.
    pub fn get_mut(&mut self) -> (r: Option<&mut String>)
        ensures
            match r {
                Some(s) => old(self)@.inner == Some((*s)@) && final(self)@ == (ErrorView {
                    kind: old(self)@.kind,
                    inner: Some((*final(s))@),
                }),
                None => old(self)@.inner is None && final(self)@ == old(self)@,
            },
    {
        match &mut self.error {
            Some(s) => Some(s),
            None => None,
        }
    }

    /// Gives up the error for its inner error, if it was made by `new`.
    pub fn into_inner(self) -> (r: Option<String>)
        ensures
            match r {
                Some(s) => self@.inner == Some(s@),
                None => self@.inner is None,
            },
    {
        self.error
    }

    /// The kind of this error.
    pub fn kind(&self) -> (k: T)
        ensures
            k == self@.kind,
    {
        self.kind
    }

    /// A short description: the inner error where there is one, else the
    /// message of the kind.
    pub fn description(&self) -> (s: &str)
        ensures
            s@ == self.description_text(),
    {
        match &self.error {
            Some(s) => s.as_str(),
            None => self.kind.message(),
        }
    }

    /// The error as it is displayed, which is its description.
    pub fn to_string(&self) -> (s: String)
        ensures
            s@ == self.description_text(),
    {
        String::from_str(self.description())
    }
}

/// The result of an operation that fails with a [`GeneralError`].
pub type Result<T> = core::result::Result<T, Error<GeneralError>>;

/// Failures of internal checks.
#[derive(Debug, Copy, Clone, Eq, Hash, Ord, PartialEq, PartialOrd, Structural)]
pub enum GeneralError {
    InvalidType,
    InvalidValue,
}

impl ErrorMessage for GeneralError {
    open spec fn message_text(&self) -> Seq<char> {
        match self {
            GeneralError::InvalidType => "Invalid type"@,
            GeneralError::InvalidValue => "Invalid value"@,
        }
    }

    fn message(&self) -> (s: &'static str) {
        match self {
            GeneralError::InvalidType => "Invalid type",
            GeneralError::InvalidValue => "Invalid value",
        }
    }
}

impl GeneralError {
    /// The kind as it is displayed, which is its message.
    pub fn to_string(&self) -> (s: String)
        ensures
            s@ == self.message_text(),
    {
        String::from_str(self.message())
    }
}

} // verus!
