//! The vocabulary of the session protocol: the kinds of session, and the
//! methods, error codes and notices of each kind.

use crate::error::Result;
use crate::network::rpc::message::{invalid_number, CodeConvert};
use vstd::prelude::*;

verus! {

/// What can be wrong with a message in the course of a session.
#[derive(Debug, PartialEq, Eq, Clone, Copy, Structural)]
pub enum ProtocolError {
    InvalidData,
    InvalidMessage,
    InvalidMessageType,
    UnexpectedMessage,
    InvalidRequestID,
    /// The request code is not known.
    InvalidRequestType,
    InvalidRequestArgs,
    InvalidRequest,
    InvalidResponseID,
    /// The response code is not known.
    InvalidResponseType,
    InvalidResponse,
    /// The notification code is not known.
    InvalidNotificationType,
    InvalidNotificationArgs,
    InvalidNotification,
}

/// The kind of a session, named by the notice that opens it.
#[derive(Debug, PartialEq, Eq, Clone, Copy, Structural)]
pub enum SessionType {
    /// A session of an agent that is starting: only the boot requests are served.
    Boot,
    /// A session that may use every request on keyfiles.
    Auth,
}

impl CodeConvert for SessionType {
    open spec fn number(&self) -> u8 {
        match self {
            SessionType::Boot => 0,
            SessionType::Auth => 1,
        }
    }

    open spec fn code_of(num: u8) -> Option<Self> {
        if num == 0 {
            Some(SessionType::Boot)
        } else if num == 1 {
            Some(SessionType::Auth)
        } else {
            None
        }
    }

    proof fn lemma_number_code(code: Self) {
    }

    proof fn lemma_code_number(num: u8) {
    }

    fn from_number(num: u8) -> (r: Result<Self>) {
        match num {
            0 => Ok(SessionType::Boot),
            1 => Ok(SessionType::Auth),
            _ => Err(invalid_number(num)),
        }
    }

    fn to_number(&self) -> (n: u8) {
        match self {
            SessionType::Boot => 0,
            SessionType::Auth => 1,
        }
    }
}

/// The requests of a boot session.
#[derive(Debug, PartialEq, Eq, Clone, Copy, Structural)]
pub enum BootMessage {
    /// Determine if a key exists.
    KeyExists,
    /// Retrieve the keyfile.
    GetKeyFile,
}

impl CodeConvert for BootMessage {
    open spec fn number(&self) -> u8 {
        match self {
            BootMessage::KeyExists => 0,
            BootMessage::GetKeyFile => 1,
        }
    }

    open spec fn code_of(num: u8) -> Option<Self> {
        if num == 0 {
            Some(BootMessage::KeyExists)
        } else if num == 1 {
            Some(BootMessage::GetKeyFile)
        } else {
            None
        }
    }

    proof fn lemma_number_code(code: Self) {
    }

    proof fn lemma_code_number(num: u8) {
    }

    fn from_number(num: u8) -> (r: Result<Self>) {
        match num {
            0 => Ok(BootMessage::KeyExists),
            1 => Ok(BootMessage::GetKeyFile),
            _ => Err(invalid_number(num)),
        }
    }

    fn to_number(&self) -> (n: u8) {
        match self {
            BootMessage::KeyExists => 0,
            BootMessage::GetKeyFile => 1,
        }
    }
}

/// The error codes of the responses of a boot session.
#[derive(Debug, PartialEq, Eq, Clone, Copy, Structural)]
pub enum BootError {
    /// No error.
    Nil,
    /// Key file is not found.
    KeyFileNotFound,
}

impl CodeConvert for BootError {
    open spec fn number(&self) -> u8 {
        match self {
            BootError::Nil => 0,
            BootError::KeyFileNotFound => 1,
        }
    }

    open spec fn code_of(num: u8) -> Option<Self> {
        if num == 0 {
            Some(BootError::Nil)
        } else if num == 1 {
            Some(BootError::KeyFileNotFound)
        } else {
            None
        }
    }

    proof fn lemma_number_code(code: Self) {
    }

    proof fn lemma_code_number(num: u8) {
    }

    fn from_number(num: u8) -> (r: Result<Self>) {
        match num {
            0 => Ok(BootError::Nil),
            1 => Ok(BootError::KeyFileNotFound),
            _ => Err(invalid_number(num)),
        }
    }

    fn to_number(&self) -> (n: u8) {
        match self {
            BootError::Nil => 0,
            BootError::KeyFileNotFound => 1,
        }
    }
}

/// The notices of a boot session.
#[derive(Debug, PartialEq, Eq, Clone, Copy, Structural)]
pub enum BootNotice {
    /// No more requests will be made.
    Done,
}

impl CodeConvert for BootNotice {
    open spec fn number(&self) -> u8 {
        match self {
            BootNotice::Done => 2,
        }
    }

    open spec fn code_of(num: u8) -> Option<Self> {
        if num == 2 {
            Some(BootNotice::Done)
        } else {
            None
        }
    }

    proof fn lemma_number_code(code: Self) {
    }

    proof fn lemma_code_number(num: u8) {
    }

    fn from_number(num: u8) -> (r: Result<Self>) {
        match num {
            2 => Ok(BootNotice::Done),
            _ => Err(invalid_number(num)),
        }
    }

    fn to_number(&self) -> (n: u8) {
        match self {
            BootNotice::Done => 2,
        }
    }
}

/// The requests of an authenticated session.
#[derive(Debug, PartialEq, Eq, Clone, Copy, Structural)]
pub enum AuthMessage {
    /// Retrieve the keyfile. One argument: the key.
    GetKeyFile,
    /// Create the keyfile. Two arguments: the key and the keyfile.
    CreateKeyFile,
    /// Change only the keyfile. Two arguments: the key and the new keyfile.
    ChangeKeyFile,
    /// Change only the key. Two arguments: the old key and the new key.
    ChangeKey,
    /// Replace the keyfile. Three arguments: the old key, the new key and the new keyfile.
    ReplaceKeyFile,
    /// Delete the keyfile. One argument: the key.
    DeleteKeyFile,
    /// Check if a key exists. One argument: the key.
    KeyExists,
}

impl CodeConvert for AuthMessage {
    open spec fn number(&self) -> u8 {
        match self {
            AuthMessage::GetKeyFile => 0,
            AuthMessage::CreateKeyFile => 1,
            AuthMessage::ChangeKeyFile => 2,
            AuthMessage::ChangeKey => 3,
            AuthMessage::ReplaceKeyFile => 4,
            AuthMessage::DeleteKeyFile => 5,
            AuthMessage::KeyExists => 6,
        }
    }

    open spec fn code_of(num: u8) -> Option<Self> {
        if num == 0 {
            Some(AuthMessage::GetKeyFile)
        } else if num == 1 {
            Some(AuthMessage::CreateKeyFile)
        } else if num == 2 {
            Some(AuthMessage::ChangeKeyFile)
        } else if num == 3 {
            Some(AuthMessage::ChangeKey)
        } else if num == 4 {
            Some(AuthMessage::ReplaceKeyFile)
        } else if num == 5 {
            Some(AuthMessage::DeleteKeyFile)
        } else if num == 6 {
            Some(AuthMessage::KeyExists)
        } else {
            None
        }
    }

    proof fn lemma_number_code(code: Self) {
    }

    proof fn lemma_code_number(num: u8) {
    }

    fn from_number(num: u8) -> (r: Result<Self>) {
        match num {
            0 => Ok(AuthMessage::GetKeyFile),
            1 => Ok(AuthMessage::CreateKeyFile),
            2 => Ok(AuthMessage::ChangeKeyFile),
            3 => Ok(AuthMessage::ChangeKey),
            4 => Ok(AuthMessage::ReplaceKeyFile),
            5 => Ok(AuthMessage::DeleteKeyFile),
            6 => Ok(AuthMessage::KeyExists),
            _ => Err(invalid_number(num)),
        }
    }

    fn to_number(&self) -> (n: u8) {
        match self {
            AuthMessage::GetKeyFile => 0,
            AuthMessage::CreateKeyFile => 1,
            AuthMessage::ChangeKeyFile => 2,
            AuthMessage::ChangeKey => 3,
            AuthMessage::ReplaceKeyFile => 4,
            AuthMessage::DeleteKeyFile => 5,
            AuthMessage::KeyExists => 6,
        }
    }
}

/// The error codes of the responses of an authenticated session.
#[derive(Debug, PartialEq, Eq, Clone, Copy, Structural)]
pub enum AuthError {
    /// No error.
    Nil,
    /// Key file is not found.
    KeyFileNotFound,
    /// Key file exists.
    KeyFileExists,
    /// The store failed.
    DatabaseError,
}

impl CodeConvert for AuthError {
    open spec fn number(&self) -> u8 {
        match self {
            AuthError::Nil => 0,
            AuthError::KeyFileNotFound => 1,
            AuthError::KeyFileExists => 2,
            AuthError::DatabaseError => 3,
        }
    }

    open spec fn code_of(num: u8) -> Option<Self> {
        if num == 0 {
            Some(AuthError::Nil)
        } else if num == 1 {
            Some(AuthError::KeyFileNotFound)
        } else if num == 2 {
            Some(AuthError::KeyFileExists)
        } else if num == 3 {
            Some(AuthError::DatabaseError)
        } else {
            None
        }
    }

    proof fn lemma_number_code(code: Self) {
    }

    proof fn lemma_code_number(num: u8) {
    }

    fn from_number(num: u8) -> (r: Result<Self>) {
        match num {
            0 => Ok(AuthError::Nil),
            1 => Ok(AuthError::KeyFileNotFound),
            2 => Ok(AuthError::KeyFileExists),
            3 => Ok(AuthError::DatabaseError),
            _ => Err(invalid_number(num)),
        }
    }

    fn to_number(&self) -> (n: u8) {
        match self {
            AuthError::Nil => 0,
            AuthError::KeyFileNotFound => 1,
            AuthError::KeyFileExists => 2,
            AuthError::DatabaseError => 3,
        }
    }
}

/// The notices of an authenticated session.
#[derive(Debug, PartialEq, Eq, Clone, Copy, Structural)]
pub enum AuthNotice {
    /// No more requests will be made.
    Done,
}

impl CodeConvert for AuthNotice {
    open spec fn number(&self) -> u8 {
        match self {
            AuthNotice::Done => 2,
        }
    }

    open spec fn code_of(num: u8) -> Option<Self> {
        if num == 2 {
            Some(AuthNotice::Done)
        } else {
            None
        }
    }

    proof fn lemma_number_code(code: Self) {
    }

    proof fn lemma_code_number(num: u8) {
    }

    fn from_number(num: u8) -> (r: Result<Self>) {
        match num {
            2 => Ok(AuthNotice::Done),
            _ => Err(invalid_number(num)),
        }
    }

    fn to_number(&self) -> (n: u8) {
        match self {
            AuthNotice::Done => 2,
        }
    }
}

/// The numbers of the kinds of session are 0 and 1.
pub proof fn law_session_type_numbers(num: u8)
    ensures
        SessionType::code_of(num) is Some <==> num < 2,
{
}

/// The numbers of the boot requests are 0 and 1.
pub proof fn law_boot_message_numbers(num: u8)
    ensures
        BootMessage::code_of(num) is Some <==> num < 2,
{
}

/// The numbers of the boot errors are 0 and 1.
pub proof fn law_boot_error_numbers(num: u8)
    ensures
        BootError::code_of(num) is Some <==> num < 2,
{
}

/// The one boot notice has the number 2.
pub proof fn law_boot_notice_numbers(num: u8)
    ensures
        BootNotice::code_of(num) is Some <==> num == 2,
{
}

/// The numbers of the requests of an authenticated session are 0 to 6.
pub proof fn law_auth_message_numbers(num: u8)
    ensures
        AuthMessage::code_of(num) is Some <==> num < 7,
{
}

/// The numbers of the errors of an authenticated session are 0 to 3.
pub proof fn law_auth_error_numbers(num: u8)
    ensures
        AuthError::code_of(num) is Some <==> num < 4,
{
}

/// The one notice of an authenticated session has the number 2.
pub proof fn law_auth_notice_numbers(num: u8)
    ensures
        AuthNotice::code_of(num) is Some <==> num == 2,
{
}

} // verus!
