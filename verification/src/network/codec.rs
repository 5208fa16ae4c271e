//! The frame codec: one MessagePack value per frame, cut from and appended
//! to a byte buffer.
//!
//! Where a frame ends is found by the deserializer of `rmp_serde`, reading
//! one value of `rmpv`. What that deserializer does is not proved here: it
//! is named, and the codec is proved against the names. What the codec
//! itself decides is proved: when bytes leave the buffer, and which
//! failure of the deserializer asks for more bytes and which is an error.

use crate::text::{decimal, decimal_text};
use bytes::BytesMut;
use rmp_serde::decode::Error as ReadError;
use serde::Deserialize;
use vstd::prelude::*;
use vstd::string::StringExecFns;

verus! {

/// `bytes::BytesMut`, the buffer of a connection. Nothing is known of it
/// but what the items below say.
#[verifier::external_type_specification]
#[verifier::external_body]
pub struct ExBytesMut(BytesMut);

/// `rmp_serde::decode::Error`, the error of the deserializer. It is only
/// handed on, to be turned into a [`DecodeFault`].
#[verifier::external_type_specification]
#[verifier::external_body]
pub struct ExReadError(ReadError);

/// The bytes that a `BytesMut` holds, in order.
pub uninterp spec fn buffer_bytes(buf: BytesMut) -> Seq<u8>;

/// What an error of `rmp_serde::decode` holds: its variant and the fields
/// of it that a [`DecodeFault`] keeps.
pub uninterp spec fn read_fault(e: ReadError) -> FaultView;

/// The error of `rmpv::Value::deserialize` when it reads one value from
/// the first of the bytes on, with a deserializer of `rmp_serde` on a
/// cursor; none where it reads a value.
pub uninterp spec fn frame_fault(bytes: Seq<u8>) -> Option<FaultView>;

/// What `rmp_serde::Deserializer::position` says after that read: how
/// many of the bytes were read.
pub uninterp spec fn frame_end(bytes: Seq<u8>) -> nat;

/// `BytesMut::len`: the number of bytes that the buffer holds.
pub assume_specification[ BytesMut::len ](buf: &BytesMut) -> (n: usize)
    ensures
        n == buffer_bytes(*buf).len(),
;

/// `BytesMut::split_to`: the buffer keeps the bytes from `at` on, and the
/// bytes before `at` are returned. It panics where `at` is beyond the end.
pub assume_specification[ BytesMut::split_to ](buf: &mut BytesMut, at: usize) -> (head: BytesMut)
    requires
        at <= buffer_bytes(*old(buf)).len(),
    ensures
        buffer_bytes(*final(buf)) == buffer_bytes(*old(buf)).subrange(
            at as int,
            buffer_bytes(*old(buf)).len() as int,
        ),
        buffer_bytes(head) == buffer_bytes(*old(buf)).subrange(0, at as int),
;

/// `BytesMut::extend_from_slice`: the bytes are appended to the buffer,
/// which grows as needed.
pub assume_specification[ BytesMut::extend_from_slice ](buf: &mut BytesMut, extend: &[u8])
    ensures
        buffer_bytes(*final(buf)) == buffer_bytes(*old(buf)) + extend@,
;

/// The bytes of a buffer as a slice, by the `Deref` of `BytesMut`: all
/// that the buffer holds, in order.
#[verifier::external_body]
fn buffer_slice(buf: &BytesMut) -> (bytes: &[u8])
    ensures
        bytes@ == buffer_bytes(*buf),
{
    &buf[..]
}

/// A failed read of the deserializer: whether the input ended too early,
/// and what the error says.
#[derive(Debug, PartialEq)]
pub struct ReadFault {
    pub eof: bool,
    pub text: String,
}

/// The errors of the deserializer.
#[derive(Debug, PartialEq)]
pub enum DecodeFault {
    /// The read of a marker failed.
    InvalidMarkerRead(ReadFault),
    /// The read of the data of a value failed.
    InvalidDataRead(ReadFault),
    /// The value is of another type than was asked for.
    TypeMismatch,
    /// A number does not fit.
    OutOfRange,
    /// An array has not the given length.
    LengthMismatch(u32),
    /// An error with a text of its own.
    Uncategorized(String),
    /// The value is not what was expected.
    Syntax(String),
    /// A string is valid UTF-8 only up to the given byte.
    Utf8Error(usize),
    /// The value is nested more deeply than the deserializer follows.
    DepthLimitExceeded,
}

/// The content of a [`DecodeFault`].
pub enum FaultView {
    InvalidMarkerRead(bool, Seq<char>),
    InvalidDataRead(bool, Seq<char>),
    TypeMismatch,
    OutOfRange,
    LengthMismatch(u32),
    Uncategorized(Seq<char>),
    Syntax(Seq<char>),
    Utf8Error(usize),
    DepthLimitExceeded,
}

impl View for DecodeFault {
    type V = FaultView;

    open spec fn view(&self) -> FaultView {
        match self {
            DecodeFault::InvalidMarkerRead(f) => FaultView::InvalidMarkerRead(f.eof, f.text@),
            DecodeFault::InvalidDataRead(f) => FaultView::InvalidDataRead(f.eof, f.text@),
            DecodeFault::TypeMismatch => FaultView::TypeMismatch,
            DecodeFault::OutOfRange => FaultView::OutOfRange,
            DecodeFault::LengthMismatch(n) => FaultView::LengthMismatch(*n),
            DecodeFault::Uncategorized(s) => FaultView::Uncategorized(s@),
            DecodeFault::Syntax(s) => FaultView::Syntax(s@),
            DecodeFault::Utf8Error(n) => FaultView::Utf8Error(*n),
            DecodeFault::DepthLimitExceeded => FaultView::DepthLimitExceeded,
        }
    }
}

/// The kinds of error of the codec.
#[derive(Debug, Clone, Copy, PartialEq, Eq, Structural)]
pub enum CodecErrorKind {
    /// The bytes are no frame.
    InvalidData,
    /// Any other failure.
    Other,
}

/// An error of the codec: its kind and what it says.
#[derive(Debug, PartialEq)]
pub struct CodecError {
    pub kind: CodecErrorKind,
    pub message: String,
}

impl View for CodecError {
    type V = (CodecErrorKind, Seq<char>);

    open spec fn view(&self) -> (CodecErrorKind, Seq<char>) {
        (self.kind, self.message@)
    }
}

/// Reads one value of `rmpv` from the first of the bytes on, with
/// `rmp_serde::Deserializer::new` on a cursor and
/// `rmpv::Value::deserialize`, and drops it. Returns whether that failed,
/// and what `Deserializer::position` then says: how many bytes were read,
/// which is no more than there are.
///
/// Not proved, but taken from those crates: that the same bytes give the
/// same answer, and that the position is within the bytes. The
/// deserializer counts the arrays, maps and extensions that it is inside
/// of, and fails with `DepthLimitExceeded` before it is inside of 1024;
/// it holds of the data of a string or of binary data no more than it
/// has read. So it returns on all bytes.
#[verifier::external_body]
fn read_frame(bytes: &[u8]) -> (r: (core::result::Result<(), ReadError>, usize))
    ensures
        r.1 == frame_end(bytes@),
        r.1 <= bytes@.len(),
        match r.0 {
            Ok(_) => frame_fault(bytes@) is None,
            Err(e) => frame_fault(bytes@) == Some(read_fault(e)),
        },
{
    let mut de = rmp_serde::Deserializer::new(std::io::Cursor::new(bytes));
    let result = rmpv::Value::deserialize(&mut de);
    (result.map(|_| ()), de.position() as usize)
}

/// The error of `rmp_serde::decode` as a value of this library, variant
/// by variant. Of a failed read it keeps whether the kind of the I/O error
/// is `UnexpectedEof`, and the text of the error; of a string that is not
/// UTF-8, what `Utf8Error::valid_up_to` says; of a type mismatch, nothing.
#[verifier::external_body]
fn fault_of(e: ReadError) -> (r: DecodeFault)
    ensures
        r@ == read_fault(e),
{
    match e {
        ReadError::InvalidMarkerRead(e) => DecodeFault::InvalidMarkerRead(ReadFault { eof: e.kind() == std::io::ErrorKind::UnexpectedEof, text: e.to_string() }),
        ReadError::InvalidDataRead(e) => DecodeFault::InvalidDataRead(ReadFault { eof: e.kind() == std::io::ErrorKind::UnexpectedEof, text: e.to_string() }),
        ReadError::TypeMismatch(_) => DecodeFault::TypeMismatch,
        ReadError::OutOfRange => DecodeFault::OutOfRange,
        ReadError::LengthMismatch(n) => DecodeFault::LengthMismatch(n),
        ReadError::Uncategorized(s) => DecodeFault::Uncategorized(s),
        ReadError::Syntax(s) => DecodeFault::Syntax(s),
        ReadError::Utf8Error(e) => DecodeFault::Utf8Error(e.valid_up_to()),
        ReadError::DepthLimitExceeded => DecodeFault::DepthLimitExceeded,
    }
}

/// The error that a failure of the deserializer is, with its kind and
/// text; none for a read that found the input ended, which is no error
/// but a frame that is not complete yet.
pub open spec fn decode_error(fault: FaultView) -> Option<(CodecErrorKind, Seq<char>)> {
    match fault {
        FaultView::InvalidDataRead(eof, text) => if eof {
            None
        } else {
            Some((CodecErrorKind::Other, text))
        },
        FaultView::InvalidMarkerRead(eof, text) => if eof {
            None
        } else {
            Some((CodecErrorKind::Other, text))
        },
        FaultView::TypeMismatch => Some((CodecErrorKind::InvalidData, "msgpack type mismatch"@)),
        FaultView::OutOfRange => Some(
            (CodecErrorKind::InvalidData, "msgpack value out of range"@),
        ),
        FaultView::LengthMismatch(l) => Some(
            (CodecErrorKind::InvalidData, "msgpack length mismatch: "@ + decimal_text(l as nat)),
        ),
        FaultView::Uncategorized(text) => Some((CodecErrorKind::Other, text)),
        FaultView::Syntax(text) => Some(
            (CodecErrorKind::InvalidData, "msgpack syntax error: "@ + text),
        ),
        FaultView::Utf8Error(at) => Some(
            (
                CodecErrorKind::InvalidData,
                "msgpack utf-8 error: invalid byte starts at "@ + decimal_text(at as nat),
            ),
        ),
        FaultView::DepthLimitExceeded => Some((CodecErrorKind::Other, "DepthLimitExceeded"@)),
    }
}

/// What `decode` returns for a buffer that holds `bytes`: the frame, a
/// request for more bytes, or the kind and text of an error.
pub open spec fn decoded(bytes: Seq<u8>) -> core::result::Result<
    Option<Seq<u8>>,
    (CodecErrorKind, Seq<char>),
> {
    if bytes.len() == 0 {
        Ok(None)
    } else {
        match frame_fault(bytes) {
            None => Ok(Some(bytes.subrange(0, frame_end(bytes) as int))),
            Some(fault) => match decode_error(fault) {
                None => Ok(None),
                Some(error) => Err(error),
            },
        }
    }
}

/// What `decode` leaves in a buffer that held `bytes`: all of them where
/// it asks for more, else those that the deserializer has not read.
pub open spec fn undecoded(bytes: Seq<u8>) -> Seq<u8> {
    if decoded(bytes) == Ok::<Option<Seq<u8>>, (CodecErrorKind, Seq<char>)>(None) {
        bytes
    } else {
        bytes.subrange(frame_end(bytes) as int, bytes.len() as int)
    }
}

/// Whether a failure of the deserializer is a read that found the input
/// ended, be it the read of a marker or of the data of a value.
pub open spec fn input_ended(fault: FaultView) -> bool {
    match fault {
        FaultView::InvalidDataRead(eof, _) => eof,
        FaultView::InvalidMarkerRead(eof, _) => eof,
        _ => false,
    }
}

/// An empty buffer asks for more bytes.
pub proof fn law_empty_buffer(bytes: Seq<u8>)
    requires
        bytes.len() == 0,
    ensures
        decoded(bytes) == Ok::<Option<Seq<u8>>, (CodecErrorKind, Seq<char>)>(None),
        undecoded(bytes) == bytes,
{
}

/// Where the deserializer reads a value from all the bytes of a buffer,
/// the buffer decodes to those bytes and is empty afterward.
pub proof fn law_whole_frame(bytes: Seq<u8>)
    requires
        bytes.len() > 0,
        frame_fault(bytes) is None,
        frame_end(bytes) == bytes.len(),
    ensures
        decoded(bytes) == Ok::<Option<Seq<u8>>, (CodecErrorKind, Seq<char>)>(Some(bytes)),
        undecoded(bytes).len() == 0,
{
    assert(bytes.subrange(0, bytes.len() as int) =~= bytes);
}

/// Where the deserializer finds the input ended, in a marker or in the
/// data of a value, the buffer asks for more bytes and stays as it is.
pub proof fn law_incomplete_frame(bytes: Seq<u8>)
    requires
        frame_fault(bytes) is Some,
        input_ended(frame_fault(bytes)->0),
    ensures
        decoded(bytes) == Ok::<Option<Seq<u8>>, (CodecErrorKind, Seq<char>)>(None),
        undecoded(bytes) == bytes,
{
}

/// Where the deserializer reads a value from the start of a buffer, the
/// buffer decodes to the bytes that were read, and keeps exactly the
/// bytes that follow them.
pub proof fn law_frame_and_tail(bytes: Seq<u8>)
    requires
        bytes.len() > 0,
        frame_fault(bytes) is None,
        frame_end(bytes) <= bytes.len(),
    ensures
        decoded(bytes) matches Ok(Some(frame)) && frame + undecoded(bytes) == bytes
            && frame.len() == frame_end(bytes),
{
    let frame = bytes.subrange(0, frame_end(bytes) as int);
    assert(frame + bytes.subrange(frame_end(bytes) as int, bytes.len() as int) =~= bytes);
}

/// The codec of the frames of MessagePack values.
pub struct MsgPackCodec;

impl MsgPackCodec {
    /// Tells a frame that is not complete from an error.
    ///
    /// A read that found the input ended is the first, and gives `None`.
    /// Every other failure of the deserializer is an error with a kind and
    /// a text of its own.
    pub fn handle_decode_error(err: DecodeFault) -> (r: Option<CodecError>)
        ensures
            match r {
                Some(e) => decode_error(err@) == Some(e@),
                None => decode_error(err@) is None,
            },
    {
        match err {
            DecodeFault::InvalidDataRead(e) => {
                if e.eof {
                    None
                } else {
                    Some(CodecError { kind: CodecErrorKind::Other, message: e.text })
                }
            },
            DecodeFault::InvalidMarkerRead(e) => {
                if e.eof {
                    None
                } else {
                    Some(CodecError { kind: CodecErrorKind::Other, message: e.text })
                }
            },
            DecodeFault::TypeMismatch => {
                let errmsg = String::from_str("msgpack type mismatch");
                Some(CodecError { kind: CodecErrorKind::InvalidData, message: errmsg })
            },
            DecodeFault::OutOfRange => {
                let errmsg = String::from_str("msgpack value out of range");
                Some(CodecError { kind: CodecErrorKind::InvalidData, message: errmsg })
            },
            DecodeFault::LengthMismatch(l) => {
                let mut errmsg = String::from_str("msgpack length mismatch: ");
                errmsg.append(decimal(l as u64).as_str());
                Some(CodecError { kind: CodecErrorKind::InvalidData, message: errmsg })
            },
            DecodeFault::Uncategorized(errmsg) => {
                Some(CodecError { kind: CodecErrorKind::Other, message: errmsg })
            },
            DecodeFault::Syntax(e) => {
                let mut errmsg = String::from_str("msgpack syntax error: ");
                errmsg.append(e.as_str());
                Some(CodecError { kind: CodecErrorKind::InvalidData, message: errmsg })
            },
            DecodeFault::Utf8Error(invalid_byte) => {
                let mut errmsg = String::from_str("msgpack utf-8 error: invalid byte starts at ");
                errmsg.append(decimal(invalid_byte as u64).as_str());
                Some(CodecError { kind: CodecErrorKind::InvalidData, message: errmsg })
            },
            DecodeFault::DepthLimitExceeded => {
                let errmsg = String::from_str("DepthLimitExceeded");
                Some(CodecError { kind: CodecErrorKind::Other, message: errmsg })
            },
        }
    }

    /// Cuts the first frame from the buffer.
    ///
    /// An empty buffer and one that holds the start of a frame only are
    /// left as they are, and `None` asks for more bytes. Where the buffer
    /// starts with a whole frame, the frame is cut off and returned; what
    /// follows it stays. Bytes that are no frame are an error, and what
    /// the deserializer has read of them is dropped.
    pub fn decode(&mut self, buf: &mut BytesMut) -> (r: core::result::Result<
        Option<BytesMut>,
        CodecError,
    >)
        ensures
            buffer_bytes(*final(buf)) == undecoded(buffer_bytes(*old(buf))),
            match r {
                Ok(Some(frame)) => decoded(buffer_bytes(*old(buf))) == Ok::<
                    Option<Seq<u8>>,
                    (CodecErrorKind, Seq<char>),
                >(Some(buffer_bytes(frame))),
                Ok(None) => decoded(buffer_bytes(*old(buf))) == Ok::<
                    Option<Seq<u8>>,
                    (CodecErrorKind, Seq<char>),
                >(None),
                Err(e) => decoded(buffer_bytes(*old(buf))) == Err::<
                    Option<Seq<u8>>,
                    (CodecErrorKind, Seq<char>),
                >(e@),
            },
    {
        if buf.len() == 0 {
            return Ok(None);
        }
        let (result, curpos) = read_frame(buffer_slice(buf));
        match result {
            Ok(_) => Ok(Some(buf.split_to(curpos))),
            Err(e) => {
                match Self::handle_decode_error(fault_of(e)) {
                    Some(err) => {
                        let _ = buf.split_to(curpos);
                        Err(err)
                    },
                    None => Ok(None),
                }
            },
        }
    }

    /// Appends a frame to the buffer.
    pub fn encode(&mut self, frame: &[u8], buf: &mut BytesMut) -> (r: core::result::Result<
        (),
        CodecError,
    >)
        ensures
            r is Ok,
            buffer_bytes(*final(buf)) == buffer_bytes(*old(buf)) + frame@,
    {
        buf.extend_from_slice(frame);
        Ok(())
    }
}

} // verus!
