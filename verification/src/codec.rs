//! Reading and writing whole messages: a frame around the JSON text of a
//! message.

use crate::frame::{
    bytes_needed, bytes_wanted, first_frame, framed, prefix_value, read_prefix, write_prefix, Framing,
    MAX_BODY_LEN, PREFIX_LEN,
};
use crate::json::{json_parsed, json_printed, parse, print, Json, JsonView};
use crate::message::{Request, Response};
use crate::schema::{request_doc, request_of, response_doc, response_of};
use vstd::prelude::*;
use vstd::slice::*;
use vstd::string::*;

verus! {

/// Why a message could not be read or written.
#[derive(Debug, PartialEq, Eq)]
pub enum CodecError {
    /// The body is not the JSON text of a message of the expected kind.
    Serialization(String),
    /// The stream failed or closed inside a frame.
    Io(String),
    /// The stream closed between frames.
    Eof,
}

/// A `CodecError` as a mathematical value.
pub enum CodecErrorView {
    Serialization(Seq<char>),
    Io(Seq<char>),
    Eof,
}

impl View for CodecError {
    type V = CodecErrorView;

    open spec fn view(&self) -> CodecErrorView {
        match self {
            CodecError::Serialization(text) => CodecErrorView::Serialization(text@),
            CodecError::Io(text) => CodecErrorView::Io(text@),
            CodecError::Eof => CodecErrorView::Eof,
        }
    }
}

/// The text that describes an error.
pub open spec fn error_text(error: CodecErrorView) -> Seq<char> {
    match error {
        CodecErrorView::Serialization(text) => "serialization error: "@ + text,
        CodecErrorView::Io(text) => "i/o error: "@ + text,
        CodecErrorView::Eof => "EOF"@,
    }
}

impl Clone for CodecError {
    fn clone(&self) -> (copy: Self)
        ensures
            copy@ == self@,
    {
        match self {
            CodecError::Serialization(text) => CodecError::Serialization(text.clone()),
            CodecError::Io(text) => CodecError::Io(text.clone()),
            CodecError::Eof => CodecError::Eof,
        }
    }
}

impl CodecError {
    /// Describes the error in words.
    pub fn describe(&self) -> (text: String)
        ensures
            text@ == error_text(self@),
    {
        match self {
            CodecError::Serialization(text) => String::from_str("serialization error: ").concat(
                text.as_str(),
            ),
            CodecError::Io(text) => String::from_str("i/o error: ").concat(text.as_str()),
            CodecError::Eof => String::from_str("EOF"),
        }
    }
}

/// The text of the error for a stream that closed inside a frame.
pub open spec fn truncated_text() -> Seq<char> {
    "failed to fill whole buffer"@
}

/// The text of the error for a body that is JSON but spells no message of the
/// expected kind.
pub open spec fn misspelled_text() -> Seq<char> {
    "not a message of the expected kind"@
}

/// The text of the error for a frame that claims a longer body than the reader
/// allows.
pub open spec fn overlong_text() -> Seq<char> {
    "frame longer than allowed"@
}

/// The text of the error for a body that is too long for a frame.
pub open spec fn oversized_text() -> Seq<char> {
    "message too long for a frame"@
}

/// A stream of bytes held in memory. It supplies its bytes in order and is
/// closed once they are read.
pub struct ByteStream {
    bytes: Vec<u8>,
    at: usize,
}

impl View for ByteStream {
    type V = Seq<u8>;

    /// The bytes that are still to be read.
    closed spec fn view(&self) -> Seq<u8> {
        self.bytes@.skip(self.at as int)
    }
}

impl ByteStream {
    #[verifier::type_invariant]
    spec fn in_bounds(self) -> bool {
        self.at <= self.bytes@.len()
    }

    /// A stream that supplies `bytes` and then closes.
    pub fn new(bytes: Vec<u8>) -> (stream: ByteStream)
        ensures
            stream@ == bytes@,
    {
        ByteStream { bytes, at: 0 }
    }

    /// The number of bytes that are still to be read.
    pub fn remaining(&self) -> (n: usize)
        ensures
            n == self@.len(),
    {
        proof {
            use_type_invariant(self);
        }
        self.bytes.len() - self.at
    }
}

/// The longest body that a reader allows where it has no reason to allow more:
/// one mebibyte, far above any message of the protocol.
pub const DEFAULT_BODY_LIMIT: u32 = 0x10_0000;

/// How many more bytes a reader that holds `received` needs, where it allows
/// no body longer than `limit`: an `Io` error as soon as the length of the
/// frame is there and claims more.
pub open spec fn bytes_wanted_within(received: Seq<u8>, limit: u32) -> Result<nat, CodecErrorView> {
    if received.len() >= 4 && prefix_value(received) > limit {
        Err(CodecErrorView::Io(overlong_text()))
    } else {
        Ok(bytes_wanted(received))
    }
}

/// The result of counting bytes, as a mathematical value.
pub open spec fn count_result(res: Result<u64, CodecError>) -> Result<nat, CodecErrorView> {
    match res {
        Ok(n) => Ok(n as nat),
        Err(e) => Err(e@),
    }
}

/// Says how many more bytes must arrive before `received` holds a whole frame,
/// and refuses a frame that claims a body longer than `limit`, so that a reader
/// never has to hold more than `limit` bytes of body.
pub fn bytes_needed_within(received: &[u8], limit: u32) -> (res: Result<u64, CodecError>)
    ensures
        count_result(res) == bytes_wanted_within(received@, limit),
{
    if received.len() >= PREFIX_LEN && read_prefix(received) > limit {
        Err(CodecError::Io(String::from_str("frame longer than allowed")))
    } else {
        Ok(bytes_needed(received))
    }
}

/// What reading one frame off a stream yields, and what is then left of the
/// stream. A stream that has closed yields `Eof`; one that closes inside a
/// frame yields an `Io` error; neither error moves the stream.
pub open spec fn frame_read(stream: Seq<u8>) -> (Result<Seq<u8>, CodecErrorView>, Seq<u8>) {
    match first_frame(stream) {
        Framing::Closed => (Err(CodecErrorView::Eof), stream),
        Framing::Truncated => (Err(CodecErrorView::Io(truncated_text())), stream),
        Framing::Whole { body } => (Ok(body), stream.skip(4 + body.len() as int)),
    }
}

/// What writing the frame of `body` yields, and the bytes that it appends. A
/// body that is too long for the length field is refused and nothing is
/// appended.
pub open spec fn frame_written(body: Seq<u8>) -> (Result<(), CodecErrorView>, Seq<u8>) {
    if body.len() <= MAX_BODY_LEN {
        (Ok(()), framed(body))
    } else {
        (Err(CodecErrorView::Io(oversized_text())), Seq::empty())
    }
}

/// The result of reading bytes, as a mathematical value.
pub open spec fn bytes_result(res: Result<Vec<u8>, CodecError>) -> Result<Seq<u8>, CodecErrorView> {
    match res {
        Ok(bytes) => Ok(bytes@),
        Err(e) => Err(e@),
    }
}

/// The result of writing, as a mathematical value.
pub open spec fn unit_result(res: Result<(), CodecError>) -> Result<(), CodecErrorView> {
    match res {
        Ok(_) => Ok(()),
        Err(e) => Err(e@),
    }
}

/// Takes the body of the next frame off `stream`.
pub fn read_frame(stream: &mut ByteStream) -> (res: Result<Vec<u8>, CodecError>)
    ensures
        bytes_result(res) == frame_read(old(stream)@).0,
        final(stream)@ == frame_read(old(stream)@).1,
{
    proof {
        use_type_invariant(&*stream);
    }
    let have: usize = stream.bytes.len() - stream.at;
    if have == 0 {
        return Err(CodecError::Eof);
    }
    if have < PREFIX_LEN {
        return Err(CodecError::Io(String::from_str("failed to fill whole buffer")));
    }
    let rest = slice_subrange(stream.bytes.as_slice(), stream.at, stream.bytes.len());
    assert(rest@ == old(stream)@);
    let len: usize = read_prefix(rest) as usize;
    if have - PREFIX_LEN < len {
        return Err(CodecError::Io(String::from_str("failed to fill whole buffer")));
    }
    let body = slice_to_vec(slice_subrange(rest, PREFIX_LEN, PREFIX_LEN + len));
    stream.at = stream.at + PREFIX_LEN + len;
    assert(stream@ == old(stream)@.skip(4 + len));
    Ok(body)
}

/// Appends the frame of `body` to `stream`.
pub fn write_frame(body: &[u8], stream: &mut Vec<u8>) -> (res: Result<(), CodecError>)
    ensures
        unit_result(res) == frame_written(body@).0,
        final(stream)@ == old(stream)@ + frame_written(body@).1,
{
    if body.len() > MAX_BODY_LEN {
        assert(stream@ == old(stream)@ + Seq::<u8>::empty());
        return Err(CodecError::Io(String::from_str("message too long for a frame")));
    }
    let mut prefix = write_prefix(body.len() as u32);
    let mut copy = slice_to_vec(body);
    stream.append(&mut prefix);
    stream.append(&mut copy);
    assert(stream@ == old(stream)@ + framed(body@));
    Ok(())
}

/// Tells whether `res` is what reading one message off `stream` yields, where
/// `spelling` says which message a JSON document spells. An error of the frame
/// is handed on. A body that `serde_json` rejects yields a `Serialization`
/// error with the text of its complaint; a body that is JSON but spells no
/// message yields one with a fixed text.
pub open spec fn message_read<M: View>(
    stream: Seq<u8>,
    spelling: spec_fn(JsonView) -> Option<M::V>,
    res: Result<M, CodecError>,
) -> bool {
    match frame_read(stream).0 {
        Err(e) => res is Err && res->Err_0@ == e,
        Ok(body) => match json_parsed(body) {
            None => res is Err && res->Err_0 is Serialization,
            Some(doc) => match spelling(doc) {
                None => res is Err && res->Err_0@ == CodecErrorView::Serialization(
                    misspelled_text(),
                ),
                Some(message) => res is Ok && res->Ok_0@ == message,
            },
        },
    }
}

/// Tells whether `res` and the bytes `appended` are what writing a message
/// yields, given the text `printed` that `serde_json` writes for its document.
/// Where `serde_json` fails, or the text is too long for a frame, nothing is
/// appended.
pub open spec fn message_written(
    printed: Option<Seq<u8>>,
    res: Result<(), CodecError>,
    appended: Seq<u8>,
) -> bool {
    match printed {
        None => res is Err && res->Err_0 is Serialization && appended == Seq::<u8>::empty(),
        Some(text) => unit_result(res) == frame_written(text).0 && appended == frame_written(
            text,
        ).1,
    }
}

/// A kind of message that travels in frames as JSON text.
pub trait FuturesCodec: Sized + View {
    /// The JSON document that spells a message of this kind.
    spec fn spelled(message: Self::V) -> JsonView;

    /// The message of this kind that a JSON document spells, if it spells one.
    spec fn spelling(doc: JsonView) -> Option<Self::V>;

    /// A message is the message that its document spells.
    proof fn lemma_spelling(message: Self::V)
        ensures
            Self::spelling(Self::spelled(message)) == Some(message),
    ;

    /// Reads one message off `stream`.
    fn read_from(stream: &mut ByteStream) -> (res: Result<Self, CodecError>)
        ensures
            message_read::<Self>(old(stream)@, |doc: JsonView| Self::spelling(doc), res),
            final(stream)@ == frame_read(old(stream)@).1,
    ;

    /// Writes the message to `stream`.
    fn write_to(&self, stream: &mut Vec<u8>) -> (res: Result<(), CodecError>)
        ensures
            final(stream)@.len() >= old(stream)@.len(),
            final(stream)@.subrange(0, old(stream)@.len() as int) == old(stream)@,
            message_written(
                json_printed(Self::spelled(self@)),
                res,
                final(stream)@.skip(old(stream)@.len() as int),
            ),
    ;
}

/// Writes the frame of the text that `serde_json` writes for `doc`.
pub fn write_doc(doc: &Json, stream: &mut Vec<u8>) -> (res: Result<(), CodecError>)
    ensures
        final(stream)@.len() >= old(stream)@.len(),
        final(stream)@.subrange(0, old(stream)@.len() as int) == old(stream)@,
        message_written(json_printed(doc@), res, final(stream)@.skip(old(stream)@.len() as int)),
{
    match print(doc) {
        Ok(text) => {
            let res = write_frame(text.as_slice(), stream);
            assert(stream@.subrange(0, old(stream)@.len() as int) =~= old(stream)@);
            assert(stream@.skip(old(stream)@.len() as int) =~= frame_written(text@).1);
            res
        },
        Err(complaint) => {
            assert(stream@.subrange(0, old(stream)@.len() as int) =~= old(stream)@);
            assert(stream@.skip(old(stream)@.len() as int) =~= Seq::<u8>::empty());
            Err(CodecError::Serialization(complaint))
        },
    }
}

/// Reads the JSON document in the body of the next frame of `stream`.
pub fn read_doc(stream: &mut ByteStream) -> (res: Result<Json, CodecError>)
    ensures
        final(stream)@ == frame_read(old(stream)@).1,
        match frame_read(old(stream)@).0 {
            Err(e) => res is Err && res->Err_0@ == e,
            Ok(body) => match json_parsed(body) {
                None => res is Err && res->Err_0 is Serialization,
                Some(doc) => res is Ok && res->Ok_0@ == doc,
            },
        },
{
    let body = match read_frame(stream) {
        Ok(body) => body,
        Err(e) => {
            return Err(e);
        },
    };
    match parse(body.as_slice()) {
        Ok(doc) => Ok(doc),
        Err(complaint) => Err(CodecError::Serialization(complaint)),
    }
}

impl FuturesCodec for Request {
    open spec fn spelled(message: Self::V) -> JsonView {
        request_doc(message)
    }

    open spec fn spelling(doc: JsonView) -> Option<Self::V> {
        request_of(doc)
    }

    proof fn lemma_spelling(message: Self::V) {
        crate::schema::lemma_request_roundtrip(message);
    }

    fn read_from(stream: &mut ByteStream) -> (res: Result<Self, CodecError>) {
        let doc = match read_doc(stream) {
            Ok(doc) => doc,
            Err(e) => {
                return Err(e);
            },
        };
        match Request::from_json(&doc) {
            Some(request) => Ok(request),
            None => Err(
                CodecError::Serialization(String::from_str("not a message of the expected kind")),
            ),
        }
    }

    fn write_to(&self, stream: &mut Vec<u8>) -> (res: Result<(), CodecError>) {
        write_doc(&self.to_json(), stream)
    }
}

impl FuturesCodec for Response {
    open spec fn spelled(message: Self::V) -> JsonView {
        response_doc(message)
    }

    open spec fn spelling(doc: JsonView) -> Option<Self::V> {
        response_of(doc)
    }

    proof fn lemma_spelling(message: Self::V) {
        crate::schema::lemma_response_roundtrip(message);
    }

    fn read_from(stream: &mut ByteStream) -> (res: Result<Self, CodecError>) {
        let doc = match read_doc(stream) {
            Ok(doc) => doc,
            Err(e) => {
                return Err(e);
            },
        };
        match Response::from_json(&doc) {
            Some(response) => Ok(response),
            None => Err(
                CodecError::Serialization(String::from_str("not a message of the expected kind")),
            ),
        }
    }

    fn write_to(&self, stream: &mut Vec<u8>) -> (res: Result<(), CodecError>) {
        write_doc(&self.to_json(), stream)
    }
}

} // verus!
