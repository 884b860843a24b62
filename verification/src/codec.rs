//! Framing of the CONNECT request and of the status line sent in reply.
//!
//! A request is the line `CONNECT <target> HTTP/1.1\r\n`, possibly followed by
//! header lines that are carried along but never parsed. The reply is one
//! status line followed by an empty line.

use crate::buffer::{buffered, contents, room};
use crate::error::IoError;
use crate::text::{ascii, ascii_bytes, decimal, push_decimal};
use bytes::BytesMut;
use std::string::FromUtf8Error;
use vstd::prelude::*;
use vstd::slice::{slice_subrange, slice_to_vec};
use vstd::utf8::{decode_utf8, valid_utf8};

verus! {

/// A buffer of this many bytes or more is refused once it holds a whole line.
pub const MAX_HTTP_CONNECT_SIZE: usize = 1024;

/// Decodes CONNECT requests and encodes the replies to them.
#[derive(Debug)]
pub struct HttpCodec {}

/// Why a buffer that ends a line could not be decoded.
#[derive(Debug)]
pub enum DecodeError {
    /// The bytes are not an acceptable request.
    IO(IoError),
    /// The target is not UTF-8 text.
    UTF8(FromUtf8Error),
}

/// How the attempt to establish a tunnel ended, as reported to the client.
#[derive(Clone, Copy, Debug, PartialEq, Eq, Structural)]
pub enum TunnelResult {
    Established,
    BadRequest,
    Forbidden,
    Timeout,
    ServerError,
}

impl TunnelResult {
    /// The status code each outcome is reported with.
    pub open spec fn code_spec(self) -> nat {
        match self {
            TunnelResult::Established => 200,
            TunnelResult::BadRequest => 400,
            TunnelResult::Forbidden => 403,
            TunnelResult::Timeout => 408,
            TunnelResult::ServerError => 500,
        }
    }

    /// The reason phrase each outcome is reported with.
    pub open spec fn reason_spec(self) -> Seq<char> {
        match self {
            TunnelResult::Established => "OK"@,
            TunnelResult::BadRequest => "BAD_REQUEST"@,
            TunnelResult::Forbidden => "FORBIDDEN"@,
            TunnelResult::Timeout => "Timeout"@,
            TunnelResult::ServerError => "SERVER_ERROR"@,
        }
    }

    /// The status code this outcome is reported with.
    pub fn code(&self) -> (code: u32)
        ensures
            code == self.code_spec(),
    {
        match self {
            TunnelResult::Established => 200,
            TunnelResult::BadRequest => 400,
            TunnelResult::Forbidden => 403,
            TunnelResult::Timeout => 408,
            TunnelResult::ServerError => 500,
        }
    }

    /// The reason phrase this outcome is reported with.
    pub fn reason(&self) -> (reason: &'static str)
        ensures
            reason@ == self.reason_spec(),
            reason.is_ascii(),
    {
        proof {
            reveal_strlit("OK");
            reveal_strlit("BAD_REQUEST");
            reveal_strlit("FORBIDDEN");
            reveal_strlit("Timeout");
            reveal_strlit("SERVER_ERROR");
        }
        match self {
            TunnelResult::Established => "OK",
            TunnelResult::BadRequest => "BAD_REQUEST",
            TunnelResult::Forbidden => "FORBIDDEN",
            TunnelResult::Timeout => "Timeout",
            TunnelResult::ServerError => "SERVER_ERROR",
        }
    }
}

/// The reply for an outcome: `HTTP/1.1 <code> <reason>`, the end of that
/// line, and an empty line.
pub open spec fn status_line(outcome: TunnelResult) -> Seq<u8> {
    ascii("HTTP/1.1 "@) + decimal(outcome.code_spec()) + ascii(" "@) + ascii(
        outcome.reason_spec(),
    ) + ascii("\r\n\r\n"@)
}

/// What a buffer that held `before` holds once the reply for `outcome` has
/// been written to it.
pub open spec fn encoded(before: Seq<u8>, outcome: TunnelResult) -> Seq<u8> {
    before + status_line(outcome)
}

/// The bytes of the reply for `outcome`.
pub fn status_line_bytes(outcome: TunnelResult) -> (line: Vec<u8>)
    ensures
        line@ == status_line(outcome),
{
    proof {
        reveal_strlit("HTTP/1.1 ");
        reveal_strlit(" ");
        reveal_strlit("\r\n\r\n");
    }
    let mut line: Vec<u8> = Vec::new();
    line.extend_from_slice(ascii_bytes("HTTP/1.1 "));
    push_decimal(&mut line, outcome.code());
    line.extend_from_slice(ascii_bytes(" "));
    line.extend_from_slice(ascii_bytes(outcome.reason()));
    line.extend_from_slice(ascii_bytes("\r\n\r\n"));
    line
}

/// The literal every request begins with.
pub open spec fn request_prefix() -> Seq<u8> {
    ascii("CONNECT "@)
}

/// The literal that ends the target and the request line.
pub open spec fn request_suffix() -> Seq<u8> {
    ascii(" HTTP/1.1\r\n"@)
}

/// The two bytes that end a line.
pub open spec fn line_end() -> Seq<u8> {
    ascii("\r\n"@)
}

/// `needle` lies in `haystack` starting at index `at`.
pub open spec fn occurs_at(haystack: Seq<u8>, needle: Seq<u8>, at: int) -> bool {
    &&& 0 <= at
    &&& at + needle.len() <= haystack.len()
    &&& haystack.subrange(at, at + needle.len()) == needle
}

/// `needle` lies in `haystack` at index `at` and nowhere before it.
pub open spec fn is_first_occurrence(haystack: Seq<u8>, needle: Seq<u8>, at: int) -> bool {
    &&& occurs_at(haystack, needle, at)
    &&& forall|before: int| before < at ==> !occurs_at(haystack, needle, before)
}

/// The least index at which `needle` lies in `haystack`, if it does at all.
pub open spec fn first_occurrence(haystack: Seq<u8>, needle: Seq<u8>) -> Option<int> {
    if exists|at: int| is_first_occurrence(haystack, needle, at) {
        Some(choose|at: int| is_first_occurrence(haystack, needle, at))
    } else {
        None
    }
}

/// An index that qualifies as the first occurrence is the first occurrence.
pub proof fn lemma_first_occurrence_is(haystack: Seq<u8>, needle: Seq<u8>, at: int)
    requires
        is_first_occurrence(haystack, needle, at),
    ensures
        first_occurrence(haystack, needle) == Some(at),
{
    let chosen = choose|i: int| is_first_occurrence(haystack, needle, i);
    assert(!(chosen < at));
    assert(!(at < chosen));
}

/// Where `needle` lies nowhere, there is no first occurrence.
pub proof fn lemma_first_occurrence_none(haystack: Seq<u8>, needle: Seq<u8>)
    requires
        forall|at: int| !occurs_at(haystack, needle, at),
    ensures
        first_occurrence(haystack, needle) is None,
{
}

/// A decoding fault as contracts see it: the fault itself, or the fact that
/// the target was not UTF-8.
pub enum DecodeFault {
    IO(IoError),
    UTF8,
}

impl View for DecodeError {
    type V = DecodeFault;

    open spec fn view(&self) -> DecodeFault {
        match self {
            DecodeError::IO(fault) => DecodeFault::IO(*fault),
            DecodeError::UTF8(_) => DecodeFault::UTF8,
        }
    }
}

/// What decoding returns, with the target and the fault taken by their views.
pub open spec fn decoded_view(res: Result<Option<String>, DecodeError>) -> Result<
    Option<Seq<char>>,
    DecodeFault,
> {
    match res {
        Ok(None) => Ok(None),
        Ok(Some(target)) => Ok(Some(target@)),
        Err(fault) => Err(fault@),
    }
}

/// Reads a buffer as a request. `Ok(None)` stands for "no whole line yet".
/// The checks apply in this order: the buffer must end a line; it must be
/// under the frame limit; it must begin with the request prefix; the request
/// suffix must occur in it, the first time after the prefix; the bytes in
/// between, which are the target, must be UTF-8.
pub open spec fn parse_request(buf: Seq<u8>) -> Result<Option<Seq<char>>, DecodeFault> {
    if !line_end().is_suffix_of(buf) {
        Ok(None)
    } else if buf.len() >= MAX_HTTP_CONNECT_SIZE {
        Err(DecodeFault::IO(IoError::FrameTooLarge(buf.len() as usize)))
    } else if !request_prefix().is_prefix_of(buf) {
        Err(DecodeFault::IO(IoError::InvalidRequest))
    } else {
        match first_occurrence(buf, request_suffix()) {
            None => Err(DecodeFault::IO(IoError::InvalidRequest)),
            Some(end) => if end < request_prefix().len() {
                Err(DecodeFault::IO(IoError::InvalidRequest))
            } else {
                let target = buf.subrange(request_prefix().len() as int, end);
                if valid_utf8(target) {
                    Ok(Some(decode_utf8(target)))
                } else {
                    Err(DecodeFault::UTF8)
                }
            },
        }
    }
}

/// Whether `needle` lies in `haystack` at index `at`.
fn matches_at(haystack: &[u8], needle: &[u8], at: usize) -> (matches: bool)
    requires
        at + needle@.len() <= haystack@.len(),
    ensures
        matches == occurs_at(haystack@, needle@, at as int),
{
    let end: usize = haystack.len();
    let mut i: usize = 0;
    while i < needle.len()
        invariant
            i <= needle@.len(),
            at + needle@.len() <= haystack@.len() == end,
            forall|k: int| 0 <= k < i ==> haystack@[at + k] == needle@[k],
        decreases needle@.len() - i,
    {
        if haystack[at + i] != needle[i] {
            assert(haystack@.subrange(at as int, at + needle@.len())[i as int] != needle@[i as int]);
            return false;
        }
        i += 1;
    }
    assert(haystack@.subrange(at as int, at + needle@.len()) =~= needle@);
    true
}

/// Whether `bytes` begins with `prefix`.
pub fn starts_with(bytes: &[u8], prefix: &[u8]) -> (yes: bool)
    ensures
        yes == prefix@.is_prefix_of(bytes@),
{
    prefix.len() <= bytes.len() && matches_at(bytes, prefix, 0)
}

/// Whether `bytes` ends with `suffix`.
pub fn ends_with(bytes: &[u8], suffix: &[u8]) -> (yes: bool)
    ensures
        yes == suffix@.is_suffix_of(bytes@),
{
    suffix.len() <= bytes.len() && matches_at(bytes, suffix, bytes.len() - suffix.len())
}

/// The index of the first place where `needle` lies in `haystack`.
pub fn find_subsequence(haystack: &[u8], needle: &[u8]) -> (found: Option<usize>)
    ensures
        match found {
            Some(at) => first_occurrence(haystack@, needle@) == Some(at as int),
            None => first_occurrence(haystack@, needle@) is None,
        },
{
    if needle.len() > haystack.len() {
        proof {
            lemma_first_occurrence_none(haystack@, needle@);
        }
        return None;
    }
    let last: usize = haystack.len() - needle.len();
    let mut at: usize = 0;
    loop
        invariant
            last == haystack@.len() - needle@.len(),
            at <= last,
            forall|before: int| before < at ==> !occurs_at(haystack@, needle@, before),
        decreases last - at,
    {
        if matches_at(haystack, needle, at) {
            proof {
                lemma_first_occurrence_is(haystack@, needle@, at as int);
            }
            return Some(at);
        }
        if at == last {
            proof {
                lemma_first_occurrence_none(haystack@, needle@);
            }
            return None;
        }
        at += 1;
    }
}

impl HttpCodec {
    /// Reads the accumulated bytes in `src` as a request, leaving them in
    /// place. Until the buffer ends a line the answer is `Ok(None)`: call
    /// again when more bytes have arrived.
    pub fn decode(&mut self, src: &mut BytesMut) -> (res: Result<Option<String>, DecodeError>)
        ensures
            buffered(*final(src)) == buffered(*old(src)),
            decoded_view(res) == parse_request(buffered(*old(src))),
    {
        proof {
            reveal_strlit("\r\n");
            reveal_strlit("CONNECT ");
            reveal_strlit(" HTTP/1.1\r\n");
        }
        let bytes = contents(src);
        if !ends_with(bytes, ascii_bytes("\r\n")) {
            return Ok(None);
        }
        if bytes.len() >= MAX_HTTP_CONNECT_SIZE {
            return Err(DecodeError::IO(IoError::FrameTooLarge(bytes.len())));
        }
        let prefix = ascii_bytes("CONNECT ");
        if !starts_with(bytes, prefix) {
            return Err(DecodeError::IO(IoError::InvalidRequest));
        }
        match find_subsequence(bytes, ascii_bytes(" HTTP/1.1\r\n")) {
            None => Err(DecodeError::IO(IoError::InvalidRequest)),
            Some(end) => {
                if end < prefix.len() {
                    return Err(DecodeError::IO(IoError::InvalidRequest));
                }
                let target = slice_to_vec(slice_subrange(bytes, prefix.len(), end));
                match String::from_utf8(target) {
                    Ok(text) => Ok(Some(text)),
                    Err(fault) => Err(DecodeError::UTF8(fault)),
                }
            },
        }
    }

    /// Appends the reply for `tunnel_result` to `dst`. This fails only where
    /// `dst` has no room for the reply, and then leaves `dst` as it was.
    pub fn encode(&mut self, tunnel_result: TunnelResult, dst: &mut BytesMut) -> (res: Result<
        (),
        IoError,
    >)
        ensures
            res is Ok <==> buffered(*old(dst)).len() + status_line(tunnel_result).len()
                <= isize::MAX,
            res is Ok ==> buffered(*final(dst)) == encoded(buffered(*old(dst)), tunnel_result),
            res is Err ==> res == Err::<(), IoError>(IoError::WriteFailed) && buffered(*final(dst))
                == buffered(*old(dst)),
    {
        let line = status_line_bytes(tunnel_result);
        if room(dst) >= line.len() {
            dst.extend_from_slice(line.as_slice());
            Ok(())
        } else {
            Err(IoError::WriteFailed)
        }
    }
}

} // verus!
