//! What holds of the request and reply framing for every input.

use crate::codec::{
    encoded, is_first_occurrence, lemma_first_occurrence_is, line_end, occurs_at,
    parse_request, request_prefix, request_suffix, status_line, DecodeFault, TunnelResult,
    MAX_HTTP_CONNECT_SIZE,
};
use crate::error::{ErrorKind, IoError};
use crate::text::{ascii, decimal};
use vstd::prelude::*;
use vstd::utf8::{encode_utf8, encode_utf8_decode_utf8, encode_utf8_valid_utf8};

verus! {

/// The bytes of a request line for `target`, followed by `rest`.
pub open spec fn request_bytes(target: Seq<u8>, rest: Seq<u8>) -> Seq<u8> {
    request_prefix() + target + request_suffix() + rest
}

/// A target can be told from what follows it: in the request line made from
/// it, the request suffix occurs first where the target ends.
pub open spec fn delimited(target: Seq<u8>) -> bool {
    is_first_occurrence(
        request_bytes(target, Seq::<u8>::empty()),
        request_suffix(),
        (request_prefix().len() + target.len()) as int,
    )
}

/// The request prefix is 8 bytes long and holds no carriage return.
proof fn lemma_prefix_shape()
    ensures
        request_prefix().len() == 8,
        forall|i: int| 0 <= i < 8 ==> request_prefix()[i] != 13u8,
{
    reveal_strlit("CONNECT ");
}

/// The request suffix is 11 bytes long and its only carriage return is the
/// byte before the last.
proof fn lemma_suffix_shape()
    ensures
        request_suffix().len() == 11,
        request_suffix()[9] == 13u8,
        forall|i: int| 0 <= i < 9 ==> request_suffix()[i] != 13u8,
{
    reveal_strlit(" HTTP/1.1\r\n");
}

/// A target that holds no carriage return can be told from what follows it.
pub proof fn lemma_target_without_carriage_return(target: Seq<u8>)
    requires
        !target.contains(13u8),
    ensures
        delimited(target),
{
    lemma_prefix_shape();
    lemma_suffix_shape();
    let prefix = request_prefix();
    let suffix = request_suffix();
    let line = request_bytes(target, Seq::<u8>::empty());
    let end = (prefix.len() + target.len()) as int;
    assert(line.subrange(end, end + suffix.len()) =~= suffix);
    assert forall|before: int| before < end implies !occurs_at(line, suffix, before) by {
        if occurs_at(line, suffix, before) {
            let at = before + 9;
            assert(line.subrange(before, before + suffix.len())[9] == line[at]);
            assert(line[at] == 13u8);
            if at < 8 {
                assert(line[at] == prefix[at]);
            } else if at < end {
                assert(line[at] == target[at - 8]);
                assert(target.contains(13u8));
            } else {
                assert(line[at] == suffix[at - end]);
            }
        }
    }
}

/// A request line for a target that can be told from what follows it decodes
/// to that target, whatever header bytes come after the line, provided the
/// buffer ends a line and is under the frame limit.
pub proof fn lemma_request_decodes_to_its_target(target: Seq<char>, rest: Seq<u8>)
    requires
        delimited(encode_utf8(target)),
        line_end().is_suffix_of(request_bytes(encode_utf8(target), rest)),
        request_bytes(encode_utf8(target), rest).len() < MAX_HTTP_CONNECT_SIZE,
    ensures
        parse_request(request_bytes(encode_utf8(target), rest)) == Ok::<
            Option<Seq<char>>,
            DecodeFault,
        >(Some(target)),
{
    let prefix = request_prefix();
    let suffix = request_suffix();
    let raw = encode_utf8(target);
    let line = request_bytes(raw, Seq::<u8>::empty());
    let buf = request_bytes(raw, rest);
    let end = (prefix.len() + raw.len()) as int;
    assert(buf.subrange(0, prefix.len() as int) =~= prefix);
    assert(buf.subrange(end, end + suffix.len()) =~= suffix);
    assert forall|before: int| before < end implies !occurs_at(buf, suffix, before) by {
        if occurs_at(buf, suffix, before) {
            assert(line.subrange(before, before + suffix.len()) =~= buf.subrange(
                before,
                before + suffix.len(),
            ));
            assert(occurs_at(line, suffix, before));
        }
    }
    lemma_first_occurrence_is(buf, suffix, end);
    assert(buf.subrange(prefix.len() as int, end) =~= raw);
    encode_utf8_valid_utf8(target);
    encode_utf8_decode_utf8(target);
}

/// A buffer that does not end a line decodes to "no item yet", never to a
/// fault, whatever it holds and however long it is.
pub proof fn lemma_unfinished_line_is_pending(buf: Seq<u8>)
    requires
        !line_end().is_suffix_of(buf),
    ensures
        parse_request(buf) == Ok::<Option<Seq<char>>, DecodeFault>(None),
{
}

/// A buffer that ends a line but does not begin with the request prefix is
/// refused as invalid data.
pub proof fn lemma_wrong_prefix_is_invalid_data(buf: Seq<u8>)
    requires
        line_end().is_suffix_of(buf),
        !request_prefix().is_prefix_of(buf),
    ensures
        parse_request(buf) matches Err(DecodeFault::IO(fault)) && fault.kind_spec()
            == ErrorKind::InvalidData,
{
}

/// A buffer that ends a line and has reached the frame limit is refused as
/// invalid data, whatever it holds.
pub proof fn lemma_oversized_is_invalid_data(buf: Seq<u8>)
    requires
        line_end().is_suffix_of(buf),
        buf.len() >= MAX_HTTP_CONNECT_SIZE,
    ensures
        parse_request(buf) == Err::<Option<Seq<char>>, DecodeFault>(
            DecodeFault::IO(IoError::FrameTooLarge(buf.len() as usize)),
        ),
        IoError::FrameTooLarge(buf.len() as usize).kind_spec() == ErrorKind::InvalidData,
{
}

/// The reply for each outcome, letter for letter.
pub proof fn lemma_status_lines()
    ensures
        status_line(TunnelResult::Established) == ascii("HTTP/1.1 200 OK\r\n\r\n"@),
        status_line(TunnelResult::BadRequest) == ascii("HTTP/1.1 400 BAD_REQUEST\r\n\r\n"@),
        status_line(TunnelResult::Forbidden) == ascii("HTTP/1.1 403 FORBIDDEN\r\n\r\n"@),
        status_line(TunnelResult::Timeout) == ascii("HTTP/1.1 408 Timeout\r\n\r\n"@),
        status_line(TunnelResult::ServerError) == ascii("HTTP/1.1 500 SERVER_ERROR\r\n\r\n"@),
{
    reveal_with_fuel(decimal, 3);
    reveal_strlit("HTTP/1.1 ");
    reveal_strlit(" ");
    reveal_strlit("\r\n\r\n");
    reveal_strlit("OK");
    reveal_strlit("BAD_REQUEST");
    reveal_strlit("FORBIDDEN");
    reveal_strlit("Timeout");
    reveal_strlit("SERVER_ERROR");
    reveal_strlit("HTTP/1.1 200 OK\r\n\r\n");
    reveal_strlit("HTTP/1.1 400 BAD_REQUEST\r\n\r\n");
    reveal_strlit("HTTP/1.1 403 FORBIDDEN\r\n\r\n");
    reveal_strlit("HTTP/1.1 408 Timeout\r\n\r\n");
    reveal_strlit("HTTP/1.1 500 SERVER_ERROR\r\n\r\n");
    assert(status_line(TunnelResult::Established) =~= ascii("HTTP/1.1 200 OK\r\n\r\n"@));
    assert(status_line(TunnelResult::BadRequest) =~= ascii("HTTP/1.1 400 BAD_REQUEST\r\n\r\n"@));
    assert(status_line(TunnelResult::Forbidden) =~= ascii("HTTP/1.1 403 FORBIDDEN\r\n\r\n"@));
    assert(status_line(TunnelResult::Timeout) =~= ascii("HTTP/1.1 408 Timeout\r\n\r\n"@));
    assert(status_line(TunnelResult::ServerError) =~= ascii(
        "HTTP/1.1 500 SERVER_ERROR\r\n\r\n"@,
    ));
}

/// No reply is longer than 29 bytes, so each fits a buffer many times over.
pub proof fn lemma_status_line_fits(outcome: TunnelResult)
    ensures
        status_line(outcome).len() <= 29,
{
    lemma_status_lines();
    reveal_strlit("HTTP/1.1 200 OK\r\n\r\n");
    reveal_strlit("HTTP/1.1 400 BAD_REQUEST\r\n\r\n");
    reveal_strlit("HTTP/1.1 403 FORBIDDEN\r\n\r\n");
    reveal_strlit("HTTP/1.1 408 Timeout\r\n\r\n");
    reveal_strlit("HTTP/1.1 500 SERVER_ERROR\r\n\r\n");
}

/// Encoding is a function of the outcome alone: what it appends does not
/// depend on what the buffer held, so the same outcome written to two empty
/// buffers leaves the same bytes in both.
pub proof fn lemma_encoding_depends_on_outcome_alone(
    outcome: TunnelResult,
    first: Seq<u8>,
    second: Seq<u8>,
)
    ensures
        encoded(first, outcome).skip(first.len() as int) == encoded(second, outcome).skip(
            second.len() as int,
        ),
        encoded(first, outcome).take(first.len() as int) == first,
        first == second ==> encoded(first, outcome) == encoded(second, outcome),
        encoded(Seq::<u8>::empty(), outcome) == status_line(outcome),
{
    assert(encoded(first, outcome).skip(first.len() as int) =~= status_line(outcome));
    assert(encoded(second, outcome).skip(second.len() as int) =~= status_line(outcome));
    assert(encoded(first, outcome).take(first.len() as int) =~= first);
    assert(encoded(Seq::<u8>::empty(), outcome) =~= status_line(outcome));
}

} // verus!
