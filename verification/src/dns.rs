//! Destination resolution: the syntax of a target, and the choice of one
//! address among the candidates that a name lookup produced.
//!
//! The lookup itself is not done here. Whoever runs it hands its result to
//! [`SimpleDnsResolver::resolve`], which decides what the resolution yields.

use crate::error::IoError;
use vstd::prelude::*;
use vstd::utf8::encode_utf8;

verus! {

/// One concrete network endpoint.
#[allow(inconsistent_fields)]
#[derive(Clone, Copy, Debug, PartialEq, Eq)]
pub enum SocketAddress {
    V4 { octets: [u8; 4], port: u16 },
    V6 { octets: [u8; 16], port: u16, flowinfo: u32, scope_id: u32 },
}

/// What a name lookup produced.
#[derive(Debug)]
pub enum Lookup {
    /// The lookup itself failed.
    Failed,
    /// The candidates, in the order the lookup returned them.
    Candidates(Vec<SocketAddress>),
}

/// A lookup as contracts see it.
pub enum LookupView {
    Failed,
    Candidates(Seq<SocketAddress>),
}

impl View for Lookup {
    type V = LookupView;

    open spec fn view(&self) -> LookupView {
        match self {
            Lookup::Failed => LookupView::Failed,
            Lookup::Candidates(candidates) => LookupView::Candidates(candidates@),
        }
    }
}

/// The two parts of a target `host:port`.
#[derive(Clone, Copy, Debug, PartialEq, Eq, Structural)]
pub struct HostPort {
    /// The number of bytes of the target, from its start, that name the host.
    pub host_len: usize,
    /// The port.
    pub port: u16,
}

/// Resolves targets by taking the first candidate of a lookup.
#[derive(Clone, Copy, Debug)]
pub struct SimpleDnsResolver {}

/// The byte `:`.
pub const COLON: u8 = 58;

/// The byte `+`.
pub const PLUS: u8 = 43;

/// The byte `0`.
pub const ZERO: u8 = 48;

/// The byte `9`.
pub const NINE: u8 = 57;

/// `text` holds a colon at index `at` and none after it.
pub open spec fn is_last_colon(text: Seq<u8>, at: int) -> bool {
    &&& 0 <= at < text.len()
    &&& text[at] == COLON
    &&& forall|later: int| at < later < text.len() ==> text[later] != COLON
}

/// The index of the last colon in `text`, if it holds one.
pub open spec fn last_colon(text: Seq<u8>) -> Option<int> {
    if exists|at: int| is_last_colon(text, at) {
        Some(choose|at: int| is_last_colon(text, at))
    } else {
        None
    }
}

/// Every byte of `text` is a decimal digit.
pub open spec fn all_digits(text: Seq<u8>) -> bool {
    forall|i: int| 0 <= i < text.len() ==> ZERO <= #[trigger] text[i] <= NINE
}

/// The number that the decimal digits in `digits` write.
pub open spec fn decimal_value(digits: Seq<u8>) -> nat
    decreases digits.len(),
{
    if digits.len() == 0 {
        0
    } else {
        decimal_value(digits.drop_last()) * 10 + (digits.last() - ZERO) as nat
    }
}

/// The port that `text` writes: one or more decimal digits, which a plus sign
/// may precede, whose value fits sixteen bits.
pub open spec fn port_number(text: Seq<u8>) -> Option<u16> {
    let digits = if text.len() > 0 && text[0] == PLUS {
        text.skip(1)
    } else {
        text
    };
    if digits.len() > 0 && all_digits(digits) && decimal_value(digits) <= u16::MAX {
        Some(decimal_value(digits) as u16)
    } else {
        None
    }
}

/// Splits a target at its last colon. A target without a colon lacks its
/// port; one whose text after the last colon is no port number has an invalid
/// port.
pub open spec fn parse_target(text: Seq<u8>) -> Result<HostPort, IoError> {
    match last_colon(text) {
        None => Err(IoError::MissingPort),
        Some(at) => match port_number(text.skip(at + 1)) {
            None => Err(IoError::InvalidPort),
            Some(port) => Ok(HostPort { host_len: at as usize, port }),
        },
    }
}

/// What resolving `target` yields when the lookup produced `lookup`: the
/// target's syntax is judged first, then the lookup, of which the first
/// candidate is taken.
pub open spec fn resolution(target: Seq<u8>, lookup: LookupView) -> Result<
    SocketAddress,
    IoError,
> {
    match parse_target(target) {
        Err(fault) => Err(fault),
        Ok(_) => match lookup {
            LookupView::Failed => Err(IoError::LookupFailed),
            LookupView::Candidates(candidates) => if candidates.len() == 0 {
                Err(IoError::NoAddress)
            } else {
                Ok(candidates[0])
            },
        },
    }
}

/// An index that qualifies as the last colon is the last colon.
pub proof fn lemma_last_colon_is(text: Seq<u8>, at: int)
    requires
        is_last_colon(text, at),
    ensures
        last_colon(text) == Some(at),
{
    let chosen = choose|i: int| is_last_colon(text, i);
    assert(!(chosen < at));
    assert(!(at < chosen));
}

/// A text without a colon has no last colon.
pub proof fn lemma_last_colon_none(text: Seq<u8>)
    requires
        forall|i: int| 0 <= i < text.len() ==> text[i] != COLON,
    ensures
        last_colon(text) is None,
{
}

/// Reading one more digit multiplies the value by ten and adds the digit.
proof fn lemma_decimal_value_step(digits: Seq<u8>, count: int)
    requires
        0 <= count < digits.len(),
    ensures
        decimal_value(digits.take(count + 1)) == decimal_value(digits.take(count)) * 10 + (
        digits[count] - ZERO) as nat,
{
    assert(digits.take(count + 1).drop_last() =~= digits.take(count));
}

/// The value of the first digits of a number is at most the number's value.
proof fn lemma_decimal_value_grows(digits: Seq<u8>, count: int)
    requires
        all_digits(digits),
        0 <= count <= digits.len(),
    ensures
        decimal_value(digits.take(count)) <= decimal_value(digits),
    decreases digits.len() - count,
{
    if count == digits.len() {
        assert(digits.take(count) =~= digits);
    } else {
        lemma_decimal_value_step(digits, count);
        lemma_decimal_value_grows(digits, count + 1);
    }
}

/// The index of the last colon in `text`.
fn find_last_colon(text: &[u8]) -> (found: Option<usize>)
    ensures
        match found {
            Some(at) => at < text@.len() && last_colon(text@) == Some(at as int),
            None => last_colon(text@) is None,
        },
{
    let mut at: usize = text.len();
    while at > 0
        invariant
            at <= text@.len(),
            forall|later: int| at <= later < text@.len() ==> text@[later] != COLON,
        decreases at,
    {
        at -= 1;
        if text[at] == COLON {
            proof {
                lemma_last_colon_is(text@, at as int);
            }
            return Some(at);
        }
    }
    proof {
        lemma_last_colon_none(text@);
    }
    None
}

/// The port that the bytes of `text` from index `from` on write.
fn read_port(text: &[u8], from: usize) -> (port: Option<u16>)
    requires
        from <= text@.len(),
    ensures
        port == port_number(text@.skip(from as int)),
{
    let end: usize = text.len();
    let ghost tail = text@.skip(from as int);
    let start: usize = if from < end && text[from] == PLUS {
        from + 1
    } else {
        from
    };
    let ghost digits = text@.skip(start as int);
    assert(digits =~= if tail.len() > 0 && tail[0] == PLUS {
        tail.skip(1)
    } else {
        tail
    });
    if start == end {
        return None;
    }
    let mut value: u32 = 0;
    let mut i: usize = start;
    while i < end
        invariant
            start <= i <= end,
            start < end == text@.len(),
            digits == text@.skip(start as int),
            port_number(text@.skip(from as int)) == if all_digits(digits) && decimal_value(digits)
                <= u16::MAX {
                Some(decimal_value(digits) as u16)
            } else {
                None
            },
            all_digits(digits.take(i - start)),
            value == decimal_value(digits.take(i - start)),
            value <= u16::MAX,
        decreases end - i,
    {
        let byte: u8 = text[i];
        if byte < ZERO || byte > NINE {
            assert(digits[i - start] == byte);
            return None;
        }
        proof {
            lemma_decimal_value_step(digits, i - start);
            assert forall|k: int| 0 <= k < i + 1 - start implies ZERO <= #[trigger] digits.take(
                i + 1 - start,
            )[k] <= NINE by {
                if k < i - start {
                    assert(digits.take(i + 1 - start)[k] == digits.take(i - start)[k]);
                }
            }
        }
        value = value * 10 + (byte - ZERO) as u32;
        if value > 65535 {
            proof {
                if all_digits(digits) {
                    lemma_decimal_value_grows(digits, i + 1 - start);
                }
            }
            return None;
        }
        i += 1;
    }
    assert(digits.take(i - start) =~= digits);
    Some(value as u16)
}

impl SimpleDnsResolver {
    /// A resolver.
    pub fn new() -> (resolver: Self) {
        Self {  }
    }

    /// Splits `target` into its host and its port.
    pub fn parse_target(target: &str) -> (res: Result<HostPort, IoError>)
        ensures
            res == parse_target(encode_utf8(target@)),
    {
        let text = target.as_bytes();
        let end: usize = text.len();
        match find_last_colon(text) {
            None => Err(IoError::MissingPort),
            Some(at) => match read_port(text, at + 1) {
                None => Err(IoError::InvalidPort),
                Some(port) => Ok(HostPort { host_len: at, port }),
            },
        }
    }

    /// Decides what resolving `target` yields, given what the lookup of it
    /// produced. A target that is not `host:port` is refused whatever the
    /// lookup says; otherwise the first candidate is the answer.
    pub fn resolve(&mut self, target: &str, lookup: &Lookup) -> (res: Result<
        SocketAddress,
        IoError,
    >)
        ensures
            res == resolution(encode_utf8(target@), lookup@),
    {
        match Self::parse_target(target) {
            Err(fault) => Err(fault),
            Ok(_) => match lookup {
                Lookup::Failed => Err(IoError::LookupFailed),
                Lookup::Candidates(candidates) => if candidates.len() == 0 {
                    Err(IoError::NoAddress)
                } else {
                    Ok(candidates[0])
                },
            },
        }
    }
}

} // verus!
