//! What holds of every resolution.

use crate::dns::{
    all_digits, decimal_value, is_last_colon, lemma_last_colon_is, lemma_last_colon_none,
    parse_target, resolution, HostPort, LookupView, SocketAddress, COLON, PLUS,
};
use crate::error::{ErrorKind, IoError};
use vstd::prelude::*;

verus! {

/// A target without a colon names no port. It is refused as invalid input,
/// whatever a lookup of it may have produced.
pub proof fn lemma_target_without_port_is_invalid_input(target: Seq<u8>, lookup: LookupView)
    requires
        !target.contains(COLON),
    ensures
        resolution(target, lookup) == Err::<SocketAddress, IoError>(IoError::MissingPort),
        IoError::MissingPort.kind_spec() == ErrorKind::InvalidInput,
{
    assert forall|i: int| 0 <= i < target.len() implies target[i] != COLON by {
        if target[i] == COLON {
            assert(target.contains(COLON));
        }
    }
    lemma_last_colon_none(target);
}

/// A host, a colon and the digits of a port make a target that splits into
/// just these parts.
pub proof fn lemma_host_and_port_parse(host: Seq<u8>, digits: Seq<u8>)
    requires
        host.len() <= usize::MAX,
        digits.len() > 0,
        all_digits(digits),
        decimal_value(digits) <= u16::MAX,
    ensures
        parse_target(host + seq![COLON] + digits) == Ok::<HostPort, IoError>(
            HostPort { host_len: host.len() as usize, port: decimal_value(digits) as u16 },
        ),
{
    let target = host + seq![COLON] + digits;
    let at = host.len() as int;
    assert forall|later: int| at < later < target.len() implies target[later] != COLON by {
        assert(target[later] == digits[later - at - 1]);
    }
    assert(is_last_colon(target, at));
    lemma_last_colon_is(target, at);
    assert(target.skip(at + 1) =~= digits);
    assert(digits[0] != PLUS);
}

/// A lookup that failed never resolves a target.
pub proof fn lemma_failed_lookup_never_resolves(target: Seq<u8>)
    ensures
        resolution(target, LookupView::Failed) is Err,
{
}

/// A well-formed target whose lookup produced candidates resolves to the
/// first of them, and to no other.
pub proof fn lemma_resolution_takes_first_candidate(
    target: Seq<u8>,
    candidates: Seq<SocketAddress>,
)
    requires
        parse_target(target) is Ok,
        candidates.len() > 0,
    ensures
        resolution(target, LookupView::Candidates(candidates)) == Ok::<SocketAddress, IoError>(
            candidates[0],
        ),
{
}

/// A well-formed target whose lookup produced no candidate has no address
/// available.
pub proof fn lemma_empty_lookup_has_no_address(target: Seq<u8>)
    requires
        parse_target(target) is Ok,
    ensures
        resolution(target, LookupView::Candidates(Seq::<SocketAddress>::empty())) == Err::<
            SocketAddress,
            IoError,
        >(IoError::NoAddress),
        IoError::NoAddress.kind_spec() == ErrorKind::AddrNotAvailable,
{
}

} // verus!
