//! Framing of the per-corpus artifact: a JSON text wrapped in a fixed-size
//! script prefix and suffix.

use vstd::prelude::*;
use vstd::slice::slice_subrange;

verus! {

/// Number of bytes in front of the JSON text (`window.search = `).
pub const PREFIX_LEN: usize = 16;

/// Number of bytes behind the JSON text (`;`).
pub const SUFFIX_LEN: usize = 1;

/// The JSON text inside an artifact, if the artifact is long enough to hold
/// both the prefix and the suffix.
pub open spec fn payload_of(artifact: Seq<u8>) -> Option<Seq<u8>> {
    if artifact.len() >= PREFIX_LEN + SUFFIX_LEN {
        Some(artifact.subrange(PREFIX_LEN as int, artifact.len() - SUFFIX_LEN))
    } else {
        None
    }
}

/// Strips the prefix and the suffix from an artifact.
pub fn payload(artifact: &[u8]) -> (r: Option<&[u8]>)
    ensures
        r.is_some() == payload_of(artifact@).is_some(),
        r matches Some(p) ==> Some(p@) == payload_of(artifact@),
{
    let n: usize = artifact.len();
    if n < PREFIX_LEN + SUFFIX_LEN {
        None
    } else {
        Some(slice_subrange(artifact, PREFIX_LEN, n - SUFFIX_LEN))
    }
}

} // verus!
