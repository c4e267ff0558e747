//! GET_VERSION and VERSION.

use crate::protocol::SpdmVersion;
use vstd::prelude::*;

verus! {

/// The entries of a VERSION response for the versions of `offered` from
/// index `from` on: two bytes each, the update and alpha numbers, which are
/// zero, then the version. Entries that name no known version are left out.
pub open spec fn spec_version_entries(offered: Seq<SpdmVersion>, from: int) -> Seq<u8>
    decreases offered.len() - from,
{
    if 0 <= from < offered.len() {
        (if offered[from].spec_is_known() {
            seq![0u8, offered[from].spec_get_u8()]
        } else {
            Seq::<u8>::empty()
        }) + spec_version_entries(offered, from + 1)
    } else {
        Seq::<u8>::empty()
    }
}

/// The VERSION response of a responder that offers the versions `offered`:
/// the header in version 1.0, two parameters and one reserved byte of zero,
/// the number of entries, and the entries.
pub open spec fn spec_version_response(offered: Seq<SpdmVersion>) -> Seq<u8> {
    seq![0x10u8, 0x04, 0, 0, 0, (spec_version_entries(offered, 0).len() / 2) as u8]
        + spec_version_entries(offered, 0)
}

/// The entries take two bytes for each version offered at most.
pub proof fn lemma_version_entries_len(offered: Seq<SpdmVersion>, from: int)
    requires
        0 <= from <= offered.len(),
    ensures
        spec_version_entries(offered, from).len() <= 2 * (offered.len() - from),
        spec_version_entries(offered, from).len() % 2 == 0,
    decreases offered.len() - from,
{
    if from < offered.len() {
        lemma_version_entries_len(offered, from + 1);
    }
}

} // verus!
