//! DIGESTS and CERTIFICATE, by which an endpoint presents its certificate
//! chains.

use crate::codec::spec_u16_le;
use crate::protocol::{SpdmCertChainBuffer, SpdmVersion};
use vstd::prelude::*;

verus! {

/// The bit that stands for a slot in a slot mask.
pub open spec fn spec_slot_bit(slot_id: int) -> nat {
    if slot_id == 0 {
        1
    } else if slot_id == 1 {
        2
    } else if slot_id == 2 {
        4
    } else if slot_id == 3 {
        8
    } else if slot_id == 4 {
        16
    } else if slot_id == 5 {
        32
    } else if slot_id == 6 {
        64
    } else if slot_id == 7 {
        128
    } else {
        0
    }
}

/// The mask of the slots below `upto` that hold a chain.
pub open spec fn spec_slot_mask(chains: Seq<Option<SpdmCertChainBuffer>>, upto: int) -> nat
    decreases upto,
{
    if upto <= 0 {
        0
    } else {
        spec_slot_mask(chains, upto - 1) + (if chains[upto - 1] is Some {
            spec_slot_bit(upto - 1)
        } else {
            0nat
        })
    }
}

/// The number of slots below `upto` that hold a chain.
pub open spec fn spec_chain_count(chains: Seq<Option<SpdmCertChainBuffer>>, upto: int) -> nat
    decreases upto,
{
    if upto <= 0 {
        0
    } else {
        spec_chain_count(chains, upto - 1) + (if chains[upto - 1] is Some {
            1nat
        } else {
            0nat
        })
    }
}

/// The DIGESTS response: the header, a parameter of zero, the mask of the
/// slots that hold a chain, and one digest for each of them, lowest slot
/// first.
pub open spec fn spec_digests_response(version: SpdmVersion, slot_mask: u8, digests: Seq<u8>)
    -> Seq<u8> {
    seq![version.spec_get_u8(), 0x01, 0, slot_mask] + digests
}

/// The CERTIFICATE response: the header, the slot, a parameter of zero, the
/// length of the portion and the length of what remains after it, in two
/// bytes each, least significant first, and the portion.
pub open spec fn spec_certificate_response(
    version: SpdmVersion,
    slot_id: u8,
    portion: Seq<u8>,
    remainder: u16,
) -> Seq<u8> {
    seq![version.spec_get_u8(), 0x02, slot_id, 0] + spec_u16_le(portion.len() as u16)
        + spec_u16_le(remainder) + portion
}

} // verus!
