//! The messages of the encapsulated request flow, by which the responder
//! asks the requester for its certificate chain.

use crate::codec::{spec_u16_le, Codec, Writer};
use crate::protocol::SpdmVersion;
use vstd::prelude::*;

verus! {

/// ENCAPSULATED_RESPONSE_ACK carries no encapsulated request.
pub const ENCAP_RESPONSE_ACK_PAYLOAD_TYPE_ABSENT: u8 = 0;

/// ENCAPSULATED_RESPONSE_ACK carries the next encapsulated request.
pub const ENCAP_RESPONSE_ACK_PAYLOAD_TYPE_PRESENT: u8 = 1;

/// The GET_DIGESTS request in the given version.
pub open spec fn spec_get_digests_request(version: SpdmVersion) -> Seq<u8> {
    seq![version.spec_get_u8(), 0x81, 0, 0]
}

/// The GET_CERTIFICATE request in the given version, for `length` bytes
/// from `offset` on of the chain in slot `slot_id`.
pub open spec fn spec_get_certificate_request(
    version: SpdmVersion,
    slot_id: u8,
    offset: u16,
    length: u16,
) -> Seq<u8> {
    seq![version.spec_get_u8(), 0x82, slot_id, 0] + spec_u16_le(offset) + spec_u16_le(length)
}

/// The ENCAPSULATED_REQUEST response that carries `request` under the id
/// `request_id`.
pub open spec fn spec_encapsulated_request(version: SpdmVersion, request_id: u8, request: Seq<u8>)
    -> Seq<u8> {
    seq![version.spec_get_u8(), 0x6a, request_id, 0] + request
}

/// The front of ENCAPSULATED_RESPONSE_ACK: the header, the id of the
/// request that follows, whether one follows, and, from version 1.2 on, the
/// id of the response that is acknowledged and three reserved bytes.
pub open spec fn spec_encapsulated_response_ack(
    version: SpdmVersion,
    request_id: u8,
    payload_type: u8,
    ack_request_id: u8,
) -> Seq<u8> {
    seq![version.spec_get_u8(), 0x6b, request_id, payload_type] + (if version
        == SpdmVersion::SpdmVersion12 {
        seq![ack_request_id, 0u8, 0u8, 0u8]
    } else {
        Seq::<u8>::empty()
    })
}

/// The number of bits that are set in `mask`, from bit `from` on.
pub open spec fn spec_count_bits(mask: u8, from: nat) -> nat
    decreases 8 - from,
{
    if from >= 8 {
        0
    } else {
        (if (mask as nat / vstd::arithmetic::power2::pow2(from)) % 2 == 1 {
            1nat
        } else {
            0nat
        }) + spec_count_bits(mask, from + 1)
    }
}

/// The number of slots that a slot mask names.
pub fn count_slots(mask: u8) -> (n: usize)
    ensures
        n == spec_count_bits(mask, 0),
        n <= 8,
{
    let mut n: usize = 0;
    let mut rest: u8 = mask;
    let mut i: usize = 8;
    proof {
        vstd::arithmetic::power2::lemma2_to64();
        reveal_with_fuel(spec_count_bits, 9);
    }
    // Bits are counted from the top down, so that what is counted so far
    // is the count from bit `i` on.
    let mut probe: u8 = 0x80;
    while i > 0
        invariant
            0 <= i <= 8,
            n == spec_count_bits(mask, i as nat),
            n <= 8 - i,
            i > 0 ==> probe as nat == vstd::arithmetic::power2::pow2((i - 1) as nat),
        decreases i,
    {
        i = i - 1;
        proof {
            vstd::arithmetic::power2::lemma2_to64();
            reveal_with_fuel(spec_count_bits, 2);
        }
        if (mask / probe) % 2 == 1 {
            n = n + 1;
        }
        if i > 0 {
            probe = probe / 2;
            proof {
                vstd::arithmetic::power2::lemma_pow2_unfold(i as nat);
            }
        }
    }
    n
}

/// Appends GET_CERTIFICATE. When it does not fit, nothing is written and
/// the result is `None`.
pub fn write_get_certificate_request(
    version: SpdmVersion,
    slot_id: u8,
    offset: u16,
    length: u16,
    writer: &mut Writer,
) -> (out: Option<usize>)
    ensures
        final(writer).wf(),
        final(writer).capacity() == old(writer).capacity(),
        out is Some <==> 8 <= old(writer).spec_left(),
        out is Some ==> out == Some(8usize) && final(writer).written() == old(writer).written()
            + spec_get_certificate_request(version, slot_id, offset, length),
        out is None ==> final(writer).written() == old(writer).written(),
{
    if writer.left() < 8 {
        return None;
    }
    let front: [u8; 4] = [version.get_u8(), 0x82, slot_id, 0];
    let _ = writer.extend_from_slice(&front);
    let _ = offset.encode(writer);
    let _ = length.encode(writer);
    assert(writer.written() =~= old(writer).written() + spec_get_certificate_request(
        version,
        slot_id,
        offset,
        length,
    ));
    Some(8)
}

/// Appends the front of ENCAPSULATED_RESPONSE_ACK. When it does not fit,
/// nothing is written and the result is `None`.
pub fn write_encapsulated_response_ack(
    version: SpdmVersion,
    request_id: u8,
    payload_type: u8,
    ack_request_id: u8,
    writer: &mut Writer,
) -> (out: Option<usize>)
    ensures
        final(writer).wf(),
        final(writer).capacity() == old(writer).capacity(),
        out is Some <==> spec_encapsulated_response_ack(
            version,
            request_id,
            payload_type,
            ack_request_id,
        ).len() <= old(writer).spec_left(),
        out matches Some(n) ==> n == spec_encapsulated_response_ack(
            version,
            request_id,
            payload_type,
            ack_request_id,
        ).len() && final(writer).written() == old(writer).written()
            + spec_encapsulated_response_ack(version, request_id, payload_type, ack_request_id),
        out is None ==> final(writer).written() == old(writer).written(),
{
    let front: [u8; 4] = [version.get_u8(), 0x6b, request_id, payload_type];
    if version == SpdmVersion::SpdmVersion12 {
        if writer.left() < 8 {
            return None;
        }
        let back: [u8; 4] = [ack_request_id, 0, 0, 0];
        let _ = writer.extend_from_slice(&front);
        let _ = writer.extend_from_slice(&back);
        assert(writer.written() =~= old(writer).written() + spec_encapsulated_response_ack(
            version,
            request_id,
            payload_type,
            ack_request_id,
        ));
        Some(8)
    } else {
        if writer.left() < 4 {
            return None;
        }
        let _ = writer.extend_from_slice(&front);
        assert(writer.written() =~= old(writer).written() + spec_encapsulated_response_ack(
            version,
            request_id,
            payload_type,
            ack_request_id,
        ));
        Some(4)
    }
}

} // verus!
