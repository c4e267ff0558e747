//! Certificate chains as byte strings: where each certificate begins and
//! ends. Hashing, signing and verification are the caller's.

use vstd::prelude::*;

verus! {

/// The length of the certificate that begins at `offset` of `chain`, if one
/// does: a DER SEQUENCE whose length is written in two bytes, so that the
/// certificate is the four bytes `30 82 hi lo` and `hi * 256 + lo` bytes
/// more, all within the chain.
pub open spec fn spec_cert_len_at(chain: Seq<u8>, offset: int) -> Option<int> {
    if 0 <= offset && offset + 4 <= chain.len() && chain[offset] == 0x30 && chain[offset + 1]
        == 0x82 {
        let len = chain[offset + 2] * 256 + chain[offset + 3] + 4;
        if offset + len <= chain.len() {
            Some(len)
        } else {
            None
        }
    } else {
        None
    }
}

/// Where the certificate with the given index begins and ends, counting
/// from the certificate that begins at `offset`; index -1 selects the last
/// certificate of the chain. `None` when the chain holds no such
/// certificate, or is malformed up to it.
pub open spec fn spec_get_cert_from(chain: Seq<u8>, offset: int, index: int) -> Option<(int, int)>
    decreases chain.len() - offset,
{
    match spec_cert_len_at(chain, offset) {
        Some(len) => if index == 0 || (index == -1 && offset + len == chain.len()) {
            Some((offset, offset + len))
        } else if index > 0 {
            spec_get_cert_from(chain, offset + len, index - 1)
        } else if index == -1 {
            spec_get_cert_from(chain, offset + len, index)
        } else {
            None
        },
        None => None,
    }
}

/// A certificate that is found lies within the chain and is not empty.
pub proof fn lemma_get_cert_from_bounds(chain: Seq<u8>, offset: int, index: int)
    requires
        0 <= offset,
    ensures
        spec_get_cert_from(chain, offset, index) matches Some((begin, end)) ==> offset <= begin
            && begin + 4 <= end && end <= chain.len(),
    decreases chain.len() - offset,
{
    match spec_cert_len_at(chain, offset) {
        Some(len) => {
            if index == 0 || (index == -1 && offset + len == chain.len()) {
            } else if index > 0 {
                lemma_get_cert_from_bounds(chain, offset + len, index - 1);
            } else if index == -1 {
                lemma_get_cert_from_bounds(chain, offset + len, index);
            }
        },
        None => {},
    }
}

/// Finds the certificate with the given index in a chain of DER
/// certificates laid end to end, and returns where it begins and ends.
/// Index 0 is the first certificate; index -1 selects the last. `None` when
/// the chain holds no such certificate, or is malformed up to it.
pub fn get_cert_from_cert_chain(cert_chain: &[u8], index: isize) -> (out: Option<(usize, usize)>)
    ensures
        match spec_get_cert_from(cert_chain@, 0, index as int) {
            Some((begin, end)) => out == Some((begin as usize, end as usize)) && begin + 4 <= end
                <= cert_chain@.len(),
            None => out is None,
        },
{
    let cert_chain_size = cert_chain.len();
    let mut offset: usize = 0;
    let mut remaining: isize = index;
    proof {
        lemma_get_cert_from_bounds(cert_chain@, 0, index as int);
    }
    loop
        invariant
            offset <= cert_chain_size == cert_chain@.len(),
            spec_get_cert_from(cert_chain@, offset as int, remaining as int) == spec_get_cert_from(
                cert_chain@,
                0,
                index as int,
            ),
            index < 0 ==> remaining == index,
            index >= 0 ==> 0 <= remaining <= index,
        decreases cert_chain_size - offset,
    {
        if cert_chain_size - offset < 4 {
            return None;
        }
        if cert_chain[offset] != 0x30 || cert_chain[offset + 1] != 0x82 {
            return None;
        }
        let hi: usize = cert_chain[offset + 2] as usize;
        let lo: usize = cert_chain[offset + 3] as usize;
        let this_cert_len: usize = hi * 256 + lo + 4;
        if this_cert_len > cert_chain_size - offset {
            return None;
        }
        if remaining == 0 || (remaining == -1 && offset + this_cert_len == cert_chain_size) {
            return Some((offset, offset + this_cert_len));
        }
        if remaining < -1 {
            return None;
        }
        if remaining > 0 {
            remaining = remaining - 1;
        }
        offset = offset + this_cert_len;
    }
}

} // verus!
