//! Protocol versions, capability flags and algorithm selections.

use crate::codec::{Codec, Reader, Writer};
use crate::common::managed_buffer::BoundedBytes;
use crate::config::{
    MAX_SPDM_CERT_CHAIN_BUFFER_SIZE, MAX_SPDM_CERT_CHAIN_DATA_SIZE, SPDM_MAX_HASH_SIZE,
};
use vstd::prelude::*;

verus! {

/// A version of the protocol, as the first byte of a message names it.
#[derive(Clone, Copy, Debug, PartialEq, Eq, Structural)]
pub enum SpdmVersion {
    /// Version 1.0.
    SpdmVersion10,
    /// Version 1.1.
    SpdmVersion11,
    /// Version 1.2.
    SpdmVersion12,
    /// A byte that names none of the above.
    Unknown(u8),
}

impl SpdmVersion {
    /// The byte that stands for the version on the wire: the major number in
    /// the high nibble, the minor number in the low one.
    pub open spec fn spec_get_u8(&self) -> u8 {
        match *self {
            SpdmVersion::SpdmVersion10 => 0x10,
            SpdmVersion::SpdmVersion11 => 0x11,
            SpdmVersion::SpdmVersion12 => 0x12,
            SpdmVersion::Unknown(x) => x,
        }
    }

    /// The version that a byte stands for.
    pub open spec fn spec_from_u8(x: u8) -> Self {
        if x == 0x10 {
            SpdmVersion::SpdmVersion10
        } else if x == 0x11 {
            SpdmVersion::SpdmVersion11
        } else if x == 0x12 {
            SpdmVersion::SpdmVersion12
        } else {
            SpdmVersion::Unknown(x)
        }
    }

    /// The byte that stands for the version on the wire.
    pub fn get_u8(&self) -> (x: u8)
        ensures
            x == self.spec_get_u8(),
    {
        match *self {
            SpdmVersion::SpdmVersion10 => 0x10,
            SpdmVersion::SpdmVersion11 => 0x11,
            SpdmVersion::SpdmVersion12 => 0x12,
            SpdmVersion::Unknown(x) => x,
        }
    }

    /// The version that a byte stands for.
    pub fn from_u8(x: u8) -> (v: Self)
        ensures
            v == Self::spec_from_u8(x),
            v.spec_get_u8() == x,
    {
        if x == 0x10 {
            SpdmVersion::SpdmVersion10
        } else if x == 0x11 {
            SpdmVersion::SpdmVersion11
        } else if x == 0x12 {
            SpdmVersion::SpdmVersion12
        } else {
            SpdmVersion::Unknown(x)
        }
    }

    /// Whether the version is one of 1.0, 1.1 and 1.2.
    pub open spec fn spec_is_known(&self) -> bool {
        !(*self is Unknown)
    }

    /// Whether the version is 1.1 or 1.2.
    pub open spec fn spec_at_least_11(&self) -> bool {
        *self == SpdmVersion::SpdmVersion11 || *self == SpdmVersion::SpdmVersion12
    }

    /// Whether the version is 1.1 or 1.2.
    pub fn at_least_11(&self) -> (b: bool)
        ensures
            b == self.spec_at_least_11(),
    {
        match *self {
            SpdmVersion::SpdmVersion11 => true,
            SpdmVersion::SpdmVersion12 => true,
            _ => false,
        }
    }
}

impl Default for SpdmVersion {
    fn default() -> (v: Self)
        ensures
            v == SpdmVersion::SpdmVersion10,
    {
        SpdmVersion::SpdmVersion10
    }
}

impl View for SpdmVersion {
    type V = SpdmVersion;

    open spec fn view(&self) -> SpdmVersion {
        *self
    }
}

impl Codec for SpdmVersion {
    open spec fn spec_encode(v: Self) -> Seq<u8> {
        seq![v.spec_get_u8()]
    }

    open spec fn spec_read(bytes: Seq<u8>) -> Option<(Self, nat)> {
        if bytes.len() >= 1 {
            Some((Self::spec_from_u8(bytes[0]), 1nat))
        } else {
            None
        }
    }

    open spec fn spec_canonical(v: Self) -> bool {
        Self::spec_from_u8(v.spec_get_u8()) == v
    }

    fn encode(&self, bytes: &mut Writer) -> (out: Option<usize>) {
        self.get_u8().encode(bytes)
    }

    fn read(r: &mut Reader) -> (out: Option<Self>) {
        match u8::read(r) {
            Some(x) => Some(Self::from_u8(x)),
            None => None,
        }
    }

    proof fn lemma_read_encode(bytes: Seq<u8>) {
        if bytes.len() >= 1 {
            assert(seq![bytes[0]] =~= bytes.subrange(0, 1));
        }
    }

    proof fn lemma_encode_read(v: Self, rest: Seq<u8>) {
    }
}

/// The capabilities a requester advertises.
#[derive(Clone, Copy, Debug, PartialEq, Eq, Structural)]
pub struct SpdmRequestCapabilityFlags {
    /// The flag bits.
    pub bits: u32,
}

impl SpdmRequestCapabilityFlags {
    /// The requester can present a certificate chain.
    pub const CERT_CAP: u32 = 0x2;

    /// The requester answers a challenge.
    pub const CHAL_CAP: u32 = 0x4;

    /// The requester encrypts secured messages.
    pub const ENCRYPT_CAP: u32 = 0x40;

    /// The requester authenticates secured messages.
    pub const MAC_CAP: u32 = 0x80;

    /// The requester supports mutual authentication.
    pub const MUT_AUTH_CAP: u32 = 0x100;

    /// The requester supports key exchange.
    pub const KEY_EX_CAP: u32 = 0x200;

    /// The requester supports pre-shared keys.
    pub const PSK_CAP: u32 = 0x400;

    /// The requester answers encapsulated requests.
    pub const ENCAP_CAP: u32 = 0x1000;

    /// The requester sends heartbeats.
    pub const HBEAT_CAP: u32 = 0x2000;

    /// The requester supports key update.
    pub const KEY_UPD_CAP: u32 = 0x4000;

    /// The requester sends the handshake unsecured.
    pub const HANDSHAKE_IN_THE_CLEAR_CAP: u32 = 0x8000;

    /// The requester's public key was provisioned to the responder.
    pub const PUB_KEY_ID_CAP: u32 = 0x10000;

    /// Whether every bit of `mask` is set.
    pub open spec fn spec_contains(&self, mask: u32) -> bool {
        self.bits & mask == mask
    }

    /// Whether some bit of `mask` is set.
    pub open spec fn spec_intersects(&self, mask: u32) -> bool {
        self.bits & mask != 0
    }

    /// The value with no bit set.
    pub fn empty() -> (f: Self)
        ensures
            f.bits == 0,
    {
        SpdmRequestCapabilityFlags { bits: 0 }
    }

    /// The value with exactly the bits of `bits` set.
    pub fn from_bits(bits: u32) -> (f: Self)
        ensures
            f.bits == bits,
    {
        SpdmRequestCapabilityFlags { bits }
    }

    /// The bits that are set.
    pub fn bits(&self) -> (b: u32)
        ensures
            b == self.bits,
    {
        self.bits
    }

    /// Whether every bit of `mask` is set.
    pub fn contains(&self, mask: u32) -> (b: bool)
        ensures
            b == self.spec_contains(mask),
    {
        self.bits & mask == mask
    }

    /// Whether some bit of `mask` is set.
    pub fn intersects(&self, mask: u32) -> (b: bool)
        ensures
            b == self.spec_intersects(mask),
    {
        self.bits & mask != 0
    }

    /// Sets the bits of `mask`.
    pub fn insert(&mut self, mask: u32)
        ensures
            final(self).bits == old(self).bits | mask,
    {
        self.bits = self.bits | mask;
    }

    /// Clears the bits of `mask`.
    pub fn remove(&mut self, mask: u32)
        ensures
            final(self).bits == old(self).bits & !mask,
    {
        self.bits = self.bits & !mask;
    }

}

impl Default for SpdmRequestCapabilityFlags {
    fn default() -> (f: Self)
        ensures
            f.bits == 0,
    {
        SpdmRequestCapabilityFlags { bits: 0 }
    }
}

/// The capabilities a responder advertises.
#[derive(Clone, Copy, Debug, PartialEq, Eq, Structural)]
pub struct SpdmResponseCapabilityFlags {
    /// The flag bits.
    pub bits: u32,
}

impl SpdmResponseCapabilityFlags {
    /// The responder keeps the negotiated state across a reset.
    pub const CACHE_CAP: u32 = 0x1;

    /// The responder can present a certificate chain.
    pub const CERT_CAP: u32 = 0x2;

    /// The responder answers a challenge.
    pub const CHAL_CAP: u32 = 0x4;

    /// The responder reports measurements without a signature.
    pub const MEAS_CAP_NO_SIG: u32 = 0x8;

    /// The responder reports signed measurements.
    pub const MEAS_CAP_SIG: u32 = 0x10;

    /// The responder can recompute measurements on request.
    pub const MEAS_FRESH_CAP: u32 = 0x20;

    /// The responder encrypts secured messages.
    pub const ENCRYPT_CAP: u32 = 0x40;

    /// The responder authenticates secured messages.
    pub const MAC_CAP: u32 = 0x80;

    /// The responder supports mutual authentication.
    pub const MUT_AUTH_CAP: u32 = 0x100;

    /// The responder supports key exchange.
    pub const KEY_EX_CAP: u32 = 0x200;

    /// The responder supports pre-shared keys and adds no context.
    pub const PSK_CAP_WITHOUT_CONTEXT: u32 = 0x400;

    /// The responder supports pre-shared keys and adds its context.
    pub const PSK_CAP_WITH_CONTEXT: u32 = 0x800;

    /// Both ways of reporting measurements.
    pub const MEAS_CAP: u32 = 0x18;

    /// Both ways of supporting pre-shared keys.
    pub const PSK_CAP: u32 = 0xc00;

    /// The responder issues encapsulated requests.
    pub const ENCAP_CAP: u32 = 0x1000;

    /// The responder expects heartbeats.
    pub const HBEAT_CAP: u32 = 0x2000;

    /// The responder supports key update.
    pub const KEY_UPD_CAP: u32 = 0x4000;

    /// The responder takes the handshake unsecured.
    pub const HANDSHAKE_IN_THE_CLEAR_CAP: u32 = 0x8000;

    /// The responder's public key was provisioned to the requester.
    pub const PUB_KEY_ID_CAP: u32 = 0x10000;

    /// Whether every bit of `mask` is set.
    pub open spec fn spec_contains(&self, mask: u32) -> bool {
        self.bits & mask == mask
    }

    /// Whether some bit of `mask` is set.
    pub open spec fn spec_intersects(&self, mask: u32) -> bool {
        self.bits & mask != 0
    }

    /// The value with no bit set.
    pub fn empty() -> (f: Self)
        ensures
            f.bits == 0,
    {
        SpdmResponseCapabilityFlags { bits: 0 }
    }

    /// The value with exactly the bits of `bits` set.
    pub fn from_bits(bits: u32) -> (f: Self)
        ensures
            f.bits == bits,
    {
        SpdmResponseCapabilityFlags { bits }
    }

    /// The bits that are set.
    pub fn bits(&self) -> (b: u32)
        ensures
            b == self.bits,
    {
        self.bits
    }

    /// Whether every bit of `mask` is set.
    pub fn contains(&self, mask: u32) -> (b: bool)
        ensures
            b == self.spec_contains(mask),
    {
        self.bits & mask == mask
    }

    /// Whether some bit of `mask` is set.
    pub fn intersects(&self, mask: u32) -> (b: bool)
        ensures
            b == self.spec_intersects(mask),
    {
        self.bits & mask != 0
    }

    /// Sets the bits of `mask`.
    pub fn insert(&mut self, mask: u32)
        ensures
            final(self).bits == old(self).bits | mask,
    {
        self.bits = self.bits | mask;
    }

    /// Clears the bits of `mask`.
    pub fn remove(&mut self, mask: u32)
        ensures
            final(self).bits == old(self).bits & !mask,
    {
        self.bits = self.bits & !mask;
    }

}

impl Default for SpdmResponseCapabilityFlags {
    fn default() -> (f: Self)
        ensures
            f.bits == 0,
    {
        SpdmResponseCapabilityFlags { bits: 0 }
    }
}

/// Hash algorithms for transcripts and digests.
#[derive(Clone, Copy, Debug, PartialEq, Eq, Structural)]
pub struct SpdmBaseHashAlgo {
    /// The flag bits.
    pub bits: u32,
}

impl SpdmBaseHashAlgo {
    /// SHA-256.
    pub const TPM_ALG_SHA_256: u32 = 0x1;

    /// SHA-384.
    pub const TPM_ALG_SHA_384: u32 = 0x2;

    /// SHA-512.
    pub const TPM_ALG_SHA_512: u32 = 0x4;

    /// Whether every bit of `mask` is set.
    pub open spec fn spec_contains(&self, mask: u32) -> bool {
        self.bits & mask == mask
    }

    /// Whether some bit of `mask` is set.
    pub open spec fn spec_intersects(&self, mask: u32) -> bool {
        self.bits & mask != 0
    }

    /// The value with no bit set.
    pub fn empty() -> (f: Self)
        ensures
            f.bits == 0,
    {
        SpdmBaseHashAlgo { bits: 0 }
    }

    /// The value with exactly the bits of `bits` set.
    pub fn from_bits(bits: u32) -> (f: Self)
        ensures
            f.bits == bits,
    {
        SpdmBaseHashAlgo { bits }
    }

    /// The bits that are set.
    pub fn bits(&self) -> (b: u32)
        ensures
            b == self.bits,
    {
        self.bits
    }

    /// Whether every bit of `mask` is set.
    pub fn contains(&self, mask: u32) -> (b: bool)
        ensures
            b == self.spec_contains(mask),
    {
        self.bits & mask == mask
    }

    /// Whether some bit of `mask` is set.
    pub fn intersects(&self, mask: u32) -> (b: bool)
        ensures
            b == self.spec_intersects(mask),
    {
        self.bits & mask != 0
    }

    /// Sets the bits of `mask`.
    pub fn insert(&mut self, mask: u32)
        ensures
            final(self).bits == old(self).bits | mask,
    {
        self.bits = self.bits | mask;
    }

    /// Clears the bits of `mask`.
    pub fn remove(&mut self, mask: u32)
        ensures
            final(self).bits == old(self).bits & !mask,
    {
        self.bits = self.bits & !mask;
    }


    /// Size in bytes of a digest of the selected algorithm; 0 when not
    /// exactly one known algorithm is selected.
    pub open spec fn spec_get_size(&self) -> u16 {
        if self.bits == Self::TPM_ALG_SHA_256 {
            32
        } else if self.bits == Self::TPM_ALG_SHA_384 {
            48
        } else if self.bits == Self::TPM_ALG_SHA_512 {
            64
        } else {
            0
        }
    }

    /// Size in bytes of a digest of the selected algorithm; 0 when not
    /// exactly one known algorithm is selected.
    pub fn get_size(&self) -> (n: u16)
        ensures
            n == self.spec_get_size(),
            n <= crate::config::SPDM_MAX_HASH_SIZE,
    {
        if self.bits == Self::TPM_ALG_SHA_256 {
            32
        } else if self.bits == Self::TPM_ALG_SHA_384 {
            48
        } else if self.bits == Self::TPM_ALG_SHA_512 {
            64
        } else {
            0
        }
    }

}

impl Default for SpdmBaseHashAlgo {
    fn default() -> (f: Self)
        ensures
            f.bits == 0,
    {
        SpdmBaseHashAlgo { bits: 0 }
    }
}

/// Signature algorithms of the responder.
#[derive(Clone, Copy, Debug, PartialEq, Eq, Structural)]
pub struct SpdmBaseAsymAlgo {
    /// The flag bits.
    pub bits: u32,
}

impl SpdmBaseAsymAlgo {
    /// RSASSA, 2048 bits.
    pub const TPM_ALG_RSASSA_2048: u32 = 0x1;

    /// RSAPSS, 2048 bits.
    pub const TPM_ALG_RSAPSS_2048: u32 = 0x2;

    /// RSASSA, 3072 bits.
    pub const TPM_ALG_RSASSA_3072: u32 = 0x4;

    /// RSAPSS, 3072 bits.
    pub const TPM_ALG_RSAPSS_3072: u32 = 0x8;

    /// ECDSA on NIST P-256.
    pub const TPM_ALG_ECDSA_ECC_NIST_P256: u32 = 0x10;

    /// RSASSA, 4096 bits.
    pub const TPM_ALG_RSASSA_4096: u32 = 0x20;

    /// RSAPSS, 4096 bits.
    pub const TPM_ALG_RSAPSS_4096: u32 = 0x40;

    /// ECDSA on NIST P-384.
    pub const TPM_ALG_ECDSA_ECC_NIST_P384: u32 = 0x80;

    /// Whether every bit of `mask` is set.
    pub open spec fn spec_contains(&self, mask: u32) -> bool {
        self.bits & mask == mask
    }

    /// Whether some bit of `mask` is set.
    pub open spec fn spec_intersects(&self, mask: u32) -> bool {
        self.bits & mask != 0
    }

    /// The value with no bit set.
    pub fn empty() -> (f: Self)
        ensures
            f.bits == 0,
    {
        SpdmBaseAsymAlgo { bits: 0 }
    }

    /// The value with exactly the bits of `bits` set.
    pub fn from_bits(bits: u32) -> (f: Self)
        ensures
            f.bits == bits,
    {
        SpdmBaseAsymAlgo { bits }
    }

    /// The bits that are set.
    pub fn bits(&self) -> (b: u32)
        ensures
            b == self.bits,
    {
        self.bits
    }

    /// Whether every bit of `mask` is set.
    pub fn contains(&self, mask: u32) -> (b: bool)
        ensures
            b == self.spec_contains(mask),
    {
        self.bits & mask == mask
    }

    /// Whether some bit of `mask` is set.
    pub fn intersects(&self, mask: u32) -> (b: bool)
        ensures
            b == self.spec_intersects(mask),
    {
        self.bits & mask != 0
    }

    /// Sets the bits of `mask`.
    pub fn insert(&mut self, mask: u32)
        ensures
            final(self).bits == old(self).bits | mask,
    {
        self.bits = self.bits | mask;
    }

    /// Clears the bits of `mask`.
    pub fn remove(&mut self, mask: u32)
        ensures
            final(self).bits == old(self).bits & !mask,
    {
        self.bits = self.bits & !mask;
    }

}

impl Default for SpdmBaseAsymAlgo {
    fn default() -> (f: Self)
        ensures
            f.bits == 0,
    {
        SpdmBaseAsymAlgo { bits: 0 }
    }
}

/// Hash algorithms for measurements.
#[derive(Clone, Copy, Debug, PartialEq, Eq, Structural)]
pub struct SpdmMeasurementHashAlgo {
    /// The flag bits.
    pub bits: u32,
}

impl SpdmMeasurementHashAlgo {
    /// Measurements are reported unhashed.
    pub const RAW_BIT_STREAM: u32 = 0x1;

    /// SHA-256.
    pub const TPM_ALG_SHA_256: u32 = 0x2;

    /// SHA-384.
    pub const TPM_ALG_SHA_384: u32 = 0x4;

    /// SHA-512.
    pub const TPM_ALG_SHA_512: u32 = 0x8;

    /// Whether every bit of `mask` is set.
    pub open spec fn spec_contains(&self, mask: u32) -> bool {
        self.bits & mask == mask
    }

    /// Whether some bit of `mask` is set.
    pub open spec fn spec_intersects(&self, mask: u32) -> bool {
        self.bits & mask != 0
    }

    /// The value with no bit set.
    pub fn empty() -> (f: Self)
        ensures
            f.bits == 0,
    {
        SpdmMeasurementHashAlgo { bits: 0 }
    }

    /// The value with exactly the bits of `bits` set.
    pub fn from_bits(bits: u32) -> (f: Self)
        ensures
            f.bits == bits,
    {
        SpdmMeasurementHashAlgo { bits }
    }

    /// The bits that are set.
    pub fn bits(&self) -> (b: u32)
        ensures
            b == self.bits,
    {
        self.bits
    }

    /// Whether every bit of `mask` is set.
    pub fn contains(&self, mask: u32) -> (b: bool)
        ensures
            b == self.spec_contains(mask),
    {
        self.bits & mask == mask
    }

    /// Whether some bit of `mask` is set.
    pub fn intersects(&self, mask: u32) -> (b: bool)
        ensures
            b == self.spec_intersects(mask),
    {
        self.bits & mask != 0
    }

    /// Sets the bits of `mask`.
    pub fn insert(&mut self, mask: u32)
        ensures
            final(self).bits == old(self).bits | mask,
    {
        self.bits = self.bits | mask;
    }

    /// Clears the bits of `mask`.
    pub fn remove(&mut self, mask: u32)
        ensures
            final(self).bits == old(self).bits & !mask,
    {
        self.bits = self.bits & !mask;
    }

}

impl Default for SpdmMeasurementHashAlgo {
    fn default() -> (f: Self)
        ensures
            f.bits == 0,
    {
        SpdmMeasurementHashAlgo { bits: 0 }
    }
}

/// Key agreement groups.
#[derive(Clone, Copy, Debug, PartialEq, Eq, Structural)]
pub struct SpdmDheAlgo {
    /// The flag bits.
    pub bits: u16,
}

impl SpdmDheAlgo {
    /// Finite field group, 2048 bits.
    pub const FFDHE_2048: u16 = 0x1;

    /// Finite field group, 3072 bits.
    pub const FFDHE_3072: u16 = 0x2;

    /// Finite field group, 4096 bits.
    pub const FFDHE_4096: u16 = 0x4;

    /// Curve secp256r1.
    pub const SECP_256_R1: u16 = 0x8;

    /// Curve secp384r1.
    pub const SECP_384_R1: u16 = 0x10;

    /// Whether every bit of `mask` is set.
    pub open spec fn spec_contains(&self, mask: u16) -> bool {
        self.bits & mask == mask
    }

    /// Whether some bit of `mask` is set.
    pub open spec fn spec_intersects(&self, mask: u16) -> bool {
        self.bits & mask != 0
    }

    /// The value with no bit set.
    pub fn empty() -> (f: Self)
        ensures
            f.bits == 0,
    {
        SpdmDheAlgo { bits: 0 }
    }

    /// The value with exactly the bits of `bits` set.
    pub fn from_bits(bits: u16) -> (f: Self)
        ensures
            f.bits == bits,
    {
        SpdmDheAlgo { bits }
    }

    /// The bits that are set.
    pub fn bits(&self) -> (b: u16)
        ensures
            b == self.bits,
    {
        self.bits
    }

    /// Whether every bit of `mask` is set.
    pub fn contains(&self, mask: u16) -> (b: bool)
        ensures
            b == self.spec_contains(mask),
    {
        self.bits & mask == mask
    }

    /// Whether some bit of `mask` is set.
    pub fn intersects(&self, mask: u16) -> (b: bool)
        ensures
            b == self.spec_intersects(mask),
    {
        self.bits & mask != 0
    }

    /// Sets the bits of `mask`.
    pub fn insert(&mut self, mask: u16)
        ensures
            final(self).bits == old(self).bits | mask,
    {
        self.bits = self.bits | mask;
    }

    /// Clears the bits of `mask`.
    pub fn remove(&mut self, mask: u16)
        ensures
            final(self).bits == old(self).bits & !mask,
    {
        self.bits = self.bits & !mask;
    }

}

impl Default for SpdmDheAlgo {
    fn default() -> (f: Self)
        ensures
            f.bits == 0,
    {
        SpdmDheAlgo { bits: 0 }
    }
}

/// AEAD ciphers of a secure session.
#[derive(Clone, Copy, Debug, PartialEq, Eq, Structural)]
pub struct SpdmAeadAlgo {
    /// The flag bits.
    pub bits: u16,
}

impl SpdmAeadAlgo {
    /// AES-128-GCM.
    pub const AES_128_GCM: u16 = 0x1;

    /// AES-256-GCM.
    pub const AES_256_GCM: u16 = 0x2;

    /// ChaCha20-Poly1305.
    pub const CHACHA20_POLY1305: u16 = 0x4;

    /// Whether every bit of `mask` is set.
    pub open spec fn spec_contains(&self, mask: u16) -> bool {
        self.bits & mask == mask
    }

    /// Whether some bit of `mask` is set.
    pub open spec fn spec_intersects(&self, mask: u16) -> bool {
        self.bits & mask != 0
    }

    /// The value with no bit set.
    pub fn empty() -> (f: Self)
        ensures
            f.bits == 0,
    {
        SpdmAeadAlgo { bits: 0 }
    }

    /// The value with exactly the bits of `bits` set.
    pub fn from_bits(bits: u16) -> (f: Self)
        ensures
            f.bits == bits,
    {
        SpdmAeadAlgo { bits }
    }

    /// The bits that are set.
    pub fn bits(&self) -> (b: u16)
        ensures
            b == self.bits,
    {
        self.bits
    }

    /// Whether every bit of `mask` is set.
    pub fn contains(&self, mask: u16) -> (b: bool)
        ensures
            b == self.spec_contains(mask),
    {
        self.bits & mask == mask
    }

    /// Whether some bit of `mask` is set.
    pub fn intersects(&self, mask: u16) -> (b: bool)
        ensures
            b == self.spec_intersects(mask),
    {
        self.bits & mask != 0
    }

    /// Sets the bits of `mask`.
    pub fn insert(&mut self, mask: u16)
        ensures
            final(self).bits == old(self).bits | mask,
    {
        self.bits = self.bits | mask;
    }

    /// Clears the bits of `mask`.
    pub fn remove(&mut self, mask: u16)
        ensures
            final(self).bits == old(self).bits & !mask,
    {
        self.bits = self.bits & !mask;
    }

}

impl Default for SpdmAeadAlgo {
    fn default() -> (f: Self)
        ensures
            f.bits == 0,
    {
        SpdmAeadAlgo { bits: 0 }
    }
}

/// Signature algorithms of the requester.
#[derive(Clone, Copy, Debug, PartialEq, Eq, Structural)]
pub struct SpdmReqAsymAlgo {
    /// The flag bits.
    pub bits: u16,
}

impl SpdmReqAsymAlgo {
    /// RSASSA, 2048 bits.
    pub const TPM_ALG_RSASSA_2048: u16 = 0x1;

    /// RSAPSS, 2048 bits.
    pub const TPM_ALG_RSAPSS_2048: u16 = 0x2;

    /// RSASSA, 3072 bits.
    pub const TPM_ALG_RSASSA_3072: u16 = 0x4;

    /// RSAPSS, 3072 bits.
    pub const TPM_ALG_RSAPSS_3072: u16 = 0x8;

    /// ECDSA on NIST P-256.
    pub const TPM_ALG_ECDSA_ECC_NIST_P256: u16 = 0x10;

    /// RSASSA, 4096 bits.
    pub const TPM_ALG_RSASSA_4096: u16 = 0x20;

    /// RSAPSS, 4096 bits.
    pub const TPM_ALG_RSAPSS_4096: u16 = 0x40;

    /// ECDSA on NIST P-384.
    pub const TPM_ALG_ECDSA_ECC_NIST_P384: u16 = 0x80;

    /// Whether every bit of `mask` is set.
    pub open spec fn spec_contains(&self, mask: u16) -> bool {
        self.bits & mask == mask
    }

    /// Whether some bit of `mask` is set.
    pub open spec fn spec_intersects(&self, mask: u16) -> bool {
        self.bits & mask != 0
    }

    /// The value with no bit set.
    pub fn empty() -> (f: Self)
        ensures
            f.bits == 0,
    {
        SpdmReqAsymAlgo { bits: 0 }
    }

    /// The value with exactly the bits of `bits` set.
    pub fn from_bits(bits: u16) -> (f: Self)
        ensures
            f.bits == bits,
    {
        SpdmReqAsymAlgo { bits }
    }

    /// The bits that are set.
    pub fn bits(&self) -> (b: u16)
        ensures
            b == self.bits,
    {
        self.bits
    }

    /// Whether every bit of `mask` is set.
    pub fn contains(&self, mask: u16) -> (b: bool)
        ensures
            b == self.spec_contains(mask),
    {
        self.bits & mask == mask
    }

    /// Whether some bit of `mask` is set.
    pub fn intersects(&self, mask: u16) -> (b: bool)
        ensures
            b == self.spec_intersects(mask),
    {
        self.bits & mask != 0
    }

    /// Sets the bits of `mask`.
    pub fn insert(&mut self, mask: u16)
        ensures
            final(self).bits == old(self).bits | mask,
    {
        self.bits = self.bits | mask;
    }

    /// Clears the bits of `mask`.
    pub fn remove(&mut self, mask: u16)
        ensures
            final(self).bits == old(self).bits & !mask,
    {
        self.bits = self.bits & !mask;
    }

}

impl Default for SpdmReqAsymAlgo {
    fn default() -> (f: Self)
        ensures
            f.bits == 0,
    {
        SpdmReqAsymAlgo { bits: 0 }
    }
}

/// Key schedules of a secure session.
#[derive(Clone, Copy, Debug, PartialEq, Eq, Structural)]
pub struct SpdmKeyScheduleAlgo {
    /// The flag bits.
    pub bits: u16,
}

impl SpdmKeyScheduleAlgo {
    /// The key schedule the protocol defines.
    pub const SPDM_KEY_SCHEDULE: u16 = 0x1;

    /// Whether every bit of `mask` is set.
    pub open spec fn spec_contains(&self, mask: u16) -> bool {
        self.bits & mask == mask
    }

    /// Whether some bit of `mask` is set.
    pub open spec fn spec_intersects(&self, mask: u16) -> bool {
        self.bits & mask != 0
    }

    /// The value with no bit set.
    pub fn empty() -> (f: Self)
        ensures
            f.bits == 0,
    {
        SpdmKeyScheduleAlgo { bits: 0 }
    }

    /// The value with exactly the bits of `bits` set.
    pub fn from_bits(bits: u16) -> (f: Self)
        ensures
            f.bits == bits,
    {
        SpdmKeyScheduleAlgo { bits }
    }

    /// The bits that are set.
    pub fn bits(&self) -> (b: u16)
        ensures
            b == self.bits,
    {
        self.bits
    }

    /// Whether every bit of `mask` is set.
    pub fn contains(&self, mask: u16) -> (b: bool)
        ensures
            b == self.spec_contains(mask),
    {
        self.bits & mask == mask
    }

    /// Whether some bit of `mask` is set.
    pub fn intersects(&self, mask: u16) -> (b: bool)
        ensures
            b == self.spec_intersects(mask),
    {
        self.bits & mask != 0
    }

    /// Sets the bits of `mask`.
    pub fn insert(&mut self, mask: u16)
        ensures
            final(self).bits == old(self).bits | mask,
    {
        self.bits = self.bits | mask;
    }

    /// Clears the bits of `mask`.
    pub fn remove(&mut self, mask: u16)
        ensures
            final(self).bits == old(self).bits & !mask,
    {
        self.bits = self.bits & !mask;
    }

}

impl Default for SpdmKeyScheduleAlgo {
    fn default() -> (f: Self)
        ensures
            f.bits == 0,
    {
        SpdmKeyScheduleAlgo { bits: 0 }
    }
}

/// Measurement block formats.
#[derive(Clone, Copy, Debug, PartialEq, Eq, Structural)]
pub struct SpdmMeasurementSpecification {
    /// The flag bits.
    pub bits: u8,
}

impl SpdmMeasurementSpecification {
    /// The format the protocol defines.
    pub const DMTF: u8 = 0x1;

    /// Whether every bit of `mask` is set.
    pub open spec fn spec_contains(&self, mask: u8) -> bool {
        self.bits & mask == mask
    }

    /// Whether some bit of `mask` is set.
    pub open spec fn spec_intersects(&self, mask: u8) -> bool {
        self.bits & mask != 0
    }

    /// The value with no bit set.
    pub fn empty() -> (f: Self)
        ensures
            f.bits == 0,
    {
        SpdmMeasurementSpecification { bits: 0 }
    }

    /// The value with exactly the bits of `bits` set.
    pub fn from_bits(bits: u8) -> (f: Self)
        ensures
            f.bits == bits,
    {
        SpdmMeasurementSpecification { bits }
    }

    /// The bits that are set.
    pub fn bits(&self) -> (b: u8)
        ensures
            b == self.bits,
    {
        self.bits
    }

    /// Whether every bit of `mask` is set.
    pub fn contains(&self, mask: u8) -> (b: bool)
        ensures
            b == self.spec_contains(mask),
    {
        self.bits & mask == mask
    }

    /// Whether some bit of `mask` is set.
    pub fn intersects(&self, mask: u8) -> (b: bool)
        ensures
            b == self.spec_intersects(mask),
    {
        self.bits & mask != 0
    }

    /// Sets the bits of `mask`.
    pub fn insert(&mut self, mask: u8)
        ensures
            final(self).bits == old(self).bits | mask,
    {
        self.bits = self.bits | mask;
    }

    /// Clears the bits of `mask`.
    pub fn remove(&mut self, mask: u8)
        ensures
            final(self).bits == old(self).bits & !mask,
    {
        self.bits = self.bits & !mask;
    }

}

impl Default for SpdmMeasurementSpecification {
    fn default() -> (f: Self)
        ensures
            f.bits == 0,
    {
        SpdmMeasurementSpecification { bits: 0 }
    }
}

/// Formats of opaque data.
#[derive(Clone, Copy, Debug, PartialEq, Eq, Structural)]
pub struct SpdmOpaqueSupport {
    /// The flag bits.
    pub bits: u8,
}

impl SpdmOpaqueSupport {
    /// General opaque data, format 1.
    pub const OPAQUE_DATA_FMT1: u8 = 0x2;

    /// Whether every bit of `mask` is set.
    pub open spec fn spec_contains(&self, mask: u8) -> bool {
        self.bits & mask == mask
    }

    /// Whether some bit of `mask` is set.
    pub open spec fn spec_intersects(&self, mask: u8) -> bool {
        self.bits & mask != 0
    }

    /// The value with no bit set.
    pub fn empty() -> (f: Self)
        ensures
            f.bits == 0,
    {
        SpdmOpaqueSupport { bits: 0 }
    }

    /// The value with exactly the bits of `bits` set.
    pub fn from_bits(bits: u8) -> (f: Self)
        ensures
            f.bits == bits,
    {
        SpdmOpaqueSupport { bits }
    }

    /// The bits that are set.
    pub fn bits(&self) -> (b: u8)
        ensures
            b == self.bits,
    {
        self.bits
    }

    /// Whether every bit of `mask` is set.
    pub fn contains(&self, mask: u8) -> (b: bool)
        ensures
            b == self.spec_contains(mask),
    {
        self.bits & mask == mask
    }

    /// Whether some bit of `mask` is set.
    pub fn intersects(&self, mask: u8) -> (b: bool)
        ensures
            b == self.spec_intersects(mask),
    {
        self.bits & mask != 0
    }

    /// Sets the bits of `mask`.
    pub fn insert(&mut self, mask: u8)
        ensures
            final(self).bits == old(self).bits | mask,
    {
        self.bits = self.bits | mask;
    }

    /// Clears the bits of `mask`.
    pub fn remove(&mut self, mask: u8)
        ensures
            final(self).bits == old(self).bits & !mask,
    {
        self.bits = self.bits & !mask;
    }

}

impl Default for SpdmOpaqueSupport {
    fn default() -> (f: Self)
        ensures
            f.bits == 0,
    {
        SpdmOpaqueSupport { bits: 0 }
    }
}


/// A certificate chain as it was provisioned: the certificates in DER, root
/// first, one after the other.
pub type SpdmCertChainData = BoundedBytes<MAX_SPDM_CERT_CHAIN_DATA_SIZE>;

/// A certificate chain as it travels in a CERTIFICATE response.
#[derive(Debug)]
pub struct SpdmCertChainBuffer {
    buffer: BoundedBytes<MAX_SPDM_CERT_CHAIN_BUFFER_SIZE>,
}

impl View for SpdmCertChainBuffer {
    type V = Seq<u8>;

    /// The bytes of the chain, header included; empty when none is held.
    closed spec fn view(&self) -> Seq<u8> {
        self.buffer@
    }
}

/// The wire form of a certificate chain: its total length in two bytes,
/// least significant first, two reserved bytes of zero, the digest of the
/// root certificate, and the certificates.
pub open spec fn spec_cert_chain_buffer(cert_chain: Seq<u8>, root_hash: Seq<u8>) -> Seq<u8> {
    crate::codec::spec_u16_le((4 + root_hash.len() + cert_chain.len()) as u16) + seq![0u8, 0u8]
        + root_hash + cert_chain
}

impl Clone for SpdmCertChainBuffer {
    fn clone(&self) -> (c: Self)
        ensures
            c == *self,
    {
        SpdmCertChainBuffer { buffer: self.buffer.clone() }
    }
}

impl Default for SpdmCertChainBuffer {
    /// No chain.
    fn default() -> (b: Self)
        ensures
            b@ == Seq::<u8>::empty(),
    {
        SpdmCertChainBuffer { buffer: BoundedBytes::new() }
    }
}

impl SpdmCertChainBuffer {

    /// The wire form of `cert_chain` under the digest `root_hash` of its root
    /// certificate, or `None` when the chain is longer than
    /// `MAX_SPDM_CERT_CHAIN_DATA_SIZE` or the digest longer than
    /// `SPDM_MAX_HASH_SIZE`.
    pub fn new(cert_chain: &[u8], root_hash: &[u8]) -> (out: Option<Self>)
        ensures
            out is Some <==> cert_chain@.len() <= MAX_SPDM_CERT_CHAIN_DATA_SIZE && root_hash@.len()
                <= SPDM_MAX_HASH_SIZE,
            out matches Some(b) ==> b@ == spec_cert_chain_buffer(cert_chain@, root_hash@),
    {
        if cert_chain.len() > MAX_SPDM_CERT_CHAIN_DATA_SIZE || root_hash.len()
            > SPDM_MAX_HASH_SIZE {
            return None;
        }
        let total: usize = 4 + root_hash.len() + cert_chain.len();
        let header: [u8; 4] = [(total % 256) as u8, (total / 256) as u8, 0, 0];
        assert(header@ =~= crate::codec::spec_u16_le(total as u16) + seq![0u8, 0u8]);
        let mut buffer: BoundedBytes<MAX_SPDM_CERT_CHAIN_BUFFER_SIZE> = BoundedBytes::new();
        let _ = buffer.append_message(&header);
        let _ = buffer.append_message(root_hash);
        let _ = buffer.append_message(cert_chain);
        Some(SpdmCertChainBuffer { buffer })
    }

    /// A buffer that holds `bytes` as they are, or `None` when they are more
    /// than `MAX_SPDM_CERT_CHAIN_BUFFER_SIZE`.
    pub fn from_slice(bytes: &[u8]) -> (out: Option<Self>)
        ensures
            out is Some <==> bytes@.len() <= MAX_SPDM_CERT_CHAIN_BUFFER_SIZE,
            out matches Some(b) ==> b@ == bytes@,
    {
        match BoundedBytes::from_slice(bytes) {
            Some(buffer) => Some(SpdmCertChainBuffer { buffer }),
            None => None,
        }
    }

    /// Number of bytes held.
    pub fn len(&self) -> (n: usize)
        ensures
            n == self@.len(),
            n <= MAX_SPDM_CERT_CHAIN_BUFFER_SIZE,
    {
        self.buffer.len()
    }

    /// The bytes held.
    pub fn as_slice(&self) -> (out: &[u8])
        ensures
            out@ == self@,
    {
        self.buffer.as_slice()
    }

    /// Appends a portion of a chain that arrives in pieces. When it does not
    /// fit, nothing is appended and the result is `None`.
    pub fn append(&mut self, portion: &[u8]) -> (out: Option<usize>)
        ensures
            out is Some <==> old(self)@.len() + portion@.len() <= MAX_SPDM_CERT_CHAIN_BUFFER_SIZE,
            out matches Some(n) ==> n == portion@.len() && final(self)@ == old(self)@ + portion@,
            out is None ==> *final(self) == *old(self),
    {
        self.buffer.append_message(portion)
    }
}

} // verus!
