//! Compile-time limits of the protocol engine.

use vstd::prelude::*;

verus! {

/// Largest SPDM message, in bytes, that is assembled or parsed.
pub const MAX_SPDM_MSG_SIZE: usize = 0x1200;

/// Size of the buffer that holds a frame on its way to the transport.
pub const SENDER_BUFFER_SIZE: usize = 0x1200;

/// Size of the buffer that holds a frame as it came from the transport.
pub const RECEIVER_BUFFER_SIZE: usize = 0x1200;

/// Number of slots in the session table.
pub const MAX_SPDM_SESSION_COUNT: usize = 4;

/// Capacity, in bytes, of one certificate chain.
pub const MAX_SPDM_CERT_CHAIN_DATA_SIZE: usize = 0x1000;

/// Capacity, in bytes, of a certificate chain as it travels: a four-byte
/// header, the digest of the root certificate, then the chain itself.
pub const MAX_SPDM_CERT_CHAIN_BUFFER_SIZE: usize = 4 + SPDM_MAX_HASH_SIZE
    + MAX_SPDM_CERT_CHAIN_DATA_SIZE;

/// Most bytes of a certificate chain that are asked for in one
/// GET_CERTIFICATE.
pub const MAX_SPDM_CERT_PORTION_LEN: u16 = 0x200;

/// Number of certificate chain slots.
pub const SPDM_MAX_SLOT_NUMBER: usize = 8;

/// Number of protocol versions a configuration lists.
pub const MAX_SPDM_VERSION_COUNT: usize = 3;

/// Number of secured-message versions a configuration lists.
pub const MAX_SECURE_SPDM_VERSION_COUNT: usize = 2;

/// Capacity, in bytes, of one transcript accumulator.
pub const MAX_MANAGED_BUFFER_SIZE: usize = 0x1200;

/// Longest vendor identifier of a vendor-defined message.
pub const MAX_SPDM_VENDOR_DEFINED_VENDOR_ID_LEN: usize = 4;

/// Longest payload of a vendor-defined message.
pub const MAX_SPDM_VENDOR_DEFINED_PAYLOAD_SIZE: usize = 0x100;

/// Largest digest of the supported hash algorithms (SHA-512).
pub const SPDM_MAX_HASH_SIZE: usize = 64;

/// Largest key of the supported AEAD ciphers (AES-256 and ChaCha20).
pub const SPDM_MAX_AEAD_KEY_SIZE: usize = 32;

/// Size of the nonce of the supported AEAD ciphers.
pub const SPDM_MAX_AEAD_IV_SIZE: usize = 12;

/// Heartbeat period, in seconds, that a responder configuration announces.
pub const HEARTBEAT_PERIOD: u8 = 0;

} // verus!
