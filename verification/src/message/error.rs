//! The SPDM ERROR response.

use crate::codec::{Codec, Reader, Writer};
use crate::message::{SpdmErrorCode, SpdmMessageHeader, SpdmRequestResponseCode};
use crate::protocol::SpdmVersion;
use vstd::prelude::*;

verus! {

/// What a `ResponseNotReady` error adds: when and how to ask again.
#[derive(Clone, Copy, Debug, PartialEq, Eq, Structural)]
pub struct SpdmErrorResponseNotReadyExtData {
    /// Exponent of the time after which the response is ready.
    pub rdt_exponent: u8,
    /// The code of the request that is not yet answered.
    pub request_code: u8,
    /// The token to present with RESPOND_IF_READY.
    pub token: u8,
    /// Multiplier of the time after which the responder gives up.
    pub rdtm: u8,
}

/// The extended data of an SPDM ERROR.
#[derive(Clone, Copy, Debug, PartialEq, Eq, Structural)]
pub enum SpdmErrorResponseExtData {
    /// No extended data.
    SpdmErrorExtDataNone,
    /// The extended data of `ResponseNotReady`.
    SpdmErrorExtDataNotReady(SpdmErrorResponseNotReadyExtData),
}

/// What follows the header of an SPDM ERROR: the error code, one byte of
/// error data, and the extended data that the code calls for.
#[derive(Clone, Copy, Debug, PartialEq, Eq, Structural)]
pub struct SpdmErrorResponsePayload {
    /// What went wrong.
    pub error_code: SpdmErrorCode,
    /// One byte that qualifies the error.
    pub error_data: u8,
    /// What the error code adds.
    pub extended_data: SpdmErrorResponseExtData,
}

impl SpdmErrorResponseExtData {
    /// The bytes of the extended data.
    pub open spec fn spec_bytes(&self) -> Seq<u8> {
        match *self {
            SpdmErrorResponseExtData::SpdmErrorExtDataNone => Seq::empty(),
            SpdmErrorResponseExtData::SpdmErrorExtDataNotReady(e) => seq![
                e.rdt_exponent,
                e.request_code,
                e.token,
                e.rdtm,
            ],
        }
    }
}

impl View for SpdmErrorResponsePayload {
    type V = SpdmErrorResponsePayload;

    open spec fn view(&self) -> SpdmErrorResponsePayload {
        *self
    }
}

impl Codec for SpdmErrorResponsePayload {
    open spec fn spec_encode(v: Self) -> Seq<u8> {
        seq![v.error_code.spec_get_u8(), v.error_data] + v.extended_data.spec_bytes()
    }

    open spec fn spec_read(bytes: Seq<u8>) -> Option<(Self, nat)> {
        if bytes.len() < 2 {
            None
        } else if SpdmErrorCode::spec_from_u8(bytes[0])
            == SpdmErrorCode::SpdmErrorResponseNotReady {
            if bytes.len() < 6 {
                None
            } else {
                Some(
                    (
                        SpdmErrorResponsePayload {
                            error_code: SpdmErrorCode::SpdmErrorResponseNotReady,
                            error_data: bytes[1],
                            extended_data: SpdmErrorResponseExtData::SpdmErrorExtDataNotReady(
                                SpdmErrorResponseNotReadyExtData {
                                    rdt_exponent: bytes[2],
                                    request_code: bytes[3],
                                    token: bytes[4],
                                    rdtm: bytes[5],
                                },
                            ),
                        },
                        6nat,
                    ),
                )
            }
        } else {
            Some(
                (
                    SpdmErrorResponsePayload {
                        error_code: SpdmErrorCode::spec_from_u8(bytes[0]),
                        error_data: bytes[1],
                        extended_data: SpdmErrorResponseExtData::SpdmErrorExtDataNone,
                    },
                    2nat,
                ),
            )
        }
    }

    open spec fn spec_canonical(v: Self) -> bool {
        &&& SpdmErrorCode::spec_canonical(v.error_code)
        &&& (v.error_code == SpdmErrorCode::SpdmErrorResponseNotReady
            <==> v.extended_data is SpdmErrorExtDataNotReady)
    }

    fn encode(&self, bytes: &mut Writer) -> (out: Option<usize>) {
        match self.extended_data {
            SpdmErrorResponseExtData::SpdmErrorExtDataNone => {
                let raw: [u8; 2] = [self.error_code.get_u8(), self.error_data];
                assert(raw@ =~= Self::spec_encode(*self));
                bytes.extend_from_slice(&raw)
            },
            SpdmErrorResponseExtData::SpdmErrorExtDataNotReady(e) => {
                let raw: [u8; 6] = [
                    self.error_code.get_u8(),
                    self.error_data,
                    e.rdt_exponent,
                    e.request_code,
                    e.token,
                    e.rdtm,
                ];
                assert(raw@ =~= Self::spec_encode(*self));
                bytes.extend_from_slice(&raw)
            },
        }
    }

    fn read(r: &mut Reader) -> (out: Option<Self>) {
        let error_code = match r.peek_u8() {
            Some(x) => SpdmErrorCode::from_u8(x),
            None => {
                return None;
            },
        };
        if error_code == SpdmErrorCode::SpdmErrorResponseNotReady {
            match r.take(6) {
                Some(s) => Some(
                    SpdmErrorResponsePayload {
                        error_code,
                        error_data: s[1],
                        extended_data: SpdmErrorResponseExtData::SpdmErrorExtDataNotReady(
                            SpdmErrorResponseNotReadyExtData {
                                rdt_exponent: s[2],
                                request_code: s[3],
                                token: s[4],
                                rdtm: s[5],
                            },
                        ),
                    },
                ),
                None => None,
            }
        } else {
            match r.take(2) {
                Some(s) => Some(
                    SpdmErrorResponsePayload {
                        error_code,
                        error_data: s[1],
                        extended_data: SpdmErrorResponseExtData::SpdmErrorExtDataNone,
                    },
                ),
                None => None,
            }
        }
    }

    proof fn lemma_read_encode(bytes: Seq<u8>) {
        if let Some((v, n)) = Self::spec_read(bytes) {
            assert(Self::spec_encode(v) =~= bytes.subrange(0, n as int));
        }
    }

    proof fn lemma_encode_read(v: Self, rest: Seq<u8>) {
        let bytes = Self::spec_encode(v) + rest;
        assert(bytes[0] == v.error_code.spec_get_u8());
    }
}

/// The bytes of an SPDM ERROR without extended data: the version, the code
/// of ERROR, the error code, the error data.
pub open spec fn spec_error_message(version: SpdmVersion, error_code: SpdmErrorCode, error_data: u8)
    -> Seq<u8> {
    seq![version.spec_get_u8(), 0x7f, error_code.spec_get_u8(), error_data]
}

/// Whether `bytes` is an SPDM ERROR with the given error code, in any
/// version and with any error data.
pub open spec fn spec_is_error_message(bytes: Seq<u8>, error_code: SpdmErrorCode) -> bool {
    bytes.len() >= 4 && bytes[1] == 0x7f && bytes[2] == error_code.spec_get_u8()
}

/// An SPDM ERROR without extended data is its header followed by its payload.
pub proof fn lemma_error_message_layout(
    version: SpdmVersion,
    error_code: SpdmErrorCode,
    error_data: u8,
)
    ensures
        spec_error_message(version, error_code, error_data) == SpdmMessageHeader::spec_encode(
            SpdmMessageHeader {
                version,
                request_response_code: SpdmRequestResponseCode::SpdmResponseError,
            },
        ) + SpdmErrorResponsePayload::spec_encode(
            SpdmErrorResponsePayload {
                error_code,
                error_data,
                extended_data: SpdmErrorResponseExtData::SpdmErrorExtDataNone,
            },
        ),
        spec_is_error_message(spec_error_message(version, error_code, error_data), error_code),
{
    let h = SpdmMessageHeader {
        version,
        request_response_code: SpdmRequestResponseCode::SpdmResponseError,
    };
    let p = SpdmErrorResponsePayload {
        error_code,
        error_data,
        extended_data: SpdmErrorResponseExtData::SpdmErrorExtDataNone,
    };
    assert(spec_error_message(version, error_code, error_data) =~= SpdmMessageHeader::spec_encode(
        h,
    ) + SpdmErrorResponsePayload::spec_encode(p));
}

} // verus!
