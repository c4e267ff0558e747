//! Request and response codes, error codes, and the message header.

pub mod certificate;
pub mod encapsulated;
pub mod error;
pub mod vendor;
pub mod version;

use crate::codec::{Codec, Reader, Writer};
use crate::protocol::SpdmVersion;
use vstd::prelude::*;

verus! {

/// The code in the second byte of every SPDM message.
#[derive(Clone, Copy, Debug, PartialEq, Eq, Structural)]
pub enum SpdmRequestResponseCode {
    /// `DIGESTS`
    SpdmResponseDigests,
    /// `CERTIFICATE`
    SpdmResponseCertificate,
    /// `CHALLENGE_AUTH`
    SpdmResponseChallengeAuth,
    /// `VERSION`
    SpdmResponseVersion,
    /// `MEASUREMENTS`
    SpdmResponseMeasurements,
    /// `CAPABILITIES`
    SpdmResponseCapabilities,
    /// `ALGORITHMS`
    SpdmResponseAlgorithms,
    /// `KEY_EXCHANGE_RSP`
    SpdmResponseKeyExchangeRsp,
    /// `FINISH_RSP`
    SpdmResponseFinishRsp,
    /// `PSK_EXCHANGE_RSP`
    SpdmResponsePskExchangeRsp,
    /// `PSK_FINISH_RSP`
    SpdmResponsePskFinishRsp,
    /// `HEARTBEAT_ACK`
    SpdmResponseHeartbeatAck,
    /// `KEY_UPDATE_ACK`
    SpdmResponseKeyUpdateAck,
    /// `ENCAPSULATED_REQUEST`
    SpdmResponseEncapsulatedRequest,
    /// `ENCAPSULATED_RESPONSE_ACK`
    SpdmResponseEncapsulatedResponseAck,
    /// `END_SESSION_ACK`
    SpdmResponseEndSessionAck,
    /// `VENDOR_DEFINED_RESPONSE`
    SpdmResponseVendorDefinedResponse,
    /// `ERROR`
    SpdmResponseError,
    /// `GET_DIGESTS`
    SpdmRequestGetDigests,
    /// `GET_CERTIFICATE`
    SpdmRequestGetCertificate,
    /// `CHALLENGE`
    SpdmRequestChallenge,
    /// `GET_VERSION`
    SpdmRequestGetVersion,
    /// `GET_MEASUREMENTS`
    SpdmRequestGetMeasurements,
    /// `GET_CAPABILITIES`
    SpdmRequestGetCapabilities,
    /// `NEGOTIATE_ALGORITHMS`
    SpdmRequestNegotiateAlgorithms,
    /// `KEY_EXCHANGE`
    SpdmRequestKeyExchange,
    /// `FINISH`
    SpdmRequestFinish,
    /// `PSK_EXCHANGE`
    SpdmRequestPskExchange,
    /// `PSK_FINISH`
    SpdmRequestPskFinish,
    /// `HEARTBEAT`
    SpdmRequestHeartbeat,
    /// `KEY_UPDATE`
    SpdmRequestKeyUpdate,
    /// `GET_ENCAPSULATED_REQUEST`
    SpdmRequestGetEncapsulatedRequest,
    /// `DELIVER_ENCAPSULATED_RESPONSE`
    SpdmRequestDeliverEncapsulatedResponse,
    /// `END_SESSION`
    SpdmRequestEndSession,
    /// `VENDOR_DEFINED_REQUEST`
    SpdmRequestVendorDefinedRequest,
    /// `RESPOND_IF_READY`
    SpdmRequestResponseIfReady,
    /// A byte that names none of the above.
    Unknown(u8),
}

impl SpdmRequestResponseCode {
    /// The byte that stands for the value on the wire.
    pub open spec fn spec_get_u8(&self) -> u8 {
        match *self {
            SpdmRequestResponseCode::SpdmResponseDigests => 0x01,
            SpdmRequestResponseCode::SpdmResponseCertificate => 0x02,
            SpdmRequestResponseCode::SpdmResponseChallengeAuth => 0x03,
            SpdmRequestResponseCode::SpdmResponseVersion => 0x04,
            SpdmRequestResponseCode::SpdmResponseMeasurements => 0x60,
            SpdmRequestResponseCode::SpdmResponseCapabilities => 0x61,
            SpdmRequestResponseCode::SpdmResponseAlgorithms => 0x63,
            SpdmRequestResponseCode::SpdmResponseKeyExchangeRsp => 0x64,
            SpdmRequestResponseCode::SpdmResponseFinishRsp => 0x65,
            SpdmRequestResponseCode::SpdmResponsePskExchangeRsp => 0x66,
            SpdmRequestResponseCode::SpdmResponsePskFinishRsp => 0x67,
            SpdmRequestResponseCode::SpdmResponseHeartbeatAck => 0x68,
            SpdmRequestResponseCode::SpdmResponseKeyUpdateAck => 0x69,
            SpdmRequestResponseCode::SpdmResponseEncapsulatedRequest => 0x6a,
            SpdmRequestResponseCode::SpdmResponseEncapsulatedResponseAck => 0x6b,
            SpdmRequestResponseCode::SpdmResponseEndSessionAck => 0x6c,
            SpdmRequestResponseCode::SpdmResponseVendorDefinedResponse => 0x7e,
            SpdmRequestResponseCode::SpdmResponseError => 0x7f,
            SpdmRequestResponseCode::SpdmRequestGetDigests => 0x81,
            SpdmRequestResponseCode::SpdmRequestGetCertificate => 0x82,
            SpdmRequestResponseCode::SpdmRequestChallenge => 0x83,
            SpdmRequestResponseCode::SpdmRequestGetVersion => 0x84,
            SpdmRequestResponseCode::SpdmRequestGetMeasurements => 0xe0,
            SpdmRequestResponseCode::SpdmRequestGetCapabilities => 0xe1,
            SpdmRequestResponseCode::SpdmRequestNegotiateAlgorithms => 0xe3,
            SpdmRequestResponseCode::SpdmRequestKeyExchange => 0xe4,
            SpdmRequestResponseCode::SpdmRequestFinish => 0xe5,
            SpdmRequestResponseCode::SpdmRequestPskExchange => 0xe6,
            SpdmRequestResponseCode::SpdmRequestPskFinish => 0xe7,
            SpdmRequestResponseCode::SpdmRequestHeartbeat => 0xe8,
            SpdmRequestResponseCode::SpdmRequestKeyUpdate => 0xe9,
            SpdmRequestResponseCode::SpdmRequestGetEncapsulatedRequest => 0xea,
            SpdmRequestResponseCode::SpdmRequestDeliverEncapsulatedResponse => 0xeb,
            SpdmRequestResponseCode::SpdmRequestEndSession => 0xec,
            SpdmRequestResponseCode::SpdmRequestVendorDefinedRequest => 0xfe,
            SpdmRequestResponseCode::SpdmRequestResponseIfReady => 0xff,
            SpdmRequestResponseCode::Unknown(x) => x,
        }
    }

    /// The value that a byte stands for.
    pub open spec fn spec_from_u8(x: u8) -> Self {
        if x == 0x01 {
            SpdmRequestResponseCode::SpdmResponseDigests
        } else if x == 0x02 {
            SpdmRequestResponseCode::SpdmResponseCertificate
        } else if x == 0x03 {
            SpdmRequestResponseCode::SpdmResponseChallengeAuth
        } else if x == 0x04 {
            SpdmRequestResponseCode::SpdmResponseVersion
        } else if x == 0x60 {
            SpdmRequestResponseCode::SpdmResponseMeasurements
        } else if x == 0x61 {
            SpdmRequestResponseCode::SpdmResponseCapabilities
        } else if x == 0x63 {
            SpdmRequestResponseCode::SpdmResponseAlgorithms
        } else if x == 0x64 {
            SpdmRequestResponseCode::SpdmResponseKeyExchangeRsp
        } else if x == 0x65 {
            SpdmRequestResponseCode::SpdmResponseFinishRsp
        } else if x == 0x66 {
            SpdmRequestResponseCode::SpdmResponsePskExchangeRsp
        } else if x == 0x67 {
            SpdmRequestResponseCode::SpdmResponsePskFinishRsp
        } else if x == 0x68 {
            SpdmRequestResponseCode::SpdmResponseHeartbeatAck
        } else if x == 0x69 {
            SpdmRequestResponseCode::SpdmResponseKeyUpdateAck
        } else if x == 0x6a {
            SpdmRequestResponseCode::SpdmResponseEncapsulatedRequest
        } else if x == 0x6b {
            SpdmRequestResponseCode::SpdmResponseEncapsulatedResponseAck
        } else if x == 0x6c {
            SpdmRequestResponseCode::SpdmResponseEndSessionAck
        } else if x == 0x7e {
            SpdmRequestResponseCode::SpdmResponseVendorDefinedResponse
        } else if x == 0x7f {
            SpdmRequestResponseCode::SpdmResponseError
        } else if x == 0x81 {
            SpdmRequestResponseCode::SpdmRequestGetDigests
        } else if x == 0x82 {
            SpdmRequestResponseCode::SpdmRequestGetCertificate
        } else if x == 0x83 {
            SpdmRequestResponseCode::SpdmRequestChallenge
        } else if x == 0x84 {
            SpdmRequestResponseCode::SpdmRequestGetVersion
        } else if x == 0xe0 {
            SpdmRequestResponseCode::SpdmRequestGetMeasurements
        } else if x == 0xe1 {
            SpdmRequestResponseCode::SpdmRequestGetCapabilities
        } else if x == 0xe3 {
            SpdmRequestResponseCode::SpdmRequestNegotiateAlgorithms
        } else if x == 0xe4 {
            SpdmRequestResponseCode::SpdmRequestKeyExchange
        } else if x == 0xe5 {
            SpdmRequestResponseCode::SpdmRequestFinish
        } else if x == 0xe6 {
            SpdmRequestResponseCode::SpdmRequestPskExchange
        } else if x == 0xe7 {
            SpdmRequestResponseCode::SpdmRequestPskFinish
        } else if x == 0xe8 {
            SpdmRequestResponseCode::SpdmRequestHeartbeat
        } else if x == 0xe9 {
            SpdmRequestResponseCode::SpdmRequestKeyUpdate
        } else if x == 0xea {
            SpdmRequestResponseCode::SpdmRequestGetEncapsulatedRequest
        } else if x == 0xeb {
            SpdmRequestResponseCode::SpdmRequestDeliverEncapsulatedResponse
        } else if x == 0xec {
            SpdmRequestResponseCode::SpdmRequestEndSession
        } else if x == 0xfe {
            SpdmRequestResponseCode::SpdmRequestVendorDefinedRequest
        } else if x == 0xff {
            SpdmRequestResponseCode::SpdmRequestResponseIfReady
        } else {
            SpdmRequestResponseCode::Unknown(x)
        }
    }

    /// The byte that stands for the value on the wire.
    pub fn get_u8(&self) -> (x: u8)
        ensures
            x == self.spec_get_u8(),
    {
        match *self {
            SpdmRequestResponseCode::SpdmResponseDigests => 0x01,
            SpdmRequestResponseCode::SpdmResponseCertificate => 0x02,
            SpdmRequestResponseCode::SpdmResponseChallengeAuth => 0x03,
            SpdmRequestResponseCode::SpdmResponseVersion => 0x04,
            SpdmRequestResponseCode::SpdmResponseMeasurements => 0x60,
            SpdmRequestResponseCode::SpdmResponseCapabilities => 0x61,
            SpdmRequestResponseCode::SpdmResponseAlgorithms => 0x63,
            SpdmRequestResponseCode::SpdmResponseKeyExchangeRsp => 0x64,
            SpdmRequestResponseCode::SpdmResponseFinishRsp => 0x65,
            SpdmRequestResponseCode::SpdmResponsePskExchangeRsp => 0x66,
            SpdmRequestResponseCode::SpdmResponsePskFinishRsp => 0x67,
            SpdmRequestResponseCode::SpdmResponseHeartbeatAck => 0x68,
            SpdmRequestResponseCode::SpdmResponseKeyUpdateAck => 0x69,
            SpdmRequestResponseCode::SpdmResponseEncapsulatedRequest => 0x6a,
            SpdmRequestResponseCode::SpdmResponseEncapsulatedResponseAck => 0x6b,
            SpdmRequestResponseCode::SpdmResponseEndSessionAck => 0x6c,
            SpdmRequestResponseCode::SpdmResponseVendorDefinedResponse => 0x7e,
            SpdmRequestResponseCode::SpdmResponseError => 0x7f,
            SpdmRequestResponseCode::SpdmRequestGetDigests => 0x81,
            SpdmRequestResponseCode::SpdmRequestGetCertificate => 0x82,
            SpdmRequestResponseCode::SpdmRequestChallenge => 0x83,
            SpdmRequestResponseCode::SpdmRequestGetVersion => 0x84,
            SpdmRequestResponseCode::SpdmRequestGetMeasurements => 0xe0,
            SpdmRequestResponseCode::SpdmRequestGetCapabilities => 0xe1,
            SpdmRequestResponseCode::SpdmRequestNegotiateAlgorithms => 0xe3,
            SpdmRequestResponseCode::SpdmRequestKeyExchange => 0xe4,
            SpdmRequestResponseCode::SpdmRequestFinish => 0xe5,
            SpdmRequestResponseCode::SpdmRequestPskExchange => 0xe6,
            SpdmRequestResponseCode::SpdmRequestPskFinish => 0xe7,
            SpdmRequestResponseCode::SpdmRequestHeartbeat => 0xe8,
            SpdmRequestResponseCode::SpdmRequestKeyUpdate => 0xe9,
            SpdmRequestResponseCode::SpdmRequestGetEncapsulatedRequest => 0xea,
            SpdmRequestResponseCode::SpdmRequestDeliverEncapsulatedResponse => 0xeb,
            SpdmRequestResponseCode::SpdmRequestEndSession => 0xec,
            SpdmRequestResponseCode::SpdmRequestVendorDefinedRequest => 0xfe,
            SpdmRequestResponseCode::SpdmRequestResponseIfReady => 0xff,
            SpdmRequestResponseCode::Unknown(x) => x,
        }
    }

    /// The value that a byte stands for.
    pub fn from_u8(x: u8) -> (v: Self)
        ensures
            v == Self::spec_from_u8(x),
            v.spec_get_u8() == x,
    {
        if x == 0x01 {
            SpdmRequestResponseCode::SpdmResponseDigests
        } else if x == 0x02 {
            SpdmRequestResponseCode::SpdmResponseCertificate
        } else if x == 0x03 {
            SpdmRequestResponseCode::SpdmResponseChallengeAuth
        } else if x == 0x04 {
            SpdmRequestResponseCode::SpdmResponseVersion
        } else if x == 0x60 {
            SpdmRequestResponseCode::SpdmResponseMeasurements
        } else if x == 0x61 {
            SpdmRequestResponseCode::SpdmResponseCapabilities
        } else if x == 0x63 {
            SpdmRequestResponseCode::SpdmResponseAlgorithms
        } else if x == 0x64 {
            SpdmRequestResponseCode::SpdmResponseKeyExchangeRsp
        } else if x == 0x65 {
            SpdmRequestResponseCode::SpdmResponseFinishRsp
        } else if x == 0x66 {
            SpdmRequestResponseCode::SpdmResponsePskExchangeRsp
        } else if x == 0x67 {
            SpdmRequestResponseCode::SpdmResponsePskFinishRsp
        } else if x == 0x68 {
            SpdmRequestResponseCode::SpdmResponseHeartbeatAck
        } else if x == 0x69 {
            SpdmRequestResponseCode::SpdmResponseKeyUpdateAck
        } else if x == 0x6a {
            SpdmRequestResponseCode::SpdmResponseEncapsulatedRequest
        } else if x == 0x6b {
            SpdmRequestResponseCode::SpdmResponseEncapsulatedResponseAck
        } else if x == 0x6c {
            SpdmRequestResponseCode::SpdmResponseEndSessionAck
        } else if x == 0x7e {
            SpdmRequestResponseCode::SpdmResponseVendorDefinedResponse
        } else if x == 0x7f {
            SpdmRequestResponseCode::SpdmResponseError
        } else if x == 0x81 {
            SpdmRequestResponseCode::SpdmRequestGetDigests
        } else if x == 0x82 {
            SpdmRequestResponseCode::SpdmRequestGetCertificate
        } else if x == 0x83 {
            SpdmRequestResponseCode::SpdmRequestChallenge
        } else if x == 0x84 {
            SpdmRequestResponseCode::SpdmRequestGetVersion
        } else if x == 0xe0 {
            SpdmRequestResponseCode::SpdmRequestGetMeasurements
        } else if x == 0xe1 {
            SpdmRequestResponseCode::SpdmRequestGetCapabilities
        } else if x == 0xe3 {
            SpdmRequestResponseCode::SpdmRequestNegotiateAlgorithms
        } else if x == 0xe4 {
            SpdmRequestResponseCode::SpdmRequestKeyExchange
        } else if x == 0xe5 {
            SpdmRequestResponseCode::SpdmRequestFinish
        } else if x == 0xe6 {
            SpdmRequestResponseCode::SpdmRequestPskExchange
        } else if x == 0xe7 {
            SpdmRequestResponseCode::SpdmRequestPskFinish
        } else if x == 0xe8 {
            SpdmRequestResponseCode::SpdmRequestHeartbeat
        } else if x == 0xe9 {
            SpdmRequestResponseCode::SpdmRequestKeyUpdate
        } else if x == 0xea {
            SpdmRequestResponseCode::SpdmRequestGetEncapsulatedRequest
        } else if x == 0xeb {
            SpdmRequestResponseCode::SpdmRequestDeliverEncapsulatedResponse
        } else if x == 0xec {
            SpdmRequestResponseCode::SpdmRequestEndSession
        } else if x == 0xfe {
            SpdmRequestResponseCode::SpdmRequestVendorDefinedRequest
        } else if x == 0xff {
            SpdmRequestResponseCode::SpdmRequestResponseIfReady
        } else {
            SpdmRequestResponseCode::Unknown(x)
        }
    }
}

impl View for SpdmRequestResponseCode {
    type V = SpdmRequestResponseCode;

    open spec fn view(&self) -> SpdmRequestResponseCode {
        *self
    }
}

impl Codec for SpdmRequestResponseCode {
    open spec fn spec_encode(v: Self) -> Seq<u8> {
        seq![v.spec_get_u8()]
    }

    open spec fn spec_read(bytes: Seq<u8>) -> Option<(Self, nat)> {
        if bytes.len() >= 1 {
            Some((Self::spec_from_u8(bytes[0]), 1nat))
        } else {
            None
        }
    }

    open spec fn spec_canonical(v: Self) -> bool {
        Self::spec_from_u8(v.spec_get_u8()) == v
    }

    fn encode(&self, bytes: &mut Writer) -> (out: Option<usize>) {
        self.get_u8().encode(bytes)
    }

    fn read(r: &mut Reader) -> (out: Option<Self>) {
        match u8::read(r) {
            Some(x) => Some(Self::from_u8(x)),
            None => None,
        }
    }

    proof fn lemma_read_encode(bytes: Seq<u8>) {
        if bytes.len() >= 1 {
            assert(seq![bytes[0]] =~= bytes.subrange(0, 1));
        }
    }

    proof fn lemma_encode_read(v: Self, rest: Seq<u8>) {
    }
}

/// The error code in the third byte of an SPDM ERROR response.
#[derive(Clone, Copy, Debug, PartialEq, Eq, Structural)]
pub enum SpdmErrorCode {
    /// Invalid request.
    SpdmErrorInvalidRequest,
    /// Busy.
    SpdmErrorBusy,
    /// Unexpected request.
    SpdmErrorUnexpectedRequest,
    /// Unspecified.
    SpdmErrorUnspecified,
    /// Decrypt error.
    SpdmErrorDecryptError,
    /// Unsupported request.
    SpdmErrorUnsupportedRequest,
    /// Request in flight.
    SpdmErrorRequestInFlight,
    /// Invalid response code.
    SpdmErrorInvalidResponseCode,
    /// Session limit exceeded.
    SpdmErrorSessionLimitExceeded,
    /// Session required.
    SpdmErrorSessionRequired,
    /// Reset required.
    SpdmErrorResetRequired,
    /// Response too large.
    SpdmErrorResponseTooLarge,
    /// Request too large.
    SpdmErrorRequestTooLarge,
    /// Large response.
    SpdmErrorLargeResponse,
    /// Message lost.
    SpdmErrorMessageLost,
    /// Version mismatch.
    SpdmErrorVersionMismatch,
    /// Response not ready.
    SpdmErrorResponseNotReady,
    /// Request resynch.
    SpdmErrorRequestResynch,
    /// Vendor defined.
    SpdmErrorVendorDefined,
    /// A byte that names none of the above.
    Unknown(u8),
}

impl SpdmErrorCode {
    /// The byte that stands for the value on the wire.
    pub open spec fn spec_get_u8(&self) -> u8 {
        match *self {
            SpdmErrorCode::SpdmErrorInvalidRequest => 0x01,
            SpdmErrorCode::SpdmErrorBusy => 0x03,
            SpdmErrorCode::SpdmErrorUnexpectedRequest => 0x04,
            SpdmErrorCode::SpdmErrorUnspecified => 0x05,
            SpdmErrorCode::SpdmErrorDecryptError => 0x06,
            SpdmErrorCode::SpdmErrorUnsupportedRequest => 0x07,
            SpdmErrorCode::SpdmErrorRequestInFlight => 0x08,
            SpdmErrorCode::SpdmErrorInvalidResponseCode => 0x09,
            SpdmErrorCode::SpdmErrorSessionLimitExceeded => 0x0a,
            SpdmErrorCode::SpdmErrorSessionRequired => 0x0b,
            SpdmErrorCode::SpdmErrorResetRequired => 0x0c,
            SpdmErrorCode::SpdmErrorResponseTooLarge => 0x0d,
            SpdmErrorCode::SpdmErrorRequestTooLarge => 0x0e,
            SpdmErrorCode::SpdmErrorLargeResponse => 0x0f,
            SpdmErrorCode::SpdmErrorMessageLost => 0x10,
            SpdmErrorCode::SpdmErrorVersionMismatch => 0x41,
            SpdmErrorCode::SpdmErrorResponseNotReady => 0x42,
            SpdmErrorCode::SpdmErrorRequestResynch => 0x43,
            SpdmErrorCode::SpdmErrorVendorDefined => 0xff,
            SpdmErrorCode::Unknown(x) => x,
        }
    }

    /// The value that a byte stands for.
    pub open spec fn spec_from_u8(x: u8) -> Self {
        if x == 0x01 {
            SpdmErrorCode::SpdmErrorInvalidRequest
        } else if x == 0x03 {
            SpdmErrorCode::SpdmErrorBusy
        } else if x == 0x04 {
            SpdmErrorCode::SpdmErrorUnexpectedRequest
        } else if x == 0x05 {
            SpdmErrorCode::SpdmErrorUnspecified
        } else if x == 0x06 {
            SpdmErrorCode::SpdmErrorDecryptError
        } else if x == 0x07 {
            SpdmErrorCode::SpdmErrorUnsupportedRequest
        } else if x == 0x08 {
            SpdmErrorCode::SpdmErrorRequestInFlight
        } else if x == 0x09 {
            SpdmErrorCode::SpdmErrorInvalidResponseCode
        } else if x == 0x0a {
            SpdmErrorCode::SpdmErrorSessionLimitExceeded
        } else if x == 0x0b {
            SpdmErrorCode::SpdmErrorSessionRequired
        } else if x == 0x0c {
            SpdmErrorCode::SpdmErrorResetRequired
        } else if x == 0x0d {
            SpdmErrorCode::SpdmErrorResponseTooLarge
        } else if x == 0x0e {
            SpdmErrorCode::SpdmErrorRequestTooLarge
        } else if x == 0x0f {
            SpdmErrorCode::SpdmErrorLargeResponse
        } else if x == 0x10 {
            SpdmErrorCode::SpdmErrorMessageLost
        } else if x == 0x41 {
            SpdmErrorCode::SpdmErrorVersionMismatch
        } else if x == 0x42 {
            SpdmErrorCode::SpdmErrorResponseNotReady
        } else if x == 0x43 {
            SpdmErrorCode::SpdmErrorRequestResynch
        } else if x == 0xff {
            SpdmErrorCode::SpdmErrorVendorDefined
        } else {
            SpdmErrorCode::Unknown(x)
        }
    }

    /// The byte that stands for the value on the wire.
    pub fn get_u8(&self) -> (x: u8)
        ensures
            x == self.spec_get_u8(),
    {
        match *self {
            SpdmErrorCode::SpdmErrorInvalidRequest => 0x01,
            SpdmErrorCode::SpdmErrorBusy => 0x03,
            SpdmErrorCode::SpdmErrorUnexpectedRequest => 0x04,
            SpdmErrorCode::SpdmErrorUnspecified => 0x05,
            SpdmErrorCode::SpdmErrorDecryptError => 0x06,
            SpdmErrorCode::SpdmErrorUnsupportedRequest => 0x07,
            SpdmErrorCode::SpdmErrorRequestInFlight => 0x08,
            SpdmErrorCode::SpdmErrorInvalidResponseCode => 0x09,
            SpdmErrorCode::SpdmErrorSessionLimitExceeded => 0x0a,
            SpdmErrorCode::SpdmErrorSessionRequired => 0x0b,
            SpdmErrorCode::SpdmErrorResetRequired => 0x0c,
            SpdmErrorCode::SpdmErrorResponseTooLarge => 0x0d,
            SpdmErrorCode::SpdmErrorRequestTooLarge => 0x0e,
            SpdmErrorCode::SpdmErrorLargeResponse => 0x0f,
            SpdmErrorCode::SpdmErrorMessageLost => 0x10,
            SpdmErrorCode::SpdmErrorVersionMismatch => 0x41,
            SpdmErrorCode::SpdmErrorResponseNotReady => 0x42,
            SpdmErrorCode::SpdmErrorRequestResynch => 0x43,
            SpdmErrorCode::SpdmErrorVendorDefined => 0xff,
            SpdmErrorCode::Unknown(x) => x,
        }
    }

    /// The value that a byte stands for.
    pub fn from_u8(x: u8) -> (v: Self)
        ensures
            v == Self::spec_from_u8(x),
            v.spec_get_u8() == x,
    {
        if x == 0x01 {
            SpdmErrorCode::SpdmErrorInvalidRequest
        } else if x == 0x03 {
            SpdmErrorCode::SpdmErrorBusy
        } else if x == 0x04 {
            SpdmErrorCode::SpdmErrorUnexpectedRequest
        } else if x == 0x05 {
            SpdmErrorCode::SpdmErrorUnspecified
        } else if x == 0x06 {
            SpdmErrorCode::SpdmErrorDecryptError
        } else if x == 0x07 {
            SpdmErrorCode::SpdmErrorUnsupportedRequest
        } else if x == 0x08 {
            SpdmErrorCode::SpdmErrorRequestInFlight
        } else if x == 0x09 {
            SpdmErrorCode::SpdmErrorInvalidResponseCode
        } else if x == 0x0a {
            SpdmErrorCode::SpdmErrorSessionLimitExceeded
        } else if x == 0x0b {
            SpdmErrorCode::SpdmErrorSessionRequired
        } else if x == 0x0c {
            SpdmErrorCode::SpdmErrorResetRequired
        } else if x == 0x0d {
            SpdmErrorCode::SpdmErrorResponseTooLarge
        } else if x == 0x0e {
            SpdmErrorCode::SpdmErrorRequestTooLarge
        } else if x == 0x0f {
            SpdmErrorCode::SpdmErrorLargeResponse
        } else if x == 0x10 {
            SpdmErrorCode::SpdmErrorMessageLost
        } else if x == 0x41 {
            SpdmErrorCode::SpdmErrorVersionMismatch
        } else if x == 0x42 {
            SpdmErrorCode::SpdmErrorResponseNotReady
        } else if x == 0x43 {
            SpdmErrorCode::SpdmErrorRequestResynch
        } else if x == 0xff {
            SpdmErrorCode::SpdmErrorVendorDefined
        } else {
            SpdmErrorCode::Unknown(x)
        }
    }
}

impl View for SpdmErrorCode {
    type V = SpdmErrorCode;

    open spec fn view(&self) -> SpdmErrorCode {
        *self
    }
}

impl Codec for SpdmErrorCode {
    open spec fn spec_encode(v: Self) -> Seq<u8> {
        seq![v.spec_get_u8()]
    }

    open spec fn spec_read(bytes: Seq<u8>) -> Option<(Self, nat)> {
        if bytes.len() >= 1 {
            Some((Self::spec_from_u8(bytes[0]), 1nat))
        } else {
            None
        }
    }

    open spec fn spec_canonical(v: Self) -> bool {
        Self::spec_from_u8(v.spec_get_u8()) == v
    }

    fn encode(&self, bytes: &mut Writer) -> (out: Option<usize>) {
        self.get_u8().encode(bytes)
    }

    fn read(r: &mut Reader) -> (out: Option<Self>) {
        match u8::read(r) {
            Some(x) => Some(Self::from_u8(x)),
            None => None,
        }
    }

    proof fn lemma_read_encode(bytes: Seq<u8>) {
        if bytes.len() >= 1 {
            assert(seq![bytes[0]] =~= bytes.subrange(0, 1));
        }
    }

    proof fn lemma_encode_read(v: Self, rest: Seq<u8>) {
    }
}

/// The first two bytes of every SPDM message.
#[derive(Clone, Copy, Debug, PartialEq, Eq, Structural)]
pub struct SpdmMessageHeader {
    /// Protocol version the message is written in.
    pub version: SpdmVersion,
    /// What the message asks for or answers.
    pub request_response_code: SpdmRequestResponseCode,
}

impl View for SpdmMessageHeader {
    type V = SpdmMessageHeader;

    open spec fn view(&self) -> SpdmMessageHeader {
        *self
    }
}

impl Codec for SpdmMessageHeader {
    open spec fn spec_encode(v: Self) -> Seq<u8> {
        seq![v.version.spec_get_u8(), v.request_response_code.spec_get_u8()]
    }

    open spec fn spec_read(bytes: Seq<u8>) -> Option<(Self, nat)> {
        if bytes.len() >= 2 {
            Some(
                (
                    SpdmMessageHeader {
                        version: SpdmVersion::spec_from_u8(bytes[0]),
                        request_response_code: SpdmRequestResponseCode::spec_from_u8(bytes[1]),
                    },
                    2nat,
                ),
            )
        } else {
            None
        }
    }

    open spec fn spec_canonical(v: Self) -> bool {
        SpdmVersion::spec_canonical(v.version) && SpdmRequestResponseCode::spec_canonical(
            v.request_response_code,
        )
    }

    fn encode(&self, bytes: &mut Writer) -> (out: Option<usize>) {
        let raw: [u8; 2] = [self.version.get_u8(), self.request_response_code.get_u8()];
        assert(raw@ =~= Self::spec_encode(*self));
        bytes.extend_from_slice(&raw)
    }

    fn read(r: &mut Reader) -> (out: Option<Self>) {
        match r.take(2) {
            Some(s) => Some(
                SpdmMessageHeader {
                    version: SpdmVersion::from_u8(s[0]),
                    request_response_code: SpdmRequestResponseCode::from_u8(s[1]),
                },
            ),
            None => None,
        }
    }

    proof fn lemma_read_encode(bytes: Seq<u8>) {
        if bytes.len() >= 2 {
            assert(seq![bytes[0], bytes[1]] =~= bytes.subrange(0, 2));
        }
    }

    proof fn lemma_encode_read(v: Self, rest: Seq<u8>) {
    }
}

} // verus!
