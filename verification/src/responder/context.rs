//! The responder's dispatcher.
//!
//! A request is routed in two steps. Its code and the state of the connection
//! or session select a handler, or an SPDM ERROR where no handler may run.
//! Then the handler's preconditions are tested: the capabilities it needs,
//! how far the connection must have come, and the version of the message.
//! Only a request that passes both is handed to its handler.

use crate::codec::{Codec, Reader, Writer};
use crate::common::session::{spec_find_session, SpdmSessionState, SpdmSessionView};
use crate::common::{
    SpdmConfigInfo, SpdmConnectionState, SpdmContext, SpdmProvisionInfo, SpdmRuntimeInfo, ST1,
};
use crate::error::{SpdmResult, SpdmStatus};
use crate::message::error::spec_error_message;
use crate::message::{SpdmErrorCode, SpdmMessageHeader, SpdmRequestResponseCode};
use crate::protocol::{SpdmRequestCapabilityFlags, SpdmResponseCapabilityFlags, SpdmVersion};
use vstd::arithmetic::power2::{lemma2_to64, lemma_pow2_strictly_increases, lemma_pow2_unfold, pow2};
use vstd::prelude::*;

verus! {

/// The responder's view of one connection.
pub struct ResponderContext {
    /// The state of the endpoint.
    pub common: SpdmContext,
}

/// What serves a request.
#[derive(Clone, Copy, Debug, PartialEq, Eq, Structural)]
pub enum SpdmHandler {
    /// Serves GET_VERSION.
    Version,
    /// Serves GET_CAPABILITIES.
    Capability,
    /// Serves NEGOTIATE_ALGORITHMS.
    Algorithm,
    /// Serves GET_DIGESTS.
    Digest,
    /// Serves GET_CERTIFICATE.
    Certificate,
    /// Serves CHALLENGE.
    Challenge,
    /// Serves GET_MEASUREMENTS.
    Measurement,
    /// Serves KEY_EXCHANGE.
    KeyExchange,
    /// Serves PSK_EXCHANGE.
    PskExchange,
    /// Serves FINISH.
    Finish,
    /// Serves PSK_FINISH.
    PskFinish,
    /// Serves HEARTBEAT.
    Heartbeat,
    /// Serves KEY_UPDATE.
    KeyUpdate,
    /// Serves END_SESSION.
    EndSession,
    /// Serves VENDOR_DEFINED_REQUEST.
    VendorDefinedRequest,
    /// Serves GET_ENCAPSULATED_REQUEST.
    GetEncapsulatedRequest,
    /// Serves DELIVER_ENCAPSULATED_RESPONSE.
    DeliverEncapsulatedResponse,
}

/// What the dispatcher decided to do with a request.
#[derive(Clone, Copy, Debug, PartialEq, Eq, Structural)]
pub enum SpdmDispatch {
    /// The handler runs, on the session named if one is.
    Handle { handler: SpdmHandler, session_id: Option<u32> },
    /// No handler runs; the peer gets an SPDM ERROR with this code.
    Error { error_code: SpdmErrorCode },
}

impl SpdmHandler {
    /// How far the connection must have come for the handler to run.
    ///
    /// The negotiation goes step by step, and what presents the endpoint or
    /// sets a session up needs the algorithms negotiated. What completes,
    /// keeps or ends a session, and the encapsulated flow within one, is
    /// held to the session alone: a session outlives a negotiation that
    /// starts over.
    pub open spec fn spec_required_state(&self) -> SpdmConnectionState {
        match *self {
            SpdmHandler::Capability => SpdmConnectionState::SpdmConnectionAfterVersion,
            SpdmHandler::Algorithm => SpdmConnectionState::SpdmConnectionAfterCapabilities,
            SpdmHandler::Digest
            | SpdmHandler::Certificate
            | SpdmHandler::Challenge
            | SpdmHandler::Measurement
            | SpdmHandler::KeyExchange
            | SpdmHandler::PskExchange
            | SpdmHandler::VendorDefinedRequest => SpdmConnectionState::SpdmConnectionNegotiated,
            SpdmHandler::Version
            | SpdmHandler::Finish
            | SpdmHandler::PskFinish
            | SpdmHandler::Heartbeat
            | SpdmHandler::KeyUpdate
            | SpdmHandler::EndSession
            | SpdmHandler::GetEncapsulatedRequest
            | SpdmHandler::DeliverEncapsulatedResponse => {
                SpdmConnectionState::SpdmConnectionNotStarted
            },
        }
    }

    /// How far the connection must have come for the handler to run.
    pub fn required_state(&self) -> (s: SpdmConnectionState)
        ensures
            s == self.spec_required_state(),
    {
        match *self {
            SpdmHandler::Capability => SpdmConnectionState::SpdmConnectionAfterVersion,
            SpdmHandler::Algorithm => SpdmConnectionState::SpdmConnectionAfterCapabilities,
            SpdmHandler::Digest
            | SpdmHandler::Certificate
            | SpdmHandler::Challenge
            | SpdmHandler::Measurement
            | SpdmHandler::KeyExchange
            | SpdmHandler::PskExchange
            | SpdmHandler::VendorDefinedRequest => SpdmConnectionState::SpdmConnectionNegotiated,
            SpdmHandler::Version
            | SpdmHandler::Finish
            | SpdmHandler::PskFinish
            | SpdmHandler::Heartbeat
            | SpdmHandler::KeyUpdate
            | SpdmHandler::EndSession
            | SpdmHandler::GetEncapsulatedRequest
            | SpdmHandler::DeliverEncapsulatedResponse => {
                SpdmConnectionState::SpdmConnectionNotStarted
            },
        }
    }
}

/// Whether the capabilities that the handler needs were advertised, each by
/// the endpoint that must have it.
pub open spec fn spec_capability_met(c: &SpdmContext, handler: SpdmHandler) -> bool {
    let rsp = c.negotiate_info.rsp_capabilities_sel;
    match handler {
        SpdmHandler::Digest | SpdmHandler::Certificate => rsp.spec_contains(
            SpdmResponseCapabilityFlags::CERT_CAP,
        ),
        SpdmHandler::Challenge => rsp.spec_contains(SpdmResponseCapabilityFlags::CHAL_CAP),
        SpdmHandler::Measurement => rsp.spec_intersects(SpdmResponseCapabilityFlags::MEAS_CAP),
        SpdmHandler::KeyExchange => rsp.spec_contains(SpdmResponseCapabilityFlags::KEY_EX_CAP),
        SpdmHandler::PskExchange => rsp.spec_intersects(SpdmResponseCapabilityFlags::PSK_CAP),
        SpdmHandler::GetEncapsulatedRequest
        | SpdmHandler::DeliverEncapsulatedResponse => c.negotiate_info.spec_encap_supported(),
        _ => true,
    }
}

/// Whether the handler's preconditions other than the connection state and
/// the message's version hold: its capabilities and, for a delivered
/// encapsulated response, a negotiated version of at least 1.1 and a buffer
/// that awaits the peer's certificate chain.
pub open spec fn spec_precondition_met(c: &SpdmContext, handler: SpdmHandler) -> bool {
    spec_capability_met(c, handler) && (handler == SpdmHandler::DeliverEncapsulatedResponse ==> {
        &&& c.negotiate_info.spdm_version_sel.spec_at_least_11()
        &&& c.peer_info.peer_cert_chain_temp is Some
    })
}

/// Whether a message of the given version may be served by the handler:
/// GET_VERSION is always written in version 1.0, GET_CAPABILITIES in any
/// version the responder offers, and every other request in the version that
/// was selected.
pub open spec fn spec_version_met(c: &SpdmContext, handler: SpdmHandler, version: SpdmVersion)
    -> bool {
    match handler {
        SpdmHandler::Version => version == SpdmVersion::SpdmVersion10,
        SpdmHandler::Capability => c.config_info.spec_offers_version(version),
        _ => version == c.negotiate_info.spdm_version_sel,
    }
}

/// The SPDM ERROR that answers a request whose handler may not run, or `None`
/// when it may. The preconditions are tested in this order: what the handler
/// needs (`UnsupportedRequest`), how far the connection has come
/// (`UnexpectedRequest`), the version of the message (`VersionMismatch`).
pub open spec fn spec_check_request(c: &SpdmContext, handler: SpdmHandler, version: SpdmVersion)
    -> Option<SpdmErrorCode> {
    if !spec_precondition_met(c, handler) {
        Some(SpdmErrorCode::SpdmErrorUnsupportedRequest)
    } else if !c.runtime_info.connection_state.spec_at_least(handler.spec_required_state()) {
        Some(SpdmErrorCode::SpdmErrorUnexpectedRequest)
    } else if !spec_version_met(c, handler, version) {
        Some(SpdmErrorCode::SpdmErrorVersionMismatch)
    } else {
        None
    }
}

/// The decision on a request that was routed to a handler: the handler runs
/// when its preconditions hold, else the peer gets the SPDM ERROR that names
/// the first one that does not.
pub open spec fn spec_gate(
    c: &SpdmContext,
    handler: SpdmHandler,
    version: SpdmVersion,
    session_id: Option<u32>,
) -> SpdmDispatch {
    match spec_check_request(c, handler, version) {
        Some(error_code) => SpdmDispatch::Error { error_code },
        None => SpdmDispatch::Handle { handler, session_id },
    }
}

/// The requests that a session in its handshake refuses as unexpected.
pub open spec fn spec_forbidden_in_handshake(code: SpdmRequestResponseCode) -> bool {
    match code {
        SpdmRequestResponseCode::SpdmRequestGetVersion
        | SpdmRequestResponseCode::SpdmRequestGetCapabilities
        | SpdmRequestResponseCode::SpdmRequestNegotiateAlgorithms
        | SpdmRequestResponseCode::SpdmRequestGetDigests
        | SpdmRequestResponseCode::SpdmRequestGetCertificate
        | SpdmRequestResponseCode::SpdmRequestChallenge
        | SpdmRequestResponseCode::SpdmRequestGetMeasurements
        | SpdmRequestResponseCode::SpdmRequestKeyExchange
        | SpdmRequestResponseCode::SpdmRequestPskExchange
        | SpdmRequestResponseCode::SpdmRequestHeartbeat
        | SpdmRequestResponseCode::SpdmRequestKeyUpdate
        | SpdmRequestResponseCode::SpdmRequestEndSession => true,
        _ => false,
    }
}

/// The requests that an established session refuses as unexpected.
pub open spec fn spec_forbidden_when_established(code: SpdmRequestResponseCode) -> bool {
    match code {
        SpdmRequestResponseCode::SpdmRequestGetVersion
        | SpdmRequestResponseCode::SpdmRequestGetCapabilities
        | SpdmRequestResponseCode::SpdmRequestNegotiateAlgorithms
        | SpdmRequestResponseCode::SpdmRequestChallenge
        | SpdmRequestResponseCode::SpdmRequestKeyExchange
        | SpdmRequestResponseCode::SpdmRequestPskExchange
        | SpdmRequestResponseCode::SpdmRequestFinish
        | SpdmRequestResponseCode::SpdmRequestPskFinish
        | SpdmRequestResponseCode::SpdmRequestGetEncapsulatedRequest
        | SpdmRequestResponseCode::SpdmRequestDeliverEncapsulatedResponse => true,
        _ => false,
    }
}

/// The decision on a secured request with the given header that arrived in
/// a session whose handshake is not finished. A responder that does not run
/// mutual authentication has no handler for the encapsulated flow and gives
/// no answer to it, nor is a code answered that is no request
/// (`UnsupportedCap`).
pub open spec fn spec_route_handshaking(c: &SpdmContext, session_id: u32, h: SpdmMessageHeader)
    -> Result<SpdmDispatch, SpdmStatus> {
    let code = h.request_response_code;
    if code == SpdmRequestResponseCode::SpdmRequestGetEncapsulatedRequest {
        if c.config_info.mut_auth {
            Ok(spec_gate(c, SpdmHandler::GetEncapsulatedRequest, h.version, Some(session_id)))
        } else {
            Err(SpdmStatus::UnsupportedCap)
        }
    } else if code == SpdmRequestResponseCode::SpdmRequestDeliverEncapsulatedResponse {
        if c.config_info.mut_auth {
            Ok(
                spec_gate(
                    c,
                    SpdmHandler::DeliverEncapsulatedResponse,
                    h.version,
                    Some(session_id),
                ),
            )
        } else {
            Err(SpdmStatus::UnsupportedCap)
        }
    } else if code == SpdmRequestResponseCode::SpdmRequestFinish {
        if c.negotiate_info.spec_handshake_in_the_clear() {
            Ok(SpdmDispatch::Error { error_code: SpdmErrorCode::SpdmErrorUnsupportedRequest })
        } else {
            Ok(spec_gate(c, SpdmHandler::Finish, h.version, Some(session_id)))
        }
    } else if code == SpdmRequestResponseCode::SpdmRequestPskFinish {
        Ok(spec_gate(c, SpdmHandler::PskFinish, h.version, Some(session_id)))
    } else if code == SpdmRequestResponseCode::SpdmRequestVendorDefinedRequest {
        Ok(spec_gate(c, SpdmHandler::VendorDefinedRequest, h.version, Some(session_id)))
    } else if spec_forbidden_in_handshake(code) {
        Ok(SpdmDispatch::Error { error_code: SpdmErrorCode::SpdmErrorUnexpectedRequest })
    } else if code == SpdmRequestResponseCode::SpdmRequestResponseIfReady {
        Ok(SpdmDispatch::Error { error_code: SpdmErrorCode::SpdmErrorUnsupportedRequest })
    } else {
        Err(SpdmStatus::UnsupportedCap)
    }
}

/// The decision on a secured request with the given header that arrived in
/// an established session. Every request of the handshake, the two of the
/// encapsulated flow among them, is answered with `UnexpectedRequest`. A
/// code that is no request is not answered (`UnsupportedCap`).
pub open spec fn spec_route_established(c: &SpdmContext, session_id: u32, h: SpdmMessageHeader)
    -> Result<SpdmDispatch, SpdmStatus> {
    let code = h.request_response_code;
    let sid = Some(session_id);
    if code == SpdmRequestResponseCode::SpdmRequestGetDigests {
        Ok(spec_gate(c, SpdmHandler::Digest, h.version, sid))
    } else if code == SpdmRequestResponseCode::SpdmRequestGetCertificate {
        Ok(spec_gate(c, SpdmHandler::Certificate, h.version, sid))
    } else if code == SpdmRequestResponseCode::SpdmRequestGetMeasurements {
        Ok(spec_gate(c, SpdmHandler::Measurement, h.version, sid))
    } else if code == SpdmRequestResponseCode::SpdmRequestHeartbeat {
        Ok(spec_gate(c, SpdmHandler::Heartbeat, h.version, sid))
    } else if code == SpdmRequestResponseCode::SpdmRequestKeyUpdate {
        Ok(spec_gate(c, SpdmHandler::KeyUpdate, h.version, sid))
    } else if code == SpdmRequestResponseCode::SpdmRequestEndSession {
        Ok(spec_gate(c, SpdmHandler::EndSession, h.version, sid))
    } else if code == SpdmRequestResponseCode::SpdmRequestVendorDefinedRequest {
        Ok(spec_gate(c, SpdmHandler::VendorDefinedRequest, h.version, sid))
    } else if spec_forbidden_when_established(code) {
        Ok(SpdmDispatch::Error { error_code: SpdmErrorCode::SpdmErrorUnexpectedRequest })
    } else if code == SpdmRequestResponseCode::SpdmRequestResponseIfReady {
        Ok(SpdmDispatch::Error { error_code: SpdmErrorCode::SpdmErrorUnsupportedRequest })
    } else {
        Err(SpdmStatus::UnsupportedCap)
    }
}

/// The decision on the secured request `bytes` that arrived in the session
/// `session_id`. A session that does not exist, has not started or is in an
/// unknown state serves nothing, and neither does a request too short for a
/// header: `UnsupportedCap`, and the peer gets no answer.
pub open spec fn spec_dispatch_secured_message(c: &SpdmContext, session_id: u32, bytes: Seq<u8>)
    -> Result<SpdmDispatch, SpdmStatus> {
    match c.spec_session_state(session_id) {
        Some(SpdmSessionState::SpdmSessionHandshaking) => match SpdmMessageHeader::spec_read(
            bytes,
        ) {
            Some((h, _)) => spec_route_handshaking(c, session_id, h),
            None => Err(SpdmStatus::UnsupportedCap),
        },
        Some(SpdmSessionState::SpdmSessionEstablished) => match SpdmMessageHeader::spec_read(
            bytes,
        ) {
            Some((h, _)) => spec_route_established(c, session_id, h),
            None => Err(SpdmStatus::UnsupportedCap),
        },
        _ => Err(SpdmStatus::UnsupportedCap),
    }
}

/// The decision on a request with the given header that arrived in the
/// clear.
pub open spec fn spec_route_clear(c: &SpdmContext, h: SpdmMessageHeader) -> SpdmDispatch {
    let code = h.request_response_code;
    if code == SpdmRequestResponseCode::SpdmRequestGetVersion {
        spec_gate(c, SpdmHandler::Version, h.version, None)
    } else if code == SpdmRequestResponseCode::SpdmRequestGetCapabilities {
        spec_gate(c, SpdmHandler::Capability, h.version, None)
    } else if code == SpdmRequestResponseCode::SpdmRequestNegotiateAlgorithms {
        spec_gate(c, SpdmHandler::Algorithm, h.version, None)
    } else if code == SpdmRequestResponseCode::SpdmRequestGetDigests {
        spec_gate(c, SpdmHandler::Digest, h.version, None)
    } else if code == SpdmRequestResponseCode::SpdmRequestGetCertificate {
        spec_gate(c, SpdmHandler::Certificate, h.version, None)
    } else if code == SpdmRequestResponseCode::SpdmRequestChallenge {
        spec_gate(c, SpdmHandler::Challenge, h.version, None)
    } else if code == SpdmRequestResponseCode::SpdmRequestGetMeasurements {
        spec_gate(c, SpdmHandler::Measurement, h.version, None)
    } else if code == SpdmRequestResponseCode::SpdmRequestKeyExchange {
        spec_gate(c, SpdmHandler::KeyExchange, h.version, None)
    } else if code == SpdmRequestResponseCode::SpdmRequestPskExchange {
        spec_gate(c, SpdmHandler::PskExchange, h.version, None)
    } else if code == SpdmRequestResponseCode::SpdmRequestVendorDefinedRequest {
        spec_gate(c, SpdmHandler::VendorDefinedRequest, h.version, None)
    } else if code == SpdmRequestResponseCode::SpdmRequestFinish {
        match spec_finish_in_the_clear(c) {
            Some(session_id) => spec_gate(c, SpdmHandler::Finish, h.version, Some(session_id)),
            None => SpdmDispatch::Error { error_code: SpdmErrorCode::SpdmErrorUnexpectedRequest },
        }
    } else if code == SpdmRequestResponseCode::SpdmRequestPskFinish || code
        == SpdmRequestResponseCode::SpdmRequestHeartbeat || code
        == SpdmRequestResponseCode::SpdmRequestKeyUpdate || code
        == SpdmRequestResponseCode::SpdmRequestEndSession {
        SpdmDispatch::Error { error_code: SpdmErrorCode::SpdmErrorUnexpectedRequest }
    } else {
        SpdmDispatch::Error { error_code: SpdmErrorCode::SpdmErrorUnsupportedRequest }
    }
}

/// The session that a FINISH in the clear completes: both endpoints
/// advertised the handshake in the clear, a last session is recorded, and
/// that session is in its handshake. `None` when any of these fails.
pub open spec fn spec_finish_in_the_clear(c: &SpdmContext) -> Option<u32> {
    if c.negotiate_info.spec_handshake_in_the_clear() {
        match c.runtime_info.last_session_id {
            Some(session_id) => if c.spec_session_state(session_id) == Some(
                SpdmSessionState::SpdmSessionHandshaking,
            ) {
                Some(session_id)
            } else {
                None
            },
            None => None,
        }
    } else {
        None
    }
}

/// The decision on the request `bytes` that arrived in the clear. A request
/// too short for a header is not answered: `UnsupportedCap`.
pub open spec fn spec_dispatch_message(c: &SpdmContext, bytes: Seq<u8>) -> Result<
    SpdmDispatch,
    SpdmStatus,
> {
    match SpdmMessageHeader::spec_read(bytes) {
        Some((h, _)) => Ok(spec_route_clear(c, h)),
        None => Err(SpdmStatus::UnsupportedCap),
    }
}

/// What a received frame is, once the transport has unwrapped it.
#[derive(Clone, Copy, Debug, PartialEq, Eq, Structural)]
pub enum SpdmReceived {
    /// A request in the clear: it goes to `dispatch_message`.
    Clear,
    /// A secured message of the session named: it is to be decrypted and
    /// authenticated with that session's keys.
    Secured { session_id: u32 },
}

/// What a received frame is. A secured frame begins with its session id in
/// four bytes, least significant first; it is accepted only if that session
/// exists and is in its handshake or established. `None` stands for a frame
/// that is surfaced to the caller as it came.
pub open spec fn spec_process_message(c: &SpdmContext, bytes: Seq<u8>, secured_message: bool)
    -> Option<SpdmReceived> {
    if !secured_message {
        Some(SpdmReceived::Clear)
    } else {
        match u32::spec_read(bytes) {
            Some((session_id, _)) => match c.session.spec_session(session_id) {
                Some(s) => if s.spec_accepts_secured() {
                    Some(SpdmReceived::Secured { session_id })
                } else {
                    None
                },
                None => None,
            },
            None => None,
        }
    }
}

/// The error that replaces a response on its way out, if one does: the
/// response is larger than the transfer size the requester named
/// (`ResponseTooLarge`), or it is application data without a session
/// (`SessionRequired`).
pub open spec fn spec_send_override(
    c: &SpdmContext,
    session_id: Option<u32>,
    len: nat,
    is_app_message: bool,
) -> Option<SpdmErrorCode> {
    if c.negotiate_info.req_data_transfer_size_sel != 0 && len
        > c.negotiate_info.req_data_transfer_size_sel {
        Some(SpdmErrorCode::SpdmErrorResponseTooLarge)
    } else if is_app_message && session_id is None {
        Some(SpdmErrorCode::SpdmErrorSessionRequired)
    } else {
        None
    }
}

/// The message that goes to the transport when `send_buffer` is to be sent:
/// `send_buffer` itself, or the SPDM ERROR that replaces it.
pub open spec fn spec_outgoing_message(
    c: &SpdmContext,
    session_id: Option<u32>,
    send_buffer: Seq<u8>,
    is_app_message: bool,
) -> Seq<u8> {
    match spec_send_override(c, session_id, send_buffer.len(), is_app_message) {
        Some(error_code) => spec_error_message(c.negotiate_info.spdm_version_sel, error_code, 0),
        None => send_buffer,
    }
}

/// The state of the connection after a response with the given code was
/// transmitted. VERSION, CAPABILITIES, ALGORITHMS and CHALLENGE_AUTH set it;
/// DIGESTS and CERTIFICATE raise it and never lower it; every other response
/// leaves it.
pub open spec fn spec_connection_state_after(
    state: SpdmConnectionState,
    code: SpdmRequestResponseCode,
) -> SpdmConnectionState {
    match code {
        SpdmRequestResponseCode::SpdmResponseVersion =>
            SpdmConnectionState::SpdmConnectionAfterVersion,
        SpdmRequestResponseCode::SpdmResponseCapabilities =>
            SpdmConnectionState::SpdmConnectionAfterCapabilities,
        SpdmRequestResponseCode::SpdmResponseAlgorithms =>
            SpdmConnectionState::SpdmConnectionNegotiated,
        SpdmRequestResponseCode::SpdmResponseDigests => if state.spec_get_u8()
            < SpdmConnectionState::SpdmConnectionAfterDigest.spec_get_u8() {
            SpdmConnectionState::SpdmConnectionAfterDigest
        } else {
            state
        },
        SpdmRequestResponseCode::SpdmResponseCertificate => if state.spec_get_u8()
            < SpdmConnectionState::SpdmConnectionAfterCertificate.spec_get_u8() {
            SpdmConnectionState::SpdmConnectionAfterCertificate
        } else {
            state
        },
        SpdmRequestResponseCode::SpdmResponseChallengeAuth =>
            SpdmConnectionState::SpdmConnectionAuthenticated,
        _ => state,
    }
}

/// The session that the transmission of a response with the given code
/// changes, as its slot and what the slot holds afterwards; `None` when no
/// session changes. FINISH_RSP in the clear establishes the last session,
/// FINISH_RSP and PSK_FINISH_RSP inside a session establish that session,
/// END_SESSION_ACK frees the session it was sent in. A session that does not
/// exist is not changed.
pub open spec fn spec_session_after_send(
    c: &SpdmContext,
    session_id: Option<u32>,
    code: SpdmRequestResponseCode,
) -> Option<(int, SpdmSessionView)> {
    let target = if code == SpdmRequestResponseCode::SpdmResponseFinishRsp && session_id is None {
        c.runtime_info.last_session_id
    } else if code == SpdmRequestResponseCode::SpdmResponseFinishRsp || code
        == SpdmRequestResponseCode::SpdmResponsePskFinishRsp || code
        == SpdmRequestResponseCode::SpdmResponseEndSessionAck {
        session_id
    } else {
        None
    };
    match target {
        Some(id) => match spec_find_session(c.session@, id) {
            Some(i) => Some(
                (
                    i,
                    if code == SpdmRequestResponseCode::SpdmResponseEndSessionAck {
                        SpdmSessionView::spec_free()
                    } else {
                        SpdmSessionView {
                            session_state: SpdmSessionState::SpdmSessionEstablished,
                            ..c.session@[i]
                        }
                    },
                ),
            ),
            None => None,
        },
        None => None,
    }
}

/// The session that awaits a FINISH in the clear, after a response with the
/// given code was transmitted: it is forgotten once its FINISH_RSP went out
/// in the clear.
pub open spec fn spec_last_session_id_after(
    c: &SpdmContext,
    session_id: Option<u32>,
    code: SpdmRequestResponseCode,
) -> Option<u32> {
    if code == SpdmRequestResponseCode::SpdmResponseFinishRsp && session_id is None
        && spec_session_after_send(c, session_id, code) is Some {
        None
    } else {
        c.runtime_info.last_session_id
    }
}

/// `after` is the context that `before` becomes when the message `sent` has
/// gone out, in the session `session_id` or in the clear. The second byte of
/// the message is its code. A message too short to have one changes nothing.
pub open spec fn spec_message_sent(
    before: &SpdmContext,
    after: &SpdmContext,
    session_id: Option<u32>,
    sent: Seq<u8>,
) -> bool {
    if sent.len() < 2 {
        *after == *before
    } else {
        let code = SpdmRequestResponseCode::spec_from_u8(sent[1]);
        &&& *after == (SpdmContext {
            runtime_info: SpdmRuntimeInfo {
                connection_state: spec_connection_state_after(
                    before.runtime_info.connection_state,
                    code,
                ),
                last_session_id: spec_last_session_id_after(before, session_id, code),
                ..before.runtime_info
            },
            session: after.session,
            ..*before
        })
        &&& match spec_session_after_send(before, session_id, code) {
            Some((i, v)) => after.session@ == before.session@.update(i, v) && (code
                == SpdmRequestResponseCode::SpdmResponseEndSessionAck
                ==> after.session.spec_slot_zeroed(i)),
            None => after.session == before.session,
        }
    }
}

/// Microseconds to wait for the next request: `ST1`, or two to the power of
/// one more than the requester's crypto timeout exponent when the request is
/// expected to need cryptography.
pub open spec fn spec_receive_timeout(c: &SpdmContext, crypto_request: bool) -> nat {
    if crypto_request {
        pow2((1 + c.negotiate_info.req_ct_exponent_sel) as nat)
    } else {
        ST1 as nat
    }
}

/// Whether transmitting a response with the given code takes the connection
/// back: the peer has started the negotiation over with GET_VERSION,
/// GET_CAPABILITIES or NEGOTIATE_ALGORITHMS after the connection had come
/// further than their answer puts it.
pub open spec fn spec_renegotiates(state: SpdmConnectionState, code: SpdmRequestResponseCode)
    -> bool {
    match code {
        SpdmRequestResponseCode::SpdmResponseVersion => state.spec_get_u8()
            > SpdmConnectionState::SpdmConnectionAfterVersion.spec_get_u8(),
        SpdmRequestResponseCode::SpdmResponseCapabilities => state.spec_get_u8()
            > SpdmConnectionState::SpdmConnectionAfterCapabilities.spec_get_u8(),
        SpdmRequestResponseCode::SpdmResponseAlgorithms => state.spec_get_u8()
            > SpdmConnectionState::SpdmConnectionNegotiated.spec_get_u8(),
        _ => false,
    }
}

/// The state of the connection never falls when a response is transmitted,
/// unless that response answers a restart of the negotiation; and then it
/// does fall.
pub proof fn lemma_connection_state_monotone(
    state: SpdmConnectionState,
    code: SpdmRequestResponseCode,
)
    ensures
        !spec_renegotiates(state, code) ==> spec_connection_state_after(state, code).spec_at_least(
            state,
        ),
        spec_renegotiates(state, code) ==> !spec_connection_state_after(state, code).spec_at_least(
            state,
        ),
{
}

/// Of two responses transmitted one after the other, the second leaves the
/// connection at least as far as the first left it, unless the second
/// answers a restart of the negotiation.
pub proof fn lemma_message_sent_monotone(
    c0: &SpdmContext,
    c1: &SpdmContext,
    c2: &SpdmContext,
    session_id1: Option<u32>,
    sent1: Seq<u8>,
    session_id2: Option<u32>,
    sent2: Seq<u8>,
)
    requires
        spec_message_sent(c0, c1, session_id1, sent1),
        spec_message_sent(c1, c2, session_id2, sent2),
        sent2.len() >= 2 ==> !spec_renegotiates(
            c1.runtime_info.connection_state,
            SpdmRequestResponseCode::spec_from_u8(sent2[1]),
        ),
    ensures
        c2.runtime_info.connection_state.spec_at_least(c1.runtime_info.connection_state),
{
}

/// Recording the same transmission twice is the same as recording it once:
/// the second time nothing changes but, at most, how the session table
/// stores what it holds.
pub proof fn lemma_message_sent_idempotent(
    c0: &SpdmContext,
    c1: &SpdmContext,
    c2: &SpdmContext,
    session_id: Option<u32>,
    sent: Seq<u8>,
)
    requires
        c0.wf(),
        spec_message_sent(c0, c1, session_id, sent),
        spec_message_sent(c1, c2, session_id, sent),
    ensures
        c2.session@ == c1.session@,
        *c2 == (SpdmContext { session: c2.session, ..*c1 }),
{
    if sent.len() >= 2 {
        let code = SpdmRequestResponseCode::spec_from_u8(sent[1]);
        match spec_session_after_send(c0, session_id, code) {
            Some((i, v)) => {
                assert(c1.session@ == c0.session@.update(i, v));
                let target = if code == SpdmRequestResponseCode::SpdmResponseFinishRsp
                    && session_id is None {
                    c0.runtime_info.last_session_id
                } else {
                    session_id
                };
                let id = target.unwrap();
                assert(spec_find_session(c0.session@, id) == Some(i));
                assert(crate::common::session::spec_is_first_match(c0.session@, id, i));
                if code == SpdmRequestResponseCode::SpdmResponseEndSessionAck {
                    // The session is gone: no slot of the table holds its id any more.
                    assert forall|j: int| 0 <= j < c1.session@.len()
                        implies c1.session@[j].session_id
                        != id by {
                        if j != i {
                            assert(c0.session@[j].session_id != id);
                        }
                    }
                    crate::common::session::lemma_no_match(c1.session@, id);
                    assert(c2.session@ =~= c1.session@);
                } else if session_id is None {
                    // The last session was forgotten with the first transmission.
                    assert(c1.runtime_info.last_session_id is None);
                    assert(c2.session@ =~= c1.session@);
                } else {
                    assert(crate::common::session::spec_is_first_match(c1.session@, id, i));
                    crate::common::session::lemma_first_match(c1.session@, id, i);
                    assert(c2.session@ =~= c1.session@);
                }
            },
            None => {},
        }
    }
}

/// A request whose handler needs a capability that was not advertised is
/// answered with `UnsupportedRequest`, whatever else holds of it.
pub proof fn lemma_capability_gating(
    c: &SpdmContext,
    handler: SpdmHandler,
    version: SpdmVersion,
    session_id: Option<u32>,
)
    requires
        !spec_capability_met(c, handler),
    ensures
        spec_gate(c, handler, version, session_id) == (SpdmDispatch::Error {
            error_code: SpdmErrorCode::SpdmErrorUnsupportedRequest,
        }),
{
}

/// Once the algorithms are negotiated, a request written in another version
/// than the selected one is answered with `VersionMismatch`, provided that
/// what its handler needs is there. GET_VERSION and GET_CAPABILITIES select
/// the version and are not held to it.
pub proof fn lemma_version_gating(
    c: &SpdmContext,
    handler: SpdmHandler,
    version: SpdmVersion,
    session_id: Option<u32>,
)
    requires
        c.runtime_info.connection_state.spec_at_least(
            SpdmConnectionState::SpdmConnectionNegotiated,
        ),
        handler != SpdmHandler::Version,
        handler != SpdmHandler::Capability,
        spec_precondition_met(c, handler),
        version != c.negotiate_info.spdm_version_sel,
    ensures
        spec_gate(c, handler, version, session_id) == (SpdmDispatch::Error {
            error_code: SpdmErrorCode::SpdmErrorVersionMismatch,
        }),
{
}

/// A delivered encapsulated response is refused with `UnsupportedRequest`
/// when the negotiated version is below 1.1 or either endpoint did not
/// advertise encapsulated requests.
pub proof fn lemma_encap_gating(c: &SpdmContext, version: SpdmVersion, session_id: Option<u32>)
    requires
        !c.negotiate_info.spdm_version_sel.spec_at_least_11()
            || !c.negotiate_info.req_capabilities_sel.spec_contains(
            SpdmRequestCapabilityFlags::ENCAP_CAP,
        ) || !c.negotiate_info.rsp_capabilities_sel.spec_contains(
            SpdmResponseCapabilityFlags::ENCAP_CAP,
        ),
    ensures
        spec_gate(c, SpdmHandler::DeliverEncapsulatedResponse, version, session_id) == (
        SpdmDispatch::Error { error_code: SpdmErrorCode::SpdmErrorUnsupportedRequest }),
{
}

/// Whatever arrives in the clear, a handler is selected only if the
/// capabilities it needs were advertised, the connection has come as far as
/// the handler asks, and the request is written in the version it must
/// have. FINISH asks nothing of the connection: it is selected only for the
/// session that a FINISH in the clear completes.
pub proof fn lemma_dispatch_message_sound(c: &SpdmContext, bytes: Seq<u8>)
    ensures
        match spec_dispatch_message(c, bytes) {
            Ok(SpdmDispatch::Handle { handler, session_id }) => {
                &&& spec_precondition_met(c, handler)
                &&& c.runtime_info.connection_state.spec_at_least(handler.spec_required_state())
                &&& SpdmMessageHeader::spec_read(bytes) is Some
                &&& spec_version_met(
                    c,
                    handler,
                    SpdmMessageHeader::spec_read(bytes).unwrap().0.version,
                )
                &&& session_id is Some ==> handler == SpdmHandler::Finish
                    && spec_finish_in_the_clear(c) == session_id
            },
            _ => true,
        },
{
}

/// Whatever arrives in a session, a handler is selected only if the session
/// is in its handshake or established, the capabilities the handler needs
/// were advertised, the connection has come as far as the handler asks, and
/// the request is written in the selected version. Of the connection only
/// GET_DIGESTS, GET_CERTIFICATE, GET_MEASUREMENTS and VENDOR_DEFINED_REQUEST
/// ask anything.
pub proof fn lemma_dispatch_secured_message_sound(c: &SpdmContext, session_id: u32, bytes: Seq<u8>)
    ensures
        match spec_dispatch_secured_message(c, session_id, bytes) {
            Ok(SpdmDispatch::Handle { handler, session_id: sid }) => {
                &&& sid == Some(session_id)
                &&& c.spec_session_state(session_id) == Some(
                    SpdmSessionState::SpdmSessionHandshaking,
                ) || c.spec_session_state(session_id) == Some(
                    SpdmSessionState::SpdmSessionEstablished,
                )
                &&& spec_precondition_met(c, handler)
                &&& c.runtime_info.connection_state.spec_at_least(handler.spec_required_state())
                &&& SpdmMessageHeader::spec_read(bytes) is Some
                &&& SpdmMessageHeader::spec_read(bytes).unwrap().0.version
                    == c.negotiate_info.spdm_version_sel
            },
            _ => true,
        },
{
}

/// In a session whose handshake is not finished, a request that belongs to
/// the negotiation, to authentication, to session setup or to an established
/// session never reaches its handler: it is answered with
/// `UnexpectedRequest`.
pub proof fn lemma_handshake_isolation(c: &SpdmContext, session_id: u32, bytes: Seq<u8>)
    requires
        c.spec_session_state(session_id) == Some(SpdmSessionState::SpdmSessionHandshaking),
        SpdmMessageHeader::spec_read(bytes) is Some,
        spec_forbidden_in_handshake(
            SpdmMessageHeader::spec_read(bytes).unwrap().0.request_response_code,
        ),
    ensures
        spec_dispatch_secured_message(c, session_id, bytes) == Ok::<SpdmDispatch, SpdmStatus>(
            SpdmDispatch::Error { error_code: SpdmErrorCode::SpdmErrorUnexpectedRequest },
        ),
{
}

/// In an established session, a request that belongs to the negotiation, to
/// the challenge, to session setup, to the handshake or to the encapsulated
/// flow never reaches its handler: it is answered with `UnexpectedRequest`.
pub proof fn lemma_established_isolation(c: &SpdmContext, session_id: u32, bytes: Seq<u8>)
    requires
        c.spec_session_state(session_id) == Some(SpdmSessionState::SpdmSessionEstablished),
        SpdmMessageHeader::spec_read(bytes) is Some,
        spec_forbidden_when_established(
            SpdmMessageHeader::spec_read(bytes).unwrap().0.request_response_code,
        ),
    ensures
        spec_dispatch_secured_message(c, session_id, bytes) == Ok::<SpdmDispatch, SpdmStatus>(
            SpdmDispatch::Error { error_code: SpdmErrorCode::SpdmErrorUnexpectedRequest },
        ),
{
}

/// An established session serves HEARTBEAT, KEY_UPDATE and END_SESSION
/// written in the selected version however far the connection has come: a
/// negotiation that starts over does not keep a session from being kept
/// alive, rekeyed or ended.
pub proof fn lemma_established_session_served(c: &SpdmContext, session_id: u32, bytes: Seq<u8>)
    requires
        c.spec_session_state(session_id) == Some(SpdmSessionState::SpdmSessionEstablished),
        SpdmMessageHeader::spec_read(bytes) is Some,
        SpdmMessageHeader::spec_read(bytes).unwrap().0.version == c.negotiate_info.spdm_version_sel,
    ensures
        ({
            let code = SpdmMessageHeader::spec_read(bytes).unwrap().0.request_response_code;
            let served = spec_dispatch_secured_message(c, session_id, bytes);
            let sid = Some(session_id);
            &&& code == SpdmRequestResponseCode::SpdmRequestHeartbeat ==> served == Ok::<
                SpdmDispatch,
                SpdmStatus,
            >(SpdmDispatch::Handle { handler: SpdmHandler::Heartbeat, session_id: sid })
            &&& code == SpdmRequestResponseCode::SpdmRequestKeyUpdate ==> served == Ok::<
                SpdmDispatch,
                SpdmStatus,
            >(SpdmDispatch::Handle { handler: SpdmHandler::KeyUpdate, session_id: sid })
            &&& code == SpdmRequestResponseCode::SpdmRequestEndSession ==> served == Ok::<
                SpdmDispatch,
                SpdmStatus,
            >(SpdmDispatch::Handle { handler: SpdmHandler::EndSession, session_id: sid })
        }),
{
}

/// A FINISH in the clear, written in the selected version, reaches its
/// handler for the last session whenever both endpoints advertised the
/// handshake in the clear and that session is in its handshake, however far
/// the connection has come.
pub proof fn lemma_finish_in_the_clear_served(c: &SpdmContext, session_id: u32, bytes: Seq<u8>)
    requires
        spec_finish_in_the_clear(c) == Some(session_id),
        SpdmMessageHeader::spec_read(bytes) is Some,
        SpdmMessageHeader::spec_read(bytes).unwrap().0.version == c.negotiate_info.spdm_version_sel,
        SpdmMessageHeader::spec_read(bytes).unwrap().0.request_response_code
            == SpdmRequestResponseCode::SpdmRequestFinish,
    ensures
        spec_dispatch_message(c, bytes) == Ok::<SpdmDispatch, SpdmStatus>(
            SpdmDispatch::Handle { handler: SpdmHandler::Finish, session_id: Some(session_id) },
        ),
{
}

/// In a session in its handshake, on a responder that runs mutual
/// authentication, the two requests of the encapsulated flow written in the
/// selected version reach their handlers whenever what each needs is there,
/// however far the connection has come.
pub proof fn lemma_encapsulated_flow_served(c: &SpdmContext, session_id: u32, bytes: Seq<u8>)
    requires
        c.spec_session_state(session_id) == Some(SpdmSessionState::SpdmSessionHandshaking),
        c.config_info.mut_auth,
        SpdmMessageHeader::spec_read(bytes) is Some,
        SpdmMessageHeader::spec_read(bytes).unwrap().0.version == c.negotiate_info.spdm_version_sel,
    ensures
        ({
            let code = SpdmMessageHeader::spec_read(bytes).unwrap().0.request_response_code;
            let served = spec_dispatch_secured_message(c, session_id, bytes);
            let sid = Some(session_id);
            &&& code == SpdmRequestResponseCode::SpdmRequestGetEncapsulatedRequest
                && spec_precondition_met(c, SpdmHandler::GetEncapsulatedRequest) ==> served == Ok::<
                SpdmDispatch,
                SpdmStatus,
            >(
                SpdmDispatch::Handle {
                    handler: SpdmHandler::GetEncapsulatedRequest,
                    session_id: sid,
                },
            )
            &&& code == SpdmRequestResponseCode::SpdmRequestDeliverEncapsulatedResponse
                && spec_precondition_met(c, SpdmHandler::DeliverEncapsulatedResponse) ==> served
                == Ok::<SpdmDispatch, SpdmStatus>(
                SpdmDispatch::Handle {
                    handler: SpdmHandler::DeliverEncapsulatedResponse,
                    session_id: sid,
                },
            )
        }),
{
}

impl ResponderContext {
    /// A responder on which nothing was exchanged.
    pub fn new(config_info: SpdmConfigInfo, provision_info: SpdmProvisionInfo) -> (r: Self)
        ensures
            r.common.config_info == config_info,
            r.common.provision_info == provision_info,
            crate::common::spec_is_fresh(&r.common, Seq::<u8>::empty()),
    {
        ResponderContext { common: SpdmContext::new(config_info, provision_info) }
    }

    /// Microseconds to wait for the next request, or `None` when the
    /// requester's crypto timeout exceeds what 64 bits hold.
    pub fn receive_timeout(&self, crypto_request: bool) -> (t: Option<u64>)
        ensures
            t is Some <==> spec_receive_timeout(&self.common, crypto_request) <= u64::MAX,
            t matches Some(x) ==> x == spec_receive_timeout(&self.common, crypto_request),
    {
        if !crypto_request {
            return Some(ST1);
        }
        let exponent = self.common.negotiate_info.req_ct_exponent_sel;
        proof {
            lemma2_to64();
        }
        if exponent >= 63 {
            proof {
                if exponent > 63 {
                    lemma_pow2_strictly_increases(64, (1 + exponent) as nat);
                }
            }
            return None;
        }
        let mut timeout: u64 = 1;
        let mut i: u8 = 0;
        while i <= exponent
            invariant
                0 <= i <= exponent + 1,
                exponent < 63,
                timeout == pow2(i as nat),
                pow2(64) == 0x10000000000000000,
            decreases exponent + 1 - i,
        {
            proof {
                lemma_pow2_unfold((i + 1) as nat);
                lemma_pow2_strictly_increases((i + 1) as nat, 64);
            }
            timeout = timeout * 2;
            i = i + 1;
        }
        Some(timeout)
    }

    /// Decides what a received frame is, once the transport has unwrapped it
    /// into `receive_buffer` and told whether it is secured.
    ///
    /// A frame in the clear goes to `dispatch_message`. A secured frame names
    /// its session in its first four bytes; it is accepted only if that
    /// session exists and is in its handshake or established. Any other
    /// frame is surfaced: the result is `Err` with the number of bytes of the
    /// frame, and the peer gets no answer. Nothing changes in the context.
    pub fn process_message(&self, receive_buffer: &[u8], secured_message: bool) -> (r: Result<
        SpdmReceived,
        usize,
    >)
        ensures
            r == match spec_process_message(&self.common, receive_buffer@, secured_message) {
                Some(received) => Ok::<SpdmReceived, usize>(received),
                None => Err(receive_buffer@.len() as usize),
            },
    {
        let used = receive_buffer.len();
        if !secured_message {
            return Ok(SpdmReceived::Clear);
        }
        let mut read = Reader::init(receive_buffer);
        let session_id = match u32::read(&mut read) {
            Some(session_id) => session_id,
            None => {
                return Err(used);
            },
        };
        match self.common.get_immutable_session_via_id(session_id) {
            Some(session) => match session.get_session_state() {
                SpdmSessionState::SpdmSessionHandshaking
                | SpdmSessionState::SpdmSessionEstablished => Ok(
                    SpdmReceived::Secured { session_id },
                ),
                _ => Err(used),
            },
            None => Err(used),
        }
    }

    /// Records that a secured message of the session `session_id` did not
    /// decrypt or authenticate: the session ends, its secrets are
    /// overwritten with zeroes and its slot becomes free. The frame is
    /// surfaced to the caller as it came; the peer gets no answer. Without
    /// such a session nothing changes and the result is `false`.
    pub fn secured_message_rejected(&mut self, session_id: u32) -> (ended: bool)
        ensures
            old(self).common.wf() ==> final(self).common.wf(),
            ended == (spec_find_session(old(self).common.session@, session_id) is Some),
            !ended ==> *final(self) == *old(self),
            ended ==> crate::common::spec_same_but_session(&old(self).common, &final(self).common)
                && final(self).common.session@ == old(self).common.session@.update(
                spec_find_session(old(self).common.session@, session_id).unwrap(),
                SpdmSessionView::spec_free(),
            ) && final(self).common.session.spec_slot_zeroed(
                spec_find_session(old(self).common.session@, session_id).unwrap(),
            ),
    {
        self.common.session.teardown_session(session_id).is_ok()
    }

    /// Decides what to do with the request `bytes` that arrived in the clear.
    ///
    /// Each request of the negotiation, of authentication and of session
    /// setup goes to its handler. FINISH goes to its handler only where both
    /// endpoints advertised the handshake in the clear and the last session
    /// is in its handshake; otherwise it is answered with
    /// `UnexpectedRequest`, as PSK_FINISH, HEARTBEAT, KEY_UPDATE and
    /// END_SESSION always are outside a session. Any other code is answered
    /// with `UnsupportedRequest`. Nothing changes in the context.
    pub fn dispatch_message(&self, bytes: &[u8]) -> (r: Result<SpdmDispatch, SpdmStatus>)
        ensures
            r == spec_dispatch_message(&self.common, bytes@),
    {
        let mut reader = Reader::init(bytes);
        let unexpected = SpdmDispatch::Error {
            error_code: SpdmErrorCode::SpdmErrorUnexpectedRequest,
        };
        let unsupported = SpdmDispatch::Error {
            error_code: SpdmErrorCode::SpdmErrorUnsupportedRequest,
        };
        match SpdmMessageHeader::read(&mut reader) {
            Some(message_header) => {
                let version = message_header.version;
                match message_header.request_response_code {
                    SpdmRequestResponseCode::SpdmRequestGetVersion => Ok(
                        self.gate(SpdmHandler::Version, version, None),
                    ),
                    SpdmRequestResponseCode::SpdmRequestGetCapabilities => Ok(
                        self.gate(SpdmHandler::Capability, version, None),
                    ),
                    SpdmRequestResponseCode::SpdmRequestNegotiateAlgorithms => Ok(
                        self.gate(SpdmHandler::Algorithm, version, None),
                    ),
                    SpdmRequestResponseCode::SpdmRequestGetDigests => Ok(
                        self.gate(SpdmHandler::Digest, version, None),
                    ),
                    SpdmRequestResponseCode::SpdmRequestGetCertificate => Ok(
                        self.gate(SpdmHandler::Certificate, version, None),
                    ),
                    SpdmRequestResponseCode::SpdmRequestChallenge => Ok(
                        self.gate(SpdmHandler::Challenge, version, None),
                    ),
                    SpdmRequestResponseCode::SpdmRequestGetMeasurements => Ok(
                        self.gate(SpdmHandler::Measurement, version, None),
                    ),
                    SpdmRequestResponseCode::SpdmRequestKeyExchange => Ok(
                        self.gate(SpdmHandler::KeyExchange, version, None),
                    ),
                    SpdmRequestResponseCode::SpdmRequestPskExchange => Ok(
                        self.gate(SpdmHandler::PskExchange, version, None),
                    ),
                    SpdmRequestResponseCode::SpdmRequestVendorDefinedRequest => Ok(
                        self.gate(SpdmHandler::VendorDefinedRequest, version, None),
                    ),
                    SpdmRequestResponseCode::SpdmRequestFinish => {
                        match self.finish_in_the_clear() {
                            Some(session_id) => Ok(
                                self.gate(SpdmHandler::Finish, version, Some(session_id)),
                            ),
                            None => Ok(unexpected),
                        }
                    },
                    SpdmRequestResponseCode::SpdmRequestPskFinish
                    | SpdmRequestResponseCode::SpdmRequestHeartbeat
                    | SpdmRequestResponseCode::SpdmRequestKeyUpdate
                    | SpdmRequestResponseCode::SpdmRequestEndSession => Ok(unexpected),
                    _ => Ok(unsupported),
                }
            },
            None => Err(SpdmStatus::UnsupportedCap),
        }
    }

    /// The session that a FINISH in the clear completes, if there is one.
    pub fn finish_in_the_clear(&self) -> (r: Option<u32>)
        ensures
            r == spec_finish_in_the_clear(&self.common),
    {
        if !self.common.negotiate_info.handshake_in_the_clear() {
            return None;
        }
        match self.common.runtime_info.get_last_session_id() {
            Some(session_id) => match self.common.get_immutable_session_via_id(session_id) {
                Some(session) => if session.get_session_state()
                    == SpdmSessionState::SpdmSessionHandshaking {
                    Some(session_id)
                } else {
                    None
                },
                None => None,
            },
            None => None,
        }
    }

    /// Puts into `writer`, in place of what it holds, the message that goes
    /// to the transport when the response `send_buffer` is to be sent in the
    /// session `session_id`, or in the clear when none is named.
    ///
    /// That is `send_buffer` itself, unless it is larger than the transfer
    /// size the requester named, or is application data without a session:
    /// then an SPDM ERROR takes its place. When the writer cannot hold the
    /// message, it is left empty and the result is `BufferFull`; otherwise
    /// the result is the length of the message. Nothing changes in the
    /// context: what the message does to it is told by `message_sent`, once
    /// the message has gone out.
    pub fn send_message(
        &self,
        session_id: Option<u32>,
        send_buffer: &[u8],
        is_app_message: bool,
        writer: &mut Writer,
    ) -> (r: SpdmResult<usize>)
        ensures
            final(writer).wf(),
            final(writer).capacity() == old(writer).capacity(),
            r is Ok <==> spec_outgoing_message(
                &self.common,
                session_id,
                send_buffer@,
                is_app_message,
            ).len() <= old(writer).capacity(),
            r matches Ok(n) ==> final(writer).written() == spec_outgoing_message(
                &self.common,
                session_id,
                send_buffer@,
                is_app_message,
            ) && n == final(writer).written().len(),
            r is Err ==> r == Err::<usize, _>(SpdmStatus::BufferFull) && final(writer).written()
                == Seq::<u8>::empty(),
    {
        let limit = self.common.negotiate_info.req_data_transfer_size_sel;
        let written = if limit != 0 && send_buffer.len() as u64 > limit as u64 {
            self.write_spdm_error(SpdmErrorCode::SpdmErrorResponseTooLarge, 0, writer)
        } else if is_app_message && session_id.is_none() {
            self.write_spdm_error(SpdmErrorCode::SpdmErrorSessionRequired, 0, writer)
        } else {
            writer.clear();
            let out = writer.extend_from_slice(send_buffer);
            assert(Seq::<u8>::empty() + send_buffer@ =~= send_buffer@);
            out
        };
        match written {
            Some(n) => Ok(n),
            None => Err(SpdmStatus::BufferFull),
        }
    }

    /// Records that the message `sent` has gone out, in the session
    /// `session_id` or in the clear, and advances the state as its code
    /// calls for.
    ///
    /// VERSION, CAPABILITIES, ALGORITHMS and CHALLENGE_AUTH set the state of
    /// the connection; DIGESTS and CERTIFICATE raise it, never lower it.
    /// FINISH_RSP in the clear establishes the last session and forgets it;
    /// FINISH_RSP and PSK_FINISH_RSP in a session establish that session;
    /// END_SESSION_ACK frees the session and overwrites its secrets with
    /// zeroes. Where the session meant does not exist, or the message has no
    /// second byte, nothing changes.
    pub fn message_sent(&mut self, session_id: Option<u32>, sent: &[u8])
        ensures
            spec_message_sent(&old(self).common, &final(self).common, session_id, sent@),
            old(self).common.wf() ==> final(self).common.wf(),
    {
        if sent.len() < 2 {
            return ;
        }
        let code = SpdmRequestResponseCode::from_u8(sent[1]);
        let state = self.common.runtime_info.get_connection_state();
        match code {
            SpdmRequestResponseCode::SpdmResponseVersion => {
                self.common.runtime_info.set_connection_state(
                    SpdmConnectionState::SpdmConnectionAfterVersion,
                );
            },
            SpdmRequestResponseCode::SpdmResponseCapabilities => {
                self.common.runtime_info.set_connection_state(
                    SpdmConnectionState::SpdmConnectionAfterCapabilities,
                );
            },
            SpdmRequestResponseCode::SpdmResponseAlgorithms => {
                self.common.runtime_info.set_connection_state(
                    SpdmConnectionState::SpdmConnectionNegotiated,
                );
            },
            SpdmRequestResponseCode::SpdmResponseDigests => {
                if state.get_u8() < SpdmConnectionState::SpdmConnectionAfterDigest.get_u8() {
                    self.common.runtime_info.set_connection_state(
                        SpdmConnectionState::SpdmConnectionAfterDigest,
                    );
                }
            },
            SpdmRequestResponseCode::SpdmResponseCertificate => {
                if state.get_u8() < SpdmConnectionState::SpdmConnectionAfterCertificate.get_u8() {
                    self.common.runtime_info.set_connection_state(
                        SpdmConnectionState::SpdmConnectionAfterCertificate,
                    );
                }
            },
            SpdmRequestResponseCode::SpdmResponseChallengeAuth => {
                self.common.runtime_info.set_connection_state(
                    SpdmConnectionState::SpdmConnectionAuthenticated,
                );
            },
            SpdmRequestResponseCode::SpdmResponseFinishRsp => {
                match session_id {
                    None => {
                        match self.common.runtime_info.get_last_session_id() {
                            Some(last) => {
                                let r = self.common.session.set_session_state(
                                    last,
                                    SpdmSessionState::SpdmSessionEstablished,
                                );
                                if r.is_ok() {
                                    self.common.runtime_info.set_last_session_id(None);
                                }
                            },
                            None => {},
                        }
                    },
                    Some(id) => {
                        let _ = self.common.session.set_session_state(
                            id,
                            SpdmSessionState::SpdmSessionEstablished,
                        );
                    },
                }
            },
            SpdmRequestResponseCode::SpdmResponsePskFinishRsp => {
                match session_id {
                    Some(id) => {
                        let _ = self.common.session.set_session_state(
                            id,
                            SpdmSessionState::SpdmSessionEstablished,
                        );
                    },
                    None => {},
                }
            },
            SpdmRequestResponseCode::SpdmResponseEndSessionAck => {
                match session_id {
                    Some(id) => {
                        let _ = self.common.session.teardown_session(id);
                    },
                    None => {},
                }
            },
            _ => {},
        }
    }

    /// Whether the capabilities that the handler needs were advertised.
    pub fn capability_met(&self, handler: SpdmHandler) -> (b: bool)
        ensures
            b == spec_capability_met(&self.common, handler),
    {
        let rsp = &self.common.negotiate_info.rsp_capabilities_sel;
        match handler {
            SpdmHandler::Digest | SpdmHandler::Certificate => rsp.contains(
                SpdmResponseCapabilityFlags::CERT_CAP,
            ),
            SpdmHandler::Challenge => rsp.contains(SpdmResponseCapabilityFlags::CHAL_CAP),
            SpdmHandler::Measurement => rsp.intersects(SpdmResponseCapabilityFlags::MEAS_CAP),
            SpdmHandler::KeyExchange => rsp.contains(SpdmResponseCapabilityFlags::KEY_EX_CAP),
            SpdmHandler::PskExchange => rsp.intersects(SpdmResponseCapabilityFlags::PSK_CAP),
            SpdmHandler::GetEncapsulatedRequest
            | SpdmHandler::DeliverEncapsulatedResponse =>
                self.common.negotiate_info.encap_supported(),
            _ => true,
        }
    }

    /// Tests the preconditions of a handler for a message of the given
    /// version. The result is the SPDM ERROR that answers the request, or
    /// `None` when the handler may run.
    pub fn check_request(&self, handler: SpdmHandler, version: SpdmVersion) -> (r: Option<
        SpdmErrorCode,
    >)
        ensures
            r == spec_check_request(&self.common, handler, version),
    {
        if !self.capability_met(handler) {
            return Some(SpdmErrorCode::SpdmErrorUnsupportedRequest);
        }
        if handler == SpdmHandler::DeliverEncapsulatedResponse {
            if !self.common.negotiate_info.spdm_version_sel.at_least_11()
                || self.common.peer_info.peer_cert_chain_temp.is_none() {
                return Some(SpdmErrorCode::SpdmErrorUnsupportedRequest);
            }
        }
        if !self.common.runtime_info.connection_state.at_least(handler.required_state()) {
            return Some(SpdmErrorCode::SpdmErrorUnexpectedRequest);
        }
        let version_met = match handler {
            SpdmHandler::Version => version == SpdmVersion::SpdmVersion10,
            SpdmHandler::Capability => self.common.config_info.offers_version(version),
            _ => version == self.common.negotiate_info.spdm_version_sel,
        };
        if !version_met {
            return Some(SpdmErrorCode::SpdmErrorVersionMismatch);
        }
        None
    }

    /// Decides on a request that was routed to a handler.
    fn gate(&self, handler: SpdmHandler, version: SpdmVersion, session_id: Option<u32>) -> (d:
        SpdmDispatch)
        ensures
            d == spec_gate(&self.common, handler, version, session_id),
    {
        match self.check_request(handler, version) {
            Some(error_code) => SpdmDispatch::Error { error_code },
            None => SpdmDispatch::Handle { handler, session_id },
        }
    }

    /// Decides what to do with the secured request `bytes` that arrived in
    /// the session `session_id`, after it was decrypted and authenticated.
    ///
    /// A session in its handshake serves FINISH, PSK_FINISH and
    /// VENDOR_DEFINED_REQUEST, and the two encapsulated-flow requests when
    /// the responder runs mutual authentication; where both endpoints sent
    /// the handshake in the clear, a secured FINISH is answered with
    /// `UnsupportedRequest`. An established session serves GET_DIGESTS,
    /// GET_CERTIFICATE, GET_MEASUREMENTS, HEARTBEAT, KEY_UPDATE, END_SESSION
    /// and VENDOR_DEFINED_REQUEST. A request that belongs to the other phase
    /// is answered with `UnexpectedRequest`, RESPOND_IF_READY with
    /// `UnsupportedRequest`. How far the connection has come matters only to
    /// the requests that an established session shares with the connection.
    /// Nothing changes in the context.
    ///
    /// No answer is given (`UnsupportedCap`) where the session does not
    /// exist or accepts no secured message, where the request is too short
    /// for a header or its code is no request, and to the encapsulated flow
    /// in a handshake where the responder does not run mutual
    /// authentication.
    pub fn dispatch_secured_message(&self, session_id: u32, bytes: &[u8]) -> (r: Result<
        SpdmDispatch,
        SpdmStatus,
    >)
        ensures
            r == spec_dispatch_secured_message(&self.common, session_id, bytes@),
    {
        let mut reader = Reader::init(bytes);
        let session_state = match self.common.get_immutable_session_via_id(session_id) {
            Some(session) => session.get_session_state(),
            None => {
                return Err(SpdmStatus::UnsupportedCap);
            },
        };
        let unexpected = SpdmDispatch::Error {
            error_code: SpdmErrorCode::SpdmErrorUnexpectedRequest,
        };
        let unsupported = SpdmDispatch::Error {
            error_code: SpdmErrorCode::SpdmErrorUnsupportedRequest,
        };
        let sid = Some(session_id);
        match session_state {
            SpdmSessionState::SpdmSessionHandshaking => {
                let in_clear_text = self.common.negotiate_info.handshake_in_the_clear();
                let mut_auth = self.common.config_info.mut_auth;
                match SpdmMessageHeader::read(&mut reader) {
                    Some(message_header) => {
                        let version = message_header.version;
                        match message_header.request_response_code {
                            SpdmRequestResponseCode::SpdmRequestGetEncapsulatedRequest => {
                                if mut_auth {
                                    Ok(
                                        self.gate(
                                            SpdmHandler::GetEncapsulatedRequest,
                                            version,
                                            sid,
                                        ),
                                    )
                                } else {
                                    Err(SpdmStatus::UnsupportedCap)
                                }
                            },
                            SpdmRequestResponseCode::SpdmRequestDeliverEncapsulatedResponse => {
                                if mut_auth {
                                    Ok(
                                        self.gate(
                                            SpdmHandler::DeliverEncapsulatedResponse,
                                            version,
                                            sid,
                                        ),
                                    )
                                } else {
                                    Err(SpdmStatus::UnsupportedCap)
                                }
                            },
                            SpdmRequestResponseCode::SpdmRequestFinish => {
                                if in_clear_text {
                                    Ok(unsupported)
                                } else {
                                    Ok(self.gate(SpdmHandler::Finish, version, sid))
                                }
                            },
                            SpdmRequestResponseCode::SpdmRequestPskFinish => Ok(
                                self.gate(SpdmHandler::PskFinish, version, sid),
                            ),
                            SpdmRequestResponseCode::SpdmRequestVendorDefinedRequest => Ok(
                                self.gate(SpdmHandler::VendorDefinedRequest, version, sid),
                            ),
                            SpdmRequestResponseCode::SpdmRequestGetVersion
                            | SpdmRequestResponseCode::SpdmRequestGetCapabilities
                            | SpdmRequestResponseCode::SpdmRequestNegotiateAlgorithms
                            | SpdmRequestResponseCode::SpdmRequestGetDigests
                            | SpdmRequestResponseCode::SpdmRequestGetCertificate
                            | SpdmRequestResponseCode::SpdmRequestChallenge
                            | SpdmRequestResponseCode::SpdmRequestGetMeasurements
                            | SpdmRequestResponseCode::SpdmRequestKeyExchange
                            | SpdmRequestResponseCode::SpdmRequestPskExchange
                            | SpdmRequestResponseCode::SpdmRequestHeartbeat
                            | SpdmRequestResponseCode::SpdmRequestKeyUpdate
                            | SpdmRequestResponseCode::SpdmRequestEndSession => Ok(unexpected),
                            SpdmRequestResponseCode::SpdmRequestResponseIfReady => Ok(unsupported),
                            _ => Err(SpdmStatus::UnsupportedCap),
                        }
                    },
                    None => Err(SpdmStatus::UnsupportedCap),
                }
            },
            SpdmSessionState::SpdmSessionEstablished => {
                match SpdmMessageHeader::read(&mut reader) {
                    Some(message_header) => {
                        let version = message_header.version;
                        match message_header.request_response_code {
                            SpdmRequestResponseCode::SpdmRequestGetDigests => Ok(
                                self.gate(SpdmHandler::Digest, version, sid),
                            ),
                            SpdmRequestResponseCode::SpdmRequestGetCertificate => Ok(
                                self.gate(SpdmHandler::Certificate, version, sid),
                            ),
                            SpdmRequestResponseCode::SpdmRequestGetMeasurements => Ok(
                                self.gate(SpdmHandler::Measurement, version, sid),
                            ),
                            SpdmRequestResponseCode::SpdmRequestHeartbeat => Ok(
                                self.gate(SpdmHandler::Heartbeat, version, sid),
                            ),
                            SpdmRequestResponseCode::SpdmRequestKeyUpdate => Ok(
                                self.gate(SpdmHandler::KeyUpdate, version, sid),
                            ),
                            SpdmRequestResponseCode::SpdmRequestEndSession => Ok(
                                self.gate(SpdmHandler::EndSession, version, sid),
                            ),
                            SpdmRequestResponseCode::SpdmRequestVendorDefinedRequest => Ok(
                                self.gate(SpdmHandler::VendorDefinedRequest, version, sid),
                            ),
                            SpdmRequestResponseCode::SpdmRequestGetVersion
                            | SpdmRequestResponseCode::SpdmRequestGetCapabilities
                            | SpdmRequestResponseCode::SpdmRequestNegotiateAlgorithms
                            | SpdmRequestResponseCode::SpdmRequestChallenge
                            | SpdmRequestResponseCode::SpdmRequestKeyExchange
                            | SpdmRequestResponseCode::SpdmRequestPskExchange
                            | SpdmRequestResponseCode::SpdmRequestFinish
                            | SpdmRequestResponseCode::SpdmRequestPskFinish
                            | SpdmRequestResponseCode::SpdmRequestGetEncapsulatedRequest
                            | SpdmRequestResponseCode::SpdmRequestDeliverEncapsulatedResponse => {
                                Ok(unexpected)
                            },
                            SpdmRequestResponseCode::SpdmRequestResponseIfReady => Ok(unsupported),
                            _ => Err(SpdmStatus::UnsupportedCap),
                        }
                    },
                    None => Err(SpdmStatus::UnsupportedCap),
                }
            },
            SpdmSessionState::SpdmSessionNotStarted => Err(SpdmStatus::UnsupportedCap),
            SpdmSessionState::Unknown(_) => Err(SpdmStatus::UnsupportedCap),
        }
    }
}

} // verus!
