//! The encapsulated request flow: during the handshake of a session the
//! responder asks the requester for the digests of its certificate chains
//! and then, portion by portion, for the chain in slot 0.

use crate::codec::{Codec, Reader, Writer};
use crate::common::{SpdmContext, SpdmEncapContext, SpdmPeerInfo};
use crate::config::{MAX_SPDM_CERT_CHAIN_BUFFER_SIZE, MAX_SPDM_CERT_PORTION_LEN};
use crate::message::encapsulated::{
    count_slots, spec_count_bits, spec_encapsulated_request, spec_encapsulated_response_ack,
    spec_get_certificate_request, spec_get_digests_request, write_encapsulated_response_ack,
    write_get_certificate_request, ENCAP_RESPONSE_ACK_PAYLOAD_TYPE_ABSENT,
    ENCAP_RESPONSE_ACK_PAYLOAD_TYPE_PRESENT,
};
use crate::message::{SpdmErrorCode, SpdmMessageHeader, SpdmRequestResponseCode};
use crate::protocol::{SpdmCertChainBuffer, SpdmRequestCapabilityFlags, SpdmVersion};
use crate::responder::context::{
    spec_capability_met, spec_precondition_met, ResponderContext, SpdmHandler,
};
use crate::responder::error_rsp::spec_answered;
use crate::responder::session_rsp::spec_plain_request_error;
use vstd::prelude::*;

verus! {

/// What a delivered encapsulated response carries, as plain values.
pub enum SpdmEncapResponseView {
    /// The digests of the requester's certificate chains.
    Digests,
    /// A portion of the requester's certificate chain, and whether it is the
    /// last one.
    Certificate { portion: Seq<u8>, last: bool },
}

/// What a delivered encapsulated response carries.
pub enum SpdmEncapResponse<'a> {
    /// The digests of the requester's certificate chains.
    Digests,
    /// A portion of the requester's certificate chain, and whether it is the
    /// last one.
    Certificate { portion: &'a [u8], last: bool },
}

impl<'a> View for SpdmEncapResponse<'a> {
    type V = SpdmEncapResponseView;

    open spec fn view(&self) -> SpdmEncapResponseView {
        match *self {
            SpdmEncapResponse::Digests => SpdmEncapResponseView::Digests,
            SpdmEncapResponse::Certificate { portion, last } => SpdmEncapResponseView::Certificate {
                portion: portion@,
                last,
            },
        }
    }
}

/// The bytes of the peer's certificate chain received so far; empty when
/// none is awaited.
pub open spec fn spec_peer_cert_chain_temp(c: &SpdmContext) -> Seq<u8> {
    match c.peer_info.peer_cert_chain_temp {
        Some(chain) => chain@,
        None => Seq::empty(),
    }
}

/// The SPDM ERROR that answers GET_ENCAPSULATED_REQUEST, or `None` when the
/// request is in order: both endpoints advertised encapsulated requests
/// (`UnsupportedRequest`), and the request has a header in the selected
/// version (`VersionMismatch`) and its two parameter bytes
/// (`InvalidRequest`).
pub open spec fn spec_get_encapsulated_request_error(c: &SpdmContext, bytes: Seq<u8>) -> Option<
    SpdmErrorCode,
> {
    if !spec_capability_met(c, SpdmHandler::GetEncapsulatedRequest) {
        Some(SpdmErrorCode::SpdmErrorUnsupportedRequest)
    } else {
        spec_plain_request_error(c, bytes)
    }
}

/// The encapsulated DIGESTS response `inner` is in order: it has its two
/// parameter bytes, the second being the slot mask, and one digest of the
/// selected hash algorithm for each slot that the mask names.
pub open spec fn spec_encap_digests_in_order(c: &SpdmContext, inner: Seq<u8>) -> bool {
    inner.len() >= 4 && inner.len() >= 4 + spec_count_bits(inner[3], 0)
        * c.negotiate_info.base_hash_sel.spec_get_size()
}

/// What the encapsulated CERTIFICATE response `inner` carries when it is in
/// order: after its two parameter bytes come the length of the portion and
/// the length of what remains, in two bytes each, least significant first,
/// and the portion itself. The portion must not be empty and must fit what
/// is left of the buffer that holds the chain. `None` when it is not in
/// order.
pub open spec fn spec_encap_certificate_portion(c: &SpdmContext, inner: Seq<u8>) -> Option<
    (Seq<u8>, bool),
> {
    if inner.len() < 8 {
        None
    } else {
        let portion_length = inner[4] + 256 * inner[5];
        let remainder_length = inner[6] + 256 * inner[7];
        if portion_length == 0 || inner.len() < 8 + portion_length || spec_peer_cert_chain_temp(
            c,
        ).len() + portion_length > MAX_SPDM_CERT_CHAIN_BUFFER_SIZE {
            None
        } else {
            Some((inner.subrange(8, 8 + portion_length), remainder_length == 0))
        }
    }
}

/// What the DELIVER_ENCAPSULATED_RESPONSE request `bytes` carries, or the
/// SPDM ERROR that answers it.
///
/// The flow must be possible at all: both endpoints advertised encapsulated
/// requests, the negotiated version is at least 1.1, and a buffer awaits the
/// chain (`UnsupportedRequest`). The request must have a header in the
/// selected version (`VersionMismatch`), its two parameter bytes, and in the
/// first of them the id of the outstanding encapsulated request
/// (`InvalidRequest`). What follows must be DIGESTS or CERTIFICATE in the
/// selected version and in order (`InvalidRequest`), and the requester must
/// have advertised that it has certificates (`UnsupportedRequest`).
pub open spec fn spec_check_deliver_encapsulated_response(c: &SpdmContext, bytes: Seq<u8>)
    -> Result<SpdmEncapResponseView, SpdmErrorCode> {
    if !spec_precondition_met(c, SpdmHandler::DeliverEncapsulatedResponse) {
        Err(SpdmErrorCode::SpdmErrorUnsupportedRequest)
    } else if spec_plain_request_error(c, bytes) is Some {
        Err(spec_plain_request_error(c, bytes).unwrap())
    } else if bytes[2] != c.encap_context.request_id {
        Err(SpdmErrorCode::SpdmErrorInvalidRequest)
    } else {
        let inner = bytes.skip(4);
        match SpdmMessageHeader::spec_read(inner) {
            Some((h, _)) => if h.version != c.negotiate_info.spdm_version_sel {
                Err(SpdmErrorCode::SpdmErrorInvalidRequest)
            } else if h.request_response_code != SpdmRequestResponseCode::SpdmResponseDigests
                && h.request_response_code != SpdmRequestResponseCode::SpdmResponseCertificate {
                Err(SpdmErrorCode::SpdmErrorInvalidRequest)
            } else if !c.negotiate_info.req_capabilities_sel.spec_contains(
                SpdmRequestCapabilityFlags::CERT_CAP,
            ) {
                Err(SpdmErrorCode::SpdmErrorUnsupportedRequest)
            } else if h.request_response_code == SpdmRequestResponseCode::SpdmResponseDigests {
                if spec_encap_digests_in_order(c, inner) {
                    Ok(SpdmEncapResponseView::Digests)
                } else {
                    Err(SpdmErrorCode::SpdmErrorInvalidRequest)
                }
            } else {
                match spec_encap_certificate_portion(c, inner) {
                    Some((portion, last)) => Ok(
                        SpdmEncapResponseView::Certificate { portion, last },
                    ),
                    None => Err(SpdmErrorCode::SpdmErrorInvalidRequest),
                }
            },
            None => Err(SpdmErrorCode::SpdmErrorInvalidRequest),
        }
    }
}

/// The id of the encapsulated request that follows the one with the id
/// `request_id`: one more, starting over after 255.
pub open spec fn spec_next_request_id(request_id: u8) -> u8 {
    if request_id == 255 {
        0
    } else {
        (request_id + 1) as u8
    }
}

/// `after` is `before` but that the buffer for the peer's certificate chain
/// holds `chain` and the outstanding encapsulated request has the id
/// `request_id`.
pub open spec fn spec_encap_advanced(
    before: &SpdmContext,
    after: &SpdmContext,
    chain: Seq<u8>,
    request_id: u8,
) -> bool {
    &&& *after == (SpdmContext {
        peer_info: SpdmPeerInfo {
            peer_cert_chain_temp: after.peer_info.peer_cert_chain_temp,
            ..before.peer_info
        },
        encap_context: SpdmEncapContext { request_id, ..before.encap_context },
        ..*before
    })
    &&& after.peer_info.peer_cert_chain_temp matches Some(held) && held@ == chain
}

/// The answer to a delivered encapsulated response that is in order: the
/// acknowledgement and, unless the chain is complete, the request for its
/// next portion.
pub open spec fn spec_deliver_encapsulated_response_answer(
    c: &SpdmContext,
    response: SpdmEncapResponseView,
) -> Seq<u8> {
    let version = c.negotiate_info.spdm_version_sel;
    let id = c.encap_context.request_id;
    match response {
        SpdmEncapResponseView::Digests => spec_encapsulated_response_ack(
            version,
            spec_next_request_id(id),
            ENCAP_RESPONSE_ACK_PAYLOAD_TYPE_PRESENT,
            id,
        ) + spec_get_certificate_request(version, 0, 0, MAX_SPDM_CERT_PORTION_LEN),
        SpdmEncapResponseView::Certificate { portion, last } => if last {
            spec_encapsulated_response_ack(version, id, ENCAP_RESPONSE_ACK_PAYLOAD_TYPE_ABSENT, id)
        } else {
            spec_encapsulated_response_ack(
                version,
                spec_next_request_id(id),
                ENCAP_RESPONSE_ACK_PAYLOAD_TYPE_PRESENT,
                id,
            ) + spec_get_certificate_request(
                version,
                0,
                (spec_peer_cert_chain_temp(c).len() + portion.len()) as u16,
                MAX_SPDM_CERT_PORTION_LEN,
            )
        },
    }
}

/// What a delivered encapsulated response that is in order does to the
/// context: DIGESTS empties the buffer for the chain, CERTIFICATE appends
/// its portion to it; and unless the chain is complete, the next
/// encapsulated request is outstanding.
pub open spec fn spec_deliver_encapsulated_response_applied(
    before: &SpdmContext,
    after: &SpdmContext,
    response: SpdmEncapResponseView,
) -> bool {
    let id = before.encap_context.request_id;
    match response {
        SpdmEncapResponseView::Digests => spec_encap_advanced(
            before,
            after,
            Seq::empty(),
            spec_next_request_id(id),
        ),
        SpdmEncapResponseView::Certificate { portion, last } => spec_encap_advanced(
            before,
            after,
            spec_peer_cert_chain_temp(before) + portion,
            if last {
                id
            } else {
                spec_next_request_id(id)
            },
        ),
    }
}

/// What answering GET_ENCAPSULATED_REQUEST does: a request in order is
/// answered with the first encapsulated request, GET_DIGESTS under id 0, and
/// the buffer for the peer's certificate chain is allocated, empty.
pub open spec fn spec_get_encapsulated_request_answered(
    before: &SpdmContext,
    after: &SpdmContext,
    bytes: Seq<u8>,
    capacity: nat,
    written: Seq<u8>,
    out: Option<usize>,
) -> bool {
    let version = before.negotiate_info.spdm_version_sel;
    spec_answered(
        before,
        after,
        bytes,
        capacity,
        written,
        out,
        spec_get_encapsulated_request_error(before, bytes),
        spec_encapsulated_request(version, 0, spec_get_digests_request(version)),
        spec_encap_advanced(before, after, Seq::empty(), 0),
    )
}

/// What answering DELIVER_ENCAPSULATED_RESPONSE does: a delivery in order is
/// acknowledged, with the request for the next portion of the chain unless
/// the chain is complete, and what was delivered is taken in.
pub open spec fn spec_deliver_encapsulated_response_answered(
    before: &SpdmContext,
    after: &SpdmContext,
    bytes: Seq<u8>,
    capacity: nat,
    written: Seq<u8>,
    out: Option<usize>,
) -> bool {
    match spec_check_deliver_encapsulated_response(before, bytes) {
        Ok(response) => spec_answered(
            before,
            after,
            bytes,
            capacity,
            written,
            out,
            None,
            spec_deliver_encapsulated_response_answer(before, response),
            spec_deliver_encapsulated_response_applied(before, after, response),
        ),
        Err(error_code) => spec_answered(
            before,
            after,
            bytes,
            capacity,
            written,
            out,
            Some(error_code),
            Seq::empty(),
            true,
        ),
    }
}

/// A delivered encapsulated response is refused with `UnsupportedRequest`,
/// whatever it carries, when the negotiated version is below 1.1 or either
/// endpoint did not advertise encapsulated requests. With the contract of
/// `handle_deliver_encapsulated_reponse` this says that such a delivery is
/// answered with an SPDM ERROR and leaves the buffer for the peer's
/// certificate chain, and everything else, as it was.
pub proof fn lemma_deliver_encapsulated_response_gated(c: &SpdmContext, bytes: Seq<u8>)
    requires
        !c.negotiate_info.spdm_version_sel.spec_at_least_11()
            || !c.negotiate_info.req_capabilities_sel.spec_contains(
            SpdmRequestCapabilityFlags::ENCAP_CAP,
        ) || !c.negotiate_info.rsp_capabilities_sel.spec_contains(
            crate::protocol::SpdmResponseCapabilityFlags::ENCAP_CAP,
        ),
    ensures
        spec_check_deliver_encapsulated_response(c, bytes) matches Err(error_code) && error_code
            == SpdmErrorCode::SpdmErrorUnsupportedRequest,
{
}

impl ResponderContext {
    /// Answers GET_ENCAPSULATED_REQUEST: the responder's first encapsulated
    /// request, GET_DIGESTS, replaces what `writer` holds.
    ///
    /// A request in order starts the flow: the buffer for the peer's
    /// certificate chain is allocated, empty, and the encapsulated request
    /// with id 0 is outstanding. A request that is not in order is answered
    /// with an SPDM ERROR and changes nothing. When the writer cannot hold
    /// the answer, it is left empty, nothing changes and the result is
    /// `None`; otherwise the result is the length of the answer.
    pub fn handle_get_encapsulated_request(&mut self, bytes: &[u8], writer: &mut Writer) -> (out:
        Option<usize>)
        ensures
            final(writer).wf(),
            final(writer).capacity() == old(writer).capacity(),
            spec_get_encapsulated_request_answered(
                &old(self).common,
                &final(self).common,
                bytes@,
                old(writer).capacity(),
                final(writer).written(),
                out,
            ),
    {
        if !self.capability_met(SpdmHandler::GetEncapsulatedRequest) {
            return self.handle_error_request(
                SpdmErrorCode::SpdmErrorUnsupportedRequest,
                bytes,
                writer,
            );
        }
        match self.check_plain_request(bytes) {
            Some(error_code) => {
                return self.handle_error_request(error_code, bytes, writer);
            },
            None => {},
        }
        writer.clear();
        if writer.left() < 8 {
            return None;
        }
        let version = self.common.negotiate_info.spdm_version_sel.get_u8();
        let answer: [u8; 8] = [version, 0x6a, 0, 0, version, 0x81, 0, 0];
        let _ = writer.extend_from_slice(&answer);
        assert(writer.written() =~= spec_encapsulated_request(
            self.common.negotiate_info.spdm_version_sel,
            0,
            spec_get_digests_request(self.common.negotiate_info.spdm_version_sel),
        ));
        self.common.peer_info.peer_cert_chain_temp = Some(SpdmCertChainBuffer::default());
        self.common.encap_context.request_id = 0;
        Some(8)
    }

    /// Tests a DELIVER_ENCAPSULATED_RESPONSE request and tells what it
    /// carries, or the SPDM ERROR that answers it. Nothing changes in the
    /// context.
    pub fn check_deliver_encapsulated_response<'a>(&self, bytes: &'a [u8]) -> (r: Result<
        SpdmEncapResponse<'a>,
        SpdmErrorCode,
    >)
        ensures
            match spec_check_deliver_encapsulated_response(&self.common, bytes@) {
                Ok(response) => r matches Ok(found) && found@ == response,
                Err(error_code) => r matches Err(e) && e == error_code,
            },
    {
        if let Some(error_code) = self.check_request(
            SpdmHandler::DeliverEncapsulatedResponse,
            self.common.negotiate_info.spdm_version_sel,
        ) {
            if error_code == SpdmErrorCode::SpdmErrorUnsupportedRequest {
                return Err(SpdmErrorCode::SpdmErrorUnsupportedRequest);
            }
        }
        if let Some(error_code) = self.check_plain_request(bytes) {
            return Err(error_code);
        }
        if bytes[2] != self.common.encap_context.request_id {
            return Err(SpdmErrorCode::SpdmErrorInvalidRequest);
        }
        let inner = vstd::slice::slice_subrange(bytes, 4, bytes.len());
        assert(inner@ =~= bytes@.skip(4));
        let mut reader = Reader::init(inner);
        assert(reader.remaining() =~= inner@);
        let header = match SpdmMessageHeader::read(&mut reader) {
            Some(header) => header,
            None => {
                return Err(SpdmErrorCode::SpdmErrorInvalidRequest);
            },
        };
        if header.version != self.common.negotiate_info.spdm_version_sel {
            return Err(SpdmErrorCode::SpdmErrorInvalidRequest);
        }
        let is_digests = header.request_response_code
            == SpdmRequestResponseCode::SpdmResponseDigests;
        if !is_digests && header.request_response_code
            != SpdmRequestResponseCode::SpdmResponseCertificate {
            return Err(SpdmErrorCode::SpdmErrorInvalidRequest);
        }
        if !self.common.negotiate_info.req_capabilities_sel.contains(
            SpdmRequestCapabilityFlags::CERT_CAP,
        ) {
            return Err(SpdmErrorCode::SpdmErrorUnsupportedRequest);
        }
        if is_digests {
            if inner.len() < 4 {
                return Err(SpdmErrorCode::SpdmErrorInvalidRequest);
            }
            let slots = count_slots(inner[3]);
            let size = self.common.negotiate_info.base_hash_sel.get_size() as usize;
            assert(slots * size <= 512) by (nonlinear_arith)
                requires
                    slots <= 8,
                    size <= 64,
            ;
            let digests = slots * size;
            if inner.len() - 4 < digests {
                return Err(SpdmErrorCode::SpdmErrorInvalidRequest);
            }
            Ok(SpdmEncapResponse::Digests)
        } else {
            if inner.len() < 8 {
                return Err(SpdmErrorCode::SpdmErrorInvalidRequest);
            }
            let portion_length: usize = inner[4] as usize + 256 * (inner[5] as usize);
            let remainder_length: usize = inner[6] as usize + 256 * (inner[7] as usize);
            let held = match &self.common.peer_info.peer_cert_chain_temp {
                Some(chain) => chain.len(),
                None => 0,
            };
            if portion_length == 0 || inner.len() - 8 < portion_length
                || MAX_SPDM_CERT_CHAIN_BUFFER_SIZE - held < portion_length {
                return Err(SpdmErrorCode::SpdmErrorInvalidRequest);
            }
            Ok(
                SpdmEncapResponse::Certificate {
                    portion: vstd::slice::slice_subrange(inner, 8, 8 + portion_length),
                    last: remainder_length == 0,
                },
            )
        }
    }

    /// Answers DELIVER_ENCAPSULATED_RESPONSE: the acknowledgement and, unless
    /// the chain is complete, the next encapsulated request replace what
    /// `writer` holds.
    ///
    /// DIGESTS is answered with the request for the first portion of the
    /// chain in slot 0, and the buffer for the chain is emptied. CERTIFICATE
    /// has its portion appended to the buffer and is answered with the
    /// request for the next portion, or with the bare acknowledgement when
    /// nothing remains. The complete chain stays in the buffer until the
    /// caller has verified it: see `close_peer_cert_chain`.
    ///
    /// A request that is not in order is answered with an SPDM ERROR and
    /// changes nothing; in particular the buffer stays as it was when the
    /// negotiated version is below 1.1 or either endpoint did not advertise
    /// encapsulated requests. When the writer cannot hold the answer, it is
    /// left empty, nothing changes and the result is `None`; otherwise the
    /// result is the length of the answer.
    pub fn handle_deliver_encapsulated_reponse(&mut self, bytes: &[u8], writer: &mut Writer) ->
        (out:
        Option<usize>)
        ensures
            final(writer).wf(),
            final(writer).capacity() == old(writer).capacity(),
            spec_deliver_encapsulated_response_answered(
                &old(self).common,
                &final(self).common,
                bytes@,
                old(writer).capacity(),
                final(writer).written(),
                out,
            ),
    {
        let response = match self.check_deliver_encapsulated_response(bytes) {
            Ok(response) => response,
            Err(error_code) => {
                return self.handle_error_request(error_code, bytes, writer);
            },
        };
        let version = self.common.negotiate_info.spdm_version_sel;
        let id = self.common.encap_context.request_id;
        let next_id = if id == 255 {
            0
        } else {
            id + 1
        };
        let held = match &self.common.peer_info.peer_cert_chain_temp {
            Some(chain) => chain.len(),
            None => 0,
        };
        let ack_len: usize = if version == SpdmVersion::SpdmVersion12 {
            8
        } else {
            4
        };
        writer.clear();
        match response {
            SpdmEncapResponse::Digests => {
                if writer.left() < ack_len + 8 {
                    return None;
                }
                let ack = write_encapsulated_response_ack(
                    version,
                    next_id,
                    ENCAP_RESPONSE_ACK_PAYLOAD_TYPE_PRESENT,
                    id,
                    writer,
                );
                let request = write_get_certificate_request(
                    version,
                    0,
                    0,
                    MAX_SPDM_CERT_PORTION_LEN,
                    writer,
                );
                self.common.peer_info.peer_cert_chain_temp = Some(SpdmCertChainBuffer::default());
                self.common.encap_context.request_id = next_id;
                Some(writer.used())
            },
            SpdmEncapResponse::Certificate { portion, last } => {
                if last {
                    if writer.left() < ack_len {
                        return None;
                    }
                    let ack = write_encapsulated_response_ack(
                        version,
                        id,
                        ENCAP_RESPONSE_ACK_PAYLOAD_TYPE_ABSENT,
                        id,
                        writer,
                    );
                } else {
                    if writer.left() < ack_len + 8 {
                        return None;
                    }
                    let ack = write_encapsulated_response_ack(
                        version,
                        next_id,
                        ENCAP_RESPONSE_ACK_PAYLOAD_TYPE_PRESENT,
                        id,
                        writer,
                    );
                    let request = write_get_certificate_request(
                        version,
                        0,
                        (held + portion.len()) as u16,
                        MAX_SPDM_CERT_PORTION_LEN,
                        writer,
                    );
                    self.common.encap_context.request_id = next_id;
                }
                match &mut self.common.peer_info.peer_cert_chain_temp {
                    Some(chain) => {
                        let _ = chain.append(portion);
                    },
                    None => {},
                }
                Some(writer.used())
            },
        }
    }

    /// Ends the delivery of the peer's certificate chain, once the caller
    /// has verified the complete chain or given it up: the buffer is
    /// released, and when `accept` is set the chain becomes the peer's chain
    /// in the slot it was fetched from. Without a buffer nothing changes and
    /// the result is `false`.
    pub fn close_peer_cert_chain(&mut self, accept: bool) -> (closed: bool)
        ensures
            closed == (old(self).common.peer_info.peer_cert_chain_temp is Some),
            !closed ==> *final(self) == *old(self),
            closed ==> {
                &&& final(self).common == (SpdmContext {
                    peer_info: final(self).common.peer_info,
                    ..old(self).common
                })
                &&& final(self).common.peer_info.peer_cert_chain_temp is None
                &&& forall|i: int|
                    0 <= i < crate::config::SPDM_MAX_SLOT_NUMBER && !(accept && i == 0)
                        ==> final(self).common.peer_info.peer_cert_chain@[i] ==
                            old(self).common.peer_info.peer_cert_chain@[i]
                &&& accept ==> final(self).common.peer_info.peer_cert_chain@[0] ==
                    old(self).common.peer_info.peer_cert_chain_temp
            },
    {
        match self.common.peer_info.peer_cert_chain_temp.take() {
            Some(chain) => {
                if accept {
                    self.common.peer_info.peer_cert_chain[0] = Some(chain);
                }
                true
            },
            None => false,
        }
    }
}

} // verus!
