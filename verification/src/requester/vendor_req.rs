//! Vendor-defined requests.

use crate::codec::{Codec, Reader, Writer};
use crate::common::session::{spec_find_session, SpdmSessionView};
use crate::common::{spec_reset_buffer_via_request_code, spec_same_but_session, SpdmContext};
use crate::error::{SpdmResult, SpdmStatus};
use crate::message::error::SpdmErrorResponsePayload;
use crate::message::vendor::{
    spec_vendor_defined_encode, spec_vendor_defined_read, RegistryOrStandardsBodyID,
    SpdmVendorDefinedRequestPayload, SpdmVendorDefinedResponsePayload, SpdmVendorDefinedView,
    VendorDefinedReqPayloadStruct, VendorDefinedRspPayloadStruct, VendorIDStruct,
};
use crate::message::{SpdmErrorCode, SpdmMessageHeader, SpdmRequestResponseCode};
use crate::protocol::SpdmVersion;
use crate::requester::RequesterContext;
use vstd::prelude::*;

verus! {

/// The bytes of VENDOR_DEFINED_REQUEST in the given version: the header,
/// then the registry, the vendor identifier and the payload.
pub open spec fn spec_vendor_defined_request(version: SpdmVersion, v: SpdmVendorDefinedView) -> Seq<
    u8,
> {
    SpdmMessageHeader::spec_encode(
        SpdmMessageHeader {
            version,
            request_response_code: SpdmRequestResponseCode::SpdmRequestVendorDefinedRequest,
        },
    ) + spec_vendor_defined_encode(v)
}

/// What the peer's SPDM ERROR, of which `payload` follows the header, means
/// to the requester: `DecryptError` when the peer could not open what it was
/// sent, `ErrorPeer` for any other error that is well formed, and
/// `InvalidMsgField` when the error is cut short.
pub open spec fn spec_error_response_status(payload: Seq<u8>) -> SpdmStatus {
    match SpdmErrorResponsePayload::spec_read(payload) {
        Some((p, _)) => if p.error_code == SpdmErrorCode::SpdmErrorDecryptError {
            SpdmStatus::DecryptError
        } else {
            SpdmStatus::ErrorPeer
        },
        None => SpdmStatus::InvalidMsgField,
    }
}

/// The slot of the session that an answer ends: the session in which the
/// exchange ran, when the answer is the peer's `DecryptError`. `None` when
/// the answer ends no session.
pub open spec fn spec_session_ended_by(c: &SpdmContext, session_id: Option<u32>, status: SpdmStatus)
    -> Option<int> {
    if status == SpdmStatus::DecryptError && session_id is Some {
        spec_find_session(c.session@, session_id.unwrap())
    } else {
        None
    }
}

/// `after` is `before` once an exchange in the session `session_id` has
/// ended with `status`: the session that the answer ends is freed, and
/// nothing else changes.
pub open spec fn spec_exchange_ended(
    before: &SpdmContext,
    after: &SpdmContext,
    session_id: Option<u32>,
    status: SpdmStatus,
) -> bool {
    match spec_session_ended_by(before, session_id, status) {
        Some(i) => spec_same_but_session(before, after) && after.session@
            == before.session@.update(i, SpdmSessionView::spec_free())
            && after.session.spec_slot_zeroed(i),
        None => *after == *before,
    }
}

/// What the answer `bytes` to a vendor-defined request yields: the payload
/// of a well-formed VENDOR_DEFINED_RESPONSE in the selected version;
/// `InvalidMsgField` for an answer too short for a header, in another
/// version, or whose payload does not parse; for an SPDM ERROR what
/// `spec_error_response_status` says; `ErrorPeer` for any other response.
pub open spec fn spec_handle_spdm_vendor_defined_respond(c: &SpdmContext, bytes: Seq<u8>) -> Result<
    Seq<u8>,
    SpdmStatus,
> {
    match SpdmMessageHeader::spec_read(bytes) {
        Some((h, _)) => if h.version != c.negotiate_info.spdm_version_sel {
            Err(SpdmStatus::InvalidMsgField)
        } else if h.request_response_code
            == SpdmRequestResponseCode::SpdmResponseVendorDefinedResponse {
            match spec_vendor_defined_read(bytes.skip(2)) {
                Some((v, _)) => Ok(v.payload),
                None => Err(SpdmStatus::InvalidMsgField),
            }
        } else if h.request_response_code == SpdmRequestResponseCode::SpdmResponseError {
            Err(spec_error_response_status(bytes.skip(2)))
        } else {
            Err(SpdmStatus::ErrorPeer)
        },
        None => Err(SpdmStatus::InvalidMsgField),
    }
}

impl RequesterContext {
    /// Prepares a vendor-defined request for sending: the transcripts are
    /// prepared as for any request of that code, and the request, in the
    /// selected version, replaces what `writer` holds.
    ///
    /// When the writer cannot hold the request, it is left empty and the
    /// result is `BufferFull`; otherwise the result is the length of the
    /// request. The caller transmits what the writer holds, in the session
    /// named or in the clear, and hands the answer to
    /// `handle_spdm_vendor_defined_respond`.
    pub fn send_spdm_vendor_defined_request(
        &mut self,
        session_id: Option<u32>,
        standard_id: RegistryOrStandardsBodyID,
        vendor_id_struct: VendorIDStruct,
        req_payload_struct: VendorDefinedReqPayloadStruct,
        writer: &mut Writer,
    ) -> (r: SpdmResult<usize>)
        ensures
            spec_reset_buffer_via_request_code(
                &old(self).common,
                &final(self).common,
                SpdmRequestResponseCode::SpdmRequestVendorDefinedRequest,
                session_id,
            ),
            old(self).common.wf() ==> final(self).common.wf(),
            final(writer).wf(),
            final(writer).capacity() == old(writer).capacity(),
            r is Ok <==> spec_vendor_defined_request(
                old(self).common.negotiate_info.spdm_version_sel,
                SpdmVendorDefinedView {
                    standard_id,
                    vendor_id: vendor_id_struct@,
                    payload: req_payload_struct@,
                },
            ).len() <= old(writer).capacity(),
            r matches Ok(n) ==> n == final(writer).written().len() && final(writer).written()
                == spec_vendor_defined_request(
                old(self).common.negotiate_info.spdm_version_sel,
                SpdmVendorDefinedView {
                    standard_id,
                    vendor_id: vendor_id_struct@,
                    payload: req_payload_struct@,
                },
            ),
            r is Err ==> r == Err::<usize, _>(SpdmStatus::BufferFull) && final(writer).written()
                == Seq::<u8>::empty(),
    {
        self.common.reset_buffer_via_request_code(
            SpdmRequestResponseCode::SpdmRequestVendorDefinedRequest,
            session_id,
        );
        writer.clear();
        let header = SpdmMessageHeader {
            version: self.common.negotiate_info.spdm_version_sel,
            request_response_code: SpdmRequestResponseCode::SpdmRequestVendorDefinedRequest,
        };
        let payload = SpdmVendorDefinedRequestPayload {
            standard_id,
            vendor_id: vendor_id_struct,
            req_payload: req_payload_struct,
        };
        if header.encode(writer).is_none() {
            return Err(SpdmStatus::BufferFull);
        }
        match payload.spdm_encode(writer) {
            Some(_) => {
                assert(writer.written() =~= spec_vendor_defined_request(
                    old(self).common.negotiate_info.spdm_version_sel,
                    payload@,
                ));
                Ok(writer.used())
            },
            None => {
                writer.clear();
                Err(SpdmStatus::BufferFull)
            },
        }
    }

    /// Takes in the peer's SPDM ERROR, of which `payload` follows the
    /// header, and tells what it means. When the peer could not open what
    /// it was sent, the session in which the exchange ran is of no use any
    /// more: it ends, and its secrets are overwritten with zeroes.
    pub fn spdm_handle_error_response_main(&mut self, session_id: Option<u32>, payload: &[u8]) ->
        (status:
        SpdmStatus)
        ensures
            status == spec_error_response_status(payload@),
            spec_exchange_ended(&old(self).common, &final(self).common, session_id, status),
            old(self).common.wf() ==> final(self).common.wf(),
    {
        let mut reader = Reader::init(payload);
        assert(reader.remaining() =~= payload@);
        match SpdmErrorResponsePayload::read(&mut reader) {
            Some(error) => {
                if error.error_code == SpdmErrorCode::SpdmErrorDecryptError {
                    match session_id {
                        Some(session_id) => {
                            let _ = self.common.session.teardown_session(session_id);
                        },
                        None => {},
                    }
                    SpdmStatus::DecryptError
                } else {
                    SpdmStatus::ErrorPeer
                }
            },
            None => SpdmStatus::InvalidMsgField,
        }
    }

    /// Reads the answer to a vendor-defined request and returns the payload
    /// of the response.
    ///
    /// An answer too short for a header, written in another version than
    /// the selected one, or whose payload does not parse gives
    /// `InvalidMsgField`. An SPDM ERROR gives `ErrorPeer`, or
    /// `InvalidMsgField` when it is cut short, or `DecryptError` when the
    /// peer could not open the request; then the session in which the
    /// exchange ran ends. Any other response gives `ErrorPeer`. But for a
    /// session that ends, nothing changes in the context.
    pub fn handle_spdm_vendor_defined_respond(
        &mut self,
        session_id: Option<u32>,
        receive_buffer: &[u8],
    ) -> (r: SpdmResult<VendorDefinedRspPayloadStruct>)
        ensures
            old(self).common.wf() ==> final(self).common.wf(),
            match spec_handle_spdm_vendor_defined_respond(&old(self).common, receive_buffer@) {
                Ok(payload) => r matches Ok(p) && p@ == payload && *final(self) == *old(self),
                Err(status) => r matches Err(e) && e == status && spec_exchange_ended(
                    &old(self).common,
                    &final(self).common,
                    session_id,
                    status,
                ),
            },
    {
        let mut reader = Reader::init(receive_buffer);
        let ghost start = reader;
        match SpdmMessageHeader::read(&mut reader) {
            Some(message_header) => {
                proof {
                    start.lemma_advanced(&reader, 2);
                    assert(start.remaining() =~= receive_buffer@);
                }
                if message_header.version != self.common.negotiate_info.spdm_version_sel {
                    return Err(SpdmStatus::InvalidMsgField);
                }
                match message_header.request_response_code {
                    SpdmRequestResponseCode::SpdmResponseVendorDefinedResponse => {
                        match SpdmVendorDefinedResponsePayload::spdm_read(&mut reader) {
                            Some(spdm_vendor_defined_response_payload) => Ok(
                                spdm_vendor_defined_response_payload.rsp_payload,
                            ),
                            None => Err(SpdmStatus::InvalidMsgField),
                        }
                    },
                    SpdmRequestResponseCode::SpdmResponseError => {
                        let status = self.spdm_handle_error_response_main(
                            session_id,
                            reader.rest(),
                        );
                        Err(status)
                    },
                    _ => Err(SpdmStatus::ErrorPeer),
                }
            },
            None => {
                assert(start.remaining() =~= receive_buffer@);
                Err(SpdmStatus::InvalidMsgField)
            },
        }
    }
}

} // verus!
