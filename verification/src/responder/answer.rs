//! From the dispatcher's decision to the answer: the engine answers by
//! itself what needs no key, and names what it leaves to the key holder.

use crate::codec::Writer;
use crate::common::SpdmContext;
use crate::message::SpdmRequestResponseCode;
use crate::responder::cert_rsp::spec_certificate_answered;
use crate::responder::context::{ResponderContext, SpdmDispatch, SpdmHandler};
use crate::responder::encap_rsp::{
    spec_deliver_encapsulated_response_answered, spec_get_encapsulated_request_answered,
};
use crate::responder::error_rsp::spec_answered;
use crate::responder::session_rsp::spec_plain_request_answered;
use crate::responder::version_rsp::spec_version_answered;
use vstd::prelude::*;

verus! {

/// What became of a request once the dispatcher had decided on it.
#[derive(Clone, Copy, Debug, PartialEq, Eq, Structural)]
pub enum SpdmAnswer {
    /// The answer is in the writer; it has this many bytes.
    Written(usize),
    /// The writer cannot hold the answer.
    BufferFull,
    /// The request needs hashing, signing or key agreement: the key holder
    /// serves it with the handler named, on the session named if one is.
    Deferred { handler: SpdmHandler, session_id: Option<u32> },
}

impl SpdmAnswer {
    /// The length of the answer in the writer, if one was written.
    pub open spec fn spec_written(&self) -> Option<usize> {
        match *self {
            SpdmAnswer::Written(n) => Some(n),
            _ => None,
        }
    }
}

/// Whether the engine serves the handler by itself: GET_VERSION,
/// GET_CERTIFICATE and the two requests of the encapsulated flow always,
/// HEARTBEAT and END_SESSION in the session they arrived in.
pub open spec fn spec_served_by_engine(handler: SpdmHandler, session_id: Option<u32>) -> bool {
    match handler {
        SpdmHandler::Version
        | SpdmHandler::Certificate
        | SpdmHandler::GetEncapsulatedRequest
        | SpdmHandler::DeliverEncapsulatedResponse => true,
        SpdmHandler::Heartbeat | SpdmHandler::EndSession => session_id is Some,
        _ => false,
    }
}

/// What acting on the dispatcher's decision does. Where the decision is an
/// SPDM ERROR, or a handler that the engine serves by itself, the answer is
/// written as that error or handler calls for. Any other handler is left to
/// the key holder: nothing is written and nothing changes.
pub open spec fn spec_responded(
    before: &SpdmContext,
    after: &SpdmContext,
    decision: SpdmDispatch,
    bytes: Seq<u8>,
    capacity: nat,
    held: Seq<u8>,
    written: Seq<u8>,
    answer: SpdmAnswer,
) -> bool {
    let out = answer.spec_written();
    match decision {
        SpdmDispatch::Error { error_code } => !(answer is Deferred) && spec_answered(
            before,
            after,
            bytes,
            capacity,
            written,
            out,
            Some(error_code),
            Seq::empty(),
            true,
        ),
        SpdmDispatch::Handle { handler, session_id } => if spec_served_by_engine(
            handler,
            session_id,
        ) {
            !(answer is Deferred) && match handler {
                SpdmHandler::Version => spec_version_answered(
                    before,
                    after,
                    bytes,
                    capacity,
                    written,
                    out,
                ),
                SpdmHandler::Certificate => spec_certificate_answered(
                    before,
                    after,
                    session_id,
                    bytes,
                    capacity,
                    written,
                    out,
                ),
                SpdmHandler::Heartbeat => spec_plain_request_answered(
                    before,
                    after,
                    session_id.unwrap(),
                    bytes,
                    SpdmRequestResponseCode::SpdmRequestHeartbeat,
                    SpdmRequestResponseCode::SpdmResponseHeartbeatAck,
                    capacity,
                    written,
                    out,
                ),
                SpdmHandler::EndSession => spec_plain_request_answered(
                    before,
                    after,
                    session_id.unwrap(),
                    bytes,
                    SpdmRequestResponseCode::SpdmRequestEndSession,
                    SpdmRequestResponseCode::SpdmResponseEndSessionAck,
                    capacity,
                    written,
                    out,
                ),
                SpdmHandler::GetEncapsulatedRequest => spec_get_encapsulated_request_answered(
                    before,
                    after,
                    bytes,
                    capacity,
                    written,
                    out,
                ),
                _ => spec_deliver_encapsulated_response_answered(
                    before,
                    after,
                    bytes,
                    capacity,
                    written,
                    out,
                ),
            }
        } else {
            answer == (SpdmAnswer::Deferred { handler, session_id }) && *after == *before
                && written == held
        },
    }
}

impl ResponderContext {
    /// Acts on the dispatcher's decision on the request `bytes`.
    ///
    /// An SPDM ERROR is written in place of what `writer` holds. A request
    /// for a handler that needs no key is answered by that handler, in place
    /// of what `writer` holds: GET_VERSION, GET_CERTIFICATE, the two requests
    /// of the encapsulated flow, and HEARTBEAT and END_SESSION in their
    /// session. Any other request is left to the key holder: the result names
    /// the handler, the writer is not touched and nothing changes. What is
    /// written goes out through `send_message`.
    pub fn respond(&mut self, decision: SpdmDispatch, bytes: &[u8], writer: &mut Writer) -> (answer:
        SpdmAnswer)
        ensures
            final(writer).wf(),
            final(writer).capacity() == old(writer).capacity(),
            old(self).common.wf() ==> final(self).common.wf(),
            spec_responded(
                &old(self).common,
                &final(self).common,
                decision,
                bytes@,
                old(writer).capacity(),
                old(writer).written(),
                final(writer).written(),
                answer,
            ),
    {
        let out = match decision {
            SpdmDispatch::Error { error_code } => self.handle_error_request(
                error_code,
                bytes,
                writer,
            ),
            SpdmDispatch::Handle { handler, session_id } => match (handler, session_id) {
                (SpdmHandler::Version, _) => self.handle_spdm_version(bytes, writer),
                (SpdmHandler::Certificate, _) => self.handle_spdm_certificate(
                    bytes,
                    session_id,
                    writer,
                ),
                (SpdmHandler::Heartbeat, Some(id)) => self.handle_spdm_heartbeat(id, bytes, writer),
                (SpdmHandler::EndSession, Some(id)) => self.handle_spdm_end_session(
                    id,
                    bytes,
                    writer,
                ),
                (SpdmHandler::GetEncapsulatedRequest, _) => self.handle_get_encapsulated_request(
                    bytes,
                    writer,
                ),
                (
                    SpdmHandler::DeliverEncapsulatedResponse,
                    _,
                ) => self.handle_deliver_encapsulated_reponse(bytes, writer),
                _ => {
                    proof {
                        writer.lemma_wf();
                    }
                    return SpdmAnswer::Deferred { handler, session_id };
                },
            },
        };
        match out {
            Some(n) => SpdmAnswer::Written(n),
            None => SpdmAnswer::BufferFull,
        }
    }
}

} // verus!
