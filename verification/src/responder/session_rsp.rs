//! What the responder does to its sessions: opening one when a key exchange
//! is accepted, and the answers to HEARTBEAT and END_SESSION.

use crate::codec::{Codec, Reader, Writer};
use crate::common::session::{
    spec_find_free, spec_find_session, SpdmSessionState, SpdmSessionView, INITIAL_SESSION_ID,
};
use crate::common::{spec_reset_buffer_via_request_code, SpdmContext, SpdmRuntimeInfo};
use crate::message::{SpdmErrorCode, SpdmMessageHeader, SpdmRequestResponseCode};
use crate::responder::context::ResponderContext;
use crate::responder::error_rsp::spec_answered;
use vstd::prelude::*;

verus! {

/// The session id made of the responder's half and the requester's half:
/// the responder's half is the upper sixteen bits.
pub open spec fn spec_session_id(rsp_session_id: u16, req_session_id: u16) -> u32 {
    (rsp_session_id * 0x10000 + req_session_id) as u32
}

/// The id of the session that the next accepted key exchange opens for the
/// requester's half `req_session_id`, and the slot it takes; `None` when no
/// slot is free.
pub open spec fn spec_next_session(c: &SpdmContext, req_session_id: u16) -> Option<(int, u32)> {
    match spec_find_free(c.session@) {
        Some(i) => Some((i, spec_session_id((INITIAL_SESSION_ID - i) as u16, req_session_id))),
        None => None,
    }
}

/// `after` is `before` with a session opened in slot `i`, as `session`
/// describes it, and with `last_session_id` as the session that awaits a
/// FINISH in the clear.
pub open spec fn spec_session_opened(
    before: &SpdmContext,
    after: &SpdmContext,
    i: int,
    session: SpdmSessionView,
    last_session_id: Option<u32>,
) -> bool {
    &&& *after == (SpdmContext {
        runtime_info: SpdmRuntimeInfo { last_session_id, ..before.runtime_info },
        session: after.session,
        ..*before
    })
    &&& after.session@ == before.session@.update(i, session)
}

/// What opening a session for the requester's half `req_session_id` gives:
/// the id of the session; `SessionLimitExceeded` when no slot is free;
/// `InvalidRequest` when the table already holds a session with the id
/// that would be assigned.
pub open spec fn spec_open_session_result(c: &SpdmContext, req_session_id: u16) -> Result<
    u32,
    SpdmErrorCode,
> {
    match spec_next_session(c, req_session_id) {
        Some((_, id)) => if spec_find_session(c.session@, id) is Some {
            Err(SpdmErrorCode::SpdmErrorInvalidRequest)
        } else {
            Ok(id)
        },
        None => Err(SpdmErrorCode::SpdmErrorSessionLimitExceeded),
    }
}

/// The SPDM ERROR that answers a request that carries nothing but its
/// header and two parameter bytes, or `None` when the request is in order:
/// it has a header in the selected version and both parameter bytes.
pub open spec fn spec_plain_request_error(c: &SpdmContext, bytes: Seq<u8>) -> Option<
    SpdmErrorCode,
> {
    match SpdmMessageHeader::spec_read(bytes) {
        Some((h, _)) => if h.version != c.negotiate_info.spdm_version_sel {
            Some(SpdmErrorCode::SpdmErrorVersionMismatch)
        } else if bytes.len() < 4 {
            Some(SpdmErrorCode::SpdmErrorInvalidRequest)
        } else {
            None
        },
        None => Some(SpdmErrorCode::SpdmErrorInvalidRequest),
    }
}

/// A response that carries nothing but its header and two parameter bytes
/// of zero.
pub open spec fn spec_plain_response(c: &SpdmContext, code: SpdmRequestResponseCode) -> Seq<u8> {
    seq![c.negotiate_info.spdm_version_sel.spec_get_u8(), code.spec_get_u8(), 0, 0]
}

/// What answering a request that carries nothing but its header and two
/// parameter bytes does: a request in order is answered with the plain
/// response of the given code and prepares the transcripts; any other is
/// answered with an SPDM ERROR and changes nothing. A writer that cannot
/// hold the four bytes of the answer is left empty, and nothing changes.
pub open spec fn spec_plain_request_answered(
    before: &SpdmContext,
    after: &SpdmContext,
    session_id: u32,
    bytes: Seq<u8>,
    request: SpdmRequestResponseCode,
    response: SpdmRequestResponseCode,
    capacity: nat,
    written: Seq<u8>,
    out: Option<usize>,
) -> bool {
    spec_answered(
        before,
        after,
        bytes,
        capacity,
        written,
        out,
        spec_plain_request_error(before, bytes),
        spec_plain_response(before, response),
        spec_reset_buffer_via_request_code(before, after, request, Some(session_id)),
    )
}

impl ResponderContext {
    /// Opens a session in the first free slot, under the id that the slot
    /// and the requester's half give.
    fn open_session(
        &mut self,
        req_session_id: u16,
        use_psk: bool,
        state: SpdmSessionState,
        remember: bool,
    ) -> (r: Result<u32, SpdmErrorCode>)
        ensures
            old(self).common.wf() ==> final(self).common.wf(),
            r == spec_open_session_result(&old(self).common, req_session_id),
            r is Err ==> *final(self) == *old(self),
            r matches Ok(id) ==> spec_session_opened(
                &old(self).common,
                &final(self).common,
                spec_find_free(old(self).common.session@).unwrap(),
                SpdmSessionView {
                    session_id: id,
                    session_state: state,
                    use_psk,
                    ..SpdmSessionView::spec_free()
                },
                if remember {
                    Some(id)
                } else {
                    old(self).common.runtime_info.last_session_id
                },
            ),
    {
        let rsp_session_id = match self.common.session.get_next_half_session_id() {
            Ok(half) => half,
            Err(_) => {
                return Err(SpdmErrorCode::SpdmErrorSessionLimitExceeded);
            },
        };
        let session_id: u32 = rsp_session_id as u32 * 0x10000 + req_session_id as u32;
        if self.common.session.open_session(session_id).is_err() {
            return Err(SpdmErrorCode::SpdmErrorInvalidRequest);
        }
        let ghost opened = self.common.session@;
        match self.common.session.get_session_via_id(session_id) {
            Some(session) => {
                session.set_use_psk(use_psk);
                session.set_session_state(state);
            },
            None => {},
        }
        proof {
            let i = spec_find_free(old(self).common.session@).unwrap();
            assert(crate::common::session::spec_is_first_match(opened, session_id, i)) by {
                assert forall|j: int| 0 <= j < i implies opened[j].session_id != session_id by {
                    if old(self).common.session@[j].session_id == session_id {
                        crate::common::session::lemma_session_held(
                            old(self).common.session@,
                            session_id,
                            j,
                        );
                    }
                }
            }
            crate::common::session::lemma_first_match(opened, session_id, i);
            assert(self.common.session@ =~= old(self).common.session@.update(
                i,
                SpdmSessionView {
                    session_id,
                    session_state: state,
                    use_psk,
                    ..SpdmSessionView::spec_free()
                },
            ));
        }
        if remember {
            self.common.runtime_info.set_last_session_id(Some(session_id));
        }
        Ok(session_id)
    }

    /// Opens the session that an accepted KEY_EXCHANGE sets up: a session
    /// in its handshake, keyed by key agreement, which becomes the session
    /// that a FINISH in the clear completes. The result is its id.
    ///
    /// The id is made of the half that the first free slot contributes and
    /// of the requester's half. When no slot is free the result is
    /// `SessionLimitExceeded`; when the id is already taken,
    /// `InvalidRequest`. On an error nothing changes.
    pub fn open_key_exchange_session(&mut self, req_session_id: u16) -> (r: Result<
        u32,
        SpdmErrorCode,
    >)
        ensures
            old(self).common.wf() ==> final(self).common.wf(),
            r == spec_open_session_result(&old(self).common, req_session_id),
            r is Err ==> *final(self) == *old(self),
            r matches Ok(id) ==> spec_session_opened(
                &old(self).common,
                &final(self).common,
                spec_find_free(old(self).common.session@).unwrap(),
                SpdmSessionView {
                    session_id: id,
                    session_state: SpdmSessionState::SpdmSessionHandshaking,
                    ..SpdmSessionView::spec_free()
                },
                Some(id),
            ),
    {
        self.open_session(req_session_id, false, SpdmSessionState::SpdmSessionHandshaking, true)
    }

    /// Opens the session that an accepted PSK_EXCHANGE sets up: a session
    /// keyed from the pre-shared key, in its handshake when mutual
    /// authentication is required and established at once when it is not.
    /// The result is its id.
    ///
    /// The id is made of the half that the first free slot contributes and
    /// of the requester's half. When no slot is free the result is
    /// `SessionLimitExceeded`; when the id is already taken,
    /// `InvalidRequest`. On an error nothing changes.
    pub fn open_psk_exchange_session(&mut self, req_session_id: u16, mut_auth_required: bool) -> (r:
        Result<u32, SpdmErrorCode>)
        ensures
            old(self).common.wf() ==> final(self).common.wf(),
            r == spec_open_session_result(&old(self).common, req_session_id),
            r is Err ==> *final(self) == *old(self),
            r matches Ok(id) ==> spec_session_opened(
                &old(self).common,
                &final(self).common,
                spec_find_free(old(self).common.session@).unwrap(),
                SpdmSessionView {
                    session_id: id,
                    session_state: if mut_auth_required {
                        SpdmSessionState::SpdmSessionHandshaking
                    } else {
                        SpdmSessionState::SpdmSessionEstablished
                    },
                    use_psk: true,
                    ..SpdmSessionView::spec_free()
                },
                old(self).common.runtime_info.last_session_id,
            ),
    {
        let state = if mut_auth_required {
            SpdmSessionState::SpdmSessionHandshaking
        } else {
            SpdmSessionState::SpdmSessionEstablished
        };
        self.open_session(req_session_id, true, state, false)
    }

    /// Tests a request that carries its header and two parameter bytes: the
    /// result is the SPDM ERROR that answers it, or `None` when it is in
    /// order.
    pub fn check_plain_request(&self, bytes: &[u8]) -> (r: Option<SpdmErrorCode>)
        ensures
            r == spec_plain_request_error(&self.common, bytes@),
    {
        let mut reader = Reader::init(bytes);
        assert(reader.remaining() =~= bytes@);
        match SpdmMessageHeader::read(&mut reader) {
            Some(message_header) => {
                if message_header.version != self.common.negotiate_info.spdm_version_sel {
                    Some(SpdmErrorCode::SpdmErrorVersionMismatch)
                } else if bytes.len() < 4 {
                    Some(SpdmErrorCode::SpdmErrorInvalidRequest)
                } else {
                    None
                }
            },
            None => Some(SpdmErrorCode::SpdmErrorInvalidRequest),
        }
    }

    /// Answers a request that carries nothing but its header and two
    /// parameter bytes.
    fn handle_plain_request(
        &mut self,
        session_id: u32,
        bytes: &[u8],
        request: SpdmRequestResponseCode,
        response: SpdmRequestResponseCode,
        writer: &mut Writer,
    ) -> (out: Option<usize>)
        ensures
            final(writer).wf(),
            final(writer).capacity() == old(writer).capacity(),
            old(self).common.wf() ==> final(self).common.wf(),
            spec_plain_request_answered(
                &old(self).common,
                &final(self).common,
                session_id,
                bytes@,
                request,
                response,
                old(writer).capacity(),
                final(writer).written(),
                out,
            ),
    {
        match self.check_plain_request(bytes) {
            Some(error_code) => {
                return self.handle_error_request(error_code, bytes, writer);
            },
            None => {},
        }
        writer.clear();
        if writer.left() < 4 {
            return None;
        }
        let answer: [u8; 4] = [
            self.common.negotiate_info.spdm_version_sel.get_u8(),
            response.get_u8(),
            0,
            0,
        ];
        let _ = writer.extend_from_slice(&answer);
        assert(writer.written() =~= spec_plain_response(&self.common, response));
        self.common.reset_buffer_via_request_code(request, Some(session_id));
        Some(4)
    }

    /// Answers HEARTBEAT with HEARTBEAT_ACK, in place of what `writer`
    /// holds.
    ///
    /// A request in order prepares the transcripts as any request of a
    /// session does. A request in another version than the selected one is
    /// answered with `VersionMismatch`, one cut short with `InvalidRequest`,
    /// and neither changes anything. When the writer cannot hold the four
    /// bytes of the answer, it is left empty, nothing changes and the result
    /// is `None`.
    pub fn handle_spdm_heartbeat(&mut self, session_id: u32, bytes: &[u8], writer: &mut Writer) ->
        (out:
        Option<usize>)
        ensures
            final(writer).wf(),
            final(writer).capacity() == old(writer).capacity(),
            old(self).common.wf() ==> final(self).common.wf(),
            spec_plain_request_answered(
                &old(self).common,
                &final(self).common,
                session_id,
                bytes@,
                SpdmRequestResponseCode::SpdmRequestHeartbeat,
                SpdmRequestResponseCode::SpdmResponseHeartbeatAck,
                old(writer).capacity(),
                final(writer).written(),
                out,
            ),
    {
        self.handle_plain_request(
            session_id,
            bytes,
            SpdmRequestResponseCode::SpdmRequestHeartbeat,
            SpdmRequestResponseCode::SpdmResponseHeartbeatAck,
            writer,
        )
    }

    /// Answers END_SESSION with END_SESSION_ACK, in place of what `writer`
    /// holds. The session itself ends when the acknowledgement has gone
    /// out: see `message_sent`.
    ///
    /// A request in order prepares the transcripts as any request of a
    /// session does. A request in another version than the selected one is
    /// answered with `VersionMismatch`, one cut short with `InvalidRequest`,
    /// and neither changes anything. When the writer cannot hold the four
    /// bytes of the answer, it is left empty, nothing changes and the result
    /// is `None`.
    pub fn handle_spdm_end_session(&mut self, session_id: u32, bytes: &[u8], writer: &mut Writer)
        -> (out: Option<usize>)
        ensures
            final(writer).wf(),
            final(writer).capacity() == old(writer).capacity(),
            old(self).common.wf() ==> final(self).common.wf(),
            spec_plain_request_answered(
                &old(self).common,
                &final(self).common,
                session_id,
                bytes@,
                SpdmRequestResponseCode::SpdmRequestEndSession,
                SpdmRequestResponseCode::SpdmResponseEndSessionAck,
                old(writer).capacity(),
                final(writer).written(),
                out,
            ),
    {
        self.handle_plain_request(
            session_id,
            bytes,
            SpdmRequestResponseCode::SpdmRequestEndSession,
            SpdmRequestResponseCode::SpdmResponseEndSessionAck,
            writer,
        )
    }
}

} // verus!
