//! The answer to GET_VERSION.

use crate::codec::{Codec, Reader, Writer};
use crate::common::{spec_is_reset, SpdmContext};
use crate::config::MAX_SPDM_VERSION_COUNT;
use crate::message::version::{
    lemma_version_entries_len, spec_version_entries, spec_version_response,
};
use crate::message::{SpdmErrorCode, SpdmMessageHeader};
use crate::protocol::SpdmVersion;
use crate::responder::context::ResponderContext;
use crate::responder::error_rsp::spec_answered;
use vstd::prelude::*;

verus! {

/// The SPDM ERROR that answers the GET_VERSION request `bytes`, or `None`
/// when the request is in order: it has a header in version 1.0 and its two
/// parameter bytes.
pub open spec fn spec_version_request_error(bytes: Seq<u8>) -> Option<SpdmErrorCode> {
    match SpdmMessageHeader::spec_read(bytes) {
        Some((h, _)) => if h.version != SpdmVersion::SpdmVersion10 {
            Some(SpdmErrorCode::SpdmErrorVersionMismatch)
        } else if bytes.len() < 4 {
            Some(SpdmErrorCode::SpdmErrorInvalidRequest)
        } else {
            None
        },
        None => Some(SpdmErrorCode::SpdmErrorInvalidRequest),
    }
}

/// What answering GET_VERSION does: a request in order is answered with the
/// versions offered, and the connection starts over with the request and
/// the response in transcript A.
pub open spec fn spec_version_answered(
    before: &SpdmContext,
    after: &SpdmContext,
    bytes: Seq<u8>,
    capacity: nat,
    written: Seq<u8>,
    out: Option<usize>,
) -> bool {
    let answer = spec_version_response(before.config_info.spdm_version@);
    spec_answered(
        before,
        after,
        bytes,
        capacity,
        written,
        out,
        spec_version_request_error(bytes),
        answer,
        spec_is_reset(before, after, bytes.subrange(0, 4) + answer),
    )
}

impl ResponderContext {
    /// Answers GET_VERSION: the versions the responder offers replace what
    /// `writer` holds, and the connection starts over.
    ///
    /// A request that is in order makes the responder forget everything
    /// that was negotiated, exchanged and learned, and end every session;
    /// transcript A then holds the request and the response. A request that
    /// is not in order is answered with an SPDM ERROR in the selected
    /// version and changes nothing: `VersionMismatch` when it is not written
    /// in version 1.0, `InvalidRequest` when it is cut short. When the writer
    /// cannot hold the answer, it is left empty, nothing changes and the
    /// result is `None`; otherwise the result is the length of the answer.
    pub fn handle_spdm_version(&mut self, bytes: &[u8], writer: &mut Writer) -> (out: Option<usize>)
        ensures
            final(writer).wf(),
            final(writer).capacity() == old(writer).capacity(),
            spec_version_answered(
                &old(self).common,
                &final(self).common,
                bytes@,
                old(writer).capacity(),
                final(writer).written(),
                out,
            ),
    {
        let mut reader = Reader::init(bytes);
        let ghost start = reader;
        assert(start.remaining() =~= bytes@);
        match SpdmMessageHeader::read(&mut reader) {
            Some(message_header) => {
                if message_header.version != SpdmVersion::SpdmVersion10 {
                    return self.handle_error_request(
                        SpdmErrorCode::SpdmErrorVersionMismatch,
                        bytes,
                        writer,
                    );
                }
            },
            None => {
                return self.handle_error_request(
                    SpdmErrorCode::SpdmErrorInvalidRequest,
                    bytes,
                    writer,
                );
            },
        }
        proof {
            start.lemma_advanced(&reader, 2);
        }
        if reader.take(2).is_none() {
            return self.handle_error_request(SpdmErrorCode::SpdmErrorInvalidRequest, bytes, writer);
        }
        writer.clear();
        if self.write_version_response(writer).is_none() {
            writer.clear();
            return None;
        }
        proof {
            lemma_version_entries_len(self.common.config_info.spdm_version@, 0);
        }
        self.common.reset_context();
        let request = vstd::slice::slice_subrange(bytes, 0, 4);
        let _ = self.common.append_message_a(request);
        let _ = self.common.append_message_a(writer.used_slice());
        assert(self.common.runtime_info.message_a@ =~= bytes@.subrange(0, 4) + writer.written());
        Some(writer.used())
    }

    /// Appends the VERSION response to an empty writer. When it does not
    /// fit, the result is `None`.
    fn write_version_response(&self, writer: &mut Writer) -> (out: Option<usize>)
        requires
            old(writer).written() == Seq::<u8>::empty(),
            old(writer).wf(),
        ensures
            final(writer).wf(),
            final(writer).capacity() == old(writer).capacity(),
            out is Some <==> spec_version_response(self.common.config_info.spdm_version@).len()
                <= old(writer).capacity(),
            out is Some ==> final(writer).written() == spec_version_response(
                self.common.config_info.spdm_version@,
            ),
    {
        let offered = &self.common.config_info.spdm_version;
        let mut entries: [u8; 6] = [0, 0, 0, 0, 0, 0];
        let mut used: usize = 0;
        let mut i: usize = 0;
        proof {
            lemma_version_entries_len(offered@, 0);
        }
        while i < MAX_SPDM_VERSION_COUNT
            invariant
                0 <= i <= MAX_SPDM_VERSION_COUNT,
                offered@.len() == MAX_SPDM_VERSION_COUNT,
                used <= 2 * i,
                entries@.subrange(0, used as int) + spec_version_entries(offered@, i as int)
                    == spec_version_entries(offered@, 0),
            decreases MAX_SPDM_VERSION_COUNT - i,
        {
            let version = offered[i];
            let ghost before = entries@.subrange(0, used as int);
            match version {
                SpdmVersion::Unknown(_) => {
                    assert(before + spec_version_entries(offered@, i as int) =~= before
                        + spec_version_entries(offered@, i + 1));
                },
                _ => {
                    entries[used] = 0;
                    entries[used + 1] = version.get_u8();
                    used = used + 2;
                    assert(entries@.subrange(0, used as int) =~= before + seq![
                        0u8,
                        version.spec_get_u8(),
                    ]);
                    assert(entries@.subrange(0, used as int) + spec_version_entries(
                        offered@,
                        i + 1,
                    ) =~= before + spec_version_entries(offered@, i as int));
                },
            }
            i = i + 1;
        }
        assert(entries@.subrange(0, used as int) =~= spec_version_entries(offered@, 0)) by {
            assert(spec_version_entries(offered@, MAX_SPDM_VERSION_COUNT as int) =~= Seq::<
                u8,
            >::empty());
        }
        if writer.left() < 6 + used {
            return None;
        }
        let front: [u8; 6] = [0x10, 0x04, 0, 0, 0, (used / 2) as u8];
        let _ = writer.extend_from_slice(&front);
        let _ = writer.extend_from_slice(vstd::slice::slice_subrange(entries.as_slice(), 0, used));
        assert(writer.written() =~= spec_version_response(offered@));
        Some(6 + used)
    }
}

} // verus!
