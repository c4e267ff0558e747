//! SPDM ERROR responses.

use crate::codec::{Codec, Writer};
use crate::message::error::{
    spec_error_message, SpdmErrorResponseExtData, SpdmErrorResponsePayload,
};
use crate::message::{SpdmErrorCode, SpdmMessageHeader, SpdmRequestResponseCode};
use crate::common::SpdmContext;
use crate::responder::context::ResponderContext;
use vstd::prelude::*;

verus! {

/// The error data of the SPDM ERROR that answers `request`: the code of the
/// request for `UnsupportedRequest`, 0 for every other error.
pub open spec fn spec_error_data(error_code: SpdmErrorCode, request: Seq<u8>) -> u8 {
    if error_code == SpdmErrorCode::SpdmErrorUnsupportedRequest && request.len() >= 2 {
        request[1]
    } else {
        0
    }
}

/// The SPDM ERROR that answers `request` with the given error code, in the
/// selected version.
pub open spec fn spec_error_response(c: &SpdmContext, error_code: SpdmErrorCode, request: Seq<u8>)
    -> Seq<u8> {
    spec_error_message(
        c.negotiate_info.spdm_version_sel,
        error_code,
        spec_error_data(error_code, request),
    )
}

/// What answering a request does, whatever the request: `error` is the SPDM
/// ERROR that answers a request that is not in order, `answer` the response
/// to one that is, and `applied` whether the context changed as that
/// response calls for.
///
/// A request that is not in order is answered with the error and changes
/// nothing. A request in order is answered with `answer` and changes the
/// context as told. Either way the answer replaces what the writer held;
/// where the writer cannot hold it, the writer is left empty, nothing
/// changes, and the result is `None`. Otherwise the result is the length of
/// what was written.
pub open spec fn spec_answered(
    before: &SpdmContext,
    after: &SpdmContext,
    request: Seq<u8>,
    capacity: nat,
    written: Seq<u8>,
    out: Option<usize>,
    error: Option<SpdmErrorCode>,
    answer: Seq<u8>,
    applied: bool,
) -> bool {
    &&& out matches Some(n) ==> n == written.len()
    &&& out is None ==> written == Seq::<u8>::empty() && *after == *before
    &&& match error {
        Some(error_code) => {
            &&& *after == *before
            &&& out is Some <==> capacity >= 4
            &&& out is Some ==> written == spec_error_response(before, error_code, request)
        },
        None => {
            &&& out is Some <==> answer.len() <= capacity
            &&& out is Some ==> written == answer && applied
        },
    }
}

impl ResponderContext {
    /// Replaces what `writer` holds by an SPDM ERROR in the selected version,
    /// with the given error code and error data and no extended data. When
    /// the writer cannot hold the four bytes, it is left empty and the result
    /// is `None`; otherwise the result is the number of bytes written.
    pub fn write_spdm_error(&self, error_code: SpdmErrorCode, error_data: u8, writer: &mut Writer)
        -> (out: Option<usize>)
        ensures
            final(writer).wf(),
            final(writer).capacity() == old(writer).capacity(),
            out is Some <==> old(writer).capacity() >= 4,
            out is Some ==> out == Some(4usize) && final(writer).written() == spec_error_message(
                self.common.negotiate_info.spdm_version_sel,
                error_code,
                error_data,
            ),
            out is None ==> final(writer).written() == Seq::<u8>::empty(),
    {
        writer.clear();
        if writer.left() < 4 {
            return None;
        }
        let header = SpdmMessageHeader {
            version: self.common.negotiate_info.spdm_version_sel,
            request_response_code: SpdmRequestResponseCode::SpdmResponseError,
        };
        let payload = SpdmErrorResponsePayload {
            error_code,
            error_data,
            extended_data: SpdmErrorResponseExtData::SpdmErrorExtDataNone,
        };
        let _ = header.encode(writer);
        let _ = payload.encode(writer);
        assert(writer.written() =~= spec_error_message(
            self.common.negotiate_info.spdm_version_sel,
            error_code,
            error_data,
        ));
        Some(4)
    }

    /// Replaces what `writer` holds by an SPDM ERROR in the selected version
    /// with the given payload, extended data included. When the writer
    /// cannot hold it, the writer is left empty and the result is `None`;
    /// otherwise the result is the number of bytes written.
    pub fn write_error_response(&self, payload: &SpdmErrorResponsePayload, writer: &mut Writer) ->
        (out:
        Option<usize>)
        ensures
            final(writer).wf(),
            final(writer).capacity() == old(writer).capacity(),
            out is Some <==> 2 + SpdmErrorResponsePayload::spec_encode(*payload).len() <= old(
                writer,
            ).capacity(),
            out matches Some(n) ==> n == final(writer).written().len() && final(writer).written()
                == SpdmMessageHeader::spec_encode(
                SpdmMessageHeader {
                    version: self.common.negotiate_info.spdm_version_sel,
                    request_response_code: SpdmRequestResponseCode::SpdmResponseError,
                },
            ) + SpdmErrorResponsePayload::spec_encode(*payload),
            out is None ==> final(writer).written() == Seq::<u8>::empty(),
    {
        writer.clear();
        let header = SpdmMessageHeader {
            version: self.common.negotiate_info.spdm_version_sel,
            request_response_code: SpdmRequestResponseCode::SpdmResponseError,
        };
        if header.encode(writer).is_none() {
            return None;
        }
        match payload.encode(writer) {
            Some(_) => {
                assert(writer.written() =~= SpdmMessageHeader::spec_encode(header)
                    + SpdmErrorResponsePayload::spec_encode(*payload));
                Some(writer.used())
            },
            None => {
                writer.clear();
                None
            },
        }
    }

    /// Answers the request `bytes`, which no handler may serve: the SPDM
    /// ERROR with the given code replaces what `writer` holds. For
    /// `UnsupportedRequest` the error data is the code of the request, for
    /// every other error it is 0. When the writer cannot hold the four
    /// bytes, it is left empty and the result is `None`.
    pub fn handle_error_request(&self, error_code: SpdmErrorCode, bytes: &[u8], writer: &mut Writer)
        -> (out: Option<usize>)
        ensures
            final(writer).wf(),
            final(writer).capacity() == old(writer).capacity(),
            out is Some <==> old(writer).capacity() >= 4,
            out is Some ==> out == Some(4usize) && final(writer).written() == spec_error_response(
                &self.common,
                error_code,
                bytes@,
            ),
            out is None ==> final(writer).written() == Seq::<u8>::empty(),
            spec_answered(
                &self.common,
                &self.common,
                bytes@,
                old(writer).capacity(),
                final(writer).written(),
                out,
                Some(error_code),
                Seq::empty(),
                true,
            ),
    {
        let error_data = if error_code == SpdmErrorCode::SpdmErrorUnsupportedRequest && bytes.len()
            >= 2 {
            bytes[1]
        } else {
            0
        };
        self.write_spdm_error(error_code, error_data, writer)
    }
}

} // verus!
