//! The answers to GET_DIGESTS and GET_CERTIFICATE.

use crate::codec::{Codec, Reader, Writer};
use crate::common::{spec_exchange_fits, spec_exchange_recorded, SpdmContext};
use crate::config::{MAX_SPDM_CERT_PORTION_LEN, SPDM_MAX_SLOT_NUMBER};
use crate::message::certificate::{
    spec_certificate_response, spec_chain_count, spec_digests_response, spec_slot_bit,
    spec_slot_mask,
};
use crate::message::{SpdmErrorCode, SpdmMessageHeader, SpdmRequestResponseCode};
use crate::responder::context::{spec_check_request, ResponderContext, SpdmHandler};
use crate::responder::error_rsp::spec_answered;
use vstd::prelude::*;

verus! {

/// The SPDM ERROR that answers a request of at least `len` bytes for the
/// handler, as far as its header and the handler's preconditions go, or
/// `None` when these are in order. A request without a header or shorter
/// than `len` bytes is an `InvalidRequest`; the preconditions are those of
/// `spec_check_request`.
pub open spec fn spec_handler_request_error(
    c: &SpdmContext,
    handler: SpdmHandler,
    bytes: Seq<u8>,
    len: nat,
) -> Option<SpdmErrorCode> {
    match SpdmMessageHeader::spec_read(bytes) {
        Some((h, _)) => match spec_check_request(c, handler, h.version) {
            Some(error_code) => Some(error_code),
            None => if bytes.len() < len {
                Some(SpdmErrorCode::SpdmErrorInvalidRequest)
            } else {
                None
            },
        },
        None => Some(SpdmErrorCode::SpdmErrorInvalidRequest),
    }
}

/// Whether `digests` is one digest of the selected hash algorithm for each
/// slot that holds a chain in wire form.
pub open spec fn spec_digests_in_order(c: &SpdmContext, digests: Seq<u8>) -> bool {
    c.negotiate_info.base_hash_sel.spec_get_size() > 0 && digests.len() == spec_chain_count(
        c.provision_info.my_cert_chain@,
        SPDM_MAX_SLOT_NUMBER as int,
    ) * c.negotiate_info.base_hash_sel.spec_get_size()
}

/// The SPDM ERROR that answers GET_DIGESTS, or `None` when the request is in
/// order and the digests the caller computed are: `Unspecified` when they
/// are not one digest for each chain.
pub open spec fn spec_digest_request_error(c: &SpdmContext, bytes: Seq<u8>, digests: Seq<u8>)
    -> Option<SpdmErrorCode> {
    match spec_handler_request_error(c, SpdmHandler::Digest, bytes, 4) {
        Some(error_code) => Some(error_code),
        None => if spec_digests_in_order(c, digests) {
            None
        } else {
            Some(SpdmErrorCode::SpdmErrorUnspecified)
        },
    }
}

/// What answering GET_DIGESTS does: a request in order is answered with the
/// mask of the slots that hold a chain and the digests of those chains, and
/// the exchange is recorded: transcript B starts over with the request and
/// the response.
pub open spec fn spec_digest_answered(
    before: &SpdmContext,
    after: &SpdmContext,
    session_id: Option<u32>,
    bytes: Seq<u8>,
    digests: Seq<u8>,
    capacity: nat,
    written: Seq<u8>,
    out: Option<usize>,
) -> bool {
    let answer = spec_digests_response(
        before.negotiate_info.spdm_version_sel,
        spec_slot_mask(before.provision_info.my_cert_chain@, SPDM_MAX_SLOT_NUMBER as int) as u8,
        digests,
    );
    spec_answered(
        before,
        after,
        bytes,
        capacity,
        written,
        out,
        spec_digest_request_error(before, bytes, digests),
        answer,
        spec_exchange_recorded(
            before,
            after,
            SpdmRequestResponseCode::SpdmRequestGetDigests,
            session_id,
            bytes.subrange(0, 4) + answer,
        ),
    )
}

/// The portion of a chain that GET_CERTIFICATE asks for, as the CERTIFICATE
/// response that carries it: of the chain in the slot that the third byte
/// of the request names, from the offset in its fifth and sixth byte on, as
/// many bytes as its seventh and eighth byte ask for, but no more than
/// `MAX_SPDM_CERT_PORTION_LEN` and no more than the chain has. `None` when
/// the slot does not exist or holds no chain, or the offset lies past the
/// end of the chain.
pub open spec fn spec_certificate_answer(c: &SpdmContext, bytes: Seq<u8>) -> Option<Seq<u8>> {
    let slot_id = bytes[2];
    let offset = bytes[4] + 256 * bytes[5];
    let length = bytes[6] + 256 * bytes[7];
    if slot_id >= SPDM_MAX_SLOT_NUMBER {
        None
    } else {
        match c.provision_info.my_cert_chain@[slot_id as int] {
            Some(chain) => if offset > chain@.len() {
                None
            } else {
                let wanted = if length > MAX_SPDM_CERT_PORTION_LEN {
                    MAX_SPDM_CERT_PORTION_LEN as int
                } else {
                    length
                };
                let portion = if wanted > chain@.len() - offset {
                    chain@.len() - offset
                } else {
                    wanted
                };
                Some(
                    spec_certificate_response(
                        c.negotiate_info.spdm_version_sel,
                        slot_id,
                        chain@.subrange(offset, offset + portion),
                        (chain@.len() - offset - portion) as u16,
                    ),
                )
            },
            None => None,
        }
    }
}

/// The SPDM ERROR that answers GET_CERTIFICATE, or `None` when the request
/// is in order: `InvalidRequest` when it asks for what is not there,
/// `Unspecified` when transcript B cannot take the exchange.
pub open spec fn spec_certificate_request_error(
    c: &SpdmContext,
    session_id: Option<u32>,
    bytes: Seq<u8>,
) -> Option<SpdmErrorCode> {
    match spec_handler_request_error(c, SpdmHandler::Certificate, bytes, 8) {
        Some(error_code) => Some(error_code),
        None => match spec_certificate_answer(c, bytes) {
            Some(answer) => if spec_exchange_fits(
                c,
                SpdmRequestResponseCode::SpdmRequestGetCertificate,
                session_id,
                8 + answer.len(),
            ) {
                None
            } else {
                Some(SpdmErrorCode::SpdmErrorUnspecified)
            },
            None => Some(SpdmErrorCode::SpdmErrorInvalidRequest),
        },
    }
}

/// What answering GET_CERTIFICATE does: a request in order is answered with
/// the portion of the chain it asks for, and the exchange is recorded in
/// transcript B.
pub open spec fn spec_certificate_answered(
    before: &SpdmContext,
    after: &SpdmContext,
    session_id: Option<u32>,
    bytes: Seq<u8>,
    capacity: nat,
    written: Seq<u8>,
    out: Option<usize>,
) -> bool {
    let answer = match spec_certificate_answer(before, bytes) {
        Some(answer) => answer,
        None => Seq::empty(),
    };
    spec_answered(
        before,
        after,
        bytes,
        capacity,
        written,
        out,
        spec_certificate_request_error(before, session_id, bytes),
        answer,
        spec_exchange_recorded(
            before,
            after,
            SpdmRequestResponseCode::SpdmRequestGetCertificate,
            session_id,
            bytes.subrange(0, 8) + answer,
        ),
    )
}

impl ResponderContext {
    /// Tests the header of a request of at least `len` bytes and the
    /// preconditions of its handler. The result is the SPDM ERROR that
    /// answers the request, or `None` when these are in order.
    pub fn check_handler_request(&self, handler: SpdmHandler, bytes: &[u8], len: usize) -> (r:
        Option<SpdmErrorCode>)
        ensures
            r == spec_handler_request_error(&self.common, handler, bytes@, len as nat),
    {
        let mut reader = Reader::init(bytes);
        assert(reader.remaining() =~= bytes@);
        match SpdmMessageHeader::read(&mut reader) {
            Some(message_header) => match self.check_request(handler, message_header.version) {
                Some(error_code) => Some(error_code),
                None => if bytes.len() < len {
                    Some(SpdmErrorCode::SpdmErrorInvalidRequest)
                } else {
                    None
                },
            },
            None => Some(SpdmErrorCode::SpdmErrorInvalidRequest),
        }
    }

    /// The mask of the slots that hold a chain in wire form, and their
    /// number.
    pub fn provisioned_slots(&self) -> (out: (u8, usize))
        ensures
            out.0 == spec_slot_mask(
                self.common.provision_info.my_cert_chain@,
                SPDM_MAX_SLOT_NUMBER as int,
            ),
            out.1 == spec_chain_count(
                self.common.provision_info.my_cert_chain@,
                SPDM_MAX_SLOT_NUMBER as int,
            ),
            out.1 <= SPDM_MAX_SLOT_NUMBER,
    {
        let chains = &self.common.provision_info.my_cert_chain;
        let mut mask: u8 = 0;
        let mut count: usize = 0;
        let mut bit: u16 = 1;
        let mut i: usize = 0;
        while i < SPDM_MAX_SLOT_NUMBER
            invariant
                0 <= i <= SPDM_MAX_SLOT_NUMBER,
                SPDM_MAX_SLOT_NUMBER == 8,
                chains@.len() == SPDM_MAX_SLOT_NUMBER,
                i < 8 ==> bit == spec_slot_bit(i as int),
                i == 8 ==> bit == 256,
                mask < bit,
                mask == spec_slot_mask(chains@, i as int),
                count == spec_chain_count(chains@, i as int),
                count <= i,
            decreases SPDM_MAX_SLOT_NUMBER - i,
        {
            if chains[i].is_some() {
                mask = mask + (bit as u8);
                count = count + 1;
            }
            bit = bit * 2;
            i = i + 1;
        }
        (mask, count)
    }

    /// Answers GET_DIGESTS with the digests that the caller computed over
    /// the endpoint's chains in wire form, one for each slot that holds a
    /// chain, lowest slot first: DIGESTS replaces what `writer` holds.
    ///
    /// A request in order prepares the transcripts and, outside any
    /// session, starts transcript B over with the request and the response.
    /// A request that is not in order is answered with an SPDM ERROR and
    /// changes nothing; so are digests that are not one digest of the
    /// selected hash algorithm for each chain (`Unspecified`). When the
    /// writer cannot hold the answer, it is left empty, nothing changes and
    /// the result is `None`; otherwise the result is the length of the
    /// answer.
    pub fn handle_spdm_digest(
        &mut self,
        bytes: &[u8],
        session_id: Option<u32>,
        digests: &[u8],
        writer: &mut Writer,
    ) -> (out: Option<usize>)
        ensures
            final(writer).wf(),
            final(writer).capacity() == old(writer).capacity(),
            old(self).common.wf() ==> final(self).common.wf(),
            spec_digest_answered(
                &old(self).common,
                &final(self).common,
                session_id,
                bytes@,
                digests@,
                old(writer).capacity(),
                final(writer).written(),
                out,
            ),
    {
        match self.check_handler_request(SpdmHandler::Digest, bytes, 4) {
            Some(error_code) => {
                return self.handle_error_request(error_code, bytes, writer);
            },
            None => {},
        }
        let (slot_mask, count) = self.provisioned_slots();
        let size = self.common.negotiate_info.base_hash_sel.get_size() as usize;
        assert(count * size <= 512) by (nonlinear_arith)
            requires
                count <= 8,
                size <= 64,
        ;
        if size == 0 || digests.len() != count * size {
            return self.handle_error_request(SpdmErrorCode::SpdmErrorUnspecified, bytes, writer);
        }
        writer.clear();
        if writer.left() < 4 + digests.len() {
            return None;
        }
        let front: [u8; 4] = [
            self.common.negotiate_info.spdm_version_sel.get_u8(),
            0x01,
            0,
            slot_mask,
        ];
        let _ = writer.extend_from_slice(&front);
        let _ = writer.extend_from_slice(digests);
        assert(writer.written() =~= spec_digests_response(
            self.common.negotiate_info.spdm_version_sel,
            slot_mask,
            digests@,
        ));
        let request = vstd::slice::slice_subrange(bytes, 0, 4);
        let _ = self.common.record_exchange(
            SpdmRequestResponseCode::SpdmRequestGetDigests,
            session_id,
            request,
            writer.used_slice(),
        );
        Some(writer.used())
    }

    /// Answers GET_CERTIFICATE with the portion of the chain it asks for:
    /// CERTIFICATE replaces what `writer` holds.
    ///
    /// The portion is taken from the chain in wire form of the slot named,
    /// from the offset named on; it is as long as asked for, but no longer
    /// than `MAX_SPDM_CERT_PORTION_LEN` and no longer than what the chain
    /// has from there on. A request in order prepares the transcripts and,
    /// outside any session, appends the request and the response to
    /// transcript B. A request that is not in order is answered with an
    /// SPDM ERROR and changes nothing: `InvalidRequest` when the slot does
    /// not exist or holds no chain or the offset lies past the end of the
    /// chain, `Unspecified` when transcript B cannot take the exchange. When
    /// the writer cannot hold the answer, it is left empty, nothing changes
    /// and the result is `None`; otherwise the result is the length of the
    /// answer.
    pub fn handle_spdm_certificate(
        &mut self,
        bytes: &[u8],
        session_id: Option<u32>,
        writer: &mut Writer,
    ) -> (out: Option<usize>)
        ensures
            final(writer).wf(),
            final(writer).capacity() == old(writer).capacity(),
            old(self).common.wf() ==> final(self).common.wf(),
            spec_certificate_answered(
                &old(self).common,
                &final(self).common,
                session_id,
                bytes@,
                old(writer).capacity(),
                final(writer).written(),
                out,
            ),
    {
        match self.check_handler_request(SpdmHandler::Certificate, bytes, 8) {
            Some(error_code) => {
                return self.handle_error_request(error_code, bytes, writer);
            },
            None => {},
        }
        let slot_id = bytes[2];
        let offset: usize = bytes[4] as usize + 256 * (bytes[5] as usize);
        let length: usize = bytes[6] as usize + 256 * (bytes[7] as usize);
        if slot_id as usize >= SPDM_MAX_SLOT_NUMBER {
            return self.handle_error_request(
                SpdmErrorCode::SpdmErrorInvalidRequest,
                bytes,
                writer,
            );
        }
        let version = self.common.negotiate_info.spdm_version_sel;
        let (chain_len, portion) = match &self.common.provision_info.my_cert_chain[slot_id
            as usize] {
            Some(chain) => {
                let chain_len = chain.len();
                if offset > chain_len {
                    (chain_len, None)
                } else {
                    let wanted = if length > MAX_SPDM_CERT_PORTION_LEN as usize {
                        MAX_SPDM_CERT_PORTION_LEN as usize
                    } else {
                        length
                    };
                    let portion = if wanted > chain_len - offset {
                        chain_len - offset
                    } else {
                        wanted
                    };
                    (chain_len, Some(portion))
                }
            },
            None => (0, None),
        };
        let portion = match portion {
            Some(portion) => portion,
            None => {
                return self.handle_error_request(
                    SpdmErrorCode::SpdmErrorInvalidRequest,
                    bytes,
                    writer,
                );
            },
        };
        let remainder = chain_len - offset - portion;
        if !self.common.exchange_fits(
            SpdmRequestResponseCode::SpdmRequestGetCertificate,
            session_id,
            16 + portion,
        ) {
            return self.handle_error_request(SpdmErrorCode::SpdmErrorUnspecified, bytes, writer);
        }
        writer.clear();
        if writer.left() < 8 + portion {
            return None;
        }
        let front: [u8; 4] = [version.get_u8(), 0x02, slot_id, 0];
        let _ = writer.extend_from_slice(&front);
        let _ = (portion as u16).encode(writer);
        let _ = (remainder as u16).encode(writer);
        match &self.common.provision_info.my_cert_chain[slot_id as usize] {
            Some(chain) => {
                let _ = writer.extend_from_slice(
                    vstd::slice::slice_subrange(chain.as_slice(), offset, offset + portion),
                );
            },
            None => {},
        }
        assert(writer.written() =~= spec_certificate_answer(&self.common, bytes@).unwrap());
        let request = vstd::slice::slice_subrange(bytes, 0, 8);
        let _ = self.common.record_exchange(
            SpdmRequestResponseCode::SpdmRequestGetCertificate,
            session_id,
            request,
            writer.used_slice(),
        );
        Some(writer.used())
    }
}

} // verus!
