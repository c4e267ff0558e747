//! Vendor-defined requests and responses.

use crate::codec::{spec_u16_le, Codec, Reader, Writer};
use crate::common::managed_buffer::BoundedBytes;
use crate::config::{MAX_SPDM_VENDOR_DEFINED_PAYLOAD_SIZE, MAX_SPDM_VENDOR_DEFINED_VENDOR_ID_LEN};
use vstd::prelude::*;

verus! {

/// The registry or standards body that assigned a vendor identifier.
#[derive(Clone, Copy, Debug, PartialEq, Eq, Structural)]
pub enum RegistryOrStandardsBodyID {
    /// DMTF.
    DMTF,
    /// Trusted Computing Group.
    TCG,
    /// USB Implementers Forum.
    USB,
    /// PCI-SIG.
    PCISIG,
    /// IANA.
    IANA,
    /// HDBaseT Alliance.
    HDBASET,
    /// MIPI Alliance.
    MIPI,
    /// Compute Express Link Consortium.
    CXL,
    /// JEDEC.
    JEDEC,
    /// A number that names none of the above.
    Unknown(u16),
}

impl RegistryOrStandardsBodyID {
    /// The number that stands for the body on the wire.
    pub open spec fn spec_get_u16(&self) -> u16 {
        match *self {
            RegistryOrStandardsBodyID::DMTF => 0,
            RegistryOrStandardsBodyID::TCG => 1,
            RegistryOrStandardsBodyID::USB => 2,
            RegistryOrStandardsBodyID::PCISIG => 3,
            RegistryOrStandardsBodyID::IANA => 4,
            RegistryOrStandardsBodyID::HDBASET => 5,
            RegistryOrStandardsBodyID::MIPI => 6,
            RegistryOrStandardsBodyID::CXL => 7,
            RegistryOrStandardsBodyID::JEDEC => 8,
            RegistryOrStandardsBodyID::Unknown(x) => x,
        }
    }

    /// The body that a number stands for.
    pub open spec fn spec_from_u16(x: u16) -> Self {
        if x == 0 {
            RegistryOrStandardsBodyID::DMTF
        } else if x == 1 {
            RegistryOrStandardsBodyID::TCG
        } else if x == 2 {
            RegistryOrStandardsBodyID::USB
        } else if x == 3 {
            RegistryOrStandardsBodyID::PCISIG
        } else if x == 4 {
            RegistryOrStandardsBodyID::IANA
        } else if x == 5 {
            RegistryOrStandardsBodyID::HDBASET
        } else if x == 6 {
            RegistryOrStandardsBodyID::MIPI
        } else if x == 7 {
            RegistryOrStandardsBodyID::CXL
        } else if x == 8 {
            RegistryOrStandardsBodyID::JEDEC
        } else {
            RegistryOrStandardsBodyID::Unknown(x)
        }
    }

    /// The number that stands for the body on the wire.
    pub fn get_u16(&self) -> (x: u16)
        ensures
            x == self.spec_get_u16(),
    {
        match *self {
            RegistryOrStandardsBodyID::DMTF => 0,
            RegistryOrStandardsBodyID::TCG => 1,
            RegistryOrStandardsBodyID::USB => 2,
            RegistryOrStandardsBodyID::PCISIG => 3,
            RegistryOrStandardsBodyID::IANA => 4,
            RegistryOrStandardsBodyID::HDBASET => 5,
            RegistryOrStandardsBodyID::MIPI => 6,
            RegistryOrStandardsBodyID::CXL => 7,
            RegistryOrStandardsBodyID::JEDEC => 8,
            RegistryOrStandardsBodyID::Unknown(x) => x,
        }
    }

    /// The body that a number stands for.
    pub fn from_u16(x: u16) -> (v: Self)
        ensures
            v == Self::spec_from_u16(x),
            v.spec_get_u16() == x,
    {
        if x == 0 {
            RegistryOrStandardsBodyID::DMTF
        } else if x == 1 {
            RegistryOrStandardsBodyID::TCG
        } else if x == 2 {
            RegistryOrStandardsBodyID::USB
        } else if x == 3 {
            RegistryOrStandardsBodyID::PCISIG
        } else if x == 4 {
            RegistryOrStandardsBodyID::IANA
        } else if x == 5 {
            RegistryOrStandardsBodyID::HDBASET
        } else if x == 6 {
            RegistryOrStandardsBodyID::MIPI
        } else if x == 7 {
            RegistryOrStandardsBodyID::CXL
        } else if x == 8 {
            RegistryOrStandardsBodyID::JEDEC
        } else {
            RegistryOrStandardsBodyID::Unknown(x)
        }
    }
}

impl View for RegistryOrStandardsBodyID {
    type V = RegistryOrStandardsBodyID;

    open spec fn view(&self) -> RegistryOrStandardsBodyID {
        *self
    }
}

impl Codec for RegistryOrStandardsBodyID {
    open spec fn spec_encode(v: Self) -> Seq<u8> {
        spec_u16_le(v.spec_get_u16())
    }

    open spec fn spec_read(bytes: Seq<u8>) -> Option<(Self, nat)> {
        match u16::spec_read(bytes) {
            Some((x, n)) => Some((Self::spec_from_u16(x), n)),
            None => None,
        }
    }

    open spec fn spec_canonical(v: Self) -> bool {
        Self::spec_from_u16(v.spec_get_u16()) == v
    }

    fn encode(&self, bytes: &mut Writer) -> (out: Option<usize>) {
        self.get_u16().encode(bytes)
    }

    fn read(r: &mut Reader) -> (out: Option<Self>) {
        match u16::read(r) {
            Some(x) => Some(Self::from_u16(x)),
            None => None,
        }
    }

    proof fn lemma_read_encode(bytes: Seq<u8>) {
        u16::lemma_read_encode(bytes);
    }

    proof fn lemma_encode_read(v: Self, rest: Seq<u8>) {
        u16::lemma_encode_read(v.spec_get_u16(), rest);
    }
}

/// The identifier of a vendor: at most
/// `MAX_SPDM_VENDOR_DEFINED_VENDOR_ID_LEN` bytes. On the wire its length
/// goes before it, in one byte.
#[derive(Debug)]
pub struct VendorIDStruct {
    id: BoundedBytes<MAX_SPDM_VENDOR_DEFINED_VENDOR_ID_LEN>,
}

impl View for VendorIDStruct {
    type V = Seq<u8>;

    /// The bytes of the identifier.
    closed spec fn view(&self) -> Seq<u8> {
        self.id@
    }
}

impl Clone for VendorIDStruct {
    fn clone(&self) -> (c: Self)
        ensures
            c == *self,
    {
        VendorIDStruct { id: self.id.clone() }
    }
}

impl VendorIDStruct {
    /// The identifier `bytes`, or `None` when it is too long.
    pub fn new(bytes: &[u8]) -> (out: Option<Self>)
        ensures
            out is Some <==> bytes@.len() <= MAX_SPDM_VENDOR_DEFINED_VENDOR_ID_LEN,
            out matches Some(v) ==> v@ == bytes@,
    {
        match BoundedBytes::from_slice(bytes) {
            Some(id) => Some(VendorIDStruct { id }),
            None => None,
        }
    }

    /// The bytes of the identifier.
    pub fn as_slice(&self) -> (out: &[u8])
        ensures
            out@ == self@,
            out@.len() <= MAX_SPDM_VENDOR_DEFINED_VENDOR_ID_LEN,
    {
        self.id.as_slice()
    }
}

impl Codec for VendorIDStruct {
    open spec fn spec_encode(v: Seq<u8>) -> Seq<u8> {
        seq![v.len() as u8] + v
    }

    open spec fn spec_read(bytes: Seq<u8>) -> Option<(Seq<u8>, nat)> {
        if bytes.len() >= 1 && bytes[0] <= MAX_SPDM_VENDOR_DEFINED_VENDOR_ID_LEN && bytes.len()
            >= 1 + bytes[0] {
            Some((bytes.subrange(1, 1 + bytes[0]), (1 + bytes[0]) as nat))
        } else {
            None
        }
    }

    open spec fn spec_canonical(v: Seq<u8>) -> bool {
        v.len() <= MAX_SPDM_VENDOR_DEFINED_VENDOR_ID_LEN
    }

    fn encode(&self, bytes: &mut Writer) -> (out: Option<usize>) {
        let id = self.as_slice();
        if bytes.left() < 1 + id.len() {
            return None;
        }
        let _ = bytes.push(id.len() as u8);
        let _ = bytes.extend_from_slice(id);
        assert(bytes.written() =~= old(bytes).written() + Self::spec_encode(self@));
        Some(1 + id.len())
    }

    fn read(r: &mut Reader) -> (out: Option<Self>) {
        let mut probe = *r;
        let len = match u8::read(&mut probe) {
            Some(len) => len,
            None => {
                return None;
            },
        };
        proof {
            r.lemma_advanced(&probe, 1);
        }
        let ghost mid = probe;
        let id = match probe.take(len as usize) {
            Some(id) => id,
            None => {
                return None;
            },
        };
        match VendorIDStruct::new(id) {
            Some(v) => {
                *r = probe;
                assert(v@ =~= old(r).remaining().subrange(1, 1 + len));
                Some(v)
            },
            None => None,
        }
    }

    proof fn lemma_read_encode(bytes: Seq<u8>) {
        if let Some((v, n)) = Self::spec_read(bytes) {
            assert(Self::spec_encode(v) =~= bytes.subrange(0, n as int));
        }
    }

    proof fn lemma_encode_read(v: Seq<u8>, rest: Seq<u8>) {
        let bytes = Self::spec_encode(v) + rest;
        assert(bytes[0] == v.len());
        assert(bytes.subrange(1, 1 + v.len() as int) =~= v);
    }
}

/// The payload of a vendor-defined message: at most
/// `MAX_SPDM_VENDOR_DEFINED_PAYLOAD_SIZE` bytes. On the wire its length goes
/// before it, in two bytes, least significant first.
#[derive(Debug)]
pub struct VendorDefinedPayloadStruct {
    payload: BoundedBytes<MAX_SPDM_VENDOR_DEFINED_PAYLOAD_SIZE>,
}

/// The payload of a vendor-defined request.
pub type VendorDefinedReqPayloadStruct = VendorDefinedPayloadStruct;

/// The payload of a vendor-defined response.
pub type VendorDefinedRspPayloadStruct = VendorDefinedPayloadStruct;

impl View for VendorDefinedPayloadStruct {
    type V = Seq<u8>;

    /// The bytes of the payload.
    closed spec fn view(&self) -> Seq<u8> {
        self.payload@
    }
}

impl Clone for VendorDefinedPayloadStruct {
    fn clone(&self) -> (c: Self)
        ensures
            c == *self,
    {
        VendorDefinedPayloadStruct { payload: self.payload.clone() }
    }
}

impl VendorDefinedPayloadStruct {
    /// The payload `bytes`, or `None` when it is too long.
    pub fn new(bytes: &[u8]) -> (out: Option<Self>)
        ensures
            out is Some <==> bytes@.len() <= MAX_SPDM_VENDOR_DEFINED_PAYLOAD_SIZE,
            out matches Some(v) ==> v@ == bytes@,
    {
        match BoundedBytes::from_slice(bytes) {
            Some(payload) => Some(VendorDefinedPayloadStruct { payload }),
            None => None,
        }
    }

    /// The bytes of the payload.
    pub fn as_slice(&self) -> (out: &[u8])
        ensures
            out@ == self@,
            out@.len() <= MAX_SPDM_VENDOR_DEFINED_PAYLOAD_SIZE,
    {
        self.payload.as_slice()
    }
}

impl Codec for VendorDefinedPayloadStruct {
    open spec fn spec_encode(v: Seq<u8>) -> Seq<u8> {
        spec_u16_le(v.len() as u16) + v
    }

    open spec fn spec_read(bytes: Seq<u8>) -> Option<(Seq<u8>, nat)> {
        match u16::spec_read(bytes) {
            Some((len, _)) => if len <= MAX_SPDM_VENDOR_DEFINED_PAYLOAD_SIZE && bytes.len() >= 2
                + len {
                Some((bytes.subrange(2, 2 + len), (2 + len) as nat))
            } else {
                None
            },
            None => None,
        }
    }

    open spec fn spec_canonical(v: Seq<u8>) -> bool {
        v.len() <= MAX_SPDM_VENDOR_DEFINED_PAYLOAD_SIZE
    }

    fn encode(&self, bytes: &mut Writer) -> (out: Option<usize>) {
        let payload = self.as_slice();
        if bytes.left() < 2 + payload.len() {
            return None;
        }
        let _ = (payload.len() as u16).encode(bytes);
        let _ = bytes.extend_from_slice(payload);
        assert(bytes.written() =~= old(bytes).written() + Self::spec_encode(self@));
        Some(2 + payload.len())
    }

    fn read(r: &mut Reader) -> (out: Option<Self>) {
        let mut probe = *r;
        let len = match u16::read(&mut probe) {
            Some(len) => len,
            None => {
                return None;
            },
        };
        proof {
            r.lemma_advanced(&probe, 2);
        }
        let payload = match probe.take(len as usize) {
            Some(payload) => payload,
            None => {
                return None;
            },
        };
        match VendorDefinedPayloadStruct::new(payload) {
            Some(v) => {
                *r = probe;
                assert(v@ =~= old(r).remaining().subrange(2, 2 + len));
                Some(v)
            },
            None => None,
        }
    }

    proof fn lemma_read_encode(bytes: Seq<u8>) {
        if let Some((v, n)) = Self::spec_read(bytes) {
            u16::lemma_read_encode(bytes);
            let len = u16::spec_read(bytes).unwrap().0;
            assert(spec_u16_le(len) == bytes.subrange(0, 2));
            assert(Self::spec_encode(v) =~= bytes.subrange(0, n as int));
        }
    }

    proof fn lemma_encode_read(v: Seq<u8>, rest: Seq<u8>) {
        let bytes = Self::spec_encode(v) + rest;
        u16::lemma_encode_read(v.len() as u16, v + rest);
        assert(bytes =~= spec_u16_le(v.len() as u16) + (v + rest));
        assert(bytes.subrange(2, 2 + v.len() as int) =~= v);
    }
}

/// What a vendor-defined message carries, as plain values.
pub struct SpdmVendorDefinedView {
    /// Who assigned the vendor identifier.
    pub standard_id: RegistryOrStandardsBodyID,
    /// The vendor identifier.
    pub vendor_id: Seq<u8>,
    /// The payload.
    pub payload: Seq<u8>,
}

/// What follows the header of a vendor-defined message: two reserved bytes
/// of zero, the registry, the vendor identifier under its length, and the
/// payload under its length.
pub open spec fn spec_vendor_defined_encode(v: SpdmVendorDefinedView) -> Seq<u8> {
    seq![0u8, 0u8] + RegistryOrStandardsBodyID::spec_encode(v.standard_id)
        + VendorIDStruct::spec_encode(v.vendor_id) + VendorDefinedPayloadStruct::spec_encode(
        v.payload,
    )
}

/// What `bytes` carries when read as what follows the header of a
/// vendor-defined message, and how many bytes that takes. The two reserved
/// bytes are skipped unread.
pub open spec fn spec_vendor_defined_read(bytes: Seq<u8>) -> Option<(SpdmVendorDefinedView, nat)> {
    if bytes.len() < 2 {
        None
    } else {
        match RegistryOrStandardsBodyID::spec_read(bytes.skip(2)) {
            Some((standard_id, id_len)) => match VendorIDStruct::spec_read(
                bytes.skip(2 + id_len as int),
            ) {
                Some((vendor_id, vendor_len)) => match VendorDefinedPayloadStruct::spec_read(
                    bytes.skip(2 + id_len as int + vendor_len as int),
                ) {
                    Some((payload, payload_len)) => Some(
                        (
                            SpdmVendorDefinedView { standard_id, vendor_id, payload },
                            (2 + id_len + vendor_len + payload_len) as nat,
                        ),
                    ),
                    None => None,
                },
                None => None,
            },
            None => None,
        }
    }
}

/// Whether the parts of a vendor-defined message are the ones that reading
/// their own encoding gives back.
pub open spec fn spec_vendor_defined_canonical(v: SpdmVendorDefinedView) -> bool {
    &&& RegistryOrStandardsBodyID::spec_canonical(v.standard_id)
    &&& VendorIDStruct::spec_canonical(v.vendor_id)
    &&& VendorDefinedPayloadStruct::spec_canonical(v.payload)
}

/// Reading the encoding of a vendor-defined message, whatever follows it,
/// gives its parts back and consumes exactly the encoding.
pub proof fn lemma_vendor_defined_encode_read(v: SpdmVendorDefinedView, rest: Seq<u8>)
    requires
        spec_vendor_defined_canonical(v),
    ensures
        spec_vendor_defined_read(spec_vendor_defined_encode(v) + rest) == Some(
            (v, spec_vendor_defined_encode(v).len()),
        ),
{
    let e1 = RegistryOrStandardsBodyID::spec_encode(v.standard_id);
    let e2 = VendorIDStruct::spec_encode(v.vendor_id);
    let e3 = VendorDefinedPayloadStruct::spec_encode(v.payload);
    let bytes = spec_vendor_defined_encode(v) + rest;
    RegistryOrStandardsBodyID::lemma_encode_read(v.standard_id, e2 + e3 + rest);
    VendorIDStruct::lemma_encode_read(v.vendor_id, e3 + rest);
    VendorDefinedPayloadStruct::lemma_encode_read(v.payload, rest);
    assert(bytes.skip(2) =~= e1 + (e2 + e3 + rest));
    assert(bytes.skip(2 + e1.len() as int) =~= e2 + (e3 + rest));
    assert(bytes.skip(2 + e1.len() as int + e2.len() as int) =~= e3 + rest);
}

/// What is read from a vendor-defined message is canonical, lies within the
/// input, and encodes to the bytes it was read from, but for the two
/// reserved bytes, which encode as zero whatever was read.
pub proof fn lemma_vendor_defined_read_encode(bytes: Seq<u8>)
    ensures
        spec_vendor_defined_read(bytes) matches Some((v, n)) ==> n <= bytes.len()
            && spec_vendor_defined_canonical(v) && spec_vendor_defined_encode(v).skip(2)
            == bytes.subrange(2, n as int),
{
    if let Some((v, n)) = spec_vendor_defined_read(bytes) {
        let b1 = bytes.skip(2);
        RegistryOrStandardsBodyID::lemma_read_encode(b1);
        let id_len = RegistryOrStandardsBodyID::spec_read(b1).unwrap().1;
        let b2 = bytes.skip(2 + id_len as int);
        VendorIDStruct::lemma_read_encode(b2);
        let vendor_len = VendorIDStruct::spec_read(b2).unwrap().1;
        let b3 = bytes.skip(2 + id_len as int + vendor_len as int);
        VendorDefinedPayloadStruct::lemma_read_encode(b3);
        let payload_len = VendorDefinedPayloadStruct::spec_read(b3).unwrap().1;
        let read = b1.subrange(0, id_len as int) + b2.subrange(0, vendor_len as int)
            + b3.subrange(0, payload_len as int);
        assert(spec_vendor_defined_encode(v).skip(2) =~= read);
        assert(read =~= bytes.subrange(2, n as int));
    }
}

/// Appends what follows the header of a vendor-defined message. When it
/// does not fit, nothing is written and the result is `None`.
fn encode_vendor_defined(
    standard_id: &RegistryOrStandardsBodyID,
    vendor_id: &VendorIDStruct,
    payload: &VendorDefinedPayloadStruct,
    bytes: &mut Writer,
) -> (out: Option<usize>)
    ensures
        final(bytes).wf(),
        final(bytes).capacity() == old(bytes).capacity(),
        out is Some <==> spec_vendor_defined_encode(
            SpdmVendorDefinedView {
                standard_id: *standard_id,
                vendor_id: vendor_id@,
                payload: payload@,
            },
        ).len() <= old(bytes).spec_left(),
        out matches Some(n) ==> n == spec_vendor_defined_encode(
            SpdmVendorDefinedView {
                standard_id: *standard_id,
                vendor_id: vendor_id@,
                payload: payload@,
            },
        ).len() && final(bytes).written() == old(bytes).written() + spec_vendor_defined_encode(
            SpdmVendorDefinedView {
                standard_id: *standard_id,
                vendor_id: vendor_id@,
                payload: payload@,
            },
        ),
        out is None ==> final(bytes).written() == old(bytes).written(),
{
    let total = 2 + 2 + (1 + vendor_id.as_slice().len()) + (2 + payload.as_slice().len());
    if bytes.left() < total {
        return None;
    }
    let reserved: [u8; 2] = [0, 0];
    let _ = bytes.extend_from_slice(&reserved);
    let _ = standard_id.encode(bytes);
    let _ = vendor_id.encode(bytes);
    let _ = payload.encode(bytes);
    assert(reserved@ =~= seq![0u8, 0u8]);
    assert(bytes.written() =~= old(bytes).written() + spec_vendor_defined_encode(
        SpdmVendorDefinedView {
            standard_id: *standard_id,
            vendor_id: vendor_id@,
            payload: payload@,
        },
    ));
    Some(total)
}

/// Reads what follows the header of a vendor-defined message. When what is
/// left does not hold one, nothing is consumed and the result is `None`.
fn read_vendor_defined(r: &mut Reader) -> (out: Option<
    (RegistryOrStandardsBodyID, VendorIDStruct, VendorDefinedPayloadStruct),
>)
    ensures
        old(r).wf(),
        out is Some <==> spec_vendor_defined_read(old(r).remaining()) is Some,
        out matches Some(parts) ==> spec_vendor_defined_read(old(r).remaining()) matches Some(
            (v, n),
        ) && v == (SpdmVendorDefinedView {
            standard_id: parts.0,
            vendor_id: parts.1@,
            payload: parts.2@,
        }) && old(r).advanced(final(r), n),
        out is None ==> *final(r) == *old(r),
{
    let mut probe = *r;
    let ghost all = r.remaining();
    if probe.take(2).is_none() {
        return None;
    }
    proof {
        r.lemma_advanced(&probe, 2);
    }
    let ghost at_standard = probe;
    let standard_id = match RegistryOrStandardsBodyID::read(&mut probe) {
        Some(standard_id) => standard_id,
        None => {
            return None;
        },
    };
    let ghost id_len = RegistryOrStandardsBodyID::spec_read(all.skip(2)).unwrap().1;
    proof {
        at_standard.lemma_advanced(&probe, id_len);
        assert(probe.remaining() =~= all.skip(2 + id_len as int));
    }
    let ghost at_vendor = probe;
    let vendor_id = match VendorIDStruct::read(&mut probe) {
        Some(vendor_id) => vendor_id,
        None => {
            return None;
        },
    };
    let ghost vendor_len = VendorIDStruct::spec_read(all.skip(2 + id_len as int)).unwrap().1;
    proof {
        at_vendor.lemma_advanced(&probe, vendor_len);
        assert(probe.remaining() =~= all.skip(2 + id_len as int + vendor_len as int));
    }
    let payload = match VendorDefinedPayloadStruct::read(&mut probe) {
        Some(payload) => payload,
        None => {
            return None;
        },
    };
    *r = probe;
    Some((standard_id, vendor_id, payload))
}

/// What follows the header of VENDOR_DEFINED_REQUEST.
#[derive(Debug)]
pub struct SpdmVendorDefinedRequestPayload {
    /// Who assigned the vendor identifier.
    pub standard_id: RegistryOrStandardsBodyID,
    /// The vendor identifier.
    pub vendor_id: VendorIDStruct,
    /// The payload of the request.
    pub req_payload: VendorDefinedReqPayloadStruct,
}

/// What follows the header of VENDOR_DEFINED_RESPONSE.
#[derive(Debug)]
pub struct SpdmVendorDefinedResponsePayload {
    /// Who assigned the vendor identifier.
    pub standard_id: RegistryOrStandardsBodyID,
    /// The vendor identifier.
    pub vendor_id: VendorIDStruct,
    /// The payload of the response.
    pub rsp_payload: VendorDefinedRspPayloadStruct,
}

impl View for SpdmVendorDefinedRequestPayload {
    type V = SpdmVendorDefinedView;

    open spec fn view(&self) -> SpdmVendorDefinedView {
        SpdmVendorDefinedView {
            standard_id: self.standard_id,
            vendor_id: self.vendor_id@,
            payload: self.req_payload@,
        }
    }
}

impl View for SpdmVendorDefinedResponsePayload {
    type V = SpdmVendorDefinedView;

    open spec fn view(&self) -> SpdmVendorDefinedView {
        SpdmVendorDefinedView {
            standard_id: self.standard_id,
            vendor_id: self.vendor_id@,
            payload: self.rsp_payload@,
        }
    }
}

impl Clone for SpdmVendorDefinedRequestPayload {
    fn clone(&self) -> (c: Self)
        ensures
            c == *self,
    {
        SpdmVendorDefinedRequestPayload {
            standard_id: self.standard_id,
            vendor_id: self.vendor_id.clone(),
            req_payload: self.req_payload.clone(),
        }
    }
}

impl SpdmVendorDefinedRequestPayload {
    /// Appends the payload as it follows the header. When it does not fit,
    /// nothing is written and the result is `None`.
    pub fn spdm_encode(&self, bytes: &mut Writer) -> (out: Option<usize>)
        ensures
            final(bytes).wf(),
            final(bytes).capacity() == old(bytes).capacity(),
            out is Some <==> spec_vendor_defined_encode(self@).len() <= old(bytes).spec_left(),
            out matches Some(n) ==> n == spec_vendor_defined_encode(self@).len()
                && final(bytes).written() == old(bytes).written()
                    + spec_vendor_defined_encode(self@),
            out is None ==> final(bytes).written() == old(bytes).written(),
    {
        encode_vendor_defined(&self.standard_id, &self.vendor_id, &self.req_payload, bytes)
    }

    /// Reads the payload as it follows the header. When what is left does
    /// not hold one, nothing is consumed and the result is `None`.
    pub fn spdm_read(r: &mut Reader) -> (out: Option<Self>)
        ensures
            old(r).wf(),
            out is Some <==> spec_vendor_defined_read(old(r).remaining()) is Some,
            out matches Some(p) ==> spec_vendor_defined_read(old(r).remaining()) matches Some(
                (v, n),
            ) && p@ == v && old(r).advanced(final(r), n),
            out is None ==> *final(r) == *old(r),
    {
        match read_vendor_defined(r) {
            Some((standard_id, vendor_id, req_payload)) => Some(
                SpdmVendorDefinedRequestPayload { standard_id, vendor_id, req_payload },
            ),
            None => None,
        }
    }
}

impl Clone for SpdmVendorDefinedResponsePayload {
    fn clone(&self) -> (c: Self)
        ensures
            c == *self,
    {
        SpdmVendorDefinedResponsePayload {
            standard_id: self.standard_id,
            vendor_id: self.vendor_id.clone(),
            rsp_payload: self.rsp_payload.clone(),
        }
    }
}

impl SpdmVendorDefinedResponsePayload {
    /// Appends the payload as it follows the header. When it does not fit,
    /// nothing is written and the result is `None`.
    pub fn spdm_encode(&self, bytes: &mut Writer) -> (out: Option<usize>)
        ensures
            final(bytes).wf(),
            final(bytes).capacity() == old(bytes).capacity(),
            out is Some <==> spec_vendor_defined_encode(self@).len() <= old(bytes).spec_left(),
            out matches Some(n) ==> n == spec_vendor_defined_encode(self@).len()
                && final(bytes).written() == old(bytes).written()
                    + spec_vendor_defined_encode(self@),
            out is None ==> final(bytes).written() == old(bytes).written(),
    {
        encode_vendor_defined(&self.standard_id, &self.vendor_id, &self.rsp_payload, bytes)
    }

    /// Reads the payload as it follows the header. When what is left does
    /// not hold one, nothing is consumed and the result is `None`.
    pub fn spdm_read(r: &mut Reader) -> (out: Option<Self>)
        ensures
            old(r).wf(),
            out is Some <==> spec_vendor_defined_read(old(r).remaining()) is Some,
            out matches Some(p) ==> spec_vendor_defined_read(old(r).remaining()) matches Some(
                (v, n),
            ) && p@ == v && old(r).advanced(final(r), n),
            out is None ==> *final(r) == *old(r),
    {
        match read_vendor_defined(r) {
            Some((standard_id, vendor_id, rsp_payload)) => Some(
                SpdmVendorDefinedResponsePayload { standard_id, vendor_id, rsp_payload },
            ),
            None => None,
        }
    }
}


} // verus!
