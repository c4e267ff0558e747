//! The state a protocol endpoint keeps: what it was configured with, what it
//! negotiated, where the connection stands, and its sessions.

pub mod frame;
pub mod managed_buffer;
pub mod session;

use crate::common::managed_buffer::ManagedBuffer;
use crate::common::session::{
    spec_find_session, SpdmSession, SpdmSessionState, SpdmSessionTable, SpdmSessionView,
};
use crate::config::{
    MAX_SECURE_SPDM_VERSION_COUNT, MAX_SPDM_SESSION_COUNT, MAX_SPDM_VERSION_COUNT,
    SPDM_MAX_SLOT_NUMBER,
};
use crate::error::{SpdmResult, SpdmStatus};
use crate::message::SpdmRequestResponseCode;
use crate::protocol::{
    SpdmAeadAlgo, SpdmBaseAsymAlgo, SpdmBaseHashAlgo, SpdmCertChainBuffer, SpdmCertChainData,
    SpdmDheAlgo, SpdmKeyScheduleAlgo, SpdmMeasurementHashAlgo, SpdmMeasurementSpecification,
    SpdmOpaqueSupport, SpdmReqAsymAlgo, SpdmRequestCapabilityFlags, SpdmResponseCapabilityFlags,
    SpdmVersion,
};
use vstd::prelude::*;

verus! {

/// Microseconds a responder waits for a request that needs no cryptography.
pub const ST1: u64 = 1_000_000;

/// Version 1.0 of the secured-message format.
pub const DMTF_SECURE_SPDM_VERSION_10: u8 = 0x10;

/// Version 1.1 of the secured-message format.
pub const DMTF_SECURE_SPDM_VERSION_11: u8 = 0x11;

/// How far the connection has come. The states are ordered: each is reached
/// from the ones before it.
#[derive(Clone, Copy, Debug, PartialEq, Eq, Structural)]
pub enum SpdmConnectionState {
    /// Nothing was exchanged.
    SpdmConnectionNotStarted,
    /// VERSION was sent.
    SpdmConnectionAfterVersion,
    /// CAPABILITIES was sent.
    SpdmConnectionAfterCapabilities,
    /// ALGORITHMS was sent.
    SpdmConnectionNegotiated,
    /// DIGESTS was sent.
    SpdmConnectionAfterDigest,
    /// CERTIFICATE was sent.
    SpdmConnectionAfterCertificate,
    /// CHALLENGE_AUTH was sent.
    SpdmConnectionAuthenticated,
}

impl SpdmConnectionState {
    /// The rank of the state in the order of the connection's progress.
    pub open spec fn spec_get_u8(&self) -> u8 {
        match *self {
            SpdmConnectionState::SpdmConnectionNotStarted => 0,
            SpdmConnectionState::SpdmConnectionAfterVersion => 1,
            SpdmConnectionState::SpdmConnectionAfterCapabilities => 2,
            SpdmConnectionState::SpdmConnectionNegotiated => 3,
            SpdmConnectionState::SpdmConnectionAfterDigest => 4,
            SpdmConnectionState::SpdmConnectionAfterCertificate => 5,
            SpdmConnectionState::SpdmConnectionAuthenticated => 6,
        }
    }

    /// Whether the connection has come at least as far as `other`.
    pub open spec fn spec_at_least(&self, other: SpdmConnectionState) -> bool {
        self.spec_get_u8() >= other.spec_get_u8()
    }

    /// The rank of the state in the order of the connection's progress.
    pub fn get_u8(&self) -> (x: u8)
        ensures
            x == self.spec_get_u8(),
    {
        match *self {
            SpdmConnectionState::SpdmConnectionNotStarted => 0,
            SpdmConnectionState::SpdmConnectionAfterVersion => 1,
            SpdmConnectionState::SpdmConnectionAfterCapabilities => 2,
            SpdmConnectionState::SpdmConnectionNegotiated => 3,
            SpdmConnectionState::SpdmConnectionAfterDigest => 4,
            SpdmConnectionState::SpdmConnectionAfterCertificate => 5,
            SpdmConnectionState::SpdmConnectionAuthenticated => 6,
        }
    }

    /// Whether the connection has come at least as far as `other`.
    pub fn at_least(&self, other: SpdmConnectionState) -> (b: bool)
        ensures
            b == self.spec_at_least(other),
    {
        self.get_u8() >= other.get_u8()
    }
}

/// What an endpoint is configured to offer.
pub struct SpdmConfigInfo {
    /// The protocol versions offered; `Unknown(0)` fills unused entries.
    pub spdm_version: [SpdmVersion; MAX_SPDM_VERSION_COUNT],
    /// The capabilities advertised when acting as requester.
    pub req_capabilities: SpdmRequestCapabilityFlags,
    /// The capabilities advertised when acting as responder.
    pub rsp_capabilities: SpdmResponseCapabilityFlags,
    /// Exponent of the requester's crypto timeout.
    pub req_ct_exponent: u8,
    /// Exponent of the responder's crypto timeout.
    pub rsp_ct_exponent: u8,
    /// Measurement block formats offered.
    pub measurement_specification: SpdmMeasurementSpecification,
    /// Measurement hash algorithms offered.
    pub measurement_hash_algo: SpdmMeasurementHashAlgo,
    /// Signature algorithms offered.
    pub base_asym_algo: SpdmBaseAsymAlgo,
    /// Hash algorithms offered.
    pub base_hash_algo: SpdmBaseHashAlgo,
    /// Key agreement groups offered.
    pub dhe_algo: SpdmDheAlgo,
    /// AEAD ciphers offered.
    pub aead_algo: SpdmAeadAlgo,
    /// Signature algorithms offered for the requester.
    pub req_asym_algo: SpdmReqAsymAlgo,
    /// Key schedules offered.
    pub key_schedule_algo: SpdmKeyScheduleAlgo,
    /// Opaque data formats offered.
    pub opaque_support: SpdmOpaqueSupport,
    /// Largest transfer, in bytes, this endpoint takes in one message.
    pub data_transfer_size: u32,
    /// Largest message, in bytes, this endpoint reassembles.
    pub max_spdm_msg_size: u32,
    /// Seconds between heartbeats this endpoint announces.
    pub heartbeat_period: u8,
    /// Versions of the secured-message format offered; 0 fills unused entries.
    pub secure_spdm_version: [u8; MAX_SECURE_SPDM_VERSION_COUNT],
    /// Whether the responder runs mutual authentication, that is, whether it
    /// serves the encapsulated request flow during a handshake.
    pub mut_auth: bool,
}

impl Default for SpdmConfigInfo {
    fn default() -> (c: Self)
        ensures
            c == SpdmConfigInfo::spec_default(),
    {
        SpdmConfigInfo {
            spdm_version: [
                SpdmVersion::Unknown(0),
                SpdmVersion::Unknown(0),
                SpdmVersion::Unknown(0),
            ],
            req_capabilities: SpdmRequestCapabilityFlags::empty(),
            rsp_capabilities: SpdmResponseCapabilityFlags::empty(),
            req_ct_exponent: 0,
            rsp_ct_exponent: 0,
            measurement_specification: SpdmMeasurementSpecification::empty(),
            measurement_hash_algo: SpdmMeasurementHashAlgo::empty(),
            base_asym_algo: SpdmBaseAsymAlgo::empty(),
            base_hash_algo: SpdmBaseHashAlgo::empty(),
            dhe_algo: SpdmDheAlgo::empty(),
            aead_algo: SpdmAeadAlgo::empty(),
            req_asym_algo: SpdmReqAsymAlgo::empty(),
            key_schedule_algo: SpdmKeyScheduleAlgo::empty(),
            opaque_support: SpdmOpaqueSupport::empty(),
            data_transfer_size: 0,
            max_spdm_msg_size: 0,
            heartbeat_period: 0,
            secure_spdm_version: [0, 0],
            mut_auth: false,
        }
    }
}

impl SpdmConfigInfo {
    /// The configuration that offers nothing.
    pub open spec fn spec_default() -> Self {
        SpdmConfigInfo {
            spdm_version: [
                SpdmVersion::Unknown(0),
                SpdmVersion::Unknown(0),
                SpdmVersion::Unknown(0),
            ],
            req_capabilities: SpdmRequestCapabilityFlags { bits: 0 },
            rsp_capabilities: SpdmResponseCapabilityFlags { bits: 0 },
            req_ct_exponent: 0,
            rsp_ct_exponent: 0,
            measurement_specification: SpdmMeasurementSpecification { bits: 0 },
            measurement_hash_algo: SpdmMeasurementHashAlgo { bits: 0 },
            base_asym_algo: SpdmBaseAsymAlgo { bits: 0 },
            base_hash_algo: SpdmBaseHashAlgo { bits: 0 },
            dhe_algo: SpdmDheAlgo { bits: 0 },
            aead_algo: SpdmAeadAlgo { bits: 0 },
            req_asym_algo: SpdmReqAsymAlgo { bits: 0 },
            key_schedule_algo: SpdmKeyScheduleAlgo { bits: 0 },
            opaque_support: SpdmOpaqueSupport { bits: 0 },
            data_transfer_size: 0,
            max_spdm_msg_size: 0,
            heartbeat_period: 0,
            secure_spdm_version: [0, 0],
            mut_auth: false,
        }
    }

    /// Whether `version` is one of the versions offered.
    pub open spec fn spec_offers_version(&self, version: SpdmVersion) -> bool {
        version.spec_is_known() && exists|i: int|
            0 <= i < MAX_SPDM_VERSION_COUNT && self.spdm_version@[i] == version
    }

    /// Whether `version` is one of the versions offered.
    pub fn offers_version(&self, version: SpdmVersion) -> (b: bool)
        ensures
            b == self.spec_offers_version(version),
    {
        match version {
            SpdmVersion::Unknown(_) => {
                return false;
            },
            _ => {},
        }
        let mut i: usize = 0;
        while i < MAX_SPDM_VERSION_COUNT
            invariant
                0 <= i <= MAX_SPDM_VERSION_COUNT,
                version.spec_is_known(),
                forall|j: int| 0 <= j < i ==> self.spdm_version@[j] != version,
            decreases MAX_SPDM_VERSION_COUNT - i,
        {
            if self.spdm_version[i] == version {
                return true;
            }
            i = i + 1;
        }
        false
    }
}

/// What the two endpoints agreed on.
#[derive(Clone, Copy, Debug, PartialEq, Eq, Structural)]
pub struct SpdmNegotiateInfo {
    /// The protocol version in use.
    pub spdm_version_sel: SpdmVersion,
    /// The capabilities the requester advertised.
    pub req_capabilities_sel: SpdmRequestCapabilityFlags,
    /// The capabilities the responder advertised.
    pub rsp_capabilities_sel: SpdmResponseCapabilityFlags,
    /// Exponent of the requester's crypto timeout.
    pub req_ct_exponent_sel: u8,
    /// Exponent of the responder's crypto timeout.
    pub rsp_ct_exponent_sel: u8,
    /// The measurement block format in use.
    pub measurement_specification_sel: SpdmMeasurementSpecification,
    /// The measurement hash algorithm in use.
    pub measurement_hash_sel: SpdmMeasurementHashAlgo,
    /// The hash algorithm in use.
    pub base_hash_sel: SpdmBaseHashAlgo,
    /// The signature algorithm in use.
    pub base_asym_sel: SpdmBaseAsymAlgo,
    /// The key agreement group in use.
    pub dhe_sel: SpdmDheAlgo,
    /// The AEAD cipher in use.
    pub aead_sel: SpdmAeadAlgo,
    /// The requester's signature algorithm in use.
    pub req_asym_sel: SpdmReqAsymAlgo,
    /// The key schedule in use.
    pub key_schedule_sel: SpdmKeyScheduleAlgo,
    /// The opaque data format in use.
    pub opaque_data_support: SpdmOpaqueSupport,
    /// Largest transfer the requester takes; 0 when it named none.
    pub req_data_transfer_size_sel: u32,
    /// Largest message the requester reassembles; 0 when it named none.
    pub req_max_spdm_msg_size_sel: u32,
    /// Largest transfer the responder takes.
    pub rsp_data_transfer_size_sel: u32,
    /// Largest message the responder reassembles.
    pub rsp_max_spdm_msg_size_sel: u32,
}

impl SpdmNegotiateInfo {
    /// Nothing agreed: version 1.0, no capability, no algorithm, no size.
    pub open spec fn spec_default() -> Self {
        SpdmNegotiateInfo {
            spdm_version_sel: SpdmVersion::SpdmVersion10,
            req_capabilities_sel: SpdmRequestCapabilityFlags { bits: 0 },
            rsp_capabilities_sel: SpdmResponseCapabilityFlags { bits: 0 },
            req_ct_exponent_sel: 0,
            rsp_ct_exponent_sel: 0,
            measurement_specification_sel: SpdmMeasurementSpecification { bits: 0 },
            measurement_hash_sel: SpdmMeasurementHashAlgo { bits: 0 },
            base_hash_sel: SpdmBaseHashAlgo { bits: 0 },
            base_asym_sel: SpdmBaseAsymAlgo { bits: 0 },
            dhe_sel: SpdmDheAlgo { bits: 0 },
            aead_sel: SpdmAeadAlgo { bits: 0 },
            req_asym_sel: SpdmReqAsymAlgo { bits: 0 },
            key_schedule_sel: SpdmKeyScheduleAlgo { bits: 0 },
            opaque_data_support: SpdmOpaqueSupport { bits: 0 },
            req_data_transfer_size_sel: 0,
            req_max_spdm_msg_size_sel: 0,
            rsp_data_transfer_size_sel: 0,
            rsp_max_spdm_msg_size_sel: 0,
        }
    }

    /// Whether both endpoints advertised that the handshake travels
    /// unsecured.
    pub open spec fn spec_handshake_in_the_clear(&self) -> bool {
        self.req_capabilities_sel.spec_contains(
            SpdmRequestCapabilityFlags::HANDSHAKE_IN_THE_CLEAR_CAP,
        ) && self.rsp_capabilities_sel.spec_contains(
            SpdmResponseCapabilityFlags::HANDSHAKE_IN_THE_CLEAR_CAP,
        )
    }

    /// Whether both endpoints advertised that the handshake travels
    /// unsecured.
    pub fn handshake_in_the_clear(&self) -> (b: bool)
        ensures
            b == self.spec_handshake_in_the_clear(),
    {
        self.req_capabilities_sel.contains(SpdmRequestCapabilityFlags::HANDSHAKE_IN_THE_CLEAR_CAP)
            && self.rsp_capabilities_sel.contains(
            SpdmResponseCapabilityFlags::HANDSHAKE_IN_THE_CLEAR_CAP,
        )
    }

    /// Whether both endpoints advertised encapsulated requests.
    pub open spec fn spec_encap_supported(&self) -> bool {
        self.req_capabilities_sel.spec_contains(SpdmRequestCapabilityFlags::ENCAP_CAP)
            && self.rsp_capabilities_sel.spec_contains(SpdmResponseCapabilityFlags::ENCAP_CAP)
    }

    /// Whether both endpoints advertised encapsulated requests.
    pub fn encap_supported(&self) -> (b: bool)
        ensures
            b == self.spec_encap_supported(),
    {
        self.req_capabilities_sel.contains(SpdmRequestCapabilityFlags::ENCAP_CAP)
            && self.rsp_capabilities_sel.contains(SpdmResponseCapabilityFlags::ENCAP_CAP)
    }
}

impl Default for SpdmNegotiateInfo {
    fn default() -> (n: Self)
        ensures
            n == SpdmNegotiateInfo::spec_default(),
    {
        SpdmNegotiateInfo {
            spdm_version_sel: SpdmVersion::SpdmVersion10,
            req_capabilities_sel: SpdmRequestCapabilityFlags::empty(),
            rsp_capabilities_sel: SpdmResponseCapabilityFlags::empty(),
            req_ct_exponent_sel: 0,
            rsp_ct_exponent_sel: 0,
            measurement_specification_sel: SpdmMeasurementSpecification::empty(),
            measurement_hash_sel: SpdmMeasurementHashAlgo::empty(),
            base_hash_sel: SpdmBaseHashAlgo::empty(),
            base_asym_sel: SpdmBaseAsymAlgo::empty(),
            dhe_sel: SpdmDheAlgo::empty(),
            aead_sel: SpdmAeadAlgo::empty(),
            req_asym_sel: SpdmReqAsymAlgo::empty(),
            key_schedule_sel: SpdmKeyScheduleAlgo::empty(),
            opaque_data_support: SpdmOpaqueSupport::empty(),
            req_data_transfer_size_sel: 0,
            req_max_spdm_msg_size_sel: 0,
            rsp_data_transfer_size_sel: 0,
            rsp_max_spdm_msg_size_sel: 0,
        }
    }
}

/// Where the connection stands, and the transcripts of what was exchanged
/// outside any session.
pub struct SpdmRuntimeInfo {
    /// How far the connection has come.
    pub connection_state: SpdmConnectionState,
    /// The session that a FINISH in the clear completes, if one is awaited.
    pub last_session_id: Option<u32>,
    /// Transcript A: version, capabilities and algorithms.
    pub message_a: ManagedBuffer,
    /// Transcript B: digests and certificates.
    pub message_b: ManagedBuffer,
    /// Transcript C: the challenge.
    pub message_c: ManagedBuffer,
    /// Transcript M1/M2, from version 1.2 on L1/L2: measurements taken
    /// outside a session.
    pub message_m: ManagedBuffer,
}

impl SpdmRuntimeInfo {
    /// A connection on which nothing was exchanged.
    pub fn new() -> (r: Self)
        ensures
            r.connection_state == SpdmConnectionState::SpdmConnectionNotStarted,
            r.last_session_id is None,
            r.message_a@ == Seq::<u8>::empty(),
            r.message_b@ == Seq::<u8>::empty(),
            r.message_c@ == Seq::<u8>::empty(),
            r.message_m@ == Seq::<u8>::empty(),
    {
        SpdmRuntimeInfo {
            connection_state: SpdmConnectionState::SpdmConnectionNotStarted,
            last_session_id: None,
            message_a: ManagedBuffer::new(),
            message_b: ManagedBuffer::new(),
            message_c: ManagedBuffer::new(),
            message_m: ManagedBuffer::new(),
        }
    }

    /// How far the connection has come.
    pub fn get_connection_state(&self) -> (s: SpdmConnectionState)
        ensures
            s == self.connection_state,
    {
        self.connection_state
    }

    /// Records how far the connection has come; nothing else changes.
    pub fn set_connection_state(&mut self, connection_state: SpdmConnectionState)
        ensures
            *final(self) == (SpdmRuntimeInfo { connection_state, ..*old(self) }),
    {
        self.connection_state = connection_state;
    }

    /// The session that a FINISH in the clear completes, if one is awaited.
    pub fn get_last_session_id(&self) -> (id: Option<u32>)
        ensures
            id == self.last_session_id,
    {
        self.last_session_id
    }

    /// Records the session that a FINISH in the clear completes; nothing
    /// else changes.
    pub fn set_last_session_id(&mut self, last_session_id: Option<u32>)
        ensures
            *final(self) == (SpdmRuntimeInfo { last_session_id, ..*old(self) }),
    {
        self.last_session_id = last_session_id;
    }
}

/// What was provisioned to the endpoint before it started. Read-only while
/// it runs.
pub struct SpdmProvisionInfo {
    /// The endpoint's own certificate chains as provisioned, one per slot.
    pub my_cert_chain_data: [Option<SpdmCertChainData>; SPDM_MAX_SLOT_NUMBER],
    /// The endpoint's own certificate chains in wire form, one per slot.
    pub my_cert_chain: [Option<SpdmCertChainBuffer>; SPDM_MAX_SLOT_NUMBER],
    /// The root certificate that the peer's chain must lead to.
    pub peer_root_cert_data: Option<SpdmCertChainData>,
}

impl Default for SpdmProvisionInfo {
    /// Nothing provisioned.
    fn default() -> (p: Self)
        ensures
            forall|i: int| 0 <= i < SPDM_MAX_SLOT_NUMBER ==> p.my_cert_chain_data@[i] is None,
            forall|i: int| 0 <= i < SPDM_MAX_SLOT_NUMBER ==> p.my_cert_chain@[i] is None,
            p.peer_root_cert_data is None,
    {
        SpdmProvisionInfo {
            my_cert_chain_data: [None, None, None, None, None, None, None, None],
            my_cert_chain: [None, None, None, None, None, None, None, None],
            peer_root_cert_data: None,
        }
    }
}

/// What the endpoint learned of its peer.
pub struct SpdmPeerInfo {
    /// The peer's certificate chains, one per slot, once verified.
    pub peer_cert_chain: [Option<SpdmCertChainBuffer>; SPDM_MAX_SLOT_NUMBER],
    /// The peer's certificate chain while it arrives in pieces. It is `Some`
    /// only while the delivery of the chain is in progress.
    pub peer_cert_chain_temp: Option<SpdmCertChainBuffer>,
}

impl Default for SpdmPeerInfo {
    /// Nothing learned.
    fn default() -> (p: Self)
        ensures
            forall|i: int| 0 <= i < SPDM_MAX_SLOT_NUMBER ==> p.peer_cert_chain@[i] is None,
            p.peer_cert_chain_temp is None,
    {
        SpdmPeerInfo {
            peer_cert_chain: [None, None, None, None, None, None, None, None],
            peer_cert_chain_temp: None,
        }
    }
}

/// Where the encapsulated request flow stands.
#[derive(Clone, Copy, Debug, PartialEq, Eq, Structural)]
pub struct SpdmEncapContext {
    /// The slot of the requester whose chain is being fetched.
    pub req_slot_id: u8,
    /// The id of the encapsulated request that is outstanding.
    pub request_id: u8,
    /// The total size of the chain being fetched, once known.
    pub encap_cert_size: u16,
}

impl Default for SpdmEncapContext {
    fn default() -> (c: Self)
        ensures
            c == (SpdmEncapContext { req_slot_id: 0, request_id: 0, encap_cert_size: 0 }),
    {
        SpdmEncapContext { req_slot_id: 0, request_id: 0, encap_cert_size: 0 }
    }
}

/// Everything one endpoint keeps.
pub struct SpdmContext {
    /// What the endpoint is configured to offer.
    pub config_info: SpdmConfigInfo,
    /// What the two endpoints agreed on.
    pub negotiate_info: SpdmNegotiateInfo,
    /// Where the connection stands.
    pub runtime_info: SpdmRuntimeInfo,
    /// What was provisioned to the endpoint.
    pub provision_info: SpdmProvisionInfo,
    /// What the endpoint learned of its peer.
    pub peer_info: SpdmPeerInfo,
    /// Where the encapsulated request flow stands.
    pub encap_context: SpdmEncapContext,
    /// The sessions of the endpoint.
    pub session: SpdmSessionTable,
}

impl SpdmContext {
    /// No session id occurs twice in the session table.
    pub open spec fn wf(&self) -> bool {
        self.session.wf()
    }

    /// The state of the session with the given id, if there is one.
    pub open spec fn spec_session_state(&self, session_id: u32) -> Option<SpdmSessionState> {
        match self.session.spec_session(session_id) {
            Some(s) => Some(s.session_state),
            None => None,
        }
    }

    /// A fresh endpoint: nothing negotiated, nothing exchanged, no session.
    pub fn new(config_info: SpdmConfigInfo, provision_info: SpdmProvisionInfo) -> (c: Self)
        ensures
            c.config_info == config_info,
            c.provision_info == provision_info,
            spec_is_fresh(&c, Seq::<u8>::empty()),
    {
        SpdmContext {
            config_info,
            negotiate_info: SpdmNegotiateInfo::default(),
            runtime_info: SpdmRuntimeInfo::new(),
            provision_info,
            peer_info: SpdmPeerInfo::default(),
            encap_context: SpdmEncapContext::default(),
            session: SpdmSessionTable::new(),
        }
    }

    /// The session with the given id, for changing it. What the caller does
    /// to the session is what happens to its slot; nothing else changes.
    pub fn get_session_via_id(&mut self, session_id: u32) -> (r: Option<&mut SpdmSession>)
        ensures
            r is Some <==> old(self).spec_session_state(session_id) is Some,
            r matches Some(s) ==> Some(s@) == old(self).session.spec_session(session_id)
                && spec_same_but_session(old(self), final(self))
                && final(self).session@ == old(self).session@.update(
                spec_find_session(old(self).session@, session_id).unwrap(),
                final(s)@,
            ),
            r is None ==> *final(self) == *old(self),
    {
        self.session.get_session_via_id(session_id)
    }

    /// The session with the given id, read-only.
    pub fn get_immutable_session_via_id(&self, session_id: u32) -> (r: Option<&SpdmSession>)
        ensures
            r is Some <==> self.spec_session_state(session_id) is Some,
            r matches Some(s) ==> Some(s@) == self.session.spec_session(session_id),
    {
        self.session.get_immutable_session_via_id(session_id)
    }

    /// Appends to transcript A; `BufferFull` and no change when the bytes do
    /// not fit.
    pub fn append_message_a(&mut self, bytes: &[u8]) -> (r: SpdmResult)
        ensures
            r is Ok <==> old(self).runtime_info.message_a@.len() + bytes@.len()
                <= crate::config::MAX_MANAGED_BUFFER_SIZE,
            r is Ok ==> final(self).runtime_info.message_a@ == old(self).runtime_info.message_a@
                + bytes@,
            r is Err ==> r == Err::<(), _>(SpdmStatus::BufferFull),
            spec_same_but_message_a(old(self), final(self)),
            r is Err ==> *final(self) == *old(self),
    {
        match self.runtime_info.message_a.append_message(bytes) {
            Some(_) => Ok(()),
            None => Err(SpdmStatus::BufferFull),
        }
    }

    /// Appends to transcript B; `BufferFull` and no change when the bytes do
    /// not fit.
    pub fn append_message_b(&mut self, bytes: &[u8]) -> (r: SpdmResult)
        ensures
            r is Ok <==> old(self).runtime_info.message_b@.len() + bytes@.len()
                <= crate::config::MAX_MANAGED_BUFFER_SIZE,
            r is Ok ==> final(self).runtime_info.message_b@ == old(self).runtime_info.message_b@
                + bytes@,
            r is Err ==> r == Err::<(), _>(SpdmStatus::BufferFull),
            spec_same_but_message_b(old(self), final(self)),
            r is Err ==> *final(self) == *old(self),
    {
        match self.runtime_info.message_b.append_message(bytes) {
            Some(_) => Ok(()),
            None => Err(SpdmStatus::BufferFull),
        }
    }

    /// Appends to transcript C; `BufferFull` and no change when the bytes do
    /// not fit.
    pub fn append_message_c(&mut self, bytes: &[u8]) -> (r: SpdmResult)
        ensures
            r is Ok <==> old(self).runtime_info.message_c@.len() + bytes@.len()
                <= crate::config::MAX_MANAGED_BUFFER_SIZE,
            r is Ok ==> final(self).runtime_info.message_c@ == old(self).runtime_info.message_c@
                + bytes@,
            r is Err ==> r == Err::<(), _>(SpdmStatus::BufferFull),
            spec_same_but_message_c(old(self), final(self)),
            r is Err ==> *final(self) == *old(self),
    {
        match self.runtime_info.message_c.append_message(bytes) {
            Some(_) => Ok(()),
            None => Err(SpdmStatus::BufferFull),
        }
    }

    /// Appends to the measurement transcript: the connection's when no
    /// session is named, else that of the session. `BufferFull` when the bytes do not fit,
    /// `InvalidParameter` when the named session does not exist; on an error
    /// nothing changes.
    pub fn append_message_m(&mut self, session_id: Option<u32>, bytes: &[u8]) -> (r: SpdmResult)
        ensures
            r == spec_append_message_m_result(old(self), session_id, bytes@),
            r is Err ==> *final(self) == *old(self),
            r is Ok ==> spec_appended_message_m(old(self), final(self), session_id, bytes@),
            old(self).wf() ==> final(self).wf(),
    {
        match session_id {
            None => match self.runtime_info.message_m.append_message(bytes) {
                Some(_) => Ok(()),
                None => Err(SpdmStatus::BufferFull),
            },
            Some(id) => {
                let fits = match self.session.get_immutable_session_via_id(id) {
                    Some(s) => s.get_message_m().len() <= crate::config::MAX_MANAGED_BUFFER_SIZE
                        && bytes.len() <= crate::config::MAX_MANAGED_BUFFER_SIZE
                        - s.get_message_m().len(),
                    None => {
                        return Err(SpdmStatus::InvalidParameter);
                    },
                };
                if !fits {
                    return Err(SpdmStatus::BufferFull);
                }
                match self.session.get_session_via_id(id) {
                    Some(s) => {
                        let _ = s.append_message_m(bytes);
                    },
                    None => {},
                }
                Ok(())
            },
        }
    }

    /// Empties the measurement transcript: the connection's when no session
    /// is named, else that of the session named, if it exists.
    pub fn reset_message_m(&mut self, session_id: Option<u32>)
        ensures
            spec_message_m_is_reset(old(self), final(self), session_id),
            old(self).wf() ==> final(self).wf(),
    {
        match session_id {
            None => {
                self.runtime_info.message_m.reset_message();
            },
            Some(id) => {
                match self.session.get_session_via_id(id) {
                    Some(s) => {
                        s.reset_message_m();
                    },
                    None => {},
                }
            },
        }
    }

    /// Forgets everything that was negotiated, exchanged and learned of the
    /// peer, and ends every session. What the endpoint was configured and
    /// provisioned with stays.
    pub fn reset_context(&mut self)
        ensures
            spec_is_reset(old(self), final(self), Seq::<u8>::empty()),
    {
        self.negotiate_info = SpdmNegotiateInfo::default();
        self.runtime_info = SpdmRuntimeInfo::new();
        self.peer_info = SpdmPeerInfo::default();
        self.encap_context = SpdmEncapContext::default();
        self.session.reset();
    }

    /// Prepares the transcripts for a request of the given code, in the
    /// session named or outside any session.
    ///
    /// Every request but GET_MEASUREMENTS ends a run of measurements: the
    /// measurement transcript that `session_id` selects is emptied. A request
    /// of session setup, of a session, or for measurements, arriving before
    /// the responder was authenticated, abandons authentication: transcripts
    /// B and C are emptied. GET_DIGESTS starts authentication over:
    /// transcript B is emptied.
    pub fn reset_buffer_via_request_code(
        &mut self,
        opcode: SpdmRequestResponseCode,
        session_id: Option<u32>,
    )
        ensures
            spec_reset_buffer_via_request_code(old(self), final(self), opcode, session_id),
            old(self).wf() ==> final(self).wf(),
    {
        if opcode != SpdmRequestResponseCode::SpdmRequestGetMeasurements {
            self.reset_message_m(session_id);
        }
        match opcode {
            SpdmRequestResponseCode::SpdmRequestGetMeasurements
            | SpdmRequestResponseCode::SpdmRequestKeyExchange
            | SpdmRequestResponseCode::SpdmRequestFinish
            | SpdmRequestResponseCode::SpdmRequestPskExchange
            | SpdmRequestResponseCode::SpdmRequestPskFinish
            | SpdmRequestResponseCode::SpdmRequestKeyUpdate
            | SpdmRequestResponseCode::SpdmRequestHeartbeat
            | SpdmRequestResponseCode::SpdmRequestGetEncapsulatedRequest
            | SpdmRequestResponseCode::SpdmRequestDeliverEncapsulatedResponse
            | SpdmRequestResponseCode::SpdmRequestEndSession => {
                if self.runtime_info.connection_state.get_u8()
                    < SpdmConnectionState::SpdmConnectionAuthenticated.get_u8() {
                    self.reset_message_b();
                    self.reset_message_c();
                }
            },
            SpdmRequestResponseCode::SpdmRequestGetDigests => {
                self.reset_message_b();
            },
            _ => {},
        }
    }

    /// Whether transcript B can take an exchange of `len` bytes once the
    /// transcripts are prepared for a request of the given code.
    pub fn exchange_fits(
        &self,
        opcode: SpdmRequestResponseCode,
        session_id: Option<u32>,
        len: usize,
    ) -> (fits: bool)
        ensures
            fits == spec_exchange_fits(self, opcode, session_id, len as nat),
    {
        if session_id.is_some() {
            return true;
        }
        let resets_b = match opcode {
            SpdmRequestResponseCode::SpdmRequestGetDigests => true,
            SpdmRequestResponseCode::SpdmRequestGetMeasurements
            | SpdmRequestResponseCode::SpdmRequestKeyExchange
            | SpdmRequestResponseCode::SpdmRequestFinish
            | SpdmRequestResponseCode::SpdmRequestPskExchange
            | SpdmRequestResponseCode::SpdmRequestPskFinish
            | SpdmRequestResponseCode::SpdmRequestKeyUpdate
            | SpdmRequestResponseCode::SpdmRequestHeartbeat
            | SpdmRequestResponseCode::SpdmRequestGetEncapsulatedRequest
            | SpdmRequestResponseCode::SpdmRequestDeliverEncapsulatedResponse
            | SpdmRequestResponseCode::SpdmRequestEndSession => {
                !self.runtime_info.connection_state.at_least(
                    SpdmConnectionState::SpdmConnectionAuthenticated,
                )
            },
            _ => false,
        };
        let held = if resets_b {
            0
        } else {
            self.runtime_info.message_b.len()
        };
        len <= crate::config::MAX_MANAGED_BUFFER_SIZE - held
    }

    /// The root certificate of the chain that was provisioned in the slot:
    /// the first certificate of the chain. `None` when the slot does not
    /// exist, holds no chain, or holds one that does not begin with a
    /// certificate.
    pub fn get_root_cert(&self, slot_id: u8) -> (out: Option<&[u8]>)
        ensures
            match spec_root_cert(self, slot_id as int) {
                Some(root) => out matches Some(found) && found@ == root,
                None => out is None,
            },
    {
        if slot_id as usize >= SPDM_MAX_SLOT_NUMBER {
            return None;
        }
        match &self.provision_info.my_cert_chain_data[slot_id as usize] {
            Some(data) => {
                let chain = data.as_slice();
                match crate::crypto::get_cert_from_cert_chain(chain, 0) {
                    Some((begin, end)) => Some(vstd::slice::slice_subrange(chain, begin, end)),
                    None => None,
                }
            },
            None => None,
        }
    }

    /// Puts the chain that was provisioned in the slot into its wire form,
    /// under the digest of its root certificate that the caller computed.
    /// The result is `InvalidParameter`, and nothing changes, when the slot
    /// does not exist or holds no chain, or when the digest is longer than
    /// the largest digest.
    pub fn construct_my_cert_chain(&mut self, slot_id: u8, root_cert_hash: &[u8]) -> (r: SpdmResult)
        ensures
            old(self).wf() ==> final(self).wf(),
            r is Ok <==> slot_id < SPDM_MAX_SLOT_NUMBER
                && old(self).provision_info.my_cert_chain_data@[slot_id as int] is Some
                && root_cert_hash@.len() <= crate::config::SPDM_MAX_HASH_SIZE,
            r is Ok ==> spec_my_cert_chain_set(
                old(self),
                final(self),
                slot_id as int,
                crate::protocol::spec_cert_chain_buffer(
                    old(self).provision_info.my_cert_chain_data@[slot_id as int].unwrap()@,
                    root_cert_hash@,
                ),
            ),
            r is Err ==> r == Err::<(), _>(SpdmStatus::InvalidParameter)
                && *final(self) == *old(self),
    {
        if slot_id as usize >= SPDM_MAX_SLOT_NUMBER {
            return Err(SpdmStatus::InvalidParameter);
        }
        let slot = slot_id as usize;
        let buffer = match &self.provision_info.my_cert_chain_data[slot] {
            Some(data) => SpdmCertChainBuffer::new(data.as_slice(), root_cert_hash),
            None => None,
        };
        match buffer {
            Some(buffer) => {
                self.provision_info.my_cert_chain[slot] = Some(buffer);
                Ok(())
            },
            None => Err(SpdmStatus::InvalidParameter),
        }
    }

    /// Records an exchange: the transcripts are prepared for a request of
    /// the given code and, outside any session, the request and the response
    /// are appended to transcript B. When transcript B cannot take them the
    /// result is `BufferFull` and nothing changes.
    pub fn record_exchange(
        &mut self,
        opcode: SpdmRequestResponseCode,
        session_id: Option<u32>,
        request: &[u8],
        response: &[u8],
    ) -> (r: SpdmResult)
        ensures
            old(self).wf() ==> final(self).wf(),
            r is Ok <==> spec_exchange_fits(
                old(self),
                opcode,
                session_id,
                request@.len() + response@.len(),
            ),
            r is Ok ==> spec_exchange_recorded(
                old(self),
                final(self),
                opcode,
                session_id,
                request@ + response@,
            ),
            r is Err ==> r == Err::<(), _>(SpdmStatus::BufferFull) && *final(self) == *old(self),
    {
        if session_id.is_none() {
            let limit = crate::config::MAX_MANAGED_BUFFER_SIZE;
            if request.len() > limit || response.len() > limit || !self.exchange_fits(
                opcode,
                session_id,
                request.len() + response.len(),
            ) {
                return Err(SpdmStatus::BufferFull);
            }
        }
        self.reset_buffer_via_request_code(opcode, session_id);
        if session_id.is_none() {
            let ghost prepared = self.runtime_info.message_b@;
            let _ = self.runtime_info.message_b.append_message(request);
            let _ = self.runtime_info.message_b.append_message(response);
            assert(self.runtime_info.message_b@ =~= prepared + (request@ + response@));
        } else {
            assert(self.runtime_info.message_b@ =~= self.runtime_info.message_b@ + Seq::<
                u8,
            >::empty());
        }
        Ok(())
    }

    /// Empties transcript A.
    pub fn reset_message_a(&mut self)
        ensures
            final(self).runtime_info.message_a@ == Seq::<u8>::empty(),
            spec_same_but_message_a(old(self), final(self)),
    {
        self.runtime_info.message_a.reset_message();
    }

    /// Empties transcript B.
    pub fn reset_message_b(&mut self)
        ensures
            final(self).runtime_info.message_b@ == Seq::<u8>::empty(),
            spec_same_but_message_b(old(self), final(self)),
    {
        self.runtime_info.message_b.reset_message();
    }

    /// Empties transcript C.
    pub fn reset_message_c(&mut self)
        ensures
            final(self).runtime_info.message_c@ == Seq::<u8>::empty(),
            spec_same_but_message_c(old(self), final(self)),
    {
        self.runtime_info.message_c.reset_message();
    }
}

/// `after` is `before` but for the session table.
pub open spec fn spec_same_but_session(before: &SpdmContext, after: &SpdmContext) -> bool {
    *after == (SpdmContext { session: after.session, ..*before })
}

/// `after` is `before` but for the connection's measurement transcript.
pub open spec fn spec_same_but_message_m(before: &SpdmContext, after: &SpdmContext) -> bool {
    *after == (SpdmContext {
        runtime_info: SpdmRuntimeInfo {
            message_m: after.runtime_info.message_m,
            ..before.runtime_info
        },
        ..*before
    })
}

/// `after` is `before` with `bytes` appended to the measurement transcript
/// that `session_id` selects.
pub open spec fn spec_appended_message_m(
    before: &SpdmContext,
    after: &SpdmContext,
    session_id: Option<u32>,
    bytes: Seq<u8>,
) -> bool {
    match session_id {
        None => after.runtime_info.message_m@ == before.runtime_info.message_m@ + bytes
            && spec_same_but_message_m(before, after),
        Some(id) => match spec_find_session(before.session@, id) {
            Some(i) => after.session@ == before.session@.update(
                i,
                SpdmSessionView {
                    message_m: before.session@[i].message_m + bytes,
                    ..before.session@[i]
                },
            ) && spec_same_but_session(before, after),
            None => false,
        },
    }
}

/// `after` is `before` with the measurement transcript that `session_id`
/// selects emptied; a session that does not exist selects nothing.
pub open spec fn spec_message_m_is_reset(
    before: &SpdmContext,
    after: &SpdmContext,
    session_id: Option<u32>,
) -> bool {
    match session_id {
        None => after.runtime_info.message_m@ == Seq::<u8>::empty() && spec_same_but_message_m(
            before,
            after,
        ),
        Some(id) => match spec_find_session(before.session@, id) {
            Some(i) => after.session@ == before.session@.update(
                i,
                SpdmSessionView { message_m: Seq::empty(), ..before.session@[i] },
            ) && spec_same_but_session(before, after),
            None => *after == *before,
        },
    }
}

/// The measurement transcript that `session_id` selects: that of the session
/// when one is named, else the connection's.
pub open spec fn spec_message_m(c: &SpdmContext, session_id: Option<u32>) -> Seq<u8> {
    match session_id {
        None => c.runtime_info.message_m@,
        Some(id) => match c.session.spec_session(id) {
            Some(s) => s.message_m,
            None => Seq::empty(),
        },
    }
}

/// What appending `bytes` to the measurement transcript returns.
pub open spec fn spec_append_message_m_result(
    c: &SpdmContext,
    session_id: Option<u32>,
    bytes: Seq<u8>,
) -> SpdmResult {
    if session_id matches Some(id) && c.session.spec_session(id) is None {
        Err(SpdmStatus::InvalidParameter)
    } else if spec_message_m(c, session_id).len() + bytes.len()
        > crate::config::MAX_MANAGED_BUFFER_SIZE {
        Err(SpdmStatus::BufferFull)
    } else {
        Ok(())
    }
}

/// `after` is `before` but for transcript A.
pub open spec fn spec_same_but_message_a(before: &SpdmContext, after: &SpdmContext) -> bool {
    *after == (SpdmContext {
        runtime_info: SpdmRuntimeInfo {
            message_a: after.runtime_info.message_a,
            ..before.runtime_info
        },
        ..*before
    })
}

/// `after` is `before` but for transcript B.
pub open spec fn spec_same_but_message_b(before: &SpdmContext, after: &SpdmContext) -> bool {
    *after == (SpdmContext {
        runtime_info: SpdmRuntimeInfo {
            message_b: after.runtime_info.message_b,
            ..before.runtime_info
        },
        ..*before
    })
}

/// `after` is `before` but for transcript C.
pub open spec fn spec_same_but_message_c(before: &SpdmContext, after: &SpdmContext) -> bool {
    *after == (SpdmContext {
        runtime_info: SpdmRuntimeInfo {
            message_c: after.runtime_info.message_c,
            ..before.runtime_info
        },
        ..*before
    })
}

/// The requests that abandon an authentication that has not completed.
pub open spec fn spec_abandons_authentication(opcode: SpdmRequestResponseCode) -> bool {
    match opcode {
        SpdmRequestResponseCode::SpdmRequestGetMeasurements
        | SpdmRequestResponseCode::SpdmRequestKeyExchange
        | SpdmRequestResponseCode::SpdmRequestFinish
        | SpdmRequestResponseCode::SpdmRequestPskExchange
        | SpdmRequestResponseCode::SpdmRequestPskFinish
        | SpdmRequestResponseCode::SpdmRequestKeyUpdate
        | SpdmRequestResponseCode::SpdmRequestHeartbeat
        | SpdmRequestResponseCode::SpdmRequestGetEncapsulatedRequest
        | SpdmRequestResponseCode::SpdmRequestDeliverEncapsulatedResponse
        | SpdmRequestResponseCode::SpdmRequestEndSession => true,
        _ => false,
    }
}

/// Whether a request of the given code empties transcript B.
pub open spec fn spec_resets_message_b(c: &SpdmContext, opcode: SpdmRequestResponseCode) -> bool {
    opcode == SpdmRequestResponseCode::SpdmRequestGetDigests || spec_resets_message_c(c, opcode)
}

/// Whether a request of the given code empties transcript C.
pub open spec fn spec_resets_message_c(c: &SpdmContext, opcode: SpdmRequestResponseCode) -> bool {
    spec_abandons_authentication(opcode) && !c.runtime_info.connection_state.spec_at_least(
        SpdmConnectionState::SpdmConnectionAuthenticated,
    )
}

/// `after` is `before` with the transcripts prepared for a request of the
/// given code, transcript B aside: transcript C and the measurement
/// transcript that `session_id` selects are each either emptied or left as
/// they were, and nothing but the transcripts changes.
pub open spec fn spec_reset_but_message_b(
    before: &SpdmContext,
    after: &SpdmContext,
    opcode: SpdmRequestResponseCode,
    session_id: Option<u32>,
) -> bool {
    let resets_m = opcode != SpdmRequestResponseCode::SpdmRequestGetMeasurements;
    let slot = match session_id {
        Some(id) => spec_find_session(before.session@, id),
        None => None,
    };
    &&& *after == (SpdmContext {
        runtime_info: SpdmRuntimeInfo {
            message_b: after.runtime_info.message_b,
            message_c: after.runtime_info.message_c,
            message_m: after.runtime_info.message_m,
            ..before.runtime_info
        },
        session: after.session,
        ..*before
    })
    &&& if spec_resets_message_c(before, opcode) {
        after.runtime_info.message_c@ == Seq::<u8>::empty()
    } else {
        after.runtime_info.message_c == before.runtime_info.message_c
    }
    &&& if resets_m && session_id is None {
        after.runtime_info.message_m@ == Seq::<u8>::empty()
    } else {
        after.runtime_info.message_m == before.runtime_info.message_m
    }
    &&& if resets_m && slot is Some {
        after.session@ == before.session@.update(
            slot.unwrap(),
            SpdmSessionView { message_m: Seq::empty(), ..before.session@[slot.unwrap()] },
        )
    } else {
        after.session == before.session
    }
}

/// `after` is `before` with the transcripts prepared for a request of the
/// given code: each transcript is either emptied or left as it was, and
/// nothing else changes.
pub open spec fn spec_reset_buffer_via_request_code(
    before: &SpdmContext,
    after: &SpdmContext,
    opcode: SpdmRequestResponseCode,
    session_id: Option<u32>,
) -> bool {
    &&& spec_reset_but_message_b(before, after, opcode, session_id)
    &&& if spec_resets_message_b(before, opcode) {
        after.runtime_info.message_b@ == Seq::<u8>::empty()
    } else {
        after.runtime_info.message_b == before.runtime_info.message_b
    }
}

/// What transcript B holds once the transcripts are prepared for a request
/// of the given code.
pub open spec fn spec_message_b_prepared(c: &SpdmContext, opcode: SpdmRequestResponseCode) -> Seq<
    u8,
> {
    if spec_resets_message_b(c, opcode) {
        Seq::empty()
    } else {
        c.runtime_info.message_b@
    }
}

/// Whether transcript B can take an exchange of `len` bytes once the
/// transcripts are prepared for a request of the given code. Inside a
/// session nothing is recorded in transcript B, so that any exchange fits.
pub open spec fn spec_exchange_fits(
    c: &SpdmContext,
    opcode: SpdmRequestResponseCode,
    session_id: Option<u32>,
    len: nat,
) -> bool {
    session_id is Some || spec_message_b_prepared(c, opcode).len() + len
        <= crate::config::MAX_MANAGED_BUFFER_SIZE
}

/// `after` is `before` with the transcripts prepared for a request of the
/// given code and, outside any session, with `exchange` appended to
/// transcript B.
pub open spec fn spec_exchange_recorded(
    before: &SpdmContext,
    after: &SpdmContext,
    opcode: SpdmRequestResponseCode,
    session_id: Option<u32>,
    exchange: Seq<u8>,
) -> bool {
    &&& spec_reset_but_message_b(before, after, opcode, session_id)
    &&& after.runtime_info.message_b@ == spec_message_b_prepared(before, opcode) + (
    if session_id is None {
        exchange
    } else {
        Seq::empty()
    })
}

/// An endpoint on which nothing is negotiated, exchanged or learned of the
/// peer, without any session, and with all storage for secrets zero;
/// transcript A holds `message_a`.
pub open spec fn spec_is_fresh(c: &SpdmContext, message_a: Seq<u8>) -> bool {
    &&& c.wf()
    &&& c.negotiate_info == SpdmNegotiateInfo::spec_default()
    &&& c.runtime_info.connection_state == SpdmConnectionState::SpdmConnectionNotStarted
    &&& c.runtime_info.last_session_id is None
    &&& c.runtime_info.message_a@ == message_a
    &&& c.runtime_info.message_b@ == Seq::<u8>::empty()
    &&& c.runtime_info.message_c@ == Seq::<u8>::empty()
    &&& c.runtime_info.message_m@ == Seq::<u8>::empty()
    &&& c.peer_info.peer_cert_chain_temp is None
    &&& forall|i: int| 0 <= i < SPDM_MAX_SLOT_NUMBER ==> c.peer_info.peer_cert_chain@[i] is None
    &&& c.encap_context == (SpdmEncapContext { req_slot_id: 0, request_id: 0, encap_cert_size: 0 })
    &&& forall|i: int|
        0 <= i < MAX_SPDM_SESSION_COUNT ==> c.session@[i] == SpdmSessionView::spec_free()
    &&& forall|i: int| 0 <= i < MAX_SPDM_SESSION_COUNT ==> c.session.spec_slot_zeroed(i)
}

/// `after` is `before` with everything forgotten that was negotiated,
/// exchanged and learned of the peer, and with every session ended;
/// transcript A holds `message_a`.
pub open spec fn spec_is_reset(before: &SpdmContext, after: &SpdmContext, message_a: Seq<u8>)
    -> bool {
    &&& after.config_info == before.config_info
    &&& after.provision_info == before.provision_info
    &&& spec_is_fresh(after, message_a)
}

/// The root certificate of the chain that was provisioned in the slot, if
/// the slot exists and its chain begins with a certificate.
pub open spec fn spec_root_cert(c: &SpdmContext, slot_id: int) -> Option<Seq<u8>> {
    if 0 <= slot_id < SPDM_MAX_SLOT_NUMBER {
        match c.provision_info.my_cert_chain_data@[slot_id] {
            Some(data) => match crate::crypto::spec_get_cert_from(data@, 0, 0) {
                Some((begin, end)) => Some(data@.subrange(begin, end)),
                None => None,
            },
            None => None,
        }
    } else {
        None
    }
}

/// `after` is `before` but that the slot holds `chain` as the endpoint's
/// chain in wire form.
pub open spec fn spec_my_cert_chain_set(
    before: &SpdmContext,
    after: &SpdmContext,
    slot_id: int,
    chain: Seq<u8>,
) -> bool {
    &&& *after == (SpdmContext {
        provision_info: SpdmProvisionInfo {
            my_cert_chain: after.provision_info.my_cert_chain,
            ..before.provision_info
        },
        ..*before
    })
    &&& after.provision_info.my_cert_chain@[slot_id] is Some
    &&& after.provision_info.my_cert_chain@[slot_id].unwrap()@ == chain
    &&& forall|i: int|
        0 <= i < SPDM_MAX_SLOT_NUMBER && i != slot_id ==> after.provision_info.my_cert_chain@[i]
            == before.provision_info.my_cert_chain@[i]
}

} // verus!
