//! Secure sessions and the fixed-size table that holds them.

use crate::common::managed_buffer::{BoundedBytes, ManagedBuffer, SpdmSecret};
use crate::config::{MAX_SPDM_SESSION_COUNT, SPDM_MAX_AEAD_IV_SIZE, SPDM_MAX_AEAD_KEY_SIZE};
use crate::error::{SpdmResult, SpdmStatus};
use vstd::prelude::*;

verus! {

/// The session id that no session has: it marks a free slot.
pub const INVALID_SESSION_ID: u32 = 0;

/// The half of a session id that the first slot of the table contributes.
pub const INITIAL_SESSION_ID: u16 = 0xFFFD;

/// Where a session stands in its life.
#[derive(Clone, Copy, Debug, PartialEq, Eq, Structural)]
pub enum SpdmSessionState {
    /// No key exchange has completed.
    SpdmSessionNotStarted,
    /// Keys are agreed; the handshake is not finished.
    SpdmSessionHandshaking,
    /// The handshake is finished; application data may flow.
    SpdmSessionEstablished,
    /// A state this engine does not know.
    Unknown(u8),
}

/// What a session holds, as plain values.
pub struct SpdmSessionView {
    /// The session id; `INVALID_SESSION_ID` for a free slot.
    pub session_id: u32,
    /// Where the session stands in its life.
    pub session_state: SpdmSessionState,
    /// Whether the session was keyed from a pre-shared key.
    pub use_psk: bool,
    /// Seconds between heartbeats; 0 when none are expected.
    pub heartbeat_period: u8,
    /// Sequence number of the next secured request.
    pub request_sequence: u64,
    /// Sequence number of the next secured response.
    pub response_sequence: u64,
    /// The requester's handshake secret.
    pub request_handshake_secret: Seq<u8>,
    /// The responder's handshake secret.
    pub response_handshake_secret: Seq<u8>,
    /// The requester's data secret.
    pub request_data_secret: Seq<u8>,
    /// The responder's data secret.
    pub response_data_secret: Seq<u8>,
    /// The AEAD key and nonce for what the requester sends.
    pub request_aead: (Seq<u8>, Seq<u8>),
    /// The AEAD key and nonce for what the responder sends.
    pub response_aead: (Seq<u8>, Seq<u8>),
    /// The time by which the next heartbeat is due, if heartbeats are
    /// expected.
    pub heartbeat_deadline: Option<u64>,
    /// Transcript of the key exchange.
    pub message_k: Seq<u8>,
    /// Transcript of the finish exchange.
    pub message_f: Seq<u8>,
    /// Transcript M1/M2, from version 1.2 on L1/L2, of the measurements
    /// taken inside the session.
    pub message_m: Seq<u8>,
}

impl SpdmSessionView {
    /// A free slot: no id, not started, no secret, empty transcripts.
    pub open spec fn spec_free() -> Self {
        SpdmSessionView {
            session_id: INVALID_SESSION_ID,
            session_state: SpdmSessionState::SpdmSessionNotStarted,
            use_psk: false,
            heartbeat_period: 0,
            request_sequence: 0,
            response_sequence: 0,
            request_handshake_secret: Seq::empty(),
            response_handshake_secret: Seq::empty(),
            request_data_secret: Seq::empty(),
            response_data_secret: Seq::empty(),
            request_aead: (Seq::empty(), Seq::empty()),
            response_aead: (Seq::empty(), Seq::empty()),
            heartbeat_deadline: None,
            message_k: Seq::empty(),
            message_f: Seq::empty(),
            message_m: Seq::empty(),
        }
    }

    /// Whether a secured message of the session is accepted.
    pub open spec fn spec_accepts_secured(&self) -> bool {
        self.session_id != INVALID_SESSION_ID && (self.session_state
            == SpdmSessionState::SpdmSessionHandshaking || self.session_state
            == SpdmSessionState::SpdmSessionEstablished)
    }
}

/// One secure session, or a free slot of the session table.
pub struct SpdmSession {
    session_id: u32,
    session_state: SpdmSessionState,
    use_psk: bool,
    heartbeat_period: u8,
    request_sequence: u64,
    response_sequence: u64,
    request_handshake_secret: SpdmSecret,
    response_handshake_secret: SpdmSecret,
    request_data_secret: SpdmSecret,
    response_data_secret: SpdmSecret,
    request_key: BoundedBytes<SPDM_MAX_AEAD_KEY_SIZE>,
    request_iv: BoundedBytes<SPDM_MAX_AEAD_IV_SIZE>,
    response_key: BoundedBytes<SPDM_MAX_AEAD_KEY_SIZE>,
    response_iv: BoundedBytes<SPDM_MAX_AEAD_IV_SIZE>,
    heartbeat_deadline: Option<u64>,
    message_k: ManagedBuffer,
    message_f: ManagedBuffer,
    message_m: ManagedBuffer,
}

impl View for SpdmSession {
    type V = SpdmSessionView;

    closed spec fn view(&self) -> SpdmSessionView {
        SpdmSessionView {
            session_id: self.session_id,
            session_state: self.session_state,
            use_psk: self.use_psk,
            heartbeat_period: self.heartbeat_period,
            request_sequence: self.request_sequence,
            response_sequence: self.response_sequence,
            request_handshake_secret: self.request_handshake_secret@,
            response_handshake_secret: self.response_handshake_secret@,
            request_data_secret: self.request_data_secret@,
            response_data_secret: self.response_data_secret@,
            request_aead: (self.request_key@, self.request_iv@),
            response_aead: (self.response_key@, self.response_iv@),
            heartbeat_deadline: self.heartbeat_deadline,
            message_k: self.message_k@,
            message_f: self.message_f@,
            message_m: self.message_m@,
        }
    }
}

impl SpdmSession {
    /// Whether the storage of every secret, key and nonce holds only zeroes.
    pub closed spec fn spec_secrets_zeroed(&self) -> bool {
        &&& self.request_handshake_secret.spec_is_zeroed()
        &&& self.response_handshake_secret.spec_is_zeroed()
        &&& self.request_data_secret.spec_is_zeroed()
        &&& self.response_data_secret.spec_is_zeroed()
        &&& self.request_key.spec_is_zeroed()
        &&& self.request_iv.spec_is_zeroed()
        &&& self.response_key.spec_is_zeroed()
        &&& self.response_iv.spec_is_zeroed()
    }

    /// A free slot.
    pub fn new() -> (s: Self)
        ensures
            s@ == SpdmSessionView::spec_free(),
            s.spec_secrets_zeroed(),
    {
        SpdmSession {
            session_id: INVALID_SESSION_ID,
            session_state: SpdmSessionState::SpdmSessionNotStarted,
            use_psk: false,
            heartbeat_period: 0,
            request_sequence: 0,
            response_sequence: 0,
            request_handshake_secret: SpdmSecret::new(),
            response_handshake_secret: SpdmSecret::new(),
            request_data_secret: SpdmSecret::new(),
            response_data_secret: SpdmSecret::new(),
            request_key: BoundedBytes::new(),
            request_iv: BoundedBytes::new(),
            response_key: BoundedBytes::new(),
            response_iv: BoundedBytes::new(),
            heartbeat_deadline: None,
            message_k: ManagedBuffer::new(),
            message_f: ManagedBuffer::new(),
            message_m: ManagedBuffer::new(),
        }
    }

    /// Turns a slot into a fresh session with the given id: not started, no
    /// secret, empty transcripts. Only the table assigns ids, so that no two
    /// of its sessions share one.
    pub(crate) fn setup(&mut self, session_id: u32)
        ensures
            final(self)@ == (SpdmSessionView { session_id, ..SpdmSessionView::spec_free() }),
            final(self).spec_secrets_zeroed(),
    {
        self.clear();
        self.session_id = session_id;
    }

    pub(crate) fn clear(&mut self)
        ensures
            final(self)@ == SpdmSessionView::spec_free(),
            final(self).spec_secrets_zeroed(),
    {
        self.session_id = INVALID_SESSION_ID;
        self.session_state = SpdmSessionState::SpdmSessionNotStarted;
        self.use_psk = false;
        self.heartbeat_period = 0;
        self.request_sequence = 0;
        self.response_sequence = 0;
        self.request_handshake_secret.reset_message();
        self.response_handshake_secret.reset_message();
        self.request_data_secret.reset_message();
        self.response_data_secret.reset_message();
        self.request_key.reset_message();
        self.request_iv.reset_message();
        self.response_key.reset_message();
        self.response_iv.reset_message();
        self.heartbeat_deadline = None;
        self.message_k.reset_message();
        self.message_f.reset_message();
        self.message_m.reset_message();
    }

    /// Ends the session named `session_id`: every secret is overwritten with
    /// zeroes and the slot becomes free. A slot that holds another session is
    /// left alone and `InvalidParameter` is returned.
    pub fn teardown(&mut self, session_id: u32) -> (r: SpdmResult)
        ensures
            r is Ok <==> old(self)@.session_id == session_id,
            r is Ok ==> final(self)@ == SpdmSessionView::spec_free()
                && final(self).spec_secrets_zeroed(),
            r is Err ==> r == Err::<(), _>(SpdmStatus::InvalidParameter) && *final(self) ==
                *old(self),
    {
        if self.session_id != session_id {
            return Err(SpdmStatus::InvalidParameter);
        }
        self.clear();
        Ok(())
    }

    /// The session id; `INVALID_SESSION_ID` for a free slot.
    pub fn get_session_id(&self) -> (id: u32)
        ensures
            id == self@.session_id,
    {
        self.session_id
    }

    /// Where the session stands in its life.
    pub fn get_session_state(&self) -> (s: SpdmSessionState)
        ensures
            s == self@.session_state,
    {
        self.session_state
    }

    /// Moves the session to `state`; nothing else changes.
    pub fn set_session_state(&mut self, state: SpdmSessionState)
        ensures
            final(self)@ == (SpdmSessionView { session_state: state, ..old(self)@ }),
    {
        self.session_state = state;
    }

    /// Whether the session was keyed from a pre-shared key.
    pub fn get_use_psk(&self) -> (b: bool)
        ensures
            b == self@.use_psk,
    {
        self.use_psk
    }

    /// Records whether the session was keyed from a pre-shared key.
    pub fn set_use_psk(&mut self, use_psk: bool)
        ensures
            final(self)@ == (SpdmSessionView { use_psk, ..old(self)@ }),
    {
        self.use_psk = use_psk;
    }

    /// Seconds between heartbeats; 0 when none are expected.
    pub fn get_heartbeat_period(&self) -> (p: u8)
        ensures
            p == self@.heartbeat_period,
    {
        self.heartbeat_period
    }

    /// Sets the seconds between heartbeats.
    pub fn set_heartbeat_period(&mut self, heartbeat_period: u8)
        ensures
            final(self)@ == (SpdmSessionView { heartbeat_period, ..old(self)@ }),
    {
        self.heartbeat_period = heartbeat_period;
    }

    /// Stores the two handshake secrets. Either is refused when longer than
    /// the largest digest; then `InvalidParameter` is returned and the session
    /// stays as it was.
    pub fn set_handshake_secret(&mut self, request: &[u8], response: &[u8]) -> (r: SpdmResult)
        ensures
            r is Ok <==> request@.len() <= crate::config::SPDM_MAX_HASH_SIZE && response@.len()
                <= crate::config::SPDM_MAX_HASH_SIZE,
            r is Ok ==> final(self)@ == (SpdmSessionView {
                request_handshake_secret: request@,
                response_handshake_secret: response@,
                ..old(self)@
            }),
            r is Err ==> r == Err::<(), _>(SpdmStatus::InvalidParameter) && *final(self) ==
                *old(self),
    {
        if request.len() > crate::config::SPDM_MAX_HASH_SIZE || response.len()
            > crate::config::SPDM_MAX_HASH_SIZE {
            return Err(SpdmStatus::InvalidParameter);
        }
        let _ = self.request_handshake_secret.set(request);
        let _ = self.response_handshake_secret.set(response);
        Ok(())
    }

    /// Stores the two data secrets. Either is refused when longer than the
    /// largest digest; then `InvalidParameter` is returned and the session
    /// stays as it was.
    pub fn set_data_secret(&mut self, request: &[u8], response: &[u8]) -> (r: SpdmResult)
        ensures
            r is Ok <==> request@.len() <= crate::config::SPDM_MAX_HASH_SIZE && response@.len()
                <= crate::config::SPDM_MAX_HASH_SIZE,
            r is Ok ==> final(self)@ == (SpdmSessionView {
                request_data_secret: request@,
                response_data_secret: response@,
                ..old(self)@
            }),
            r is Err ==> r == Err::<(), _>(SpdmStatus::InvalidParameter) && *final(self) ==
                *old(self),
    {
        if request.len() > crate::config::SPDM_MAX_HASH_SIZE || response.len()
            > crate::config::SPDM_MAX_HASH_SIZE {
            return Err(SpdmStatus::InvalidParameter);
        }
        let _ = self.request_data_secret.set(request);
        let _ = self.response_data_secret.set(response);
        Ok(())
    }

    /// Stores the AEAD key and nonce of each direction. A key longer than
    /// the largest key or a nonce longer than the nonce of the supported
    /// ciphers is refused; then `InvalidParameter` is returned and the
    /// session stays as it was.
    pub fn set_aead_keys(
        &mut self,
        request_key: &[u8],
        request_iv: &[u8],
        response_key: &[u8],
        response_iv: &[u8],
    ) -> (r: SpdmResult)
        ensures
            r is Ok <==> request_key@.len() <= SPDM_MAX_AEAD_KEY_SIZE && response_key@.len()
                <= SPDM_MAX_AEAD_KEY_SIZE && request_iv@.len() <= SPDM_MAX_AEAD_IV_SIZE
                && response_iv@.len() <= SPDM_MAX_AEAD_IV_SIZE,
            r is Ok ==> final(self)@ == (SpdmSessionView {
                request_aead: (request_key@, request_iv@),
                response_aead: (response_key@, response_iv@),
                ..old(self)@
            }),
            r is Err ==> r == Err::<(), _>(SpdmStatus::InvalidParameter)
                && *final(self) == *old(self),
    {
        if request_key.len() > SPDM_MAX_AEAD_KEY_SIZE || response_key.len()
            > SPDM_MAX_AEAD_KEY_SIZE || request_iv.len() > SPDM_MAX_AEAD_IV_SIZE
            || response_iv.len() > SPDM_MAX_AEAD_IV_SIZE {
            return Err(SpdmStatus::InvalidParameter);
        }
        let _ = self.request_key.set(request_key);
        let _ = self.request_iv.set(request_iv);
        let _ = self.response_key.set(response_key);
        let _ = self.response_iv.set(response_iv);
        Ok(())
    }

    /// The AEAD key and nonce for what the requester sends.
    pub fn get_request_aead(&self) -> (out: (&[u8], &[u8]))
        ensures
            out.0@ == self@.request_aead.0,
            out.1@ == self@.request_aead.1,
    {
        (self.request_key.as_slice(), self.request_iv.as_slice())
    }

    /// The AEAD key and nonce for what the responder sends.
    pub fn get_response_aead(&self) -> (out: (&[u8], &[u8]))
        ensures
            out.0@ == self@.response_aead.0,
            out.1@ == self@.response_aead.1,
    {
        (self.response_key.as_slice(), self.response_iv.as_slice())
    }

    /// The time by which the next heartbeat is due, if heartbeats are
    /// expected.
    pub fn get_heartbeat_deadline(&self) -> (d: Option<u64>)
        ensures
            d == self@.heartbeat_deadline,
    {
        self.heartbeat_deadline
    }

    /// Sets the time by which the next heartbeat is due, or that none is
    /// expected.
    pub fn set_heartbeat_deadline(&mut self, heartbeat_deadline: Option<u64>)
        ensures
            final(self)@ == (SpdmSessionView { heartbeat_deadline, ..old(self)@ }),
    {
        self.heartbeat_deadline = heartbeat_deadline;
    }

    /// The requester's and the responder's handshake secret.
    pub fn get_handshake_secret(&self) -> (out: (&[u8], &[u8]))
        ensures
            out.0@ == self@.request_handshake_secret,
            out.1@ == self@.response_handshake_secret,
    {
        (self.request_handshake_secret.as_slice(), self.response_handshake_secret.as_slice())
    }

    /// The requester's and the responder's data secret.
    pub fn get_data_secret(&self) -> (out: (&[u8], &[u8]))
        ensures
            out.0@ == self@.request_data_secret,
            out.1@ == self@.response_data_secret,
    {
        (self.request_data_secret.as_slice(), self.response_data_secret.as_slice())
    }

    /// Hands out the sequence number for the next secured request and counts
    /// one up. When the counter is exhausted nothing changes and the result
    /// is `None`: the session must not send under a number used before.
    pub fn next_request_sequence(&mut self) -> (n: Option<u64>)
        ensures
            n is Some <==> old(self)@.request_sequence < u64::MAX,
            n matches Some(x) ==> x == old(self)@.request_sequence && final(self)@ == (
            SpdmSessionView { request_sequence: (x + 1) as u64, ..old(self)@ }),
            n is None ==> *final(self) == *old(self),
    {
        if self.request_sequence == u64::MAX {
            return None;
        }
        let current = self.request_sequence;
        self.request_sequence = current + 1;
        Some(current)
    }

    /// Hands out the sequence number for the next secured response and counts
    /// one up. When the counter is exhausted nothing changes and the result
    /// is `None`.
    pub fn next_response_sequence(&mut self) -> (n: Option<u64>)
        ensures
            n is Some <==> old(self)@.response_sequence < u64::MAX,
            n matches Some(x) ==> x == old(self)@.response_sequence && final(self)@ == (
            SpdmSessionView { response_sequence: (x + 1) as u64, ..old(self)@ }),
            n is None ==> *final(self) == *old(self),
    {
        if self.response_sequence == u64::MAX {
            return None;
        }
        let current = self.response_sequence;
        self.response_sequence = current + 1;
        Some(current)
    }

    /// Appends to the transcript of the key exchange; `BufferFull` and no
    /// change when the bytes do not fit.
    pub fn append_message_k(&mut self, bytes: &[u8]) -> (r: SpdmResult)
        ensures
            r is Ok <==> old(self)@.message_k.len() + bytes@.len()
                <= crate::config::MAX_MANAGED_BUFFER_SIZE,
            r is Ok ==> final(self)@ == (SpdmSessionView {
                message_k: old(self)@.message_k + bytes@,
                ..old(self)@
            }),
            r is Err ==> r == Err::<(), _>(SpdmStatus::BufferFull) && *final(self) == *old(self),
    {
        match self.message_k.append_message(bytes) {
            Some(_) => Ok(()),
            None => Err(SpdmStatus::BufferFull),
        }
    }

    /// Appends to the transcript of the finish exchange; `BufferFull` and no
    /// change when the bytes do not fit.
    pub fn append_message_f(&mut self, bytes: &[u8]) -> (r: SpdmResult)
        ensures
            r is Ok <==> old(self)@.message_f.len() + bytes@.len()
                <= crate::config::MAX_MANAGED_BUFFER_SIZE,
            r is Ok ==> final(self)@ == (SpdmSessionView {
                message_f: old(self)@.message_f + bytes@,
                ..old(self)@
            }),
            r is Err ==> r == Err::<(), _>(SpdmStatus::BufferFull) && *final(self) == *old(self),
    {
        match self.message_f.append_message(bytes) {
            Some(_) => Ok(()),
            None => Err(SpdmStatus::BufferFull),
        }
    }

    /// Appends to the session's measurement transcript; `BufferFull` and no
    /// change when the bytes do not fit.
    pub fn append_message_m(&mut self, bytes: &[u8]) -> (r: SpdmResult)
        ensures
            r is Ok <==> old(self)@.message_m.len() + bytes@.len()
                <= crate::config::MAX_MANAGED_BUFFER_SIZE,
            r is Ok ==> final(self)@ == (SpdmSessionView {
                message_m: old(self)@.message_m + bytes@,
                ..old(self)@
            }),
            r is Err ==> r == Err::<(), _>(SpdmStatus::BufferFull) && *final(self) == *old(self),
    {
        match self.message_m.append_message(bytes) {
            Some(_) => Ok(()),
            None => Err(SpdmStatus::BufferFull),
        }
    }

    /// Empties the session's measurement transcript.
    pub fn reset_message_m(&mut self)
        ensures
            final(self)@ == (SpdmSessionView { message_m: Seq::empty(), ..old(self)@ }),
    {
        self.message_m.reset_message();
    }

    /// The transcript of the key exchange.
    pub fn get_message_k(&self) -> (out: &[u8])
        ensures
            out@ == self@.message_k,
    {
        self.message_k.as_slice()
    }

    /// The transcript of the finish exchange.
    pub fn get_message_f(&self) -> (out: &[u8])
        ensures
            out@ == self@.message_f,
    {
        self.message_f.as_slice()
    }

    /// The session's measurement transcript.
    pub fn get_message_m(&self) -> (out: &[u8])
        ensures
            out@ == self@.message_m,
    {
        self.message_m.as_slice()
    }
}

/// The sessions of one endpoint: a fixed number of slots, each free or
/// holding one session.
pub struct SpdmSessionTable {
    slots: [SpdmSession; MAX_SPDM_SESSION_COUNT],
}

impl View for SpdmSessionTable {
    type V = Seq<SpdmSessionView>;

    /// The slots in order, each as plain values.
    closed spec fn view(&self) -> Seq<SpdmSessionView> {
        Seq::new(MAX_SPDM_SESSION_COUNT as nat, |i: int| self.slots@[i]@)
    }
}

/// Whether slot `i` is the first slot of `slots` that holds session `id`.
pub open spec fn spec_is_first_match(slots: Seq<SpdmSessionView>, id: u32, i: int) -> bool {
    &&& 0 <= i < slots.len()
    &&& slots[i].session_id == id
    &&& forall|j: int| 0 <= j < i ==> slots[j].session_id != id
}

/// The first slot of `slots` that holds `id`, if any. No slot holds
/// `INVALID_SESSION_ID`: free slots are not sessions.
pub open spec fn spec_find_session(slots: Seq<SpdmSessionView>, id: u32) -> Option<int> {
    if id != INVALID_SESSION_ID && exists|i: int| spec_is_first_match(slots, id, i) {
        Some(choose|i: int| spec_is_first_match(slots, id, i))
    } else {
        None
    }
}

/// The first free slot of `slots`, if any.
pub open spec fn spec_find_free(slots: Seq<SpdmSessionView>) -> Option<int> {
    if exists|i: int| spec_is_first_match(slots, INVALID_SESSION_ID, i) {
        Some(choose|i: int| spec_is_first_match(slots, INVALID_SESSION_ID, i))
    } else {
        None
    }
}

/// No two slots hold the same session id, free slots aside.
pub open spec fn spec_unique_ids(slots: Seq<SpdmSessionView>) -> bool {
    forall|i: int, j: int|
        0 <= i < slots.len() && 0 <= j < slots.len() && i != j && slots[i].session_id
            != INVALID_SESSION_ID ==> slots[i].session_id != slots[j].session_id
}

/// A first match is the only first match, so it is the one that is found.
pub proof fn lemma_first_match(slots: Seq<SpdmSessionView>, id: u32, i: int)
    requires
        spec_is_first_match(slots, id, i),
    ensures
        id != INVALID_SESSION_ID ==> spec_find_session(slots, id) == Some(i),
        id == INVALID_SESSION_ID ==> spec_find_free(slots) == Some(i),
{
    let k = choose|k: int| spec_is_first_match(slots, id, k);
    assert(spec_is_first_match(slots, id, k));
    if k < i {
        assert(slots[k].session_id != id);
    } else if i < k {
        assert(slots[i].session_id != id);
    }
}

/// Where no slot holds `id`, nothing is found.
pub proof fn lemma_no_match(slots: Seq<SpdmSessionView>, id: u32)
    requires
        forall|j: int| 0 <= j < slots.len() ==> slots[j].session_id != id,
    ensures
        spec_find_session(slots, id) is None,
        id == INVALID_SESSION_ID ==> spec_find_free(slots) is None,
{
}

/// A slot that holds `id` makes `id` a session of the table.
pub proof fn lemma_session_held(slots: Seq<SpdmSessionView>, id: u32, k: int)
    requires
        0 <= k < slots.len(),
        slots[k].session_id == id,
        id != INVALID_SESSION_ID,
    ensures
        spec_find_session(slots, id) is Some,
    decreases k,
{
    if forall|j: int| 0 <= j < k ==> slots[j].session_id != id {
        assert(spec_is_first_match(slots, id, k));
    } else {
        let j = choose|j: int| 0 <= j < k && slots[j].session_id == id;
        lemma_session_held(slots, id, j);
    }
}

/// In a table without duplicates, the session that is found under an id is
/// the only slot that holds the id, and the id is not that of a free slot.
pub proof fn lemma_session_unique(slots: Seq<SpdmSessionView>, id: u32)
    requires
        spec_unique_ids(slots),
    ensures
        spec_find_session(slots, id) matches Some(i) ==> id != INVALID_SESSION_ID && 0 <= i
            < slots.len() && slots[i].session_id == id && forall|j: int|
            0 <= j < slots.len() && j != i ==> slots[j].session_id != id,
{
    if spec_find_session(slots, id) is Some {
        let i = spec_find_session(slots, id).unwrap();
        assert(spec_is_first_match(slots, id, i));
    }
}

/// Changing a session in its slot keeps the table free of duplicates, as
/// long as the session keeps its id or gives its slot up.
pub proof fn lemma_update_keeps_unique(
    slots: Seq<SpdmSessionView>,
    i: int,
    session: SpdmSessionView,
)
    requires
        spec_unique_ids(slots),
        0 <= i < slots.len(),
        session.session_id == slots[i].session_id || session.session_id == INVALID_SESSION_ID,
    ensures
        spec_unique_ids(slots.update(i, session)),
{
    let updated = slots.update(i, session);
    assert forall|a: int, b: int|
        0 <= a < updated.len() && 0 <= b < updated.len() && a != b && updated[a].session_id
            != INVALID_SESSION_ID implies updated[a].session_id != updated[b].session_id by {
        if a == i {
            assert(slots[a].session_id != slots[b].session_id);
        } else if b == i {
            assert(slots[a].session_id != slots[b].session_id);
        } else {
            assert(slots[a].session_id != slots[b].session_id);
        }
    }
}

impl SpdmSessionTable {
    /// The table has its fixed number of slots and no session id occurs in
    /// two of them.
    pub open spec fn wf(&self) -> bool {
        &&& self@.len() == MAX_SPDM_SESSION_COUNT
        &&& spec_unique_ids(self@)
    }

    /// Whether the storage of every secret of slot `i` holds only zeroes.
    pub closed spec fn spec_slot_zeroed(&self, i: int) -> bool {
        self.slots@[i].spec_secrets_zeroed()
    }

    /// The session with the given id as plain values, if the table holds it.
    pub open spec fn spec_session(&self, session_id: u32) -> Option<SpdmSessionView> {
        match spec_find_session(self@, session_id) {
            Some(i) => Some(self@[i]),
            None => None,
        }
    }

    /// A table of free slots.
    pub fn new() -> (t: Self)
        ensures
            t.wf(),
            forall|i: int| 0 <= i < t@.len() ==> t@[i] == SpdmSessionView::spec_free(),
            forall|i: int| 0 <= i < t@.len() ==> t.spec_slot_zeroed(i),
    {
        SpdmSessionTable {
            slots: [SpdmSession::new(), SpdmSession::new(), SpdmSession::new(), SpdmSession::new()],
        }
    }

    /// Ends every session: all secrets are overwritten with zeroes and all
    /// slots become free.
    pub fn reset(&mut self)
        ensures
            final(self).wf(),
            forall|i: int|
                0 <= i < final(self)@.len() ==> final(self)@[i] == SpdmSessionView::spec_free(),
            forall|i: int| 0 <= i < final(self)@.len() ==> final(self).spec_slot_zeroed(i),
    {
        let mut i: usize = 0;
        while i < MAX_SPDM_SESSION_COUNT
            invariant
                0 <= i <= MAX_SPDM_SESSION_COUNT,
                forall|j: int| 0 <= j < i ==> self@[j] == SpdmSessionView::spec_free(),
                forall|j: int| 0 <= j < i ==> self.spec_slot_zeroed(j),
            decreases MAX_SPDM_SESSION_COUNT - i,
        {
            let ghost before = *self;
            self.slots[i].clear();
            assert forall|j: int| 0 <= j < i + 1 implies self@[j]
                == SpdmSessionView::spec_free() by {
                if j < i {
                    assert(self.slots@[j] == before.slots@[j]);
                    assert(before@[j] == SpdmSessionView::spec_free());
                }
            }
            assert forall|j: int| 0 <= j < i + 1 implies self.spec_slot_zeroed(j) by {
                if j < i {
                    assert(self.slots@[j] == before.slots@[j]);
                    assert(before.spec_slot_zeroed(j));
                }
            }
            i = i + 1;
        }
    }

    /// The session with the given id, read-only.
    pub fn get_immutable_session_via_id(&self, session_id: u32) -> (r: Option<&SpdmSession>)
        ensures
            self@.len() == MAX_SPDM_SESSION_COUNT,
            r is Some <==> spec_find_session(self@, session_id) is Some,
            r matches Some(s) ==> Some(s@) == self.spec_session(session_id),
    {
        if session_id == INVALID_SESSION_ID {
            return None;
        }
        let mut i: usize = 0;
        while i < MAX_SPDM_SESSION_COUNT
            invariant
                0 <= i <= MAX_SPDM_SESSION_COUNT,
                session_id != INVALID_SESSION_ID,
                forall|j: int| 0 <= j < i ==> self@[j].session_id != session_id,
            decreases MAX_SPDM_SESSION_COUNT - i,
        {
            if self.slots[i].session_id == session_id {
                proof {
                    lemma_first_match(self@, session_id, i as int);
                }
                return Some(&self.slots[i]);
            }
            i = i + 1;
        }
        proof {
            lemma_no_match(self@, session_id);
        }
        None
    }

    /// The session with the given id, for changing it. What the caller does
    /// to the session is what happens to its slot; every other slot stays.
    pub fn get_session_via_id(&mut self, session_id: u32) -> (r: Option<&mut SpdmSession>)
        ensures
            old(self)@.len() == MAX_SPDM_SESSION_COUNT,
            r is Some <==> spec_find_session(old(self)@, session_id) is Some,
            r matches Some(s) ==> Some(s@) == old(self).spec_session(session_id) && final(self)@
                == old(self)@.update(
                spec_find_session(old(self)@, session_id).unwrap(),
                final(s)@,
            ),
            r is None ==> *final(self) == *old(self),
    {
        if session_id == INVALID_SESSION_ID {
            return None;
        }
        let mut i: usize = 0;
        while i < MAX_SPDM_SESSION_COUNT
            invariant
                0 <= i <= MAX_SPDM_SESSION_COUNT,
                session_id != INVALID_SESSION_ID,
                *self == *old(self),
                forall|j: int| 0 <= j < i ==> self@[j].session_id != session_id,
            decreases MAX_SPDM_SESSION_COUNT - i,
        {
            if self.slots[i].session_id == session_id {
                proof {
                    lemma_first_match(self@, session_id, i as int);
                }
                return Some(&mut self.slots[i]);
            }
            i = i + 1;
        }
        proof {
            lemma_no_match(self@, session_id);
        }
        None
    }

    /// Whether the table holds a session with the given id.
    pub fn contains(&self, session_id: u32) -> (b: bool)
        ensures
            b == (spec_find_session(self@, session_id) is Some),
    {
        self.get_immutable_session_via_id(session_id).is_some()
    }

    /// The state of the session with the given id, if the table holds it.
    pub fn session_state(&self, session_id: u32) -> (r: Option<SpdmSessionState>)
        ensures
            r == match self.spec_session(session_id) {
                Some(s) => Some(s.session_state),
                None => None,
            },
    {
        match self.get_immutable_session_via_id(session_id) {
            Some(s) => Some(s.get_session_state()),
            None => None,
        }
    }

    /// Opens a session with the given id in the first free slot: not
    /// started, no secret, empty transcripts. The id must not be
    /// `INVALID_SESSION_ID` nor that of a session the table holds
    /// (`InvalidParameter`), and a slot must be free
    /// (`SessionLimitExceeded`); on an error the table stays as it was.
    pub fn open_session(&mut self, session_id: u32) -> (r: SpdmResult<usize>)
        ensures
            old(self)@.len() == MAX_SPDM_SESSION_COUNT,
            old(self).wf() ==> final(self).wf(),
            r == Err::<usize, _>(SpdmStatus::InvalidParameter) <==> session_id
                == INVALID_SESSION_ID || spec_find_session(old(self)@, session_id) is Some,
            r == Err::<usize, _>(SpdmStatus::SessionLimitExceeded) <==> session_id
                != INVALID_SESSION_ID && spec_find_session(old(self)@, session_id) is None
                && spec_find_free(old(self)@) is None,
            r is Err ==> *final(self) == *old(self) && (r == Err::<usize, _>(
                SpdmStatus::InvalidParameter,
            ) || r == Err::<usize, _>(SpdmStatus::SessionLimitExceeded)),
            r matches Ok(i) ==> spec_find_free(old(self)@) == Some(i as int) && final(self)@
                == old(self)@.update(
                i as int,
                SpdmSessionView { session_id, ..SpdmSessionView::spec_free() },
            ),
    {
        if session_id == INVALID_SESSION_ID || self.contains(session_id) {
            return Err(SpdmStatus::InvalidParameter);
        }
        let mut i: usize = 0;
        while i < MAX_SPDM_SESSION_COUNT
            invariant
                0 <= i <= MAX_SPDM_SESSION_COUNT,
                *self == *old(self),
                session_id != INVALID_SESSION_ID,
                spec_find_session(old(self)@, session_id) is None,
                forall|j: int| 0 <= j < i ==> self@[j].session_id != INVALID_SESSION_ID,
            decreases MAX_SPDM_SESSION_COUNT - i,
        {
            if self.slots[i].session_id == INVALID_SESSION_ID {
                proof {
                    lemma_first_match(self@, INVALID_SESSION_ID, i as int);
                }
                self.slots[i].setup(session_id);
                proof {
                    let fresh = SpdmSessionView { session_id, ..SpdmSessionView::spec_free() };
                    assert(self@ =~= old(self)@.update(i as int, fresh));
                    if old(self).wf() {
                        assert forall|a: int, b: int|
                            0 <= a < self@.len() && 0 <= b < self@.len() && a != b
                                && self@[a].session_id
                                != INVALID_SESSION_ID implies self@[a].session_id
                            != self@[b].session_id by {
                            if a == i {
                                if old(self)@[b].session_id == session_id {
                                    lemma_session_held(old(self)@, session_id, b);
                                }
                            } else if b == i {
                                if old(self)@[a].session_id == session_id {
                                    lemma_session_held(old(self)@, session_id, a);
                                }
                            }
                        }
                    }
                }
                return Ok(i);
            }
            i = i + 1;
        }
        proof {
            lemma_no_match(self@, INVALID_SESSION_ID);
        }
        Err(SpdmStatus::SessionLimitExceeded)
    }

    /// Ends the session with the given id: its secrets are overwritten with
    /// zeroes and its slot becomes free. `InvalidParameter` and no change
    /// when the table holds no such session.
    pub fn teardown_session(&mut self, session_id: u32) -> (r: SpdmResult)
        ensures
            old(self)@.len() == MAX_SPDM_SESSION_COUNT,
            old(self).wf() ==> final(self).wf(),
            r is Ok <==> spec_find_session(old(self)@, session_id) is Some,
            r is Ok ==> final(self)@ == old(self)@.update(
                spec_find_session(old(self)@, session_id).unwrap(),
                SpdmSessionView::spec_free(),
            ) && final(self).spec_slot_zeroed(spec_find_session(old(self)@, session_id).unwrap()),
            r is Err ==> r == Err::<(), _>(SpdmStatus::InvalidParameter) && *final(self) ==
                *old(self),
    {
        if session_id == INVALID_SESSION_ID {
            return Err(SpdmStatus::InvalidParameter);
        }
        let mut i: usize = 0;
        while i < MAX_SPDM_SESSION_COUNT
            invariant
                0 <= i <= MAX_SPDM_SESSION_COUNT,
                session_id != INVALID_SESSION_ID,
                *self == *old(self),
                forall|j: int| 0 <= j < i ==> self@[j].session_id != session_id,
            decreases MAX_SPDM_SESSION_COUNT - i,
        {
            if self.slots[i].session_id == session_id {
                proof {
                    lemma_first_match(self@, session_id, i as int);
                }
                self.slots[i].clear();
                proof {
                    assert(self@ =~= old(self)@.update(i as int, SpdmSessionView::spec_free()));
                    if old(self).wf() {
                        lemma_update_keeps_unique(
                            old(self)@,
                            i as int,
                            SpdmSessionView::spec_free(),
                        );
                    }
                }
                return Ok(());
            }
            i = i + 1;
        }
        proof {
            lemma_no_match(self@, session_id);
        }
        Err(SpdmStatus::InvalidParameter)
    }

    /// Moves the session with the given id to `state`. `InvalidParameter`
    /// and no change when the table holds no such session.
    pub fn set_session_state(&mut self, session_id: u32, state: SpdmSessionState) -> (r: SpdmResult)
        ensures
            old(self)@.len() == MAX_SPDM_SESSION_COUNT,
            old(self).wf() ==> final(self).wf(),
            r is Ok <==> spec_find_session(old(self)@, session_id) is Some,
            r is Ok ==> final(self)@ == old(self)@.update(
                spec_find_session(old(self)@, session_id).unwrap(),
                SpdmSessionView {
                    session_state: state,
                    ..old(self)@[spec_find_session(old(self)@, session_id).unwrap()]
                },
            ),
            r is Err ==> r == Err::<(), _>(SpdmStatus::InvalidParameter) && *final(self) ==
                *old(self),
    {
        match self.get_session_via_id(session_id) {
            Some(s) => {
                s.set_session_state(state);
                Ok(())
            },
            None => Err(SpdmStatus::InvalidParameter),
        }
    }

    /// The half of a session id that this endpoint contributes to the next
    /// session: `INITIAL_SESSION_ID` for the first slot, one less for each
    /// slot after it, taken from the first free slot. `SessionLimitExceeded`
    /// when no slot is free.
    pub fn get_next_half_session_id(&self) -> (r: SpdmResult<u16>)
        ensures
            r is Ok <==> spec_find_free(self@) is Some,
            r matches Ok(half) ==> half == INITIAL_SESSION_ID - spec_find_free(self@).unwrap()
                && half != 0,
            r is Err ==> r == Err::<u16, _>(SpdmStatus::SessionLimitExceeded),
    {
        let mut i: u16 = 0;
        while i < 4
            invariant
                0 <= i <= MAX_SPDM_SESSION_COUNT,
                MAX_SPDM_SESSION_COUNT == 4,
                forall|j: int| 0 <= j < i ==> self@[j].session_id != INVALID_SESSION_ID,
            decreases 4 - i,
        {
            if self.slots[i as usize].session_id == INVALID_SESSION_ID {
                proof {
                    lemma_first_match(self@, INVALID_SESSION_ID, i as int);
                }
                return Ok(INITIAL_SESSION_ID - i);
            }
            i = i + 1;
        }
        proof {
            lemma_no_match(self@, INVALID_SESSION_ID);
        }
        Err(SpdmStatus::SessionLimitExceeded)
    }
}

} // verus!
