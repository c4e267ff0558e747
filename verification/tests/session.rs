use spdmlib::common::managed_buffer::{BoundedBytes, ManagedBuffer};
use spdmlib::common::session::{
    SpdmSession, SpdmSessionState, SpdmSessionTable, INITIAL_SESSION_ID, INVALID_SESSION_ID,
};
use spdmlib::common::{SpdmConfigInfo, SpdmConnectionState, SpdmContext, SpdmProvisionInfo};
use spdmlib::config::{MAX_MANAGED_BUFFER_SIZE, MAX_SPDM_SESSION_COUNT};
use spdmlib::error::SpdmStatus;
use spdmlib::message::{SpdmErrorCode, SpdmRequestResponseCode};
use spdmlib::responder::context::ResponderContext;

fn context() -> SpdmContext {
    SpdmContext::new(SpdmConfigInfo::default(), SpdmProvisionInfo::default())
}

fn active_ids(table: &SpdmSessionTable, candidates: &[u32]) -> Vec<u32> {
    candidates.iter().copied().filter(|id| table.contains(*id)).collect()
}

#[test]
fn a_new_table_holds_no_session() {
    let table = SpdmSessionTable::new();
    assert!(!table.contains(INVALID_SESSION_ID));
    assert!(!table.contains(1));
    assert!(table.get_immutable_session_via_id(0).is_none());
    assert_eq!(table.session_state(0xfffd_fffd), None);
    assert_eq!(table.get_next_half_session_id(), Ok(INITIAL_SESSION_ID));
}

#[test]
fn sessions_take_the_first_free_slot() {
    let mut table = SpdmSessionTable::new();
    assert_eq!(table.open_session(10), Ok(0));
    assert_eq!(table.open_session(20), Ok(1));
    assert_eq!(table.open_session(30), Ok(2));
    assert_eq!(table.teardown_session(20), Ok(()));
    assert_eq!(table.get_next_half_session_id(), Ok(INITIAL_SESSION_ID - 1));
    assert_eq!(table.open_session(40), Ok(1));
    assert_eq!(table.open_session(50), Ok(3));
    assert_eq!(table.get_next_half_session_id(), Err(SpdmStatus::SessionLimitExceeded));
    assert_eq!(active_ids(&table, &[10, 20, 30, 40, 50]), vec![10, 30, 40, 50]);
}

#[test]
fn no_two_sessions_share_an_id_and_no_id_is_zero() {
    let mut table = SpdmSessionTable::new();
    assert_eq!(table.open_session(INVALID_SESSION_ID), Err(SpdmStatus::InvalidParameter));
    assert_eq!(table.open_session(7), Ok(0));
    assert_eq!(table.open_session(7), Err(SpdmStatus::InvalidParameter));
    assert_eq!(table.open_session(8), Ok(1));
    assert_eq!(table.open_session(8), Err(SpdmStatus::InvalidParameter));
    assert_eq!(table.teardown_session(7), Ok(()));
    assert_eq!(table.teardown_session(7), Err(SpdmStatus::InvalidParameter));
    assert_eq!(table.open_session(7), Ok(0));
    assert_eq!(table.get_immutable_session_via_id(7).unwrap().get_session_id(), 7);
    assert_eq!(table.get_immutable_session_via_id(8).unwrap().get_session_id(), 8);
}

#[test]
fn a_full_table_takes_no_more_sessions() {
    let mut table = SpdmSessionTable::new();
    for i in 0..MAX_SPDM_SESSION_COUNT as u32 {
        assert_eq!(table.open_session(100 + i), Ok(i as usize));
    }
    assert_eq!(table.open_session(999), Err(SpdmStatus::SessionLimitExceeded));
    // An id that is taken is refused as such, full or not.
    assert_eq!(table.open_session(100), Err(SpdmStatus::InvalidParameter));
    table.reset();
    assert!(!table.contains(100));
    assert_eq!(table.open_session(999), Ok(0));
}

#[test]
fn the_responder_assigns_distinct_ids_until_the_table_is_full() {
    let mut responder =
        ResponderContext::new(SpdmConfigInfo::default(), SpdmProvisionInfo::default());
    let mut ids = Vec::new();
    for _ in 0..MAX_SPDM_SESSION_COUNT {
        ids.push(responder.open_key_exchange_session(0x0001).unwrap());
    }
    assert_eq!(ids, vec![0xfffd_0001, 0xfffc_0001, 0xfffb_0001, 0xfffa_0001]);
    for (i, a) in ids.iter().enumerate() {
        assert_ne!(*a, 0);
        for b in &ids[i + 1..] {
            assert_ne!(a, b);
        }
    }
    assert_eq!(
        responder.open_key_exchange_session(0x0002),
        Err(SpdmErrorCode::SpdmErrorSessionLimitExceeded)
    );
    assert_eq!(
        responder.open_psk_exchange_session(0x0002, true),
        Err(SpdmErrorCode::SpdmErrorSessionLimitExceeded)
    );
    assert_eq!(responder.common.runtime_info.get_last_session_id(), Some(0xfffa_0001));
}

#[test]
fn an_id_that_is_taken_is_not_assigned_again() {
    let mut responder =
        ResponderContext::new(SpdmConfigInfo::default(), SpdmProvisionInfo::default());
    // The id that the second slot would give is in use in the first.
    responder.common.session.open_session(0xfffc_0009).unwrap();
    assert_eq!(
        responder.open_key_exchange_session(0x0009),
        Err(SpdmErrorCode::SpdmErrorInvalidRequest)
    );
    assert_eq!(responder.common.runtime_info.get_last_session_id(), None);
    assert_eq!(responder.open_key_exchange_session(0x000a), Ok(0xfffc_000a));
}

#[test]
fn a_key_exchange_session_starts_in_its_handshake() {
    let mut responder =
        ResponderContext::new(SpdmConfigInfo::default(), SpdmProvisionInfo::default());
    let id = responder.open_key_exchange_session(0).unwrap();
    assert_eq!(id, 0xfffd_0000);
    let session = responder.common.get_immutable_session_via_id(id).unwrap();
    assert_eq!(session.get_session_state(), SpdmSessionState::SpdmSessionHandshaking);
    assert!(!session.get_use_psk());
    assert_eq!(responder.common.runtime_info.get_last_session_id(), Some(id));
}

#[test]
fn a_psk_session_is_established_at_once_without_mutual_authentication() {
    let mut responder =
        ResponderContext::new(SpdmConfigInfo::default(), SpdmProvisionInfo::default());
    let plain = responder.open_psk_exchange_session(5, false).unwrap();
    let mutual = responder.open_psk_exchange_session(6, true).unwrap();
    let session = responder.common.get_immutable_session_via_id(plain).unwrap();
    assert_eq!(session.get_session_state(), SpdmSessionState::SpdmSessionEstablished);
    assert!(session.get_use_psk());
    let session = responder.common.get_immutable_session_via_id(mutual).unwrap();
    assert_eq!(session.get_session_state(), SpdmSessionState::SpdmSessionHandshaking);
    assert!(session.get_use_psk());
    assert_eq!(responder.common.runtime_info.get_last_session_id(), None);
}

#[test]
fn a_session_is_changed_through_its_handle() {
    let mut context = context();
    context.session.open_session(0xabcd).unwrap();
    context.session.open_session(0xef01).unwrap();
    assert!(context.get_session_via_id(0x1111).is_none());
    assert!(context.get_session_via_id(INVALID_SESSION_ID).is_none());
    {
        let session = context.get_session_via_id(0xabcd).unwrap();
        assert_eq!(session.get_session_state(), SpdmSessionState::SpdmSessionNotStarted);
        session.set_session_state(SpdmSessionState::SpdmSessionHandshaking);
        session.set_use_psk(true);
        session.set_heartbeat_period(30);
        assert_eq!(session.set_handshake_secret(&[1, 2], &[3]), Ok(()));
        assert_eq!(session.set_handshake_secret(&[0; 65], &[3]), Err(SpdmStatus::InvalidParameter));
        assert_eq!(session.set_data_secret(&[4; 64], &[]), Ok(()));
        assert_eq!(session.set_data_secret(&[4], &[0; 65]), Err(SpdmStatus::InvalidParameter));
    }
    let session = context.get_immutable_session_via_id(0xabcd).unwrap();
    assert_eq!(session.get_session_id(), 0xabcd);
    assert_eq!(session.get_session_state(), SpdmSessionState::SpdmSessionHandshaking);
    assert!(session.get_use_psk());
    assert_eq!(session.get_heartbeat_period(), 30);
    assert_eq!(session.get_handshake_secret(), (&[1u8, 2][..], &[3u8][..]));
    assert_eq!(session.get_data_secret(), (&[4u8; 64][..], &[][..]));
    let other = context.get_immutable_session_via_id(0xef01).unwrap();
    assert_eq!(other.get_session_state(), SpdmSessionState::SpdmSessionNotStarted);
    assert_eq!(other.get_heartbeat_period(), 0);
}

#[test]
fn teardown_through_the_handle_frees_the_slot() {
    let mut context = context();
    context.session.open_session(0xabcd).unwrap();
    {
        let session = context.get_session_via_id(0xabcd).unwrap();
        assert_eq!(session.teardown(0x1234), Err(SpdmStatus::InvalidParameter));
        assert_eq!(session.get_session_id(), 0xabcd);
        assert_eq!(session.teardown(0xabcd), Ok(()));
        assert_eq!(session.get_session_id(), INVALID_SESSION_ID);
    }
    assert!(context.get_immutable_session_via_id(0xabcd).is_none());
    assert_eq!(context.session.open_session(0x5555), Ok(0));
}

#[test]
fn sequence_numbers_count_up_and_never_repeat() {
    let mut session = SpdmSession::new();
    assert_eq!(session.next_request_sequence(), Some(0));
    assert_eq!(session.next_request_sequence(), Some(1));
    assert_eq!(session.next_response_sequence(), Some(0));
    assert_eq!(session.next_request_sequence(), Some(2));
    assert_eq!(session.next_response_sequence(), Some(1));
}

#[test]
fn session_transcripts_accumulate_up_to_their_capacity() {
    let mut session = SpdmSession::new();
    assert_eq!(session.append_message_k(&[1, 2]), Ok(()));
    assert_eq!(session.append_message_k(&[3]), Ok(()));
    assert_eq!(session.append_message_f(&[4]), Ok(()));
    assert_eq!(session.append_message_m(&[5, 6]), Ok(()));
    assert_eq!(session.get_message_k(), &[1, 2, 3]);
    assert_eq!(session.get_message_f(), &[4]);
    assert_eq!(session.get_message_m(), &[5, 6]);
    let big = vec![0u8; MAX_MANAGED_BUFFER_SIZE - 2];
    assert_eq!(session.append_message_k(&big), Err(SpdmStatus::BufferFull));
    assert_eq!(session.get_message_k(), &[1, 2, 3]);
    assert_eq!(session.append_message_m(&big), Ok(()));
    assert_eq!(session.append_message_m(&[0]), Err(SpdmStatus::BufferFull));
    assert_eq!(session.get_message_m().len(), MAX_MANAGED_BUFFER_SIZE);
    session.reset_message_m();
    assert_eq!(session.get_message_m(), &[] as &[u8]);
    assert_eq!(session.get_message_k(), &[1, 2, 3]);
}

#[test]
fn bounded_bytes_never_hold_more_than_their_capacity() {
    let mut bytes: BoundedBytes<4> = BoundedBytes::new();
    assert_eq!(bytes.len(), 0);
    assert_eq!(bytes.append_message(&[1, 2, 3]), Some(3));
    assert_eq!(bytes.append_message(&[4, 5]), None);
    assert_eq!(bytes.as_slice(), &[1, 2, 3]);
    assert_eq!(bytes.append_message(&[4]), Some(1));
    assert_eq!(bytes.append_message(&[]), Some(0));
    assert_eq!(bytes.append_message(&[5]), None);
    assert_eq!(bytes.as_slice(), &[1, 2, 3, 4]);
    assert!(!bytes.set(&[9; 5]));
    assert_eq!(bytes.as_slice(), &[1, 2, 3, 4]);
    assert!(bytes.set(&[9]));
    assert_eq!(bytes.as_slice(), &[9]);
    let copy = bytes.clone();
    bytes.reset_message();
    assert_eq!(bytes.len(), 0);
    assert_eq!(copy.as_slice(), &[9]);
    assert!(BoundedBytes::<4>::from_slice(&[0; 5]).is_none());
    assert_eq!(BoundedBytes::<4>::from_slice(&[7; 4]).unwrap().as_slice(), &[7; 4]);
    let empty: BoundedBytes<0> = BoundedBytes::new();
    assert_eq!(empty.as_slice(), &[] as &[u8]);
    assert!(BoundedBytes::<0>::from_slice(&[1]).is_none());
    let transcript = ManagedBuffer::new();
    assert_eq!(transcript.len(), 0);
}

#[test]
fn context_transcripts_are_kept_apart() {
    let mut context = context();
    assert_eq!(context.append_message_a(&[1]), Ok(()));
    assert_eq!(context.append_message_b(&[2, 2]), Ok(()));
    assert_eq!(context.append_message_c(&[3, 3, 3]), Ok(()));
    assert_eq!(context.append_message_m(None, &[4]), Ok(()));
    assert_eq!(context.append_message_m(Some(9), &[4]), Err(SpdmStatus::InvalidParameter));
    context.session.open_session(9).unwrap();
    assert_eq!(context.append_message_m(Some(9), &[5, 5]), Ok(()));
    let big = vec![0u8; MAX_MANAGED_BUFFER_SIZE];
    assert_eq!(context.append_message_a(&big), Err(SpdmStatus::BufferFull));
    assert_eq!(context.append_message_m(Some(9), &big), Err(SpdmStatus::BufferFull));
    assert_eq!(context.append_message_m(None, &big), Err(SpdmStatus::BufferFull));
    assert_eq!(context.runtime_info.message_a.as_slice(), &[1]);
    assert_eq!(context.runtime_info.message_b.as_slice(), &[2, 2]);
    assert_eq!(context.runtime_info.message_c.as_slice(), &[3, 3, 3]);
    assert_eq!(context.runtime_info.message_m.as_slice(), &[4]);
    assert_eq!(context.get_immutable_session_via_id(9).unwrap().get_message_m(), &[5, 5]);
    context.reset_message_m(Some(9));
    assert_eq!(context.get_immutable_session_via_id(9).unwrap().get_message_m(), &[] as &[u8]);
    assert_eq!(context.runtime_info.message_m.as_slice(), &[4]);
    context.reset_message_m(Some(77));
    context.reset_message_m(None);
    assert_eq!(context.runtime_info.message_m.len(), 0);
    context.reset_message_a();
    context.reset_message_c();
    assert_eq!(context.runtime_info.message_a.len(), 0);
    assert_eq!(context.runtime_info.message_b.len(), 2);
    assert_eq!(context.runtime_info.message_c.len(), 0);
    context.reset_message_b();
    assert_eq!(context.runtime_info.message_b.len(), 0);
}

fn filled(session_id: Option<u32>, state: SpdmConnectionState) -> SpdmContext {
    let mut context = context();
    context.runtime_info.set_connection_state(state);
    context.session.open_session(9).unwrap();
    context.append_message_a(&[1]).unwrap();
    context.append_message_b(&[2]).unwrap();
    context.append_message_c(&[3]).unwrap();
    context.append_message_m(None, &[4]).unwrap();
    context.append_message_m(Some(9), &[5]).unwrap();
    let _ = session_id;
    context
}

fn lengths(context: &SpdmContext) -> [usize; 5] {
    [
        context.runtime_info.message_a.len(),
        context.runtime_info.message_b.len(),
        context.runtime_info.message_c.len(),
        context.runtime_info.message_m.len(),
        context.get_immutable_session_via_id(9).unwrap().get_message_m().len(),
    ]
}

#[test]
fn each_request_clears_the_transcripts_of_its_class() {
    let negotiated = SpdmConnectionState::SpdmConnectionNegotiated;
    let authenticated = SpdmConnectionState::SpdmConnectionAuthenticated;

    let mut context = filled(None, negotiated);
    let get_measurements = SpdmRequestResponseCode::SpdmRequestGetMeasurements;
    context.reset_buffer_via_request_code(get_measurements, None);
    assert_eq!(lengths(&context), [1, 0, 0, 1, 1]);

    let mut context = filled(None, authenticated);
    let get_measurements = SpdmRequestResponseCode::SpdmRequestGetMeasurements;
    context.reset_buffer_via_request_code(get_measurements, None);
    assert_eq!(lengths(&context), [1, 1, 1, 1, 1]);

    let mut context = filled(None, authenticated);
    context.reset_buffer_via_request_code(SpdmRequestResponseCode::SpdmRequestGetDigests, None);
    assert_eq!(lengths(&context), [1, 0, 1, 0, 1]);

    let mut context = filled(None, negotiated);
    context.reset_buffer_via_request_code(SpdmRequestResponseCode::SpdmRequestGetDigests, Some(9));
    assert_eq!(lengths(&context), [1, 0, 1, 1, 0]);

    for code in [
        SpdmRequestResponseCode::SpdmRequestKeyExchange,
        SpdmRequestResponseCode::SpdmRequestFinish,
        SpdmRequestResponseCode::SpdmRequestPskExchange,
        SpdmRequestResponseCode::SpdmRequestPskFinish,
        SpdmRequestResponseCode::SpdmRequestKeyUpdate,
        SpdmRequestResponseCode::SpdmRequestHeartbeat,
        SpdmRequestResponseCode::SpdmRequestGetEncapsulatedRequest,
        SpdmRequestResponseCode::SpdmRequestDeliverEncapsulatedResponse,
        SpdmRequestResponseCode::SpdmRequestEndSession,
    ] {
        let mut context = filled(None, negotiated);
        context.reset_buffer_via_request_code(code, Some(9));
        assert_eq!(lengths(&context), [1, 0, 0, 1, 0]);
        let mut context = filled(None, authenticated);
        context.reset_buffer_via_request_code(code, None);
        assert_eq!(lengths(&context), [1, 1, 1, 0, 1]);
    }

    for code in [
        SpdmRequestResponseCode::SpdmRequestGetVersion,
        SpdmRequestResponseCode::SpdmRequestGetCertificate,
        SpdmRequestResponseCode::SpdmRequestChallenge,
        SpdmRequestResponseCode::SpdmRequestVendorDefinedRequest,
        SpdmRequestResponseCode::Unknown(0),
    ] {
        let mut context = filled(None, negotiated);
        context.reset_buffer_via_request_code(code, Some(1234));
        assert_eq!(lengths(&context), [1, 1, 1, 1, 1]);
        context.reset_buffer_via_request_code(code, None);
        assert_eq!(lengths(&context), [1, 1, 1, 0, 1]);
    }
}

#[test]
fn the_connection_states_are_ranked_in_order() {
    let order = [
        SpdmConnectionState::SpdmConnectionNotStarted,
        SpdmConnectionState::SpdmConnectionAfterVersion,
        SpdmConnectionState::SpdmConnectionAfterCapabilities,
        SpdmConnectionState::SpdmConnectionNegotiated,
        SpdmConnectionState::SpdmConnectionAfterDigest,
        SpdmConnectionState::SpdmConnectionAfterCertificate,
        SpdmConnectionState::SpdmConnectionAuthenticated,
    ];
    for (i, a) in order.iter().enumerate() {
        assert_eq!(a.get_u8(), i as u8);
        for (j, b) in order.iter().enumerate() {
            assert_eq!(a.at_least(*b), i >= j);
        }
    }
}

#[test]
fn heartbeat_is_acknowledged_in_the_selected_version() {
    let mut responder =
        ResponderContext::new(SpdmConfigInfo::default(), SpdmProvisionInfo::default());
    let id = responder.open_psk_exchange_session(1, false).unwrap();
    responder.common.append_message_m(Some(id), &[1, 2, 3]).unwrap();
    responder.common.append_message_b(&[1]).unwrap();
    let mut buffer = [0u8; 8];
    let mut writer = spdmlib::codec::Writer::init(&mut buffer);
    assert_eq!(responder.handle_spdm_heartbeat(id, &[0x10, 0xe8, 0, 0], &mut writer), Some(4));
    assert_eq!(writer.used_slice(), &[0x10, 0x68, 0x00, 0x00]);
    assert_eq!(
        responder.common.get_immutable_session_via_id(id).unwrap().get_message_m(),
        &[] as &[u8]
    );
    assert_eq!(responder.common.runtime_info.message_b.len(), 0);
    responder.common.append_message_m(Some(id), &[1, 2, 3]).unwrap();
    assert_eq!(responder.handle_spdm_heartbeat(id, &[0x11, 0xe8, 0, 0], &mut writer), Some(4));
    assert_eq!(writer.used_slice(), &[0x10, 0x7f, 0x41, 0x00]);
    assert_eq!(responder.handle_spdm_heartbeat(id, &[0x10, 0xe8, 0], &mut writer), Some(4));
    assert_eq!(writer.used_slice(), &[0x10, 0x7f, 0x01, 0x00]);
    assert_eq!(responder.handle_spdm_end_session(id, &[], &mut writer), Some(4));
    assert_eq!(writer.used_slice(), &[0x10, 0x7f, 0x01, 0x00]);
    assert_eq!(
        responder.common.get_immutable_session_via_id(id).unwrap().get_message_m(),
        &[1, 2, 3]
    );
    let mut small = [0u8; 3];
    let mut writer = spdmlib::codec::Writer::init(&mut small);
    assert_eq!(responder.handle_spdm_heartbeat(id, &[0x10, 0xe8, 0, 0], &mut writer), None);
    assert_eq!(
        responder.common.get_immutable_session_via_id(id).unwrap().get_message_m(),
        &[1, 2, 3]
    );
}

#[test]
fn aead_keys_are_kept_per_direction_and_go_with_the_session() {
    let mut table = SpdmSessionTable::new();
    table.open_session(3).unwrap();
    {
        let session = table.get_session_via_id(3).unwrap();
        assert_eq!(session.get_request_aead(), (&[][..], &[][..]));
        assert_eq!(session.get_heartbeat_deadline(), None);
        assert_eq!(session.set_aead_keys(&[1; 32], &[2; 12], &[3; 16], &[4; 12]), Ok(()));
        let too_long = Err(SpdmStatus::InvalidParameter);
        assert_eq!(session.set_aead_keys(&[0; 33], &[0; 12], &[0; 32], &[0; 12]), too_long);
        assert_eq!(session.set_aead_keys(&[0; 32], &[0; 13], &[0; 32], &[0; 12]), too_long);
        assert_eq!(session.set_aead_keys(&[0; 32], &[0; 12], &[0; 33], &[0; 12]), too_long);
        assert_eq!(session.set_aead_keys(&[0; 32], &[0; 12], &[0; 32], &[0; 13]), too_long);
        session.set_heartbeat_deadline(Some(1_000));
        assert_eq!(session.get_request_aead(), (&[1u8; 32][..], &[2u8; 12][..]));
        assert_eq!(session.get_response_aead(), (&[3u8; 16][..], &[4u8; 12][..]));
        assert_eq!(session.get_heartbeat_deadline(), Some(1_000));
    }
    assert_eq!(table.teardown_session(3), Ok(()));
    table.open_session(3).unwrap();
    let session = table.get_immutable_session_via_id(3).unwrap();
    assert_eq!(session.get_request_aead(), (&[][..], &[][..]));
    assert_eq!(session.get_response_aead(), (&[][..], &[][..]));
    assert_eq!(session.get_heartbeat_deadline(), None);
}
