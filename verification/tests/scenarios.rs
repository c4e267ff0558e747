use sha2::{Digest, Sha384};
use spdmlib::codec::Writer;
use spdmlib::common::session::SpdmSessionState;
use spdmlib::common::SpdmConnectionState;
use spdmlib::message::SpdmErrorCode;
use spdmlib::protocol::{
    SpdmBaseHashAlgo, SpdmCertChainBuffer, SpdmRequestCapabilityFlags,
    SpdmResponseCapabilityFlags, SpdmVersion,
};
use spdmlib::responder::context::{ResponderContext, SpdmDispatch, SpdmHandler, SpdmReceived};
use spdmlib::util::rsp_create_info;

const CHAIN_CA: [u8; 5] = [0x30, 0x82, 0x00, 0x01, 0xaa];
const CHAIN_INTER: [u8; 6] = [0x30, 0x82, 0x00, 0x02, 0xbb, 0xbc];
const CHAIN_LEAF: [u8; 5] = [0x30, 0x82, 0x00, 0x01, 0xcc];
const SESSION_ID: u32 = 4294836221;

fn responder_at(version: SpdmVersion) -> ResponderContext {
    let (config_info, provision_info) =
        rsp_create_info(&CHAIN_CA, &CHAIN_INTER, &CHAIN_LEAF, true, true);
    let mut context = ResponderContext::new(config_info, provision_info);
    context.common.negotiate_info.spdm_version_sel = version;
    context.common.negotiate_info.base_hash_sel =
        SpdmBaseHashAlgo::from_bits(SpdmBaseHashAlgo::TPM_ALG_SHA_384);
    context
        .common
        .runtime_info
        .set_connection_state(SpdmConnectionState::SpdmConnectionNegotiated);
    context
}

fn deliver(version: u8, request_id: u8, inner: &[u8]) -> Vec<u8> {
    let mut frame = vec![version, 0xeb, request_id, 0x00];
    frame.extend_from_slice(inner);
    frame
}

fn digests(version: u8, slot_mask: u8, count: usize) -> Vec<u8> {
    let mut inner = vec![version, 0x01, 0x00, slot_mask];
    for i in 0..count * 48 {
        inner.push(i as u8);
    }
    inner
}

fn certificate(version: u8, portion: &[u8], remainder: u16) -> Vec<u8> {
    let mut inner = vec![version, 0x02, 0x00, 0x00];
    inner.extend_from_slice(&(portion.len() as u16).to_le_bytes());
    inner.extend_from_slice(&remainder.to_le_bytes());
    inner.extend_from_slice(portion);
    inner
}

#[test]
fn get_version_on_a_fresh_context_lists_the_three_versions() {
    let (config_info, provision_info) =
        rsp_create_info(&CHAIN_CA, &CHAIN_INTER, &CHAIN_LEAF, true, true);
    let mut context = ResponderContext::new(config_info, provision_info);
    let request = [0x10u8, 0x84, 0x00, 0x00];
    assert_eq!(context.process_message(&request, false), Ok(SpdmReceived::Clear));
    assert_eq!(
        context.dispatch_message(&request),
        Ok(SpdmDispatch::Handle { handler: SpdmHandler::Version, session_id: None })
    );
    let mut response = [0u8; 32];
    let mut writer = Writer::init(&mut response);
    assert_eq!(context.handle_spdm_version(&request, &mut writer), Some(12));
    let expected = [0x10u8, 0x04, 0x00, 0x00, 0x00, 0x03, 0x00, 0x10, 0x00, 0x11, 0x00, 0x12];
    assert_eq!(writer.used_slice(), &expected);
    let mut transport = [0u8; 32];
    let mut out = Writer::init(&mut transport);
    assert_eq!(context.send_message(None, writer.used_slice(), false, &mut out), Ok(12));
    assert_eq!(out.used_slice(), &expected);
    assert_eq!(
        context.common.runtime_info.get_connection_state(),
        SpdmConnectionState::SpdmConnectionNotStarted
    );
    context.message_sent(None, out.used_slice());
    assert_eq!(
        context.common.runtime_info.get_connection_state(),
        SpdmConnectionState::SpdmConnectionAfterVersion
    );
    let mut transcript = request.to_vec();
    transcript.extend_from_slice(&expected);
    assert_eq!(context.common.runtime_info.message_a.as_slice(), &transcript[..]);
}

#[test]
fn get_version_starts_the_connection_over() {
    let mut context = responder_at(SpdmVersion::SpdmVersion12);
    let offered = context.common.config_info.rsp_capabilities;
    context.common.negotiate_info.rsp_capabilities_sel = offered;
    let session_id = context.open_key_exchange_session(1).unwrap();
    context.common.append_message_b(&[1, 2, 3]).unwrap();
    context.common.peer_info.peer_cert_chain_temp = Some(SpdmCertChainBuffer::default());
    let mut response = [0u8; 32];
    let mut writer = Writer::init(&mut response);
    assert_eq!(context.handle_spdm_version(&[0x10, 0x84, 0, 0, 0xff], &mut writer), Some(12));
    assert_eq!(context.common.negotiate_info.spdm_version_sel, SpdmVersion::SpdmVersion10);
    assert_eq!(context.common.negotiate_info.rsp_capabilities_sel.bits(), 0);
    assert_eq!(
        context.common.runtime_info.get_connection_state(),
        SpdmConnectionState::SpdmConnectionNotStarted
    );
    assert_eq!(context.common.runtime_info.get_last_session_id(), None);
    assert_eq!(context.common.runtime_info.message_b.len(), 0);
    assert_eq!(context.common.runtime_info.message_a.len(), 16);
    assert!(context.common.peer_info.peer_cert_chain_temp.is_none());
    assert!(context.common.get_immutable_session_via_id(session_id).is_none());
    assert!(context.common.provision_info.my_cert_chain_data[0].is_some());
}

#[test]
fn get_version_lists_only_the_versions_offered() {
    let mut context = responder_at(SpdmVersion::SpdmVersion12);
    context.common.config_info.spdm_version =
        [SpdmVersion::Unknown(0), SpdmVersion::SpdmVersion11, SpdmVersion::Unknown(0x20)];
    let mut response = [0u8; 32];
    let mut writer = Writer::init(&mut response);
    assert_eq!(context.handle_spdm_version(&[0x10, 0x84, 0, 0], &mut writer), Some(8));
    assert_eq!(writer.used_slice(), &[0x10, 0x04, 0, 0, 0, 1, 0x00, 0x11]);
}

#[test]
fn a_get_version_out_of_order_is_refused_and_changes_nothing() {
    let mut context = responder_at(SpdmVersion::SpdmVersion11);
    let mut response = [0u8; 32];
    let mut writer = Writer::init(&mut response);
    assert_eq!(context.handle_spdm_version(&[0x11, 0x84, 0, 0], &mut writer), Some(4));
    assert_eq!(writer.used_slice(), &[0x11, 0x7f, 0x41, 0x00]);
    assert_eq!(context.handle_spdm_version(&[0x10, 0x84, 0], &mut writer), Some(4));
    assert_eq!(writer.used_slice(), &[0x11, 0x7f, 0x01, 0x00]);
    assert_eq!(context.handle_spdm_version(&[0x10], &mut writer), Some(4));
    assert_eq!(writer.used_slice(), &[0x11, 0x7f, 0x01, 0x00]);
    assert_eq!(
        context.common.runtime_info.get_connection_state(),
        SpdmConnectionState::SpdmConnectionNegotiated
    );
    assert_eq!(context.common.negotiate_info.spdm_version_sel, SpdmVersion::SpdmVersion11);
    // A writer too small for the answer: nothing happens at all.
    let mut small = [0u8; 11];
    let mut writer = Writer::init(&mut small);
    assert_eq!(context.handle_spdm_version(&[0x10, 0x84, 0, 0], &mut writer), None);
    assert_eq!(writer.used(), 0);
    assert_eq!(
        context.common.runtime_info.get_connection_state(),
        SpdmConnectionState::SpdmConnectionNegotiated
    );
}

#[test]
fn get_digests_at_negotiated_leads_to_after_digest() {
    let mut context = responder_at(SpdmVersion::SpdmVersion12);
    context.common.negotiate_info.rsp_capabilities_sel =
        SpdmResponseCapabilityFlags::from_bits(SpdmResponseCapabilityFlags::CERT_CAP);

    // The chain takes its wire form under the digest of its root.
    let root = context.common.get_root_cert(0).unwrap().to_vec();
    assert_eq!(root, CHAIN_CA);
    let root_hash = Sha384::digest(&root).to_vec();
    assert_eq!(context.common.construct_my_cert_chain(0, &root_hash), Ok(()));
    let chain = context.common.provision_info.my_cert_chain[0].clone().unwrap();
    let mut wire = vec![68u8, 0, 0, 0];
    wire.extend_from_slice(&root_hash);
    wire.extend_from_slice(&CHAIN_CA);
    wire.extend_from_slice(&CHAIN_INTER);
    wire.extend_from_slice(&CHAIN_LEAF);
    assert_eq!(chain.as_slice(), &wire[..]);
    let digest = Sha384::digest(&wire).to_vec();

    let request = [0x12u8, 0x81, 0x00, 0x00];
    assert_eq!(
        context.dispatch_message(&request),
        Ok(SpdmDispatch::Handle { handler: SpdmHandler::Digest, session_id: None })
    );
    let mut answer = [0u8; 64];
    let mut writer = Writer::init(&mut answer);
    assert_eq!(context.handle_spdm_digest(&request, None, &digest, &mut writer), Some(52));
    let mut response = vec![0x12u8, 0x01, 0x00, 0x01];
    response.extend_from_slice(&digest);
    assert_eq!(writer.used_slice(), &response[..]);
    assert_eq!(
        context.common.runtime_info.get_connection_state(),
        SpdmConnectionState::SpdmConnectionNegotiated
    );

    let mut transport = [0u8; 64];
    let mut out = Writer::init(&mut transport);
    assert_eq!(context.send_message(None, writer.used_slice(), false, &mut out), Ok(52));
    assert_eq!(out.used_slice(), &response[..]);
    context.message_sent(None, out.used_slice());
    assert_eq!(
        context.common.runtime_info.get_connection_state(),
        SpdmConnectionState::SpdmConnectionAfterDigest
    );
    let mut transcript = request.to_vec();
    transcript.extend_from_slice(&response);
    assert_eq!(context.common.runtime_info.message_b.as_slice(), &transcript[..]);
}

#[test]
fn deliver_encapsulated_response_under_version_10_is_unsupported() {
    let mut context = responder_at(SpdmVersion::SpdmVersion10);
    context
        .common
        .negotiate_info
        .req_capabilities_sel
        .insert(SpdmRequestCapabilityFlags::ENCAP_CAP | SpdmRequestCapabilityFlags::CERT_CAP);
    context
        .common
        .negotiate_info
        .rsp_capabilities_sel
        .insert(SpdmResponseCapabilityFlags::ENCAP_CAP);
    context.common.peer_info.peer_cert_chain_temp = Some(SpdmCertChainBuffer::default());
    for version in [0x12u8, 0x10] {
        let frame = deliver(version, 0, &digests(version, 0x01, 1));
        let mut response = [0u8; 32];
        let mut writer = Writer::init(&mut response);
        assert_eq!(
            context.handle_deliver_encapsulated_reponse(&frame, &mut writer),
            Some(4)
        );
        assert_eq!(writer.used_slice(), &[0x10, 0x7f, 0x07, 0xeb]);
        let held = context.common.peer_info.peer_cert_chain_temp.as_ref().unwrap();
        assert_eq!(held.len(), 0);
        assert_eq!(context.common.encap_context.request_id, 0);
    }
}

#[test]
fn deliver_encapsulated_response_without_encap_cap_is_unsupported() {
    let frame = deliver(0x12, 0, &certificate(0x12, &[1, 2, 3], 0));
    for (req, rsp) in [(false, true), (true, false), (false, false)] {
        let mut context = responder_at(SpdmVersion::SpdmVersion12);
        let mut req_bits = SpdmRequestCapabilityFlags::CERT_CAP;
        if req {
            req_bits |= SpdmRequestCapabilityFlags::ENCAP_CAP;
        }
        context.common.negotiate_info.req_capabilities_sel =
            SpdmRequestCapabilityFlags::from_bits(req_bits);
        context.common.negotiate_info.rsp_capabilities_sel = SpdmResponseCapabilityFlags::from_bits(
            if rsp { SpdmResponseCapabilityFlags::ENCAP_CAP } else { 0 },
        );
        context.common.peer_info.peer_cert_chain_temp =
            SpdmCertChainBuffer::from_slice(&[9, 9]);
        let mut response = [0u8; 32];
        let mut writer = Writer::init(&mut response);
        assert_eq!(
            context.handle_deliver_encapsulated_reponse(&frame, &mut writer),
            Some(4)
        );
        assert_eq!(writer.used_slice(), &[0x12, 0x7f, 0x07, 0xeb]);
        let held = context.common.peer_info.peer_cert_chain_temp.as_ref().unwrap();
        assert_eq!(held.as_slice(), &[9, 9]);
    }
}

#[test]
fn delivered_digests_are_answered_with_get_certificate() {
    let mut context = responder_at(SpdmVersion::SpdmVersion12);
    context
        .common
        .negotiate_info
        .req_capabilities_sel
        .insert(SpdmRequestCapabilityFlags::ENCAP_CAP | SpdmRequestCapabilityFlags::CERT_CAP);
    context
        .common
        .negotiate_info
        .rsp_capabilities_sel
        .insert(SpdmResponseCapabilityFlags::ENCAP_CAP);
    context.common.peer_info.peer_cert_chain_temp = Some(SpdmCertChainBuffer::default());
    let frame = deliver(0x12, 0, &digests(0x12, 0x01, 1));
    let mut response = [0u8; 32];
    let mut writer = Writer::init(&mut response);
    assert_eq!(
        context.handle_deliver_encapsulated_reponse(&frame, &mut writer),
        Some(16)
    );
    assert_eq!(
        writer.used_slice(),
        &[
            0x12, 0x6b, 0x01, 0x01, 0x00, 0x00, 0x00, 0x00, // acknowledgement, next id 1
            0x12, 0x82, 0x00, 0x00, 0x00, 0x00, 0x00, 0x02, // GET_CERTIFICATE, 512 bytes from 0
        ]
    );
    assert_eq!(context.common.encap_context.request_id, 1);
    assert_eq!(context.common.peer_info.peer_cert_chain_temp.as_ref().unwrap().len(), 0);
}

#[test]
fn a_secured_finish_is_refused_where_the_handshake_is_in_the_clear() {
    let mut context = responder_at(SpdmVersion::SpdmVersion12);
    context.common.negotiate_info.req_capabilities_sel = SpdmRequestCapabilityFlags::from_bits(
        SpdmRequestCapabilityFlags::HANDSHAKE_IN_THE_CLEAR_CAP,
    );
    context.common.negotiate_info.rsp_capabilities_sel = SpdmResponseCapabilityFlags::from_bits(
        SpdmResponseCapabilityFlags::HANDSHAKE_IN_THE_CLEAR_CAP
            | SpdmResponseCapabilityFlags::KEY_EX_CAP,
    );
    let session_id = context.open_key_exchange_session(0xfffd).unwrap();
    assert_eq!(session_id, SESSION_ID);
    let finish = [0x12u8, 0xe5, 0x00, 0x00];

    assert_eq!(
        context.dispatch_secured_message(session_id, &finish),
        Ok(SpdmDispatch::Error { error_code: SpdmErrorCode::SpdmErrorUnsupportedRequest })
    );
    let mut response = [0u8; 8];
    let mut writer = Writer::init(&mut response);
    assert_eq!(
        context.handle_error_request(
            SpdmErrorCode::SpdmErrorUnsupportedRequest,
            &finish,
            &mut writer
        ),
        Some(4)
    );
    assert_eq!(writer.used_slice(), &[0x12, 0x7f, 0x07, 0xe5]);
    let mut transport = [0u8; 8];
    let mut out = Writer::init(&mut transport);
    assert_eq!(context.send_message(Some(session_id), writer.used_slice(), false, &mut out), Ok(4));
    context.message_sent(Some(session_id), out.used_slice());
    assert_eq!(
        context.common.session.session_state(session_id),
        Some(SpdmSessionState::SpdmSessionHandshaking)
    );

    assert_eq!(
        context.dispatch_message(&finish),
        Ok(SpdmDispatch::Handle { handler: SpdmHandler::Finish, session_id: Some(session_id) })
    );
    let finish_rsp = [0x12u8, 0x65, 0x00, 0x00];
    assert_eq!(context.send_message(None, &finish_rsp, false, &mut out), Ok(4));
    assert_eq!(out.used_slice(), &finish_rsp);
    context.message_sent(None, out.used_slice());
    assert_eq!(
        context.common.session.session_state(session_id),
        Some(SpdmSessionState::SpdmSessionEstablished)
    );
    assert_eq!(context.common.runtime_info.get_last_session_id(), None);
    // The same FINISH again finds no session that awaits it.
    assert_eq!(
        context.dispatch_message(&finish),
        Ok(SpdmDispatch::Error { error_code: SpdmErrorCode::SpdmErrorUnexpectedRequest })
    );
}

#[test]
fn end_session_frees_the_session_once_acknowledged() {
    let mut context = responder_at(SpdmVersion::SpdmVersion12);
    let session_id = context.open_psk_exchange_session(0x0042, false).unwrap();
    let other = context.open_psk_exchange_session(0x0043, false).unwrap();
    {
        let session = context.common.get_session_via_id(session_id).unwrap();
        session.set_data_secret(&[1; 48], &[2; 48]).unwrap();
        session.append_message_k(&[7, 7]).unwrap();
    }
    let end_session = [0x12u8, 0xec, 0x00, 0x00];
    assert_eq!(
        context.dispatch_secured_message(session_id, &end_session),
        Ok(SpdmDispatch::Handle {
            handler: SpdmHandler::EndSession,
            session_id: Some(session_id)
        })
    );
    let mut response = [0u8; 8];
    let mut writer = Writer::init(&mut response);
    assert_eq!(context.handle_spdm_end_session(session_id, &end_session, &mut writer), Some(4));
    assert_eq!(writer.used_slice(), &[0x12, 0x6c, 0x00, 0x00]);
    let mut transport = [0u8; 8];
    let mut out = Writer::init(&mut transport);
    assert_eq!(context.send_message(Some(session_id), writer.used_slice(), false, &mut out), Ok(4));
    // Until the acknowledgement has gone out the session is there to secure it.
    assert!(context.common.get_immutable_session_via_id(session_id).is_some());
    context.message_sent(Some(session_id), out.used_slice());
    assert!(context.common.get_immutable_session_via_id(session_id).is_none());
    assert!(context.common.get_session_via_id(session_id).is_none());
    assert_eq!(context.common.session.session_state(session_id), None);
    assert_eq!(
        context.common.session.session_state(other),
        Some(SpdmSessionState::SpdmSessionEstablished)
    );
    let frame = [0x42u8, 0x00, 0xfd, 0xff, 0x01, 0x02];
    assert_eq!(context.process_message(&frame, true), Err(6));
    // The slot is free again, and what it held is gone.
    let again = context.open_key_exchange_session(0x0042).unwrap();
    assert_eq!(again, session_id);
    let session = context.common.get_immutable_session_via_id(again).unwrap();
    assert_eq!(session.get_data_secret(), (&[] as &[u8], &[] as &[u8]));
    assert_eq!(session.get_message_k(), &[] as &[u8]);
    assert!(!session.get_use_psk());
}
