use spdmlib::codec::Writer;
use spdmlib::common::SpdmConnectionState;
use spdmlib::config::MAX_SPDM_CERT_CHAIN_BUFFER_SIZE;
use spdmlib::message::encapsulated::{
    count_slots, write_encapsulated_response_ack, write_get_certificate_request,
};
use spdmlib::message::SpdmErrorCode;
use spdmlib::protocol::{
    SpdmBaseHashAlgo, SpdmCertChainBuffer, SpdmRequestCapabilityFlags,
    SpdmResponseCapabilityFlags, SpdmVersion,
};
use spdmlib::responder::context::ResponderContext;
use spdmlib::responder::encap_rsp::SpdmEncapResponse;
use spdmlib::util::rsp_create_info;

fn mutual(version: SpdmVersion) -> ResponderContext {
    let ca = [0x30u8, 0x82, 0x00, 0x00];
    let (config_info, provision_info) = rsp_create_info(&ca, &ca, &ca, true, true);
    let mut context = ResponderContext::new(config_info, provision_info);
    context.common.negotiate_info.spdm_version_sel = version;
    context.common.negotiate_info.base_hash_sel =
        SpdmBaseHashAlgo::from_bits(SpdmBaseHashAlgo::TPM_ALG_SHA_384);
    context.common.negotiate_info.req_capabilities_sel = SpdmRequestCapabilityFlags::from_bits(
        SpdmRequestCapabilityFlags::ENCAP_CAP | SpdmRequestCapabilityFlags::CERT_CAP,
    );
    context.common.negotiate_info.rsp_capabilities_sel =
        SpdmResponseCapabilityFlags::from_bits(SpdmResponseCapabilityFlags::ENCAP_CAP);
    context
        .common
        .runtime_info
        .set_connection_state(SpdmConnectionState::SpdmConnectionNegotiated);
    context
}

fn deliver_certificate(version: u8, request_id: u8, portion: &[u8], remainder: u16) -> Vec<u8> {
    let mut frame = vec![version, 0xeb, request_id, 0x00, version, 0x02, 0x00, 0x00];
    frame.extend_from_slice(&(portion.len() as u16).to_le_bytes());
    frame.extend_from_slice(&remainder.to_le_bytes());
    frame.extend_from_slice(portion);
    frame
}

fn refused(context: &mut ResponderContext, frame: &[u8]) -> Vec<u8> {
    let temp_before = context
        .common
        .peer_info
        .peer_cert_chain_temp
        .as_ref()
        .map(|chain| chain.as_slice().to_vec());
    let id_before = context.common.encap_context.request_id;
    let mut response = [0u8; 32];
    let mut writer = Writer::init(&mut response);
    assert_eq!(context.handle_deliver_encapsulated_reponse(frame, &mut writer), Some(4));
    let temp_after = context
        .common
        .peer_info
        .peer_cert_chain_temp
        .as_ref()
        .map(|chain| chain.as_slice().to_vec());
    assert_eq!(temp_before, temp_after);
    assert_eq!(context.common.encap_context.request_id, id_before);
    assert_eq!(writer.used_slice()[1], 0x7f);
    writer.used_slice().to_vec()
}

#[test]
fn get_encapsulated_request_starts_the_flow_with_get_digests() {
    let mut context = mutual(SpdmVersion::SpdmVersion11);
    context.common.encap_context.request_id = 77;
    let mut response = [0u8; 32];
    let mut writer = Writer::init(&mut response);
    assert_eq!(
        context.handle_get_encapsulated_request(&[0x11, 0xea, 0, 0], &mut writer),
        Some(8)
    );
    assert_eq!(writer.used_slice(), &[0x11, 0x6a, 0x00, 0x00, 0x11, 0x81, 0x00, 0x00]);
    assert_eq!(context.common.encap_context.request_id, 0);
    assert_eq!(context.common.peer_info.peer_cert_chain_temp.as_ref().unwrap().len(), 0);
}

#[test]
fn get_encapsulated_request_out_of_order_is_refused() {
    let mut context = mutual(SpdmVersion::SpdmVersion12);
    let mut response = [0u8; 32];
    let mut writer = Writer::init(&mut response);
    assert_eq!(
        context.handle_get_encapsulated_request(&[0x11, 0xea, 0, 0], &mut writer),
        Some(4)
    );
    assert_eq!(writer.used_slice(), &[0x12, 0x7f, 0x41, 0x00]);
    assert_eq!(context.handle_get_encapsulated_request(&[0x12, 0xea, 0], &mut writer), Some(4));
    assert_eq!(writer.used_slice(), &[0x12, 0x7f, 0x01, 0x00]);
    context.common.negotiate_info.rsp_capabilities_sel = SpdmResponseCapabilityFlags::empty();
    assert_eq!(
        context.handle_get_encapsulated_request(&[0x12, 0xea, 0, 0], &mut writer),
        Some(4)
    );
    assert_eq!(writer.used_slice(), &[0x12, 0x7f, 0x07, 0xea]);
    assert!(context.common.peer_info.peer_cert_chain_temp.is_none());
    let mut small = [0u8; 7];
    let mut writer = Writer::init(&mut small);
    let mut context = mutual(SpdmVersion::SpdmVersion12);
    assert_eq!(context.handle_get_encapsulated_request(&[0x12, 0xea, 0, 0], &mut writer), None);
    assert!(context.common.peer_info.peer_cert_chain_temp.is_none());
}

#[test]
fn a_chain_is_fetched_portion_by_portion() {
    let mut context = mutual(SpdmVersion::SpdmVersion12);
    let mut response = [0u8; 32];
    let mut writer = Writer::init(&mut response);
    assert_eq!(
        context.handle_get_encapsulated_request(&[0x12, 0xea, 0, 0], &mut writer),
        Some(8)
    );
    let mut digests = vec![0x12u8, 0xeb, 0x00, 0x00, 0x12, 0x01, 0x00, 0x05];
    digests.extend_from_slice(&[0x5a; 96]);
    assert_eq!(context.handle_deliver_encapsulated_reponse(&digests, &mut writer), Some(16));
    assert_eq!(&writer.used_slice()[..4], &[0x12, 0x6b, 0x01, 0x01]);

    let first = deliver_certificate(0x12, 1, &[1, 2, 3], 2);
    assert_eq!(context.handle_deliver_encapsulated_reponse(&first, &mut writer), Some(16));
    assert_eq!(
        writer.used_slice(),
        &[
            0x12, 0x6b, 0x02, 0x01, 0x01, 0x00, 0x00, 0x00, // acknowledges 1, next id 2
            0x12, 0x82, 0x00, 0x00, 0x03, 0x00, 0x00, 0x02, // 512 bytes from offset 3
        ]
    );
    assert_eq!(
        context.common.peer_info.peer_cert_chain_temp.as_ref().unwrap().as_slice(),
        &[1, 2, 3]
    );
    let last = deliver_certificate(0x12, 2, &[4, 5], 0);
    assert_eq!(context.handle_deliver_encapsulated_reponse(&last, &mut writer), Some(8));
    assert_eq!(writer.used_slice(), &[0x12, 0x6b, 0x02, 0x00, 0x02, 0x00, 0x00, 0x00]);
    assert_eq!(
        context.common.peer_info.peer_cert_chain_temp.as_ref().unwrap().as_slice(),
        &[1, 2, 3, 4, 5]
    );
    assert_eq!(context.common.encap_context.request_id, 2);

    assert!(context.close_peer_cert_chain(true));
    assert!(context.common.peer_info.peer_cert_chain_temp.is_none());
    assert_eq!(
        context.common.peer_info.peer_cert_chain[0].as_ref().unwrap().as_slice(),
        &[1, 2, 3, 4, 5]
    );
    assert!(!context.close_peer_cert_chain(true));
    // With the buffer released, the flow is over.
    let late = deliver_certificate(0x12, 2, &[6], 0);
    assert_eq!(context.handle_deliver_encapsulated_reponse(&late, &mut writer), Some(4));
    assert_eq!(writer.used_slice(), &[0x12, 0x7f, 0x07, 0xeb]);
}

#[test]
fn a_chain_that_is_given_up_is_not_kept() {
    let mut context = mutual(SpdmVersion::SpdmVersion12);
    context.common.peer_info.peer_cert_chain_temp = SpdmCertChainBuffer::from_slice(&[1, 2]);
    assert!(context.close_peer_cert_chain(false));
    assert!(context.common.peer_info.peer_cert_chain_temp.is_none());
    assert!(context.common.peer_info.peer_cert_chain[0].is_none());
}

#[test]
fn version_11_acknowledges_without_the_acknowledged_id() {
    let mut context = mutual(SpdmVersion::SpdmVersion11);
    context.common.peer_info.peer_cert_chain_temp = Some(SpdmCertChainBuffer::default());
    context.common.encap_context.request_id = 255;
    let mut response = [0u8; 32];
    let mut writer = Writer::init(&mut response);
    let frame = deliver_certificate(0x11, 255, &[8; 300], 1);
    assert_eq!(context.handle_deliver_encapsulated_reponse(&frame, &mut writer), Some(12));
    assert_eq!(
        writer.used_slice(),
        &[0x11, 0x6b, 0x00, 0x01, 0x11, 0x82, 0x00, 0x00, 0x2c, 0x01, 0x00, 0x02]
    );
    assert_eq!(context.common.encap_context.request_id, 0);
    let frame = deliver_certificate(0x11, 0, &[8], 0);
    assert_eq!(context.handle_deliver_encapsulated_reponse(&frame, &mut writer), Some(4));
    assert_eq!(writer.used_slice(), &[0x11, 0x6b, 0x00, 0x00]);
    assert_eq!(context.common.peer_info.peer_cert_chain_temp.as_ref().unwrap().len(), 301);
}

#[test]
fn a_delivery_that_is_not_in_order_is_refused_and_changes_nothing() {
    let mut context = mutual(SpdmVersion::SpdmVersion12);
    context.common.peer_info.peer_cert_chain_temp = SpdmCertChainBuffer::from_slice(&[0xc0; 10]);
    context.common.encap_context.request_id = 4;
    let invalid = vec![0x12u8, 0x7f, 0x01, 0x00];
    let mismatch = vec![0x12u8, 0x7f, 0x41, 0x00];
    let unsupported = vec![0x12u8, 0x7f, 0x07, 0xeb];

    // Cut short, or in another version.
    assert_eq!(refused(&mut context, &[]), invalid);
    assert_eq!(refused(&mut context, &[0x12]), invalid);
    assert_eq!(refused(&mut context, &[0x12, 0xeb, 0x04]), invalid);
    assert_eq!(refused(&mut context, &[0x11, 0xeb, 0x04, 0x00]), mismatch);
    // Not the outstanding request.
    assert_eq!(refused(&mut context, &deliver_certificate(0x12, 5, &[1], 0)), invalid);
    // Nothing inside, or something else than DIGESTS and CERTIFICATE.
    assert_eq!(refused(&mut context, &[0x12, 0xeb, 0x04, 0x00]), invalid);
    assert_eq!(refused(&mut context, &[0x12, 0xeb, 0x04, 0x00, 0x12]), invalid);
    assert_eq!(refused(&mut context, &[0x12, 0xeb, 0x04, 0x00, 0x12, 0x7f, 0x01, 0x00]), invalid);
    assert_eq!(refused(&mut context, &[0x12, 0xeb, 0x04, 0x00, 0x11, 0x01, 0x00, 0x00]), invalid);
    // DIGESTS without its mask, or with fewer digests than the mask names.
    assert_eq!(refused(&mut context, &[0x12, 0xeb, 0x04, 0x00, 0x12, 0x01, 0x00]), invalid);
    let mut short = vec![0x12u8, 0xeb, 0x04, 0x00, 0x12, 0x01, 0x00, 0x03];
    short.extend_from_slice(&[0; 95]);
    assert_eq!(refused(&mut context, &short), invalid);
    // CERTIFICATE without its lengths, with an empty portion, or with less than it announces.
    assert_eq!(
        refused(&mut context, &[0x12, 0xeb, 0x04, 0x00, 0x12, 0x02, 0x00, 0x00, 0x01, 0x00, 0x00]),
        invalid
    );
    assert_eq!(refused(&mut context, &deliver_certificate(0x12, 4, &[], 5)), invalid);
    let mut cut = deliver_certificate(0x12, 4, &[1, 2, 3], 0);
    cut.pop();
    assert_eq!(refused(&mut context, &cut), invalid);
    // A portion that the buffer cannot take.
    let too_much = vec![0u8; MAX_SPDM_CERT_CHAIN_BUFFER_SIZE - 9];
    assert_eq!(refused(&mut context, &deliver_certificate(0x12, 4, &too_much, 0)), invalid);
    // A requester that has no certificates.
    context
        .common
        .negotiate_info
        .req_capabilities_sel
        .remove(SpdmRequestCapabilityFlags::CERT_CAP);
    assert_eq!(refused(&mut context, &deliver_certificate(0x12, 4, &[1], 0)), unsupported);
    context
        .common
        .negotiate_info
        .req_capabilities_sel
        .insert(SpdmRequestCapabilityFlags::CERT_CAP);

    // What just fits is taken.
    let fits = vec![0u8; MAX_SPDM_CERT_CHAIN_BUFFER_SIZE - 10];
    let mut response = [0u8; 32];
    let mut writer = Writer::init(&mut response);
    assert_eq!(
        context.handle_deliver_encapsulated_reponse(&deliver_certificate(0x12, 4, &fits, 0),
            &mut writer
        ),
        Some(8)
    );
    assert_eq!(
        context.common.peer_info.peer_cert_chain_temp.as_ref().unwrap().len(),
        MAX_SPDM_CERT_CHAIN_BUFFER_SIZE
    );
}

#[test]
fn a_writer_too_small_for_the_acknowledgement_changes_nothing() {
    let mut context = mutual(SpdmVersion::SpdmVersion12);
    context.common.peer_info.peer_cert_chain_temp = Some(SpdmCertChainBuffer::default());
    let mut small = [0u8; 15];
    let mut writer = Writer::init(&mut small);
    let frame = deliver_certificate(0x12, 0, &[1, 2, 3], 9);
    assert_eq!(context.handle_deliver_encapsulated_reponse(&frame, &mut writer), None);
    assert_eq!(writer.used(), 0);
    assert_eq!(context.common.peer_info.peer_cert_chain_temp.as_ref().unwrap().len(), 0);
    assert_eq!(context.common.encap_context.request_id, 0);
    let frame = deliver_certificate(0x12, 0, &[1, 2, 3], 0);
    assert_eq!(context.handle_deliver_encapsulated_reponse(&frame, &mut writer), Some(8));
}

#[test]
fn checking_a_delivery_tells_what_it_carries() {
    let mut context = mutual(SpdmVersion::SpdmVersion12);
    context.common.peer_info.peer_cert_chain_temp = Some(SpdmCertChainBuffer::default());
    let frame = deliver_certificate(0x12, 0, &[5, 6], 7);
    match context.check_deliver_encapsulated_response(&frame) {
        Ok(SpdmEncapResponse::Certificate { portion, last }) => {
            assert_eq!(portion, &[5, 6]);
            assert!(!last);
        }
        _ => panic!("a certificate portion was delivered"),
    }
    let frame = [0x12u8, 0xeb, 0x00, 0x00, 0x12, 0x01, 0x00, 0x00];
    assert!(matches!(
        context.check_deliver_encapsulated_response(&frame),
        Ok(SpdmEncapResponse::Digests)
    ));
    assert!(matches!(
        context.check_deliver_encapsulated_response(&frame[..5]),
        Err(SpdmErrorCode::SpdmErrorInvalidRequest)
    ));
    assert_eq!(context.check_plain_request(&frame), None);
    assert_eq!(
        context.check_plain_request(&frame[..3]),
        Some(SpdmErrorCode::SpdmErrorInvalidRequest)
    );
}

#[test]
fn slots_are_counted_by_the_bits_of_the_mask() {
    assert_eq!(count_slots(0x00), 0);
    assert_eq!(count_slots(0x01), 1);
    assert_eq!(count_slots(0x80), 1);
    assert_eq!(count_slots(0x05), 2);
    assert_eq!(count_slots(0xf0), 4);
    assert_eq!(count_slots(0xff), 8);
    for mask in 0u16..=255 {
        assert_eq!(count_slots(mask as u8), (mask as u8).count_ones() as usize);
    }
}

#[test]
fn the_flow_messages_have_their_layout() {
    let mut buffer = [0u8; 16];
    let mut writer = Writer::init(&mut buffer);
    assert_eq!(
        write_get_certificate_request(SpdmVersion::SpdmVersion11, 3, 0x0102, 0x0304, &mut writer),
        Some(8)
    );
    assert_eq!(writer.used_slice(), &[0x11, 0x82, 0x03, 0x00, 0x02, 0x01, 0x04, 0x03]);
    assert_eq!(
        write_encapsulated_response_ack(SpdmVersion::SpdmVersion12, 6, 1, 5, &mut writer),
        Some(8)
    );
    assert_eq!(&writer.used_slice()[8..], &[0x12, 0x6b, 0x06, 0x01, 0x05, 0x00, 0x00, 0x00]);
    assert_eq!(
        write_get_certificate_request(SpdmVersion::SpdmVersion11, 0, 0, 0, &mut writer),
        None
    );
    assert_eq!(
        write_encapsulated_response_ack(SpdmVersion::SpdmVersion12, 6, 1, 5, &mut writer),
        None
    );
    assert_eq!(writer.used(), 16);
    writer.clear();
    assert_eq!(
        write_encapsulated_response_ack(SpdmVersion::SpdmVersion11, 6, 0, 5, &mut writer),
        Some(4)
    );
    assert_eq!(writer.used_slice(), &[0x11, 0x6b, 0x06, 0x00]);
}
