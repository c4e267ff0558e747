use spdmlib::codec::{Codec, Reader, Writer};
use spdmlib::common::{SpdmConfigInfo, SpdmConnectionState, SpdmProvisionInfo};
use spdmlib::error::SpdmStatus;
use spdmlib::message::vendor::{
    RegistryOrStandardsBodyID, SpdmVendorDefinedRequestPayload, SpdmVendorDefinedResponsePayload,
    VendorDefinedReqPayloadStruct, VendorDefinedRspPayloadStruct, VendorIDStruct,
};
use spdmlib::protocol::SpdmVersion;
use spdmlib::requester::RequesterContext;
use spdmlib::util::new_spdm_message;

fn requester() -> RequesterContext {
    let mut context =
        RequesterContext::new(SpdmConfigInfo::default(), SpdmProvisionInfo::default());
    context.common.negotiate_info.spdm_version_sel = SpdmVersion::SpdmVersion12;
    context
        .common
        .runtime_info
        .set_connection_state(SpdmConnectionState::SpdmConnectionNegotiated);
    context
}

#[test]
fn a_vendor_defined_request_is_header_registry_vendor_and_payload() {
    let mut context = requester();
    context.common.append_message_m(None, &[1, 2, 3]).unwrap();
    context.common.append_message_b(&[4]).unwrap();
    let mut buffer = [0u8; 32];
    let mut writer = Writer::init(&mut buffer);
    assert_eq!(writer.push(0xee), Some(0xee));
    let used = context.send_spdm_vendor_defined_request(
        None,
        RegistryOrStandardsBodyID::PCISIG,
        VendorIDStruct::new(&[0x86, 0x80]).unwrap(),
        VendorDefinedReqPayloadStruct::new(&[0xde, 0xad, 0xbe]).unwrap(),
        &mut writer,
    );
    assert_eq!(used, Ok(14));
    assert_eq!(
        writer.used_slice(),
        &[0x12, 0xfe, 0x00, 0x00, 0x03, 0x00, 0x02, 0x86, 0x80, 0x03, 0x00, 0xde, 0xad, 0xbe]
    );
    // A new request ends a run of measurements and leaves the rest.
    assert_eq!(context.common.runtime_info.message_m.len(), 0);
    assert_eq!(context.common.runtime_info.message_b.len(), 1);
}

#[test]
fn a_vendor_defined_request_that_does_not_fit_leaves_the_writer_empty() {
    let mut context = requester();
    for size in [0usize, 1, 2, 5, 13] {
        let mut buffer = vec![0u8; size];
        let mut writer = Writer::init(&mut buffer);
        let used = context.send_spdm_vendor_defined_request(
            Some(3),
            RegistryOrStandardsBodyID::PCISIG,
            VendorIDStruct::new(&[0x86, 0x80]).unwrap(),
            VendorDefinedReqPayloadStruct::new(&[0xde, 0xad, 0xbe]).unwrap(),
            &mut writer,
        );
        assert_eq!(used, Err(SpdmStatus::BufferFull));
        assert_eq!(writer.used(), 0);
    }
}

#[test]
fn the_payload_of_a_vendor_defined_response_is_returned() {
    let mut context = requester();
    let response = [
        0x12u8, 0x7e, 0x00, 0x00, 0x03, 0x00, 0x02, 0x86, 0x80, 0x04, 0x00, 0x0a, 0x0b, 0x0c, 0x0d,
        0xff,
    ];
    let payload = context.handle_spdm_vendor_defined_respond(None, &response).unwrap();
    assert_eq!(payload.as_slice(), &[0x0a, 0x0b, 0x0c, 0x0d]);
    // With reserved bytes that are not zero, and with an empty vendor id and payload.
    let response = [0x12u8, 0x7e, 0x55, 0xaa, 0x09, 0x01, 0x00, 0x00, 0x00];
    let payload = context.handle_spdm_vendor_defined_respond(Some(1), &response).unwrap();
    assert_eq!(payload.as_slice(), &[] as &[u8]);
}

fn status(context: &mut RequesterContext, response: &[u8]) -> SpdmStatus {
    match context.handle_spdm_vendor_defined_respond(None, response) {
        Ok(_) => panic!("the response is not in order"),
        Err(status) => status,
    }
}

#[test]
fn a_response_that_does_not_parse_is_an_invalid_message_field() {
    let mut context = requester();
    let invalid = SpdmStatus::InvalidMsgField;
    assert_eq!(status(&mut context, &[]), invalid);
    assert_eq!(status(&mut context, &[0x12]), invalid);
    // Another version than the selected one, whatever the code.
    assert_eq!(status(&mut context, &[0x11, 0x7e, 0, 0, 0, 0, 0, 0, 0]), invalid);
    assert_eq!(status(&mut context, &[0x11, 0x7f, 0x01, 0x00]), invalid);
    assert_eq!(status(&mut context, &[0x11, 0x04, 0, 0]), invalid);
    // Cut short at every byte.
    let response =
        [0x12u8, 0x7e, 0x00, 0x00, 0x03, 0x00, 0x02, 0x86, 0x80, 0x02, 0x00, 0x0a, 0x0b];
    assert!(context.handle_spdm_vendor_defined_respond(None, &response).is_ok());
    for len in 2..response.len() {
        assert_eq!(status(&mut context, &response[..len]), invalid);
    }
    // A vendor id or a payload longer than the engine takes.
    assert_eq!(
        status(&mut context, &[0x12, 0x7e, 0, 0, 0, 0, 0x05, 1, 2, 3, 4, 5, 0x00, 0x00]),
        invalid
    );
    let mut long = vec![0x12u8, 0x7e, 0, 0, 0, 0, 0x00, 0x01, 0x01];
    long.extend_from_slice(&[0u8; 257]);
    assert_eq!(status(&mut context, &long), invalid);
    let mut most = vec![0x12u8, 0x7e, 0, 0, 0, 0, 0x00, 0x00, 0x01];
    most.extend_from_slice(&[7u8; 256]);
    let payload = context.handle_spdm_vendor_defined_respond(None, &most).unwrap();
    assert_eq!(payload.as_slice(), &[7u8; 256][..]);
}

#[test]
fn an_error_or_another_response_is_an_error_of_the_peer() {
    let mut context = requester();
    assert_eq!(status(&mut context, &[0x12, 0x7f, 0x01, 0x00]), SpdmStatus::ErrorPeer);
    assert_eq!(status(&mut context, &[0x12, 0x7f, 0x07, 0xfe, 0xff]), SpdmStatus::ErrorPeer);
    assert_eq!(
        status(&mut context, &[0x12, 0x7f, 0x42, 0x00, 0x01, 0xfe, 0x02, 0x03]),
        SpdmStatus::ErrorPeer
    );
    assert_eq!(status(&mut context, &[0x12, 0x04, 0x00, 0x00]), SpdmStatus::ErrorPeer);
    assert_eq!(status(&mut context, &[0x12, 0xfe]), SpdmStatus::ErrorPeer);
    assert_eq!(status(&mut context, &[0x12, 0x00]), SpdmStatus::ErrorPeer);
    // An error that is cut short.
    assert_eq!(status(&mut context, &[0x12, 0x7f]), SpdmStatus::InvalidMsgField);
    assert_eq!(status(&mut context, &[0x12, 0x7f, 0x01]), SpdmStatus::InvalidMsgField);
    assert_eq!(
        status(&mut context, &[0x12, 0x7f, 0x42, 0x00, 0x01, 0xfe, 0x02]),
        SpdmStatus::InvalidMsgField
    );
}

#[test]
fn the_decrypt_error_of_the_peer_ends_the_session() {
    let mut context = requester();
    context.common.session.open_session(5).unwrap();
    context.common.session.open_session(6).unwrap();
    let decrypt_error = [0x12u8, 0x7f, 0x06, 0x00];
    // Outside a session, and in a session that does not exist, nothing ends.
    assert_eq!(status(&mut context, &decrypt_error), SpdmStatus::DecryptError);
    assert!(matches!(
        context.handle_spdm_vendor_defined_respond(Some(7), &decrypt_error),
        Err(SpdmStatus::DecryptError)
    ));
    assert!(context.common.get_immutable_session_via_id(5).is_some());
    assert!(matches!(
        context.handle_spdm_vendor_defined_respond(Some(5), &decrypt_error),
        Err(SpdmStatus::DecryptError)
    ));
    assert!(context.common.get_immutable_session_via_id(5).is_none());
    assert!(context.common.get_immutable_session_via_id(6).is_some());
    assert_eq!(
        context.spdm_handle_error_response_main(Some(6), &[0x06]),
        SpdmStatus::InvalidMsgField
    );
    assert_eq!(
        context.spdm_handle_error_response_main(Some(6), &[0x01, 0x00]),
        SpdmStatus::ErrorPeer
    );
    assert!(context.common.get_immutable_session_via_id(6).is_some());
    assert_eq!(
        context.spdm_handle_error_response_main(Some(6), &[0x06, 0x00]),
        SpdmStatus::DecryptError
    );
    assert!(context.common.get_immutable_session_via_id(6).is_none());
}

#[test]
fn handling_a_response_leaves_the_context_alone() {
    let mut context = requester();
    context.common.session.open_session(5).unwrap();
    context.common.append_message_m(Some(5), &[1]).unwrap();
    let _ = context.handle_spdm_vendor_defined_respond(Some(5), &[0x12, 0x7f, 0x01, 0x00]);
    let _ = context.handle_spdm_vendor_defined_respond(Some(5), &[0x12]);
    assert!(context.common.get_immutable_session_via_id(5).is_some());
    assert_eq!(context.common.get_immutable_session_via_id(5).unwrap().get_message_m(), &[1]);
    assert_eq!(
        context.common.runtime_info.get_connection_state(),
        SpdmConnectionState::SpdmConnectionNegotiated
    );
}

#[test]
fn registries_have_their_numbers() {
    let table = [
        (RegistryOrStandardsBodyID::DMTF, 0u16),
        (RegistryOrStandardsBodyID::TCG, 1),
        (RegistryOrStandardsBodyID::USB, 2),
        (RegistryOrStandardsBodyID::PCISIG, 3),
        (RegistryOrStandardsBodyID::IANA, 4),
        (RegistryOrStandardsBodyID::HDBASET, 5),
        (RegistryOrStandardsBodyID::MIPI, 6),
        (RegistryOrStandardsBodyID::CXL, 7),
        (RegistryOrStandardsBodyID::JEDEC, 8),
        (RegistryOrStandardsBodyID::Unknown(9), 9),
        (RegistryOrStandardsBodyID::Unknown(0xffff), 0xffff),
    ];
    for (id, number) in table {
        assert_eq!(id.get_u16(), number);
        assert_eq!(RegistryOrStandardsBodyID::from_u16(number), id);
        assert_eq!(new_spdm_message(id), id);
    }
}

#[test]
fn vendor_fields_go_under_their_length() {
    let mut buffer = [0u8; 16];
    let mut writer = Writer::init(&mut buffer);
    let id = VendorIDStruct::new(&[1, 2, 3, 4]).unwrap();
    assert_eq!(id.encode(&mut writer), Some(5));
    let payload = VendorDefinedRspPayloadStruct::new(&[9, 8]).unwrap();
    assert_eq!(payload.encode(&mut writer), Some(4));
    assert_eq!(writer.used_slice(), &[4, 1, 2, 3, 4, 2, 0, 9, 8]);
    let mut reader = Reader::init(writer.used_slice());
    assert_eq!(VendorIDStruct::read(&mut reader).unwrap().as_slice(), &[1, 2, 3, 4]);
    assert_eq!(reader.used(), 5);
    assert_eq!(VendorDefinedRspPayloadStruct::read(&mut reader).unwrap().as_slice(), &[9, 8]);
    assert_eq!(reader.left(), 0);
    assert!(VendorIDStruct::new(&[0; 5]).is_none());
    assert!(VendorDefinedReqPayloadStruct::new(&[0; 257]).is_none());
    assert_eq!(new_spdm_message(id.clone()).as_slice(), id.as_slice());
    assert_eq!(new_spdm_message(payload.clone()).as_slice(), payload.as_slice());
    // A field that does not fit is not written in part.
    let mut small = [0u8; 4];
    let mut writer = Writer::init(&mut small);
    assert_eq!(id.encode(&mut writer), None);
    assert_eq!(writer.used(), 0);
    assert_eq!(payload.encode(&mut writer), Some(4));
    // A field that is cut short is not read in part.
    let mut reader = Reader::init(&[3, 1, 2]);
    assert!(VendorIDStruct::read(&mut reader).is_none());
    assert_eq!(reader.used(), 0);
    let mut reader = Reader::init(&[3, 0, 1, 2]);
    assert!(VendorDefinedRspPayloadStruct::read(&mut reader).is_none());
    assert_eq!(reader.used(), 0);
}

#[test]
fn a_vendor_defined_payload_survives_the_wire() {
    let request = SpdmVendorDefinedRequestPayload {
        standard_id: RegistryOrStandardsBodyID::Unknown(0x1234),
        vendor_id: VendorIDStruct::new(&[0xaa]).unwrap(),
        req_payload: VendorDefinedReqPayloadStruct::new(&[1, 2, 3, 4, 5]).unwrap(),
    };
    let mut buffer = [0u8; 32];
    let mut writer = Writer::init(&mut buffer);
    assert_eq!(request.spdm_encode(&mut writer), Some(13));
    assert_eq!(
        writer.used_slice(),
        &[0x00, 0x00, 0x34, 0x12, 0x01, 0xaa, 0x05, 0x00, 1, 2, 3, 4, 5]
    );
    let mut reader = Reader::init(writer.used_slice());
    let response = SpdmVendorDefinedResponsePayload::spdm_read(&mut reader).unwrap();
    assert_eq!(reader.left(), 0);
    assert_eq!(response.standard_id, request.standard_id);
    assert_eq!(response.vendor_id.as_slice(), request.vendor_id.as_slice());
    assert_eq!(response.rsp_payload.as_slice(), request.req_payload.as_slice());
    let mut reader = Reader::init(writer.used_slice());
    let again = SpdmVendorDefinedRequestPayload::spdm_read(&mut reader).unwrap();
    assert_eq!(again.req_payload.as_slice(), &[1, 2, 3, 4, 5]);
    let copy = response.clone();
    let mut second = [0u8; 13];
    let mut writer = Writer::init(&mut second);
    assert_eq!(copy.spdm_encode(&mut writer), Some(13));
    let mut small = [0u8; 12];
    let mut writer = Writer::init(&mut small);
    assert_eq!(copy.spdm_encode(&mut writer), None);
    assert_eq!(writer.used(), 0);
}
