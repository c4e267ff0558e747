use spdmlib::codec::{Codec, Reader, Writer};
use spdmlib::message::error::{
    SpdmErrorResponseExtData, SpdmErrorResponseNotReadyExtData, SpdmErrorResponsePayload,
};
use spdmlib::message::{SpdmErrorCode, SpdmMessageHeader, SpdmRequestResponseCode};
use spdmlib::protocol::SpdmVersion;
use spdmlib::util::new_spdm_message;

#[test]
fn reader_takes_exactly_what_is_left() {
    let bytes = [1u8, 2, 3, 4, 5];
    let mut reader = Reader::init(&bytes);
    assert_eq!(reader.left(), 5);
    assert_eq!(reader.used(), 0);
    assert!(reader.any_left());
    assert_eq!(reader.peek_u8(), Some(1));
    assert_eq!(reader.take(2), Some(&bytes[0..2]));
    assert_eq!(reader.used(), 2);
    assert_eq!(reader.left(), 3);
    assert_eq!(reader.take(3), Some(&bytes[2..5]));
    assert!(!reader.any_left());
    assert_eq!(reader.peek_u8(), None);
    assert_eq!(reader.take(0), Some(&bytes[5..5]));
}

#[test]
fn reader_refuses_a_read_past_the_end_and_stays() {
    let bytes = [1u8, 2, 3];
    let mut reader = Reader::init(&bytes);
    assert_eq!(reader.take(4), None);
    assert_eq!(reader.used(), 0);
    assert_eq!(u32::read(&mut reader), None);
    assert_eq!(reader.used(), 0);
    assert_eq!(u16::read(&mut reader), Some(0x0201));
    assert_eq!(reader.used(), 2);
    assert_eq!(u16::read(&mut reader), None);
    assert_eq!(reader.used(), 2);
    assert_eq!(u8::read(&mut reader), Some(3));
    assert_eq!(u8::read(&mut reader), None);
    assert_eq!(reader.take(usize::MAX), None);
}

#[test]
fn reader_rest_consumes_everything() {
    let bytes = [9u8, 8, 7];
    let mut reader = Reader::init(&bytes);
    assert_eq!(u8::read(&mut reader), Some(9));
    assert_eq!(reader.rest(), &bytes[1..]);
    assert_eq!(reader.left(), 0);
    assert_eq!(reader.rest(), &bytes[3..]);
}

#[test]
fn reader_on_an_empty_slice_reads_nothing() {
    let bytes: [u8; 0] = [];
    let mut reader = Reader::init(&bytes);
    assert!(!reader.any_left());
    assert_eq!(u8::read(&mut reader), None);
    assert_eq!(SpdmMessageHeader::read(&mut reader), None);
}

#[test]
fn writer_appends_until_full_and_then_refuses() {
    let mut buffer = [0u8; 4];
    let mut writer = Writer::init(&mut buffer);
    assert_eq!(writer.used(), 0);
    assert_eq!(writer.left(), 4);
    assert_eq!(writer.push(0xaa), Some(0xaa));
    assert_eq!(writer.extend_from_slice(&[1, 2]), Some(2));
    assert_eq!(writer.used_slice(), &[0xaa, 1, 2]);
    assert_eq!(writer.extend_from_slice(&[3, 4]), None);
    assert_eq!(writer.used_slice(), &[0xaa, 1, 2]);
    assert_eq!(writer.extend_from_slice(&[3]), Some(1));
    assert_eq!(writer.left(), 0);
    assert_eq!(writer.push(5), None);
    assert_eq!(writer.extend_from_slice(&[]), Some(0));
    assert_eq!(writer.used_slice(), &[0xaa, 1, 2, 3]);
}

#[test]
fn writer_clear_forgets_what_was_written() {
    let mut buffer = [0u8; 3];
    let mut writer = Writer::init(&mut buffer);
    assert_eq!(writer.extend_from_slice(&[1, 2, 3]), Some(3));
    writer.clear();
    assert_eq!(writer.used(), 0);
    assert_eq!(writer.left(), 3);
    assert_eq!(writer.push(7), Some(7));
    assert_eq!(writer.used_slice(), &[7]);
}

#[test]
fn writer_over_an_empty_slice_holds_nothing() {
    let mut buffer: [u8; 0] = [];
    let mut writer = Writer::init(&mut buffer);
    assert_eq!(writer.push(1), None);
    assert_eq!(0x1234u16.encode(&mut writer), None);
    assert_eq!(writer.used_slice(), &[] as &[u8]);
}

#[test]
fn integers_are_written_least_significant_byte_first() {
    let mut buffer = [0u8; 7];
    let mut writer = Writer::init(&mut buffer);
    assert_eq!(0x12u8.encode(&mut writer), Some(1));
    assert_eq!(0x3456u16.encode(&mut writer), Some(2));
    assert_eq!(0x789abcdeu32.encode(&mut writer), Some(4));
    assert_eq!(writer.used_slice(), &[0x12, 0x56, 0x34, 0xde, 0xbc, 0x9a, 0x78]);
}

#[test]
fn an_integer_that_does_not_fit_writes_nothing() {
    let mut buffer = [0u8; 3];
    let mut writer = Writer::init(&mut buffer);
    assert_eq!(0xffff_ffffu32.encode(&mut writer), None);
    assert_eq!(writer.used(), 0);
    assert_eq!(0xffffu16.encode(&mut writer), Some(2));
    assert_eq!(0xffffu16.encode(&mut writer), None);
    assert_eq!(writer.used_slice(), &[0xff, 0xff]);
}

#[test]
fn integers_are_read_least_significant_byte_first() {
    let bytes = [0x12u8, 0x56, 0x34, 0xde, 0xbc, 0x9a, 0x78];
    let mut reader = Reader::init(&bytes);
    assert_eq!(u8::read(&mut reader), Some(0x12));
    assert_eq!(u16::read(&mut reader), Some(0x3456));
    assert_eq!(u32::read(&mut reader), Some(0x789abcde));
    assert_eq!(reader.left(), 0);
}

#[test]
fn every_u16_survives_the_wire() {
    let mut value: u32 = 0;
    while value <= 0xffff {
        let mut buffer = [0u8; 2];
        let mut writer = Writer::init(&mut buffer);
        assert_eq!((value as u16).encode(&mut writer), Some(2));
        let mut reader = Reader::init(writer.used_slice());
        assert_eq!(u16::read(&mut reader), Some(value as u16));
        value += 1;
    }
}

#[test]
fn extreme_u32_values_survive_the_wire() {
    for value in [0u32, 1, 0xff, 0x100, 0xffff, 0x1_0000, 0xff_ffff, 0x100_0000, u32::MAX] {
        assert_eq!(new_spdm_message(value), value);
    }
}

#[test]
fn every_header_is_read_back_as_written() {
    for version in 0u16..=255 {
        for code in 0u16..=255 {
            let bytes = [version as u8, code as u8, 0xee];
            let mut reader = Reader::init(&bytes);
            let header = SpdmMessageHeader::read(&mut reader).unwrap();
            assert_eq!(reader.used(), 2);
            assert_eq!(header.version.get_u8(), version as u8);
            assert_eq!(header.request_response_code.get_u8(), code as u8);
            let mut buffer = [0u8; 2];
            let mut writer = Writer::init(&mut buffer);
            assert_eq!(header.encode(&mut writer), Some(2));
            assert_eq!(writer.used_slice(), &bytes[..2]);
        }
    }
}

#[test]
fn a_header_is_two_bytes_version_then_code() {
    let header = SpdmMessageHeader {
        version: SpdmVersion::SpdmVersion12,
        request_response_code: SpdmRequestResponseCode::SpdmRequestGetDigests,
    };
    let mut buffer = [0u8; 8];
    let mut writer = Writer::init(&mut buffer);
    assert_eq!(header.encode(&mut writer), Some(2));
    assert_eq!(writer.used_slice(), &[0x12, 0x81]);
    assert_eq!(new_spdm_message(header), header);
}

#[test]
fn a_header_needs_both_bytes() {
    let bytes = [0x12u8];
    let mut reader = Reader::init(&bytes);
    assert_eq!(SpdmMessageHeader::read(&mut reader), None);
    assert_eq!(reader.used(), 0);
    let mut buffer = [0u8; 1];
    let mut writer = Writer::init(&mut buffer);
    let header = SpdmMessageHeader {
        version: SpdmVersion::SpdmVersion10,
        request_response_code: SpdmRequestResponseCode::SpdmRequestGetVersion,
    };
    assert_eq!(header.encode(&mut writer), None);
    assert_eq!(writer.used(), 0);
}

#[test]
fn known_bytes_are_never_read_as_unknown() {
    assert_eq!(SpdmVersion::from_u8(0x10), SpdmVersion::SpdmVersion10);
    assert_eq!(SpdmVersion::from_u8(0x11), SpdmVersion::SpdmVersion11);
    assert_eq!(SpdmVersion::from_u8(0x12), SpdmVersion::SpdmVersion12);
    assert_eq!(SpdmVersion::from_u8(0x13), SpdmVersion::Unknown(0x13));
    assert_eq!(SpdmVersion::Unknown(0x10).get_u8(), 0x10);
    assert_eq!(
        SpdmRequestResponseCode::from_u8(0x84),
        SpdmRequestResponseCode::SpdmRequestGetVersion
    );
    assert_eq!(SpdmRequestResponseCode::from_u8(0x00), SpdmRequestResponseCode::Unknown(0));
    assert_eq!(SpdmErrorCode::from_u8(0x07), SpdmErrorCode::SpdmErrorUnsupportedRequest);
    assert_eq!(SpdmErrorCode::from_u8(0x02), SpdmErrorCode::Unknown(2));
}

#[test]
fn request_and_response_codes_have_their_wire_values() {
    let table = [
        (SpdmRequestResponseCode::SpdmResponseDigests, 0x01u8),
        (SpdmRequestResponseCode::SpdmResponseCertificate, 0x02),
        (SpdmRequestResponseCode::SpdmResponseChallengeAuth, 0x03),
        (SpdmRequestResponseCode::SpdmResponseVersion, 0x04),
        (SpdmRequestResponseCode::SpdmResponseMeasurements, 0x60),
        (SpdmRequestResponseCode::SpdmResponseCapabilities, 0x61),
        (SpdmRequestResponseCode::SpdmResponseAlgorithms, 0x63),
        (SpdmRequestResponseCode::SpdmResponseKeyExchangeRsp, 0x64),
        (SpdmRequestResponseCode::SpdmResponseFinishRsp, 0x65),
        (SpdmRequestResponseCode::SpdmResponsePskExchangeRsp, 0x66),
        (SpdmRequestResponseCode::SpdmResponsePskFinishRsp, 0x67),
        (SpdmRequestResponseCode::SpdmResponseHeartbeatAck, 0x68),
        (SpdmRequestResponseCode::SpdmResponseKeyUpdateAck, 0x69),
        (SpdmRequestResponseCode::SpdmResponseEncapsulatedRequest, 0x6a),
        (SpdmRequestResponseCode::SpdmResponseEncapsulatedResponseAck, 0x6b),
        (SpdmRequestResponseCode::SpdmResponseEndSessionAck, 0x6c),
        (SpdmRequestResponseCode::SpdmResponseVendorDefinedResponse, 0x7e),
        (SpdmRequestResponseCode::SpdmResponseError, 0x7f),
        (SpdmRequestResponseCode::SpdmRequestGetDigests, 0x81),
        (SpdmRequestResponseCode::SpdmRequestGetCertificate, 0x82),
        (SpdmRequestResponseCode::SpdmRequestChallenge, 0x83),
        (SpdmRequestResponseCode::SpdmRequestGetVersion, 0x84),
        (SpdmRequestResponseCode::SpdmRequestGetMeasurements, 0xe0),
        (SpdmRequestResponseCode::SpdmRequestGetCapabilities, 0xe1),
        (SpdmRequestResponseCode::SpdmRequestNegotiateAlgorithms, 0xe3),
        (SpdmRequestResponseCode::SpdmRequestKeyExchange, 0xe4),
        (SpdmRequestResponseCode::SpdmRequestFinish, 0xe5),
        (SpdmRequestResponseCode::SpdmRequestPskExchange, 0xe6),
        (SpdmRequestResponseCode::SpdmRequestPskFinish, 0xe7),
        (SpdmRequestResponseCode::SpdmRequestHeartbeat, 0xe8),
        (SpdmRequestResponseCode::SpdmRequestKeyUpdate, 0xe9),
        (SpdmRequestResponseCode::SpdmRequestGetEncapsulatedRequest, 0xea),
        (SpdmRequestResponseCode::SpdmRequestDeliverEncapsulatedResponse, 0xeb),
        (SpdmRequestResponseCode::SpdmRequestEndSession, 0xec),
        (SpdmRequestResponseCode::SpdmRequestVendorDefinedRequest, 0xfe),
        (SpdmRequestResponseCode::SpdmRequestResponseIfReady, 0xff),
    ];
    for (code, byte) in table {
        assert_eq!(code.get_u8(), byte);
        assert_eq!(SpdmRequestResponseCode::from_u8(byte), code);
    }
}

#[test]
fn error_codes_have_their_wire_values() {
    let table = [
        (SpdmErrorCode::SpdmErrorInvalidRequest, 0x01u8),
        (SpdmErrorCode::SpdmErrorBusy, 0x03),
        (SpdmErrorCode::SpdmErrorUnexpectedRequest, 0x04),
        (SpdmErrorCode::SpdmErrorUnspecified, 0x05),
        (SpdmErrorCode::SpdmErrorDecryptError, 0x06),
        (SpdmErrorCode::SpdmErrorUnsupportedRequest, 0x07),
        (SpdmErrorCode::SpdmErrorRequestInFlight, 0x08),
        (SpdmErrorCode::SpdmErrorInvalidResponseCode, 0x09),
        (SpdmErrorCode::SpdmErrorSessionLimitExceeded, 0x0a),
        (SpdmErrorCode::SpdmErrorSessionRequired, 0x0b),
        (SpdmErrorCode::SpdmErrorResetRequired, 0x0c),
        (SpdmErrorCode::SpdmErrorResponseTooLarge, 0x0d),
        (SpdmErrorCode::SpdmErrorRequestTooLarge, 0x0e),
        (SpdmErrorCode::SpdmErrorLargeResponse, 0x0f),
        (SpdmErrorCode::SpdmErrorMessageLost, 0x10),
        (SpdmErrorCode::SpdmErrorVersionMismatch, 0x41),
        (SpdmErrorCode::SpdmErrorResponseNotReady, 0x42),
        (SpdmErrorCode::SpdmErrorRequestResynch, 0x43),
        (SpdmErrorCode::SpdmErrorVendorDefined, 0xff),
    ];
    for (code, byte) in table {
        assert_eq!(code.get_u8(), byte);
        assert_eq!(SpdmErrorCode::from_u8(byte), code);
    }
}

#[test]
fn an_error_payload_is_code_data_and_extended_data() {
    let plain = SpdmErrorResponsePayload {
        error_code: SpdmErrorCode::SpdmErrorBusy,
        error_data: 0x5a,
        extended_data: SpdmErrorResponseExtData::SpdmErrorExtDataNone,
    };
    let mut buffer = [0u8; 8];
    let mut writer = Writer::init(&mut buffer);
    assert_eq!(plain.encode(&mut writer), Some(2));
    assert_eq!(writer.used_slice(), &[0x03, 0x5a]);
    assert_eq!(new_spdm_message(plain), plain);

    let not_ready = SpdmErrorResponsePayload {
        error_code: SpdmErrorCode::SpdmErrorResponseNotReady,
        error_data: 0,
        extended_data: SpdmErrorResponseExtData::SpdmErrorExtDataNotReady(
            SpdmErrorResponseNotReadyExtData {
                rdt_exponent: 1,
                request_code: 0x82,
                token: 3,
                rdtm: 4,
            },
        ),
    };
    let mut buffer = [0u8; 8];
    let mut writer = Writer::init(&mut buffer);
    assert_eq!(not_ready.encode(&mut writer), Some(6));
    assert_eq!(writer.used_slice(), &[0x42, 0x00, 0x01, 0x82, 0x03, 0x04]);
    assert_eq!(new_spdm_message(not_ready), not_ready);
}

#[test]
fn an_error_payload_cut_short_is_not_read() {
    let mut reader = Reader::init(&[0x42, 0x00, 0x01, 0x82, 0x03]);
    assert_eq!(SpdmErrorResponsePayload::read(&mut reader), None);
    assert_eq!(reader.used(), 0);
    let mut reader = Reader::init(&[0x01]);
    assert_eq!(SpdmErrorResponsePayload::read(&mut reader), None);
    let mut reader = Reader::init(&[0x01, 0x09, 0xff]);
    assert_eq!(
        SpdmErrorResponsePayload::read(&mut reader),
        Some(SpdmErrorResponsePayload {
            error_code: SpdmErrorCode::SpdmErrorInvalidRequest,
            error_data: 9,
            extended_data: SpdmErrorResponseExtData::SpdmErrorExtDataNone,
        })
    );
    assert_eq!(reader.used(), 2);
}

#[test]
fn reading_never_fails_on_arbitrary_bytes() {
    let mut seed: u32 = 0x1234_5678;
    for _ in 0..2000 {
        let mut bytes = [0u8; 12];
        for byte in bytes.iter_mut() {
            seed = seed.wrapping_mul(1_664_525).wrapping_add(1_013_904_223);
            *byte = (seed >> 24) as u8;
        }
        let len = (seed % 13) as usize;
        let input = &bytes[..len];
        let mut reader = Reader::init(input);
        let header = SpdmMessageHeader::read(&mut reader);
        assert_eq!(header.is_some(), len >= 2);
        let payload = SpdmErrorResponsePayload::read(&mut reader);
        if let Some(payload) = payload {
            let mut buffer = [0u8; 12];
            let mut writer = Writer::init(&mut buffer);
            assert!(payload.encode(&mut writer).is_some());
            assert_eq!(writer.used_slice(), &input[2..reader.used()]);
        }
        assert!(reader.used() <= len);
    }
}
