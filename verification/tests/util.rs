use spdmlib::common::{
    SpdmConnectionState, SpdmEncapContext, SpdmNegotiateInfo, SpdmPeerInfo, SpdmRuntimeInfo,
    DMTF_SECURE_SPDM_VERSION_10, DMTF_SECURE_SPDM_VERSION_11,
};
use spdmlib::config::{MAX_SPDM_CERT_CHAIN_DATA_SIZE, SPDM_MAX_HASH_SIZE};
use spdmlib::crypto::get_cert_from_cert_chain;
use spdmlib::protocol::{
    SpdmAeadAlgo, SpdmBaseAsymAlgo, SpdmBaseHashAlgo, SpdmCertChainBuffer, SpdmDheAlgo,
    SpdmKeyScheduleAlgo, SpdmMeasurementHashAlgo, SpdmMeasurementSpecification, SpdmOpaqueSupport,
    SpdmReqAsymAlgo, SpdmRequestCapabilityFlags, SpdmResponseCapabilityFlags, SpdmVersion,
};
use spdmlib::util::{
    create_info, get_rsp_cert_chain_buff, new_context, req_create_info, rsp_create_info,
};

const ROOT: [u8; 6] = [0x30, 0x82, 0x00, 0x02, 0xa1, 0xa2];
const MIDDLE: [u8; 5] = [0x30, 0x82, 0x00, 0x01, 0xb1];
const END: [u8; 7] = [0x30, 0x82, 0x00, 0x03, 0xc1, 0xc2, 0xc3];

fn chain() -> Vec<u8> {
    let mut chain = ROOT.to_vec();
    chain.extend_from_slice(&MIDDLE);
    chain.extend_from_slice(&END);
    chain
}

#[test]
fn create_info_configures_both_roles_with_mutual_authentication() {
    let (config, provision) = create_info(&ROOT, &MIDDLE, &END);
    assert_eq!(
        config.spdm_version,
        [SpdmVersion::SpdmVersion10, SpdmVersion::SpdmVersion11, SpdmVersion::SpdmVersion12]
    );
    assert_eq!(config.rsp_capabilities.bits(), 0x7bf6);
    assert_eq!(config.req_capabilities.bits(), 0x73c2);
    assert!(config.rsp_capabilities.contains(SpdmResponseCapabilityFlags::MUT_AUTH_CAP));
    assert!(config.rsp_capabilities.contains(SpdmResponseCapabilityFlags::PSK_CAP_WITH_CONTEXT));
    let rsp = config.rsp_capabilities;
    assert!(!rsp.contains(SpdmResponseCapabilityFlags::PSK_CAP_WITHOUT_CONTEXT));
    assert!(!rsp.contains(SpdmResponseCapabilityFlags::HANDSHAKE_IN_THE_CLEAR_CAP));
    assert!(!config.req_capabilities.contains(SpdmRequestCapabilityFlags::CHAL_CAP));
    assert_eq!(config.rsp_ct_exponent, 0);
    assert_eq!(config.req_ct_exponent, 0);
    assert_eq!(config.measurement_specification.bits(), SpdmMeasurementSpecification::DMTF);
    assert_eq!(config.measurement_hash_algo.bits(), SpdmMeasurementHashAlgo::TPM_ALG_SHA_384);
    assert_eq!(config.base_asym_algo.bits(), SpdmBaseAsymAlgo::TPM_ALG_ECDSA_ECC_NIST_P384);
    assert_eq!(config.base_hash_algo.bits(), SpdmBaseHashAlgo::TPM_ALG_SHA_384);
    assert_eq!(config.dhe_algo.bits(), SpdmDheAlgo::SECP_384_R1);
    assert_eq!(config.aead_algo.bits(), SpdmAeadAlgo::AES_256_GCM);
    assert_eq!(config.req_asym_algo.bits(), SpdmReqAsymAlgo::TPM_ALG_RSAPSS_2048);
    assert_eq!(config.key_schedule_algo.bits(), SpdmKeyScheduleAlgo::SPDM_KEY_SCHEDULE);
    assert_eq!(config.opaque_support.bits(), SpdmOpaqueSupport::OPAQUE_DATA_FMT1);
    assert_eq!(config.data_transfer_size, 0x1200);
    assert_eq!(config.max_spdm_msg_size, 0x1200);
    assert_eq!(config.heartbeat_period, 0);
    assert_eq!(config.secure_spdm_version, [0, 0]);
    assert!(config.mut_auth);
    assert_eq!(provision.my_cert_chain_data[0].as_ref().unwrap().as_slice(), &chain()[..]);
    for slot in 1..8 {
        assert!(provision.my_cert_chain_data[slot].is_none());
    }
    for slot in 0..8 {
        assert!(provision.my_cert_chain[slot].is_none());
    }
    assert_eq!(provision.peer_root_cert_data.as_ref().unwrap().as_slice(), &ROOT);
}

#[test]
fn req_create_info_holds_a_chain_only_with_mutual_authentication() {
    let (config, provision) = req_create_info(&ROOT, &MIDDLE, &END, true, false);
    assert_eq!(config.req_capabilities.bits(), 0x76c6);
    assert_eq!(config.rsp_capabilities.bits(), 0);
    assert_eq!(config.base_asym_algo.bits(), SpdmBaseAsymAlgo::TPM_ALG_ECDSA_ECC_NIST_P384);
    assert_eq!(config.req_asym_algo.bits(), SpdmReqAsymAlgo::TPM_ALG_ECDSA_ECC_NIST_P384);
    assert_eq!(config.measurement_hash_algo.bits(), 0);
    assert_eq!(config.data_transfer_size, 0x1200);
    assert_eq!(config.max_spdm_msg_size, 0x1200);
    assert_eq!(config.secure_spdm_version, [0, 0]);
    assert!(!config.mut_auth);
    assert!(provision.my_cert_chain_data[0].is_none());
    assert_eq!(provision.peer_root_cert_data.as_ref().unwrap().as_slice(), &ROOT);

    let (config, provision) = req_create_info(&ROOT, &MIDDLE, &END, false, true);
    assert_eq!(config.req_capabilities.bits(), 0x77c6);
    assert!(config.req_capabilities.contains(SpdmRequestCapabilityFlags::MUT_AUTH_CAP));
    assert_eq!(config.base_asym_algo.bits(), SpdmBaseAsymAlgo::TPM_ALG_RSASSA_3072);
    assert_eq!(config.req_asym_algo.bits(), SpdmReqAsymAlgo::TPM_ALG_RSASSA_3072);
    assert!(config.mut_auth);
    assert_eq!(provision.my_cert_chain_data[0].as_ref().unwrap().as_slice(), &chain()[..]);
    assert_eq!(provision.peer_root_cert_data.as_ref().unwrap().as_slice(), &ROOT);
    // Without mutual authentication only the root has to fit.
    let long = vec![0u8; MAX_SPDM_CERT_CHAIN_DATA_SIZE];
    let (_, provision) = req_create_info(&long, &long, &long, true, false);
    assert_eq!(
        provision.peer_root_cert_data.as_ref().unwrap().len(),
        MAX_SPDM_CERT_CHAIN_DATA_SIZE
    );
}

#[test]
fn rsp_create_info_holds_the_chain_and_trusts_no_root() {
    let (config, provision) = rsp_create_info(&ROOT, &MIDDLE, &END, true, false);
    assert_eq!(config.rsp_capabilities.bits(), 0x7af6);
    assert_eq!(config.req_capabilities.bits(), 0);
    assert_eq!(config.measurement_hash_algo.bits(), SpdmMeasurementHashAlgo::TPM_ALG_SHA_384);
    assert_eq!(config.base_asym_algo.bits(), SpdmBaseAsymAlgo::TPM_ALG_ECDSA_ECC_NIST_P384);
    assert_eq!(
        config.secure_spdm_version,
        [DMTF_SECURE_SPDM_VERSION_10, DMTF_SECURE_SPDM_VERSION_11]
    );
    assert_eq!(config.heartbeat_period, 0);
    assert!(!config.mut_auth);
    assert_eq!(provision.my_cert_chain_data[0].as_ref().unwrap().as_slice(), &chain()[..]);
    assert!(provision.peer_root_cert_data.is_none());
    let (config, _) = rsp_create_info(&ROOT, &MIDDLE, &END, false, true);
    assert_eq!(config.rsp_capabilities.bits(), 0x7bf6);
    assert_eq!(config.base_asym_algo.bits(), SpdmBaseAsymAlgo::TPM_ALG_RSASSA_3072);
    assert_eq!(config.req_asym_algo.bits(), SpdmReqAsymAlgo::TPM_ALG_RSASSA_3072);
    assert!(config.mut_auth);
}

#[test]
fn a_chain_that_just_fits_is_provisioned() {
    let ca = vec![1u8; MAX_SPDM_CERT_CHAIN_DATA_SIZE - 2];
    let (_, provision) = rsp_create_info(&ca, &[2], &[3], true, true);
    let held = provision.my_cert_chain_data[0].as_ref().unwrap();
    assert_eq!(held.len(), MAX_SPDM_CERT_CHAIN_DATA_SIZE);
    assert_eq!(held.as_slice()[MAX_SPDM_CERT_CHAIN_DATA_SIZE - 3..], [1, 2, 3]);
    let (_, provision) = create_info(&[], &[], &[]);
    assert_eq!(provision.my_cert_chain_data[0].as_ref().unwrap().len(), 0);
}

#[test]
fn new_context_is_fresh_with_the_opaque_format_selected() {
    let context = new_context(&ROOT, &MIDDLE, &END);
    assert_eq!(
        context.negotiate_info.opaque_data_support.bits(),
        SpdmOpaqueSupport::OPAQUE_DATA_FMT1
    );
    assert_eq!(context.negotiate_info.spdm_version_sel, SpdmVersion::SpdmVersion10);
    assert_eq!(context.negotiate_info.req_capabilities_sel.bits(), 0);
    assert_eq!(
        context.runtime_info.get_connection_state(),
        SpdmConnectionState::SpdmConnectionNotStarted
    );
    assert_eq!(context.runtime_info.get_last_session_id(), None);
    assert_eq!(context.config_info.rsp_capabilities.bits(), 0x7bf6);
    assert_eq!(
        context.provision_info.my_cert_chain_data[0].as_ref().unwrap().as_slice(),
        &chain()[..]
    );
    assert!(context.peer_info.peer_cert_chain_temp.is_none());
    assert!(context.get_immutable_session_via_id(0xfffd_fffd).is_none());
}

#[test]
fn the_wire_form_of_a_chain_is_length_reserved_digest_chain() {
    let chain = chain();
    let (begin, end) = get_cert_from_cert_chain(&chain, 0).unwrap();
    assert_eq!((begin, end), (0, 6));
    let digest = [0x5au8; 48];
    let buffer = get_rsp_cert_chain_buff(&chain, &digest);
    let mut expected = vec![70u8, 0x00, 0x00, 0x00];
    expected.extend_from_slice(&digest);
    expected.extend_from_slice(&chain);
    assert_eq!(buffer.as_slice(), &expected[..]);
    assert_eq!(buffer.len(), 70);
    let copy = buffer.clone();
    assert_eq!(copy.as_slice(), buffer.as_slice());
}

#[test]
fn the_length_of_a_long_chain_takes_both_bytes() {
    let chain = vec![0x77u8; MAX_SPDM_CERT_CHAIN_DATA_SIZE];
    let digest = [1u8; SPDM_MAX_HASH_SIZE];
    let buffer = SpdmCertChainBuffer::new(&chain, &digest).unwrap();
    assert_eq!(buffer.len(), 4 + 64 + 4096);
    assert_eq!(&buffer.as_slice()[..4], &[0x44, 0x10, 0x00, 0x00]);
    assert_eq!(&buffer.as_slice()[4..68], &digest);
    assert!(SpdmCertChainBuffer::new(&[0u8; MAX_SPDM_CERT_CHAIN_DATA_SIZE + 1], &digest).is_none());
    assert!(SpdmCertChainBuffer::new(&chain, &[0u8; SPDM_MAX_HASH_SIZE + 1]).is_none());
    let empty = SpdmCertChainBuffer::new(&[], &[]).unwrap();
    assert_eq!(empty.as_slice(), &[4, 0, 0, 0]);
    assert_eq!(SpdmCertChainBuffer::default().len(), 0);
}

#[test]
fn a_chain_buffer_grows_by_portions_up_to_its_capacity() {
    let mut buffer = SpdmCertChainBuffer::default();
    assert_eq!(buffer.append(&[1, 2]), Some(2));
    assert_eq!(buffer.append(&[0u8; 4163]), None);
    assert_eq!(buffer.append(&[0u8; 4162]), Some(4162));
    assert_eq!(buffer.append(&[3]), None);
    assert_eq!(buffer.len(), 4164);
    assert!(SpdmCertChainBuffer::from_slice(&[0u8; 4165]).is_none());
    assert_eq!(SpdmCertChainBuffer::from_slice(&[5, 6]).unwrap().as_slice(), &[5, 6]);
}

#[test]
fn certificates_are_found_by_index_and_from_the_end() {
    let chain = chain();
    assert_eq!(get_cert_from_cert_chain(&chain, 0), Some((0, 6)));
    assert_eq!(get_cert_from_cert_chain(&chain, 1), Some((6, 11)));
    assert_eq!(get_cert_from_cert_chain(&chain, 2), Some((11, 18)));
    assert_eq!(get_cert_from_cert_chain(&chain, -1), Some((11, 18)));
    assert_eq!(get_cert_from_cert_chain(&chain, 3), None);
    assert_eq!(get_cert_from_cert_chain(&chain, -2), None);
    assert_eq!(get_cert_from_cert_chain(&chain, isize::MAX), None);
    assert_eq!(get_cert_from_cert_chain(&chain, isize::MIN), None);
    assert_eq!(get_cert_from_cert_chain(&ROOT, 0), Some((0, 6)));
    assert_eq!(get_cert_from_cert_chain(&ROOT, -1), Some((0, 6)));
}

#[test]
fn a_malformed_chain_holds_no_certificate_past_the_damage() {
    assert_eq!(get_cert_from_cert_chain(&[], 0), None);
    assert_eq!(get_cert_from_cert_chain(&[], -1), None);
    assert_eq!(get_cert_from_cert_chain(&[0x30, 0x82, 0x00], 0), None);
    assert_eq!(get_cert_from_cert_chain(&[0x30, 0x82, 0x00, 0x00], 0), Some((0, 4)));
    assert_eq!(get_cert_from_cert_chain(&[0x31, 0x82, 0x00, 0x00], 0), None);
    assert_eq!(get_cert_from_cert_chain(&[0x30, 0x81, 0x00, 0x00], 0), None);
    assert_eq!(get_cert_from_cert_chain(&[0x30, 0x82, 0x00, 0x01], 0), None);
    let mut chain = chain();
    chain.push(0x30);
    assert_eq!(get_cert_from_cert_chain(&chain, 2), Some((11, 18)));
    assert_eq!(get_cert_from_cert_chain(&chain, -1), None);
    chain[6] = 0x31;
    assert_eq!(get_cert_from_cert_chain(&chain, 0), Some((0, 6)));
    assert_eq!(get_cert_from_cert_chain(&chain, 1), None);
    assert_eq!(get_cert_from_cert_chain(&chain, 2), None);
    let mut long = vec![0x30u8, 0x82, 0x01, 0x02];
    long.extend_from_slice(&[0u8; 0x102]);
    assert_eq!(get_cert_from_cert_chain(&long, -1), Some((0, 0x106)));
}

#[test]
fn the_digest_size_follows_the_selected_hash() {
    assert_eq!(SpdmBaseHashAlgo::from_bits(SpdmBaseHashAlgo::TPM_ALG_SHA_256).get_size(), 32);
    assert_eq!(SpdmBaseHashAlgo::from_bits(SpdmBaseHashAlgo::TPM_ALG_SHA_384).get_size(), 48);
    assert_eq!(SpdmBaseHashAlgo::from_bits(SpdmBaseHashAlgo::TPM_ALG_SHA_512).get_size(), 64);
    assert_eq!(SpdmBaseHashAlgo::empty().get_size(), 0);
    assert_eq!(SpdmBaseHashAlgo::from_bits(3).get_size(), 0);
}

#[test]
fn flags_are_sets_of_bits() {
    let mut flags = SpdmResponseCapabilityFlags::empty();
    assert_eq!(flags, SpdmResponseCapabilityFlags::default());
    assert!(flags.contains(0));
    assert!(!flags.intersects(0xffff_ffff));
    flags.insert(SpdmResponseCapabilityFlags::CERT_CAP | SpdmResponseCapabilityFlags::MEAS_CAP_SIG);
    assert_eq!(flags.bits(), 0x12);
    assert!(flags.contains(SpdmResponseCapabilityFlags::CERT_CAP));
    assert!(!flags.contains(SpdmResponseCapabilityFlags::MEAS_CAP));
    assert!(flags.intersects(SpdmResponseCapabilityFlags::MEAS_CAP));
    assert!(!flags.intersects(SpdmResponseCapabilityFlags::PSK_CAP));
    flags.remove(SpdmResponseCapabilityFlags::CERT_CAP | SpdmResponseCapabilityFlags::CHAL_CAP);
    assert_eq!(flags, SpdmResponseCapabilityFlags::from_bits(0x10));
    assert_eq!(SpdmResponseCapabilityFlags::MEAS_CAP, 0x18);
    assert_eq!(SpdmResponseCapabilityFlags::PSK_CAP, 0xc00);
    assert_eq!(SpdmRequestCapabilityFlags::HANDSHAKE_IN_THE_CLEAR_CAP, 0x8000);
    assert_eq!(SpdmRequestCapabilityFlags::ENCAP_CAP, 0x1000);
}

#[test]
fn only_versions_11_and_12_are_at_least_11() {
    assert!(!SpdmVersion::SpdmVersion10.at_least_11());
    assert!(SpdmVersion::SpdmVersion11.at_least_11());
    assert!(SpdmVersion::SpdmVersion12.at_least_11());
    assert!(!SpdmVersion::Unknown(0x13).at_least_11());
    assert!(!SpdmVersion::Unknown(0x00).at_least_11());
    assert_eq!(SpdmVersion::default(), SpdmVersion::SpdmVersion10);
}

#[test]
fn both_endpoints_must_advertise_what_both_must_have() {
    let mut negotiated = SpdmNegotiateInfo::default();
    assert_eq!(negotiated.spdm_version_sel, SpdmVersion::SpdmVersion10);
    assert_eq!(negotiated.req_data_transfer_size_sel, 0);
    assert!(!negotiated.handshake_in_the_clear());
    assert!(!negotiated.encap_supported());
    negotiated.req_capabilities_sel.insert(
        SpdmRequestCapabilityFlags::HANDSHAKE_IN_THE_CLEAR_CAP
            | SpdmRequestCapabilityFlags::ENCAP_CAP,
    );
    assert!(!negotiated.handshake_in_the_clear());
    assert!(!negotiated.encap_supported());
    negotiated.rsp_capabilities_sel.insert(SpdmResponseCapabilityFlags::ENCAP_CAP);
    assert!(!negotiated.handshake_in_the_clear());
    assert!(negotiated.encap_supported());
    negotiated
        .rsp_capabilities_sel
        .insert(SpdmResponseCapabilityFlags::HANDSHAKE_IN_THE_CLEAR_CAP);
    assert!(negotiated.handshake_in_the_clear());
    negotiated.req_capabilities_sel.remove(SpdmRequestCapabilityFlags::ENCAP_CAP);
    assert!(negotiated.handshake_in_the_clear());
    assert!(!negotiated.encap_supported());
}

#[test]
fn fresh_state_holds_nothing() {
    let runtime = SpdmRuntimeInfo::new();
    assert_eq!(runtime.get_connection_state(), SpdmConnectionState::SpdmConnectionNotStarted);
    assert_eq!(runtime.get_last_session_id(), None);
    assert_eq!(runtime.message_a.len() + runtime.message_b.len(), 0);
    assert_eq!(runtime.message_c.len() + runtime.message_m.len(), 0);
    let peer = SpdmPeerInfo::default();
    assert!(peer.peer_cert_chain_temp.is_none());
    assert!(peer.peer_cert_chain.iter().all(|chain| chain.is_none()));
    assert_eq!(
        SpdmEncapContext::default(),
        SpdmEncapContext { req_slot_id: 0, request_id: 0, encap_cert_size: 0 }
    );
}
