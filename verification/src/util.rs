//! Ready-made configurations of a requester and a responder for the
//! ECDSA P-384 and RSA 3072 test identities, from the certificates of the
//! identity in DER: the root, the intermediate and the leaf.

use crate::codec::{Codec, Reader, Writer};
use crate::common::{
    spec_is_fresh, SpdmConfigInfo, SpdmContext, SpdmNegotiateInfo, SpdmProvisionInfo,
    DMTF_SECURE_SPDM_VERSION_10, DMTF_SECURE_SPDM_VERSION_11,
};
use crate::config::{
    HEARTBEAT_PERIOD, MAX_SPDM_CERT_CHAIN_DATA_SIZE, MAX_SPDM_MSG_SIZE, SPDM_MAX_HASH_SIZE,
    SPDM_MAX_SLOT_NUMBER,
};
use crate::protocol::{
    spec_cert_chain_buffer, SpdmAeadAlgo, SpdmBaseAsymAlgo, SpdmBaseHashAlgo, SpdmCertChainBuffer,
    SpdmCertChainData, SpdmDheAlgo, SpdmKeyScheduleAlgo, SpdmMeasurementHashAlgo,
    SpdmMeasurementSpecification, SpdmOpaqueSupport, SpdmReqAsymAlgo, SpdmRequestCapabilityFlags,
    SpdmResponseCapabilityFlags, SpdmVersion,
};
use vstd::prelude::*;

verus! {

/// Whether `p` holds the chain `chain` in slot 0 if one is given, no chain
/// in any other slot, no chain in wire form, and the peer's root `root` if
/// one is given.
pub open spec fn spec_provisioned(
    p: &SpdmProvisionInfo,
    chain: Option<Seq<u8>>,
    root: Option<Seq<u8>>,
) -> bool {
    &&& match chain {
        Some(bytes) => p.my_cert_chain_data@[0] matches Some(d) && d@ == bytes,
        None => p.my_cert_chain_data@[0] is None,
    }
    &&& forall|i: int| 1 <= i < SPDM_MAX_SLOT_NUMBER ==> p.my_cert_chain_data@[i] is None
    &&& forall|i: int| 0 <= i < SPDM_MAX_SLOT_NUMBER ==> p.my_cert_chain@[i] is None
    &&& match root {
        Some(bytes) => p.peer_root_cert_data matches Some(d) && d@ == bytes,
        None => p.peer_root_cert_data is None,
    }
}

/// The capabilities of the endpoint that `create_info` configures, as
/// responder.
pub open spec fn spec_create_info_rsp_capabilities() -> u32 {
    SpdmResponseCapabilityFlags::CERT_CAP | SpdmResponseCapabilityFlags::CHAL_CAP
        | SpdmResponseCapabilityFlags::MEAS_CAP_SIG | SpdmResponseCapabilityFlags::MEAS_FRESH_CAP
        | SpdmResponseCapabilityFlags::ENCRYPT_CAP | SpdmResponseCapabilityFlags::MAC_CAP
        | SpdmResponseCapabilityFlags::KEY_EX_CAP
        | SpdmResponseCapabilityFlags::PSK_CAP_WITH_CONTEXT
        | SpdmResponseCapabilityFlags::ENCAP_CAP | SpdmResponseCapabilityFlags::HBEAT_CAP
        | SpdmResponseCapabilityFlags::KEY_UPD_CAP | SpdmResponseCapabilityFlags::MUT_AUTH_CAP
}

/// The capabilities of the endpoint that `create_info` configures, as
/// requester.
pub open spec fn spec_create_info_req_capabilities() -> u32 {
    SpdmRequestCapabilityFlags::CERT_CAP | SpdmRequestCapabilityFlags::ENCRYPT_CAP
        | SpdmRequestCapabilityFlags::MAC_CAP | SpdmRequestCapabilityFlags::KEY_EX_CAP
        | SpdmRequestCapabilityFlags::ENCAP_CAP | SpdmRequestCapabilityFlags::HBEAT_CAP
        | SpdmRequestCapabilityFlags::KEY_UPD_CAP | SpdmRequestCapabilityFlags::MUT_AUTH_CAP
}

/// The configuration that `create_info` gives.
pub open spec fn spec_create_info_config() -> SpdmConfigInfo {
    SpdmConfigInfo {
        spdm_version: [
            SpdmVersion::SpdmVersion10,
            SpdmVersion::SpdmVersion11,
            SpdmVersion::SpdmVersion12,
        ],
        rsp_capabilities: SpdmResponseCapabilityFlags { bits: spec_create_info_rsp_capabilities() },
        req_capabilities: SpdmRequestCapabilityFlags { bits: spec_create_info_req_capabilities() },
        measurement_specification: SpdmMeasurementSpecification {
            bits: SpdmMeasurementSpecification::DMTF,
        },
        measurement_hash_algo: SpdmMeasurementHashAlgo {
            bits: SpdmMeasurementHashAlgo::TPM_ALG_SHA_384,
        },
        base_asym_algo: SpdmBaseAsymAlgo { bits: SpdmBaseAsymAlgo::TPM_ALG_ECDSA_ECC_NIST_P384 },
        base_hash_algo: SpdmBaseHashAlgo { bits: SpdmBaseHashAlgo::TPM_ALG_SHA_384 },
        dhe_algo: SpdmDheAlgo { bits: SpdmDheAlgo::SECP_384_R1 },
        aead_algo: SpdmAeadAlgo { bits: SpdmAeadAlgo::AES_256_GCM },
        req_asym_algo: SpdmReqAsymAlgo { bits: SpdmReqAsymAlgo::TPM_ALG_RSAPSS_2048 },
        key_schedule_algo: SpdmKeyScheduleAlgo { bits: SpdmKeyScheduleAlgo::SPDM_KEY_SCHEDULE },
        opaque_support: SpdmOpaqueSupport { bits: SpdmOpaqueSupport::OPAQUE_DATA_FMT1 },
        data_transfer_size: 0x1200,
        max_spdm_msg_size: 0x1200,
        mut_auth: true,
        ..SpdmConfigInfo::spec_default()
    }
}

/// The capabilities of the requester that `req_create_info` configures.
pub open spec fn spec_req_create_info_capabilities(mut_auth: bool) -> u32 {
    let base = SpdmRequestCapabilityFlags::CERT_CAP | SpdmRequestCapabilityFlags::CHAL_CAP
        | SpdmRequestCapabilityFlags::ENCRYPT_CAP | SpdmRequestCapabilityFlags::MAC_CAP
        | SpdmRequestCapabilityFlags::KEY_EX_CAP | SpdmRequestCapabilityFlags::PSK_CAP
        | SpdmRequestCapabilityFlags::ENCAP_CAP | SpdmRequestCapabilityFlags::HBEAT_CAP
        | SpdmRequestCapabilityFlags::KEY_UPD_CAP;
    if mut_auth {
        base | SpdmRequestCapabilityFlags::MUT_AUTH_CAP
    } else {
        base
    }
}

/// The configuration that `req_create_info` gives.
pub open spec fn spec_req_create_info_config(use_ecdsa: bool, mut_auth: bool) -> SpdmConfigInfo {
    SpdmConfigInfo {
        spdm_version: [
            SpdmVersion::SpdmVersion10,
            SpdmVersion::SpdmVersion11,
            SpdmVersion::SpdmVersion12,
        ],
        req_capabilities: SpdmRequestCapabilityFlags {
            bits: spec_req_create_info_capabilities(mut_auth),
        },
        measurement_specification: SpdmMeasurementSpecification {
            bits: SpdmMeasurementSpecification::DMTF,
        },
        base_asym_algo: SpdmBaseAsymAlgo {
            bits: if use_ecdsa {
                SpdmBaseAsymAlgo::TPM_ALG_ECDSA_ECC_NIST_P384
            } else {
                SpdmBaseAsymAlgo::TPM_ALG_RSASSA_3072
            },
        },
        base_hash_algo: SpdmBaseHashAlgo { bits: SpdmBaseHashAlgo::TPM_ALG_SHA_384 },
        dhe_algo: SpdmDheAlgo { bits: SpdmDheAlgo::SECP_384_R1 },
        aead_algo: SpdmAeadAlgo { bits: SpdmAeadAlgo::AES_256_GCM },
        req_asym_algo: SpdmReqAsymAlgo {
            bits: if use_ecdsa {
                SpdmReqAsymAlgo::TPM_ALG_ECDSA_ECC_NIST_P384
            } else {
                SpdmReqAsymAlgo::TPM_ALG_RSASSA_3072
            },
        },
        key_schedule_algo: SpdmKeyScheduleAlgo { bits: SpdmKeyScheduleAlgo::SPDM_KEY_SCHEDULE },
        opaque_support: SpdmOpaqueSupport { bits: SpdmOpaqueSupport::OPAQUE_DATA_FMT1 },
        data_transfer_size: MAX_SPDM_MSG_SIZE as u32,
        max_spdm_msg_size: MAX_SPDM_MSG_SIZE as u32,
        mut_auth,
        ..SpdmConfigInfo::spec_default()
    }
}

/// The capabilities of the responder that `rsp_create_info` configures.
pub open spec fn spec_rsp_create_info_capabilities(mut_auth: bool) -> u32 {
    let base = SpdmResponseCapabilityFlags::CERT_CAP | SpdmResponseCapabilityFlags::CHAL_CAP
        | SpdmResponseCapabilityFlags::MEAS_CAP_SIG | SpdmResponseCapabilityFlags::MEAS_FRESH_CAP
        | SpdmResponseCapabilityFlags::ENCRYPT_CAP | SpdmResponseCapabilityFlags::MAC_CAP
        | SpdmResponseCapabilityFlags::KEY_EX_CAP
        | SpdmResponseCapabilityFlags::PSK_CAP_WITH_CONTEXT
        | SpdmResponseCapabilityFlags::ENCAP_CAP | SpdmResponseCapabilityFlags::HBEAT_CAP
        | SpdmResponseCapabilityFlags::KEY_UPD_CAP;
    if mut_auth {
        base | SpdmResponseCapabilityFlags::MUT_AUTH_CAP
    } else {
        base
    }
}

/// The configuration that `rsp_create_info` gives.
pub open spec fn spec_rsp_create_info_config(use_ecdsa: bool, mut_auth: bool) -> SpdmConfigInfo {
    SpdmConfigInfo {
        spdm_version: [
            SpdmVersion::SpdmVersion10,
            SpdmVersion::SpdmVersion11,
            SpdmVersion::SpdmVersion12,
        ],
        rsp_capabilities: SpdmResponseCapabilityFlags {
            bits: spec_rsp_create_info_capabilities(mut_auth),
        },
        measurement_specification: SpdmMeasurementSpecification {
            bits: SpdmMeasurementSpecification::DMTF,
        },
        measurement_hash_algo: SpdmMeasurementHashAlgo {
            bits: SpdmMeasurementHashAlgo::TPM_ALG_SHA_384,
        },
        base_asym_algo: SpdmBaseAsymAlgo {
            bits: if use_ecdsa {
                SpdmBaseAsymAlgo::TPM_ALG_ECDSA_ECC_NIST_P384
            } else {
                SpdmBaseAsymAlgo::TPM_ALG_RSASSA_3072
            },
        },
        base_hash_algo: SpdmBaseHashAlgo { bits: SpdmBaseHashAlgo::TPM_ALG_SHA_384 },
        dhe_algo: SpdmDheAlgo { bits: SpdmDheAlgo::SECP_384_R1 },
        aead_algo: SpdmAeadAlgo { bits: SpdmAeadAlgo::AES_256_GCM },
        req_asym_algo: SpdmReqAsymAlgo {
            bits: if use_ecdsa {
                SpdmReqAsymAlgo::TPM_ALG_ECDSA_ECC_NIST_P384
            } else {
                SpdmReqAsymAlgo::TPM_ALG_RSASSA_3072
            },
        },
        key_schedule_algo: SpdmKeyScheduleAlgo { bits: SpdmKeyScheduleAlgo::SPDM_KEY_SCHEDULE },
        opaque_support: SpdmOpaqueSupport { bits: SpdmOpaqueSupport::OPAQUE_DATA_FMT1 },
        data_transfer_size: MAX_SPDM_MSG_SIZE as u32,
        max_spdm_msg_size: MAX_SPDM_MSG_SIZE as u32,
        heartbeat_period: HEARTBEAT_PERIOD,
        secure_spdm_version: [DMTF_SECURE_SPDM_VERSION_10, DMTF_SECURE_SPDM_VERSION_11],
        mut_auth,
        ..SpdmConfigInfo::spec_default()
    }
}

/// The chain of the three certificates: root, intermediate, leaf.
fn build_cert_chain(ca_cert: &[u8], inter_cert: &[u8], leaf_cert: &[u8]) -> (chain:
    SpdmCertChainData)
    requires
        ca_cert@.len() + inter_cert@.len() + leaf_cert@.len() <= MAX_SPDM_CERT_CHAIN_DATA_SIZE,
    ensures
        chain@ == ca_cert@ + inter_cert@ + leaf_cert@,
{
    let mut chain = SpdmCertChainData::new();
    let _ = chain.append_message(ca_cert);
    let _ = chain.append_message(inter_cert);
    let _ = chain.append_message(leaf_cert);
    assert(chain@ =~= ca_cert@ + inter_cert@ + leaf_cert@);
    chain
}

/// The root certificate alone.
fn build_root(ca_cert: &[u8]) -> (root: SpdmCertChainData)
    requires
        ca_cert@.len() <= MAX_SPDM_CERT_CHAIN_DATA_SIZE,
    ensures
        root@ == ca_cert@,
{
    let mut root = SpdmCertChainData::new();
    let _ = root.append_message(ca_cert);
    assert(root@ =~= ca_cert@);
    root
}

/// The configuration and provisioning of an endpoint that can act as
/// requester and as responder with the ECDSA P-384 identity and runs mutual
/// authentication: its chain in slot 0, and its own root as the root it
/// trusts.
///
/// The three certificates together must fit a certificate chain.
pub fn create_info(ca_cert: &[u8], inter_cert: &[u8], leaf_cert: &[u8]) -> (out: (
    SpdmConfigInfo,
    SpdmProvisionInfo,
))
    requires
        ca_cert@.len() + inter_cert@.len() + leaf_cert@.len() <= MAX_SPDM_CERT_CHAIN_DATA_SIZE,
    ensures
        out.0 == spec_create_info_config(),
        spec_provisioned(
            &out.1,
            Some(ca_cert@ + inter_cert@ + leaf_cert@),
            Some(ca_cert@),
        ),
{
    let config_info = SpdmConfigInfo {
        spdm_version: [
            SpdmVersion::SpdmVersion10,
            SpdmVersion::SpdmVersion11,
            SpdmVersion::SpdmVersion12,
        ],
        rsp_capabilities: SpdmResponseCapabilityFlags::from_bits(
            SpdmResponseCapabilityFlags::CERT_CAP | SpdmResponseCapabilityFlags::CHAL_CAP
                | SpdmResponseCapabilityFlags::MEAS_CAP_SIG
                | SpdmResponseCapabilityFlags::MEAS_FRESH_CAP
                | SpdmResponseCapabilityFlags::ENCRYPT_CAP | SpdmResponseCapabilityFlags::MAC_CAP
                | SpdmResponseCapabilityFlags::KEY_EX_CAP
                | SpdmResponseCapabilityFlags::PSK_CAP_WITH_CONTEXT
                | SpdmResponseCapabilityFlags::ENCAP_CAP | SpdmResponseCapabilityFlags::HBEAT_CAP
                | SpdmResponseCapabilityFlags::KEY_UPD_CAP
                | SpdmResponseCapabilityFlags::MUT_AUTH_CAP,
        ),
        req_capabilities: SpdmRequestCapabilityFlags::from_bits(
            SpdmRequestCapabilityFlags::CERT_CAP | SpdmRequestCapabilityFlags::ENCRYPT_CAP
                | SpdmRequestCapabilityFlags::MAC_CAP | SpdmRequestCapabilityFlags::KEY_EX_CAP
                | SpdmRequestCapabilityFlags::ENCAP_CAP | SpdmRequestCapabilityFlags::HBEAT_CAP
                | SpdmRequestCapabilityFlags::KEY_UPD_CAP
                | SpdmRequestCapabilityFlags::MUT_AUTH_CAP,
        ),
        rsp_ct_exponent: 0,
        req_ct_exponent: 0,
        measurement_specification: SpdmMeasurementSpecification::from_bits(
            SpdmMeasurementSpecification::DMTF,
        ),
        measurement_hash_algo: SpdmMeasurementHashAlgo::from_bits(
            SpdmMeasurementHashAlgo::TPM_ALG_SHA_384,
        ),
        base_asym_algo: SpdmBaseAsymAlgo::from_bits(SpdmBaseAsymAlgo::TPM_ALG_ECDSA_ECC_NIST_P384),
        base_hash_algo: SpdmBaseHashAlgo::from_bits(SpdmBaseHashAlgo::TPM_ALG_SHA_384),
        dhe_algo: SpdmDheAlgo::from_bits(SpdmDheAlgo::SECP_384_R1),
        aead_algo: SpdmAeadAlgo::from_bits(SpdmAeadAlgo::AES_256_GCM),
        req_asym_algo: SpdmReqAsymAlgo::from_bits(SpdmReqAsymAlgo::TPM_ALG_RSAPSS_2048),
        key_schedule_algo: SpdmKeyScheduleAlgo::from_bits(SpdmKeyScheduleAlgo::SPDM_KEY_SCHEDULE),
        opaque_support: SpdmOpaqueSupport::from_bits(SpdmOpaqueSupport::OPAQUE_DATA_FMT1),
        data_transfer_size: 0x1200,
        max_spdm_msg_size: 0x1200,
        heartbeat_period: 0,
        secure_spdm_version: [0, 0],
        mut_auth: true,
    };
    let my_cert_chain_data = build_cert_chain(ca_cert, inter_cert, leaf_cert);
    let peer_root_cert_data = build_root(ca_cert);
    let provision_info = SpdmProvisionInfo {
        my_cert_chain_data: [Some(my_cert_chain_data), None, None, None, None, None, None, None],
        my_cert_chain: [None, None, None, None, None, None, None, None],
        peer_root_cert_data: Some(peer_root_cert_data),
    };
    (config_info, provision_info)
}

/// A fresh endpoint with the configuration and provisioning of
/// `create_info`, whose opaque data format is already selected.
///
/// The three certificates together must fit a certificate chain.
pub fn new_context(ca_cert: &[u8], inter_cert: &[u8], leaf_cert: &[u8]) -> (context: SpdmContext)
    requires
        ca_cert@.len() + inter_cert@.len() + leaf_cert@.len() <= MAX_SPDM_CERT_CHAIN_DATA_SIZE,
    ensures
        context.config_info == spec_create_info_config(),
        spec_provisioned(
            &context.provision_info,
            Some(ca_cert@ + inter_cert@ + leaf_cert@),
            Some(ca_cert@),
        ),
        spec_is_fresh(
            &(SpdmContext {
                negotiate_info: SpdmNegotiateInfo {
                    opaque_data_support: SpdmOpaqueSupport { bits: 0 },
                    ..context.negotiate_info
                },
                ..context
            }),
            Seq::<u8>::empty(),
        ),
        context.negotiate_info.opaque_data_support == (SpdmOpaqueSupport {
            bits: SpdmOpaqueSupport::OPAQUE_DATA_FMT1,
        }),
{
    let (config_info, provision_info) = create_info(ca_cert, inter_cert, leaf_cert);
    let mut context = SpdmContext::new(config_info, provision_info);
    context.negotiate_info.opaque_data_support = SpdmOpaqueSupport::from_bits(
        SpdmOpaqueSupport::OPAQUE_DATA_FMT1,
    );
    context
}

/// The configuration and provisioning of a requester with the ECDSA P-384
/// identity, or the RSA 3072 identity when `use_ecdsa` is false. It trusts
/// the root of its own identity. With mutual authentication it advertises
/// it and holds its chain in slot 0; without, it holds no chain.
///
/// The root must fit a certificate chain, and with mutual authentication
/// the three certificates together must.
pub fn req_create_info(
    ca_cert: &[u8],
    inter_cert: &[u8],
    leaf_cert: &[u8],
    use_ecdsa: bool,
    mut_auth: bool,
) -> (out: (SpdmConfigInfo, SpdmProvisionInfo))
    requires
        ca_cert@.len() <= MAX_SPDM_CERT_CHAIN_DATA_SIZE,
        mut_auth ==> ca_cert@.len() + inter_cert@.len() + leaf_cert@.len()
            <= MAX_SPDM_CERT_CHAIN_DATA_SIZE,
    ensures
        out.0 == spec_req_create_info_config(use_ecdsa, mut_auth),
        spec_provisioned(
            &out.1,
            if mut_auth {
                Some(ca_cert@ + inter_cert@ + leaf_cert@)
            } else {
                None
            },
            Some(ca_cert@),
        ),
{
    let req_capabilities = SpdmRequestCapabilityFlags::CERT_CAP
        | SpdmRequestCapabilityFlags::CHAL_CAP | SpdmRequestCapabilityFlags::ENCRYPT_CAP
        | SpdmRequestCapabilityFlags::MAC_CAP | SpdmRequestCapabilityFlags::KEY_EX_CAP
        | SpdmRequestCapabilityFlags::PSK_CAP | SpdmRequestCapabilityFlags::ENCAP_CAP
        | SpdmRequestCapabilityFlags::HBEAT_CAP | SpdmRequestCapabilityFlags::KEY_UPD_CAP;
    let req_capabilities = if mut_auth {
        req_capabilities | SpdmRequestCapabilityFlags::MUT_AUTH_CAP
    } else {
        req_capabilities
    };
    let config_info = SpdmConfigInfo {
        spdm_version: [
            SpdmVersion::SpdmVersion10,
            SpdmVersion::SpdmVersion11,
            SpdmVersion::SpdmVersion12,
        ],
        rsp_capabilities: SpdmResponseCapabilityFlags::empty(),
        req_capabilities: SpdmRequestCapabilityFlags::from_bits(req_capabilities),
        rsp_ct_exponent: 0,
        req_ct_exponent: 0,
        measurement_specification: SpdmMeasurementSpecification::from_bits(
            SpdmMeasurementSpecification::DMTF,
        ),
        measurement_hash_algo: SpdmMeasurementHashAlgo::empty(),
        base_asym_algo: if use_ecdsa {
            SpdmBaseAsymAlgo::from_bits(SpdmBaseAsymAlgo::TPM_ALG_ECDSA_ECC_NIST_P384)
        } else {
            SpdmBaseAsymAlgo::from_bits(SpdmBaseAsymAlgo::TPM_ALG_RSASSA_3072)
        },
        base_hash_algo: SpdmBaseHashAlgo::from_bits(SpdmBaseHashAlgo::TPM_ALG_SHA_384),
        dhe_algo: SpdmDheAlgo::from_bits(SpdmDheAlgo::SECP_384_R1),
        aead_algo: SpdmAeadAlgo::from_bits(SpdmAeadAlgo::AES_256_GCM),
        req_asym_algo: if use_ecdsa {
            SpdmReqAsymAlgo::from_bits(SpdmReqAsymAlgo::TPM_ALG_ECDSA_ECC_NIST_P384)
        } else {
            SpdmReqAsymAlgo::from_bits(SpdmReqAsymAlgo::TPM_ALG_RSASSA_3072)
        },
        key_schedule_algo: SpdmKeyScheduleAlgo::from_bits(SpdmKeyScheduleAlgo::SPDM_KEY_SCHEDULE),
        opaque_support: SpdmOpaqueSupport::from_bits(SpdmOpaqueSupport::OPAQUE_DATA_FMT1),
        data_transfer_size: MAX_SPDM_MSG_SIZE as u32,
        max_spdm_msg_size: MAX_SPDM_MSG_SIZE as u32,
        heartbeat_period: 0,
        secure_spdm_version: [0, 0],
        mut_auth,
    };
    let peer_root_cert_data = build_root(ca_cert);
    let provision_info = if mut_auth {
        let my_cert_chain_data = build_cert_chain(ca_cert, inter_cert, leaf_cert);
        SpdmProvisionInfo {
            my_cert_chain_data: [
                Some(my_cert_chain_data),
                None,
                None,
                None,
                None,
                None,
                None,
                None,
            ],
            my_cert_chain: [None, None, None, None, None, None, None, None],
            peer_root_cert_data: Some(peer_root_cert_data),
        }
    } else {
        SpdmProvisionInfo {
            my_cert_chain_data: [None, None, None, None, None, None, None, None],
            my_cert_chain: [None, None, None, None, None, None, None, None],
            peer_root_cert_data: Some(peer_root_cert_data),
        }
    };
    (config_info, provision_info)
}

/// The configuration and provisioning of a responder with the ECDSA P-384
/// identity, or the RSA 3072 identity when `use_ecdsa` is false. It holds
/// its chain in slot 0 and trusts no root. With mutual authentication it
/// advertises it and serves the encapsulated request flow.
///
/// The three certificates together must fit a certificate chain.
pub fn rsp_create_info(
    ca_cert: &[u8],
    inter_cert: &[u8],
    leaf_cert: &[u8],
    use_ecdsa: bool,
    mut_auth: bool,
) -> (out: (SpdmConfigInfo, SpdmProvisionInfo))
    requires
        ca_cert@.len() + inter_cert@.len() + leaf_cert@.len() <= MAX_SPDM_CERT_CHAIN_DATA_SIZE,
    ensures
        out.0 == spec_rsp_create_info_config(use_ecdsa, mut_auth),
        spec_provisioned(&out.1, Some(ca_cert@ + inter_cert@ + leaf_cert@), None),
{
    let rsp_capabilities = SpdmResponseCapabilityFlags::CERT_CAP
        | SpdmResponseCapabilityFlags::CHAL_CAP | SpdmResponseCapabilityFlags::MEAS_CAP_SIG
        | SpdmResponseCapabilityFlags::MEAS_FRESH_CAP | SpdmResponseCapabilityFlags::ENCRYPT_CAP
        | SpdmResponseCapabilityFlags::MAC_CAP | SpdmResponseCapabilityFlags::KEY_EX_CAP
        | SpdmResponseCapabilityFlags::PSK_CAP_WITH_CONTEXT
        | SpdmResponseCapabilityFlags::ENCAP_CAP | SpdmResponseCapabilityFlags::HBEAT_CAP
        | SpdmResponseCapabilityFlags::KEY_UPD_CAP;
    let rsp_capabilities = if mut_auth {
        rsp_capabilities | SpdmResponseCapabilityFlags::MUT_AUTH_CAP
    } else {
        rsp_capabilities
    };
    let config_info = SpdmConfigInfo {
        spdm_version: [
            SpdmVersion::SpdmVersion10,
            SpdmVersion::SpdmVersion11,
            SpdmVersion::SpdmVersion12,
        ],
        rsp_capabilities: SpdmResponseCapabilityFlags::from_bits(rsp_capabilities),
        req_capabilities: SpdmRequestCapabilityFlags::empty(),
        rsp_ct_exponent: 0,
        req_ct_exponent: 0,
        measurement_specification: SpdmMeasurementSpecification::from_bits(
            SpdmMeasurementSpecification::DMTF,
        ),
        measurement_hash_algo: SpdmMeasurementHashAlgo::from_bits(
            SpdmMeasurementHashAlgo::TPM_ALG_SHA_384,
        ),
        base_asym_algo: if use_ecdsa {
            SpdmBaseAsymAlgo::from_bits(SpdmBaseAsymAlgo::TPM_ALG_ECDSA_ECC_NIST_P384)
        } else {
            SpdmBaseAsymAlgo::from_bits(SpdmBaseAsymAlgo::TPM_ALG_RSASSA_3072)
        },
        base_hash_algo: SpdmBaseHashAlgo::from_bits(SpdmBaseHashAlgo::TPM_ALG_SHA_384),
        dhe_algo: SpdmDheAlgo::from_bits(SpdmDheAlgo::SECP_384_R1),
        aead_algo: SpdmAeadAlgo::from_bits(SpdmAeadAlgo::AES_256_GCM),
        req_asym_algo: if use_ecdsa {
            SpdmReqAsymAlgo::from_bits(SpdmReqAsymAlgo::TPM_ALG_ECDSA_ECC_NIST_P384)
        } else {
            SpdmReqAsymAlgo::from_bits(SpdmReqAsymAlgo::TPM_ALG_RSASSA_3072)
        },
        key_schedule_algo: SpdmKeyScheduleAlgo::from_bits(SpdmKeyScheduleAlgo::SPDM_KEY_SCHEDULE),
        opaque_support: SpdmOpaqueSupport::from_bits(SpdmOpaqueSupport::OPAQUE_DATA_FMT1),
        data_transfer_size: MAX_SPDM_MSG_SIZE as u32,
        max_spdm_msg_size: MAX_SPDM_MSG_SIZE as u32,
        heartbeat_period: HEARTBEAT_PERIOD,
        secure_spdm_version: [DMTF_SECURE_SPDM_VERSION_10, DMTF_SECURE_SPDM_VERSION_11],
        mut_auth,
    };
    let my_cert_chain_data = build_cert_chain(ca_cert, inter_cert, leaf_cert);
    let provision_info = SpdmProvisionInfo {
        my_cert_chain_data: [Some(my_cert_chain_data), None, None, None, None, None, None, None],
        my_cert_chain: [None, None, None, None, None, None, None, None],
        peer_root_cert_data: None,
    };
    (config_info, provision_info)
}

/// Sends a value through its wire format and back: the value is written
/// to a scratch buffer of 1000 bytes and read from it again.
///
/// The value must be canonical and its encoding must fit the buffer; then
/// what comes back is the value that went in.
pub fn new_spdm_message<T: Codec>(value: T) -> (out: T)
    requires
        T::spec_canonical(value@),
        T::spec_encode(value@).len() <= 1000,
    ensures
        out@ == value@,
{
    let mut u8_slice = [0u8; 1000];
    let mut writer = Writer::init(&mut u8_slice);
    let _ = value.encode(&mut writer);
    let written = writer.used_slice();
    let mut reader = Reader::init(written);
    proof {
        T::lemma_encode_read(value@, Seq::<u8>::empty());
        assert(T::spec_encode(value@) + Seq::<u8>::empty() =~= T::spec_encode(value@));
        assert(reader.remaining() =~= written@);
    }
    T::read(&mut reader).unwrap()
}

/// The responder's certificate chain in wire form: `cert_chain` under the
/// digest `root_cert_hash` of its root certificate, which the caller
/// computes over the certificate that `get_cert_from_cert_chain` finds at
/// index 0.
///
/// The chain must fit a certificate chain, and the digest must be no longer
/// than the largest digest.
pub fn get_rsp_cert_chain_buff(cert_chain: &[u8], root_cert_hash: &[u8]) -> (out:
    SpdmCertChainBuffer)
    requires
        cert_chain@.len() <= MAX_SPDM_CERT_CHAIN_DATA_SIZE,
        root_cert_hash@.len() <= SPDM_MAX_HASH_SIZE,
    ensures
        out@ == spec_cert_chain_buffer(cert_chain@, root_cert_hash@),
{
    SpdmCertChainBuffer::new(cert_chain, root_cert_hash).unwrap()
}

} // verus!
