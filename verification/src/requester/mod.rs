//! The requester, as far as a responder's peer is exercised: vendor-defined
//! requests and the answers to them.

pub mod vendor_req;

use crate::common::{spec_is_fresh, SpdmConfigInfo, SpdmContext, SpdmProvisionInfo};
use vstd::prelude::*;

verus! {

/// The requester's view of one connection.
pub struct RequesterContext {
    /// The state of the endpoint.
    pub common: SpdmContext,
}

impl RequesterContext {
    /// A requester on which nothing was exchanged.
    pub fn new(config_info: SpdmConfigInfo, provision_info: SpdmProvisionInfo) -> (r: Self)
        ensures
            r.common.config_info == config_info,
            r.common.provision_info == provision_info,
            spec_is_fresh(&r.common, Seq::<u8>::empty()),
    {
        RequesterContext { common: SpdmContext::new(config_info, provision_info) }
    }
}

} // verus!
