//! The settings document in the form the proxy binary reads.
use vstd::prelude::*;

use crate::config::document::{document_parts, is_document, Dns, Inbound, Log, Outbound};

verus! {

/// The proxy's settings document; its websocket path is the share path
/// with a leading `/`.
#[derive(Debug)]
pub struct XrayConfig {
    pub log: Log,
    pub dns: Dns,
    pub inbounds: Vec<Inbound>,
    pub outbounds: Vec<Outbound>,
}

impl XrayConfig {
    /// The document whose one client authenticates with `uuid` and whose
    /// websocket listens at `/` followed by `path`.
    pub fn new(uuid: &str, path: &str) -> (r: XrayConfig)
        ensures
            is_document(r.log, r.dns, r.inbounds@, r.outbounds@, uuid@, seq!['/'] + path@),
    {
        proof {
            reveal_strlit("/");
            assert("/"@ =~= seq!['/']);
        }
        let ws_path = String::from_str("/").concat(path);
        let (log, dns, inbounds, outbounds) = document_parts(uuid, ws_path);
        XrayConfig { log, dns, inbounds, outbounds }
    }
}

} // verus!
