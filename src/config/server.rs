//! The settings document in its plain form, with the share path as given.
use vstd::prelude::*;

use crate::config::document::{document_parts, is_document, Dns, Inbound, Log, Outbound};

verus! {

/// The settings document with the websocket path taken as it is.
#[derive(Debug)]
pub struct ServerConfig {
    pub log: Log,
    pub dns: Dns,
    pub inbounds: Vec<Inbound>,
    pub outbounds: Vec<Outbound>,
}

impl ServerConfig {
    /// The document whose one client authenticates with `uuid` and whose
    /// websocket listens at `path`.
    pub fn new(uuid: &str, path: &str) -> (r: ServerConfig)
        ensures
            is_document(r.log, r.dns, r.inbounds@, r.outbounds@, uuid@, path@),
    {
        let (log, dns, inbounds, outbounds) = document_parts(uuid, path.to_owned());
        ServerConfig { log, dns, inbounds, outbounds }
    }
}

} // verus!
