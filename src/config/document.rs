//! The parts of the proxy's settings document: log level, DNS servers, one
//! trojan inbound over websocket, and one direct outbound.
use vstd::prelude::*;

verus! {

#[derive(Debug)]
pub struct Log {
    pub log_level: String,
}

#[derive(Debug)]
pub struct Dns {
    pub servers: Vec<String>,
}

#[derive(Debug)]
pub struct Client {
    pub password: String,
}

#[derive(Debug)]
pub struct InBoundSettings {
    pub clients: Vec<Client>,
}

#[derive(Debug)]
pub struct WsSettings {
    pub path: String,
}

#[derive(Debug)]
pub struct StreamSettings {
    pub network: String,
    pub ws_settings: WsSettings,
}

#[derive(Debug)]
pub struct Sniffing {
    pub enabled: bool,
    pub dest_override: Vec<String>,
}

#[derive(Debug)]
pub struct Inbound {
    pub port: i64,
    pub protocol: String,
    pub settings: InBoundSettings,
    pub stream_settings: StreamSettings,
    pub sniffing: Sniffing,
}

#[derive(Debug)]
pub struct OutBoundSettings {
    pub domain_strategy: String,
}

#[derive(Debug)]
pub struct Outbound {
    pub protocol: String,
    pub tag: String,
    pub settings: OutBoundSettings,
}

/// The inbound: trojan on port 7707 with one client whose password is
/// `password`, over websocket at `ws_path`, sniffing http, tls and quic.
pub open spec fn is_trojan_inbound(ib: Inbound, password: Seq<char>, ws_path: Seq<char>) -> bool {
    &&& ib.port == 7707
    &&& ib.protocol@ == "trojan"@
    &&& ib.settings.clients@.len() == 1
    &&& ib.settings.clients@[0].password@ == password
    &&& ib.stream_settings.network@ == "ws"@
    &&& ib.stream_settings.ws_settings.path@ == ws_path
    &&& ib.sniffing.enabled
    &&& ib.sniffing.dest_override@.len() == 3
    &&& ib.sniffing.dest_override@[0]@ == "http"@
    &&& ib.sniffing.dest_override@[1]@ == "tls"@
    &&& ib.sniffing.dest_override@[2]@ == "quic"@
}

/// The outbound: `freedom`, tagged `direct`, resolving to IPv4.
pub open spec fn is_direct_outbound(ob: Outbound) -> bool {
    &&& ob.protocol@ == "freedom"@
    &&& ob.tag@ == "direct"@
    &&& ob.settings.domain_strategy@ == "UseIPv4"@
}

/// A whole document: log level `info`, one DNS-over-HTTPS server, the one
/// trojan inbound and the one direct outbound.
pub open spec fn is_document(
    log: Log,
    dns: Dns,
    inbounds: Seq<Inbound>,
    outbounds: Seq<Outbound>,
    password: Seq<char>,
    ws_path: Seq<char>,
) -> bool {
    &&& log.log_level@ == "info"@
    &&& dns.servers@.len() == 1
    &&& dns.servers@[0]@ == "https+local://8.8.8.8/dns-query"@
    &&& inbounds.len() == 1
    &&& is_trojan_inbound(inbounds[0], password, ws_path)
    &&& outbounds.len() == 1
    &&& is_direct_outbound(outbounds[0])
}

/// The parts of a document for a client password and a websocket path.
pub fn document_parts(password: &str, ws_path: String) -> (r: (Log, Dns, Vec<Inbound>, Vec<Outbound>))
    ensures
        is_document(r.0, r.1, r.2@, r.3@, password@, ws_path@),
{
    let log = Log { log_level: String::from_str("info") };
    let dns = Dns { servers: vec![String::from_str("https+local://8.8.8.8/dns-query")] };
    let inbound = Inbound {
        port: 7707,
        protocol: String::from_str("trojan"),
        settings: InBoundSettings { clients: vec![Client { password: password.to_owned() }] },
        stream_settings: StreamSettings {
            network: String::from_str("ws"),
            ws_settings: WsSettings { path: ws_path },
        },
        sniffing: Sniffing {
            enabled: true,
            dest_override: vec![
                String::from_str("http"),
                String::from_str("tls"),
                String::from_str("quic"),
            ],
        },
    };
    let outbound = Outbound {
        protocol: String::from_str("freedom"),
        tag: String::from_str("direct"),
        settings: OutBoundSettings { domain_strategy: String::from_str("UseIPv4") },
    };
    (log, dns, vec![inbound], vec![outbound])
}

} // verus!
