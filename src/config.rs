//! Where the two connections of a client lead: the configuration, the
//! address of each connection, and its parsing as a URI.

use vstd::prelude::*;
use crate::text::{decimal, push_decimal};

verus! {

/// The transport protocols the client speaks.
#[derive(Clone, Copy, Debug, PartialEq, Eq, Structural)]
pub enum XtbSupportedProtocol {
    WSS,
}

/// The scheme of a protocol.
pub open spec fn protocol_name(p: XtbSupportedProtocol) -> Seq<char> {
    match p {
        XtbSupportedProtocol::WSS => seq!['w', 's', 's'],
    }
}

impl XtbSupportedProtocol {
    /// The scheme of the protocol.
    pub fn to_string(&self) -> (r: String)
        ensures
            r@ == protocol_name(*self),
    {
        proof {
            reveal_strlit("wss");
        }
        match self {
            XtbSupportedProtocol::WSS => "wss".to_owned(),
        }
    }
}

/// The address `protocol://host[:port]endpoint`.
pub open spec fn url_text(protocol: Seq<char>, host: Seq<char>, port: Option<u32>, endpoint: Seq<char>) -> Seq<char> {
    protocol + seq![':', '/', '/'] + host + match port {
        Some(p) => seq![':'] + decimal(p as nat),
        None => Seq::empty(),
    } + endpoint
}

/// Writes the address `protocol://host[:port]endpoint`.
pub fn format_url(protocol: &str, host: &str, port: Option<u32>, endpoint: &str) -> (r: String)
    ensures
        r@ == url_text(protocol@, host@, port, endpoint@),
{
    proof {
        reveal_strlit("://");
        reveal_strlit(":");
    }
    let mut out = protocol.to_owned();
    out.append("://");
    out.append(host);
    let ghost base = out@;
    match port {
        Some(p) => {
            out.append(":");
            push_decimal(&mut out, p as u64);
        },
        None => {},
    }
    let ghost with_port = out@;
    out.append(endpoint);
    proof {
        let suffix = match port {
            Some(p) => seq![':'] + decimal(p as nat),
            None => Seq::<char>::empty(),
        };
        assert(with_port =~= base + suffix);
        assert(out@ =~= url_text(protocol@, host@, port, endpoint@));
    }
    out
}

#[verifier::external_type_specification]
#[verifier::external_body]
pub struct ExUri(http::Uri);

/// Whether `text` is a URI, as the `http` crate reads one.
pub uninterp spec fn is_uri(text: Seq<char>) -> bool;

/// Relies on `http::Uri`'s `FromStr`: whether the text parses depends on the
/// text alone.
#[verifier::external_body]
fn parse_uri(text: &str) -> (r: Option<http::Uri>)
    ensures
        r is Some == is_uri(text@),
{
    text.parse::<http::Uri>().ok()
}

/// The configuration of a client: credentials and where both connections lead.
pub struct XtbClientConfig {
    pub user_id: String,
    pub password: String,
    pub protocol: XtbSupportedProtocol,
    pub host: String,
    pub api_endpoint: String,
    pub api_port: Option<u32>,
    pub stream_api_endpoint: String,
    pub stream_api_port: Option<u32>,
}

/// The default host of the venue.
pub open spec fn venue_host() -> Seq<char> {
    seq!['w', 's', '.', 'x', 't', 'b', '.', 'c', 'o', 'm']
}

/// The endpoint of the real command connection.
pub open spec fn real_endpoint() -> Seq<char> {
    seq!['/', 'r', 'e', 'a', 'l']
}

/// The endpoint of the real stream connection.
pub open spec fn real_stream_endpoint() -> Seq<char> {
    seq!['/', 'r', 'e', 'a', 'l', 'S', 't', 'r', 'e', 'a', 'm']
}

/// The endpoint of the demo command connection.
pub open spec fn demo_endpoint() -> Seq<char> {
    seq!['/', 'd', 'e', 'm', 'o']
}

/// The endpoint of the demo stream connection.
pub open spec fn demo_stream_endpoint() -> Seq<char> {
    seq!['/', 'd', 'e', 'm', 'o', 'S', 't', 'r', 'e', 'a', 'm']
}

pub fn venue_host_text() -> (r: String)
    ensures
        r@ == venue_host(),
{
    proof {
        reveal_strlit("ws.xtb.com");
    }
    "ws.xtb.com".to_owned()
}

pub fn real_endpoint_text() -> (r: String)
    ensures
        r@ == real_endpoint(),
{
    proof {
        reveal_strlit("/real");
    }
    "/real".to_owned()
}

pub fn real_stream_endpoint_text() -> (r: String)
    ensures
        r@ == real_stream_endpoint(),
{
    proof {
        reveal_strlit("/realStream");
    }
    "/realStream".to_owned()
}

pub fn demo_endpoint_text() -> (r: String)
    ensures
        r@ == demo_endpoint(),
{
    proof {
        reveal_strlit("/demo");
    }
    "/demo".to_owned()
}

pub fn demo_stream_endpoint_text() -> (r: String)
    ensures
        r@ == demo_stream_endpoint(),
{
    proof {
        reveal_strlit("/demoStream");
    }
    "/demoStream".to_owned()
}

impl XtbClientConfig {
    /// The configuration of the real venue, with empty credentials.
    pub fn new_real() -> (r: XtbClientConfig)
        ensures
            r.user_id@ == Seq::<char>::empty(),
            r.password@ == Seq::<char>::empty(),
            r.protocol == XtbSupportedProtocol::WSS,
            r.host@ == venue_host(),
            r.api_endpoint@ == real_endpoint(),
            r.api_port is None,
            r.stream_api_endpoint@ == real_stream_endpoint(),
            r.stream_api_port is None,
    {
        XtbClientConfig::default()
    }

    /// The configuration of the demo venue, with empty credentials.
    pub fn new_demo() -> (r: XtbClientConfig)
        ensures
            r.user_id@ == Seq::<char>::empty(),
            r.password@ == Seq::<char>::empty(),
            r.protocol == XtbSupportedProtocol::WSS,
            r.host@ == venue_host(),
            r.api_endpoint@ == demo_endpoint(),
            r.api_port is None,
            r.stream_api_endpoint@ == demo_stream_endpoint(),
            r.stream_api_port is None,
    {
        XtbClientConfig {
            api_endpoint: demo_endpoint_text(),
            stream_api_endpoint: demo_stream_endpoint_text(),
            ..XtbClientConfig::default()
        }
    }

    /// Where the command connection leads.
    pub fn make_api_connection_spec(&self) -> (r: ConnectionSpec)
        ensures
            r.protocol == self.protocol,
            r.host@ == self.host@,
            r.port == self.api_port,
            r.endpoint@ == self.api_endpoint@,
    {
        ConnectionSpec {
            protocol: self.protocol,
            host: self.host.clone(),
            port: self.api_port,
            endpoint: self.api_endpoint.clone(),
        }
    }

    /// Where the stream connection leads.
    pub fn make_stream_api_connection_spec(&self) -> (r: ConnectionSpec)
        ensures
            r.protocol == self.protocol,
            r.host@ == self.host@,
            r.port == self.stream_api_port,
            r.endpoint@ == self.stream_api_endpoint@,
    {
        ConnectionSpec {
            protocol: self.protocol,
            host: self.host.clone(),
            port: self.stream_api_port,
            endpoint: self.stream_api_endpoint.clone(),
        }
    }
}

impl Default for XtbClientConfig {
    fn default() -> (r: XtbClientConfig)
        ensures
            r.user_id@ == Seq::<char>::empty(),
            r.password@ == Seq::<char>::empty(),
            r.protocol == XtbSupportedProtocol::WSS,
            r.host@ == venue_host(),
            r.api_endpoint@ == real_endpoint(),
            r.api_port is None,
            r.stream_api_endpoint@ == real_stream_endpoint(),
            r.stream_api_port is None,
    {
        XtbClientConfig {
            user_id: String::new(),
            password: String::new(),
            protocol: XtbSupportedProtocol::WSS,
            host: venue_host_text(),
            api_endpoint: real_endpoint_text(),
            api_port: None,
            stream_api_endpoint: real_stream_endpoint_text(),
            stream_api_port: None,
        }
    }
}

/// Where one connection leads.
pub struct ConnectionSpec {
    pub protocol: XtbSupportedProtocol,
    pub host: String,
    pub endpoint: String,
    pub port: Option<u32>,
}

impl ConnectionSpec {
    /// The address of the connection.
    pub fn url(&self) -> (r: String)
        ensures
            r@ == url_text(protocol_name(self.protocol), self.host@, self.port, self.endpoint@),
    {
        let protocol = self.protocol.to_string();
        format_url(protocol.as_str(), self.host.as_str(), self.port, self.endpoint.as_str())
    }

    /// The address of the connection as a URI; `None` when it is not one.
    pub fn into_uri(self) -> (r: Option<http::Uri>)
        ensures
            r is Some == is_uri(url_text(protocol_name(self.protocol), self.host@, self.port, self.endpoint@)),
    {
        let text = self.url();
        parse_uri(text.as_str())
    }
}

} // verus!
