//! Connection settings of a client, with the venue's real and demo presets.

use vstd::prelude::*;
pub use crate::config::XtbSupportedProtocol;
use crate::config::{
    demo_endpoint, demo_endpoint_text, demo_stream_endpoint, demo_stream_endpoint_text,
    real_endpoint, real_endpoint_text, real_stream_endpoint, real_stream_endpoint_text,
    venue_host, venue_host_text,
};

verus! {

/// Where both connections of a client lead.
pub struct XtbClientBuilder {
    pub protocol: XtbSupportedProtocol,
    pub host: String,
    pub api_endpoint: String,
    pub api_port: Option<u32>,
    pub stream_api_endpoint: String,
    pub stream_api_port: Option<u32>,
}

impl XtbClientBuilder {
    /// The settings of the real venue.
    pub fn new_real() -> (r: XtbClientBuilder)
        ensures
            r.protocol == XtbSupportedProtocol::WSS,
            r.host@ == venue_host(),
            r.api_endpoint@ == real_endpoint(),
            r.api_port is None,
            r.stream_api_endpoint@ == real_stream_endpoint(),
            r.stream_api_port is None,
    {
        XtbClientBuilder {
            protocol: XtbSupportedProtocol::WSS,
            host: venue_host_text(),
            api_endpoint: real_endpoint_text(),
            api_port: None,
            stream_api_endpoint: real_stream_endpoint_text(),
            stream_api_port: None,
        }
    }

    /// The settings of the demo venue.
    pub fn new_demo() -> (r: XtbClientBuilder)
        ensures
            r.protocol == XtbSupportedProtocol::WSS,
            r.host@ == venue_host(),
            r.api_endpoint@ == demo_endpoint(),
            r.api_port is None,
            r.stream_api_endpoint@ == demo_stream_endpoint(),
            r.stream_api_port is None,
    {
        XtbClientBuilder {
            api_endpoint: demo_endpoint_text(),
            stream_api_endpoint: demo_stream_endpoint_text(),
            ..XtbClientBuilder::default()
        }
    }
}

impl Default for XtbClientBuilder {
    /// The settings of the real venue.
    fn default() -> (r: XtbClientBuilder)
        ensures
            r.protocol == XtbSupportedProtocol::WSS,
            r.host@ == venue_host(),
            r.api_endpoint@ == real_endpoint(),
            r.api_port is None,
            r.stream_api_endpoint@ == real_stream_endpoint(),
            r.stream_api_port is None,
    {
        XtbClientBuilder::new_real()
    }
}

} // verus!
