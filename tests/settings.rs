use xtb_client::builder;
use xtb_client::client::{XtbClientBuilder, XtbClientBuilderError};
use xtb_client::config::{XtbClientConfig, XtbSupportedProtocol};

#[test]
fn protocol_scheme() {
    assert_eq!(XtbSupportedProtocol::WSS.to_string(), "wss");
}

#[test]
fn config_presets() {
    let real = XtbClientConfig::new_real();
    assert_eq!(real.host, "ws.xtb.com");
    assert_eq!(real.api_endpoint, "/real");
    assert_eq!(real.stream_api_endpoint, "/realStream");
    assert_eq!(real.user_id, "");
    let demo = XtbClientConfig::new_demo();
    assert_eq!(demo.api_endpoint, "/demo");
    assert_eq!(demo.stream_api_endpoint, "/demoStream");
    assert_eq!(demo.api_port, None);
}

#[test]
fn connection_spec_addresses() {
    let mut demo = XtbClientConfig::new_demo();
    assert_eq!(demo.make_api_connection_spec().url(), "wss://ws.xtb.com/demo");
    demo.stream_api_port = Some(5125);
    let spec = demo.make_stream_api_connection_spec();
    assert_eq!(spec.url(), "wss://ws.xtb.com:5125/demoStream");
    let uri = spec.into_uri().expect("a uri");
    assert_eq!(uri.to_string(), "wss://ws.xtb.com:5125/demoStream");
    demo.host = "bad host".to_string();
    assert!(demo.make_api_connection_spec().into_uri().is_none());
}

#[test]
fn builder_presets() {
    let real = builder::XtbClientBuilder::new_real();
    assert_eq!(real.api_endpoint, "/real");
    assert_eq!(real.stream_api_endpoint, "/realStream");
    assert_eq!(real.protocol, builder::XtbSupportedProtocol::WSS);
    let demo = builder::XtbClientBuilder::new_demo();
    assert_eq!(demo.host, "ws.xtb.com");
    assert_eq!(demo.api_endpoint, "/demo");
    assert_eq!(demo.stream_api_port, None);
}

#[test]
fn client_builder_urls() {
    let b = XtbClientBuilder::default().xtb_demo();
    let (api, stream) = b.urls();
    assert_eq!(api, "wss://ws.xtb.com/demo");
    assert_eq!(stream, "wss://ws.xtb.com/demoStream");
    let b = XtbClientBuilder::default().xtb_real().port(Some(443)).protocol(Some("ws".to_string()));
    let (api, stream) = b.urls();
    assert_eq!(api, "ws://ws.xtb.com:443/real");
    assert_eq!(stream, "ws://ws.xtb.com:443/realStream");
    let (a, s) = b.endpoints().expect("two urls");
    assert_eq!(a.as_str(), "ws://ws.xtb.com:443/real");
    assert_eq!(s.as_str(), "ws://ws.xtb.com:443/realStream");
}

#[test]
fn client_builder_rejects_bad_url() {
    let b = XtbClientBuilder::default()
        .protocol(Some("ht tp".to_string()))
        .host("x".to_string())
        .api_endpoint("/a".to_string())
        .stream_api_endpoint("/b".to_string());
    assert_eq!(b.endpoints().err(), Some(XtbClientBuilderError::InvalidUrl("ht tp://x/a".to_string())));
}
