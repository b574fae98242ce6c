use xtb_client::channel::TagRegistry;
use xtb_client::command::ApiCommand;
use xtb_client::error_code::XtbErrorCode;
use xtb_client::json::Field;
use xtb_client::client::{XtbClient, XtbClientError};
use xtb_client::response::ParseResponseError;

fn answer(reg: &mut TagRegistry, frame: &str) {
    reg.dispatch(frame);
}

#[test]
fn scenario_login_success_stores_session_marker() {
    let mut reg = TagRegistry::new();
    let mut client = XtbClient::new();
    let (frame, stream) = client.login_request(&mut reg, "u1", "p1");
    assert_eq!(
        frame,
        r#"{"command":"login","customTag":"cmd_1","arguments":{"userId":"u1","password":"p1"}}"#
    );
    let sent = ApiCommand::decode(&frame).unwrap();
    assert_eq!(sent.custom_tag.as_deref(), Some("cmd_1"));
    answer(&mut reg, r#"{"status":true,"customTag":"cmd_1","streamSessionId":"abc"}"#);
    let reply = stream.first(&mut reg).unwrap();
    assert!(client.finish_login(reply).is_ok());
    assert_eq!(client.stream_session_id().as_deref(), Some("abc"));
    assert_eq!(reg.len(), 0);
}

#[test]
fn scenario_logout_failure_is_remote_command_failed() {
    let mut reg = TagRegistry::new();
    let mut client = XtbClient::new();
    let (_f, s) = client.login_request(&mut reg, "u1", "p1");
    s.close(&mut reg);
    let (frame, stream) = client.logout_request(&mut reg);
    assert_eq!(frame, r#"{"command":"logout","customTag":"cmd_2"}"#);
    answer(
        &mut reg,
        r#"{"status":false,"customTag":"cmd_2","errorCode":"BE118","errorDescription":"User already logged"}"#,
    );
    let reply = stream.first(&mut reg).unwrap();
    match client.finish_logout(reply) {
        Err(XtbClientError::CommandFailed(f)) => {
            assert_eq!(f.error_code, XtbErrorCode::BE118);
            assert_eq!(f.error_code.name(), "BE118");
            assert_eq!(f.error_description, "User already logged");
        }
        other => panic!("unexpected {:?}", other),
    }
}

#[test]
fn scenario_transport_closes_before_reply() {
    let mut reg = TagRegistry::new();
    let mut client = XtbClient::new();
    let (_frame, stream) = client.login_request(&mut reg, "u1", "p1");
    reg.close_all();
    let reply = stream.first(&mut reg).unwrap();
    assert!(reply.is_none());
    assert!(matches!(client.finish_login(reply), Err(XtbClientError::NoResponseReceived)));
    assert_eq!(client.stream_session_id(), None);
}

#[test]
fn login_success_without_marker_is_reported() {
    let mut reg = TagRegistry::new();
    let mut client = XtbClient::new();
    let (_frame, stream) = client.login_request(&mut reg, "u", "p");
    answer(&mut reg, r#"{"status":true,"customTag":"cmd_1"}"#);
    let reply = stream.first(&mut reg).unwrap();
    assert!(matches!(client.finish_login(reply), Err(XtbClientError::MissingSessionMarker)));
    assert_eq!(client.stream_session_id(), None);
}

#[test]
fn login_failure_is_remote_command_failed() {
    let mut reg = TagRegistry::new();
    let mut client = XtbClient::new();
    let (_frame, stream) = client.login_request(&mut reg, "u", "p");
    answer(&mut reg, r#"{"status":false,"customTag":"cmd_1","errorCode":"BE005","errorDescription":"bad"}"#);
    match client.finish_login(stream.first(&mut reg).unwrap()) {
        Err(XtbClientError::CommandFailed(f)) => assert_eq!(f.error_code, XtbErrorCode::BE005),
        other => panic!("unexpected {:?}", other),
    }
}

#[test]
fn undecodable_reply_is_a_parse_error() {
    let mut reg = TagRegistry::new();
    let mut client = XtbClient::new();
    let (_frame, stream) = client.logout_request(&mut reg);
    answer(&mut reg, r#"{"status":false,"customTag":"cmd_1","errorCode":"NOPE","errorDescription":"?"}"#);
    match client.finish_logout(stream.first(&mut reg).unwrap()) {
        Err(XtbClientError::ParseResponseError(ParseResponseError::DeserializationError(k))) => {
            assert_eq!(k, "errorCode")
        }
        other => panic!("unexpected {:?}", other),
    }
}

#[test]
fn tags_count_up_from_one() {
    let mut reg = TagRegistry::new();
    let mut client = XtbClient::new();
    let mut tags = Vec::new();
    for _ in 0..11 {
        let (frame, _stream) = client.send_api_command(&mut reg, "ping", None, false);
        tags.push(ApiCommand::decode(&frame).unwrap().custom_tag.unwrap());
    }
    assert_eq!(tags[0], "cmd_1");
    assert_eq!(tags[9], "cmd_10");
    assert_eq!(tags[10], "cmd_11");
    assert_eq!(reg.len(), 11);
    assert!(client.can_send());
}

#[test]
fn session_scoped_request_carries_marker() {
    let mut reg = TagRegistry::new();
    let mut client = XtbClient::new();
    let (_f, stream) = client.login_request(&mut reg, "u", "p");
    answer(&mut reg, r#"{"status":true,"customTag":"cmd_1","streamSessionId":"S9"}"#);
    client.finish_login(stream.first(&mut reg).unwrap()).unwrap();
    let (frame, _s) = client.send_api_command(&mut reg, "getBalance", None, true);
    assert_eq!(frame, r#"{"command":"getBalance","streamSessionId":"S9","customTag":"cmd_2"}"#);
    let (frame, _s) = client.send_api_command(&mut reg, "getVersion", Some(Field::Raw("{}".to_string())), false);
    assert_eq!(frame, r#"{"command":"getVersion","customTag":"cmd_3","arguments":{}}"#);
}

#[test]
fn invoke_returns_the_success_record() {
    let mut reg = TagRegistry::new();
    let mut client = XtbClient::new();
    let (_f, stream) = client.send_api_command(&mut reg, "getVersion", None, false);
    answer(&mut reg, r#"{"status":true,"customTag":"cmd_1","returnData":{"version":"2.5"}}"#);
    let result = XtbClient::finish_invoke(stream.first(&mut reg).unwrap()).unwrap();
    let success = result.ok().unwrap();
    assert_eq!(success.return_data, Some(Field::Raw(r#"{"version":"2.5"}"#.to_string())));
    assert!(matches!(XtbClient::finish_invoke(None), Err(XtbClientError::NoResponseReceived)));
}
