use xtb_client::command::{ApiCommand, LoginArg, LoginArgs};
use xtb_client::error_code::XtbErrorCode;
use xtb_client::json::{Field, JsonObject};
use xtb_client::response::{InvalidFormatErrorInfo, ParseResponseError, ResponseInfo};

fn envelope(command: &str, tag: Option<&str>, args: Option<Field>) -> ApiCommand<Field> {
    ApiCommand::builder()
        .command(command.to_string())
        .custom_tag(tag.map(|t| t.to_string()))
        .arguments(args)
        .build()
}

#[test]
fn encode_omits_absent_parts() {
    let cmd = envelope("getVersion", None, None);
    assert_eq!(cmd.encode(), r#"{"command":"getVersion"}"#);
}

#[test]
fn encode_writes_parts_in_order() {
    let cmd = ApiCommand::builder()
        .command("getTrades".to_string())
        .arguments(Some(Field::Bool(true)))
        .custom_tag(Some("cmd_7".to_string()))
        .stream_session_id(Some("s1".to_string()))
        .build();
    assert_eq!(
        cmd.encode(),
        r#"{"command":"getTrades","streamSessionId":"s1","customTag":"cmd_7","arguments":true}"#
    );
}

#[test]
fn encode_escapes_strings() {
    let cmd = envelope("a\"b\\c", Some("t\n"), None);
    assert_eq!(cmd.encode(), r#"{"command":"a\"b\\c","customTag":"t\n"}"#);
}

#[test]
fn login_arguments_are_a_nested_object() {
    let arg = LoginArg::new("u1".to_string(), "p1".to_string());
    assert_eq!(arg.to_field(), Field::Raw(r#"{"userId":"u1","password":"p1"}"#.to_string()));
    let args = LoginArgs { user_id: "u2".to_string(), password: "x\"y".to_string() };
    assert_eq!(
        args.to_login_arg().to_field(),
        Field::Raw(r#"{"userId":"u2","password":"x\"y"}"#.to_string())
    );
}

#[test]
fn command_round_trip_keeps_name_and_tag() {
    let cmd = envelope("login", Some("cmd_1"), Some(Field::Raw(r#"{"userId":"u1"}"#.to_string())));
    let text = cmd.encode();
    let back = ApiCommand::decode(&text).expect("an envelope");
    assert_eq!(back.command, "login");
    assert_eq!(back.custom_tag.as_deref(), Some("cmd_1"));
    assert_eq!(back.stream_session_id, None);
    assert_eq!(back.arguments, Some(Field::Raw(r#"{"userId":"u1"}"#.to_string())));
}

#[test]
fn command_round_trip_with_text_arguments() {
    let cmd = envelope("ping", Some("tag \u{e9}"), Some(Field::Text("a\tb".to_string())));
    let back = ApiCommand::decode(&cmd.encode()).expect("an envelope");
    assert_eq!(back.command, "ping");
    assert_eq!(back.custom_tag.as_deref(), Some("tag \u{e9}"));
    assert_eq!(back.arguments, Some(Field::Text("a\tb".to_string())));
}

#[test]
fn decode_command_rejects_non_envelopes() {
    assert!(ApiCommand::decode("[1]").is_none());
    assert!(ApiCommand::decode(r#"{"command":3}"#).is_none());
    assert!(ApiCommand::decode(r#"{"command":"x","customTag":1}"#).is_none());
    let c = ApiCommand::decode(r#"{"command":"x","customTag":null}"#).expect("an envelope");
    assert_eq!(c.custom_tag, None);
}

#[test]
fn parse_object_reads_members() {
    let o = JsonObject::parse(r#"{"status":true,"returnData":{"a":[1,2]},"n":5,"s":"q\"","z":null}"#)
        .expect("an object");
    let mut expected = JsonObject::new();
    expected.push("n".to_string(), Field::Raw("5".to_string()));
    expected.push("returnData".to_string(), Field::Raw(r#"{"a":[1,2]}"#.to_string()));
    expected.push("s".to_string(), Field::Text("q\"".to_string()));
    expected.push("status".to_string(), Field::Bool(true));
    expected.push("z".to_string(), Field::Null);
    assert_eq!(o, expected);
    assert_eq!(o.get("s"), Some(&Field::Text("q\"".to_string())));
    assert_eq!(o.get("missing"), None);
}

#[test]
fn render_writes_object_text() {
    let mut o = JsonObject::new();
    assert_eq!(o.render(), "{}");
    o.push("a".to_string(), Field::Null);
    o.push("b".to_string(), Field::Bool(false));
    o.push("c".to_string(), Field::Raw("[1]".to_string()));
    assert_eq!(o.render(), r#"{"a":null,"b":false,"c":[1]}"#);
}

fn format_error(text: &str) -> InvalidFormatErrorInfo {
    match ResponseInfo::decode(text) {
        Err(ParseResponseError::InvalidDataFormat(e)) => e,
        other => panic!("expected a format error, got {:?}", other),
    }
}

#[test]
fn non_object_frames_are_malformed() {
    assert_eq!(format_error("not json"), InvalidFormatErrorInfo::NotAnObject);
    assert_eq!(format_error("[1,2]"), InvalidFormatErrorInfo::NotAnObject);
    assert_eq!(format_error("null"), InvalidFormatErrorInfo::NotAnObject);
    assert_eq!(format_error("\"status\""), InvalidFormatErrorInfo::NotAnObject);
    assert_eq!(format_error(""), InvalidFormatErrorInfo::NotAnObject);
}

#[test]
fn missing_status_is_reported() {
    assert_eq!(format_error(r#"{"customTag":"cmd_1"}"#), InvalidFormatErrorInfo::StatusFieldMissing);
}

#[test]
fn non_boolean_status_is_reported() {
    assert_eq!(format_error(r#"{"status":"true"}"#), InvalidFormatErrorInfo::InvalidStatusType);
    assert_eq!(format_error(r#"{"status":1}"#), InvalidFormatErrorInfo::InvalidStatusType);
    assert_eq!(format_error(r#"{"status":null}"#), InvalidFormatErrorInfo::InvalidStatusType);
}

#[test]
fn non_string_tag_is_reported() {
    assert_eq!(format_error(r#"{"status":true,"customTag":5}"#), InvalidFormatErrorInfo::InvalidCustomTagType);
    assert_eq!(format_error(r#"{"status":true,"customTag":{}}"#), InvalidFormatErrorInfo::InvalidCustomTagType);
}

#[test]
fn response_classification() {
    let info = ResponseInfo::decode(r#"{"status":false,"customTag":"cmd_3"}"#).unwrap();
    assert!(!info.status);
    assert_eq!(info.custom_tag.as_deref(), Some("cmd_3"));
    let info = ResponseInfo::decode(r#"{"status":true,"customTag":null}"#).unwrap();
    assert!(info.status);
    assert_eq!(info.custom_tag, None);
    let info = ResponseInfo::decode(r#"{"status":true}"#).unwrap();
    assert_eq!(info.custom_tag, None);
}

#[test]
fn success_record_is_read() {
    let info = ResponseInfo::decode(r#"{"status":true,"customTag":"t","returnData":{"x":1},"streamSessionId":"abc"}"#).unwrap();
    let success = info.into_result().unwrap().ok().expect("a success");
    assert_eq!(success.return_data, Some(Field::Raw(r#"{"x":1}"#.to_string())));
    assert_eq!(success.stream_session_id.as_deref(), Some("abc"));
    assert_eq!(success.custom_tag.as_deref(), Some("t"));
    let info = ResponseInfo::decode(r#"{"status":true,"returnData":null}"#).unwrap();
    let success = info.into_result().unwrap().ok().expect("a success");
    assert_eq!(success.return_data, None);
    assert_eq!(success.stream_session_id, None);
}

#[test]
fn bad_session_marker_is_a_deserialization_error() {
    let info = ResponseInfo::decode(r#"{"status":true,"streamSessionId":7}"#).unwrap();
    match info.into_result() {
        Err(ParseResponseError::DeserializationError(k)) => assert_eq!(k, "streamSessionId"),
        other => panic!("unexpected {:?}", other),
    }
}

#[test]
fn failure_record_is_read() {
    let info = ResponseInfo::decode(r#"{"status":false,"errorCode":"EX004","errorDescription":"no"}"#).unwrap();
    let failure = info.into_result().unwrap().err().expect("a failure");
    assert_eq!(failure.error_code, XtbErrorCode::EX004);
    assert_eq!(failure.error_description, "no");
}

#[test]
fn failure_with_unknown_code_is_a_deserialization_error() {
    let info = ResponseInfo::decode(r#"{"status":false,"errorCode":"ZZ999","errorDescription":"?"}"#).unwrap();
    match info.into_result() {
        Err(ParseResponseError::DeserializationError(k)) => assert_eq!(k, "errorCode"),
        other => panic!("unexpected {:?}", other),
    }
    let info = ResponseInfo::decode(r#"{"status":false,"errorDescription":"?"}"#).unwrap();
    match info.into_result() {
        Err(ParseResponseError::DeserializationError(k)) => assert_eq!(k, "errorCode"),
        other => panic!("unexpected {:?}", other),
    }
}

#[test]
fn failure_without_description_is_a_deserialization_error() {
    let info = ResponseInfo::decode(r#"{"status":false,"errorCode":"BE001"}"#).unwrap();
    match info.into_result() {
        Err(ParseResponseError::DeserializationError(k)) => assert_eq!(k, "errorDescription"),
        other => panic!("unexpected {:?}", other),
    }
}

#[test]
fn error_code_names() {
    assert_eq!(XtbErrorCode::from_name("BE118"), Some(XtbErrorCode::BE118));
    assert_eq!(XtbErrorCode::from_name("EX011"), Some(XtbErrorCode::EX011));
    assert_eq!(XtbErrorCode::BE099.name(), "BE099");
    assert_eq!(XtbErrorCode::from_name("be118"), None);
    assert_eq!(XtbErrorCode::from_name(""), None);
}
