use xtb_client::channel::{DispatchOutcome, ReadOutcome, ResponseStreamStatus, TagRegistry};
use xtb_client::response::{InvalidFormatErrorInfo, ResponseInfo};

fn reply(tag: &str, n: u32) -> String {
    format!(r#"{{"status":true,"customTag":"{}","returnData":{}}}"#, tag, n)
}

fn data_of(info: &ResponseInfo) -> String {
    match info.value.get("returnData") {
        Some(xtb_client::json::Field::Raw(t)) => t.clone(),
        other => panic!("unexpected {:?}", other),
    }
}

#[test]
fn response_goes_only_to_its_own_channel() {
    let mut reg = TagRegistry::new();
    let (_s1, mut a) = reg.register("t1".to_string());
    let (_s2, mut b) = reg.register("t2".to_string());
    assert_eq!(reg.dispatch(&reply("t1", 1)), DispatchOutcome::Delivered);
    assert_eq!(a.queue_size(&reg), 1);
    assert_eq!(b.queue_size(&reg), 0);
    assert_eq!(b.status(&reg), ResponseStreamStatus::Pending);
    match a.read(&mut reg) {
        ReadOutcome::Item(info) => assert_eq!(info.custom_tag.as_deref(), Some("t1")),
        other => panic!("unexpected {:?}", other),
    }
    assert!(matches!(b.read(&mut reg), ReadOutcome::Pending));
}

#[test]
fn unroutable_responses_are_dropped() {
    let mut reg = TagRegistry::new();
    let (_s, stream) = reg.register("t1".to_string());
    assert_eq!(reg.dispatch(&reply("other", 1)), DispatchOutcome::Dropped);
    assert_eq!(reg.dispatch(r#"{"status":true}"#), DispatchOutcome::Dropped);
    assert_eq!(reg.dispatch(r#"{"status":true,"customTag":null}"#), DispatchOutcome::Dropped);
    assert_eq!(stream.queue_size(&reg), 0);
    assert_eq!(reg.len(), 1);
    assert_eq!(reg.dispatch(&reply("t1", 2)), DispatchOutcome::Delivered);
    assert_eq!(stream.queue_size(&reg), 1);
}

#[test]
fn first_returns_earliest_and_closes() {
    let mut reg = TagRegistry::new();
    let (mut sink, stream) = reg.register("t".to_string());
    reg.dispatch(&reply("t", 1));
    sink.write(&mut reg, ResponseInfo::decode(&reply("t", 2)).unwrap());
    assert_eq!(stream.status(&reg), ResponseStreamStatus::Ready);
    let first = stream.first(&mut reg).unwrap().expect("an item");
    assert_eq!(data_of(&first), "1");
    assert!(!reg.is_registered(&"t".to_string()));
    assert!(sink.closed(&reg));
    assert_eq!(sink.status(&reg), ResponseStreamStatus::Closed);
    sink.write(&mut reg, ResponseInfo::decode(&reply("t", 3)).unwrap());
    assert_eq!(reg.len(), 0);
    assert_eq!(reg.dispatch(&reply("t", 4)), DispatchOutcome::Dropped);
}

#[test]
fn read_after_close_is_empty() {
    let mut reg = TagRegistry::new();
    let (sink, mut stream) = reg.register("t".to_string());
    reg.dispatch(&reply("t", 1));
    sink.close(&mut reg);
    assert!(matches!(stream.read(&mut reg), ReadOutcome::Closed));
    assert!(matches!(stream.read(&mut reg), ReadOutcome::Closed));
    assert_eq!(stream.queue_size(&reg), 0);
    stream.close(&mut reg);
    assert_eq!(reg.len(), 0);
}

#[test]
fn first_on_empty_channel_hands_the_stream_back() {
    let mut reg = TagRegistry::new();
    let (_sink, stream) = reg.register("t".to_string());
    let stream = match stream.first(&mut reg) {
        Err(s) => s,
        Ok(r) => panic!("unexpected {:?}", r),
    };
    assert!(reg.is_registered(&"t".to_string()));
    reg.dispatch(&reply("t", 9));
    let item = stream.first(&mut reg).unwrap().unwrap();
    assert_eq!(data_of(&item), "9");
}

#[test]
fn responses_of_one_tag_keep_arrival_order() {
    let mut reg = TagRegistry::new();
    let (_sink, mut stream) = reg.register("t".to_string());
    for n in 0..4 {
        reg.dispatch(&reply("t", n));
    }
    for n in 0..4 {
        match stream.read(&mut reg) {
            ReadOutcome::Item(info) => assert_eq!(data_of(&info), n.to_string()),
            other => panic!("unexpected {:?}", other),
        }
    }
    assert!(matches!(stream.read(&mut reg), ReadOutcome::Pending));
}

#[test]
fn malformed_frames_are_skipped() {
    let mut reg = TagRegistry::new();
    let (_sink, stream) = reg.register("t".to_string());
    assert_eq!(reg.dispatch("{oops"), DispatchOutcome::Malformed(InvalidFormatErrorInfo::NotAnObject));
    assert_eq!(reg.dispatch(r#"{"customTag":"t"}"#), DispatchOutcome::Malformed(InvalidFormatErrorInfo::StatusFieldMissing));
    assert_eq!(reg.dispatch(r#"{"status":"ok","customTag":"t"}"#), DispatchOutcome::Malformed(InvalidFormatErrorInfo::InvalidStatusType));
    assert_eq!(reg.dispatch(r#"{"status":true,"customTag":1}"#), DispatchOutcome::Malformed(InvalidFormatErrorInfo::InvalidCustomTagType));
    assert_eq!(stream.queue_size(&reg), 0);
    assert_eq!(reg.dispatch(&reply("t", 5)), DispatchOutcome::Delivered);
    let item = stream.first(&mut reg).unwrap().unwrap();
    assert_eq!(data_of(&item), "5");
}

#[test]
fn many_requests_each_get_their_own_reply() {
    let mut reg = TagRegistry::new();
    let mut streams = Vec::new();
    for i in 0..8 {
        let (_sink, stream) = reg.register(format!("cmd_{}", i));
        streams.push(stream);
    }
    for i in (0..8).rev() {
        assert_eq!(reg.dispatch(&reply(&format!("cmd_{}", i), i)), DispatchOutcome::Delivered);
    }
    for (i, stream) in streams.into_iter().enumerate() {
        assert_eq!(stream.queue_size(&reg), 1);
        let item = stream.first(&mut reg).unwrap().unwrap();
        assert_eq!(item.custom_tag, Some(format!("cmd_{}", i)));
        assert_eq!(data_of(&item), i.to_string());
    }
    assert_eq!(reg.len(), 0);
}

#[test]
fn registering_a_tag_again_closes_the_earlier_channel() {
    let mut reg = TagRegistry::new();
    let (_s1, old) = reg.register("t".to_string());
    let (_s2, new) = reg.register("t".to_string());
    assert_eq!(reg.len(), 1);
    assert!(old.closed(&reg));
    reg.dispatch(&reply("t", 1));
    assert_eq!(old.queue_size(&reg), 0);
    assert_eq!(new.queue_size(&reg), 1);
    assert!(old.first(&mut reg).unwrap().is_none());
    assert!(reg.is_registered(&"t".to_string()));
}

#[test]
fn close_all_wakes_readers_with_nothing() {
    let mut reg = TagRegistry::new();
    let (_s1, a) = reg.register("a".to_string());
    let (_s2, b) = reg.register("b".to_string());
    reg.close_all();
    assert_eq!(reg.len(), 0);
    assert!(a.first(&mut reg).unwrap().is_none());
    assert_eq!(b.status(&reg), ResponseStreamStatus::Closed);
}
