use eg4_bridge::mqtt::{Message, MessageError, TargetInverter};

fn message(topic: &str) -> Message {
    Message { topic: topic.to_string(), retain: false, payload: String::new() }
}

#[test]
fn cmd_target_all() {
    assert!(matches!(message("all/read/inputs/1").cmd_target(), Ok(TargetInverter::All)));
}

#[test]
fn cmd_target_serial() {
    match message("DL00000001/set/ac_charge").cmd_target() {
        Ok(TargetInverter::Serial(s)) => assert_eq!(s.to_string(), "DL00000001"),
        other => panic!("unexpected {:?}", other),
    }
}

#[test]
fn cmd_target_without_slash_is_bad_topic() {
    assert!(matches!(message("DL00000001").cmd_target(), Err(MessageError::BadTopic)));
    assert!(matches!(message("").cmd_target(), Err(MessageError::BadTopic)));
}

#[test]
fn cmd_target_short_head_is_bad_serial() {
    assert!(matches!(message("abc/set/x").cmd_target(), Err(MessageError::BadSerial)));
    assert!(matches!(message("/set").cmd_target(), Err(MessageError::BadSerial)));
}
