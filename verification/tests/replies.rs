use fvad::{ConfigReply, FrameReply};

#[test]
fn config_reply_from_documented_codes() {
    assert_eq!(ConfigReply::from_code(0), Some(ConfigReply::Accepted));
    assert_eq!(ConfigReply::from_code(-1), Some(ConfigReply::Rejected));
}

#[test]
fn config_reply_from_any_other_code_is_none() {
    for code in [1, 2, -2, 255, i32::MAX, i32::MIN] {
        assert_eq!(ConfigReply::from_code(code), None);
    }
}

#[test]
fn config_reply_outcome() {
    assert_eq!(ConfigReply::Accepted.outcome(), Some(()));
    assert_eq!(ConfigReply::Rejected.outcome(), None);
}

#[test]
fn frame_reply_from_documented_codes() {
    assert_eq!(FrameReply::from_code(-1), Some(FrameReply::Rejected));
    assert_eq!(FrameReply::from_code(0), Some(FrameReply::NonVoice));
    assert_eq!(FrameReply::from_code(1), Some(FrameReply::Voice));
}

#[test]
fn frame_reply_from_any_other_code_is_none() {
    for code in [2, 3, -2, 255, i32::MAX, i32::MIN] {
        assert_eq!(FrameReply::from_code(code), None);
    }
}

#[test]
fn frame_reply_decision() {
    assert_eq!(FrameReply::Rejected.decision(), None);
    assert_eq!(FrameReply::NonVoice.decision(), Some(false));
    assert_eq!(FrameReply::Voice.decision(), Some(true));
}
