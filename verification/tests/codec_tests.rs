use media_pull_core::codec::{decode_line, Decoded};

fn progress_of(line: &str) -> media_pull_core::codec::ProgressPayload {
    match decode_line(line) {
        Decoded::Progress(p) => p,
        other => panic!("expected a progress event, got {:?}", other),
    }
}

#[test]
fn progress_line_full() {
    let p = progress_of(
        r#"{"event":"progress","stage":"downloading","percent":42.5,"speed_mbps":3.25,"eta_seconds":10,"fps":30}"#,
    );
    assert_eq!(p.stage, "downloading");
    assert_eq!(p.percent, "42.5");
    assert_eq!(p.speed_mbps, "3.25");
    assert_eq!(p.eta_seconds, "10");
    assert_eq!(p.fps, "30");
}

#[test]
fn progress_line_defaults() {
    let p = progress_of(r#"{"event":"progress"}"#);
    assert_eq!(p.stage, "");
    assert_eq!(p.percent, "0");
    assert_eq!(p.speed_mbps, "0");
    assert_eq!(p.eta_seconds, "0");
    assert_eq!(p.fps, "0");
}

#[test]
fn progress_line_null_fields_default() {
    let p = progress_of(r#"{"event":"progress","stage":null,"percent":null}"#);
    assert_eq!(p.stage, "");
    assert_eq!(p.percent, "0");
}

#[test]
fn log_line_defaults_to_info() {
    match decode_line(r#"{"event":"log","message":"hello"}"#) {
        Decoded::Log(l) => {
            assert_eq!(l.level, "info");
            assert_eq!(l.message, "hello");
        }
        other => panic!("expected a log event, got {:?}", other),
    }
}

#[test]
fn log_line_passes_severity_through() {
    match decode_line(r#"{"event":"log","level":"warning","message":"careful"}"#) {
        Decoded::Log(l) => {
            assert_eq!(l.level, "warning");
            assert_eq!(l.message, "careful");
        }
        other => panic!("expected a log event, got {:?}", other),
    }
}

#[test]
fn result_line_carries_payload() {
    match decode_line(r#"{"event":"result","data":{"path":"/tmp/out.mp4"}}"#) {
        Decoded::ResultEvent(Some(v)) => {
            let expected: serde_json::Value =
                serde_json::from_str(r#"{"path":"/tmp/out.mp4"}"#).unwrap();
            assert_eq!(v, expected);
        }
        other => panic!("expected a result event with a payload, got {:?}", other),
    }
}

#[test]
fn result_line_without_data() {
    assert!(matches!(
        decode_line(r#"{"event":"result"}"#),
        Decoded::ResultEvent(None)
    ));
}

#[test]
fn result_line_with_null_data() {
    assert!(matches!(
        decode_line(r#"{"event":"result","data":null}"#),
        Decoded::ResultEvent(None)
    ));
}

#[test]
fn error_line_carries_code_and_message() {
    match decode_line(r#"{"event":"error","code":"network","message":"timed out"}"#) {
        Decoded::ErrorEvent { code, message } => {
            assert_eq!(code.as_deref(), Some("network"));
            assert_eq!(message.as_deref(), Some("timed out"));
        }
        other => panic!("expected an error event, got {:?}", other),
    }
}

#[test]
fn error_line_without_code() {
    match decode_line(r#"{"event":"error","message":"boom"}"#) {
        Decoded::ErrorEvent { code, message } => {
            assert_eq!(code, None);
            assert_eq!(message.as_deref(), Some("boom"));
        }
        other => panic!("expected an error event, got {:?}", other),
    }
}

#[test]
fn non_json_line_is_raw() {
    match decode_line("plain diagnostic text") {
        Decoded::Raw(s) => assert_eq!(s, "plain diagnostic text"),
        other => panic!("expected raw text, got {:?}", other),
    }
}

#[test]
fn non_object_json_line_is_raw() {
    assert!(matches!(decode_line("42"), Decoded::Raw(_)));
    assert!(matches!(decode_line(r#"[1,2]"#), Decoded::Raw(_)));
}

#[test]
fn missing_event_tag_is_raw() {
    assert!(matches!(decode_line(r#"{"stage":"x"}"#), Decoded::Raw(_)));
}

#[test]
fn non_string_event_tag_is_raw() {
    assert!(matches!(decode_line(r#"{"event":5}"#), Decoded::Raw(_)));
}

#[test]
fn unrecognized_tag_is_raw() {
    match decode_line(r#"{"event":"heartbeat"}"#) {
        Decoded::Raw(s) => assert_eq!(s, r#"{"event":"heartbeat"}"#),
        other => panic!("expected raw text, got {:?}", other),
    }
}

#[test]
fn wrongly_typed_field_is_raw() {
    // a progress percent that is a string does not fit the envelope shape
    assert!(matches!(
        decode_line(r#"{"event":"progress","percent":"high"}"#),
        Decoded::Raw(_)
    ));
}

#[test]
fn blank_lines_produce_nothing() {
    assert!(matches!(decode_line(""), Decoded::Blank));
    assert!(matches!(decode_line("   \t  "), Decoded::Blank));
}
