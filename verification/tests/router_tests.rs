use media_pull_core::router::{Notification, RouterState};

fn feed(st: &mut RouterState, line: &str) -> Option<Notification> {
    st.route_line(line)
}

#[test]
fn progress_events_forwarded_in_order_then_result() {
    let mut st = RouterState::new();
    let mut notes: Vec<Notification> = Vec::new();
    for i in 0..500 {
        let line = format!(r#"{{"event":"progress","stage":"step-{}","percent":{}}}"#, i, i);
        if let Some(n) = feed(&mut st, &line) {
            notes.push(n);
        }
    }
    if let Some(n) = feed(&mut st, r#"{"event":"result","data":{"ok":true}}"#) {
        panic!("a terminal event must not be forwarded, got {:?}", n);
    }
    assert_eq!(notes.len(), 500);
    for (i, n) in notes.iter().enumerate() {
        match n {
            Notification::Progress(p) => assert_eq!(p.stage, format!("step-{}", i)),
            other => panic!("expected progress, got {:?}", other),
        }
    }
    let out = st.finish("download", "/tmp", &Vec::new());
    let expected: serde_json::Value = serde_json::from_str(r#"{"ok":true}"#).unwrap();
    assert_eq!(out.unwrap(), expected);
}

#[test]
fn raw_line_becomes_one_debug_log_and_outcome_unaffected() {
    let mut st = RouterState::new();
    if let Some(n) = feed(&mut st, r#"{"event":"result","data":7}"#) {
        panic!("unexpected notification {:?}", n);
    }
    let note = feed(&mut st, "yt-dlp: merging formats");
    match note {
        Some(Notification::Log(l)) => {
            assert_eq!(l.level, "debug");
            assert_eq!(l.message, "yt-dlp: merging formats");
        }
        other => panic!("expected one debug log, got {:?}", other),
    }
    let out = st.finish("download", "/tmp", &Vec::new());
    assert_eq!(out.unwrap(), serde_json::Value::from(7));
}

#[test]
fn result_then_error_fails_with_the_error() {
    let mut st = RouterState::new();
    feed(&mut st, r#"{"event":"result","data":1}"#);
    feed(&mut st, r#"{"event":"error","code":"network","message":"timed out"}"#);
    let out = st.finish("download", "/tmp", &Vec::new());
    assert_eq!(out.unwrap_err(), "network: timed out");
}

#[test]
fn error_then_result_succeeds_with_the_result() {
    let mut st = RouterState::new();
    feed(&mut st, r#"{"event":"error","code":"network","message":"timed out"}"#);
    feed(&mut st, r#"{"event":"result","data":1}"#);
    let out = st.finish("download", "/tmp", &Vec::new());
    assert_eq!(out.unwrap(), serde_json::Value::from(1));
}

#[test]
fn error_without_code_defaults_to_unknown() {
    let mut st = RouterState::new();
    feed(&mut st, r#"{"event":"error","message":"boom"}"#);
    let out = st.finish("download", "/tmp", &Vec::new());
    assert_eq!(out.unwrap_err(), "unknown: boom");
}

#[test]
fn no_terminal_event_fails_with_absent_result() {
    let mut st = RouterState::new();
    feed(&mut st, r#"{"event":"progress","percent":50}"#);
    feed(&mut st, r#"{"event":"log","message":"working"}"#);
    let out = st.finish("download", "/opt/app", &Vec::new());
    let msg = out.unwrap_err();
    assert!(!msg.is_empty());
    assert_eq!(
        msg,
        "Python module 'download' returned no result (PYTHONPATH=/opt/app)"
    );
}

#[test]
fn absent_result_carries_stderr_summary() {
    let mut st = RouterState::new();
    let stderr = vec![
        "".to_string(),
        "Traceback (most recent call last):".to_string(),
        "   ".to_string(),
        "ValueError: bad".to_string(),
    ];
    let out = st.finish("download", "/opt/app", &stderr);
    assert_eq!(
        out.unwrap_err(),
        "Python error: Traceback (most recent call last): | ValueError: bad"
    );
}

#[test]
fn error_without_message_resets_outcome() {
    let mut st = RouterState::new();
    feed(&mut st, r#"{"event":"error","message":"boom"}"#);
    feed(&mut st, r#"{"event":"error","code":"late"}"#);
    let out = st.finish("m", "p", &Vec::new());
    assert_eq!(out.unwrap_err(), "Python module 'm' returned no result (PYTHONPATH=p)");
}

#[test]
fn result_without_data_resets_outcome() {
    let mut st = RouterState::new();
    feed(&mut st, r#"{"event":"result","data":1}"#);
    feed(&mut st, r#"{"event":"result"}"#);
    let out = st.finish("m", "p", &Vec::new());
    assert_eq!(out.unwrap_err(), "Python module 'm' returned no result (PYTHONPATH=p)");
}

#[test]
fn blank_lines_produce_no_notification() {
    let mut st = RouterState::new();
    assert!(feed(&mut st, "").is_none());
    assert!(feed(&mut st, "  \t ").is_none());
}

#[test]
fn stderr_relog_trims_prefixes_and_skips_blanks() {
    let lines = vec![
        "  first warning  ".to_string(),
        "".to_string(),
        "second".to_string(),
        "   ".to_string(),
    ];
    let notes = media_pull_core::router::stderr_log_payloads(&lines);
    assert_eq!(notes.len(), 2);
    assert_eq!(notes[0].level, "debug");
    assert_eq!(notes[0].message, "[stderr] first warning");
    assert_eq!(notes[1].message, "[stderr] second");
}

#[test]
fn stderr_relog_caps_at_twenty_lines() {
    let lines: Vec<String> = (0..30).map(|i| format!("line {}", i)).collect();
    let notes = media_pull_core::router::stderr_log_payloads(&lines);
    assert_eq!(notes.len(), 20);
    assert_eq!(notes[19].message, "[stderr] line 19");
}
