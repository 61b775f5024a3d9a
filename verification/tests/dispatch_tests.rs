use media_pull_core::dispatch::{
    build_download_args, chapters_json_exec, is_number_text, json_string_exec, per_res_json_exec,
    ChapterRequest, DownloadRequest,
};

fn minimal_request() -> DownloadRequest {
    DownloadRequest {
        url: "https://example.test/v".to_string(),
        quality: "1080p".to_string(),
        output_dir: "/downloads".to_string(),
        audio_only: false,
        sponsorblock: false,
        trim_start: None,
        trim_end: None,
        cookies_browser: None,
        cookies_profile: None,
        bitrate_mode: None,
        custom_bitrate: None,
        per_resolution: None,
        chapters: None,
    }
}

#[test]
fn minimal_request_args() {
    let args = build_download_args(&minimal_request());
    assert_eq!(
        args,
        vec![
            "run",
            "--url",
            "https://example.test/v",
            "--quality",
            "1080p",
            "--output-dir",
            "/downloads"
        ]
    );
}

#[test]
fn sponsorblock_flag_present_without_chapters() {
    let mut req = minimal_request();
    req.sponsorblock = true;
    let args = build_download_args(&req);
    assert!(args.iter().any(|a| a == "--sponsorblock"));
}

#[test]
fn chapters_suppress_sponsorblock() {
    let mut with_flag = minimal_request();
    with_flag.sponsorblock = true;
    with_flag.chapters = Some(vec![ChapterRequest {
        title: "Intro".to_string(),
        start_time: "0".to_string(),
        end_time: "12.5".to_string(),
    }]);
    let mut without_flag = with_flag.clone();
    without_flag.sponsorblock = false;
    let a1 = build_download_args(&with_flag);
    let a2 = build_download_args(&without_flag);
    assert!(!a1.iter().any(|a| a == "--sponsorblock"));
    assert_eq!(a1, a2);
}

#[test]
fn empty_chapter_list_does_not_suppress_sponsorblock() {
    let mut req = minimal_request();
    req.sponsorblock = true;
    req.chapters = Some(Vec::new());
    let args = build_download_args(&req);
    assert!(args.iter().any(|a| a == "--sponsorblock"));
    assert!(!args.iter().any(|a| a == "--chapters"));
}

#[test]
fn chapters_rendered_as_json_array() {
    let chapters = vec![
        ChapterRequest {
            title: "Intro".to_string(),
            start_time: "0".to_string(),
            end_time: "12.5".to_string(),
        },
        ChapterRequest {
            title: "Main".to_string(),
            start_time: "12.5".to_string(),
            end_time: "96".to_string(),
        },
    ];
    let rendered = chapters_json_exec(&chapters);
    assert_eq!(
        rendered,
        r#"[{"title":"Intro","start_time":0,"end_time":12.5},{"title":"Main","start_time":12.5,"end_time":96}]"#
    );
    // the rendered text is valid JSON with the same content
    let parsed: serde_json::Value = serde_json::from_str(&rendered).unwrap();
    assert_eq!(parsed[1]["title"], serde_json::Value::from("Main"));
    assert_eq!(parsed[0]["end_time"], serde_json::Value::from(12.5));
}

#[test]
fn chapter_args_in_request() {
    let mut req = minimal_request();
    req.chapters = Some(vec![ChapterRequest {
        title: "A".to_string(),
        start_time: "1".to_string(),
        end_time: "2".to_string(),
    }]);
    let args = build_download_args(&req);
    let pos = args.iter().position(|a| a == "--chapters").unwrap();
    assert_eq!(args[pos + 1], r#"[{"title":"A","start_time":1,"end_time":2}]"#);
}

#[test]
fn invalid_chapter_time_dispatched_as_null() {
    let mut req = minimal_request();
    req.sponsorblock = true;
    req.chapters = Some(vec![ChapterRequest {
        title: "A".to_string(),
        start_time: "12..5".to_string(),
        end_time: "2".to_string(),
    }]);
    let args = build_download_args(&req);
    // the list is still dispatched, the unrepresentable time as null
    let pos = args.iter().position(|a| a == "--chapters").unwrap();
    assert_eq!(args[pos + 1], r#"[{"title":"A","start_time":null,"end_time":2}]"#);
    assert!(serde_json::from_str::<serde_json::Value>(&args[pos + 1]).is_ok());
    // the non-empty list still counts as chapters for the SponsorBlock rule
    assert!(!args.iter().any(|a| a == "--sponsorblock"));
}

#[test]
fn json_string_escaping() {
    assert_eq!(json_string_exec("plain"), r#""plain""#);
    assert_eq!(json_string_exec("a\"b"), r#""a\"b""#);
    assert_eq!(json_string_exec("a\\b"), r#""a\\b""#);
    assert_eq!(json_string_exec("a\nb\tc"), r#""a\nb\tc""#);
    assert_eq!(json_string_exec("x\u{1}y"), r#""x\u0001y""#);
    assert_eq!(json_string_exec("x\u{1f}y"), r#""x\u001fy""#);
    // serde_json renders strings the same way
    let expected = serde_json::Value::from("a\"b\\c\nd\u{1}").to_string();
    assert_eq!(json_string_exec("a\"b\\c\nd\u{1}"), expected);
}

#[test]
fn per_resolution_map_rendered_as_json_object() {
    let m = vec![("1080p".to_string(), 5000u32), ("720p".to_string(), 2500u32)];
    assert_eq!(per_res_json_exec(&m), r#"{"1080p":5000,"720p":2500}"#);
    let parsed: serde_json::Value = serde_json::from_str(&per_res_json_exec(&m)).unwrap();
    assert_eq!(parsed["720p"], serde_json::Value::from(2500));
}

#[test]
fn per_resolution_and_bitrate_args() {
    let mut req = minimal_request();
    req.custom_bitrate = Some(3500);
    req.per_resolution = Some(vec![("720p".to_string(), 2500u32)]);
    let args = build_download_args(&req);
    let pos = args.iter().position(|a| a == "--custom-bitrate").unwrap();
    assert_eq!(args[pos + 1], "3500");
    let pos2 = args.iter().position(|a| a == "--per-res-bitrates").unwrap();
    assert_eq!(args[pos2 + 1], r#"{"720p":2500}"#);
}

#[test]
fn optional_flags_in_order() {
    let mut req = minimal_request();
    req.audio_only = true;
    req.trim_start = Some("00:10".to_string());
    req.trim_end = Some("01:00".to_string());
    req.cookies_browser = Some("firefox".to_string());
    req.cookies_profile = Some("default".to_string());
    req.bitrate_mode = Some("custom".to_string());
    let args = build_download_args(&req);
    assert_eq!(
        args,
        vec![
            "run",
            "--url",
            "https://example.test/v",
            "--quality",
            "1080p",
            "--output-dir",
            "/downloads",
            "--audio-only",
            "--trim-start",
            "00:10",
            "--trim-end",
            "01:00",
            "--cookies-browser",
            "firefox",
            "--cookies-profile",
            "default",
            "--bitrate-mode",
            "custom"
        ]
    );
}

#[test]
fn json_number_grammar() {
    for ok in ["0", "-0", "7", "42", "12.5", "-3.25", "1e3", "1E3", "2e-7", "6.02e+23"] {
        assert!(is_number_text(ok), "{} should be accepted", ok);
    }
    for bad in ["", "-", "01", "1.", ".5", "1e", "1e+", "+1", "1.2.3", "NaN", "inf", " 1", "1 "] {
        assert!(!is_number_text(bad), "{} should be rejected", bad);
    }
}
