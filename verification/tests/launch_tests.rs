use media_pull_core::launch::{
    build_worker_argv, find_python, python_candidates, python_parent_of, select_python_dir,
};
use media_pull_core::text::{is_blank, str_eq, trim_str, u32_to_string};

#[test]
fn interpreter_candidates_in_order() {
    let c = python_candidates();
    assert_eq!(
        c,
        vec![
            "/opt/homebrew/bin/python3",
            "/usr/local/bin/python3",
            "/usr/bin/python3"
        ]
    );
}

#[test]
fn find_python_picks_first_existing() {
    assert_eq!(find_python(&vec![true, true, true]), "/opt/homebrew/bin/python3");
    assert_eq!(find_python(&vec![false, true, true]), "/usr/local/bin/python3");
    assert_eq!(find_python(&vec![false, false, true]), "/usr/bin/python3");
}

#[test]
fn find_python_falls_back_to_search_path() {
    assert_eq!(find_python(&vec![false, false, false]), "python3");
}

#[test]
fn select_python_dir_picks_first_existing() {
    let candidates = vec![
        "/bundle/python".to_string(),
        "/bundle/_up_/python".to_string(),
        "/dev/tree/python".to_string(),
        "/cwd/python".to_string(),
    ];
    let dir = select_python_dir(&candidates, &vec![false, true, true, false]);
    assert_eq!(dir, "/bundle/_up_/python");
}

#[test]
fn select_python_dir_falls_back_to_bare_name() {
    let candidates = vec!["/a".to_string(), "/b".to_string()];
    assert_eq!(select_python_dir(&candidates, &vec![false, false]), "python");
}

#[test]
fn worker_argv_layout() {
    let args = vec!["run".to_string(), "--url".to_string(), "u".to_string()];
    let argv = build_worker_argv("download", &args);
    assert_eq!(argv, vec!["-m", "python.download", "run", "--url", "u"]);
}

#[test]
fn python_parent_of_directory() {
    assert_eq!(python_parent_of("/opt/app/python"), "/opt/app");
    assert_eq!(python_parent_of(""), ".");
}

#[test]
fn blank_and_trim_helpers() {
    assert!(is_blank(""));
    assert!(is_blank(" \t\r\n"));
    assert!(!is_blank(" x "));
    assert_eq!(trim_str("  x y  "), "x y");
    assert_eq!(trim_str("\t"), "");
    assert_eq!(trim_str("abc"), "abc");
}

#[test]
fn string_equality_helper() {
    assert!(str_eq("abc", "abc"));
    assert!(!str_eq("abc", "abd"));
    assert!(!str_eq("abc", "ab"));
}

#[test]
fn decimal_rendering() {
    assert_eq!(u32_to_string(0), "0");
    assert_eq!(u32_to_string(7), "7");
    assert_eq!(u32_to_string(3500), "3500");
    assert_eq!(u32_to_string(u32::MAX), "4294967295");
}
