use media_pull_core::guard::DownloadState;

#[test]
fn try_acquire_twice_then_release() {
    let mut g = DownloadState::new();
    assert!(g.try_acquire());
    assert!(!g.try_acquire());
    g.release();
    assert!(g.try_acquire());
}

#[test]
fn release_is_idempotent() {
    let mut g = DownloadState::new();
    g.release();
    g.release();
    assert!(!g.is_downloading);
    assert!(g.try_acquire());
}

#[test]
fn second_download_rejected_while_in_flight() {
    let mut g = DownloadState::default();
    assert!(g.try_begin_download().is_ok());
    // a second start while the first is still in flight is rejected before
    // anything is spawned, and the flag stays held by the first invocation
    let rejected = g.try_begin_download();
    assert_eq!(rejected.unwrap_err(), "A download is already in progress");
    assert!(g.is_downloading);
}

#[test]
fn cancel_with_nothing_in_flight_is_a_noop() {
    let mut g = DownloadState::new();
    let note = g.finish_cancel();
    assert!(!g.is_downloading);
    assert_eq!(note.level, "warning");
    assert_eq!(note.message, "Download cancelled by user");
}

#[test]
fn cancel_clears_the_flag_after_a_start() {
    let mut g = DownloadState::new();
    assert!(g.try_begin_download().is_ok());
    let _ = g.finish_cancel();
    assert!(!g.is_downloading);
    // a new download may start again
    assert!(g.try_begin_download().is_ok());
}
