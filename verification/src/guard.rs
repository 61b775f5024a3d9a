//! Concurrency guard for the guarded operation class (downloads): a single
//! flag enforcing that at most one long-running invocation is in flight.
//!
//! The host keeps one `DownloadState` per operation class; every dispatch of
//! a guarded operation must acquire the flag before spawning a worker and
//! release it on every exit path (success, worker-reported error, spawn
//! failure, cancellation).

use vstd::prelude::*;
use crate::codec::LogPayload;

verus! {

/// Flag value after an acquisition attempt: the flag is set whether or not
/// the attempt was granted (a granted attempt sets it, a refused one finds
/// it already set).
pub open spec fn acquire_next(busy: bool) -> bool {
    true
}

/// Whether an acquisition attempt is granted when the flag reads `busy`.
pub open spec fn acquire_grants(busy: bool) -> bool {
    !busy
}

/// Flag value after a release: always clear, releasing is idempotent.
pub open spec fn release_next(busy: bool) -> bool {
    false
}

/// Shared bookkeeping for the guarded operation class: "an operation of this
/// class is currently running". The host wraps it in its own mutual-exclusion
/// primitive; the core only defines the transitions.
pub struct DownloadState {
    pub is_downloading: bool,
}

impl DownloadState {
    /// A fresh guard: nothing in flight.
    pub fn new() -> (s: Self)
        ensures
            !s.is_downloading,
    {
        DownloadState { is_downloading: false }
    }

    /// Atomically check and set the flag. Returns `true` (and sets the flag)
    /// only when no invocation was in flight; returns `false` with no side
    /// effect otherwise.
    pub fn try_acquire(&mut self) -> (granted: bool)
        ensures
            granted == acquire_grants(old(self).is_downloading),
            final(self).is_downloading == acquire_next(old(self).is_downloading),
    {
        if self.is_downloading {
            false
        } else {
            self.is_downloading = true;
            true
        }
    }

    /// Clear the flag. Always succeeds; idempotent.
    pub fn release(&mut self)
        ensures
            final(self).is_downloading == release_next(old(self).is_downloading),
    {
        self.is_downloading = false;
    }

    /// Gate a new download: reject with the "already in progress" error while
    /// a prior invocation is still in flight, otherwise mark the class busy.
    /// On rejection the flag is untouched and no worker may be spawned.
    pub fn try_begin_download(&mut self) -> (r: Result<(), String>)
        ensures
            old(self).is_downloading ==> r is Err
                && r->Err_0@ == "A download is already in progress"@
                && final(self).is_downloading,
            !old(self).is_downloading ==> r is Ok && final(self).is_downloading,
    {
        if self.try_acquire() {
            Ok(())
        } else {
            Err("A download is already in progress".to_owned())
        }
    }

    /// Conclude a cancellation, after the host has killed and reaped
    /// whatever process was referenced (a cancel with nothing in flight is a
    /// no-op, not an error): the flag ends clear either way, and the warning
    /// log to broadcast to subscribers is produced.
    pub fn finish_cancel(&mut self) -> (note: LogPayload)
        ensures
            !final(self).is_downloading,
            note.level@ == "warning"@,
            note.message@ == "Download cancelled by user"@,
    {
        self.is_downloading = false;
        LogPayload {
            level: "warning".to_owned(),
            message: "Download cancelled by user".to_owned(),
        }
    }
}

impl Default for DownloadState {
    /// Same as `new`: nothing in flight.
    fn default() -> (s: Self)
        ensures
            !s.is_downloading,
    {
        DownloadState::new()
    }
}

/// Law: starting idle, two acquisitions with no intervening release are
/// granted then refused, and after a release an acquisition is granted again.
pub proof fn lemma_guard_single_flight(busy0: bool)
    requires
        !busy0,
    ensures
        ({
            let busy1 = acquire_next(busy0);
            let busy2 = acquire_next(busy1);
            acquire_grants(busy0) && !acquire_grants(busy1) && acquire_grants(
                release_next(busy2),
            )
        }),
{
}

} // verus!
