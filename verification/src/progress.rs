//! The shared progress cell: exact byte counts instead of a floating ratio,
//! and the status title with its two fixed values.

use vstd::prelude::*;

verus! {

/// Download progress as exact byte counts: `downloaded` bytes received so far
/// and `total` bytes the server declared (`0` when it declared none). The
/// fraction a renderer displays is the ratio of the two; keeping the counts
/// exact makes the ratio well defined even when the total is unknown.
#[derive(Clone, Copy, PartialEq, Eq, Debug)]
pub struct Progress {
    pub downloaded: u64,
    pub total: u64,
}

/// Numerator of the displayed fraction: zero when the total is unknown,
/// otherwise the bytes downloaded so far.
pub open spec fn ratio_num(p: Progress) -> int {
    if p.total == 0 {
        0
    } else {
        p.downloaded as int
    }
}

/// Denominator of the displayed fraction: one when the total is unknown,
/// otherwise the total. Always positive, so the fraction is defined for
/// every progress value.
pub open spec fn ratio_den(p: Progress) -> int {
    if p.total == 0 {
        1
    } else {
        p.total as int
    }
}

/// The displayed fraction lies between zero and one.
pub open spec fn in_unit_interval(p: Progress) -> bool {
    0 <= ratio_num(p) <= ratio_den(p)
}

/// With an unknown (zero) total the fraction is still defined: denominator
/// one, value zero, inside the unit interval. Nothing a renderer divides by
/// can be zero.
pub proof fn lemma_unknown_total_defined(downloaded: u64)
    ensures
        ratio_den(Progress { downloaded, total: 0 }) == 1,
        ratio_num(Progress { downloaded, total: 0 }) == 0,
        in_unit_interval(Progress { downloaded, total: 0 }),
{
}

impl Progress {
    /// Progress before anything is known: nothing downloaded, no declared
    /// total.
    pub fn new() -> (p: Progress)
        ensures
            p == (Progress { downloaded: 0, total: 0 }),
    {
        Progress { downloaded: 0, total: 0 }
    }

    /// Numerator and denominator of the fraction to display, for a renderer
    /// to divide. The denominator is never zero.
    pub fn fraction_parts(&self) -> (r: (u64, u64))
        ensures
            r.0 as int == ratio_num(*self),
            r.1 as int == ratio_den(*self),
    {
        if self.total == 0 {
            (0, 1)
        } else {
            (self.downloaded, self.total)
        }
    }
}

/// The title shown while the download runs.
pub open spec fn initial_title() -> Seq<char> {
    "Downloading update..."@
}

/// The title shown once the download has fully succeeded.
pub open spec fn completed_title() -> Seq<char> {
    "Update completed! Launching KrampUI in 3 seconds..."@
}

/// The one record the downloader and the render loop share. The downloader
/// writes it under a lock; the render loop only reads it. The title ever
/// holds one of exactly two strings: the initial one, and the completion one
/// written once on success.
pub struct SharedProgress {
    pub progress: Progress,
    pub title: String,
}

impl SharedProgress {
    /// The cell as it exists at startup: no progress, initial title.
    pub fn new() -> (s: SharedProgress)
        ensures
            s.progress == (Progress { downloaded: 0, total: 0 }),
            s.title@ == initial_title(),
    {
        SharedProgress { progress: Progress::new(), title: "Downloading update...".to_string() }
    }

    /// Replace the published byte counts; the title is untouched.
    pub fn set_progress(&mut self, downloaded: u64, total: u64)
        ensures
            final(self).progress == (Progress { downloaded, total }),
            final(self).title == old(self).title,
    {
        self.progress = Progress { downloaded, total };
    }

    /// Publish the completion title; the byte counts are untouched.
    pub fn mark_completed(&mut self)
        ensures
            final(self).title@ == completed_title(),
            final(self).progress == old(self).progress,
    {
        self.title = "Update completed! Launching KrampUI in 3 seconds...".to_string();
    }

    /// The current title, for a render loop to put on the window.
    pub fn title_str(&self) -> (r: &str)
        ensures
            r@ == self.title@,
    {
        self.title.as_str()
    }
}

} // verus!
