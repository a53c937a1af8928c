//! The debounced process-presence detector.
//!
//! Enumerating the OS process table is comparatively expensive, so the
//! detector runs a fresh scan at most once per debounce window and hands
//! back the cached verdict in between.  The scan itself is passed in as a
//! closure: the detector decides when it runs, the surrounding process
//! decides how.  Matching a process image against the target keeps the
//! original behaviour: a substring test on the rendered path.

use vstd::prelude::*;
use vstd::string::StrSliceExecFns;

verus! {

/// The debounce window, in seconds: a fresh scan runs only when more than
/// this many seconds have passed since the last one.
pub const SCAN_DEBOUNCE_SECS: u64 = 10;

/// The process image name the detector looks for.
pub fn target_process_name() -> (r: &'static str)
    ensures
        r@ == "EscapeFromTarkov.exe"@,
{
    "EscapeFromTarkov.exe"
}

/// `needle` occurs in `hay` starting at position `i`.
pub open spec fn contains_at(hay: Seq<char>, needle: Seq<char>, i: int) -> bool {
    &&& 0 <= i
    &&& i + needle.len() <= hay.len()
    &&& hay.subrange(i, i + needle.len()) == needle
}

/// `needle` occurs somewhere in `hay`.
pub open spec fn seq_contains(hay: Seq<char>, needle: Seq<char>) -> bool {
    exists|i: int| contains_at(hay, needle, i)
}

/// Substring search: whether `needle` occurs anywhere in `hay`.
pub fn str_contains(hay: &str, needle: &str) -> (r: bool)
    ensures
        r == seq_contains(hay@, needle@),
{
    let n: usize = hay.unicode_len();
    let m: usize = needle.unicode_len();
    if m == 0 {
        proof {
            assert(hay@.subrange(0, 0) =~= needle@);
            assert(contains_at(hay@, needle@, 0));
        }
        return true;
    }
    if m > n {
        proof {
            assert(forall|i: int| !contains_at(hay@, needle@, i));
        }
        return false;
    }
    let mut i: usize = 0;
    while i <= n - m
        invariant
            hay@.len() == n,
            needle@.len() == m,
            1 <= m <= n,
            i <= n - m + 1,
            forall|k: int| 0 <= k < i ==> !contains_at(hay@, needle@, k),
        decreases n - m + 1 - i,
    {
        let mut j: usize = 0;
        let mut all_match = true;
        while j < m
            invariant
                hay@.len() == n,
                needle@.len() == m,
                1 <= m <= n,
                i + m <= n,
                j <= m,
                all_match ==> forall|k: int| 0 <= k < j ==> hay@[i + k] == needle@[k],
                !all_match ==> !contains_at(hay@, needle@, i as int),
            decreases m - j,
        {
            if all_match {
                let hc: char = hay.get_char(i + j);
                let nc: char = needle.get_char(j);
                if hc != nc {
                    all_match = false;
                    proof {
                        assert(hay@.subrange(i as int, i + m)[j as int] == hay@[i + j]);
                        assert(!contains_at(hay@, needle@, i as int));
                    }
                }
            }
            j = j + 1;
        }
        if all_match {
            proof {
                assert(hay@.subrange(i as int, i + m) =~= needle@);
                assert(contains_at(hay@, needle@, i as int));
            }
            return true;
        }
        i = i + 1;
    }
    proof {
        assert(forall|k: int| contains_at(hay@, needle@, k) ==> 0 <= k < i);
    }
    false
}

/// Whether one rendered process-image path names the target executable.
pub fn path_names_target(path: &str) -> (r: bool)
    ensures
        r == seq_contains(path@, "EscapeFromTarkov.exe"@),
{
    str_contains(path, target_process_name())
}

/// The detector's state: when the last fresh scan ran, and what it found.
pub struct TarkovDetector {
    /// The second at which the last fresh scan ran.
    pub last_time: u64,
    /// The verdict of the last fresh scan; `false` until one has run.
    pub is_running: bool,
}

impl TarkovDetector {
    /// A fresh detector: nothing seen yet, the debounce window anchored at
    /// the given second.
    pub fn new(now: u64) -> (r: Self)
        ensures
            r.last_time == now,
            r.is_running == false,
    {
        TarkovDetector { last_time: now, is_running: false }
    }

    /// A call at second `now` runs a fresh scan exactly when more than the
    /// debounce window has passed since the last one.
    pub open spec fn scan_due(self, now: u64) -> bool {
        now > self.last_time + SCAN_DEBOUNCE_SECS
    }

    /// Polls the detector at second `now`.  Runs `scan` only when the
    /// debounce window has elapsed and caches what it reports; otherwise
    /// returns the cached verdict with the state untouched.
    pub fn tarkov_running<F: Fn() -> bool>(&mut self, now: u64, scan: F) -> (r: bool)
        requires
            call_requires(scan, ()),
        ensures
            r == final(self).is_running,
            !old(self).scan_due(now) ==> *final(self) == *old(self),
            old(self).scan_due(now) ==> final(self).last_time == now && call_ensures(
                scan,
                (),
                final(self).is_running,
            ),
    {
        if now > self.last_time && now - self.last_time > SCAN_DEBOUNCE_SECS {
            self.last_time = now;
            self.is_running = scan();
        }
        self.is_running
    }

    /// After a fresh scan at second `t`, every call within the debounce
    /// window returns the cached verdict with the state untouched: no scan
    /// runs until the window has passed.
    pub proof fn lemma_debounce(t: u64, found: bool, now: u64)
        requires
            now <= t + SCAN_DEBOUNCE_SECS,
        ensures
            !(TarkovDetector { last_time: t, is_running: found }).scan_due(now),
    {
    }
}

} // verus!
