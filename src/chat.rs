//! De-duplication of chat commands that several workers relay.

use vstd::prelude::*;

verus! {

/// The fingerprints seen are forgotten after this many milliseconds.
pub const CHAT_WINDOW_MS: u64 = 15000;

/// The abstract state: the fingerprints of the current window and when the
/// window opened.
pub struct DedupView {
    pub seen: Seq<u64>,
    pub window_start: u64,
}

/// The current window has run out at time `now`.
pub open spec fn window_over(v: DedupView, now: u64) -> bool {
    now >= v.window_start && now - v.window_start >= CHAT_WINDOW_MS
}

/// The state after the window rolls over at time `now`, if it has run out.
pub open spec fn rolled(v: DedupView, now: u64) -> DedupView {
    if window_over(v, now) {
        DedupView { seen: Seq::empty(), window_start: now }
    } else {
        v
    }
}

/// Observing fingerprint `h` at `now`: the new state, and whether `h` is new
/// in the current window (and so is to be handled).
pub open spec fn observe(v: DedupView, h: u64, now: u64) -> (DedupView, bool) {
    let w = rolled(v, now);
    if w.seen.contains(h) {
        (w, false)
    } else {
        (DedupView { seen: w.seen.push(h), window_start: w.window_start }, true)
    }
}

/// The set of chat fingerprints handled in the current window.
#[derive(Clone, Debug)]
pub struct ChatDedup {
    handled: Vec<u64>,
    window_start: u64,
}

impl View for ChatDedup {
    type V = DedupView;

    closed spec fn view(&self) -> DedupView {
        DedupView { seen: self.handled@, window_start: self.window_start }
    }
}

impl ChatDedup {
    /// An empty set whose window opens at `now`.
    pub fn new(now: u64) -> (r: Self)
        ensures
            r@.seen == Seq::<u64>::empty(),
            r@.window_start == now,
    {
        Self { handled: Vec::new(), window_start: now }
    }

    /// Records fingerprint `hash` at time `now`; true when it had not been
    /// seen in the current window. A window older than `CHAT_WINDOW_MS` is
    /// cleared first.
    pub fn check_and_insert(&mut self, hash: u64, now: u64) -> (r: bool)
        ensures
            (final(self)@, r) == observe(old(self)@, hash, now),
    {
        if now >= self.window_start && now - self.window_start >= CHAT_WINDOW_MS {
            self.handled.clear();
            self.window_start = now;
        }
        assert(self@.seen =~= rolled(old(self)@, now).seen);
        let ghost w = self@;
        let n = self.handled.len();
        let mut i: usize = 0;
        while i < n
            invariant
                n == self.handled@.len(),
                i <= n,
                self@ == w,
                w == rolled(old(self)@, now),
                forall|j: int| 0 <= j < i ==> self.handled@[j] != hash,
            decreases n - i,
        {
            if self.handled[i] == hash {
                assert(w.seen[i as int] == hash);
                return false;
            }
            i = i + 1;
        }
        self.handled.push(hash);
        true
    }

    /// Forgets every fingerprint and opens a new window at `now`.
    pub fn clear(&mut self, now: u64)
        ensures
            final(self)@.seen == Seq::<u64>::empty(),
            final(self)@.window_start == now,
    {
        self.handled.clear();
        self.window_start = now;
    }
}

/// A fingerprint handled once is refused again within the same window, and
/// accepted again once the window has run out.
pub proof fn lemma_dedup_window(v: DedupView, h: u64, t1: u64, t2: u64)
    ensures
        ({
            let (v1, first) = observe(v, h, t1);
            let (_, second) = observe(v1, h, t2);
            &&& !window_over(v1, t2) ==> !second
            &&& window_over(v1, t2) ==> second
        }),
{
    let (v1, first) = observe(v, h, t1);
    let w = rolled(v, t1);
    if !w.seen.contains(h) {
        assert(v1.seen[v1.seen.len() - 1] == h);
    }
}

} // verus!
