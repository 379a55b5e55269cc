//! The sliding record of automatic reconnection attempts.
//!
//! Time is counted in whole seconds on a clock that the caller supplies. An
//! attempt is *stale* once it lies more than [`RECONNECT_WINDOW_SECS`] behind
//! the present; at most [`RECONNECT_LIMIT`] attempts are granted within one
//! window.

use vstd::prelude::*;

verus! {

/// Length of the window, in seconds.
pub const RECONNECT_WINDOW_SECS: u64 = 600;

/// Number of attempts that one window admits.
pub const RECONNECT_LIMIT: usize = 5;

/// Seconds that lie between `stamp` and `now`; a stamp from the future has
/// age zero.
pub open spec fn spec_age(stamp: u64, now: u64) -> int {
    if now >= stamp {
        now - stamp
    } else {
        0
    }
}

/// Whether an attempt made at `stamp` has left the window by `now`.
pub open spec fn spec_is_stale(stamp: u64, now: u64) -> bool {
    spec_age(stamp, now) > RECONNECT_WINDOW_SECS
}

/// Number of stale attempts at the front of `w`.
pub open spec fn spec_stale_prefix(w: Seq<u64>, now: u64) -> nat
    decreases w.len(),
{
    if w.len() > 0 && spec_is_stale(w[0], now) {
        1 + spec_stale_prefix(w.skip(1), now)
    } else {
        0
    }
}

/// The window after pruning: what is left once the stale attempts at its
/// front are discarded.
pub open spec fn spec_prune(w: Seq<u64>, now: u64) -> Seq<u64> {
    w.skip(spec_stale_prefix(w, now) as int)
}

/// Whether a reconnection attempt at `now` is refused.
pub open spec fn spec_refused(w: Seq<u64>, now: u64) -> bool {
    spec_prune(w, now).len() >= RECONNECT_LIMIT
}

/// The window after an attempt was asked for at `now`: pruned, and with `now`
/// appended where the attempt is granted.
pub open spec fn spec_after_attempt(w: Seq<u64>, now: u64) -> Seq<u64> {
    if spec_refused(w, now) {
        spec_prune(w, now)
    } else {
        spec_prune(w, now).push(now)
    }
}

/// Whether the stamps never decrease from front to back.
pub open spec fn spec_ordered(w: Seq<u64>) -> bool {
    forall|i: int, j: int| 0 <= i <= j < w.len() ==> w[i] <= w[j]
}

/// The stale prefix is a prefix of stale attempts, and the attempt behind it,
/// if there is one, is not stale.
pub proof fn lemma_stale_prefix(w: Seq<u64>, now: u64)
    ensures
        spec_stale_prefix(w, now) <= w.len(),
        forall|i: int| 0 <= i < spec_stale_prefix(w, now) ==> spec_is_stale(#[trigger] w[i], now),
        spec_stale_prefix(w, now) < w.len() ==> !spec_is_stale(
            w[spec_stale_prefix(w, now) as int],
            now,
        ),
    decreases w.len(),
{
    if w.len() > 0 && spec_is_stale(w[0], now) {
        let rest = w.skip(1);
        lemma_stale_prefix(rest, now);
        assert forall|i: int| 0 <= i < spec_stale_prefix(w, now) implies spec_is_stale(
            #[trigger] w[i],
            now,
        ) by {
            if i > 0 {
                assert(w[i] == rest[i - 1]);
            }
        }
    }
}

/// Pruning never lengthens the window, so it never leaves more than the limit
/// in a window that held no more; and an attempt is refused exactly when the
/// pruned window holds the limit already, in which case its oldest entry is at
/// most one window old.
pub proof fn lemma_reconnect_gate(w: Seq<u64>, now: u64)
    requires
        w.len() <= RECONNECT_LIMIT,
    ensures
        spec_prune(w, now).len() <= RECONNECT_LIMIT,
        spec_after_attempt(w, now).len() <= RECONNECT_LIMIT,
        spec_refused(w, now) <==> (spec_prune(w, now).len() == RECONNECT_LIMIT && spec_age(
            spec_prune(w, now)[0],
            now,
        ) <= RECONNECT_WINDOW_SECS),
        spec_prune(w, now).len() > 0 ==> spec_age(spec_prune(w, now)[0], now)
            <= RECONNECT_WINDOW_SECS,
{
    lemma_stale_prefix(w, now);
}

/// In a window whose stamps never decrease, pruning keeps exactly the
/// attempts that are not stale.
pub proof fn lemma_prune_ordered(w: Seq<u64>, now: u64)
    requires
        spec_ordered(w),
    ensures
        spec_prune(w, now) == w.filter(|t: u64| !spec_is_stale(t, now)),
        forall|i: int|
            0 <= i < spec_prune(w, now).len() ==> !spec_is_stale(
                #[trigger] spec_prune(w, now)[i],
                now,
            ),
    decreases w.len(),
{
    let keep = |t: u64| !spec_is_stale(t, now);
    lemma_stale_prefix(w, now);
    let k = spec_stale_prefix(w, now) as int;
    assert forall|i: int| 0 <= i < spec_prune(w, now).len() implies !spec_is_stale(
        #[trigger] spec_prune(w, now)[i],
        now,
    ) by {
        // What follows a fresh attempt is no older than it.
        assert(w[k] <= w[k + i]);
    }
    if w.len() == 0 {
        assert(w.filter(keep) =~= w);
    } else {
        // By induction on the window without its last attempt.
        let front = w.drop_last();
        let last = w.last();
        lemma_prune_ordered(front, now);
        lemma_stale_prefix(front, now);
        let kf = spec_stale_prefix(front, now) as int;
        reveal(Seq::filter);
        assert(w.filter(keep) == if keep(last) {
            front.filter(keep).push(last)
        } else {
            front.filter(keep)
        });
        if k < w.len() - 1 {
            // The first fresh attempt lies inside `front`.
            assert(front[k] == w[k]);
            assert(kf == k) by {
                if kf < k {
                    assert(front[kf] == w[kf]);
                }
            }
            assert(w[k] <= last);
            assert(spec_prune(w, now) =~= spec_prune(front, now).push(last));
        } else {
            // Every attempt of `front` is stale.
            assert(kf == front.len()) by {
                if kf < front.len() {
                    assert(front[kf] == w[kf]);
                }
            }
            assert(spec_prune(front, now) =~= Seq::<u64>::empty());
            if k == w.len() {
                assert(spec_is_stale(last, now));
                assert(spec_prune(w, now) =~= Seq::<u64>::empty());
            } else {
                assert(spec_prune(w, now) =~= Seq::<u64>::empty().push(last));
            }
        }
    }
}

/// The automatic reconnection attempts of the last window, oldest first.
pub struct ReconnectWindow {
    attempts: Vec<u64>,
}

impl View for ReconnectWindow {
    type V = Seq<u64>;

    closed spec fn view(&self) -> Seq<u64> {
        self.attempts@
    }
}

impl ReconnectWindow {
    #[verifier::type_invariant]
    spec fn bounded(&self) -> bool {
        self.attempts@.len() <= RECONNECT_LIMIT
    }

    /// A window without attempts.
    pub fn new() -> (w: ReconnectWindow)
        ensures
            w@ == Seq::<u64>::empty(),
    {
        ReconnectWindow { attempts: Vec::new() }
    }

    /// Number of attempts on record.
    pub fn len(&self) -> (n: usize)
        ensures
            n == self@.len(),
            n <= RECONNECT_LIMIT,
    {
        proof {
            use_type_invariant(self);
        }
        self.attempts.len()
    }

    /// The attempts on record, oldest first.
    pub fn attempts(&self) -> (stamps: Vec<u64>)
        ensures
            stamps@ == self@,
    {
        let mut stamps: Vec<u64> = Vec::new();
        let mut i: usize = 0;
        while i < self.attempts.len()
            invariant
                i <= self.attempts@.len(),
                stamps@ == self.attempts@.take(i as int),
            decreases self.attempts@.len() - i,
        {
            stamps.push(self.attempts[i]);
            assert(self.attempts@.take(i + 1) =~= self.attempts@.take(i as int).push(
                self.attempts@[i as int],
            ));
            i = i + 1;
        }
        stamps
    }

    /// Forgets every attempt.
    pub fn clear(&mut self)
        ensures
            final(self)@ == Seq::<u64>::empty(),
    {
        self.attempts = Vec::new();
    }

    /// Discards the stale attempts at the front of the window.
    pub fn prune(&mut self, now: u64)
        ensures
            final(self)@ == spec_prune(old(self)@, now),
    {
        proof {
            use_type_invariant(&*self);
            lemma_stale_prefix(self.attempts@, now);
        }
        let n = self.attempts.len();
        let mut k: usize = 0;
        assert(self.attempts@.skip(0) =~= self.attempts@);
        while k < n && is_stale(self.attempts[k], now)
            invariant
                n == self.attempts@.len(),
                k <= n,
                spec_stale_prefix(self.attempts@, now) == k + spec_stale_prefix(
                    self.attempts@.skip(k as int),
                    now,
                ),
            decreases n - k,
        {
            assert(self.attempts@.skip(k as int).skip(1) =~= self.attempts@.skip(k + 1));
            k = k + 1;
        }
        let mut kept: Vec<u64> = Vec::new();
        let mut i: usize = k;
        while i < n
            invariant
                n == self.attempts@.len(),
                k <= i <= n,
                n <= RECONNECT_LIMIT,
                kept@ == self.attempts@.subrange(k as int, i as int),
            decreases n - i,
        {
            kept.push(self.attempts[i]);
            assert(self.attempts@.subrange(k as int, i + 1) =~= self.attempts@.subrange(
                k as int,
                i as int,
            ).push(self.attempts@[i as int]));
            i = i + 1;
        }
        self.attempts = kept;
    }

    /// Asks for a reconnection attempt at `now`. The window is pruned first.
    /// The attempt is granted, and put on record, unless the pruned window
    /// holds the limit already.
    pub fn try_attempt(&mut self, now: u64) -> (granted: bool)
        ensures
            granted == !spec_refused(old(self)@, now),
            final(self)@ == spec_after_attempt(old(self)@, now),
    {
        self.prune(now);
        proof {
            use_type_invariant(&*self);
        }
        if self.attempts.len() >= RECONNECT_LIMIT {
            false
        } else {
            let mut grown = self.attempts();
            grown.push(now);
            self.attempts = grown;
            true
        }
    }
}

/// Whether an attempt made at `stamp` has left the window by `now`.
pub fn is_stale(stamp: u64, now: u64) -> (stale: bool)
    ensures
        stale == spec_is_stale(stamp, now),
{
    now.saturating_sub(stamp) > RECONNECT_WINDOW_SECS
}

} // verus!
