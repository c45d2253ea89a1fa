//! Resource governance shared by every task: the set of links already being
//! worked on, the per-recipient submission spacing, and the fixed pool of
//! upload permits.  Each structure is mutated only through operations whose
//! contracts make the claim/release discipline explicit.

use vstd::prelude::*;
use crate::scan::spec_elapsed;

verus! {

/// The set of links with a task currently in flight.  At most one task per
/// link may be in flight; a claim is a check-then-insert that either takes
/// the link or reports it taken.
pub struct DedupSet {
    keys: Vec<String>,
}

impl DedupSet {
    /// The structure holds each link at most once.
    pub closed spec fn wf(self) -> bool {
        forall|i: int, j: int|
            0 <= i < j < self.keys@.len() ==> self.keys@[i]@ != self.keys@[j]@
    }

    /// A task for `link` is in flight.
    pub closed spec fn in_flight(self, link: Seq<char>) -> bool {
        exists|i: int| 0 <= i < self.keys@.len() && self.keys@[i]@ == link
    }

    /// How many links are in flight; each is held at most once.
    pub closed spec fn spec_len(self) -> nat {
        self.keys@.len()
    }

    /// An empty set: nothing is in flight.
    pub fn new() -> (r: DedupSet)
        ensures
            r.wf(),
            r.spec_len() == 0,
            forall|x: Seq<char>| !r.in_flight(x),
    {
        DedupSet { keys: Vec::new() }
    }

    /// How many links are in flight.
    pub fn len(&self) -> (r: usize)
        ensures
            r == self.spec_len(),
            r == 0 <==> (forall|x: Seq<char>| !self.in_flight(x)),
    {
        let r = self.keys.len();
        proof {
            if r > 0 {
                assert(self.in_flight(self.keys@[0]@));
            }
        }
        r
    }

    /// Claims `link` if no task holds it: the claim succeeds exactly when
    /// the link was not in flight, and on success the link alone is added.
    pub fn claim(&mut self, link: &String) -> (claimed: bool)
        requires
            old(self).wf(),
        ensures
            final(self).wf(),
            claimed == !old(self).in_flight(link@),
            claimed ==> final(self).spec_len() == old(self).spec_len() + 1,
            !claimed ==> *final(self) == *old(self),
            forall|x: Seq<char>|
                final(self).in_flight(x) <==> old(self).in_flight(x) || (claimed && x == link@),
    {
        let n = self.keys.len();
        let mut i: usize = 0;
        while i < n
            invariant
                i <= n,
                n == self.keys@.len(),
                old(self) == self,
                old(self).wf(),
                forall|k: int| 0 <= k < i ==> self.keys@[k]@ != link@,
            decreases n - i,
        {
            if self.keys[i] == *link {
                assert(self.in_flight(link@));
                return false;
            }
            i = i + 1;
        }
        assert(!self.in_flight(link@));
        let ghost before = self.keys@;
        self.keys.push(link.clone());
        proof {
            assert forall|x: Seq<char>|
                self.in_flight(x) <==> old(self).in_flight(x) || x == link@ by {
                if self.in_flight(x) {
                    let w = choose|w: int|
                        0 <= w < self.keys@.len() && self.keys@[w]@ == x;
                    if w < before.len() {
                        assert(before[w]@ == x);
                    }
                }
                if old(self).in_flight(x) {
                    let w = choose|w: int| 0 <= w < before.len() && before[w]@ == x;
                    assert(self.keys@[w]@ == x);
                }
                if x == link@ {
                    assert(self.keys@[before.len() as int]@ == x);
                }
            }
        }
        true
    }

    /// Releases `link`: afterwards it is no longer in flight, and every
    /// other link is exactly as before.
    pub fn release(&mut self, link: &String)
        requires
            old(self).wf(),
        ensures
            final(self).wf(),
            old(self).in_flight(link@) ==> final(self).spec_len() == old(self).spec_len() - 1,
            !old(self).in_flight(link@) ==> *final(self) == *old(self),
            forall|x: Seq<char>|
                final(self).in_flight(x) <==> old(self).in_flight(x) && x != link@,
    {
        let n = self.keys.len();
        let mut i: usize = 0;
        while i < n
            invariant
                i <= n,
                n == self.keys@.len(),
                old(self) == self,
                old(self).wf(),
                forall|k: int| 0 <= k < i ==> self.keys@[k]@ != link@,
            decreases n - i,
        {
            if self.keys[i] == *link {
                let ghost before = self.keys@;
                self.keys.remove(i);
                proof {
                    assert forall|x: Seq<char>|
                        self.in_flight(x) <==> old(self).in_flight(x) && x != link@ by {
                        if self.in_flight(x) {
                            let w = choose|w: int|
                                0 <= w < self.keys@.len() && self.keys@[w]@ == x;
                            if w < i {
                                assert(before[w]@ == x);
                            } else {
                                assert(before[w + 1]@ == x);
                            }
                        }
                        if old(self).in_flight(x) && x != link@ {
                            let w = choose|w: int| 0 <= w < before.len() && before[w]@ == x;
                            if w < i {
                                assert(self.keys@[w]@ == x);
                            } else {
                                assert(w != i);
                                assert(self.keys@[w - 1]@ == x);
                            }
                        }
                    }
                }
                return ;
            }
            i = i + 1;
        }
        assert(!self.in_flight(link@));
    }
}

/// Smallest spacing, in milliseconds, between two accepted submissions from
/// one recipient.
pub const MIN_SUBMIT_INTERVAL_MS: u64 = 2000;

/// Largest instant the limiter keeps on record: a little below the clock
/// type's end, leaving room for the interval and for the bounded sleeps a
/// task adds after its wait.
pub const RATE_INSTANT_CAP: u64 = u64::MAX - 65536;

/// How long a submission arriving `now` must still wait, given the
/// recipient's previous *effective* send instant: nothing once a full
/// interval lies behind that instant, and otherwise whatever remains until
/// one does.  A recipient's queued submissions are thereby served one
/// interval apart: the previous effective instant may still lie in the
/// future, and the remainder owed then covers the gap and the interval
/// both.
pub open spec fn spec_delay(last: Option<int>, now: int) -> int {
    match last {
        None => 0,
        Some(l) => if now >= l + MIN_SUBMIT_INTERVAL_MS as int {
            0
        } else {
            l + MIN_SUBMIT_INTERVAL_MS as int - now
        },
    }
}

/// The instant a submission arriving `now` is put on record with: its
/// effective send instant `now + spec_delay`, held at the record cap so the
/// arithmetic of later submissions always fits the clock type.
pub open spec fn spec_recorded_instant(last: Option<int>, now: int) -> int {
    let eff = now + spec_delay(last, now);
    if eff > RATE_INSTANT_CAP as int {
        RATE_INSTANT_CAP as int
    } else {
        eff
    }
}

/// Per-recipient spacing of submissions: recipient identity to the instant
/// of the last accepted submission.  A violating submission is delayed, not
/// rejected.
pub struct RateLimiter {
    entries: Vec<(i64, u64)>,
}

impl RateLimiter {
    /// Each recipient is on record at most once, with an instant within the
    /// record cap.
    pub closed spec fn wf(self) -> bool {
        &&& forall|i: int, j: int|
            0 <= i < j < self.entries@.len() ==> self.entries@[i].0 != self.entries@[j].0
        &&& forall|i: int|
            0 <= i < self.entries@.len() ==> (#[trigger] self.entries@[i]).1 <= RATE_INSTANT_CAP
    }

    /// `who` is on record with instant `v`.
    pub closed spec fn in_entries(self, who: int, v: int) -> bool {
        exists|i: int|
            0 <= i < self.entries@.len() && self.entries@[i].0 == who && self.entries@[i].1 == v
    }

    /// The instant of the recipient's last accepted submission, if any.
    pub closed spec fn last_of(self, who: int) -> Option<int> {
        if exists|v: int| self.in_entries(who, v) {
            Some(choose|v: int| self.in_entries(who, v))
        } else {
            None
        }
    }

    /// An empty record.
    pub fn new() -> (r: RateLimiter)
        ensures
            r.wf(),
            forall|w: int| r.last_of(w) is None,
    {
        RateLimiter { entries: Vec::new() }
    }

    /// How long the submission arriving from `who` at `now` must wait.
    pub fn submission_delay(&self, who: i64, now: u64) -> (d: u64)
        requires
            self.wf(),
        ensures
            d as int == spec_delay(self.last_of(who as int), now as int),
    {
        let n = self.entries.len();
        let mut i: usize = 0;
        while i < n
            invariant
                i <= n,
                n == self.entries@.len(),
                self.wf(),
                forall|k: int| 0 <= k < i ==> self.entries@[k].0 != who,
            decreases n - i,
        {
            let (key, last) = self.entries[i];
            if key == who {
                assert(self.last_of(who as int) == Some(last as int)) by {
                    assert(self.in_entries(who as int, last as int));
                    let v0 = choose|v: int| self.in_entries(who as int, v);
                    lemma_key_unique(*self, who as int, v0, last as int);
                };
                if now >= last {
                    let elapsed = now - last;
                    if elapsed >= MIN_SUBMIT_INTERVAL_MS {
                        return 0;
                    }
                    return MIN_SUBMIT_INTERVAL_MS - elapsed;
                }
                return (last - now) + MIN_SUBMIT_INTERVAL_MS;
            }
            i = i + 1;
        }
        assert(self.last_of(who as int) is None);
        0
    }

    /// Puts the recipient's last effective send instant on record.
    pub fn record(&mut self, who: i64, at: u64)
        requires
            old(self).wf(),
            at <= RATE_INSTANT_CAP,
        ensures
            final(self).wf(),
            final(self).last_of(who as int) == Some(at as int),
            forall|w: int| w != who ==> final(self).last_of(w) == old(self).last_of(w),
    {
        let n = self.entries.len();
        let mut i: usize = 0;
        while i < n
            invariant
                i <= n,
                n == self.entries@.len(),
                old(self) == self,
                old(self).wf(),
                at <= RATE_INSTANT_CAP,
                forall|k: int| 0 <= k < i ==> self.entries@[k].0 != who,
            decreases n - i,
        {
            let (key, _) = self.entries[i];
            if key == who {
                let ghost before = self.entries@;
                self.entries.remove(i);
                self.entries.push((who, at));
                proof {
                    lemma_upsert(before, self.entries@, who as int, at as int, i as int);
                    let ghost last = self.entries@.len() - 1;
                    assert(self.entries@[last] == (who, at));
                    assert(self.in_entries(who as int, at as int));
                    let ghost mid = before.remove(i as int);
                    assert(self.entries@ =~= mid.push((who, at)));
                    assert forall|p: int|
                        0 <= p < self.entries@.len() implies (#[trigger] self.entries@[p]).1
                        <= RATE_INSTANT_CAP by {
                        if p < last {
                            assert(self.entries@[p] == mid[p]);
                            if p < i {
                                assert(mid[p] == old(self).entries@[p]);
                                assert(old(self).entries@[p].1 <= RATE_INSTANT_CAP);
                            } else {
                                assert(mid[p] == old(self).entries@[p + 1]);
                                assert(old(self).entries@[p + 1].1 <= RATE_INSTANT_CAP);
                            }
                        } else {
                            assert(self.entries@[p] == (who, at));
                        }
                    }
                    assert forall|w: int, v: int|
                        w != who && self.in_entries(w, v) implies old(self).in_entries(
                        w,
                        v,
                    ) by {
                        let j = choose|j: int|
                            0 <= j < self.entries@.len() && self.entries@[j].0 == w
                                && self.entries@[j].1 == v;
                        assert(j < last);
                        if j < i {
                            assert(before[j] == self.entries@[j]);
                        } else {
                            assert(before[j + 1] == self.entries@[j]);
                        }
                    }
                    assert forall|w: int, v: int|
                        w != who && old(self).in_entries(w, v) implies self.in_entries(
                        w,
                        v,
                    ) by {
                        let j = choose|j: int|
                            0 <= j < before.len() && before[j].0 == w && before[j].1 == v;
                        assert(j != i);
                        if j < i {
                            assert(self.entries@[j] == before[j]);
                        } else {
                            assert(self.entries@[j - 1] == before[j]);
                        }
                    }
                    reestablish_lookup(*old(self), *self, who as int, at as int);
                }
                return ;
            }
            i = i + 1;
        }
        let ghost before = self.entries@;
        self.entries.push((who, at));
        proof {
            assert(forall|k: int| 0 <= k < before.len() ==> self.entries@[k] == before[k]);
            assert(self.entries@[before.len() as int] == (who, at));
            assert(self.in_entries(who as int, at as int));
            assert forall|p: int|
                0 <= p < self.entries@.len() implies (#[trigger] self.entries@[p]).1
                <= RATE_INSTANT_CAP by {
                if p < before.len() {
                    assert(self.entries@[p] == old(self).entries@[p]);
                    assert(old(self).entries@[p].1 <= RATE_INSTANT_CAP);
                } else {
                    assert(self.entries@[p] == (who, at));
                }
            }
            assert forall|p: int, q: int|
                0 <= p < q < self.entries@.len() implies self.entries@[p].0
                != self.entries@[q].0 by {
                if q == self.entries@.len() - 1 {
                    assert(self.entries@[p] == before[p]);
                    assert(before[p].0 != who);
                } else {
                    assert(self.entries@[p] == before[p] && self.entries@[q] == before[q]);
                }
            }
            assert forall|w: int, v: int|
                w != who && self.in_entries(w, v) implies old(self).in_entries(w, v) by {
                let j = choose|j: int|
                    0 <= j < self.entries@.len() && self.entries@[j].0 == w
                        && self.entries@[j].1 == v;
                assert(j < before.len());
            }
            assert forall|w: int, v: int|
                w != who && old(self).in_entries(w, v) implies self.in_entries(w, v) by {
                let j = choose|j: int|
                    0 <= j < before.len() && before[j].0 == w && before[j].1 == v;
                assert(self.entries@[j] == before[j]);
            }
            reestablish_lookup(*old(self), *self, who as int, at as int);
        }
    }
}

/// Two records of one recipient carry the same instant.
proof fn lemma_key_unique(r: RateLimiter, who: int, v1: int, v2: int)
    requires
        r.wf(),
        r.in_entries(who, v1),
        r.in_entries(who, v2),
    ensures
        v1 == v2,
{
    let i = choose|i: int|
        0 <= i < r.entries_view().len() && r.entries_view()[i].0 == who && r.entries_view()[i].1
            == v1;
    let j = choose|j: int|
        0 <= j < r.entries_view().len() && r.entries_view()[j].0 == who && r.entries_view()[j].1
            == v2;
    if i < j {
        assert(r.entries_view()[i].0 != r.entries_view()[j].0);
        assert(false);
    } else if j < i {
        assert(r.entries_view()[j].0 != r.entries_view()[i].0);
        assert(false);
    }
}

/// After removing `who`'s old entry (if any) and pushing `(who, at)`, the
/// record still holds each recipient at most once.
proof fn lemma_upsert(before: Seq<(i64, u64)>, after: Seq<(i64, u64)>, who: int, at: int, i: int)
    requires
        0 <= i < before.len(),
        before[i].0 == who,
        forall|p: int, q: int| 0 <= p < q < before.len() ==> before[p].0 != before[q].0,
        after =~= before.remove(i).push((who as i64, at as u64)),
    ensures
        forall|p: int, q: int| 0 <= p < q < after.len() ==> after[p].0 != after[q].0,
{
    assert forall|p: int, q: int| 0 <= p < q < after.len() implies after[p].0 != after[q].0 by {
        let removed = before.remove(i);
        if q < after.len() - 1 {
            if p < i && q < i {
                assert(after[p] == before[p] && after[q] == before[q]);
            } else if p < i {
                assert(after[p] == before[p] && after[q] == before[q + 1]);
            } else {
                assert(after[p] == before[p + 1] && after[q] == before[q + 1]);
            }
        } else {
            if p < i {
                assert(after[p] == before[p]);
            } else {
                assert(after[p] == before[p + 1]);
            }
        }
    }
}

/// Connects the concrete entries after an upsert to the `last_of` lookup.
proof fn reestablish_lookup(older: RateLimiter, newer: RateLimiter, who: int, at: int)
    requires
        newer.wf(),
        newer.in_entries(who, at),
        forall|w: int, v: int| w != who && newer.in_entries(w, v) ==> older.in_entries(w, v),
        forall|w: int, v: int| w != who && older.in_entries(w, v) ==> newer.in_entries(w, v),
    ensures
        newer.last_of(who) == Some(at),
        forall|w: int| w != who ==> newer.last_of(w) == older.last_of(w),
{
    assert(newer.last_of(who) == Some(at)) by {
        let v0 = choose|v: int| newer.in_entries(who, v);
        lemma_key_unique(newer, who, v0, at);
    }
    assert forall|w: int| w != who implies newer.last_of(w) == older.last_of(w) by {
        if exists|v: int| newer.in_entries(w, v) {
            let a = choose|v: int| newer.in_entries(w, v);
            assert(older.in_entries(w, a));
            let b = choose|v: int| older.in_entries(w, v);
            assert(newer.in_entries(w, b));
            lemma_key_unique(newer, w, a, b);
        } else {
            if exists|v: int| older.in_entries(w, v) {
                let a = choose|v: int| older.in_entries(w, v);
                assert(newer.in_entries(w, a));
                assert(false);
            }
        }
    }
}

impl RateLimiter {
    /// The raw entries, for the lemmas of this module.
    spec fn entries_view(self) -> Seq<(i64, u64)> {
        self.entries@
    }
}

/// Two accepted submissions from one recipient are spaced by the minimum
/// interval: however early the next submission arrives — even while the
/// previous one is still waiting — its effective send instant, the arrival
/// plus the delay owed, lies a full interval after the previous effective
/// send.
pub proof fn law_rate_limit_spacing(last: int, now: int)
    ensures
        now + spec_delay(Some(last), now) >= last + MIN_SUBMIT_INTERVAL_MS as int,
        spec_delay(Some(last), now) == 0 <==> now >= last + MIN_SUBMIT_INTERVAL_MS as int,
{
}

/// Every recorded instant sits within the record cap.
pub proof fn lemma_recorded_bounded(r: RateLimiter, who: int)
    requires
        r.wf(),
    ensures
        r.last_of(who) matches Some(l) ==> l <= RATE_INSTANT_CAP as int,
{
    if r.last_of(who) is Some {
        let v = choose|v: int| r.in_entries(who, v);
        assert(r.in_entries(who, v));
        let i = choose|i: int|
            0 <= i < r.entries_view().len() && r.entries_view()[i].0 == who
                && r.entries_view()[i].1 == v;
        assert(r.entries_view()[i].1 <= RATE_INSTANT_CAP);
    }
}

/// The fixed pool of upload permits: a counter bounded by the pool's size.
/// A permit is held for a task's whole download-and-upload span and released
/// exactly once.
pub struct PermitPool {
    capacity: usize,
    held: usize,
}

impl PermitPool {
    /// No more permits are ever out than the pool holds.
    pub closed spec fn wf(self) -> bool {
        self.held <= self.capacity
    }

    /// The pool's size.
    pub closed spec fn permit_capacity(self) -> nat {
        self.capacity as nat
    }

    /// How many permits are out.
    pub closed spec fn permits_held(self) -> nat {
        self.held as nat
    }

    /// A fresh pool with every permit free.
    pub fn new(capacity: usize) -> (r: PermitPool)
        ensures
            r.wf(),
            r.permit_capacity() == capacity,
            r.permits_held() == 0,
    {
        PermitPool { capacity, held: 0 }
    }

    /// How many permits are out, as a value.
    pub fn held(&self) -> (r: usize)
        ensures
            r == self.permits_held(),
    {
        self.held
    }

    /// Takes a permit when one is free.  The grant succeeds exactly when a
    /// permit is free, so a task beyond the pool's size is made to wait.
    pub fn try_acquire(&mut self) -> (granted: bool)
        requires
            old(self).wf(),
        ensures
            final(self).wf(),
            final(self).permit_capacity() == old(self).permit_capacity(),
            granted == (old(self).permits_held() < old(self).permit_capacity()),
            granted ==> final(self).permits_held() == old(self).permits_held() + 1,
            !granted ==> *final(self) == *old(self),
    {
        if self.held < self.capacity {
            self.held = self.held + 1;
            true
        } else {
            false
        }
    }

    /// Returns a permit to the pool.
    pub fn release(&mut self)
        requires
            old(self).wf(),
            old(self).permits_held() > 0,
        ensures
            final(self).wf(),
            final(self).permit_capacity() == old(self).permit_capacity(),
            final(self).permits_held() == old(self).permits_held() - 1,
    {
        self.held = self.held - 1;
    }
}

/// Concurrently held permits never exceed the pool's size.
pub proof fn law_permit_bound(p: PermitPool)
    requires
        p.wf(),
    ensures
        p.permits_held() <= p.permit_capacity(),
{
}

} // verus!
