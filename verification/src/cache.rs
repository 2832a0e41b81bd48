//! Bounded, time-expiring set of message fingerprints.
//!
//! The cache is the node's defense against rebroadcast storms: every relayed
//! message is fingerprinted and checked here before re-broadcast, so a message
//! that loops back is recognized and dropped.  Entries disappear only through
//! expiry of their time-to-live or through eviction when the capacity ceiling
//! would otherwise be exceeded.  Time is explicit: every operation takes the
//! current instant (in the caller's clock units) as an argument, so the whole
//! behavior is a function of its inputs.

use vstd::prelude::*;

use crate::bytes::bytes_eq;
use crate::bytes::clone_bytes;

verus! {

/// True when `s` holds an entry for fingerprint `f` that is still live at
/// instant `now`.  An entry `(g, e)` is live while `now < e`.
pub open spec fn has_live(s: Seq<(Seq<u8>, u64)>, f: Seq<u8>, now: u64) -> bool {
    exists|i: int| 0 <= i < s.len() && s[i].0 == f && now < s[i].1
}

/// The instant at which an entry inserted at `now` with time-to-live `ttl`
/// stops being live, saturating at the largest representable instant.
pub open spec fn expiry_at(now: u64, ttl: u64) -> u64 {
    if now + ttl > u64::MAX {
        u64::MAX
    } else {
        (now + ttl) as u64
    }
}

/// The entries of `s` that survive an insert of `f` at instant `now`: every
/// entry that is still live and does not itself carry `f` (a previous entry
/// for `f` is superseded by the freshly inserted one).
pub open spec fn surviving_entries(s: Seq<(Seq<u8>, u64)>, f: Seq<u8>, now: u64) -> Seq<(Seq<u8>, u64)>
    decreases s.len(),
{
    if s.len() == 0 {
        s
    } else {
        let rest = surviving_entries(s.drop_last(), f, now);
        if now < s.last().1 && s.last().0 != f {
            rest.push(s.last())
        } else {
            rest
        }
    }
}

/// The cache contents after inserting `f` at instant `now`: expired entries
/// and any previous entry for `f` are dropped, the oldest surviving entry is
/// evicted if the ceiling would otherwise be exceeded, and `f` is stored with
/// a fresh expiry.  A cache with capacity zero stores nothing.
pub open spec fn entries_after_insert(
    s: Seq<(Seq<u8>, u64)>,
    f: Seq<u8>,
    now: u64,
    ttl: u64,
    capacity: nat,
) -> Seq<(Seq<u8>, u64)> {
    let kept = surviving_entries(s, f, now);
    if capacity == 0 {
        kept
    } else {
        let roomy = if kept.len() >= capacity {
            kept.drop_first()
        } else {
            kept
        };
        roomy.push((f, expiry_at(now, ttl)))
    }
}

/// The mathematical contents of a vector of cache slots.
pub open spec fn slots_model(v: Seq<(Vec<u8>, u64)>) -> Seq<(Seq<u8>, u64)> {
    Seq::new(v.len(), |i: int| (v[i].0@, v[i].1))
}

/// Bounded-capacity, time-expiring set of message fingerprints.
pub struct SignatureCache {
    entries: Vec<(Vec<u8>, u64)>,
    capacity: usize,
    ttl: u64,
}

impl View for SignatureCache {
    type V = Seq<(Seq<u8>, u64)>;

    closed spec fn view(&self) -> Seq<(Seq<u8>, u64)> {
        slots_model(self.entries@)
    }
}

impl SignatureCache {
    /// The entry-count ceiling this cache was created with.
    pub closed spec fn capacity(self) -> nat {
        self.capacity as nat
    }

    /// The time-to-live this cache stamps on every inserted fingerprint.
    pub closed spec fn ttl(self) -> u64 {
        self.ttl
    }

    /// The capacity ceiling is a hard bound on the number of stored entries.
    pub open spec fn wf(self) -> bool {
        self@.len() <= self.capacity()
    }

    /// True when fingerprint `f` is present and unexpired at instant `now`.
    pub open spec fn is_live(self, f: Seq<u8>, now: u64) -> bool {
        has_live(self@, f, now)
    }

    /// A fresh, empty cache with the given ceiling and time-to-live.
    pub fn new(capacity: usize, ttl: u64) -> (cache: Self)
        ensures
            cache.wf(),
            cache@ == Seq::<(Seq<u8>, u64)>::empty(),
            cache.capacity() == capacity as nat,
            cache.ttl() == ttl,
    {
        let cache = SignatureCache { entries: Vec::new(), capacity, ttl };
        proof {
            assert(cache@ =~= Seq::<(Seq<u8>, u64)>::empty());
        }
        cache
    }

    /// The number of entries currently stored, expired ones included.
    pub fn len(&self) -> (n: usize)
        ensures
            n == self@.len(),
    {
        self.entries.len()
    }

    /// Inserts `fingerprint` at instant `now`.  Returns `true` exactly when
    /// the fingerprint was already present and unexpired, which is how
    /// upstream logic recognizes replayed broadcast traffic; either way the
    /// fingerprint is stored with a fresh expiry (capacity permitting).
    pub fn insert(&mut self, fingerprint: Vec<u8>, now: u64) -> (was_present: bool)
        requires
            old(self).wf(),
        ensures
            final(self).wf(),
            final(self).capacity() == old(self).capacity(),
            final(self).ttl() == old(self).ttl(),
            was_present == old(self).is_live(fingerprint@, now),
            final(self)@ == entries_after_insert(
                old(self)@,
                fingerprint@,
                now,
                old(self).ttl(),
                old(self).capacity(),
            ),
    {
        let ghost s0 = self@;
        let expiry: u64 = if now > u64::MAX - self.ttl {
            u64::MAX
        } else {
            now + self.ttl
        };
        let mut kept: Vec<(Vec<u8>, u64)> = Vec::new();
        let mut was_present = false;
        let mut i: usize = 0;
        proof {
            assert(s0.subrange(0, 0) =~= Seq::<(Seq<u8>, u64)>::empty());
            assert(slots_model(kept@) =~= surviving_entries(s0.subrange(0, 0), fingerprint@, now));
        }
        while i < self.entries.len()
            invariant
                i <= self.entries.len(),
                s0 == slots_model(self.entries@),
                slots_model(kept@) == surviving_entries(s0.subrange(0, i as int), fingerprint@, now),
                was_present == has_live(s0.subrange(0, i as int), fingerprint@, now),
            decreases self.entries.len() - i,
        {
            let ghost prefix = s0.subrange(0, i as int);
            let ghost prefix1 = s0.subrange(0, i + 1);
            proof {
                assert(prefix1.drop_last() =~= prefix);
                assert(prefix1.last() == s0[i as int]);
                lemma_has_live_push(prefix, s0[i as int], fingerprint@, now);
            }
            let slot_expiry = self.entries[i].1;
            if now < slot_expiry {
                if bytes_eq(&self.entries[i].0, &fingerprint) {
                    was_present = true;
                } else {
                    let bytes = clone_bytes(&self.entries[i].0);
                    let ghost kept_before = kept@;
                    kept.push((bytes, slot_expiry));
                    proof {
                        assert(slots_model(kept@) =~= slots_model(kept_before).push(
                            (bytes@, slot_expiry),
                        ));
                    }
                }
            }
            i += 1;
        }
        proof {
            assert(s0.subrange(0, s0.len() as int) =~= s0);
        }
        if self.capacity > 0 {
            if kept.len() >= self.capacity {
                let ghost kept_before = kept@;
                kept.remove(0);
                proof {
                    assert(slots_model(kept@) =~= slots_model(kept_before).drop_first());
                }
            }
            let ghost kept_before = kept@;
            let ghost fp = fingerprint@;
            kept.push((fingerprint, expiry));
            proof {
                assert(slots_model(kept@) =~= slots_model(kept_before).push((fp, expiry)));
            }
        }
        self.entries = kept;
        proof {
            lemma_surviving_entries_len(s0, fingerprint@, now);
        }
        was_present
    }
}

/// Dedup idempotence: on a fresh cache the first insert of any fingerprint
/// reports it absent, and an immediately following insert of the same
/// fingerprint reports it present.  This needs a positive ceiling (else
/// nothing is ever stored), a positive time-to-live (else entries are born
/// expired), and an instant short of the clock's end.
pub proof fn lemma_dedup_idempotence(f: Seq<u8>, now: u64, ttl: u64, capacity: nat)
    requires
        capacity >= 1,
        ttl >= 1,
        now < u64::MAX,
    ensures
        !has_live(Seq::<(Seq<u8>, u64)>::empty(), f, now),
        has_live(entries_after_insert(Seq::<(Seq<u8>, u64)>::empty(), f, now, ttl, capacity), f, now),
{
    let fresh = Seq::<(Seq<u8>, u64)>::empty();
    let after = entries_after_insert(fresh, f, now, ttl, capacity);
    assert(after[0] == (f, expiry_at(now, ttl)));
    assert(now < expiry_at(now, ttl));
    assert(0 <= 0 < after.len() && after[0].0 == f && now < after[0].1);
}

/// Distinct-key independence: inserting one fingerprint neither creates nor
/// destroys the liveness of a different fingerprint, as long as the insert
/// forces no capacity eviction — which is the case whenever the cache has
/// room, and also when it is full but the inserted fingerprint is already
/// live (the insert then merely refreshes it).
pub proof fn lemma_distinct_key_independence(
    s: Seq<(Seq<u8>, u64)>,
    f1: Seq<u8>,
    f2: Seq<u8>,
    now: u64,
    ttl: u64,
    capacity: nat,
)
    requires
        f1 != f2,
        s.len() <= capacity,
        s.len() < capacity || has_live(s, f1, now),
    ensures
        has_live(entries_after_insert(s, f1, now, ttl, capacity), f2, now) == has_live(s, f2, now),
{
    let kept = surviving_entries(s, f1, now);
    lemma_surviving_entries_len(s, f1, now);
    if has_live(s, f1, now) {
        lemma_surviving_entries_shrink(s, f1, now);
    }
    lemma_surviving_entries_live(s, f1, f2, now);
    lemma_has_live_push(kept, (f1, expiry_at(now, ttl)), f2, now);
}

/// Ordering of same-fingerprint inserts: once a fingerprint has been
/// inserted at instant `t`, a later insert of the same fingerprint reports
/// it present exactly while the fresh entry is live, whatever the cache held
/// before.  With two inserts of one fingerprint processed in order, the
/// second therefore necessarily sees "already present" (until expiry).
pub proof fn lemma_reinsert_recognized(
    s: Seq<(Seq<u8>, u64)>,
    f: Seq<u8>,
    t: u64,
    ttl: u64,
    capacity: nat,
    later: u64,
)
    requires
        capacity >= 1,
    ensures
        has_live(entries_after_insert(s, f, t, ttl, capacity), f, later) == (later < expiry_at(
            t,
            ttl,
        )),
{
    lemma_surviving_entries_shape(s, f, t);
    let kept = surviving_entries(s, f, t);
    let after = entries_after_insert(s, f, t, ttl, capacity);
    let roomy = if kept.len() >= capacity {
        kept.drop_first()
    } else {
        kept
    };
    if later < expiry_at(t, ttl) {
        assert(after[after.len() - 1] == (f, expiry_at(t, ttl)));
        assert(has_live(after, f, later));
    }
    if has_live(after, f, later) {
        let i = choose|i: int| 0 <= i < after.len() && after[i].0 == f && later < after[i].1;
        if i < roomy.len() {
            if kept.len() >= capacity {
                assert(after[i] == kept[i + 1]);
            } else {
                assert(after[i] == kept[i]);
            }
        } else {
            assert(after[i] == (f, expiry_at(t, ttl)));
        }
    }
}

/// Entries expire on schedule: a fingerprint inserted at instant `t` with
/// time-to-live `d` is no longer live at any instant from `t + d` onward,
/// whatever the cache held before.
pub proof fn lemma_ttl_expiry(
    s: Seq<(Seq<u8>, u64)>,
    f: Seq<u8>,
    t: u64,
    d: u64,
    capacity: nat,
    later: u64,
)
    requires
        t + d <= later,
    ensures
        !has_live(entries_after_insert(s, f, t, d, capacity), f, later),
{
    lemma_surviving_entries_shape(s, f, t);
    let kept = surviving_entries(s, f, t);
    let after = entries_after_insert(s, f, t, d, capacity);
    assert forall|i: int| 0 <= i < after.len() implies !((#[trigger] after[i]).0 == f
        && later < after[i].1) by {
        if capacity == 0 {
            assert(after[i] == kept[i]);
        } else {
            let roomy = if kept.len() >= capacity {
                kept.drop_first()
            } else {
                kept
            };
            if i < roomy.len() {
                if kept.len() >= capacity {
                    assert(after[i] == kept[i + 1]);
                } else {
                    assert(after[i] == kept[i]);
                }
            } else {
                assert(after[i] == (f, expiry_at(t, d)));
            }
        }
    }
}

/// Capacity bound: an insert never leaves the cache with more entries than
/// its ceiling.
pub proof fn lemma_capacity_bound(s: Seq<(Seq<u8>, u64)>, f: Seq<u8>, now: u64, ttl: u64, capacity: nat)
    requires
        s.len() <= capacity,
    ensures
        entries_after_insert(s, f, now, ttl, capacity).len() <= capacity,
{
    lemma_surviving_entries_len(s, f, now);
}

/// How liveness of `f` in a sequence extended by one entry relates to
/// liveness in the original sequence.
proof fn lemma_has_live_push(s: Seq<(Seq<u8>, u64)>, e: (Seq<u8>, u64), f: Seq<u8>, now: u64)
    ensures
        has_live(s.push(e), f, now) == (has_live(s, f, now) || (e.0 == f && now < e.1)),
{
    if has_live(s, f, now) {
        let i = choose|i: int| 0 <= i < s.len() && s[i].0 == f && now < s[i].1;
        assert(s.push(e)[i].0 == f && now < s.push(e)[i].1);
    }
    if e.0 == f && now < e.1 {
        assert(s.push(e)[s.len() as int].0 == f && now < s.push(e)[s.len() as int].1);
    }
    if has_live(s.push(e), f, now) {
        let i = choose|i: int| 0 <= i < s.push(e).len() && s.push(e)[i].0 == f && now < s.push(e)[i].1;
        if i < s.len() {
            assert(s[i].0 == f && now < s[i].1);
        }
    }
}

/// The surviving entries are never more numerous than the originals.
proof fn lemma_surviving_entries_len(s: Seq<(Seq<u8>, u64)>, f: Seq<u8>, now: u64)
    ensures
        surviving_entries(s, f, now).len() <= s.len(),
    decreases s.len(),
{
    if s.len() > 0 {
        lemma_surviving_entries_len(s.drop_last(), f, now);
    }
}

/// Every surviving entry is live at `now` and carries a fingerprint other
/// than the one being inserted.
proof fn lemma_surviving_entries_shape(s: Seq<(Seq<u8>, u64)>, f: Seq<u8>, now: u64)
    ensures
        forall|i: int| 0 <= i < surviving_entries(s, f, now).len()
            ==> (#[trigger] surviving_entries(s, f, now)[i]).0 != f
                && now < surviving_entries(s, f, now)[i].1,
    decreases s.len(),
{
    if s.len() > 0 {
        lemma_surviving_entries_shape(s.drop_last(), f, now);
        let rest = surviving_entries(s.drop_last(), f, now);
        let whole = surviving_entries(s, f, now);
        if now < s.last().1 && s.last().0 != f {
            assert forall|i: int| 0 <= i < whole.len() implies (#[trigger] whole[i]).0 != f
                && now < whole[i].1 by {
                if i < rest.len() {
                    assert(whole[i] == rest[i]);
                } else {
                    assert(whole[i] == s.last());
                }
            }
        }
    }
}

/// When the inserted fingerprint is live, at least one slot is dropped, so
/// the survivors are strictly fewer than the originals.
proof fn lemma_surviving_entries_shrink(s: Seq<(Seq<u8>, u64)>, f: Seq<u8>, now: u64)
    requires
        has_live(s, f, now),
    ensures
        surviving_entries(s, f, now).len() < s.len(),
    decreases s.len(),
{
    lemma_surviving_entries_len(s.drop_last(), f, now);
    if s.last().0 == f && now < s.last().1 {
    } else {
        assert(s.drop_last().push(s.last()) =~= s);
        lemma_has_live_push(s.drop_last(), s.last(), f, now);
        lemma_surviving_entries_shrink(s.drop_last(), f, now);
    }
}

/// Surviving an insert of `f` neither creates nor destroys liveness of any
/// other fingerprint `g`.
proof fn lemma_surviving_entries_live(s: Seq<(Seq<u8>, u64)>, f: Seq<u8>, g: Seq<u8>, now: u64)
    requires
        g != f,
    ensures
        has_live(surviving_entries(s, f, now), g, now) == has_live(s, g, now),
    decreases s.len(),
{
    if s.len() == 0 {
    } else {
        let rest = surviving_entries(s.drop_last(), f, now);
        lemma_surviving_entries_live(s.drop_last(), f, g, now);
        assert(s.drop_last().push(s.last()) =~= s);
        lemma_has_live_push(s.drop_last(), s.last(), g, now);
        if now < s.last().1 && s.last().0 != f {
            lemma_has_live_push(rest, s.last(), g, now);
        }
    }
}

} // verus!
