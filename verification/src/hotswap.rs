//! Detection of monitor configuration changes: a sorted snapshot of the
//! monitors, compared on every poll, with a debounce before a change counts.

use vstd::prelude::*;
use crate::health::elapsed;
use crate::types::Monitor;

verus! {

/// Time between two polls of the monitor configuration.
pub const POLL_INTERVAL_MS: u64 = 5_000;

/// Time a changed configuration must last before it is confirmed.
pub const DEBOUNCE_MS: u64 = 2_000;

/// What identifies a monitor in a snapshot: position, size and scale in
/// thousandths.
pub type MonitorKey = (i32, i32, u32, u32, i32);

/// The key of a monitor.
pub open spec fn key_of(m: Monitor) -> MonitorKey {
    (m.bounds.x, m.bounds.y, m.bounds.width, m.bounds.height, m.scale_permille)
}

/// The keys of the monitors, in enumeration order.
pub open spec fn keys_of(ms: Seq<Monitor>) -> Seq<MonitorKey> {
    Seq::new(ms.len(), |i: int| key_of(ms[i]))
}

/// Lexicographic order of keys: by the first field that differs.
pub open spec fn key_le(a: MonitorKey, b: MonitorKey) -> bool {
    a.0 < b.0 || (a.0 == b.0 && (a.1 < b.1 || (a.1 == b.1 && (a.2 < b.2 || (a.2 == b.2 && (a.3
        < b.3 || (a.3 == b.3 && a.4 <= b.4)))))))
}

/// Whether the keys are in ascending order.
pub open spec fn is_sorted(s: Seq<MonitorKey>) -> bool {
    forall|i: int, j: int| 0 <= i < j < s.len() ==> key_le(s[i], s[j])
}

/// Inserting into a sequence adds one occurrence of the element.
pub proof fn lemma_insert_to_multiset(s: Seq<MonitorKey>, at: int, key: MonitorKey)
    requires
        0 <= at <= s.len(),
    ensures
        s.insert(at, key).to_multiset() =~= s.to_multiset().insert(key),
{
    let t = s.insert(at, key);
    assert(t.remove(at) =~= s);
    vstd::seq_lib::to_multiset_remove(t, at);
    t.to_multiset_ensures();
    assert(t.contains(key)) by {
        assert(t[at] == key);
    }
}

fn key_le_exec(a: &MonitorKey, b: &MonitorKey) -> (le: bool)
    ensures
        le == key_le(*a, *b),
{
    a.0 < b.0 || (a.0 == b.0 && (a.1 < b.1 || (a.1 == b.1 && (a.2 < b.2 || (a.2 == b.2 && (a.3
        < b.3 || (a.3 == b.3 && a.4 <= b.4)))))))
}

/// The snapshot of the attached monitors: one key per monitor, in ascending
/// order, so that two snapshots of the same configuration are equal however
/// the monitors were enumerated.
pub fn get_monitor_snapshot(monitors: &Vec<Monitor>) -> (snapshot: Vec<MonitorKey>)
    ensures
        is_sorted(snapshot@),
        snapshot@.to_multiset() == keys_of(monitors@).to_multiset(),
        snapshot.len() == monitors.len(),
{
    let mut out: Vec<MonitorKey> = Vec::new();
    let ghost keys = keys_of(monitors@);
    let mut i: usize = 0;
    assert(out@ =~= keys.take(0));
    while i < monitors.len()
        invariant
            i <= monitors.len(),
            keys == keys_of(monitors@),
            out.len() == i,
            is_sorted(out@),
            out@.to_multiset() == keys.take(i as int).to_multiset(),
        decreases monitors.len() - i,
    {
        let m = monitors[i];
        let key: MonitorKey = (
            m.bounds.x,
            m.bounds.y,
            m.bounds.width,
            m.bounds.height,
            m.scale_permille,
        );
        let mut at: usize = 0;
        while at < out.len() && key_le_exec(&out[at], &key)
            invariant
                at <= out.len(),
                forall|k: int| 0 <= k < at ==> key_le(out@[k], key),
            decreases out.len() - at,
        {
            at = at + 1;
        }
        proof {
            let before = out@;
            let after = before.insert(at as int, key);
            lemma_insert_to_multiset(before, at as int, key);
            assert(keys.take(i + 1) =~= keys.take(i as int).push(key));
            vstd::seq_lib::to_multiset_build(keys.take(i as int), key);
            assert forall|a: int, b: int| 0 <= a < b < after.len() implies key_le(
                after[a],
                after[b],
            ) by {
                if b == at {
                    assert(after[a] == before[a]);
                } else if a == at {
                    assert(after[b] == before[b - 1]);
                    assert(key_le(before[at as int], before[b - 1]) || at == b - 1);
                } else {
                    let a0 = if a < at { a } else { a - 1 };
                    let b0 = if b < at { b } else { b - 1 };
                    assert(after[a] == before[a0] && after[b] == before[b0]);
                }
            }
        }
        out.insert(at, key);
        i = i + 1;
    }
    proof {
        assert(keys.take(monitors.len() as int) =~= keys);
    }
    out
}

/// Whether two snapshots are the same configuration.
pub fn same_snapshot(a: &Vec<MonitorKey>, b: &Vec<MonitorKey>) -> (same: bool)
    ensures
        same == (a@ == b@),
{
    if a.len() != b.len() {
        return false;
    }
    let mut i: usize = 0;
    while i < a.len()
        invariant
            i <= a.len(),
            a.len() == b.len(),
            a@.take(i as int) == b@.take(i as int),
        decreases a.len() - i,
    {
        let x = a[i];
        let y = b[i];
        if !(x.0 == y.0 && x.1 == y.1 && x.2 == y.2 && x.3 == y.3 && x.4 == y.4) {
            return false;
        }
        assert(a@.take(i + 1) =~= a@.take(i as int).push(a@[i as int]));
        assert(b@.take(i + 1) =~= b@.take(i as int).push(b@[i as int]));
        i = i + 1;
    }
    assert(a@.take(a.len() as int) =~= a@);
    assert(b@.take(b.len() as int) =~= b@);
    true
}

/// The state of the hot-swap monitor as plain values: the confirmed
/// configuration and, while a change is pending, when it was first seen.
pub struct HotSwapState {
    pub confirmed: Seq<MonitorKey>,
    pub pending_since: Option<u64>,
}

/// One poll: the state after observing `snapshot` at `now`, and whether a
/// configuration change is to be announced.
///
/// A snapshot equal to the confirmed one cancels a pending change. A
/// different one starts the debounce, or, once the debounce has elapsed,
/// becomes the confirmed configuration and is announced.
pub open spec fn observed(state: HotSwapState, snapshot: Seq<MonitorKey>, now: u64, debounce_ms: u64) -> (
    HotSwapState,
    bool,
) {
    if snapshot == state.confirmed {
        (HotSwapState { confirmed: state.confirmed, pending_since: None }, false)
    } else {
        match state.pending_since {
            None => (HotSwapState { confirmed: state.confirmed, pending_since: Some(now) }, false),
            Some(since) => if elapsed(now, since) >= debounce_ms {
                (HotSwapState { confirmed: snapshot, pending_since: None }, true)
            } else {
                (state, false)
            },
        }
    }
}

/// Watches the monitor configuration across polls.
#[derive(Clone, Debug)]
pub struct HotSwapMonitor {
    pub confirmed: Vec<MonitorKey>,
    pub pending_since: Option<u64>,
}

impl View for HotSwapMonitor {
    type V = HotSwapState;

    open spec fn view(&self) -> HotSwapState {
        HotSwapState { confirmed: self.confirmed@, pending_since: self.pending_since }
    }
}

impl HotSwapMonitor {
    /// Starts with `snapshot` as the confirmed configuration.
    pub fn new(snapshot: Vec<MonitorKey>) -> (monitor: HotSwapMonitor)
        ensures
            monitor@ == (HotSwapState { confirmed: snapshot@, pending_since: None }),
    {
        HotSwapMonitor { confirmed: snapshot, pending_since: None }
    }

    /// Observes the snapshot of one poll at `now` and says whether a
    /// configuration change is to be announced to dependents.
    pub fn observe(&mut self, snapshot: Vec<MonitorKey>, now: u64, debounce_ms: u64) -> (changed:
        bool)
        ensures
            final(self)@ == observed(old(self)@, snapshot@, now, debounce_ms).0,
            changed == observed(old(self)@, snapshot@, now, debounce_ms).1,
    {
        if same_snapshot(&snapshot, &self.confirmed) {
            self.pending_since = None;
            return false;
        }
        match self.pending_since {
            None => {
                self.pending_since = Some(now);
                false
            },
            Some(since) => {
                let waited = if now >= since {
                    now - since
                } else {
                    0
                };
                if waited >= debounce_ms {
                    self.confirmed = snapshot;
                    self.pending_since = None;
                    true
                } else {
                    false
                }
            },
        }
    }
}

/// A change that is gone again at a later poll, before it was confirmed,
/// announces nothing and leaves the state as it was before the change.
pub proof fn lemma_reverted_change_is_silent(
    confirmed: Seq<MonitorKey>,
    changed: Seq<MonitorKey>,
    seen_at: u64,
    reverted_at: u64,
    debounce_ms: u64,
)
    requires
        changed != confirmed,
    ensures
        ({
            let settled = HotSwapState { confirmed, pending_since: None };
            let first = observed(settled, changed, seen_at, debounce_ms);
            let second = observed(first.0, confirmed, reverted_at, debounce_ms);
            !first.1 && !second.1 && second.0 == settled
        }),
{
}

/// A change that is still there once the debounce has elapsed is announced
/// exactly once: not when first seen, at the first poll after the debounce,
/// and not again while the configuration stays the same.
pub proof fn lemma_sustained_change_announced_once(
    confirmed: Seq<MonitorKey>,
    changed: Seq<MonitorKey>,
    seen_at: u64,
    confirmed_at: u64,
    later: u64,
    debounce_ms: u64,
)
    requires
        changed != confirmed,
        elapsed(confirmed_at, seen_at) >= debounce_ms,
    ensures
        ({
            let settled = HotSwapState { confirmed, pending_since: None };
            let first = observed(settled, changed, seen_at, debounce_ms);
            let second = observed(first.0, changed, confirmed_at, debounce_ms);
            let third = observed(second.0, changed, later, debounce_ms);
            &&& !first.1
            &&& second.1
            &&& !third.1
            &&& second.0 == (HotSwapState { confirmed: changed, pending_since: None })
            &&& third.0 == second.0
        }),
{
}

/// While the debounce has not elapsed, a changed snapshot announces nothing
/// and keeps the confirmed configuration.
pub proof fn lemma_debounce_holds_back(
    state: HotSwapState,
    snapshot: Seq<MonitorKey>,
    now: u64,
    debounce_ms: u64,
)
    requires
        state.pending_since matches Some(since) ==> elapsed(now, since) < debounce_ms,
    ensures
        !observed(state, snapshot, now, debounce_ms).1,
        observed(state, snapshot, now, debounce_ms).0.confirmed == state.confirmed,
{
}

} // verus!
