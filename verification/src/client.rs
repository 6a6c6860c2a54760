//! The decisions of the client's network loop that do not touch the socket:
//! which acknowledgements to send, as ranges of datagram sequence numbers,
//! and which datagrams are missing and when to ask for them again.
//!
//! Times are milliseconds on a clock that the caller keeps.

use vstd::prelude::*;
use std::collections::VecDeque;
use crate::protocol::raknet::acknowledge::{acknowledge_bytes, range_acknowledge, Acknowledge};

verus! {

/// The shortest time between two requests for the same missing datagram.
pub const NACK_INTERVAL_MS: u64 = 60;

/// A missing datagram is given up after this long, unless frames already
/// wait behind it.
pub const NACK_GIVE_UP_MS: u64 = 20_000;

/// How many ranges of missing datagrams one pass asks for at most.
pub const MAX_NACKS_PER_PASS: usize = 16;

/// How far behind the newest datagram a missing one is still tracked.
pub const RECV_WINDOW: u32 = 512;

/// Each number is larger than the one before it.
pub open spec fn increasing(s: Seq<u32>) -> bool {
    forall|i: int, j: int| 0 <= i < j < s.len() ==> s[i] < s[j]
}

/// The runs of consecutive numbers in an increasing sequence, as inclusive
/// ranges, in order.
pub open spec fn runs(s: Seq<u32>) -> Seq<(u32, u32)>
    decreases s.len(),
{
    if s.len() == 0 {
        Seq::empty()
    } else {
        let r = runs(s.drop_last());
        let x = s.last();
        if r.len() > 0 && r.last().1 + 1 == x {
            r.update(r.len() - 1, (r.last().0, x))
        } else {
            r.push((x, x))
        }
    }
}

/// Some range of `rs` holds `x`.
pub open spec fn in_ranges(rs: Seq<(u32, u32)>, x: u32) -> bool {
    exists|k: int| 0 <= k < rs.len() && #[trigger] rs[k].0 <= x && x <= rs[k].1
}

/// The ranges are well formed, in order, separated by at least one number
/// that none holds, and hold exactly the numbers `contains` accepts.
pub open spec fn ranges_of_set(rs: Seq<(u32, u32)>, contains: spec_fn(u32) -> bool) -> bool {
    &&& forall|k: int| 0 <= k < rs.len() ==> #[trigger] rs[k].0 <= rs[k].1
    &&& forall|k: int, l: int| 0 <= k < l < rs.len() ==> #[trigger] rs[k].1 + 1 < #[trigger] rs[l].0
    &&& forall|x: u32| contains(x) <==> in_ranges(rs, x)
}

/// The runs of an increasing sequence are its maximal ranges: in order,
/// separated by gaps, holding exactly its numbers; the last ends at its
/// largest number.
pub proof fn lemma_runs(s: Seq<u32>)
    requires
        increasing(s),
    ensures
        ranges_of_set(runs(s), |x: u32| s.contains(x)),
        s.len() > 0 ==> runs(s).len() > 0 && runs(s).last().1 == s.last(),
        runs(s).len() <= s.len(),
    decreases s.len(),
{
    if s.len() > 0 {
        let p = s.drop_last();
        let x = s.last();
        assert(increasing(p));
        lemma_runs(p);
        let r = runs(p);
        if p.len() > 0 {
            assert(p.last() == s[s.len() - 2]);
            assert(r.last().1 < x);
        }
        let n = runs(s);
        let extended = r.len() > 0 && r.last().1 + 1 == x;
        if extended {
            assert(n == r.update(r.len() - 1, (r.last().0, x)));
        } else {
            assert(n == r.push((x, x)));
        }
        assert forall|y: u32| s.contains(y) <==> in_ranges(n, y) by {
            if s.contains(y) {
                let i = choose|i: int| 0 <= i < s.len() && s[i] == y;
                if i < s.len() - 1 {
                    assert(p.contains(y)) by {
                        assert(p[i] == y);
                    }
                    assert(in_ranges(r, y));
                    let k = choose|k: int| 0 <= k < r.len() && #[trigger] r[k].0 <= y && y <= r[k].1;
                    if extended && k == r.len() - 1 {
                        assert(n[k] == (r[k].0, x));
                    } else {
                        assert(n[k] == r[k]);
                    }
                    assert(n[k].0 <= y && y <= n[k].1);
                } else {
                    assert(n[n.len() - 1].0 <= y && y <= n[n.len() - 1].1);
                }
            }
            if in_ranges(n, y) {
                let k = choose|k: int| 0 <= k < n.len() && #[trigger] n[k].0 <= y && y <= n[k].1;
                if y == x {
                    assert(s[s.len() - 1] == y);
                } else if k < r.len() && y <= r[k].1 {
                    assert(in_ranges(r, y));
                    assert(p.contains(y));
                    let i = choose|i: int| 0 <= i < p.len() && p[i] == y;
                    assert(s[i] == y);
                } else {
                    // `y` lies in the last range after the old end, below `x`:
                    // only possible when that range was extended by `x`, so
                    // `y == x`.
                    assert(false);
                }
            }
        }
    }
}

proof fn lemma_ranges_drop_first(a: Seq<(u32, u32)>, contains: spec_fn(u32) -> bool)
    requires
        ranges_of_set(a, contains),
        a.len() > 0,
    ensures
        ranges_of_set(a.drop_first(), |x: u32| contains(x) && !(a[0].0 <= x && x <= a[0].1)),
{
    let d = a.drop_first();
    let p2 = |x: u32| contains(x) && !(a[0].0 <= x && x <= a[0].1);
    assert forall|k: int, l: int| 0 <= k < l < d.len() implies #[trigger] d[k].1 + 1 < #[trigger] d[l].0 by {
        assert(d[k] == a[k + 1] && d[l] == a[l + 1]);
    }
    assert forall|k: int| 0 <= k < d.len() implies #[trigger] d[k].0 <= d[k].1 by {
        assert(d[k] == a[k + 1]);
    }
    assert forall|x: u32| p2(x) <==> in_ranges(d, x) by {
        if p2(x) {
            assert(in_ranges(a, x));
            let k = choose|k: int| 0 <= k < a.len() && #[trigger] a[k].0 <= x && x <= a[k].1;
            if k == 0 {
                assert(false);
            }
            assert(d[k - 1] == a[k]);
            assert(d[k - 1].0 <= x && x <= d[k - 1].1);
        }
        if in_ranges(d, x) {
            let k = choose|k: int| 0 <= k < d.len() && #[trigger] d[k].0 <= x && x <= d[k].1;
            assert(d[k] == a[k + 1]);
            assert(a[k + 1].0 <= x && x <= a[k + 1].1);
            assert(in_ranges(a, x));
            assert(a[0].1 + 1 < a[k + 1].0);
        }
    }
}

/// Ranges that describe a set as `ranges_of_set` does are the only ones: any
/// two such sequences for the same numbers are equal.
pub proof fn lemma_ranges_unique(a: Seq<(u32, u32)>, b: Seq<(u32, u32)>, contains: spec_fn(u32) -> bool)
    requires
        ranges_of_set(a, contains),
        ranges_of_set(b, contains),
    ensures
        a == b,
    decreases a.len(),
{
    if a.len() == 0 {
        if b.len() > 0 {
            assert(in_ranges(b, b[0].0));
            assert(!in_ranges(a, b[0].0));
        }
        assert(a =~= b);
    } else if b.len() == 0 {
        assert(in_ranges(a, a[0].0));
        assert(!in_ranges(b, a[0].0));
    } else {
        assert(in_ranges(a, a[0].0) && in_ranges(b, b[0].0));
        assert(contains(a[0].0) && contains(b[0].0));
        assert(in_ranges(b, a[0].0) && in_ranges(a, b[0].0));
        // The first ranges start at the smallest number.
        let kb = choose|k: int| 0 <= k < b.len() && #[trigger] b[k].0 <= a[0].0 && a[0].0 <= b[k].1;
        let ka = choose|k: int| 0 <= k < a.len() && #[trigger] a[k].0 <= b[0].0 && b[0].0 <= a[k].1;
        if kb > 0 {
            assert(b[0].1 + 1 < b[kb].0);
        }
        if ka > 0 {
            assert(a[0].1 + 1 < a[ka].0);
        }
        assert(a[0].0 == b[0].0);
        // They end where the numbers stop being consecutive.
        if a[0].1 < b[0].1 {
            let x = (a[0].1 + 1) as u32;
            assert(b[0].0 <= x && x <= b[0].1);
            assert(in_ranges(b, x));
            assert(contains(x));
            assert(in_ranges(a, x));
            let k = choose|k: int| 0 <= k < a.len() && #[trigger] a[k].0 <= x && x <= a[k].1;
            if k > 0 {
                assert(a[0].1 + 1 < a[k].0);
            }
        }
        if b[0].1 < a[0].1 {
            let x = (b[0].1 + 1) as u32;
            assert(a[0].0 <= x && x <= a[0].1);
            assert(in_ranges(a, x));
            assert(contains(x));
            assert(in_ranges(b, x));
            let k = choose|k: int| 0 <= k < b.len() && #[trigger] b[k].0 <= x && x <= b[k].1;
            if k > 0 {
                assert(b[0].1 + 1 < b[k].0);
            }
        }
        assert(a[0] == b[0]);
        lemma_ranges_drop_first(a, contains);
        lemma_ranges_drop_first(b, contains);
        let p2 = |x: u32| contains(x) && !(a[0].0 <= x && x <= a[0].1);
        let q2 = |x: u32| contains(x) && !(b[0].0 <= x && x <= b[0].1);
        assert(p2 == q2);
        lemma_ranges_unique(a.drop_first(), b.drop_first(), p2);
        assert(a =~= seq![a[0]] + a.drop_first());
        assert(b =~= seq![b[0]] + b.drop_first());
    }
}

/// Appends `x`, which is larger than every number seen so far, to the runs
/// built so far.
fn extend_runs(out: &mut Vec<(u32, u32)>, x: u32, Ghost(s): Ghost<Seq<u32>>)
    requires
        old(out)@ == runs(s),
        increasing(s.push(x)),
    ensures
        final(out)@ == runs(s.push(x)),
{
    proof {
        assert(s.push(x).drop_last() =~= s);
        if s.len() > 0 {
            assert(increasing(s));
            lemma_runs(s);
            assert(s.push(x)[s.len() - 1] < s.push(x)[s.len() as int]);
        }
    }
    let n = out.len();
    if n > 0 && out[n - 1].1 as u64 + 1 == x as u64 {
        let first = out[n - 1].0;
        out.set(n - 1, (first, x));
    } else {
        out.push((x, x));
    }
}

/// The runs of an increasing sequence.
pub fn runs_of(s: &Vec<u32>) -> (r: Vec<(u32, u32)>)
    requires
        increasing(s@),
    ensures
        r@ == runs(s@),
{
    let mut out: Vec<(u32, u32)> = Vec::new();
    let mut i: usize = 0;
    while i < s.len()
        invariant
            i <= s@.len(),
            increasing(s@),
            out@ == runs(s@.take(i as int)),
        decreases s@.len() - i,
    {
        proof {
            assert(s@.take(i + 1) =~= s@.take(i as int).push(s@[i as int]));
        }
        extend_runs(&mut out, s[i], Ghost(s@.take(i as int)));
        i = i + 1;
    }
    assert(s@.take(i as int) =~= s@);
    out
}

/// The numbers of `v` in increasing order, each once.
pub fn sorted_unique(v: &Vec<u32>) -> (r: Vec<u32>)
    ensures
        increasing(r@),
        forall|x: u32| r@.contains(x) <==> v@.contains(x),
{
    let mut out: Vec<u32> = Vec::new();
    let mut i: usize = 0;
    while i < v.len()
        invariant
            i <= v@.len(),
            increasing(out@),
            forall|x: u32| out@.contains(x) <==> v@.take(i as int).contains(x),
        decreases v@.len() - i,
    {
        let x = v[i];
        let mut p: usize = 0;
        while p < out.len() && out[p] < x
            invariant
                p <= out@.len(),
                forall|j: int| 0 <= j < p ==> out@[j] < x,
            decreases out@.len() - p,
        {
            p = p + 1;
        }
        let ghost before = out@;
        if p < out.len() && out[p] == x {
            assert(out@[p as int] == x);
        } else {
            out.insert(p, x);
            assert forall|a: int, b: int| 0 <= a < b < out@.len() implies out@[a] < out@[b] by {
                if b < p {
                } else if a > p {
                    assert(out@[a] == before[a - 1] && out@[b] == before[b - 1]);
                } else if a == p {
                    assert(out@[b] == before[b - 1]);
                    assert(x < before[p as int]);
                    if b - 1 > p {
                        assert(before[p as int] < before[b - 1]);
                    }
                } else {
                    assert(out@[a] == before[a]);
                }
            }
            assert forall|y: u32| out@.contains(y) <==> before.contains(y) || y == x by {
                if out@.contains(y) {
                    let j = choose|j: int| 0 <= j < out@.len() && out@[j] == y;
                    if j < p {
                        assert(before[j] == y);
                    } else if j > p {
                        assert(before[j - 1] == y);
                    }
                }
                if before.contains(y) {
                    let j = choose|j: int| 0 <= j < before.len() && before[j] == y;
                    if j < p {
                        assert(out@[j] == y);
                    } else {
                        assert(out@[j + 1] == y);
                    }
                }
                if y == x {
                    assert(out@[p as int] == y);
                }
            }
        }
        proof {
            let t0 = v@.take(i as int);
            let t1 = v@.take(i + 1);
            assert(t1 =~= t0.push(x));
            assert(forall|y: u32| out@.contains(y) <==> before.contains(y) || y == x);
            assert(forall|y: u32| before.contains(y) <==> t0.contains(y));
            assert forall|y: u32| out@.contains(y) <==> t1.contains(y) by {
                if t1.contains(y) {
                    let j = choose|j: int| 0 <= j < t1.len() && t1[j] == y;
                    if j < i {
                        assert(t0[j] == y);
                    }
                }
                if t0.contains(y) {
                    let j = choose|j: int| 0 <= j < t0.len() && t0[j] == y;
                    assert(t1[j] == y);
                }
                if y == x {
                    assert(t1[i as int] == y);
                }
            }
        }
        i = i + 1;
    }
    assert(v@.take(i as int) =~= v@);
    out
}

/// The acknowledgements owed for the received sequence numbers: the
/// maximal runs of the distinct numbers, in increasing order.
pub fn ack_ranges(pending: &Vec<u32>) -> (r: Vec<(u32, u32)>)
    ensures
        ranges_of_set(r@, |x: u32| pending@.contains(x)),
{
    let s = sorted_unique(pending);
    let r = runs_of(&s);
    proof {
        lemma_runs(s@);
        assert forall|x: u32| pending@.contains(x) <==> in_ranges(r@, x) by {
            assert(s@.contains(x) <==> pending@.contains(x));
        }
    }
    r
}

/// The time from `t` to `now`; none when `t` is later.
pub open spec fn elapsed(now: u64, t: u64) -> u64 {
    if now >= t { (now - t) as u64 } else { 0 }
}

fn elapsed_ms(now: u64, t: u64) -> (r: u64)
    ensures
        r == elapsed(now, t),
{
    if now >= t { now - t } else { 0 }
}

/// The entries of `s` that `keep` accepts, in order.
pub open spec fn select(s: Seq<(u32, u64)>, keep: spec_fn((u32, u64)) -> bool) -> Seq<(u32, u64)>
    decreases s.len(),
{
    if s.len() == 0 {
        Seq::empty()
    } else if keep(s.last()) {
        select(s.drop_last(), keep).push(s.last())
    } else {
        select(s.drop_last(), keep)
    }
}

/// Entries for sequence numbers at or above `floor`.
pub open spec fn at_or_above(floor: int) -> spec_fn((u32, u64)) -> bool {
    |e: (u32, u64)| e.0 >= floor
}

/// Entries asked for less than the give-up time ago.
pub open spec fn not_given_up(now: u64) -> spec_fn((u32, u64)) -> bool {
    |e: (u32, u64)| elapsed(now, e.1) < NACK_GIVE_UP_MS
}

/// Entries asked for at least the request interval ago.
pub open spec fn due(now: u64) -> spec_fn((u32, u64)) -> bool {
    |e: (u32, u64)| elapsed(now, e.1) >= NACK_INTERVAL_MS
}

/// Entries for any sequence number but `seq`.
pub open spec fn other_than(seq: u32) -> spec_fn((u32, u64)) -> bool {
    |e: (u32, u64)| e.0 != seq
}

/// The sequence numbers of the entries.
pub open spec fn keys(s: Seq<(u32, u64)>) -> Seq<u32> {
    s.map_values(|e: (u32, u64)| e.0)
}

/// The entries are in increasing order of sequence number.
pub open spec fn keys_increasing(s: Seq<(u32, u64)>) -> bool {
    forall|i: int, j: int| 0 <= i < j < s.len() ==> s[i].0 < s[j].0
}

/// One entry for each number from `start` up to, not including, `end`,
/// each asked for at `t`.
pub open spec fn gap(start: int, end: int, t: u64) -> Seq<(u32, u64)> {
    Seq::new((end - start) as nat, |i: int| ((start + i) as u32, t))
}

/// The entries whose sequence number some range of `rs` holds, asked for
/// again at `now`.
pub open spec fn mark(s: Seq<(u32, u64)>, rs: Seq<(u32, u32)>, now: u64) -> Seq<(u32, u64)> {
    s.map_values(|e: (u32, u64)| if in_ranges(rs, e.0) { (e.0, now) } else { e })
}

/// At most the first `MAX_NACKS_PER_PASS` ranges.
pub open spec fn capped(rs: Seq<(u32, u32)>) -> Seq<(u32, u32)> {
    if rs.len() <= MAX_NACKS_PER_PASS { rs } else { rs.take(MAX_NACKS_PER_PASS as int) }
}

/// The entries `select` keeps are entries of `s` that `keep` accepts, in
/// the same order.
pub proof fn lemma_select(s: Seq<(u32, u64)>, keep: spec_fn((u32, u64)) -> bool)
    ensures
        forall|e: (u32, u64)| #[trigger] select(s, keep).contains(e) ==> s.contains(e) && keep(e),
        keys_increasing(s) ==> keys_increasing(select(s, keep)),
        select(s, keep).len() <= s.len(),
    decreases s.len(),
{
    if s.len() > 0 {
        let p = s.drop_last();
        lemma_select(p, keep);
        let q = select(p, keep);
        assert forall|e: (u32, u64)| select(s, keep).contains(e) implies s.contains(e) && keep(e) by {
            if q.contains(e) {
                let i = choose|i: int| 0 <= i < q.len() && q[i] == e;
                assert(q[i] == e);
                assert(p.contains(e));
                let j = choose|j: int| 0 <= j < p.len() && p[j] == e;
                assert(s[j] == e);
            } else {
                let i = choose|i: int| 0 <= i < select(s, keep).len() && select(s, keep)[i] == e;
                assert(e == s.last());
                assert(s[s.len() - 1] == e);
            }
        }
        if keys_increasing(s) {
            assert(keys_increasing(p));
            let r = select(s, keep);
            if keep(s.last()) {
                assert(r == q.push(s.last()));
                assert forall|i: int| 0 <= i < q.len() implies #[trigger] q[i].0 < s.last().0 by {
                    let e = q[i];
                    assert(q.contains(e));
                    assert(p.contains(e));
                    let k = choose|k: int| 0 <= k < p.len() && p[k] == e;
                    assert(s[k] == e);
                    assert(s[s.len() - 1] == s.last());
                }
                assert forall|i: int, j: int| 0 <= i < j < r.len() implies r[i].0 < r[j].0 by {
                    if j == q.len() {
                        assert(r[i] == q[i]);
                        assert(q[i].0 < s.last().0);
                    } else {
                        assert(r[i] == q[i] && r[j] == q[j]);
                    }
                }
            }
        }
    }
}

/// The sequence numbers of the entries that are due, in order.
pub open spec fn due_keys(s: Seq<(u32, u64)>, now: u64) -> Seq<u32> {
    keys(select(s, due(now)))
}

pub proof fn lemma_due_keys_increasing(s: Seq<(u32, u64)>, now: u64)
    requires
        keys_increasing(s),
    ensures
        increasing(due_keys(s, now)),
{
    lemma_select(s, due(now));
}

/// What the loop tracks of the datagrams it has received: those still
/// missing, each with when it was last asked for, and the newest sequence
/// number seen (-1 before any).
pub struct ReceiveWindow {
    missing: Vec<(u32, u64)>,
    last_received: i64,
    /// The sequence numbers of every datagram received so far.
    received: Ghost<Set<u32>>,
}

pub struct ReceiveWindowView {
    pub missing: Seq<(u32, u64)>,
    pub last_received: int,
    pub received: Set<u32>,
}

impl View for ReceiveWindow {
    type V = ReceiveWindowView;

    closed spec fn view(&self) -> ReceiveWindowView {
        ReceiveWindowView {
            missing: self.missing@,
            last_received: self.last_received as int,
            received: self.received@,
        }
    }
}

/// The missing datagrams are in increasing order, each older than the
/// newest one seen and within `RECV_WINDOW` of it, and none of them has
/// ever been received; the newest one seen is the largest received.
pub open spec fn window_valid(v: ReceiveWindowView) -> bool {
    &&& keys_increasing(v.missing)
    &&& forall|i: int| 0 <= i < v.missing.len() ==> #[trigger] v.missing[i].0 < v.last_received
        && v.missing[i].0 + RECV_WINDOW >= v.last_received
    &&& -1 <= v.last_received <= u32::MAX
    &&& forall|i: int| 0 <= i < v.missing.len() ==> !v.received.contains(#[trigger] v.missing[i].0)
    &&& forall|x: u32| #[trigger] v.received.contains(x) ==> x <= v.last_received
}

/// The window after datagram `seq` arrives at `now`. A datagram newer than
/// any seen marks the ones skipped since as missing (asked for one interval
/// ago, so that the next pass asks), within `RECV_WINDOW` of it, and forgets
/// older ones; any datagram stops being missing.
pub open spec fn after_datagram(v: ReceiveWindowView, seq: u32, now: u64) -> ReceiveWindowView {
    if seq > v.last_received {
        let floor = if seq >= RECV_WINDOW { seq - RECV_WINDOW } else { 0 };
        let start = if v.last_received + 1 >= floor { v.last_received + 1 } else { floor };
        ReceiveWindowView {
            missing: select(v.missing, at_or_above(floor)) + gap(start, seq as int, (now - NACK_INTERVAL_MS) as u64),
            last_received: seq as int,
            received: v.received.insert(seq),
        }
    } else {
        ReceiveWindowView {
            missing: select(v.missing, other_than(seq)),
            last_received: v.last_received,
            received: v.received.insert(seq),
        }
    }
}

/// The window after a pass over the missing datagrams at `now`: unless
/// frames wait behind them (`blocked`), those asked for too long ago are
/// given up; of the rest, those due are asked for again in at most
/// `MAX_NACKS_PER_PASS` ranges, and marked asked at `now`.
pub open spec fn after_pass(v: ReceiveWindowView, now: u64, blocked: bool) -> (
    ReceiveWindowView,
    Seq<(u32, u32)>,
) {
    let kept = if blocked { v.missing } else { select(v.missing, not_given_up(now)) };
    let rs = capped(runs(due_keys(kept, now)));
    (ReceiveWindowView { missing: mark(kept, rs, now), ..v }, rs)
}

impl ReceiveWindow {
    #[verifier::type_invariant]
    spec fn well_formed(self) -> bool {
        window_valid(self@)
    }

    /// No datagram seen yet.
    pub fn new() -> (r: ReceiveWindow)
        ensures
            r@.missing.len() == 0,
            r@.last_received == -1,
            r@.received.is_empty(),
            window_valid(r@),
    {
        ReceiveWindow { missing: Vec::new(), last_received: -1, received: Ghost(Set::empty()) }
    }

    /// The missing datagrams and when each was last asked for.
    pub fn missing(&self) -> (r: &Vec<(u32, u64)>)
        ensures
            r@ == self@.missing,
    {
        &self.missing
    }

    /// The newest sequence number seen, -1 before any.
    pub fn last_received(&self) -> (r: i64)
        ensures
            r == self@.last_received,
    {
        self.last_received
    }

    /// Copies the entries at or above `floor`.
    fn entries_from(s: &Vec<(u32, u64)>, floor: u32) -> (r: Vec<(u32, u64)>)
        ensures
            r@ == select(s@, at_or_above(floor as int)),
    {
        let mut out: Vec<(u32, u64)> = Vec::new();
        let mut i: usize = 0;
        while i < s.len()
            invariant
                i <= s@.len(),
                out@ == select(s@.take(i as int), at_or_above(floor as int)),
            decreases s@.len() - i,
        {
            assert(s@.take(i + 1).drop_last() =~= s@.take(i as int));
            if s[i].0 >= floor {
                out.push(s[i]);
            }
            i = i + 1;
        }
        assert(s@.take(i as int) =~= s@);
        out
    }

    /// Copies the entries for any sequence number but `seq`.
    fn entries_other_than(s: &Vec<(u32, u64)>, seq: u32) -> (r: Vec<(u32, u64)>)
        ensures
            r@ == select(s@, other_than(seq)),
    {
        let mut out: Vec<(u32, u64)> = Vec::new();
        let mut i: usize = 0;
        while i < s.len()
            invariant
                i <= s@.len(),
                out@ == select(s@.take(i as int), other_than(seq)),
            decreases s@.len() - i,
        {
            assert(s@.take(i + 1).drop_last() =~= s@.take(i as int));
            if s[i].0 != seq {
                out.push(s[i]);
            }
            i = i + 1;
        }
        assert(s@.take(i as int) =~= s@);
        out
    }

    /// Records that datagram `seq` arrived at `now`.
    pub fn on_datagram(&mut self, seq: u32, now: u64)
        requires
            now >= NACK_INTERVAL_MS,
        ensures
            final(self)@ == after_datagram(old(self)@, seq, now),
            window_valid(final(self)@),
            forall|i: int| 0 <= i < final(self)@.missing.len() ==> #[trigger] final(self)@.missing[i].0 != seq,
    {
        proof {
            use_type_invariant(&*self);
        }
        let ghost v = self@;
        if seq as i64 > self.last_received {
            let floor: u32 = if seq >= RECV_WINDOW { seq - RECV_WINDOW } else { 0 };
            let start: u32 = if self.last_received + 1 >= floor as i64 {
                (self.last_received + 1) as u32
            } else {
                floor
            };
            let asked = now - NACK_INTERVAL_MS;
            let mut missing = Self::entries_from(&self.missing, floor);
            let ghost kept = missing@;
            proof {
                lemma_select(v.missing, at_or_above(floor as int));
            }
            let mut m: u32 = start;
            while m < seq
                invariant
                    start <= m <= seq,
                    missing@ == kept + gap(start as int, m as int, asked),
                decreases seq - m,
            {
                missing.push((m, asked));
                m = m + 1;
                assert(missing@ =~= kept + gap(start as int, m as int, asked));
            }
            proof {
                let n = missing@;
                let g = gap(start as int, m as int, asked);
                assert forall|i: int| 0 <= i < kept.len() implies #[trigger] kept[i].0 < v.last_received by {
                    assert(kept.contains(kept[i]));
                    let k = choose|k: int| 0 <= k < v.missing.len() && v.missing[k] == kept[i];
                    assert(v.missing[k].0 < v.last_received);
                }
                assert forall|i: int, j: int| 0 <= i < j < n.len() implies n[i].0 < n[j].0 by {
                    if j < kept.len() {
                        assert(n[i] == kept[i] && n[j] == kept[j]);
                    } else if i < kept.len() {
                        assert(n[i] == kept[i]);
                        assert(n[j] == g[j - kept.len()]);
                    } else {
                        assert(n[i] == g[i - kept.len()] && n[j] == g[j - kept.len()]);
                    }
                }
                assert forall|i: int| 0 <= i < n.len() implies #[trigger] n[i].0 < seq && n[i].0
                    + RECV_WINDOW >= seq by {
                    if i < kept.len() {
                        assert(n[i] == kept[i]);
                        assert(kept.contains(kept[i]));
                    } else {
                        assert(n[i] == g[i - kept.len()]);
                    }
                }
            }
            let ghost received = self.received@.insert(seq);
            proof {
                let n = missing@;
                assert forall|i: int| 0 <= i < n.len() implies !received.contains(#[trigger] n[i].0) by {
                    if i < kept.len() {
                        assert(n[i] == kept[i]);
                        assert(kept.contains(kept[i]));
                        let k = choose|k: int| 0 <= k < v.missing.len() && v.missing[k] == kept[i];
                        assert(!v.received.contains(v.missing[k].0));
                    } else {
                        assert(n[i].0 > v.last_received);
                        assert(n[i].0 < seq);
                        if v.received.contains(n[i].0) {
                            assert(n[i].0 <= v.last_received);
                        }
                    }
                }
            }
            *self = ReceiveWindow { missing, last_received: seq as i64, received: Ghost(received) };
        } else {
            let missing = Self::entries_other_than(&self.missing, seq);
            proof {
                lemma_select(v.missing, other_than(seq));
                assert forall|i: int| 0 <= i < missing@.len() implies #[trigger] missing@[i].0
                    < v.last_received && missing@[i].0 + RECV_WINDOW >= v.last_received && missing@[i].0
                    != seq && !v.received.contains(missing@[i].0) by {
                    assert(missing@.contains(missing@[i]));
                    let k = choose|k: int| 0 <= k < v.missing.len() && v.missing[k] == missing@[i];
                    assert(v.missing[k].0 < v.last_received);
                    assert(!v.received.contains(v.missing[k].0));
                }
            }
            let ghost received = self.received@.insert(seq);
            *self = ReceiveWindow { missing, last_received: self.last_received, received: Ghost(received) };
        }
    }

    /// The entries kept by a pass: all when `blocked`, else those asked for
    /// less than the give-up time ago.
    fn kept_entries(s: &Vec<(u32, u64)>, now: u64, blocked: bool) -> (r: Vec<(u32, u64)>)
        ensures
            r@ == if blocked { s@ } else { select(s@, not_given_up(now)) },
    {
        let mut out: Vec<(u32, u64)> = Vec::new();
        let mut i: usize = 0;
        while i < s.len()
            invariant
                i <= s@.len(),
                out@ == if blocked { s@.take(i as int) } else { select(s@.take(i as int), not_given_up(now)) },
            decreases s@.len() - i,
        {
            assert(s@.take(i + 1).drop_last() =~= s@.take(i as int));
            assert(s@.take(i + 1) =~= s@.take(i as int).push(s@[i as int]));
            if blocked || elapsed_ms(now, s[i].1) < NACK_GIVE_UP_MS {
                out.push(s[i]);
            }
            i = i + 1;
        }
        assert(s@.take(i as int) =~= s@);
        out
    }

    /// The sequence numbers of the entries that are due, in order.
    fn due_seqs(s: &Vec<(u32, u64)>, now: u64) -> (r: Vec<u32>)
        ensures
            r@ == due_keys(s@, now),
    {
        let mut out: Vec<u32> = Vec::new();
        let mut i: usize = 0;
        while i < s.len()
            invariant
                i <= s@.len(),
                out@ == due_keys(s@.take(i as int), now),
            decreases s@.len() - i,
        {
            let ghost before = select(s@.take(i as int), due(now));
            assert(s@.take(i + 1).drop_last() =~= s@.take(i as int));
            if elapsed_ms(now, s[i].1) >= NACK_INTERVAL_MS {
                out.push(s[i].0);
                assert(keys(before.push(s@[i as int])) =~= keys(before).push(s@[i as int].0));
            }
            i = i + 1;
        }
        assert(s@.take(i as int) =~= s@);
        out
    }

    /// Whether some range of `rs` holds `x`.
    fn in_any(rs: &Vec<(u32, u32)>, x: u32) -> (r: bool)
        ensures
            r == in_ranges(rs@, x),
    {
        let mut k: usize = 0;
        while k < rs.len()
            invariant
                k <= rs@.len(),
                forall|j: int| 0 <= j < k ==> !(#[trigger] rs@[j].0 <= x && x <= rs@[j].1),
            decreases rs@.len() - k,
        {
            if rs[k].0 <= x && x <= rs[k].1 {
                return true;
            }
            k = k + 1;
        }
        false
    }

    /// One pass over the missing datagrams at `now`: gives up, unless
    /// `blocked`, those asked for too long ago, and returns the ranges to ask
    /// for again, marking their datagrams asked at `now`.
    pub fn nack_pass(&mut self, now: u64, blocked: bool) -> (r: Vec<(u32, u32)>)
        ensures
            (final(self)@, r@) == after_pass(old(self)@, now, blocked),
            window_valid(final(self)@),
    {
        proof {
            use_type_invariant(&*self);
        }
        let ghost v = self@;
        let kept = Self::kept_entries(&self.missing, now, blocked);
        proof {
            lemma_select(v.missing, not_given_up(now));
            lemma_due_keys_increasing(kept@, now);
        }
        let due = Self::due_seqs(&kept, now);
        let mut rs = runs_of(&due);
        rs.truncate(MAX_NACKS_PER_PASS);
        let ghost want = capped(runs(due@));
        assert(rs@ =~= want);
        let mut marked: Vec<(u32, u64)> = Vec::new();
        let mut i: usize = 0;
        while i < kept.len()
            invariant
                i <= kept@.len(),
                rs@ == want,
                marked@ == mark(kept@.take(i as int), want, now),
            decreases kept@.len() - i,
        {
            let e = kept[i];
            if Self::in_any(&rs, e.0) {
                marked.push((e.0, now));
            } else {
                marked.push(e);
            }
            i = i + 1;
            assert(marked@ =~= mark(kept@.take(i as int), want, now));
        }
        assert(kept@.take(i as int) =~= kept@);
        proof {
            let n = marked@;
            assert forall|a: int| 0 <= a < n.len() implies n[a].0 == kept@[a].0 by {}
            assert forall|a: int| 0 <= a < n.len() implies #[trigger] n[a].0 < v.last_received && n[a].0
                + RECV_WINDOW >= v.last_received && !v.received.contains(n[a].0) by {
                assert(n[a].0 == kept@[a].0);
                if !blocked {
                    assert(kept@.contains(kept@[a]));
                    let k = choose|k: int| 0 <= k < v.missing.len() && v.missing[k] == kept@[a];
                    assert(v.missing[k].0 < v.last_received);
                    assert(!v.received.contains(v.missing[k].0));
                } else {
                    assert(kept@[a] == v.missing[a]);
                    assert(!v.received.contains(v.missing[a].0));
                }
            }
            assert forall|a: int, b: int| 0 <= a < b < n.len() implies n[a].0 < n[b].0 by {
                assert(n[a].0 == kept@[a].0 && n[b].0 == kept@[b].0);
            }
        }
        assert(window_valid(ReceiveWindowView { missing: marked@, ..v }));
        self.missing = marked;
        rs
    }
}

/// A pass asks for at most `MAX_NACKS_PER_PASS` ranges, in order and
/// separated by gaps; each number a range holds is a datagram still missing
/// after the pass, and each such datagram is marked asked at the pass.
pub proof fn lemma_pass_ranges(v: ReceiveWindowView, now: u64, blocked: bool)
    requires
        window_valid(v),
    ensures
        ({
            let (w, rs) = after_pass(v, now, blocked);
            &&& rs.len() <= MAX_NACKS_PER_PASS
            &&& forall|k: int| 0 <= k < rs.len() ==> #[trigger] rs[k].0 <= rs[k].1
            &&& forall|k: int, l: int| 0 <= k < l < rs.len() ==> #[trigger] rs[k].1 + 1 < #[trigger] rs[l].0
            &&& forall|x: u32| in_ranges(rs, x) ==> keys(w.missing).contains(x)
            &&& forall|i: int|
                0 <= i < w.missing.len() && in_ranges(rs, #[trigger] w.missing[i].0) ==> w.missing[i].1
                    == now
        }),
{
    let kept = if blocked { v.missing } else { select(v.missing, not_given_up(now)) };
    lemma_select(v.missing, not_given_up(now));
    lemma_select(kept, due(now));
    let d = due_keys(kept, now);
    lemma_due_keys_increasing(kept, now);
    lemma_runs(d);
    let all = runs(d);
    let rs = capped(all);
    let (w, r2) = after_pass(v, now, blocked);
    assert(r2 == rs);
    assert forall|k: int| 0 <= k < rs.len() implies #[trigger] rs[k] == all[k] by {}
    assert forall|x: u32| in_ranges(rs, x) implies keys(w.missing).contains(x) by {
        let k = choose|k: int| 0 <= k < rs.len() && #[trigger] rs[k].0 <= x && x <= rs[k].1;
        assert(all[k].0 <= x && x <= all[k].1);
        assert(in_ranges(all, x));
        assert(d.contains(x));
        let j = choose|j: int| 0 <= j < d.len() && d[j] == x;
        let sel = select(kept, due(now));
        assert(sel.contains(sel[j]));
        let i = choose|i: int| 0 <= i < kept.len() && kept[i] == sel[j];
        assert(w.missing[i].0 == x);
        assert(keys(w.missing)[i] == x);
    }
}

/// The messages that answer a list of ranges: one message of `packet_type`
/// (`ID_ACK` or `ID_NACK`) per range, in order.
pub fn range_messages(packet_type: u8, ranges: &Vec<(u32, u32)>) -> (r: Vec<Vec<u8>>)
    ensures
        r@.len() == ranges@.len(),
        forall|i: int| 0 <= i < r@.len() ==> #[trigger] r@[i]@ == acknowledge_bytes(
            range_acknowledge(packet_type, ranges@[i]),
        ),
{
    let mut out: Vec<Vec<u8>> = Vec::new();
    let mut i: usize = 0;
    while i < ranges.len()
        invariant
            i <= ranges@.len(),
            out@.len() == i,
            forall|j: int| 0 <= j < i ==> #[trigger] out@[j]@ == acknowledge_bytes(
                range_acknowledge(packet_type, ranges@[j]),
            ),
        decreases ranges@.len() - i,
    {
        let a = Acknowledge::for_range(packet_type, ranges[i]);
        let mut buf: Vec<u8> = Vec::new();
        a.encode(&mut buf);
        out.push(buf);
        i = i + 1;
    }
    out
}

/// The packets on their way to the game, holding back level chunks that
/// arrive before the block palette: they cannot be read without it.
pub struct ChunkGate<P> {
    palette_ready: bool,
    pending: VecDeque<P>,
}

pub struct ChunkGateView<P> {
    pub palette_ready: bool,
    pub pending: Seq<P>,
}

impl<P> View for ChunkGate<P> {
    type V = ChunkGateView<P>;

    closed spec fn view(&self) -> ChunkGateView<P> {
        ChunkGateView { palette_ready: self.palette_ready, pending: self.pending@ }
    }
}

/// A `ChunkGate` once one packet arrived, and what goes on to the game.
pub open spec fn gate_after_packet<P>(g: ChunkGateView<P>, packet: P, is_level_chunk: bool) -> (
    ChunkGateView<P>,
    Option<P>,
) {
    if is_level_chunk && !g.palette_ready {
        (ChunkGateView { palette_ready: false, pending: g.pending.push(packet) }, None)
    } else {
        (g, Some(packet))
    }
}

/// A `ChunkGate` once it was asked for a held chunk, and the chunk let through.
pub open spec fn gate_after_next<P>(g: ChunkGateView<P>) -> (ChunkGateView<P>, Option<P>) {
    if g.palette_ready && g.pending.len() > 0 {
        (ChunkGateView { palette_ready: true, pending: g.pending.drop_first() }, Some(g.pending[0]))
    } else {
        (g, None)
    }
}

/// A `ChunkGate` once a run of packets arrived (each with whether it is a
/// level chunk), and what each of them let through, in order.
pub open spec fn gate_packets<P>(g: ChunkGateView<P>, ps: Seq<(P, bool)>) -> (
    ChunkGateView<P>,
    Seq<Option<P>>,
)
    decreases ps.len(),
{
    if ps.len() == 0 {
        (g, Seq::empty())
    } else {
        let (g1, r) = gate_after_packet(g, ps[0].0, ps[0].1);
        let (g2, rs) = gate_packets(g1, ps.drop_first());
        (g2, seq![r] + rs)
    }
}

/// A `ChunkGate` once asked `k` times for a held chunk, and what each let through.
pub open spec fn gate_nexts<P>(g: ChunkGateView<P>, k: nat) -> (ChunkGateView<P>, Seq<Option<P>>)
    decreases k,
{
    if k == 0 {
        (g, Seq::empty())
    } else {
        let (g1, r) = gate_after_next(g);
        let (g2, rs) = gate_nexts(g1, (k - 1) as nat);
        (g2, seq![r] + rs)
    }
}

/// The level chunks among `ps`, in arrival order.
pub open spec fn level_chunks<P>(ps: Seq<(P, bool)>) -> Seq<P>
    decreases ps.len(),
{
    if ps.len() == 0 {
        Seq::empty()
    } else if ps[0].1 {
        seq![ps[0].0] + level_chunks(ps.drop_first())
    } else {
        level_chunks(ps.drop_first())
    }
}

/// Before the palette, no level chunk gets through: every other packet goes
/// on at once, and the level chunks are held after those already held, in
/// the order they arrived.
pub proof fn lemma_chunks_held_before_palette<P>(g: ChunkGateView<P>, ps: Seq<(P, bool)>)
    requires
        !g.palette_ready,
    ensures
        gate_packets(g, ps).0 == (ChunkGateView { palette_ready: false, pending: g.pending + level_chunks(ps) }),
        gate_packets(g, ps).1.len() == ps.len(),
        forall|i: int|
            0 <= i < ps.len() ==> #[trigger] gate_packets(g, ps).1[i] == (if ps[i].1 {
                None
            } else {
                Some(ps[i].0)
            }),
    decreases ps.len(),
{
    if ps.len() > 0 {
        let (g1, r) = gate_after_packet(g, ps[0].0, ps[0].1);
        let rest = ps.drop_first();
        lemma_chunks_held_before_palette(g1, rest);
        let (g2, rs) = gate_packets(g1, rest);
        if ps[0].1 {
            assert(g1.pending + level_chunks(rest) =~= g.pending + level_chunks(ps));
        } else {
            assert(g1.pending + level_chunks(rest) =~= g.pending + level_chunks(ps));
        }
        assert forall|i: int| 0 <= i < ps.len() implies #[trigger] gate_packets(g, ps).1[i] == (if ps[i].1 {
            None
        } else {
            Some(ps[i].0)
        }) by {
            if i > 0 {
                assert(gate_packets(g, ps).1[i] == rs[i - 1]);
                assert(rest[i - 1] == ps[i]);
            }
        }
    }
}

/// Once the palette is there, the held chunks come out one per look, in the
/// order they arrived, until none is left.
pub proof fn lemma_held_chunks_in_order<P>(g: ChunkGateView<P>, k: nat)
    requires
        g.palette_ready,
        k <= g.pending.len(),
    ensures
        gate_nexts(g, k).0 == (ChunkGateView { palette_ready: true, pending: g.pending.skip(k as int) }),
        gate_nexts(g, k).1.len() == k,
        forall|i: int| 0 <= i < k ==> #[trigger] gate_nexts(g, k).1[i] == Some(g.pending[i]),
    decreases k,
{
    if k > 0 {
        let (g1, r) = gate_after_next(g);
        lemma_held_chunks_in_order(g1, (k - 1) as nat);
        let (g2, rs) = gate_nexts(g1, (k - 1) as nat);
        assert(g1.pending.skip(k - 1) =~= g.pending.skip(k as int));
        assert forall|i: int| 0 <= i < k implies #[trigger] gate_nexts(g, k).1[i] == Some(g.pending[i]) by {
            if i > 0 {
                assert(gate_nexts(g, k).1[i] == rs[i - 1]);
                assert(g1.pending[i - 1] == g.pending[i]);
            }
        }
    } else {
        assert(g.pending.skip(0) =~= g.pending);
    }
}

impl<P> ChunkGate<P> {
    /// No palette and nothing held.
    pub fn new() -> (r: ChunkGate<P>)
        ensures
            !r@.palette_ready,
            r@.pending.len() == 0,
    {
        ChunkGate { palette_ready: false, pending: VecDeque::new() }
    }

    /// Whether the block palette has arrived.
    pub fn palette_ready(&self) -> (r: bool)
        ensures
            r == self@.palette_ready,
    {
        self.palette_ready
    }

    /// The game started; `palette_present` tells whether it brought a palette
    /// that holds any block.
    pub fn on_game_started(&mut self, palette_present: bool)
        ensures
            final(self)@ == (ChunkGateView { palette_ready: palette_present, pending: old(self)@.pending }),
    {
        self.palette_ready = palette_present;
    }

    /// What the game gets before waiting for the network: once the palette
    /// is there, the chunk held longest.
    pub fn next_held(&mut self) -> (r: Option<P>)
        ensures
            (final(self)@, r) == gate_after_next(old(self)@),
            if old(self)@.palette_ready && old(self)@.pending.len() > 0 {
                &&& r == Some(old(self)@.pending[0])
                &&& final(self)@ == (ChunkGateView {
                    palette_ready: true,
                    pending: old(self)@.pending.drop_first(),
                })
            } else {
                r is None && final(self)@ == old(self)@
            },
    {
        if self.palette_ready && self.pending.len() > 0 {
            let r = self.pending.pop_front();
            assert(self.pending@ =~= old(self)@.pending.drop_first());
            r
        } else {
            None
        }
    }

    /// A packet arrived: a level chunk before the palette is held back, any
    /// other packet goes to the game.
    pub fn on_packet(&mut self, packet: P, is_level_chunk: bool) -> (r: Option<P>)
        ensures
            (final(self)@, r) == gate_after_packet(old(self)@, packet, is_level_chunk),
            if is_level_chunk && !old(self)@.palette_ready {
                &&& r is None
                &&& final(self)@ == (ChunkGateView {
                    palette_ready: false,
                    pending: old(self)@.pending.push(packet),
                })
            } else {
                r == Some(packet) && final(self)@ == old(self)@
            },
    {
        if is_level_chunk && !self.palette_ready {
            self.pending.push_back(packet);
            None
        } else {
            Some(packet)
        }
    }
}

} // verus!
