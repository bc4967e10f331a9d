//! Activity-timeline lanes derived from the status rings.
//!
//! * Heating: system status in {0, 1, 4, 8, 10} and compressor on
//!   (heat pump status in 3..=5).
//! * DHW: system status in {5, 10} and compressor on.
//! * Brine: brine pump running, independent of the compressor.
//!
//! Status samples are the register values truncated to integers; `None`
//! marks a sample that carried no number. A brine sample is whether the
//! pump reading was above zero.

use vstd::prelude::*;

verus! {

#[derive(Debug, Clone, Copy, PartialEq, Eq, Structural)]
pub enum Lane {
    Heating,
    Dhw,
    Brine,
}

/// A run of a lane, `[start, end]` in Unix seconds.
#[derive(Debug, Clone, Copy, PartialEq, Eq, Structural)]
pub struct ActivitySegment {
    pub lane: Lane,
    pub start: i64,
    pub end: i64,
}

// region: --- lane predicates

pub open spec fn spec_heating_on(sys: Option<u16>, hp: Option<u16>) -> bool {
    match (sys, hp) {
        (Some(s), Some(h)) => (s == 0 || s == 1 || s == 4 || s == 8 || s == 10) && 3 <= h <= 5,
        _ => false,
    }
}

pub open spec fn spec_dhw_on(sys: Option<u16>, hp: Option<u16>) -> bool {
    match (sys, hp) {
        (Some(s), Some(h)) => (s == 5 || s == 10) && 3 <= h <= 5,
        _ => false,
    }
}

pub open spec fn spec_brine_on(bp: Option<bool>) -> bool {
    bp == Some(true)
}

/// Heating lane: space-heating system status while the compressor runs.
pub fn heating_on(sys: Option<u16>, hp: Option<u16>) -> (r: bool)
    ensures
        r == spec_heating_on(sys, hp),
        r <==> (sys is Some && hp is Some && (sys->0 == 0 || sys->0 == 1 || sys->0 == 4 || sys->0
            == 8 || sys->0 == 10) && (hp->0 == 3 || hp->0 == 4 || hp->0 == 5)),
{
    match (sys, hp) {
        (Some(s), Some(h)) => (s == 0 || s == 1 || s == 4 || s == 8 || s == 10) && 3 <= h && h
            <= 5,
        _ => false,
    }
}

/// DHW lane: hot-water system status while the compressor runs.
pub fn dhw_on(sys: Option<u16>, hp: Option<u16>) -> (r: bool)
    ensures
        r == spec_dhw_on(sys, hp),
        r <==> (sys is Some && hp is Some && (sys->0 == 5 || sys->0 == 10) && (hp->0 == 3 || hp->0
            == 4 || hp->0 == 5)),
{
    match (sys, hp) {
        (Some(s), Some(h)) => (s == 5 || s == 10) && 3 <= h && h <= 5,
        _ => false,
    }
}

/// Brine lane: the pump was last seen running.
pub fn brine_on(bp: Option<bool>) -> (r: bool)
    ensures
        r == spec_brine_on(bp),
{
    match bp {
        Some(b) => b,
        None => false,
    }
}

/// Which statuses light which lane. The heating lane is on exactly when
/// the system status is one of the space-heating states 0, 1, 4, 8 and 10
/// while the heat pump status is one of the compressor-running states 3, 4
/// and 5; the hot-water lane exactly for system status 5 or 10 with the
/// compressor running; the brine lane exactly while the pump was seen
/// running. A missing reading lights no lane, and status 10 lights both
/// heating and hot water.
pub proof fn lane_statuses(s: u16, h: u16, sys: Option<u16>, hp: Option<u16>, bp: Option<bool>)
    ensures
        spec_heating_on(Some(s), Some(h)) <==> ((s == 0 || s == 1 || s == 4 || s == 8 || s == 10)
            && (h == 3 || h == 4 || h == 5)),
        spec_dhw_on(Some(s), Some(h)) <==> ((s == 5 || s == 10) && (h == 3 || h == 4 || h == 5)),
        sys is None || hp is None ==> !spec_heating_on(sys, hp) && !spec_dhw_on(sys, hp),
        spec_brine_on(bp) <==> bp == Some(true),
        (h == 3 || h == 4 || h == 5) ==> spec_heating_on(Some(10), Some(h)) && spec_dhw_on(
            Some(10),
            Some(h),
        ),
{
}

/// Lane of index 0, 1, 2 (anything above 1 is brine).
pub fn lane_from_idx(i: usize) -> (r: Lane)
    ensures
        r == (if i == 0 {
            Lane::Heating
        } else if i == 1 {
            Lane::Dhw
        } else {
            Lane::Brine
        }),
{
    match i {
        0 => Lane::Heating,
        1 => Lane::Dhw,
        _ => Lane::Brine,
    }
}

// endregion: --- lane predicates

// region: --- model

/// Value of the last sample of `s` taken at or before `t`.
pub open spec fn last_at<V>(s: Seq<(i64, V)>, t: i64) -> Option<V>
    decreases s.len(),
{
    if s.len() == 0 {
        None
    } else if s.last().0 <= t {
        Some(s.last().1)
    } else {
        last_at(s.drop_last(), t)
    }
}

pub open spec fn time_sorted<V>(s: Seq<(i64, V)>) -> bool {
    forall|i: int, j: int| 0 <= i <= j < s.len() ==> s[i].0 <= s[j].0
}

pub open spec fn strictly_increasing(s: Seq<i64>) -> bool {
    forall|i: int, j: int| 0 <= i < j < s.len() ==> s[i] < s[j]
}

pub open spec fn has_time<V>(s: Seq<(i64, V)>, t: i64) -> bool {
    exists|i: int| 0 <= i < s.len() && s[i].0 == t
}

/// `ticks` lists every sample time of the three series once, in increasing order.
pub open spec fn is_tick_axis(
    ticks: Seq<i64>,
    sys: Seq<(i64, Option<u16>)>,
    hp: Seq<(i64, Option<u16>)>,
    bp: Seq<(i64, bool)>,
) -> bool {
    &&& strictly_increasing(ticks)
    &&& forall|t: i64|
        #![trigger ticks.contains(t)]
        ticks.contains(t) <==> (has_time(sys, t) || has_time(hp, t) || has_time(bp, t))
}

/// The merged time axis of the three series.
pub open spec fn tick_axis(
    sys: Seq<(i64, Option<u16>)>,
    hp: Seq<(i64, Option<u16>)>,
    bp: Seq<(i64, bool)>,
) -> Seq<i64> {
    choose|ticks: Seq<i64>| is_tick_axis(ticks, sys, hp, bp)
}

/// Which lanes are on at tick `t`, from the latest sample of each signal.
pub open spec fn lanes_on_at(
    sys: Seq<(i64, Option<u16>)>,
    hp: Seq<(i64, Option<u16>)>,
    bp: Seq<(i64, bool)>,
    t: i64,
) -> (bool, bool, bool) {
    let s = match last_at(sys, t) {
        Some(v) => v,
        None => None,
    };
    let h = match last_at(hp, t) {
        Some(v) => v,
        None => None,
    };
    (spec_heating_on(s, h), spec_dhw_on(s, h), spec_brine_on(last_at(bp, t)))
}

/// One lane at one tick: open a run, close it (emitting a segment), or keep.
pub open spec fn lane_step(open: Option<i64>, on: bool, start: i64, t: i64, lane: Lane) -> (
    Option<i64>,
    Seq<ActivitySegment>,
) {
    match open {
        None => if on {
            (Some(start), Seq::empty())
        } else {
            (None, Seq::empty())
        },
        Some(s) => if on {
            (Some(s), Seq::empty())
        } else {
            (None, seq![ActivitySegment { lane, start: s, end: t }])
        },
    }
}

/// Runs still open when the ticks run out, closed at `now`, in lane order.
pub open spec fn close_open(open: (Option<i64>, Option<i64>, Option<i64>), now: i64) -> Seq<
    ActivitySegment,
> {
    let a = match open.0 {
        Some(s) => seq![ActivitySegment { lane: Lane::Heating, start: s, end: now }],
        None => Seq::empty(),
    };
    let b = match open.1 {
        Some(s) => seq![ActivitySegment { lane: Lane::Dhw, start: s, end: now }],
        None => Seq::empty(),
    };
    let c = match open.2 {
        Some(s) => seq![ActivitySegment { lane: Lane::Brine, start: s, end: now }],
        None => Seq::empty(),
    };
    a + b + c
}

/// Segments emitted from tick `k` on, given the runs open before it. A lane
/// on at the first tick opens at `from`; later runs open at their tick.
pub open spec fn segments_from(
    ticks: Seq<i64>,
    k: int,
    open: (Option<i64>, Option<i64>, Option<i64>),
    sys: Seq<(i64, Option<u16>)>,
    hp: Seq<(i64, Option<u16>)>,
    bp: Seq<(i64, bool)>,
    from: i64,
    now: i64,
) -> Seq<ActivitySegment>
    decreases ticks.len() - k,
{
    if k < 0 || k >= ticks.len() {
        close_open(open, now)
    } else {
        let t = ticks[k];
        let start = if k == 0 {
            from
        } else {
            t
        };
        let on = lanes_on_at(sys, hp, bp, t);
        let (o0, e0) = lane_step(open.0, on.0, start, t, Lane::Heating);
        let (o1, e1) = lane_step(open.1, on.1, start, t, Lane::Dhw);
        let (o2, e2) = lane_step(open.2, on.2, start, t, Lane::Brine);
        e0 + e1 + e2 + segments_from(ticks, k + 1, (o0, o1, o2), sys, hp, bp, from, now)
    }
}

/// The activity segments of the three series over the window opened at `from`.
pub open spec fn spec_segments(
    sys: Seq<(i64, Option<u16>)>,
    hp: Seq<(i64, Option<u16>)>,
    bp: Seq<(i64, bool)>,
    from: i64,
    now: i64,
) -> Seq<ActivitySegment> {
    segments_from(tick_axis(sys, hp, bp), 0, (None, None, None), sys, hp, bp, from, now)
}

/// Open-run slot of `lane`.
pub open spec fn open_slot(open: (Option<i64>, Option<i64>, Option<i64>), lane: Lane) -> Option<
    i64,
> {
    match lane {
        Lane::Heating => open.0,
        Lane::Dhw => open.1,
        Lane::Brine => open.2,
    }
}

/// Every sample of `s` lies inside `[from, now]`.
pub open spec fn samples_in_window<V>(s: Seq<(i64, V)>, from: i64, now: i64) -> bool {
    forall|i: int| 0 <= i < s.len() ==> from <= #[trigger] s[i].0 <= now
}

/// `t` is the time of a sample of one of the three series.
pub open spec fn sample_time(
    sys: Seq<(i64, Option<u16>)>,
    hp: Seq<(i64, Option<u16>)>,
    bp: Seq<(i64, bool)>,
    t: i64,
) -> bool {
    has_time(sys, t) || has_time(hp, t) || has_time(bp, t)
}

/// Segments of one lane come in time order and do not touch: each ends
/// before the next segment of its lane starts.
pub open spec fn lanes_ordered_disjoint(s: Seq<ActivitySegment>) -> bool {
    forall|i: int, j: int|
        #![trigger s[i], s[j]]
        0 <= i < j < s.len() && s[i].lane == s[j].lane ==> s[i].end < s[j].start
}

/// Every segment lies inside `[from, now]`, starts at `from` or at a tick of
/// `ticks`, and ends at a tick or at `now`.
pub open spec fn anchored_on(s: Seq<ActivitySegment>, ticks: Seq<i64>, from: i64, now: i64) -> bool {
    forall|i: int|
        #![trigger s[i]]
        0 <= i < s.len() ==> {
            &&& from <= s[i].start <= s[i].end <= now
            &&& (s[i].start == from || ticks.contains(s[i].start))
            &&& (s[i].end == now || ticks.contains(s[i].end))
        }
}

/// The placement of a day's segments: each lies inside `[from, now]`,
/// starts at `from` or at a sample time and ends at a sample time or at
/// `now`; the segments of one lane come in time order, each ending before
/// the next one starts, so at most one of them runs on to `now`.
pub open spec fn segments_placed(
    r: Seq<ActivitySegment>,
    sys: Seq<(i64, Option<u16>)>,
    hp: Seq<(i64, Option<u16>)>,
    bp: Seq<(i64, bool)>,
    from: i64,
    now: i64,
) -> bool {
    &&& forall|i: int|
        #![trigger r[i]]
        0 <= i < r.len() ==> {
            &&& from <= r[i].start <= r[i].end <= now
            &&& (r[i].start == from || sample_time(sys, hp, bp, r[i].start))
            &&& (r[i].end == now || sample_time(sys, hp, bp, r[i].end))
        }
    &&& lanes_ordered_disjoint(r)
}

/// An open run before tick `k` began inside the window, at `from` or at a
/// tick, and before tick `k`.
pub open spec fn slot_ok(slot: Option<i64>, ticks: Seq<i64>, k: int, from: i64, now: i64) -> bool {
    match slot {
        Some(s) => from <= s <= now && (k < ticks.len() ==> s < ticks[k]) && (s == from
            || ticks.contains(s)),
        None => true,
    }
}

/// Earliest start of a run opened at tick `k` or later.
pub open spec fn run_start(ticks: Seq<i64>, k: int, from: i64) -> i64 {
    if k == 0 {
        from
    } else {
        ticks[k]
    }
}

// endregion: --- model

// region: --- lemmas

/// Two increasing sequences with the same elements are equal.
pub proof fn lemma_increasing_unique(a: Seq<i64>, b: Seq<i64>)
    requires
        strictly_increasing(a),
        strictly_increasing(b),
        forall|x: i64| a.contains(x) <==> b.contains(x),
    ensures
        a == b,
    decreases a.len(),
{
    if a.len() == 0 {
        if b.len() > 0 {
            assert(b.contains(b[0]));
        }
        assert(a =~= b);
    } else {
        assert(a.contains(a[0]));
        assert(b.len() > 0);
        assert(b.contains(b[0]));
        let j = choose|j: int| 0 <= j < b.len() && b[j] == a[0];
        let i = choose|i: int| 0 <= i < a.len() && a[i] == b[0];
        assert(a[0] <= a[i]);
        assert(b[0] <= b[j]);
        assert(a[0] == b[0]);
        let a1 = a.drop_first();
        let b1 = b.drop_first();
        assert forall|x: i64| a1.contains(x) <==> b1.contains(x) by {
            if a1.contains(x) {
                let p = choose|p: int| 0 <= p < a1.len() && a1[p] == x;
                assert(a[p + 1] == x);
                assert(a.contains(x));
                let q = choose|q: int| 0 <= q < b.len() && b[q] == x;
                assert(q != 0);
                assert(b1[q - 1] == x);
            }
            if b1.contains(x) {
                let p = choose|p: int| 0 <= p < b1.len() && b1[p] == x;
                assert(b[p + 1] == x);
                assert(b.contains(x));
                let q = choose|q: int| 0 <= q < a.len() && a[q] == x;
                assert(q != 0);
                assert(a1[q - 1] == x);
            }
        }
        lemma_increasing_unique(a1, b1);
        assert(a =~= seq![a[0]] + a1);
        assert(b =~= seq![b[0]] + b1);
    }
}

/// With samples in time order, the latest sample at `t` is the last of the
/// first `i` samples when exactly those are at or before `t`.
pub proof fn lemma_last_at_prefix<V>(s: Seq<(i64, V)>, t: i64, i: int)
    requires
        0 <= i <= s.len(),
        forall|j: int| 0 <= j < i ==> s[j].0 <= t,
        forall|j: int| i <= j < s.len() ==> s[j].0 > t,
    ensures
        last_at(s, t) == (if i == 0 {
            None
        } else {
            Some(s[i - 1].1)
        }),
    decreases s.len(),
{
    if s.len() == 0 {
    } else if i == s.len() {
    } else {
        assert(s.last().0 > t);
        lemma_last_at_prefix(s.drop_last(), t, i);
    }
}

/// Unfold one tick of [`segments_from`].
pub proof fn lemma_segments_step(
    ticks: Seq<i64>,
    k: int,
    open: (Option<i64>, Option<i64>, Option<i64>),
    sys: Seq<(i64, Option<u16>)>,
    hp: Seq<(i64, Option<u16>)>,
    bp: Seq<(i64, bool)>,
    from: i64,
    now: i64,
    on: (bool, bool, bool),
)
    requires
        0 <= k < ticks.len(),
        on == lanes_on_at(sys, hp, bp, ticks[k]),
    ensures
        ({
            let t = ticks[k];
            let start = if k == 0 {
                from
            } else {
                t
            };
            let s0 = lane_step(open.0, on.0, start, t, Lane::Heating);
            let s1 = lane_step(open.1, on.1, start, t, Lane::Dhw);
            let s2 = lane_step(open.2, on.2, start, t, Lane::Brine);
            segments_from(ticks, k, open, sys, hp, bp, from, now) == s0.1 + s1.1 + s2.1
                + segments_from(ticks, k + 1, (s0.0, s1.0, s2.0), sys, hp, bp, from, now)
        }),
{
}

/// Every segment emitted at tick time `t` closes at `t` the run open for
/// its lane, which has no open run after it; no lane emits twice.
spec fn emitted_ok(
    e: Seq<ActivitySegment>,
    t: i64,
    open: (Option<i64>, Option<i64>, Option<i64>),
    next: (Option<i64>, Option<i64>, Option<i64>),
) -> bool {
    &&& forall|i: int|
        #![trigger e[i]]
        0 <= i < e.len() ==> {
            &&& e[i].end == t
            &&& open_slot(open, e[i].lane) == Some(e[i].start)
            &&& open_slot(next, e[i].lane) is None
        }
    &&& forall|i: int, j: int| #![trigger e[i], e[j]] 0 <= i < j < e.len() ==> e[i].lane != e[j].lane
}

/// A run open after a tick was open before it, or opened at `start`.
spec fn next_ok(
    open: (Option<i64>, Option<i64>, Option<i64>),
    next: (Option<i64>, Option<i64>, Option<i64>),
    start: i64,
) -> bool {
    forall|l: Lane|
        #![trigger open_slot(next, l)]
        open_slot(next, l) is Some ==> (open_slot(open, l) == open_slot(next, l) || (open_slot(
            open,
            l,
        ) is None && open_slot(next, l) == Some(start)))
}

/// Each segment starts no earlier than the run open for its lane, or, for a
/// lane with no open run, than the first run that can open from tick `k`.
spec fn starts_after(
    sg: Seq<ActivitySegment>,
    ticks: Seq<i64>,
    k: int,
    open: (Option<i64>, Option<i64>, Option<i64>),
    from: i64,
) -> bool {
    forall|i: int|
        #![trigger sg[i]]
        0 <= i < sg.len() ==> match open_slot(open, sg[i].lane) {
            Some(s) => s <= sg[i].start,
            None => k < ticks.len() && run_start(ticks, k, from) <= sg[i].start,
        }
}

spec fn slots_ok(
    open: (Option<i64>, Option<i64>, Option<i64>),
    ticks: Seq<i64>,
    k: int,
    from: i64,
    now: i64,
) -> bool {
    &&& slot_ok(open.0, ticks, k, from, now)
    &&& slot_ok(open.1, ticks, k, from, now)
    &&& slot_ok(open.2, ticks, k, from, now)
}

/// The three lanes at one tick emit as [`emitted_ok`] says and leave runs
/// open as [`next_ok`] says.
proof fn lemma_step_emits(
    open: (Option<i64>, Option<i64>, Option<i64>),
    on: (bool, bool, bool),
    start: i64,
    t: i64,
)
    ensures
        ({
            let s0 = lane_step(open.0, on.0, start, t, Lane::Heating);
            let s1 = lane_step(open.1, on.1, start, t, Lane::Dhw);
            let s2 = lane_step(open.2, on.2, start, t, Lane::Brine);
            let next = (s0.0, s1.0, s2.0);
            emitted_ok(s0.1 + s1.1 + s2.1, t, open, next) && next_ok(open, next, start)
        }),
{
    let s0 = lane_step(open.0, on.0, start, t, Lane::Heating);
    let s1 = lane_step(open.1, on.1, start, t, Lane::Dhw);
    let s2 = lane_step(open.2, on.2, start, t, Lane::Brine);
    let next = (s0.0, s1.0, s2.0);
    let e = s0.1 + s1.1 + s2.1;
    assert forall|i: int| 0 <= i < e.len() implies {
        &&& #[trigger] e[i].end == t
        &&& open_slot(open, e[i].lane) == Some(e[i].start)
        &&& open_slot(next, e[i].lane) is None
    } by {}
    assert forall|l: Lane| #[trigger] open_slot(next, l) is Some implies (open_slot(open, l)
        == open_slot(next, l) || (open_slot(open, l) is None && open_slot(next, l) == Some(start))) by {
        match l {
            Lane::Heating => {},
            Lane::Dhw => {},
            Lane::Brine => {},
        }
    }
}

/// The runs still open when the ticks run out close at `now`, one per lane.
proof fn lemma_close_open_ordered(
    open: (Option<i64>, Option<i64>, Option<i64>),
    ticks: Seq<i64>,
    from: i64,
    now: i64,
)
    requires
        slots_ok(open, ticks, ticks.len() as int, from, now),
    ensures
        anchored_on(close_open(open, now), ticks, from, now),
        lanes_ordered_disjoint(close_open(open, now)),
        starts_after(close_open(open, now), ticks, ticks.len() as int, open, from),
{
    let sg = close_open(open, now);
    assert forall|i: int| 0 <= i < sg.len() implies #[trigger] open_slot(open, sg[i].lane) == Some(
        sg[i].start,
    ) && sg[i].end == now && (forall|j: int| 0 <= j < sg.len() && j != i ==> sg[j].lane
        != sg[i].lane) by {}
}

/// A tick's emitted segments followed by those of the later ticks keep the
/// three properties.
proof fn lemma_concat_ordered(
    e: Seq<ActivitySegment>,
    rest: Seq<ActivitySegment>,
    ticks: Seq<i64>,
    k: int,
    open: (Option<i64>, Option<i64>, Option<i64>),
    next: (Option<i64>, Option<i64>, Option<i64>),
    from: i64,
    now: i64,
)
    requires
        strictly_increasing(ticks),
        0 <= k < ticks.len(),
        forall|i: int| 0 <= i < ticks.len() ==> from <= #[trigger] ticks[i] <= now,
        slots_ok(open, ticks, k, from, now),
        emitted_ok(e, ticks[k], open, next),
        next_ok(open, next, run_start(ticks, k, from)),
        anchored_on(rest, ticks, from, now),
        lanes_ordered_disjoint(rest),
        starts_after(rest, ticks, k + 1, next, from),
    ensures
        anchored_on(e + rest, ticks, from, now),
        lanes_ordered_disjoint(e + rest),
        starts_after(e + rest, ticks, k, open, from),
{
    let sg = e + rest;
    let t = ticks[k];
    assert(ticks.contains(t)) by {
        assert(ticks[k] == t);
    }
    assert(from <= ticks[0]);
    if k > 0 {
        assert(ticks[0] < ticks[k]);
    }
    if k + 1 < ticks.len() {
        assert(ticks[k] < ticks[k + 1]);
    }
    assert forall|l: Lane| #[trigger] slot_ok(open_slot(open, l), ticks, k, from, now) by {
        match l {
            Lane::Heating => {},
            Lane::Dhw => {},
            Lane::Brine => {},
        }
    }
    assert forall|i: int| 0 <= i < sg.len() implies match open_slot(open, #[trigger] sg[i].lane) {
        Some(s) => s <= sg[i].start,
        None => k < ticks.len() && run_start(ticks, k, from) <= sg[i].start,
    } by {
        if i >= e.len() {
            let x = rest[i - e.len()];
            assert(sg[i] == x);
            assert(slot_ok(open_slot(open, x.lane), ticks, k, from, now));
            if open_slot(next, x.lane) is Some {
                assert(open_slot(open, x.lane) == open_slot(next, x.lane) || (open_slot(open, x.lane) is None
                    && open_slot(next, x.lane) == Some(run_start(ticks, k, from))));
            }
        } else {
            assert(sg[i] == e[i]);
        }
    }
    assert forall|i: int| 0 <= i < sg.len() implies {
        &&& from <= #[trigger] sg[i].start <= sg[i].end <= now
        &&& (sg[i].start == from || ticks.contains(sg[i].start))
        &&& (sg[i].end == now || ticks.contains(sg[i].end))
    } by {
        if i >= e.len() {
            assert(sg[i] == rest[i - e.len()]);
        } else {
            assert(sg[i] == e[i]);
            assert(slot_ok(open_slot(open, e[i].lane), ticks, k, from, now));
        }
    }
    assert forall|i: int, j: int|
        0 <= i < j < sg.len() && #[trigger] sg[i].lane == #[trigger] sg[j].lane implies sg[i].end
        < sg[j].start by {
        if j < e.len() {
            assert(sg[i] == e[i] && sg[j] == e[j]);
        } else if i < e.len() {
            let y = rest[j - e.len()];
            assert(sg[i] == e[i]);
            assert(sg[j] == y);
        } else {
            assert(sg[i] == rest[i - e.len()]);
            assert(sg[j] == rest[j - e.len()]);
        }
    }
}

/// The segments emitted from tick `k` on are anchored in the window and,
/// lane by lane, ordered and disjoint.
proof fn lemma_segments_from_ordered(
    ticks: Seq<i64>,
    k: int,
    open: (Option<i64>, Option<i64>, Option<i64>),
    sys: Seq<(i64, Option<u16>)>,
    hp: Seq<(i64, Option<u16>)>,
    bp: Seq<(i64, bool)>,
    from: i64,
    now: i64,
)
    requires
        strictly_increasing(ticks),
        0 <= k <= ticks.len(),
        forall|i: int| 0 <= i < ticks.len() ==> from <= #[trigger] ticks[i] <= now,
        slots_ok(open, ticks, k, from, now),
    ensures
        anchored_on(segments_from(ticks, k, open, sys, hp, bp, from, now), ticks, from, now),
        lanes_ordered_disjoint(segments_from(ticks, k, open, sys, hp, bp, from, now)),
        starts_after(segments_from(ticks, k, open, sys, hp, bp, from, now), ticks, k, open, from),
    decreases ticks.len() - k,
{
    if k >= ticks.len() {
        lemma_close_open_ordered(open, ticks, from, now);
    } else {
        let t = ticks[k];
        let start = run_start(ticks, k, from);
        let on = lanes_on_at(sys, hp, bp, t);
        lemma_segments_step(ticks, k, open, sys, hp, bp, from, now, on);
        let s0 = lane_step(open.0, on.0, start, t, Lane::Heating);
        let s1 = lane_step(open.1, on.1, start, t, Lane::Dhw);
        let s2 = lane_step(open.2, on.2, start, t, Lane::Brine);
        let next = (s0.0, s1.0, s2.0);
        lemma_step_emits(open, on, start, t);
        assert(from <= ticks[0]);
        if k > 0 {
            assert(ticks[0] < ticks[k]);
        }
        if k + 1 < ticks.len() {
            assert(ticks[k] < ticks[k + 1]);
        }
        assert(ticks.contains(t)) by {
            assert(ticks[k] == t);
        }
        assert(slots_ok(next, ticks, k + 1, from, now));
        lemma_segments_from_ordered(ticks, k + 1, next, sys, hp, bp, from, now);
        lemma_concat_ordered(
            s0.1 + s1.1 + s2.1,
            segments_from(ticks, k + 1, next, sys, hp, bp, from, now),
            ticks,
            k,
            open,
            next,
            from,
            now,
        );
    }
}

/// On a tick axis of samples inside `[from, now]`, the segments lie in the
/// window, start at `from` or at a sample time, end at a sample time or at
/// `now`, and come lane by lane in time order without touching; with no
/// samples at all there are none.
proof fn lemma_segments_placed(
    ticks: Seq<i64>,
    sys: Seq<(i64, Option<u16>)>,
    hp: Seq<(i64, Option<u16>)>,
    bp: Seq<(i64, bool)>,
    from: i64,
    now: i64,
)
    requires
        is_tick_axis(ticks, sys, hp, bp),
    ensures
        samples_in_window(sys, from, now) && samples_in_window(hp, from, now) && samples_in_window(
            bp,
            from,
            now,
        ) ==> segments_placed(
            segments_from(ticks, 0, (None, None, None), sys, hp, bp, from, now),
            sys,
            hp,
            bp,
            from,
            now,
        ),
        sys.len() == 0 && hp.len() == 0 && bp.len() == 0 ==> segments_from(
            ticks,
            0,
            (None, None, None),
            sys,
            hp,
            bp,
            from,
            now,
        ).len() == 0,
{
    let none: (Option<i64>, Option<i64>, Option<i64>) = (None, None, None);
    let sg = segments_from(ticks, 0, none, sys, hp, bp, from, now);
    if sys.len() == 0 && hp.len() == 0 && bp.len() == 0 {
        if ticks.len() > 0 {
            assert(ticks.contains(ticks[0]));
            assert(!has_time(sys, ticks[0]));
            assert(!has_time(hp, ticks[0]));
            assert(!has_time(bp, ticks[0]));
        }
        assert(sg == close_open(none, now));
    }
    if samples_in_window(sys, from, now) && samples_in_window(hp, from, now) && samples_in_window(
        bp,
        from,
        now,
    ) {
        assert forall|i: int| 0 <= i < ticks.len() implies from <= #[trigger] ticks[i] <= now by {
            let t = ticks[i];
            assert(ticks.contains(t));
            if has_time(sys, t) {
                let x = choose|x: int| 0 <= x < sys.len() && sys[x].0 == t;
                assert(from <= sys[x].0 <= now);
            } else if has_time(hp, t) {
                let x = choose|x: int| 0 <= x < hp.len() && hp[x].0 == t;
                assert(from <= hp[x].0 <= now);
            } else {
                let x = choose|x: int| 0 <= x < bp.len() && bp[x].0 == t;
                assert(from <= bp[x].0 <= now);
            }
        }
        lemma_segments_from_ordered(ticks, 0, none, sys, hp, bp, from, now);
        assert forall|i: int| 0 <= i < sg.len() implies {
            &&& from <= #[trigger] sg[i].start <= sg[i].end <= now
            &&& (sg[i].start == from || sample_time(sys, hp, bp, sg[i].start))
            &&& (sg[i].end == now || sample_time(sys, hp, bp, sg[i].end))
        } by {
            if sg[i].start != from {
                assert(ticks.contains(sg[i].start));
            }
            if sg[i].end != now {
                assert(ticks.contains(sg[i].end));
            }
        }
    }
}

// endregion: --- lemmas

/// Advance a cursor past the samples taken at or before `t`; returns the
/// new cursor and the value of the last sample passed, if any.
fn advance<V: Copy>(s: &[(i64, V)], start: usize, t: i64, last: Option<V>) -> (r: (usize, Option<V>))
    requires
        time_sorted(s@),
        start <= s.len(),
        forall|j: int| 0 <= j < start ==> s@[j].0 <= t,
        last == (if start == 0 {
            None
        } else {
            Some(s@[start - 1].1)
        }),
    ensures
        start <= r.0 <= s.len(),
        forall|j: int| 0 <= j < r.0 ==> s@[j].0 <= t,
        forall|j: int| r.0 <= j < s.len() ==> s@[j].0 > t,
        r.1 == last_at(s@, t),
        r.1 == (if r.0 == 0 {
            None
        } else {
            Some(s@[r.0 - 1].1)
        }),
{
    let mut i = start;
    let mut cur = last;
    while i < s.len() && s[i].0 <= t
        invariant
            time_sorted(s@),
            start <= i <= s.len(),
            forall|j: int| 0 <= j < i ==> s@[j].0 <= t,
            cur == (if i == 0 {
                None
            } else {
                Some(s@[i - 1].1)
            }),
        decreases s.len() - i,
    {
        cur = Some(s[i].1);
        i += 1;
    }
    proof {
        if i < s.len() {
            assert forall|j: int| i <= j < s.len() implies s@[j].0 > t by {
                assert(s@[i as int].0 <= s@[j].0);
            }
        }
        lemma_last_at_prefix(s@, t, i as int);
    }
    (i, cur)
}

/// Every sample time of the three series once, in increasing order.
pub fn merged_times(
    sys: &[(i64, Option<u16>)],
    hp: &[(i64, Option<u16>)],
    bp: &[(i64, bool)],
) -> (r: Vec<i64>)
    requires
        time_sorted(sys@),
        time_sorted(hp@),
        time_sorted(bp@),
    ensures
        is_tick_axis(r@, sys@, hp@, bp@),
{
    let mut out: Vec<i64> = Vec::new();
    let mut i: usize = 0;
    let mut j: usize = 0;
    let mut k: usize = 0;
    while i < sys.len() || j < hp.len() || k < bp.len()
        invariant
            time_sorted(sys@),
            time_sorted(hp@),
            time_sorted(bp@),
            i <= sys.len(),
            j <= hp.len(),
            k <= bp.len(),
            strictly_increasing(out@),
            out.len() > 0 ==> (forall|x: int| i <= x < sys.len() ==> sys@[x].0 >= out@.last()),
            out.len() > 0 ==> (forall|x: int| j <= x < hp.len() ==> hp@[x].0 >= out@.last()),
            out.len() > 0 ==> (forall|x: int| k <= x < bp.len() ==> bp@[x].0 >= out@.last()),
            forall|t: i64|
                #![trigger out@.contains(t)]
                out@.contains(t) <==> ((exists|x: int| 0 <= x < i && sys@[x].0 == t) || (exists|
                    x: int,
                | 0 <= x < j && hp@[x].0 == t) || (exists|x: int| 0 <= x < k && bp@[x].0 == t)),
        decreases sys.len() + hp.len() + bp.len() - i - j - k,
    {
        let mut m: i64 = i64::MAX;
        if i < sys.len() && sys[i].0 < m {
            m = sys[i].0;
        }
        if j < hp.len() && hp[j].0 < m {
            m = hp[j].0;
        }
        if k < bp.len() && bp[k].0 < m {
            m = bp[k].0;
        }
        let ghost old_out = out@;
        let ghost (oi, oj, ok) = (i, j, k);
        assert(i < sys.len() ==> m <= sys@[i as int].0);
        assert(j < hp.len() ==> m <= hp@[j as int].0);
        assert(k < bp.len() ==> m <= bp@[k as int].0);
        assert((i < sys.len() && sys@[i as int].0 == m) || (j < hp.len() && hp@[j as int].0 == m)
            || (k < bp.len() && bp@[k as int].0 == m));
        let fresh = out.len() == 0 || out[out.len() - 1] != m;
        if fresh {
            out.push(m);
        }
        if i < sys.len() && sys[i].0 == m {
            i += 1;
        }
        if j < hp.len() && hp[j].0 == m {
            j += 1;
        }
        if k < bp.len() && bp[k].0 == m {
            k += 1;
        }
        proof {
            assert(out@.last() == m);
            assert forall|x: int| i <= x < sys.len() implies sys@[x].0 >= m by {
                assert(sys@[oi as int].0 <= sys@[x].0);
            }
            assert forall|x: int| j <= x < hp.len() implies hp@[x].0 >= m by {
                assert(hp@[oj as int].0 <= hp@[x].0);
            }
            assert forall|x: int| k <= x < bp.len() implies bp@[x].0 >= m by {
                assert(bp@[ok as int].0 <= bp@[x].0);
            }
            assert forall|a: int, b: int| 0 <= a < b < out@.len() implies out@[a] < out@[b] by {
                if fresh && b == out@.len() - 1 && a < b {
                    assert(old_out.len() > 0 ==> old_out.last() <= m);
                    assert(out@[a] == old_out[a]);
                    if old_out.len() > 0 {
                        assert(old_out[a] <= old_out.last());
                        assert(old_out.last() != m);
                    }
                }
            }
            assert forall|t: i64|
                #![trigger out@.contains(t)]
                out@.contains(t) <==> ((exists|x: int| 0 <= x < i && sys@[x].0 == t) || (exists|
                    x: int,
                | 0 <= x < j && hp@[x].0 == t) || (exists|x: int| 0 <= x < k && bp@[x].0 == t)) by {
                if out@.contains(t) {
                    if t == m {
                        if oi < sys.len() && sys@[oi as int].0 == m {
                            assert(0 <= oi < i && sys@[oi as int].0 == t);
                        } else if oj < hp.len() && hp@[oj as int].0 == m {
                            assert(0 <= oj < j && hp@[oj as int].0 == t);
                        } else {
                            assert(0 <= ok < k && bp@[ok as int].0 == t);
                        }
                    } else {
                        let p = choose|p: int| 0 <= p < out@.len() && out@[p] == t;
                        if fresh {
                            assert(p < old_out.len());
                        }
                        assert(old_out[p] == t);
                        assert(old_out.contains(t));
                    }
                }
                if (exists|x: int| 0 <= x < i && sys@[x].0 == t) || (exists|x: int|
                    0 <= x < j && hp@[x].0 == t) || (exists|x: int| 0 <= x < k && bp@[x].0 == t) {
                    if t == m {
                        assert(out@[out@.len() - 1] == t);
                    } else {
                        if exists|x: int| 0 <= x < i && sys@[x].0 == t {
                            let x = choose|x: int| 0 <= x < i && sys@[x].0 == t;
                            assert(x < oi);
                        }
                        if exists|x: int| 0 <= x < j && hp@[x].0 == t {
                            let x = choose|x: int| 0 <= x < j && hp@[x].0 == t;
                            assert(x < oj);
                        }
                        if exists|x: int| 0 <= x < k && bp@[x].0 == t {
                            let x = choose|x: int| 0 <= x < k && bp@[x].0 == t;
                            assert(x < ok);
                        }
                        assert(old_out.contains(t));
                        let p = choose|p: int| 0 <= p < old_out.len() && old_out[p] == t;
                        assert(out@[p] == t);
                    }
                }
            }
        }
    }
    proof {
        assert forall|t: i64| #![trigger out@.contains(t)]
            out@.contains(t) <==> (has_time(sys@, t) || has_time(hp@, t) || has_time(bp@, t)) by {
            if has_time(sys@, t) {
                let x = choose|x: int| 0 <= x < sys@.len() && sys@[x].0 == t;
                assert(0 <= x < i && sys@[x].0 == t);
            }
            if has_time(hp@, t) {
                let x = choose|x: int| 0 <= x < hp@.len() && hp@[x].0 == t;
                assert(0 <= x < j && hp@[x].0 == t);
            }
            if has_time(bp@, t) {
                let x = choose|x: int| 0 <= x < bp@.len() && bp@[x].0 == t;
                assert(0 <= x < k && bp@[x].0 == t);
            }
        }
    }
    out
}

/// One lane at one tick, on the open-run slot of that lane.
fn step_lane(
    slot: Option<i64>,
    on: bool,
    start: i64,
    t: i64,
    lane: Lane,
    out: &mut Vec<ActivitySegment>,
) -> (r: Option<i64>)
    ensures
        r == lane_step(slot, on, start, t, lane).0,
        final(out)@ == old(out)@ + lane_step(slot, on, start, t, lane).1,
{
    match slot {
        None => if on {
            Some(start)
        } else {
            None
        },
        Some(s) => if on {
            Some(s)
        } else {
            out.push(ActivitySegment { lane, start: s, end: t });
            proof {
                assert(final(out)@ =~= old(out)@ + seq![ActivitySegment { lane, start: s, end: t }]);
            }
            None
        },
    }
}

/// Walk the three time-sorted series on their merged time axis and emit
/// one segment per maximal run of each lane: segments close at the tick
/// where their lane turns off, in lane order within a tick; runs still open
/// at the end close at `now`. A lane already on at the first tick is taken
/// to have begun at the window open `from`. When every sample lies inside
/// `[from, now]`, the segments are placed as [`segments_placed`] says: in
/// the window, and lane by lane in time order without overlap. No samples
/// give no segments.
#[verifier::rlimit(80)]
pub fn segment(
    sys: &[(i64, Option<u16>)],
    hp: &[(i64, Option<u16>)],
    bp: &[(i64, bool)],
    from: i64,
    now: i64,
) -> (r: Vec<ActivitySegment>)
    requires
        time_sorted(sys@),
        time_sorted(hp@),
        time_sorted(bp@),
    ensures
        r@ == spec_segments(sys@, hp@, bp@, from, now),
        samples_in_window(sys@, from, now) && samples_in_window(hp@, from, now) && samples_in_window(
            bp@,
            from,
            now,
        ) ==> segments_placed(r@, sys@, hp@, bp@, from, now),
        forall|i: int, j: int|
            0 <= i < j < r@.len() && r@[i].lane == r@[j].lane && samples_in_window(sys@, from, now)
                && samples_in_window(hp@, from, now) && samples_in_window(bp@, from, now) ==> !(
            #[trigger] r@[i].end == now && #[trigger] r@[j].end == now),
        sys@.len() == 0 && hp@.len() == 0 && bp@.len() == 0 ==> r@.len() == 0,
{
    let times = merged_times(sys, hp, bp);
    proof {
        let c = tick_axis(sys@, hp@, bp@);
        assert(is_tick_axis(c, sys@, hp@, bp@));
        lemma_increasing_unique(times@, c);
        lemma_segments_placed(times@, sys@, hp@, bp@, from, now);
    }
    let mut out: Vec<ActivitySegment> = Vec::new();
    let mut si: usize = 0;
    let mut hi: usize = 0;
    let mut bi: usize = 0;
    let mut last_sys: Option<Option<u16>> = None;
    let mut last_hp: Option<Option<u16>> = None;
    let mut last_bp: Option<bool> = None;
    let mut open: (Option<i64>, Option<i64>, Option<i64>) = (None, None, None);
    let mut k: usize = 0;
    while k < times.len()
        invariant
            time_sorted(sys@),
            time_sorted(hp@),
            time_sorted(bp@),
            times@ == tick_axis(sys@, hp@, bp@),
            strictly_increasing(times@),
            k <= times.len(),
            si <= sys.len(),
            hi <= hp.len(),
            bi <= bp.len(),
            k > 0 ==> forall|j: int| 0 <= j < si ==> sys@[j].0 <= times@[k - 1],
            k > 0 ==> forall|j: int| 0 <= j < hi ==> hp@[j].0 <= times@[k - 1],
            k > 0 ==> forall|j: int| 0 <= j < bi ==> bp@[j].0 <= times@[k - 1],
            k == 0 ==> si == 0 && hi == 0 && bi == 0,
            last_sys == (if si == 0 {
                None
            } else {
                Some(sys@[si - 1].1)
            }),
            last_hp == (if hi == 0 {
                None
            } else {
                Some(hp@[hi - 1].1)
            }),
            last_bp == (if bi == 0 {
                None
            } else {
                Some(bp@[bi - 1].1)
            }),
            out@ + segments_from(times@, k as int, open, sys@, hp@, bp@, from, now)
                == spec_segments(sys@, hp@, bp@, from, now),
        decreases times.len() - k,
    {
        let t = times[k];
        proof {
            if k > 0 {
                assert(times@[k - 1] < t);
            }
        }
        let (a, b) = advance(sys, si, t, last_sys);
        si = a;
        last_sys = b;
        let (a, b) = advance(hp, hi, t, last_hp);
        hi = a;
        last_hp = b;
        let (a, b) = advance(bp, bi, t, last_bp);
        bi = a;
        last_bp = b;
        let s = match last_sys {
            Some(v) => v,
            None => None,
        };
        let h = match last_hp {
            Some(v) => v,
            None => None,
        };
        let on0 = heating_on(s, h);
        let on1 = dhw_on(s, h);
        let on2 = brine_on(last_bp);
        let start = if k == 0 { from } else { t };
        let ghost out0 = out@;
        let ghost open0 = open;
        let o0 = step_lane(open.0, on0, start, t, Lane::Heating, &mut out);
        let o1 = step_lane(open.1, on1, start, t, Lane::Dhw, &mut out);
        let o2 = step_lane(open.2, on2, start, t, Lane::Brine, &mut out);
        open = (o0, o1, o2);
        k += 1;
        proof {
            lemma_segments_step(
                times@,
                (k - 1) as int,
                open0,
                sys@,
                hp@,
                bp@,
                from,
                now,
                (on0, on1, on2),
            );
            let e0 = lane_step(open0.0, on0, start, t, Lane::Heating).1;
            let e1 = lane_step(open0.1, on1, start, t, Lane::Dhw).1;
            let e2 = lane_step(open0.2, on2, start, t, Lane::Brine).1;
            let rest = segments_from(times@, k as int, open, sys@, hp@, bp@, from, now);
            assert(out@ + rest =~= out0 + (e0 + e1 + e2 + rest));
        }
    }
    proof {
        assert(segments_from(times@, k as int, open, sys@, hp@, bp@, from, now) == close_open(
            open,
            now,
        ));
    }
    let ghost before = out@;
    if let Some(s) = open.0 {
        out.push(ActivitySegment { lane: Lane::Heating, start: s, end: now });
    }
    if let Some(s) = open.1 {
        out.push(ActivitySegment { lane: Lane::Dhw, start: s, end: now });
    }
    if let Some(s) = open.2 {
        out.push(ActivitySegment { lane: Lane::Brine, start: s, end: now });
    }
    assert(out@ =~= before + close_open(open, now));
    out
}

} // verus!
