//! In-memory side of the dashboard store: sensor identifiers, the per-sensor
//! retention ring, the step-response cache, per-second cycle sequence
//! numbers, and dirty tracking for the hourly flush. The embedded database
//! behind it is driven by the application.

pub mod poller;

use std::collections::{HashMap, VecDeque};
use vstd::prelude::*;
use crate::text::str_eq;
use crate::timefmt::{parse_rfc3339_instant, rfc3339_instant};
use chrono::{Datelike, NaiveDate};

verus! {

broadcast use vstd::std_specs::hash::group_hash_axioms;

/// Default in-memory retention for sensor samples (seconds).
pub const SERIES_RETENTION_SECS: i64 = 86400;

/// Cap on cached step-response events.
pub const MAX_STEP_EVENTS: usize = 50;

// region: --- sensors

/// Stable sensor identifiers. New entries append; never renumber.
#[derive(Copy, Clone, Debug, PartialEq, Eq, Hash, Structural)]
pub enum Sensor {
    Room,
    Outdoor,
    Flow,
    Return,
    FlowSp,
    HpIn,
    HpOut,
    Discharge,
    Suction,
    HighP,
    LowP,
    BrineIn,
    BrineOut,
    ChargePump,
    BrinePump,
    DhwUpper,
    Lower,
    SystemStatus,
    HpStatus,
}

pub open spec fn spec_sensor_id(s: Sensor) -> u16 {
    match s {
        Sensor::Room => 1,
        Sensor::Outdoor => 2,
        Sensor::Flow => 3,
        Sensor::Return => 4,
        Sensor::FlowSp => 5,
        Sensor::HpIn => 6,
        Sensor::HpOut => 7,
        Sensor::Discharge => 8,
        Sensor::Suction => 9,
        Sensor::HighP => 10,
        Sensor::LowP => 11,
        Sensor::BrineIn => 12,
        Sensor::BrineOut => 13,
        Sensor::ChargePump => 14,
        Sensor::BrinePump => 15,
        Sensor::DhwUpper => 16,
        Sensor::Lower => 17,
        Sensor::SystemStatus => 18,
        Sensor::HpStatus => 19,
    }
}

/// Whether `s` is one of the dashboard names of `sensor` (underscore or hyphen form).
pub open spec fn spec_slug_names(s: Seq<char>, sensor: Sensor) -> bool {
    match sensor {
        Sensor::Room => s == "room"@,
        Sensor::Outdoor => s == "outdoor"@,
        Sensor::Flow => s == "flow"@,
        Sensor::Return => s == "return"@,
        Sensor::FlowSp => s == "flow_sp"@ || s == "flow-sp"@,
        Sensor::HpIn => s == "hp_in"@ || s == "hp-in"@,
        Sensor::HpOut => s == "hp_out"@ || s == "hp-out"@,
        Sensor::Discharge => s == "discharge"@,
        Sensor::Suction => s == "suction"@,
        Sensor::HighP => s == "high_p"@ || s == "high-p"@,
        Sensor::LowP => s == "low_p"@ || s == "low-p"@,
        Sensor::BrineIn => s == "brine_in"@ || s == "brine-in"@,
        Sensor::BrineOut => s == "brine_out"@ || s == "brine-out"@,
        Sensor::ChargePump => s == "charge_pump"@ || s == "charge-pump"@,
        Sensor::BrinePump => s == "brine_pump"@ || s == "brine-pump"@,
        Sensor::DhwUpper => s == "dhw_upper"@ || s == "dhw-upper"@,
        Sensor::Lower => s == "lower"@,
        Sensor::SystemStatus => s == "system_status"@ || s == "system-status"@,
        Sensor::HpStatus => s == "hp_status"@ || s == "hp-status"@,
    }
}

/// Sensors in identifier order.
pub open spec fn sensor_order() -> Seq<Sensor> {
    seq![
        Sensor::Room,
        Sensor::Outdoor,
        Sensor::Flow,
        Sensor::Return,
        Sensor::FlowSp,
        Sensor::HpIn,
        Sensor::HpOut,
        Sensor::Discharge,
        Sensor::Suction,
        Sensor::HighP,
        Sensor::LowP,
        Sensor::BrineIn,
        Sensor::BrineOut,
        Sensor::ChargePump,
        Sensor::BrinePump,
        Sensor::DhwUpper,
        Sensor::Lower,
        Sensor::SystemStatus,
        Sensor::HpStatus,
    ]
}

/// The first sensor (in identifier order) that `s` names, if any.
pub open spec fn spec_from_slug(s: Seq<char>) -> Option<Sensor> {
    spec_first_named(s, 0)
}

pub open spec fn spec_first_named(s: Seq<char>, i: nat) -> Option<Sensor>
    decreases 19 - i,
{
    if i >= 19 {
        None
    } else if spec_slug_names(s, sensor_order()[i as int]) {
        Some(sensor_order()[i as int])
    } else {
        spec_first_named(s, i + 1)
    }
}

impl Sensor {
    /// Map a dashboard query string to its sensor.
    pub fn from_slug(s: &str) -> (r: Option<Self>)
        ensures
            r == spec_from_slug(s@),
    {
        let all = Self::all();
        let mut i: usize = 0;
        while i < 19
            invariant
                all@ == sensor_order(),
                i <= 19,
                spec_from_slug(s@) == spec_first_named(s@, i as nat),
            decreases 19 - i,
        {
            if all[i].is_named_by(s) {
                return Some(all[i]);
            }
            i += 1;
        }
        None
    }

    /// Whether `s` is one of this sensor's dashboard names.
    pub fn is_named_by(self, s: &str) -> (r: bool)
        ensures
            r == spec_slug_names(s@, self),
    {
        match self {
            Sensor::Room => str_eq(s, "room"),
            Sensor::Outdoor => str_eq(s, "outdoor"),
            Sensor::Flow => str_eq(s, "flow"),
            Sensor::Return => str_eq(s, "return"),
            Sensor::FlowSp => str_eq(s, "flow_sp") || str_eq(s, "flow-sp"),
            Sensor::HpIn => str_eq(s, "hp_in") || str_eq(s, "hp-in"),
            Sensor::HpOut => str_eq(s, "hp_out") || str_eq(s, "hp-out"),
            Sensor::Discharge => str_eq(s, "discharge"),
            Sensor::Suction => str_eq(s, "suction"),
            Sensor::HighP => str_eq(s, "high_p") || str_eq(s, "high-p"),
            Sensor::LowP => str_eq(s, "low_p") || str_eq(s, "low-p"),
            Sensor::BrineIn => str_eq(s, "brine_in") || str_eq(s, "brine-in"),
            Sensor::BrineOut => str_eq(s, "brine_out") || str_eq(s, "brine-out"),
            Sensor::ChargePump => str_eq(s, "charge_pump") || str_eq(s, "charge-pump"),
            Sensor::BrinePump => str_eq(s, "brine_pump") || str_eq(s, "brine-pump"),
            Sensor::DhwUpper => str_eq(s, "dhw_upper") || str_eq(s, "dhw-upper"),
            Sensor::Lower => str_eq(s, "lower"),
            Sensor::SystemStatus => str_eq(s, "system_status") || str_eq(s, "system-status"),
            Sensor::HpStatus => str_eq(s, "hp_status") || str_eq(s, "hp-status"),
        }
    }

    /// All sensors in identifier order.
    pub fn all() -> (r: Vec<Sensor>)
        ensures
            r@ == sensor_order(),
    {
        let v = vec![
            Sensor::Room,
            Sensor::Outdoor,
            Sensor::Flow,
            Sensor::Return,
            Sensor::FlowSp,
            Sensor::HpIn,
            Sensor::HpOut,
            Sensor::Discharge,
            Sensor::Suction,
            Sensor::HighP,
            Sensor::LowP,
            Sensor::BrineIn,
            Sensor::BrineOut,
            Sensor::ChargePump,
            Sensor::BrinePump,
            Sensor::DhwUpper,
            Sensor::Lower,
            Sensor::SystemStatus,
            Sensor::HpStatus,
        ];
        assert(v@ =~= sensor_order());
        v
    }

    /// Stable numeric identifier of the sensor.
    pub fn as_u16(self) -> (r: u16)
        ensures
            r == spec_sensor_id(self),
    {
        match self {
            Sensor::Room => 1,
            Sensor::Outdoor => 2,
            Sensor::Flow => 3,
            Sensor::Return => 4,
            Sensor::FlowSp => 5,
            Sensor::HpIn => 6,
            Sensor::HpOut => 7,
            Sensor::Discharge => 8,
            Sensor::Suction => 9,
            Sensor::HighP => 10,
            Sensor::LowP => 11,
            Sensor::BrineIn => 12,
            Sensor::BrineOut => 13,
            Sensor::ChargePump => 14,
            Sensor::BrinePump => 15,
            Sensor::DhwUpper => 16,
            Sensor::Lower => 17,
            Sensor::SystemStatus => 18,
            Sensor::HpStatus => 19,
        }
    }
}

/// Sensor identifiers are distinct, and sensor `i` in identifier order has id `i + 1`.
pub proof fn sensor_ids_distinct(a: Sensor, b: Sensor)
    ensures
        spec_sensor_id(a) == spec_sensor_id(b) ==> a == b,
        1 <= spec_sensor_id(a) <= 19,
        sensor_order()[spec_sensor_id(a) - 1] == a,
{
}

// endregion: --- sensors

// region: --- keys

/// A clock reading as Unix seconds: `None` before the epoch or beyond `i64`.
pub fn unix_secs(secs_since_epoch: Option<u64>) -> (r: Option<i64>)
    ensures
        r == (match secs_since_epoch {
            Some(s) => if s <= i64::MAX {
                Some(s as i64)
            } else {
                None::<i64>
            },
            None => None::<i64>,
        }),
{
    match secs_since_epoch {
        Some(s) => if s <= i64::MAX as u64 {
            Some(s as i64)
        } else {
            None
        },
        None => None,
    }
}

/// The calendar date `(year, month, day)` that chrono's
/// `NaiveDate::parse_from_str` reads from `s` with format `fmt`, if any.
pub uninterp spec fn calendar_date(s: Seq<char>, fmt: Seq<char>) -> Option<(i32, u32, u32)>;

/// Calls `NaiveDate::parse_from_str(s, fmt)` and reads the date's year,
/// month and day (chrono documents month in 1..=12 and day in 1..=31); a
/// parse error becomes `None`. The date is named by [`calendar_date`].
#[verifier::external_body]
fn parse_calendar_date(s: &str, fmt: &str) -> (r: Option<(i32, u32, u32)>)
    ensures
        r == calendar_date(s@, fmt@),
        r matches Some(d) ==> 1 <= d.1 <= 12 && 1 <= d.2 <= 31,
{
    match NaiveDate::parse_from_str(s, fmt) {
        Ok(d) => Some((d.year(), d.month(), d.day())),
        Err(_) => None,
    }
}

/// The daily key `YYYYMMDD` of a `YYYY-MM-DD` date, when the text is a
/// real calendar date whose key fits in a `u32`.
pub open spec fn spec_daily_key(date: Option<(i32, u32, u32)>) -> Option<u32> {
    match date {
        Some((y, m, d)) => if y >= 0 && y * 10000 + m * 100 + d <= u32::MAX {
            Some((y * 10000 + m * 100 + d) as u32)
        } else {
            None
        },
        None => None,
    }
}

/// The daily key `YYYYMMDD` of a calendar date, if the date is there, its
/// year is not negative and the key fits in a `u32`.
pub fn daily_key(date: Option<(i32, u32, u32)>) -> (r: Option<u32>)
    ensures
        r == spec_daily_key(date),
{
    match date {
        None => None,
        Some((y, m, d)) => {
            if y < 0 {
                return None;
            }
            let key = y as u64 * 10000 + m as u64 * 100 + d as u64;
            if key > u32::MAX as u64 {
                None
            } else {
                Some(key as u32)
            }
        },
    }
}

/// Parse `YYYY-MM-DD` into the daily key `YYYYMMDD`; calendar-invalid
/// dates (month 13, February 31st) are refused.
pub fn parse_date_yyyymmdd(s: &str) -> (r: Option<u32>)
    ensures
        r == spec_daily_key(calendar_date(s@, "%Y-%m-%d"@)),
{
    daily_key(parse_calendar_date(s, "%Y-%m-%d"))
}

// endregion: --- keys

// region: --- accumulators

/// Lifetime counters persisted across restarts.
#[derive(Debug, Clone, Copy, PartialEq, Eq, Structural)]
pub struct Accumulators {
    pub tracking_started_unix_secs: u64,
    pub total_starts: u64,
    pub total_operating_secs: u64,
}

impl Default for Accumulators {
    fn default() -> (r: Self)
        ensures
            r.tracking_started_unix_secs == 0,
            r.total_starts == 0,
            r.total_operating_secs == 0,
    {
        Accumulators { tracking_started_unix_secs: 0, total_starts: 0, total_operating_secs: 0 }
    }
}

/// Some counter differs from its default.
pub open spec fn spec_initialized(a: Accumulators) -> bool {
    a.tracking_started_unix_secs != 0 || a.total_starts != 0 || a.total_operating_secs != 0
}

impl Accumulators {
    /// Whether any counter differs from its default (a store that has been
    /// initialised must not be overwritten by a legacy import).
    pub fn is_initialized(&self) -> (r: bool)
        ensures
            r == spec_initialized(*self),
    {
        self.tracking_started_unix_secs != 0 || self.total_starts != 0
            || self.total_operating_secs != 0
    }
}

// endregion: --- accumulators

// region: --- legacy import

/// The cycle second of a legacy cycle timestamp: the RFC 3339 instant's
/// whole seconds, with an unparsable text or an instant before the epoch
/// read as the epoch.
pub open spec fn spec_legacy_cycle_secs(stamp: Seq<char>) -> i64 {
    match rfc3339_instant(stamp) {
        Some((secs, _)) => if secs < 0 {
            0
        } else {
            secs
        },
        None => 0,
    }
}

/// The daily key of a legacy `YYYY-MM-DD` date, `0` when it is no calendar
/// date or its key does not fit.
pub open spec fn spec_legacy_daily_key(date: Seq<char>) -> u32 {
    match spec_daily_key(calendar_date(date, "%Y-%m-%d"@)) {
        Some(k) => k,
        None => 0,
    }
}

/// Second under which a legacy cycle with timestamp `timestamp` is filed.
pub fn legacy_cycle_secs(timestamp: &str) -> (r: i64)
    ensures
        r == spec_legacy_cycle_secs(timestamp@),
        r >= 0,
{
    match parse_rfc3339_instant(timestamp) {
        Some((secs, _)) => if secs < 0 {
            0
        } else {
            secs
        },
        None => 0,
    }
}

/// What a legacy import writes: the counters, the second of each cycle in
/// file order and the daily key of each day in file order.
pub struct LegacyImport {
    pub accumulators: Accumulators,
    pub cycle_secs: Vec<i64>,
    pub daily_keys: Vec<u32>,
}

/// Plan the import of a legacy stats file whose counters are `legacy`,
/// whose cycles carry the timestamps `cycle_stamps` and whose days carry
/// the dates `dates`. A store whose counters are already initialised is
/// never overwritten: then there is nothing to import.
pub fn plan_legacy_import(
    current: &Accumulators,
    legacy: Accumulators,
    cycle_stamps: &Vec<String>,
    dates: &Vec<String>,
) -> (r: Option<LegacyImport>)
    ensures
        r is None <==> spec_initialized(*current),
        r matches Some(p) ==> {
            &&& p.accumulators == legacy
            &&& p.cycle_secs@.len() == cycle_stamps@.len()
            &&& forall|i: int|
                0 <= i < cycle_stamps@.len() ==> #[trigger] p.cycle_secs@[i]
                    == spec_legacy_cycle_secs(cycle_stamps@[i]@)
            &&& p.daily_keys@.len() == dates@.len()
            &&& forall|i: int|
                0 <= i < dates@.len() ==> #[trigger] p.daily_keys@[i] == spec_legacy_daily_key(
                    dates@[i]@,
                )
        },
{
    if current.is_initialized() {
        return None;
    }
    let mut cycle_secs: Vec<i64> = Vec::new();
    let mut i: usize = 0;
    while i < cycle_stamps.len()
        invariant
            i <= cycle_stamps@.len(),
            cycle_secs@.len() == i,
            forall|j: int|
                0 <= j < i ==> #[trigger] cycle_secs@[j] == spec_legacy_cycle_secs(
                    cycle_stamps@[j]@,
                ),
        decreases cycle_stamps@.len() - i,
    {
        cycle_secs.push(legacy_cycle_secs(cycle_stamps[i].as_str()));
        i += 1;
    }
    let mut daily_keys: Vec<u32> = Vec::new();
    let mut k: usize = 0;
    while k < dates.len()
        invariant
            k <= dates@.len(),
            daily_keys@.len() == k,
            forall|j: int|
                0 <= j < k ==> #[trigger] daily_keys@[j] == spec_legacy_daily_key(dates@[j]@),
        decreases dates@.len() - k,
    {
        let key = match parse_date_yyyymmdd(dates[k].as_str()) {
            Some(v) => v,
            None => 0,
        };
        daily_keys.push(key);
        k += 1;
    }
    Some(LegacyImport { accumulators: legacy, cycle_secs, daily_keys })
}

// endregion: --- legacy import

// region: --- series ring

/// `s` without its longest prefix of samples older than `cutoff`.
pub open spec fn drop_older_prefix<V>(s: Seq<(i64, V)>, cutoff: int) -> Seq<(i64, V)>
    decreases s.len(),
{
    if s.len() > 0 && (s[0].0 as int) < cutoff {
        drop_older_prefix(s.drop_first(), cutoff)
    } else {
        s
    }
}

/// The ring after recording `(t, value)` onto `s` with the given retention.
pub open spec fn after_record<V>(s: Seq<(i64, V)>, t: i64, value: V, retention: int) -> Seq<(i64, V)> {
    drop_older_prefix(s.push((t, value)), t - retention)
}

pub open spec fn sorted_by_time<V>(s: Seq<(i64, V)>) -> bool {
    forall|i: int, j: int| 0 <= i <= j < s.len() ==> s[i].0 <= s[j].0
}

/// Samples of `s` with `from <= t < to`, in order.
pub open spec fn in_window<V>(s: Seq<(i64, V)>, from: i64, to: i64) -> Seq<(i64, V)> {
    s.filter(|x: (i64, V)| from <= x.0 && x.0 < to)
}

/// A per-sensor ring of `(unix_secs, value)` samples with time-based retention.
pub struct SeriesRing<V> {
    pub samples: VecDeque<(i64, V)>,
    pub retention_secs: i64,
}

impl<V: Copy> SeriesRing<V> {
    pub open spec fn view_samples(&self) -> Seq<(i64, V)> {
        self.samples@
    }

    pub fn new(retention_secs: i64) -> (r: Self)
        ensures
            r.view_samples() == Seq::<(i64, V)>::empty(),
            r.retention_secs == retention_secs,
    {
        SeriesRing { samples: VecDeque::new(), retention_secs }
    }

    /// Append a sample taken at `t`, then drop leading samples older than
    /// `t - retention_secs`.
    pub fn record(&mut self, t: i64, value: V)
        requires
            old(self).retention_secs >= 0,
            old(self).samples.len() < usize::MAX,
            t >= i64::MIN + old(self).retention_secs,
        ensures
            final(self).retention_secs == old(self).retention_secs,
            final(self).view_samples() == after_record(
                old(self).view_samples(),
                t,
                value,
                old(self).retention_secs as int,
            ),
    {
        self.samples.push_back((t, value));
        let cutoff = t - self.retention_secs;
        while self.samples.len() > 0 && self.samples[0].0 < cutoff
            invariant
                self.retention_secs == old(self).retention_secs,
                cutoff == t - old(self).retention_secs,
                drop_older_prefix(self.samples@, cutoff as int) == drop_older_prefix(
                    old(self).view_samples().push((t, value)),
                    cutoff as int,
                ),
            decreases self.samples.len(),
        {
            let ghost before = self.samples@;
            self.samples.pop_front();
            assert(self.samples@ =~= before.drop_first());
        }
    }

    /// Samples with `from <= t < to`, in order.
    pub fn range(&self, from: i64, to: i64) -> (r: Vec<(i64, V)>)
        ensures
            r@ == in_window(self.view_samples(), from, to),
    {
        let mut out: Vec<(i64, V)> = Vec::new();
        let mut i: usize = 0;
        while i < self.samples.len()
            invariant
                i <= self.samples.len(),
                out@ == in_window(self.samples@.subrange(0, i as int), from, to),
            decreases self.samples.len() - i,
        {
            let x = self.samples[i];
            proof {
                let pre = self.samples@.subrange(0, i as int);
                assert(self.samples@.subrange(0, i + 1) =~= pre.push(x));
                pre.lemma_filter_push(x, |x: (i64, V)| from <= x.0 && x.0 < to);
            }
            if from <= x.0 && x.0 < to {
                out.push(x);
            }
            i += 1;
        }
        assert(self.samples@.subrange(0, self.samples@.len() as int) =~= self.samples@);
        out
    }

    /// Most recent sample, if any.
    pub fn latest(&self) -> (r: Option<(i64, V)>)
        ensures
            self.view_samples().len() == 0 ==> r is None,
            self.view_samples().len() > 0 ==> r == Some(self.view_samples().last()),
    {
        let n = self.samples.len();
        if n == 0 {
            None
        } else {
            Some(self.samples[n - 1])
        }
    }
}

pub proof fn lemma_drop_older_prefix_suffix<V>(s: Seq<(i64, V)>, cutoff: int)
    ensures
        exists|k: int|
            0 <= k <= s.len() && drop_older_prefix(s, cutoff) == s.subrange(k, s.len() as int),
    decreases s.len(),
{
    if s.len() > 0 && (s[0].0 as int) < cutoff {
        lemma_drop_older_prefix_suffix(s.drop_first(), cutoff);
        let k = choose|k: int|
            0 <= k <= s.drop_first().len() && drop_older_prefix(s.drop_first(), cutoff)
                == s.drop_first().subrange(k, s.drop_first().len() as int);
        assert(s.drop_first().subrange(k, s.drop_first().len() as int) =~= s.subrange(
            k + 1,
            s.len() as int,
        ));
    } else {
        assert(s.subrange(0, s.len() as int) =~= s);
    }
}

pub proof fn lemma_drop_older_prefix_sorted<V>(s: Seq<(i64, V)>, cutoff: int)
    requires
        sorted_by_time(s),
    ensures
        sorted_by_time(drop_older_prefix(s, cutoff)),
        forall|i: int|
            0 <= i < drop_older_prefix(s, cutoff).len() ==> cutoff <= (drop_older_prefix(
                s,
                cutoff,
            )[i].0 as int),
    decreases s.len(),
{
    if s.len() > 0 && (s[0].0 as int) < cutoff {
        lemma_drop_older_prefix_sorted(s.drop_first(), cutoff);
    } else if s.len() > 0 {
        assert forall|i: int| 0 <= i < s.len() implies cutoff <= (s[i].0 as int) by {
            assert(s[0].0 <= s[i].0);
        }
    }
}

/// Retention: when samples arrive in time order, the ring stays in time
/// order, holds no sample older than the newest minus the retention, and
/// still holds every recorded sample inside that horizon, the newest last.
pub proof fn series_ring_retention<V>(s: Seq<(i64, V)>, t: i64, value: V, retention: int)
    requires
        sorted_by_time(s),
        s.len() > 0 ==> s.last().0 <= t,
    ensures
        sorted_by_time(after_record(s, t, value, retention)),
        forall|i: int|
            0 <= i < after_record(s, t, value, retention).len() ==> t - retention <= (
            #[trigger] after_record(s, t, value, retention)[i]).0 as int,
        retention >= 0 ==> after_record(s, t, value, retention).len() > 0 && after_record(
            s,
            t,
            value,
            retention,
        ).last() == (t, value),
        forall|i: int|
            0 <= i < s.len() && t - retention <= (#[trigger] s[i]).0 as int ==> after_record(
                s,
                t,
                value,
                retention,
            ).contains(s[i]),
{
    let p = s.push((t, value));
    assert(sorted_by_time(p)) by {
        assert forall|i: int, j: int| 0 <= i <= j < p.len() implies p[i].0 <= p[j].0 by {
            if j == s.len() && i < s.len() {
                assert(s[i].0 <= s.last().0);
            }
        }
    }
    lemma_drop_older_prefix_sorted(p, t - retention);
    lemma_drop_older_prefix_suffix(p, t - retention);
    let k = choose|k: int|
        0 <= k <= p.len() && drop_older_prefix(p, t - retention) == p.subrange(k, p.len() as int);
    let d = drop_older_prefix(p, t - retention);
    assert forall|i: int| 0 <= i < s.len() && t - retention <= (s[i].0 as int) implies d.contains(
        s[i],
    ) by {
        if i < k {
            assert(d.len() > 0 ==> d[0] == p[k]);
            if k < p.len() {
                assert(p[i].0 <= p[k - 1].0);
                assert(!(d[0].0 < t - retention));
            }
            assert(k >= 1);
            lemma_prefix_before_cutoff(p, t - retention, k, i);
        }
        assert(d[i - k] == p[i]);
    }
    if retention >= 0 {
        if k == p.len() {
            lemma_prefix_before_cutoff(p, t - retention, k, s.len() as int);
        }
        assert(d.last() == p.last());
    }
}

/// Dropping the older prefix removes exactly the leading samples older than
/// the cutoff: what is left starts at the first sample at or after it.
proof fn lemma_drop_prefix_shape<V>(p: Seq<(i64, V)>, cutoff: int)
    ensures
        exists|k: int|
            #![trigger p.subrange(k, p.len() as int)]
            0 <= k <= p.len() && drop_older_prefix(p, cutoff) == p.subrange(k, p.len() as int)
                && (forall|j: int| 0 <= j < k ==> (#[trigger] p[j].0 as int) < cutoff) && (k
                < p.len() ==> cutoff <= p[k].0 as int),
    decreases p.len(),
{
    if p.len() > 0 && (p[0].0 as int) < cutoff {
        let q = p.drop_first();
        lemma_drop_prefix_shape(q, cutoff);
        let k = choose|k: int|
            #![trigger q.subrange(k, q.len() as int)]
            0 <= k <= q.len() && drop_older_prefix(q, cutoff) == q.subrange(k, q.len() as int)
                && (forall|j: int| 0 <= j < k ==> (#[trigger] q[j].0 as int) < cutoff) && (k
                < q.len() ==> cutoff <= q[k].0 as int);
        assert(q.subrange(k, q.len() as int) =~= p.subrange(k + 1, p.len() as int));
        assert forall|j: int| 0 <= j < k + 1 implies (#[trigger] p[j].0 as int) < cutoff by {
            if j > 0 {
                assert(p[j] == q[j - 1]);
            }
        }
        if k + 1 < p.len() {
            assert(p[k + 1] == q[k]);
        }
    } else {
        assert(p.subrange(0, p.len() as int) =~= p);
    }
}

/// Recording a sample, in or out of time order, keeps the samples from the
/// first one at or after `t - retention` on and drops the leading ones
/// older than that; with a retention of zero or more the sample just
/// recorded is kept, and it is the newest, last in the ring.
pub proof fn newest_sample_is_last_recorded<V>(s: Seq<(i64, V)>, t: i64, value: V, retention: int)
    requires
        retention >= 0,
    ensures
        after_record(s, t, value, retention).len() > 0,
        after_record(s, t, value, retention).last() == (t, value),
        exists|k: int|
            #![trigger s.push((t, value)).subrange(k, s.len() + 1int)]
            0 <= k <= s.len() && after_record(s, t, value, retention) == s.push((t, value)).subrange(
                k,
                s.len() + 1int,
            ) && (forall|j: int| 0 <= j < k ==> (#[trigger] s[j].0 as int) < t - retention) && (
            k <= s.len() ==> t - retention <= s.push((t, value))[k].0 as int),
{
    let p = s.push((t, value));
    let c = t - retention;
    lemma_drop_prefix_shape(p, c);
    let k = choose|k: int|
        #![trigger p.subrange(k, p.len() as int)]
        0 <= k <= p.len() && drop_older_prefix(p, c) == p.subrange(k, p.len() as int) && (forall|
            j: int,
        | 0 <= j < k ==> (#[trigger] p[j].0 as int) < c) && (k < p.len() ==> c <= p[k].0 as int);
    if k == p.len() {
        assert(p[s.len() as int].0 as int >= c);
        assert((p[s.len() as int].0 as int) < c);
    }
    assert forall|j: int| 0 <= j < k implies (#[trigger] s[j].0 as int) < c by {
        assert(p[j] == s[j]);
    }
    let d = p.subrange(k, p.len() as int);
    assert(d.last() == p.last());
}

/// Every sample dropped from the front is older than the cutoff.
proof fn lemma_prefix_before_cutoff<V>(s: Seq<(i64, V)>, cutoff: int, k: int, i: int)
    requires
        0 <= k <= s.len(),
        drop_older_prefix(s, cutoff) == s.subrange(k, s.len() as int),
        0 <= i < k,
    ensures
        (s[i].0 as int) < cutoff,
    decreases s.len(),
{
    if s.len() > 0 && (s[0].0 as int) < cutoff {
        if i > 0 {
            assert(s.drop_first().subrange(k - 1, s.drop_first().len() as int) =~= s.subrange(
                k,
                s.len() as int,
            ));
            lemma_prefix_before_cutoff(s.drop_first(), cutoff, k - 1, i - 1);
        }
    } else {
        assert(s.subrange(k, s.len() as int).len() == s.len() - k);
        assert(s.len() - k == s.len());
    }
}

// endregion: --- series ring

// region: --- step events cache

/// Most recent step-response events, newest first, at most `MAX_STEP_EVENTS`.
pub struct StepEventCache<T> {
    pub events: Vec<T>,
}

impl<T> StepEventCache<T> {
    pub open spec fn wf(&self) -> bool {
        self.events.len() <= MAX_STEP_EVENTS
    }

    pub fn new() -> (r: Self)
        ensures
            r.events@ == Seq::<T>::empty(),
    {
        StepEventCache { events: Vec::new() }
    }

    /// Put `event` first; the oldest beyond `MAX_STEP_EVENTS` falls off.
    pub fn record(&mut self, event: T)
        requires
            old(self).wf(),
        ensures
            final(self).wf(),
            final(self).events@ == seq![event].add(old(self).events@).take(
                if old(self).events.len() + 1 > MAX_STEP_EVENTS {
                    MAX_STEP_EVENTS as int
                } else {
                    old(self).events.len() + 1
                },
            ),
    {
        let ghost before = self.events@;
        self.events.insert(0, event);
        assert(self.events@ =~= seq![event].add(before));
        if self.events.len() > MAX_STEP_EVENTS {
            self.events.truncate(MAX_STEP_EVENTS);
        }
        assert(self.events@ =~= seq![event].add(before).take(self.events.len() as int));
    }

    /// The newest `min(limit, MAX_STEP_EVENTS)` events, newest first.
    pub fn recent(&self, limit: usize) -> (r: Vec<&T>)
        ensures
            r.len() == vstd::math::min(
                vstd::math::min(limit as int, MAX_STEP_EVENTS as int),
                self.events.len() as int,
            ),
            forall|i: int| 0 <= i < r.len() ==> *r[i] == self.events@[i],
    {
        let cap = if limit < MAX_STEP_EVENTS { limit } else { MAX_STEP_EVENTS };
        let n = if cap < self.events.len() { cap } else { self.events.len() };
        let mut out: Vec<&T> = Vec::new();
        let mut i: usize = 0;
        while i < n
            invariant
                n <= self.events.len(),
                i <= n,
                out.len() == i,
                forall|j: int| 0 <= j < i ==> *out[j] == self.events@[j],
            decreases n - i,
        {
            out.push(&self.events[i]);
            i += 1;
        }
        out
    }
}

// endregion: --- step events cache

// region: --- cycle keys

/// Sequence number that the next cycle started in second `sec` gets.
pub open spec fn seq_for(m: Map<i64, u32>, sec: i64) -> u32 {
    if m.contains_key(sec) {
        m[sec]
    } else {
        0
    }
}

/// Counters after handing out the key for second `sec` (saturating).
pub open spec fn after_next_key(m: Map<i64, u32>, sec: i64) -> Map<i64, u32> {
    m.insert(
        sec,
        if seq_for(m, sec) == u32::MAX {
            u32::MAX
        } else {
            (seq_for(m, sec) + 1) as u32
        },
    )
}

/// Counters after learning that key `(sec, seq)` is already on disk.
pub open spec fn after_observe(m: Map<i64, u32>, sec: i64, seq: u32) -> Map<i64, u32> {
    m.insert(
        sec,
        if seq_for(m, sec) > seq + 1 {
            seq_for(m, sec)
        } else {
            (seq + 1) as u32
        },
    )
}

/// Next unused per-second sequence number for cycle keys.
pub struct CycleSequencer {
    pub next: HashMap<i64, u32>,
}

impl CycleSequencer {
    pub open spec fn counters(&self) -> Map<i64, u32> {
        self.next@
    }

    pub fn new() -> (r: Self)
        ensures
            r.counters() == Map::<i64, u32>::empty(),
    {
        CycleSequencer { next: HashMap::new() }
    }

    /// Key `(sec, seq)` for a cycle that started in second `sec`.
    pub fn next_key(&mut self, sec: i64) -> (r: (i64, u32))
        ensures
            r == (sec, seq_for(old(self).counters(), sec)),
            final(self).counters() == after_next_key(old(self).counters(), sec),
    {
        let seq: u32 = match self.next.get(&sec) {
            Some(v) => *v,
            None => 0,
        };
        let bumped = seq.saturating_add(1);
        self.next.insert(sec, bumped);
        (sec, seq)
    }

    /// Account for a key already on disk: later keys for that second start after it.
    pub fn observe(&mut self, sec: i64, seq: u32)
        requires
            seq < u32::MAX,
        ensures
            final(self).counters() == after_observe(old(self).counters(), sec, seq),
    {
        let cur: u32 = match self.next.get(&sec) {
            Some(v) => *v,
            None => 0,
        };
        let want = seq + 1;
        let v = if cur > want { cur } else { want };
        self.next.insert(sec, v);
    }
}

/// Two cycles started in the same second get different keys (until the
/// counter saturates), and a key seen on disk is never handed out again
/// for that second.
pub proof fn cycle_keys_distinct(m: Map<i64, u32>, sec: i64, disk_seq: u32)
    ensures
        seq_for(m, sec) < u32::MAX ==> seq_for(after_next_key(m, sec), sec) > seq_for(m, sec),
        disk_seq < u32::MAX ==> seq_for(after_observe(m, sec, disk_seq), sec) > disk_seq,
        forall|other: i64|
            other != sec ==> seq_for(after_next_key(m, sec), other) == seq_for(m, other),
{
}

/// Positions in `secs` of the newest cycles started at or after `since`,
/// newest (last recorded) first, at most `cap` of them.
pub open spec fn recent_picks(secs: Seq<i64>, since: i64, cap: nat) -> Seq<usize>
    decreases secs.len(),
{
    if secs.len() == 0 || cap == 0 {
        Seq::empty()
    } else if secs.last() >= since {
        seq![(secs.len() - 1) as usize] + recent_picks(secs.drop_last(), since, (cap - 1) as nat)
    } else {
        recent_picks(secs.drop_last(), since, cap)
    }
}

/// How many cycles a recent-cycles query returns at most: `limit`, but at
/// least one.
pub open spec fn recent_cap(limit: usize) -> nat {
    if limit == 0 {
        1
    } else {
        limit as nat
    }
}

/// Among cycles not yet flushed, started at the seconds `secs` in the order
/// recorded, pick those started at or after `since`, newest first, up to
/// the query's cap; also say how many more may come from disk.
pub fn recent_cycle_picks(secs: &Vec<i64>, since: i64, limit: usize) -> (r: (Vec<usize>, usize))
    ensures
        r.0@ == recent_picks(secs@, since, recent_cap(limit)),
        r.1 == recent_cap(limit) - r.0@.len(),
{
    let cap: usize = if limit == 0 {
        1
    } else {
        limit
    };
    let mut out: Vec<usize> = Vec::new();
    let mut j: usize = secs.len();
    proof {
        assert(secs@.take(j as int) =~= secs@);
    }
    while j > 0 && out.len() < cap
        invariant
            j <= secs@.len(),
            out@.len() <= cap,
            cap == recent_cap(limit),
            out@ + recent_picks(secs@.take(j as int), since, (cap - out@.len()) as nat) == recent_picks(
                secs@,
                since,
                cap as nat,
            ),
        decreases j,
    {
        let ghost pre = secs@.take(j as int);
        let ghost c = (cap - out@.len()) as nat;
        proof {
            assert(pre.drop_last() =~= secs@.take(j - 1));
            assert(pre.last() == secs@[j - 1]);
        }
        if secs[j - 1] >= since {
            let ghost old_out = out@;
            out.push(j - 1);
            proof {
                assert(recent_picks(pre, since, c) == seq![(j - 1) as usize] + recent_picks(
                    secs@.take(j - 1),
                    since,
                    (c - 1) as nat,
                ));
                assert(out@ + recent_picks(secs@.take(j - 1), since, (cap - out@.len()) as nat)
                    =~= old_out + recent_picks(pre, since, c));
            }
        }
        j -= 1;
    }
    proof {
        assert(recent_picks(secs@.take(j as int), since, (cap - out@.len()) as nat) =~= Seq::empty());
        assert(out@ + Seq::<usize>::empty() =~= out@);
    }
    let remaining = cap - out.len();
    (out, remaining)
}

// endregion: --- cycle keys

// region: --- dirty tracking

/// Whether disk-bound state changed since the last flush, with a generation
/// counter so a write landing during a commit is not forgotten.
#[derive(Debug, Clone, Copy, PartialEq, Eq, Structural)]
pub struct DirtyState {
    pub dirty: bool,
    pub dirty_gen: u64,
}

pub open spec fn spec_mark_dirty(d: DirtyState) -> DirtyState {
    DirtyState {
        dirty: true,
        dirty_gen: if d.dirty_gen == u64::MAX {
            0
        } else {
            (d.dirty_gen + 1) as u64
        },
    }
}

pub open spec fn spec_begin_flush(d: DirtyState) -> Option<u64> {
    if d.dirty {
        Some(d.dirty_gen)
    } else {
        None
    }
}

pub open spec fn spec_commit_done(d: DirtyState, gen_at_snapshot: u64) -> DirtyState {
    DirtyState { dirty: d.dirty && d.dirty_gen != gen_at_snapshot, dirty_gen: d.dirty_gen }
}

impl DirtyState {
    pub fn new() -> (r: Self)
        ensures
            !r.dirty,
            r.dirty_gen == 0,
    {
        DirtyState { dirty: false, dirty_gen: 0 }
    }

    /// A disk-bound change happened.
    pub fn mark_dirty(&mut self)
        ensures
            *final(self) == spec_mark_dirty(*old(self)),
    {
        self.dirty = true;
        self.dirty_gen = self.dirty_gen.wrapping_add(1);
    }

    /// Start a flush: the generation to compare against after the commit,
    /// or `None` when there is nothing to write.
    pub fn begin_flush(&self) -> (r: Option<u64>)
        ensures
            r == spec_begin_flush(*self),
    {
        if self.dirty {
            Some(self.dirty_gen)
        } else {
            None
        }
    }

    /// The commit of the snapshot taken at `gen_at_snapshot` landed: clean
    /// only if no write happened meanwhile.
    pub fn commit_done(&mut self, gen_at_snapshot: u64)
        ensures
            *final(self) == spec_commit_done(*old(self), gen_at_snapshot),
    {
        if self.dirty_gen == gen_at_snapshot {
            self.dirty = false;
        }
    }
}

/// A flush whose commit lands with no write in between leaves the state
/// clean; a change marked after the flush took its snapshot survives that
/// commit, so the next flush writes it.
pub proof fn dirty_survives_concurrent_commit(d: DirtyState)
    requires
        d.dirty,
    ensures
        spec_begin_flush(d) == Some(d.dirty_gen),
        !spec_commit_done(d, d.dirty_gen).dirty,
        spec_commit_done(spec_mark_dirty(d), d.dirty_gen).dirty,
        spec_begin_flush(spec_commit_done(spec_mark_dirty(d), d.dirty_gen)) is Some,
{
}

// endregion: --- dirty tracking

} // verus!
