//! Task status counts over time: buckets the tasks of a workflow into
//! fixed intervals between two instants and counts task statuses per
//! bucket, for charting. Calendar arithmetic and text formatting are
//! delegated to the chrono crate behind named, trusted wrappers; the
//! bucketing and counting themselves are verified.

use chrono::Datelike;
use chrono::Timelike;
use vstd::prelude::*;

verus! {

/// What chrono's RFC 3339 parser yields for a text, in epoch
/// milliseconds: a function of the text alone.
pub uninterp spec fn rfc3339_millis_of(s: Seq<char>) -> Option<i64>;

/// What chrono's strftime-style formatter yields for a UTC timestamp
/// and a format pattern: a function of the two arguments alone.
pub uninterp spec fn formatted_of(ms: i64, pattern: Seq<char>) -> Seq<char>;

/// Start of the UTC calendar month holding the timestamp.
pub uninterp spec fn month_floor_of(ms: i64) -> i64;

/// Start (Monday, midnight) of the UTC week holding the timestamp.
pub uninterp spec fn week_floor_of(ms: i64) -> i64;

/// Relies on chrono's `DateTime::parse_from_rfc3339`: parsing depends
/// on the text alone; the parsed instant converts to epoch
/// milliseconds.
#[verifier::external_body]
fn parse_rfc3339_millis(s: &str) -> (r: Option<i64>)
    ensures
        r == rfc3339_millis_of(s@),
{
    chrono::DateTime::parse_from_rfc3339(s).ok().map(|d| d.timestamp_millis())
}

/// Relies on chrono's `Utc::now` for the wall clock. Nothing is
/// promised of the value: the clock may say anything.
#[verifier::external_body]
fn now_millis() -> i64 {
    chrono::Utc::now().timestamp_millis()
}

/// Relies on chrono's `DateTime::format` (strftime): the text depends
/// on the timestamp and pattern alone. Restricted to the fixed, valid
/// patterns the chart uses, since chrono panics when an invalid pattern
/// is rendered. A timestamp outside chrono's range formats as empty.
#[verifier::external_body]
fn format_timestamp(ms: i64, pattern: &str) -> (r: String)
    requires
        pattern@ == "%Y-%m-%d %H:%M"@ || pattern@ == "%Y-%m-%d %H:00"@ || pattern@ == "%Y-%m-%d"@
            || pattern@ == "%Y-%m"@,
    ensures
        r@ == formatted_of(ms, pattern@),
{
    match chrono::DateTime::<chrono::Utc>::from_timestamp_millis(ms) {
        Some(d) => d.format(pattern).to_string(),
        None => String::new(),
    }
}

/// Relies on chrono's date accessors `with_day`, `with_hour`,
/// `with_minute`, `with_second`, `with_nanosecond`: the start of the
/// UTC month holding the timestamp, a function of it alone. A
/// timestamp outside chrono's range is returned unchanged.
#[verifier::external_body]
fn month_floor_millis(ms: i64) -> (r: i64)
    ensures
        r == month_floor_of(ms),
{
    match chrono::DateTime::<chrono::Utc>::from_timestamp_millis(ms) {
        Some(d) => d
            .with_day(1)
            .and_then(|x| x.with_hour(0))
            .and_then(|x| x.with_minute(0))
            .and_then(|x| x.with_second(0))
            .and_then(|x| x.with_nanosecond(0))
            .map(|x| x.timestamp_millis())
            .unwrap_or(ms),
        None => ms,
    }
}

/// Relies on chrono's `weekday` and checked date arithmetic: the start
/// (Monday, midnight) of the UTC week holding the timestamp, a
/// function of it alone. A timestamp outside chrono's range is
/// returned unchanged.
#[verifier::external_body]
fn week_floor_millis(ms: i64) -> (r: i64)
    ensures
        r == week_floor_of(ms),
{
    match chrono::DateTime::<chrono::Utc>::from_timestamp_millis(ms) {
        Some(d) => {
            let days = d.weekday().num_days_from_monday() as i64;
            d.with_hour(0)
                .and_then(|x| x.with_minute(0))
                .and_then(|x| x.with_second(0))
                .and_then(|x| x.with_nanosecond(0))
                .and_then(|x| x.checked_sub_signed(chrono::Duration::days(days)))
                .map(|x| x.timestamp_millis())
                .unwrap_or(ms)
        },
        None => ms,
    }
}

/// Parse an RFC 3339 date, defaulting to the present moment when the
/// text does not parse.
pub fn parse_date_or_default(date_str: &str) -> (r: i64)
    ensures
        (match rfc3339_millis_of(date_str@) {
            Some(ms) => r == ms,
            None => true,
        }),
{
    match parse_rfc3339_millis(date_str) {
        Some(ms) => ms,
        None => now_millis(),
    }
}

/// The chart's time units.
#[derive(Clone, Copy, PartialEq, Eq, Structural, Debug)]
pub enum TimeUnit {
    Minute,
    Hour,
    Day,
    Week,
    /// Thirty days: an approximation for stepping, while bucket floors
    /// use true calendar months.
    Month,
}

/// The unit named by a chart request, or none for an invalid name.
pub open spec fn unit_of_name(s: Seq<char>) -> Option<TimeUnit> {
    if s == "minute"@ {
        Some(TimeUnit::Minute)
    } else if s == "hour"@ {
        Some(TimeUnit::Hour)
    } else if s == "day"@ {
        Some(TimeUnit::Day)
    } else if s == "week"@ {
        Some(TimeUnit::Week)
    } else if s == "month"@ {
        Some(TimeUnit::Month)
    } else {
        None
    }
}

/// Parse a chart time unit; an unknown name is rejected, and the
/// caller answers with a bad-request error.
pub fn time_unit_of(name: &String) -> (r: Option<TimeUnit>)
    ensures
        r == unit_of_name(name@),
{
    if *name == "minute".to_owned() {
        Some(TimeUnit::Minute)
    } else if *name == "hour".to_owned() {
        Some(TimeUnit::Hour)
    } else if *name == "day".to_owned() {
        Some(TimeUnit::Day)
    } else if *name == "week".to_owned() {
        Some(TimeUnit::Week)
    } else if *name == "month".to_owned() {
        Some(TimeUnit::Month)
    } else {
        None
    }
}

impl TimeUnit {
    /// The stepping interval of the unit, in milliseconds.
    pub open spec fn interval_spec(self) -> int {
        match self {
            TimeUnit::Minute => 60_000,
            TimeUnit::Hour => 3_600_000,
            TimeUnit::Day => 86_400_000,
            TimeUnit::Week => 604_800_000,
            TimeUnit::Month => 2_592_000_000,
        }
    }

    pub fn interval_millis(&self) -> (r: i64)
        ensures
            r as int == self.interval_spec(),
            r > 0,
    {
        match self {
            TimeUnit::Minute => 60_000,
            TimeUnit::Hour => 3_600_000,
            TimeUnit::Day => 86_400_000,
            TimeUnit::Week => 604_800_000,
            TimeUnit::Month => 2_592_000_000,
        }
    }

    /// The strftime pattern under which this unit's bucket labels are
    /// rendered.
    pub open spec fn pattern_spec(self) -> Seq<char> {
        match self {
            TimeUnit::Minute => "%Y-%m-%d %H:%M"@,
            TimeUnit::Hour => "%Y-%m-%d %H:00"@,
            TimeUnit::Day => "%Y-%m-%d"@,
            TimeUnit::Week => "%Y-%m-%d"@,
            TimeUnit::Month => "%Y-%m"@,
        }
    }
}

/// The label of a chart bucket: the bucket's start instant rendered at
/// the unit's granularity.
pub open spec fn format_date_spec(ms: i64, unit: TimeUnit) -> Seq<char> {
    formatted_of(ms, unit.pattern_spec())
}

/// Render a bucket label for the chart.
pub fn format_date(ms: i64, unit: TimeUnit) -> (r: String)
    ensures
        r@ == format_date_spec(ms, unit),
{
    match unit {
        TimeUnit::Minute => format_timestamp(ms, "%Y-%m-%d %H:%M"),
        TimeUnit::Hour => format_timestamp(ms, "%Y-%m-%d %H:00"),
        TimeUnit::Day => format_timestamp(ms, "%Y-%m-%d"),
        TimeUnit::Week => format_timestamp(ms, "%Y-%m-%d"),
        TimeUnit::Month => format_timestamp(ms, "%Y-%m"),
    }
}

/// The bucket an instant falls into: true calendar floors for months
/// and weeks, linear intervals from `start` otherwise.
pub open spec fn bucket_of_spec(t: i64, start: i64, unit: TimeUnit) -> int {
    match unit {
        TimeUnit::Month => month_floor_of(t) as int,
        TimeUnit::Week => week_floor_of(t) as int,
        _ => start + ((t - start) / unit.interval_spec()) * unit.interval_spec(),
    }
}

/// The bucket an instant falls into.
pub fn bucket_of(t: i64, start: i64, unit: TimeUnit) -> (r: i64)
    requires
        (match unit {
            TimeUnit::Month => true,
            TimeUnit::Week => true,
            _ => start <= t && t as int - start as int <= i64::MAX,
        }),
    ensures
        r as int == bucket_of_spec(t, start, unit),
{
    match unit {
        TimeUnit::Month => month_floor_millis(t),
        TimeUnit::Week => week_floor_millis(t),
        _ => {
            let interval = unit.interval_millis();
            let delta = t - start;
            let floored = (delta / interval) * interval;
            proof {
                assert(0 <= (delta as int / interval as int) * interval as int <= delta as int)
                    by (nonlinear_arith)
                    requires
                        delta >= 0,
                        interval > 0,
                ;
            }
            start + floored
        },
    }
}

/// The bucket starts from `start` to `end` inclusive, stepping by the
/// unit's interval.
pub fn init_buckets(start: i64, end: i64, unit: TimeUnit) -> (r: Vec<i64>)
    requires
        end as int + unit.interval_spec() <= i64::MAX,
    ensures
        forall|i: int|
            0 <= i < r@.len() ==> (#[trigger] r@[i]) as int == start + i * unit.interval_spec(),
        forall|i: int| 0 <= i < r@.len() ==> r@[i] <= end,
        (start <= end ==> r@.len() >= 1),
        (start > end ==> r@.len() == 0),
{
    let interval = unit.interval_millis();
    let mut out: Vec<i64> = Vec::new();
    let mut cur: i64 = start;
    while cur <= end
        invariant
            end as int + interval as int <= i64::MAX,
            interval as int == unit.interval_spec(),
            interval > 0,
            cur as int == start as int + out@.len() as int * interval as int,
            forall|i: int|
                0 <= i < out@.len() ==> (#[trigger] out@[i]) as int == start + i * interval as int,
            forall|i: int| 0 <= i < out@.len() ==> out@[i] <= end,
        decreases end + interval - cur,
    {
        out.push(cur);
        proof {
            let l = out@.len() as int;
            assert(l * interval as int == (l - 1) * interval as int + interval as int)
                by (nonlinear_arith);
        }
        cur = cur + interval;
    }
    proof {
        if out@.len() > 0 {
            assert(out@[0] as int == start as int + 0 * interval as int);
            assert(out@[0] <= end);
        }
    }
    out
}

/// The views of a sequence of strings.
pub open spec fn str_views(s: Seq<String>) -> Seq<Seq<char>> {
    Seq::new(s.len(), |i: int| s[i]@)
}

/// The statuses among the first `i` tasks, deduplicated in
/// first-occurrence order.
pub open spec fn statuses_upto(tasks: Seq<(String, i64)>, i: int) -> Seq<Seq<char>>
    decreases i,
{
    if i <= 0 {
        Seq::empty()
    } else {
        let pre = statuses_upto(tasks, i - 1);
        if pre.contains(tasks[i - 1].0@) {
            pre
        } else {
            pre.push(tasks[i - 1].0@)
        }
    }
}

/// Every distinct task status, in first-occurrence order.
pub open spec fn distinct_statuses(tasks: Seq<(String, i64)>) -> Seq<Seq<char>> {
    statuses_upto(tasks, tasks.len() as int)
}

fn contains_string(v: &Vec<String>, s: &String) -> (r: bool)
    ensures
        r == str_views(v@).contains(s@),
{
    let mut i: usize = 0;
    while i < v.len()
        invariant
            i <= v@.len(),
            forall|j: int| 0 <= j < i ==> str_views(v@)[j] != s@,
        decreases v@.len() - i,
    {
        if v[i] == *s {
            proof {
                assert(str_views(v@)[i as int] == s@);
            }
            return true;
        }
        i = i + 1;
    }
    false
}

/// Collect every distinct status, in first-occurrence order.
fn collect_statuses(tasks: &Vec<(String, i64)>) -> (r: Vec<String>)
    ensures
        str_views(r@) == distinct_statuses(tasks@),
{
    let mut out: Vec<String> = Vec::new();
    let mut k: usize = 0;
    while k < tasks.len()
        invariant
            k <= tasks@.len(),
            str_views(out@) == statuses_upto(tasks@, k as int),
        decreases tasks@.len() - k,
    {
        let ghost pre = out@;
        if !contains_string(&out, &tasks[k].0) {
            out.push(tasks[k].0.clone());
            proof {
                assert(str_views(out@) =~= str_views(pre).push(tasks@[k as int].0@));
            }
        }
        k = k + 1;
    }
    out
}

/// Number of tasks among the first `i` whose status is `status` and
/// whose creation instant lies in `[start, end]` and falls into the
/// bucket starting at `bucket`.
pub open spec fn count_matching(
    tasks: Seq<(String, i64)>,
    i: int,
    status: Seq<char>,
    bucket: int,
    start: i64,
    end: i64,
    unit: TimeUnit,
) -> int
    decreases i,
{
    if i <= 0 {
        0
    } else {
        count_matching(tasks, i - 1, status, bucket, start, end, unit) + if tasks[i - 1].0@
            == status && start <= tasks[i - 1].1 <= end && bucket_of_spec(
            tasks[i - 1].1,
            start,
            unit,
        ) == bucket {
            1int
        } else {
            0int
        }
    }
}

/// One row of the chart: a bucket's start instant, its label at the
/// unit's granularity, and the count of tasks per status.
pub struct ChartDataPoint {
    pub bucket_ms: i64,
    pub date: String,
    pub status_counts: Vec<(String, usize)>,
}

/// Bucket the tasks of a workflow between two instants and count task
/// statuses per bucket. Each task is a `(status, created_at_ms)` pair;
/// each row lists every status seen anywhere in `tasks` (zero counts
/// included), and rows come in ascending bucket order, which for the
/// fixed label patterns coincides with ascending label order.
pub fn task_status_chart(
    tasks: &Vec<(String, i64)>,
    start: i64,
    end: i64,
    unit: TimeUnit,
) -> (r: Vec<ChartDataPoint>)
    requires
        end as int + unit.interval_spec() <= i64::MAX,
        end as int - start as int <= i64::MAX,
    ensures
        (start <= end ==> r@.len() >= 1),
        (start > end ==> r@.len() == 0),
        forall|i: int|
            0 <= i < r@.len() ==> (#[trigger] r@[i]).bucket_ms as int == start as int + i
                * unit.interval_spec(),
        forall|i: int|
            0 <= i < r@.len() ==> (#[trigger] r@[i]).date@ == format_date_spec(
                r@[i].bucket_ms,
                unit,
            ),
        forall|i: int|
            0 <= i < r@.len() ==> str_views(
                (#[trigger] r@[i]).status_counts@.map_values(|p: (String, usize)| p.0),
            ) == distinct_statuses(tasks@),
        forall|i: int, j: int|
            0 <= i < r@.len() && 0 <= j < r@[i].status_counts@.len()
                ==> (#[trigger] r@[i].status_counts@[j]).1 as int == count_matching(
                tasks@,
                tasks@.len() as int,
                distinct_statuses(tasks@)[j],
                r@[i].bucket_ms as int,
                start,
                end,
                unit,
            ),
{
    let buckets = init_buckets(start, end, unit);
    let statuses = collect_statuses(tasks);
    let mut out: Vec<ChartDataPoint> = Vec::new();
    let mut i: usize = 0;
    while i < buckets.len()
        invariant
            i <= buckets@.len(),
            out@.len() == i,
            end as int - start as int <= i64::MAX,
            str_views(statuses@) == distinct_statuses(tasks@),
            forall|b: int|
                0 <= b < buckets@.len() ==> (#[trigger] buckets@[b]) as int == start as int + b
                    * unit.interval_spec(),
            forall|b: int| 0 <= b < buckets@.len() ==> buckets@[b] <= end,
            forall|b: int|
                0 <= b < i ==> (#[trigger] out@[b]).bucket_ms == buckets@[b],
            forall|b: int|
                0 <= b < i ==> (#[trigger] out@[b]).date@ == format_date_spec(
                    out@[b].bucket_ms,
                    unit,
                ),
            forall|b: int|
                0 <= b < i ==> str_views(
                    (#[trigger] out@[b]).status_counts@.map_values(|p: (String, usize)| p.0),
                ) == distinct_statuses(tasks@),
            forall|b: int, j: int|
                0 <= b < i && 0 <= j < out@[b].status_counts@.len()
                    ==> (#[trigger] out@[b].status_counts@[j]).1 as int == count_matching(
                    tasks@,
                    tasks@.len() as int,
                    distinct_statuses(tasks@)[j],
                    out@[b].bucket_ms as int,
                    start,
                    end,
                    unit,
                ),
        decreases buckets@.len() - i,
    {
        let bucket = buckets[i];
        let mut counts: Vec<(String, usize)> = Vec::new();
        let mut j: usize = 0;
        while j < statuses.len()
            invariant
                j <= statuses@.len(),
                counts@.len() == j,
                end as int - start as int <= i64::MAX,
                bucket <= end,
                str_views(statuses@) == distinct_statuses(tasks@),
                forall|q: int|
                    0 <= q < j ==> (#[trigger] counts@[q]).0@ == distinct_statuses(tasks@)[q],
                forall|q: int|
                    0 <= q < j ==> (#[trigger] counts@[q]).1 as int == count_matching(
                        tasks@,
                        tasks@.len() as int,
                        distinct_statuses(tasks@)[q],
                        bucket as int,
                        start,
                        end,
                        unit,
                    ),
            decreases statuses@.len() - j,
        {
            let mut c: usize = 0;
            let mut k: usize = 0;
            while k < tasks.len()
                invariant
                    k <= tasks@.len(),
                    c <= k,
                    j < statuses@.len(),
                    end as int - start as int <= i64::MAX,
                    str_views(statuses@) == distinct_statuses(tasks@),
                    c as int == count_matching(
                        tasks@,
                        k as int,
                        statuses@[j as int]@,
                        bucket as int,
                        start,
                        end,
                        unit,
                    ),
                decreases tasks@.len() - k,
            {
                if tasks[k].0 == statuses[j] && tasks[k].1 >= start && tasks[k].1 <= end {
                    let bb = bucket_of(tasks[k].1, start, unit);
                    if bb == bucket {
                        c = c + 1;
                    }
                }
                k = k + 1;
            }
            proof {
                assert(statuses@[j as int]@ == distinct_statuses(tasks@)[j as int]);
            }
            counts.push((statuses[j].clone(), c));
            j = j + 1;
        }
        proof {
            assert(str_views(counts@.map_values(|p: (String, usize)| p.0)) =~= distinct_statuses(
                tasks@,
            ));
        }
        let label = format_date(bucket, unit);
        out.push(ChartDataPoint { bucket_ms: bucket, date: label, status_counts: counts });
        i = i + 1;
    }
    out
}

} // verus!
