use anything_engine::chart::{
    bucket_of, format_date, parse_date_or_default, task_status_chart, time_unit_of, TimeUnit,
};

fn s(x: &str) -> String {
    x.to_string()
}

const DAY: i64 = 86_400_000;

#[test]
fn charting_time_unit_names() {
    assert_eq!(time_unit_of(&s("minute")), Some(TimeUnit::Minute));
    assert_eq!(time_unit_of(&s("hour")), Some(TimeUnit::Hour));
    assert_eq!(time_unit_of(&s("day")), Some(TimeUnit::Day));
    assert_eq!(time_unit_of(&s("week")), Some(TimeUnit::Week));
    assert_eq!(time_unit_of(&s("month")), Some(TimeUnit::Month));
    assert_eq!(time_unit_of(&s("fortnight")), None);
}

#[test]
fn charting_intervals() {
    assert_eq!(TimeUnit::Minute.interval_millis(), 60_000);
    assert_eq!(TimeUnit::Hour.interval_millis(), 3_600_000);
    assert_eq!(TimeUnit::Day.interval_millis(), DAY);
    assert_eq!(TimeUnit::Week.interval_millis(), 7 * DAY);
    assert_eq!(TimeUnit::Month.interval_millis(), 30 * DAY);
}

#[test]
fn charting_parse_rfc3339() {
    assert_eq!(parse_date_or_default("1970-01-01T00:00:00Z"), 0);
    assert_eq!(parse_date_or_default("2000-01-12T01:02:03.004Z"), 947_638_923_004);
    assert_eq!(parse_date_or_default("2000-01-12T01:02:03.004+00:00"), 947_638_923_004);
}

#[test]
fn charting_labels() {
    let t: i64 = 947_638_923_004;  // 2000-01-12 01:02:03.004 UTC
    assert_eq!(format_date(t, TimeUnit::Minute), "2000-01-12 01:02");
    assert_eq!(format_date(t, TimeUnit::Hour), "2000-01-12 01:00");
    assert_eq!(format_date(t, TimeUnit::Day), "2000-01-12");
    assert_eq!(format_date(t, TimeUnit::Week), "2000-01-12");
    assert_eq!(format_date(t, TimeUnit::Month), "2000-01");
}

#[test]
fn charting_linear_buckets() {
    assert_eq!(bucket_of(DAY + 5, 0, TimeUnit::Day), DAY);
    assert_eq!(bucket_of(2 * DAY - 1, 0, TimeUnit::Day), DAY);
    assert_eq!(bucket_of(17, 10, TimeUnit::Minute), 10);
}

#[test]
fn charting_month_floor() {
    // 2000-01-12 floors to 2000-01-01T00:00:00Z
    assert_eq!(bucket_of(947_638_923_004, 0, TimeUnit::Month), 946_684_800_000);
}

#[test]
fn charting_week_floor() {
    // 2000-01-12 was a Wednesday; its week began Monday 2000-01-10
    assert_eq!(bucket_of(947_638_923_004, 0, TimeUnit::Week), 947_462_400_000);
}

#[test]
fn charting_counts_statuses_per_bucket() {
    let tasks = vec![
        (s("completed"), 10),
        (s("failed"), DAY + 1),
        (s("completed"), DAY + 2),
        (s("completed"), 3 * DAY + 5),  // outside [start, end]: not counted
    ];
    let chart = task_status_chart(&tasks, 0, 2 * DAY, TimeUnit::Day);
    assert_eq!(chart.len(), 3);
    assert_eq!(chart[0].bucket_ms, 0);
    assert_eq!(chart[1].bucket_ms, DAY);
    assert_eq!(chart[2].bucket_ms, 2 * DAY);
    assert_eq!(chart[0].date, "1970-01-01");
    assert_eq!(chart[1].date, "1970-01-02");
    assert_eq!(chart[2].date, "1970-01-03");
    // every row lists every status seen anywhere, zero counts included
    for row in &chart {
        assert_eq!(row.status_counts.len(), 2);
        assert_eq!(row.status_counts[0].0, "completed");
        assert_eq!(row.status_counts[1].0, "failed");
    }
    assert_eq!(chart[0].status_counts[0].1, 1);
    assert_eq!(chart[0].status_counts[1].1, 0);
    assert_eq!(chart[1].status_counts[0].1, 1);
    assert_eq!(chart[1].status_counts[1].1, 1);
    assert_eq!(chart[2].status_counts[0].1, 0);
    assert_eq!(chart[2].status_counts[1].1, 0);
}

#[test]
fn charting_empty_range() {
    let tasks: Vec<(String, i64)> = vec![];
    let chart = task_status_chart(&tasks, 100, 0, TimeUnit::Hour);
    assert_eq!(chart.len(), 0);
}
