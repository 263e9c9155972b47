use plausible_cli::clock::{format_timestamp, hour_bucket, Timestamp, LAST_DAY};
use plausible_cli::config::{ConfigError, ConfigPaths, FileRead, IoFailure};
use plausible_cli::nonzero::NonZeroU32;
use plausible_cli::output::{render_status, Output, OutputFormat};
use plausible_cli::rate_limit::{
    DayWindow, HourWindow, LedgerSource, Quota, RateLimitConfig, RateLimitError, RateLimiter,
    UsageLedger, UsageSnapshot,
};
use std::path::PathBuf;
use time::OffsetDateTime;

fn paths() -> ConfigPaths {
    ConfigPaths::from_base_dir(PathBuf::from("/config"))
}

fn ledger(account: &str) -> UsageLedger {
    match UsageLedger::load(&paths(), account, FileRead::Missing) {
        Ok(LedgerSource::Ready(ledger)) => ledger,
        other => panic!("unexpected source {:?}", other),
    }
}

fn limiter(quota: u32) -> RateLimiter {
    RateLimiter::new(ledger("test"), RateLimitConfig::new(NonZeroU32::new(quota).unwrap()))
}

fn stamp(moment: OffsetDateTime) -> Timestamp {
    Timestamp {
        day: moment.to_julian_day(),
        hour: moment.hour(),
        minute: moment.minute(),
        second: moment.second(),
        nanosecond: moment.nanosecond(),
        offset: moment.offset().whole_seconds(),
    }
}

/// The second of January 2024, in the afternoon.
fn afternoon() -> Timestamp {
    Timestamp { day: 2_460_312, hour: 15, minute: 4, second: 5, nanosecond: 0, offset: 0 }
}

fn text(output: Output) -> String {
    match output {
        Output::Text(text) => text,
        other => panic!("unexpected output {:?}", other),
    }
}

#[test]
fn records_usage_and_reads_it_back() {
    let mut first = limiter(10);
    let now = stamp(OffsetDateTime::now_utc());
    let status = first.record_success(5, now);
    assert_eq!(status.hourly_used, 5);
    assert_eq!(status.hourly_remaining, 5);

    let kept = first.usage;
    let second = RateLimiter::new(kept, RateLimitConfig::new(NonZeroU32::new(10).unwrap()));
    let status2 = second.status(now);
    assert_eq!(status2.hourly_used, 5);
}

#[test]
fn hourly_window_resets_after_boundary() {
    let mut limiter = limiter(10);
    let now = OffsetDateTime::now_utc();
    limiter.record_success(10, stamp(now));
    let bucket = now
        .replace_minute(0)
        .unwrap()
        .replace_second(0)
        .unwrap()
        .replace_nanosecond(0)
        .unwrap();
    assert_eq!(hour_bucket(stamp(now)), stamp(bucket));
    let next_hour = bucket.checked_add(time::Duration::hours(1)).unwrap();
    let status = limiter.status(stamp(next_hour));
    assert_eq!(status.hourly_used, 0);
    assert_eq!(status.hourly_remaining, 10);
}

#[test]
fn daily_window_resets_at_midnight() {
    let mut limiter = limiter(10);
    limiter.record_success(3, afternoon());
    let evening = Timestamp { hour: 23, ..afternoon() };
    let status = limiter.status(evening);
    assert_eq!(status.hourly_used, 0);
    assert_eq!(status.daily_used, Some(3));
    assert_eq!(status.daily_remaining, Some(7));
    assert_eq!(
        status.daily_reset_at,
        Some(Timestamp { day: 2_460_313, hour: 0, minute: 0, second: 0, nanosecond: 0, offset: 0 })
    );
    let tomorrow = Timestamp { day: 2_460_313, ..afternoon() };
    assert_eq!(limiter.status(tomorrow).daily_used, Some(0));
}

#[test]
fn counters_stop_at_their_largest_value() {
    let mut limiter = limiter(10);
    limiter.record_success(u32::MAX, afternoon());
    let status = limiter.record_success(7, afternoon());
    assert_eq!(status.hourly_used, u32::MAX);
    assert_eq!(status.hourly_remaining, 0);
    assert_eq!(status.daily_remaining, Some(0));
}

#[test]
fn recording_twice_is_recording_the_sum() {
    let mut twice = limiter(10);
    twice.record_success(2, afternoon());
    twice.record_success(3, Timestamp { minute: 59, ..afternoon() });
    let mut once = limiter(10);
    once.record_success(5, afternoon());
    assert_eq!(twice.status(afternoon()), once.status(afternoon()));
}

#[test]
fn the_same_hour_counts_whatever_the_distance_from_utc() {
    let mut limiter = limiter(10);
    limiter.record_success(4, afternoon());
    let elsewhere = Timestamp { hour: 17, offset: 7_200, ..afternoon() };
    assert_eq!(limiter.status(elsewhere).hourly_used, 4);
    let between = Timestamp { hour: 16, minute: 34, offset: 5_400, ..afternoon() };
    assert_eq!(limiter.status(between).hourly_used, 0);
}

#[test]
fn resets_stop_at_the_end_of_the_calendar() {
    let limiter = limiter(10);
    let last = Timestamp { day: LAST_DAY, hour: 23, ..afternoon() };
    let status = limiter.status(last);
    assert_eq!(status.hourly_reset_at, last);
    assert_eq!(status.daily_reset_at, None);
    let before = Timestamp { day: LAST_DAY - 1, hour: 23, ..afternoon() };
    assert_eq!(
        limiter.status(before).hourly_reset_at,
        Timestamp { day: LAST_DAY, hour: 0, minute: 0, second: 0, ..afternoon() }
    );
    assert!(last.is_valid());
    assert!(!Timestamp { hour: 24, ..last }.is_valid());
}

#[test]
fn configuration_has_a_pace() {
    let config = RateLimitConfig::default();
    assert_eq!(config.hourly_quota.get(), 600);
    assert_eq!(config.daily_quota.map(NonZeroU32::get), Some(600));
    assert_eq!(config.jitter(), 250_000_000);
    assert_eq!(config.quota(), Quota { burst: 600, interval_nanos: 6_000_000_000 });
    assert_eq!(
        RateLimitConfig::new(NonZeroU32::new(7).unwrap()).quota(),
        Quota { burst: 7, interval_nanos: 514_285_714_285 }
    );
    let unlimited = config.with_daily_quota(None);
    assert!(unlimited.daily_quota.is_none());
    let quota = Quota { burst: 1, interval_nanos: 1_000_000_000 };
    assert_eq!(config.with_quota(quota).quota(), quota);
    assert!(NonZeroU32::new(0).is_none());
}

#[test]
fn without_a_daily_limit_no_daily_status_is_given() {
    let config = RateLimitConfig::default().with_daily_quota(None);
    let status = RateLimiter::new(ledger("a"), config).status(afternoon());
    assert_eq!(status.daily_limit, None);
    assert_eq!(status.daily_used, None);
    assert_eq!(status.daily_remaining, None);
    assert_eq!(status.daily_reset_at, None);
}

#[test]
fn usage_files_are_read_or_started_anew() {
    let empty = UsageLedger::load(&paths(), "a", FileRead::Found(vec![]));
    match empty {
        Ok(LedgerSource::Ready(ledger)) => {
            assert_eq!(ledger.path.segments, vec!["usage", "a.json"]);
            assert_eq!(ledger.snapshot.account, "a");
            assert!(ledger.snapshot.hourly.is_none());
        }
        other => panic!("unexpected source {:?}", other),
    }
    let filled = UsageLedger::load(&paths(), "a", FileRead::Found(vec![b'{', b'}']));
    assert!(matches!(
        filled,
        Ok(LedgerSource::Decode { bytes, .. }) if bytes == vec![b'{', b'}']
    ));
    let failure = IoFailure { path: "\"/x\"".into(), source: "denied".into() };
    let err = UsageLedger::load(&paths(), "a", FileRead::Failed(failure)).expect_err("failed");
    assert_eq!(err.message(), "I/O error at \"/x\"");
}

#[test]
fn messages_name_what_went_wrong_with_the_counters() {
    assert_eq!(
        RateLimitError::Deserialize("x".into()).message(),
        "failed to deserialize usage file: x"
    );
    assert_eq!(
        RateLimitError::Serialize("x".into()).message(),
        "failed to serialize usage file: x"
    );
    assert_eq!(
        RateLimitError::Config(ConfigError::UnsupportedPlatform).message(),
        "failed to determine configuration directory for this platform"
    );
}

#[test]
fn stored_windows_are_taken_up() {
    let snapshot = UsageSnapshot {
        hourly: Some(HourWindow { start: hour_bucket(afternoon()), count: 4 }),
        daily: Some(DayWindow { date: 2_460_312, count: 9 }),
        ..UsageSnapshot::new("a".into())
    };
    let mut usage = UsageLedger { snapshot, ..ledger("a") };
    usage.record(1, afternoon());
    let status = usage.status(&RateLimitConfig::default(), afternoon());
    assert_eq!(status.hourly_used, 5);
    assert_eq!(status.daily_used, Some(10));
}

#[test]
fn moments_are_shown_in_rfc_3339() {
    assert_eq!(format_timestamp(&afternoon()), "2024-01-02T15:04:05Z");
    let precise = Timestamp { nanosecond: 500_000_000, offset: -3_600, ..afternoon() };
    assert_eq!(format_timestamp(&precise), "2024-01-02T15:04:05.5-01:00");
    let odd = Timestamp { offset: 1, ..afternoon() };
    assert_eq!(format_timestamp(&odd), "2024-01-02 15:04:05.0 +00:00:01");
}

#[test]
fn status_is_printed_in_words() {
    let mut limiter = limiter(10);
    let status = limiter.record_success(4, afternoon());
    assert_eq!(
        text(render_status(&status, OutputFormat::Human).expect("status")),
        "Hourly usage: 4/10 (resets at 2024-01-02 16:00:00.0 +00:00:00)\n\
         Daily usage: 4/10 (remaining 6) \u{2013} resets at 2024-01-03 0:00:00.0 +00:00:00"
    );
    let config = RateLimitConfig::default().with_daily_quota(None);
    let status = RateLimiter::new(ledger("a"), config).status(afternoon());
    assert_eq!(
        text(render_status(&status, OutputFormat::Human).expect("status")),
        "Hourly usage: 0/600 (resets at 2024-01-02 16:00:00.0 +00:00:00)"
    );
}

#[test]
fn status_is_printed_as_json() {
    let config = RateLimitConfig::default().with_daily_quota(None);
    let status = RateLimiter::new(ledger("a"), config).status(afternoon());
    assert_eq!(
        text(render_status(&status, OutputFormat::Json).expect("status")),
        r#"{
  "daily": {
    "limit": null,
    "remaining": null,
    "reset_at": null,
    "used": null
  },
  "hourly": {
    "limit": 600,
    "remaining": 600,
    "reset_at": [
      2024,
      2,
      16,
      0,
      0,
      0,
      0,
      0,
      0
    ],
    "used": 0
  }
}"#
    );
}

#[test]
fn weights_above_the_quota_are_waited_for_in_parts() {
    let config = RateLimitConfig::new(NonZeroU32::new(10).unwrap());
    let mut parts = Vec::new();
    let mut rest = NonZeroU32::new(25);
    while let Some(weight) = rest {
        let (part, left) = config.portion(weight);
        parts.push(part.get());
        rest = left;
    }
    assert_eq!(parts, vec![10, 10, 5]);
    let (part, left) = config.portion(NonZeroU32::new(10).unwrap());
    assert_eq!(part.get(), 10);
    assert!(left.is_none());
}
