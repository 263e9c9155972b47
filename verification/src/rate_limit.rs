//! Rate limiting: the hourly quota, the optional daily ceiling, and the counters behind them.

use crate::clock::{add_hour, hour_bucket, next_day, Timestamp, FIRST_DAY, LAST_DAY};
use crate::config::{ConfigError, ConfigPaths, FileRead, IoFailure, Location};
use crate::nonzero;
use crate::nonzero::NonZeroU32;
use vstd::prelude::*;
use vstd::string::*;

verus! {

/// Upper bound of the random wait added to each request, unless configured otherwise: a quarter
/// of a second, in nanoseconds.
pub const DEFAULT_JITTER_NANOS: u64 = 250_000_000;

/// Requests per hour, unless configured otherwise.
pub const DEFAULT_HOURLY_QUOTA: u32 = 600;

/// One hour in nanoseconds.
pub const HOUR_NANOS: u64 = 3_600_000_000_000;

/// One day in nanoseconds.
pub const DAY_NANOS: u64 = 86_400_000_000_000;

/// How requests are paced: how many may be made at once, and how long it takes until another one
/// may be made.
#[derive(Debug, Clone, Copy, PartialEq, Eq, Structural)]
pub struct Quota {
    /// Requests that may be made at once.
    pub burst: u32,
    /// Nanoseconds until one more request may be made.
    pub interval_nanos: u64,
}

/// Calls `governor::Quota::per_hour`: the burst is the number of requests per hour, and the
/// interval is the hour divided by that number, rounded down to nanoseconds.
#[verifier::external_body]
fn quota_per_hour(requests: u32) -> (quota: Quota)
    requires
        requests > 0,
    ensures
        quota.burst == requests,
        quota.interval_nanos == HOUR_NANOS / requests as u64,
{
    let cells = std::num::NonZeroU32::new(requests).unwrap();
    let quota = governor::Quota::per_hour(cells);
    Quota {
        burst: quota.burst_size().get(),
        interval_nanos: quota.replenish_interval().as_nanos() as u64,
    }
}

/// Rate limiting configuration combining hourly quota, optional daily ceiling, and jitter.
#[derive(Debug, Clone, Copy)]
pub struct RateLimitConfig {
    pub hourly_quota: NonZeroU32,
    pub daily_quota: Option<NonZeroU32>,
    /// Upper bound of the random wait added to each request, in nanoseconds.
    pub jitter_max: u64,
    pub quota: Quota,
}

impl RateLimitConfig {
    /// A configuration with the same limit per hour and per day.
    pub fn new(hourly_quota: NonZeroU32) -> (config: RateLimitConfig)
        ensures
            config.hourly_quota == hourly_quota,
            config.daily_quota == Some(hourly_quota),
            config.jitter_max == DEFAULT_JITTER_NANOS,
            config.quota.burst == hourly_quota@,
            config.quota.interval_nanos == HOUR_NANOS / hourly_quota@ as u64,
    {
        RateLimitConfig {
            hourly_quota,
            daily_quota: Some(hourly_quota),
            jitter_max: DEFAULT_JITTER_NANOS,
            quota: quota_per_hour(hourly_quota.get()),
        }
    }

    /// The same configuration with another daily ceiling.
    pub fn with_daily_quota(self, daily: Option<NonZeroU32>) -> (config: RateLimitConfig)
        ensures
            config == (RateLimitConfig { daily_quota: daily, ..self }),
    {
        RateLimitConfig { daily_quota: daily, ..self }
    }

    /// The same configuration with another pace.
    pub fn with_quota(self, quota: Quota) -> (config: RateLimitConfig)
        ensures
            config == (RateLimitConfig { quota, ..self }),
    {
        RateLimitConfig { quota, ..self }
    }

    /// The upper bound of the random wait added to each request, in nanoseconds.
    pub fn jitter(&self) -> (nanos: u64)
        ensures
            nanos == self.jitter_max,
    {
        self.jitter_max
    }

    /// The part of a weight that is waited for first, and what is left of it.
    pub fn portion(&self, weight: NonZeroU32) -> (parts: (NonZeroU32, Option<NonZeroU32>))
        requires
            self.quota.burst > 0,
        ensures
            cuts(self.quota.burst, weight@, parts.0@, nonzero::plain(parts.1)),
    {
        let whole: u32 = weight.get();
        let burst: u32 = self.quota.burst;
        if whole <= burst {
            (weight, None)
        } else {
            (NonZeroU32::new(burst).unwrap(), NonZeroU32::new(whole - burst))
        }
    }

    /// The pace of requests.
    pub fn quota(&self) -> (quota: Quota)
        ensures
            quota == self.quota,
    {
        self.quota
    }
}

impl Default for RateLimitConfig {
    fn default() -> (config: RateLimitConfig)
        ensures
            config.hourly_quota@ == DEFAULT_HOURLY_QUOTA,
            nonzero::plain(config.daily_quota) == Some(DEFAULT_HOURLY_QUOTA),
            config.jitter_max == DEFAULT_JITTER_NANOS,
            config.quota.burst == DEFAULT_HOURLY_QUOTA,
            config.quota.interval_nanos == 6_000_000_000,
    {
        RateLimitConfig::new(NonZeroU32::new(DEFAULT_HOURLY_QUOTA).unwrap())
    }
}

/// Requests counted in one hour.
#[derive(Debug, Clone, Copy, PartialEq, Eq, Structural)]
pub struct HourWindow {
    pub start: Timestamp,
    pub count: u32,
}

/// Requests counted on one day.
#[derive(Debug, Clone, Copy, PartialEq, Eq, Structural)]
pub struct DayWindow {
    /// Julian day number of the date.
    pub date: i32,
    pub count: u32,
}

/// The counters of one account, as they are kept on disk.
#[derive(Debug)]
pub struct UsageSnapshot {
    pub account: String,
    pub hourly: Option<HourWindow>,
    pub daily: Option<DayWindow>,
}

/// Whether `part` is what is waited for first of a weight, and `rest` what is left: no more can be
/// waited for at once than may be requested at once.
pub open spec fn cuts(burst: u32, weight: u32, part: u32, rest: Option<u32>) -> bool {
    &&& part == (if weight <= burst { weight } else { burst })
    &&& rest == (if weight <= burst { None } else { Some((weight - burst) as u32) })
}

/// Addition that stops at the largest 32-bit number.
pub open spec fn capped_sum(a: u32, b: u32) -> u32 {
    if a + b <= u32::MAX {
        (a + b) as u32
    } else {
        u32::MAX
    }
}

/// Subtraction that stops at zero.
pub open spec fn floored_difference(a: u32, b: u32) -> u32 {
    if a >= b {
        (a - b) as u32
    } else {
        0
    }
}

impl UsageSnapshot {
    /// Whether the windows are at valid moments.
    pub open spec fn valid(self) -> bool {
        &&& self.hourly matches Some(window) ==> window.start.valid()
        &&& self.daily matches Some(window) ==> FIRST_DAY <= window.date <= LAST_DAY
    }

    /// Whether the hourly counter is the one for the local hour of `now`.
    pub open spec fn counts_hour(self, now: Timestamp) -> bool {
        self.hourly matches Some(window) && window.start.instant() == now.hour_start().instant()
    }

    /// Requests counted in the local hour of `now`.
    pub open spec fn hourly_used(self, now: Timestamp) -> u32 {
        if self.counts_hour(now) {
            self.hourly->Some_0.count
        } else {
            0
        }
    }

    /// Requests counted on the local date of `now`.
    pub open spec fn daily_used(self, now: Timestamp) -> u32 {
        match self.daily {
            Some(window) if window.date == now.day => window.count,
            _ => 0,
        }
    }

    /// The counters after `amount` more requests at `now`. A counter for another hour or day
    /// starts anew.
    pub open spec fn recorded(self, amount: u32, now: Timestamp) -> UsageSnapshot {
        UsageSnapshot {
            account: self.account,
            hourly: Some(
                HourWindow {
                    start: if self.counts_hour(now) {
                        self.hourly->Some_0.start
                    } else {
                        now.hour_start()
                    },
                    count: capped_sum(self.hourly_used(now), amount),
                },
            ),
            daily: Some(
                DayWindow { date: now.day, count: capped_sum(self.daily_used(now), amount) },
            ),
        }
    }

    /// The budget that is left at `now`.
    pub open spec fn status(self, config: RateLimitConfig, now: Timestamp) -> RateStatus {
        RateStatus {
            hourly_remaining: floored_difference(config.hourly_quota@, self.hourly_used(now)),
            hourly_limit: config.hourly_quota@,
            hourly_used: self.hourly_used(now),
            hourly_reset_at: match now.hour_start().hour_later() {
                Some(reset) => reset,
                None => now,
            },
            daily_limit: nonzero::plain(config.daily_quota),
            daily_used: match config.daily_quota {
                Some(_) => Some(self.daily_used(now)),
                None => None,
            },
            daily_remaining: match config.daily_quota {
                Some(limit) => Some(floored_difference(limit@, self.daily_used(now))),
                None => None,
            },
            daily_reset_at: match config.daily_quota {
                Some(_) if now.day < LAST_DAY => Some(midnight((now.day + 1) as i32)),
                _ => None,
            },
        }
    }

    /// Counters of an account that has made no requests yet.
    pub fn new(account: String) -> (snapshot: UsageSnapshot)
        ensures
            snapshot.valid(),
            snapshot.account == account,
            snapshot.hourly is None,
            snapshot.daily is None,
    {
        UsageSnapshot { account, hourly: None, daily: None }
    }
}

/// Midnight in UTC at the start of a day.
pub open spec fn midnight(day: i32) -> Timestamp {
    Timestamp { day, hour: 0, minute: 0, second: 0, nanosecond: 0, offset: 0 }
}

/// Snapshot of remaining budget for presentation.
#[derive(Debug, Clone, Copy, PartialEq, Eq, Structural)]
pub struct RateStatus {
    pub hourly_remaining: u32,
    pub hourly_limit: u32,
    pub hourly_used: u32,
    pub hourly_reset_at: Timestamp,
    pub daily_limit: Option<u32>,
    pub daily_used: Option<u32>,
    pub daily_remaining: Option<u32>,
    pub daily_reset_at: Option<Timestamp>,
}

impl RateStatus {
    /// Whether the moments are valid.
    pub open spec fn valid(self) -> bool {
        &&& self.hourly_reset_at.valid()
        &&& self.daily_reset_at matches Some(reset) ==> reset.valid()
    }
}

/// Errors of the usage counters.
#[derive(Debug)]
pub enum RateLimitError {
    Io(IoFailure),
    Deserialize(String),
    Serialize(String),
    Config(ConfigError),
}

impl RateLimitError {
    /// The message shown to the user.
    pub open spec fn text(self) -> Seq<char> {
        match self {
            RateLimitError::Io(failure) => "I/O error at "@ + failure.path@,
            RateLimitError::Deserialize(e) => "failed to deserialize usage file: "@ + e@,
            RateLimitError::Serialize(e) => "failed to serialize usage file: "@ + e@,
            RateLimitError::Config(e) => e.text(),
        }
    }

    /// Renders the message shown to the user.
    pub fn message(&self) -> (text: String)
        ensures
            text@ == self.text(),
    {
        match self {
            RateLimitError::Io(failure) => "I/O error at ".to_owned().concat(failure.path.as_str()),
            RateLimitError::Deserialize(e) =>
                "failed to deserialize usage file: ".to_owned().concat(e.as_str()),
            RateLimitError::Serialize(e) =>
                "failed to serialize usage file: ".to_owned().concat(e.as_str()),
            RateLimitError::Config(e) => e.message(),
        }
    }
}

/// The counters of one account together with the file they are kept in.
#[derive(Debug)]
pub struct UsageLedger {
    pub path: Location,
    pub snapshot: UsageSnapshot,
}

/// How the counters of an account are to be had once their file was read.
#[derive(Debug)]
pub enum LedgerSource {
    /// There are none stored yet: the account starts with these.
    Ready(UsageLedger),
    /// The bytes are the stored counters, in JSON.
    Decode { path: Location, bytes: Vec<u8> },
}

impl UsageLedger {
    /// Whether the windows are at valid moments.
    pub open spec fn valid(self) -> bool {
        self.snapshot.valid()
    }

    /// The file that keeps the counters of an account.
    pub fn usage_file(paths: &ConfigPaths, account: &str) -> (path: Location)
        ensures
            path.is(paths@, seq!["usage"@, account@ + ".json"@]),
    {
        paths.grandchild("usage", account.to_owned().concat(".json"))
    }

    /// Whether this is how the counters of an account are to be had, given what came of reading
    /// their file.
    pub open spec fn loads(
        source: Result<LedgerSource, RateLimitError>,
        root: std::path::PathBuf,
        account: Seq<char>,
        read: FileRead<Vec<u8>>,
    ) -> bool {
        match read {
            FileRead::Failed(failure) => source == Err::<LedgerSource, _>(
                RateLimitError::Io(failure),
            ),
            FileRead::Found(bytes) if bytes@.len() > 0 => {
                &&& source matches Ok(LedgerSource::Decode { path, bytes: b })
                &&& path.is(root, seq!["usage"@, account + ".json"@])
                &&& b == bytes
            },
            _ => {
                &&& source matches Ok(LedgerSource::Ready(ledger))
                &&& ledger.path.is(root, seq!["usage"@, account + ".json"@])
                &&& ledger.snapshot.account@ == account
                &&& ledger.snapshot.hourly is None
                &&& ledger.snapshot.daily is None
            },
        }
    }

    /// How the counters of an account are to be had, given what came of reading their file. A
    /// file that is missing or empty stands for an account without requests.
    pub fn load(paths: &ConfigPaths, account: &str, read: FileRead<Vec<u8>>) -> (source: Result<
        LedgerSource,
        RateLimitError,
    >)
        ensures
            UsageLedger::loads(source, paths@, account@, read),
    {
        let path = UsageLedger::usage_file(paths, account);
        match read {
            FileRead::Failed(failure) => Err(RateLimitError::Io(failure)),
            FileRead::Missing => Ok(
                LedgerSource::Ready(
                    UsageLedger { path, snapshot: UsageSnapshot::new(account.to_owned()) },
                ),
            ),
            FileRead::Found(bytes) => {
                if bytes.len() == 0 {
                    Ok(
                        LedgerSource::Ready(
                            UsageLedger { path, snapshot: UsageSnapshot::new(account.to_owned()) },
                        ),
                    )
                } else {
                    Ok(LedgerSource::Decode { path, bytes })
                }
            },
        }
    }

    /// Counts `amount` more requests at `now`.
    pub fn record(&mut self, amount: u32, now: Timestamp)
        requires
            old(self).valid(),
            now.valid(),
        ensures
            final(self).valid(),
            final(self).path == old(self).path,
            final(self).snapshot == old(self).snapshot.recorded(amount, now),
    {
        let hour = hour_bucket(now);
        let (start, used): (Timestamp, u32) = match &self.snapshot.hourly {
            Some(window) => if window.start.same_instant(&hour) {
                (window.start, window.count)
            } else {
                (hour, 0)
            },
            None => (hour, 0),
        };
        self.snapshot.hourly = Some(HourWindow { start, count: used.saturating_add(amount) });
        let counted: u32 = match &self.snapshot.daily {
            Some(window) => if window.date == now.day {
                window.count
            } else {
                0
            },
            None => 0,
        };
        self.snapshot.daily = Some(
            DayWindow { date: now.day, count: counted.saturating_add(amount) },
        );
    }

    /// The budget that is left at `now`.
    pub fn status(&self, config: &RateLimitConfig, now: Timestamp) -> (status: RateStatus)
        requires
            self.valid(),
            now.valid(),
        ensures
            status == self.snapshot.status(*config, now),
            status.valid(),
    {
        let hour = hour_bucket(now);
        let hourly_used: u32 = match &self.snapshot.hourly {
            Some(window) => if window.start.same_instant(&hour) {
                window.count
            } else {
                0
            },
            None => 0,
        };
        let hourly_limit: u32 = config.hourly_quota.get();
        let hourly_reset_at = match add_hour(hour) {
            Some(reset) => reset,
            None => now,
        };
        let (daily_used, daily_remaining, daily_reset_at): (
            Option<u32>,
            Option<u32>,
            Option<Timestamp>,
        ) = match config.daily_quota {
            Some(limit) => {
                let used: u32 = match &self.snapshot.daily {
                    Some(window) => if window.date == now.day {
                        window.count
                    } else {
                        0
                    },
                    None => 0,
                };
                let reset = match next_day(now.day) {
                    Some(day) => Some(
                        Timestamp { day, hour: 0, minute: 0, second: 0, nanosecond: 0, offset: 0 },
                    ),
                    None => None,
                };
                (Some(used), Some(limit.get().saturating_sub(used)), reset)
            },
            None => (None, None, None),
        };
        RateStatus {
            hourly_remaining: hourly_limit.saturating_sub(hourly_used),
            hourly_limit,
            hourly_used,
            hourly_reset_at,
            daily_limit: nonzero::get_plain(config.daily_quota),
            daily_used,
            daily_remaining,
            daily_reset_at,
        }
    }
}

/// The counters of one account together with the limits they are held to.
#[derive(Debug)]
pub struct RateLimiter {
    pub usage: UsageLedger,
    pub config: RateLimitConfig,
}

impl RateLimiter {
    /// A limiter over the counters of an account.
    pub fn new(usage: UsageLedger, config: RateLimitConfig) -> (limiter: RateLimiter)
        ensures
            limiter.usage == usage,
            limiter.config == config,
    {
        RateLimiter { usage, config }
    }

    /// Record a successful request of a given weight. The counters have to be stored afterwards.
    pub fn record_success(&mut self, weight: u32, now: Timestamp) -> (status: RateStatus)
        requires
            old(self).usage.valid(),
            now.valid(),
        ensures
            final(self).usage.valid(),
            final(self).config == old(self).config,
            final(self).usage.path == old(self).usage.path,
            final(self).usage.snapshot == old(self).usage.snapshot.recorded(weight, now),
            status == final(self).usage.snapshot.status(final(self).config, now),
            status.valid(),
    {
        self.usage.record(weight, now);
        self.usage.status(&self.config, now)
    }

    /// Retrieve the current counter status without mutating state.
    pub fn status(&self, now: Timestamp) -> (status: RateStatus)
        requires
            self.usage.valid(),
            now.valid(),
        ensures
            status == self.usage.snapshot.status(self.config, now),
            status.valid(),
    {
        self.usage.status(&self.config, now)
    }
}

/// Recording requests adds them to the counts of the present hour and day, up to the largest
/// number that a counter holds.
pub proof fn law_recorded_requests_count(
    snapshot: UsageSnapshot,
    config: RateLimitConfig,
    amount: u32,
    now: Timestamp,
)
    ensures
        snapshot.recorded(amount, now).status(config, now).hourly_used == capped_sum(
            snapshot.status(config, now).hourly_used,
            amount,
        ),
        config.daily_quota is Some ==> snapshot.recorded(amount, now).status(config, now).daily_used
            == Some(capped_sum(snapshot.status(config, now).daily_used->Some_0, amount)),
{
}

/// Counters start anew: at a moment in another hour than the last recorded request nothing counts
/// as used in that hour, and the same for another date.
pub proof fn law_windows_reset(
    snapshot: UsageSnapshot,
    config: RateLimitConfig,
    amount: u32,
    now: Timestamp,
    later: Timestamp,
)
    ensures
        later.hour_start().instant() != now.hour_start().instant() ==> {
            let status = snapshot.recorded(amount, now).status(config, later);
            status.hourly_used == 0 && status.hourly_remaining == config.hourly_quota@
        },
        later.day != now.day && config.daily_quota is Some ==> {
            let status = snapshot.recorded(amount, now).status(config, later);
            status.daily_used == Some(0u32) && status.daily_remaining == nonzero::plain(
                config.daily_quota,
            )
        },
{
}

/// Used and remaining requests make up the limit as long as the limit is not exceeded; nothing
/// remains once it is.
pub proof fn law_budget_adds_up(snapshot: UsageSnapshot, config: RateLimitConfig, now: Timestamp)
    ensures
        ({
            let status = snapshot.status(config, now);
            &&& status.hourly_used <= status.hourly_limit ==> status.hourly_used
                + status.hourly_remaining == status.hourly_limit
            &&& status.hourly_used >= status.hourly_limit ==> status.hourly_remaining == 0
            &&& status.daily_limit matches Some(limit) ==> {
                &&& status.daily_used->Some_0 <= limit ==> status.daily_used->Some_0
                    + status.daily_remaining->Some_0 == limit
                &&& status.daily_used->Some_0 >= limit ==> status.daily_remaining == Some(0u32)
            }
        }),
{
}

/// Two requests of the same hour and date count the same in either order, and the same as one
/// request of their joint weight, up to the largest number that a counter holds.
pub proof fn law_recording_is_additive(
    snapshot: UsageSnapshot,
    a: u32,
    b: u32,
    now: Timestamp,
    later: Timestamp,
)
    requires
        now.hour_start().instant() == later.hour_start().instant(),
        now.day == later.day,
    ensures
        snapshot.recorded(a, now).recorded(b, later) == snapshot.recorded(capped_sum(a, b), now),
        snapshot.recorded(a, now).recorded(b, later) == snapshot.recorded(b, now).recorded(
            a,
            later,
        ),
{
}

/// The hourly counters reset later than now and at most one hour from now, unless the calendar
/// ends before: nothing that was recorded by then counts at that moment.
pub proof fn law_hourly_reset_is_ahead(
    snapshot: UsageSnapshot,
    config: RateLimitConfig,
    amount: u32,
    now: Timestamp,
)
    requires
        now.valid(),
        !(now.day == LAST_DAY && now.hour == 23),
    ensures
        ({
            let reset = snapshot.status(config, now).hourly_reset_at;
            now.instant() < reset.instant() <= now.instant() + HOUR_NANOS
        }),
        snapshot.recorded(amount, now).hourly_used(
            snapshot.status(config, now).hourly_reset_at,
        ) == 0,
{
}

/// By a clock in UTC the daily counters reset later than now and at most one day from now, unless
/// the calendar ends before: nothing that was recorded now counts at that moment.
pub proof fn law_daily_reset_is_ahead(
    snapshot: UsageSnapshot,
    config: RateLimitConfig,
    amount: u32,
    now: Timestamp,
)
    requires
        now.valid(),
        now.offset == 0,
        config.daily_quota is Some,
        now.day < LAST_DAY,
    ensures
        snapshot.status(config, now).daily_reset_at matches Some(reset) && {
            &&& now.instant() < reset.instant() <= now.instant() + DAY_NANOS
            &&& snapshot.recorded(amount, now).daily_used(reset) == 0
        },
{
}

/// The parts of a weight that are waited for one after the other.
pub open spec fn portions(weight: u32, burst: u32) -> Seq<u32>
    recommends
        burst > 0,
    decreases weight,
{
    if burst == 0 || weight <= burst {
        seq![weight]
    } else {
        seq![burst] + portions((weight - burst) as u32, burst)
    }
}

/// The sum of numbers.
pub open spec fn total(parts: Seq<u32>) -> nat
    decreases parts.len(),
{
    if parts.len() == 0 {
        0
    } else {
        parts[0] as nat + total(parts.drop_first())
    }
}

/// Cutting a weight until nothing is left of it gives parts that make up the weight, none of which
/// is larger than what may be requested at once.
pub proof fn law_portions_make_up_the_weight(weight: u32, burst: u32, part: u32, rest: Option<u32>)
    requires
        burst > 0,
        cuts(burst, weight, part, rest),
    ensures
        portions(weight, burst) == seq![part] + (match rest {
            Some(rest) => portions(rest, burst),
            None => Seq::empty(),
        }),
        total(portions(weight, burst)) == weight,
        forall|i: int|
            #![trigger portions(weight, burst)[i]]
            0 <= i < portions(weight, burst).len() ==> portions(weight, burst)[i] <= burst,
    decreases weight,
{
    let parts = portions(weight, burst);
    if weight > burst {
        let left = (weight - burst) as u32;
        let next = if left <= burst { left } else { burst };
        let after = if left <= burst { None } else { Some((left - burst) as u32) };
        law_portions_make_up_the_weight(left, burst, next, after);
        assert(parts.drop_first() =~= portions(left, burst));
        assert forall|i: int| #![trigger parts[i]] 0 <= i < parts.len() implies parts[i]
            <= burst by {
            if i > 0 {
                assert(parts[i] == portions(left, burst)[i - 1]);
            }
        }
    } else {
        assert(parts.drop_first() =~= Seq::empty());
        assert(total(parts.drop_first()) == 0);
        assert(parts =~= seq![part] + Seq::<u32>::empty());
    }
}

/// What is recorded counts for the rest of the hour and of the date, and adds to what was counted
/// before: a counter stops at the largest number that it holds, and another hour or another date
/// starts from nothing.
pub proof fn law_counts_add_up_within_their_window(
    snapshot: UsageSnapshot,
    config: RateLimitConfig,
    amount: u32,
    now: Timestamp,
    later: Timestamp,
)
    requires
        now.valid(),
        later.valid(),
        now.offset == later.offset,
    ensures
        ({
            let before = snapshot.status(config, now);
            let after = snapshot.recorded(amount, now).status(config, later);
            &&& now.day == later.day && now.hour == later.hour ==> after.hourly_used == (
            if before.hourly_used + amount <= u32::MAX {
                before.hourly_used + amount
            } else {
                u32::MAX as int
            })
            &&& now.day != later.day || now.hour != later.hour ==> after.hourly_used == 0
            &&& config.daily_quota is Some && now.day == later.day ==> {
                &&& before.daily_used matches Some(used)
                &&& after.daily_used matches Some(n)
                &&& n == (if used + amount <= u32::MAX {
                    used + amount
                } else {
                    u32::MAX as int
                })
            }
            &&& config.daily_quota is Some && now.day != later.day ==> after.daily_used == Some(
                0u32,
            )
        }),
{
}

/// The limits are those that are configured, what remains is what they leave above what is used,
/// and there are daily figures if and only if there is a daily limit.
pub proof fn law_limits_are_those_configured(
    snapshot: UsageSnapshot,
    config: RateLimitConfig,
    now: Timestamp,
)
    ensures
        ({
            let status = snapshot.status(config, now);
            &&& status.hourly_limit == config.hourly_quota@
            &&& status.hourly_remaining == (if status.hourly_used < config.hourly_quota@ {
                config.hourly_quota@ - status.hourly_used
            } else {
                0
            })
            &&& match config.daily_quota {
                Some(limit) => {
                    &&& status.daily_limit == Some(limit@)
                    &&& status.daily_used matches Some(used)
                    &&& status.daily_remaining matches Some(left)
                    &&& left == (if used < limit@ {
                        limit@ - used
                    } else {
                        0
                    })
                },
                None => {
                    &&& status.daily_limit is None
                    &&& status.daily_used is None
                    &&& status.daily_remaining is None
                    &&& status.daily_reset_at is None
                },
            }
        }),
{
}

/// A stored counter is what counts as used in its own hour or on its own date, and an account
/// without counters has used nothing.
pub proof fn law_stored_counters_are_told(
    snapshot: UsageSnapshot,
    config: RateLimitConfig,
    now: Timestamp,
)
    requires
        now.valid(),
        config.daily_quota is Some,
    ensures
        snapshot.hourly is None ==> snapshot.status(config, now).hourly_used == 0,
        snapshot.hourly matches Some(window) ==> (window.start.minute == 0 && window.start.second
            == 0 && window.start.nanosecond == 0 && window.start.offset == now.offset
            && window.start.day == now.day && window.start.hour == now.hour ==> snapshot.status(
            config,
            now,
        ).hourly_used == window.count),
        snapshot.daily is None ==> snapshot.status(config, now).daily_used == Some(0u32),
        snapshot.daily matches Some(window) ==> snapshot.status(config, now).daily_used == Some(
            if window.date == now.day {
                window.count
            } else {
                0
            },
        ),
{
}

/// The hourly counters reset on the full local hour that follows, and the daily ones at the
/// midnight in UTC that starts the next date, as far as the calendar reaches.
pub proof fn law_counters_reset_on_the_hour_and_at_midnight(
    snapshot: UsageSnapshot,
    config: RateLimitConfig,
    now: Timestamp,
)
    requires
        now.valid(),
        now.day < LAST_DAY,
    ensures
        ({
            let reset = snapshot.status(config, now).hourly_reset_at;
            &&& reset.minute == 0 && reset.second == 0 && reset.nanosecond == 0
            &&& reset.offset == now.offset
            &&& now.hour < 23 ==> reset.day == now.day && reset.hour == now.hour + 1
            &&& now.hour == 23 ==> reset.day == now.day + 1 && reset.hour == 0
        }),
        config.daily_quota is Some ==> {
            &&& snapshot.status(config, now).daily_reset_at matches Some(reset)
            &&& reset.day == now.day + 1
            &&& reset.hour == 0 && reset.minute == 0 && reset.second == 0 && reset.nanosecond == 0
            &&& reset.offset == 0
        },
{
}

/// Recording requests leaves the account as it is, and marks the counters with the hour and the
/// date of the moment.
pub proof fn law_recording_marks_the_moment(snapshot: UsageSnapshot, amount: u32, now: Timestamp)
    ensures
        ({
            let after = snapshot.recorded(amount, now);
            &&& after.account == snapshot.account
            &&& after.hourly matches Some(window)
            &&& window.start.instant() == now.instant() - (now.minute * 60 + now.second)
                * 1_000_000_000 - now.nanosecond
            &&& after.daily matches Some(day)
            &&& day.date == now.day
        }),
{
}

/// What is waited for first is no more than may be requested at once, and it and the rest make up
/// the weight; there is a rest if and only if the weight is larger than that.
pub proof fn law_nothing_of_a_weight_is_lost(burst: u32, weight: u32, part: u32, rest: Option<u32>)
    requires
        burst > 0,
        cuts(burst, weight, part, rest),
    ensures
        part <= burst,
        rest is Some <==> weight > burst,
        rest matches Some(left) ==> part + left == weight && left > 0,
        rest is None ==> part == weight,
{
}

/// The counters of an account are kept in a file of its own. One that is missing or empty stands for
/// an account that has used nothing, one that cannot be read is an error, and any other is handed on
/// as it is.
pub proof fn law_missing_counters_are_fresh(
    source: Result<LedgerSource, RateLimitError>,
    root: std::path::PathBuf,
    account: Seq<char>,
    read: FileRead<Vec<u8>>,
    config: RateLimitConfig,
    now: Timestamp,
)
    requires
        UsageLedger::loads(source, root, account, read),
    ensures
        read is Missing || (read matches FileRead::Found(bytes) && bytes@.len() == 0) ==> {
            &&& source matches Ok(LedgerSource::Ready(ledger))
            &&& ledger.path.is(root, seq!["usage"@, account + ".json"@])
            &&& ledger.snapshot.account@ == account
            &&& ledger.snapshot.status(config, now).hourly_used == 0
            &&& config.daily_quota is Some ==> ledger.snapshot.status(config, now).daily_used
                == Some(0u32)
        },
        read matches FileRead::Found(bytes) ==> (bytes@.len() > 0 ==> (source matches Ok(
            LedgerSource::Decode { path, bytes: kept },
        ) && kept == bytes && path.is(root, seq!["usage"@, account + ".json"@]))),
        read matches FileRead::Failed(failure) ==> (source matches Err(RateLimitError::Io(f)) && f
            == failure),
{
}

/// A message says what went wrong with the counters, and with which file or why.
pub proof fn law_counter_messages_tell_the_details(detail: String, failure: IoFailure)
    ensures
        RateLimitError::Io(failure).text() == "I/O error at "@ + failure.path@,
        RateLimitError::Deserialize(detail).text() == "failed to deserialize usage file: "@
            + detail@,
        RateLimitError::Serialize(detail).text() == "failed to serialize usage file: "@ + detail@,
{
}

} // verus!
