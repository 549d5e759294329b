//! Quota tracking and request gating.
//!
//! The limiter is a pure state machine over plain values: the caller tells it
//! the current clock reading and what the server's quota headers said, and it
//! answers whether the next request should wait and for how long.  The
//! surrounding application owns the clock, the lock and the actual sleeping.
//!
//! All times are in seconds.  `reset_at` is an absolute reading of the same
//! clock that callers pass as `now`.

use vstd::prelude::*;

verus! {

/// Name of the response header carrying the seconds until the quota resets.
pub const RESET_HEADER: &'static str = "x-ratelimit-reset";

/// Name of the response header carrying the used-request count.
pub const USED_HEADER: &'static str = "x-ratelimit-used";

/// Name of the response header carrying the remaining-request count.
pub const REMANING_HEADER: &'static str = "x-ratelimit-remaining";

/// Quota granted before the server has spoken: the first request is never
/// blocked.
pub const DEFAULT_QUOTA: u32 = 100;

/// Assumed width of the quota window, in seconds, before the server has
/// spoken.
pub const DEFAULT_WINDOW_SECS: u64 = 60;

/// `a + b`, stopping at the top of the clock's range.
pub open spec fn sat_add64(a: u64, b: u64) -> u64 {
    if a + b > u64::MAX {
        u64::MAX
    } else {
        (a + b) as u64
    }
}

/// Whether `c` is a decimal digit.
pub open spec fn is_digit(c: char) -> bool {
    48 <= c as int <= 57
}

/// The value of a decimal digit (meaningful only when `is_digit(c)`).
pub open spec fn digit_val(c: char) -> int {
    c as int - 48
}

/// Whether every character of `s` is a decimal digit.
pub open spec fn all_digits(s: Seq<char>) -> bool {
    forall|i: int| 0 <= i < s.len() ==> is_digit(s[i])
}

/// The number denoted by a string of decimal digits, most significant first.
pub open spec fn digits_value(s: Seq<char>) -> int
    decreases s.len(),
{
    if s.len() == 0 {
        0
    } else {
        digits_value(s.drop_last()) * 10 + digit_val(s.last())
    }
}

/// Whether `s` is a well-formed quota header value: a nonempty digit string
/// whose value fits the counter width.
pub open spec fn quota_value_ok(s: Seq<char>) -> bool {
    s.len() > 0 && all_digits(s) && digits_value(s) <= u32::MAX
}

proof fn lemma_digits_value_nonneg(s: Seq<char>)
    requires
        all_digits(s),
    ensures
        digits_value(s) >= 0,
    decreases s.len(),
{
    if s.len() > 0 {
        lemma_digits_value_nonneg(s.drop_last());
    }
}

/// A digit string is worth at least any of its prefixes.
proof fn lemma_digits_value_prefix_le(s: Seq<char>, j: int)
    requires
        all_digits(s),
        0 <= j <= s.len(),
    ensures
        digits_value(s.subrange(0, j)) <= digits_value(s),
    decreases s.len(),
{
    if j == s.len() {
        assert(s.subrange(0, j) =~= s);
    } else {
        let p = s.drop_last();
        assert(s.subrange(0, j) =~= p.subrange(0, j));
        lemma_digits_value_prefix_le(p, j);
        lemma_digits_value_nonneg(p);
    }
}

/// Parses a quota header value: a nonempty string of decimal digits whose
/// value fits in the counter width.  Anything else is refused whole.
pub fn parse_quota_value(s: &str) -> (r: Option<u32>)
    ensures
        r is Some <==> quota_value_ok(s@),
        r matches Some(v) ==> v == digits_value(s@),
{
    let n = s.unicode_len();
    if n == 0 {
        return None;
    }
    let mut i: usize = 0;
    let mut acc: u32 = 0;
    while i < n
        invariant
            n == s@.len(),
            0 <= i <= n,
            all_digits(s@.subrange(0, i as int)),
            acc == digits_value(s@.subrange(0, i as int)),
        decreases n - i,
    {
        let c = s.get_char(i);
        let cv = c as u32;
        if cv < 48 || cv > 57 {
            assert(!is_digit(s@[i as int]));
            return None;
        }
        let d: u32 = cv - 48;
        let wide: u64 = acc as u64 * 10 + d as u64;
        assert(s@.subrange(0, i + 1 as int) =~= s@.subrange(0, i as int).push(s@[i as int]));
        assert(s@.subrange(0, i as int).push(s@[i as int]).drop_last() =~= s@.subrange(0, i as int));
        if wide > u32::MAX as u64 {
            proof {
                if all_digits(s@) {
                    lemma_digits_value_prefix_le(s@, i + 1);
                }
            }
            return None;
        }
        acc = wide as u32;
        i = i + 1;
    }
    assert(s@.subrange(0, n as int) =~= s@);
    Some(acc)
}

/// One observation of the server's quota counters.
#[derive(Clone, Copy, Debug, PartialEq, Eq, Structural)]
pub struct RateLimiterTracker {
    /// Requests left in the current window.
    pub remaning: u32,
    /// Requests already spent in the current window.
    pub used: u32,
    /// Clock reading at which the window resets.
    pub reset_at: u64,
}

impl RateLimiterTracker {
    /// The optimistic state assumed before the server has spoken.
    pub fn new(now: u64) -> (r: Self)
        ensures
            r.remaning == DEFAULT_QUOTA,
            r.used == 0,
            r.reset_at == sat_add64(now, DEFAULT_WINDOW_SECS),
    {
        RateLimiterTracker {
            remaning: DEFAULT_QUOTA,
            used: 0,
            reset_at: now.saturating_add(DEFAULT_WINDOW_SECS),
        }
    }

    /// Builds a tracker from already-parsed counter values; the reset header
    /// counts seconds from now.
    pub fn from_values(remaning: u32, used: u32, reset_secs: u32, now: u64) -> (r: Self)
        ensures
            r.remaning == remaning,
            r.used == used,
            r.reset_at == sat_add64(now, reset_secs as u64),
    {
        RateLimiterTracker { remaning, used, reset_at: now.saturating_add(reset_secs as u64) }
    }

    /// Moves the reset deadline to `remaning` seconds from now.
    pub fn set_remaning_time(&mut self, remaning: u32, now: u64)
        ensures
            final(self).remaning == old(self).remaning,
            final(self).used == old(self).used,
            final(self).reset_at == sat_add64(now, remaning as u64),
    {
        self.reset_at = now.saturating_add(remaning as u64);
    }

    /// Builds a tracker from the three raw quota headers.  If any of the
    /// three is missing or malformed, no tracker is produced: partial
    /// observations are never applied.
    pub fn from_headers(
        remaning: Option<&str>,
        used: Option<&str>,
        reset: Option<&str>,
        now: u64,
    ) -> (r: Option<Self>)
        ensures
            r is Some <==> headers_ok(remaning, used, reset),
            r matches Some(t) ==> t == headers_tracker(remaning, used, reset, now),
    {
        let rem_v = match remaning {
            Some(s) => parse_quota_value(s),
            None => None,
        };
        let used_v = match used {
            Some(s) => parse_quota_value(s),
            None => None,
        };
        let reset_v = match reset {
            Some(s) => parse_quota_value(s),
            None => None,
        };
        match (rem_v, used_v, reset_v) {
            (Some(r), Some(u), Some(t)) => Some(Self::from_values(r, u, t, now)),
            _ => None,
        }
    }
}

/// Whether all three quota headers are present and well formed, so that an
/// observation may be applied.
pub open spec fn headers_ok(remaning: Option<&str>, used: Option<&str>, reset: Option<&str>) -> bool {
    &&& remaning matches Some(rs) && quota_value_ok(rs@)
    &&& used matches Some(us) && quota_value_ok(us@)
    &&& reset matches Some(ts) && quota_value_ok(ts@)
}

/// The observation that three well-formed quota headers denote, read at
/// clock `now` (meaningful only when `headers_ok` holds).
pub open spec fn headers_tracker(
    remaning: Option<&str>,
    used: Option<&str>,
    reset: Option<&str>,
    now: u64,
) -> RateLimiterTracker {
    RateLimiterTracker {
        remaning: digits_value(remaning->0@) as u32,
        used: digits_value(used->0@) as u32,
        reset_at: sat_add64(now, digits_value(reset->0@) as u64),
    }
}

/// Seconds from `now` until the tracker's reset deadline; zero when the
/// deadline has already passed.
pub open spec fn time_until_reset(t: RateLimiterTracker, now: u64) -> u64 {
    if t.reset_at > now {
        (t.reset_at - now) as u64
    } else {
        0
    }
}

/// The per-request delay of the paced strategy: the remaining window spread
/// evenly over the remaining quota.  With no quota left, the whole remaining
/// window.
pub open spec fn paced_delay(t: RateLimiterTracker, now: u64) -> u64 {
    if t.remaning == 0 {
        time_until_reset(t, now)
    } else {
        (time_until_reset(t, now) as int / t.remaning as int) as u64
    }
}

/// Strategy that lets requests through freely until the quota is exhausted,
/// then blocks everyone until the reset deadline.
#[derive(Clone, Copy, Debug, PartialEq, Eq, Structural)]
pub struct RateLimiterBatched {
    pub tracker: RateLimiterTracker,
}

impl RateLimiterBatched {
    pub fn new(now: u64) -> (r: Self)
        ensures
            r.tracker.remaning == DEFAULT_QUOTA,
            r.tracker.used == 0,
            r.tracker.reset_at == sat_add64(now, DEFAULT_WINDOW_SECS),
    {
        RateLimiterBatched { tracker: RateLimiterTracker::new(now) }
    }

    /// Whether the next request must wait: exactly when the quota is spent.
    pub fn should_wait(&self) -> (r: bool)
        ensures
            r == (self.tracker.remaning == 0),
    {
        self.tracker.remaning == 0
    }

    /// How long a waiting caller sleeps: until the reset deadline.
    pub fn wait_duration(&self, now: u64) -> (r: u64)
        ensures
            r == time_until_reset(self.tracker, now),
            self.tracker.reset_at <= now ==> r == 0,
    {
        self.tracker.reset_at.saturating_sub(now)
    }

    /// Absorbs one complete server observation.
    pub fn update(&mut self, tracker: RateLimiterTracker)
        ensures
            final(self).tracker == tracker,
    {
        self.tracker = tracker;
    }
}

/// Strategy that spreads requests evenly across the quota window.
#[derive(Clone, Copy, Debug, PartialEq, Eq, Structural)]
pub struct RateLimiterPaced {
    pub tracker: RateLimiterTracker,
}

impl RateLimiterPaced {
    pub fn new(now: u64) -> (r: Self)
        ensures
            r.tracker.remaning == DEFAULT_QUOTA,
            r.tracker.used == 0,
            r.tracker.reset_at == sat_add64(now, DEFAULT_WINDOW_SECS),
    {
        RateLimiterPaced { tracker: RateLimiterTracker::new(now) }
    }

    /// The paced strategy always wants to pace.
    pub fn should_wait(&self) -> (r: bool)
        ensures
            r == true,
    {
        true
    }

    /// The proportional delay before the next request.  Never negative: a
    /// deadline already in the past means no sleep at all.
    pub fn wait_duration(&self, now: u64) -> (r: u64)
        ensures
            r == paced_delay(self.tracker, now),
            self.tracker.reset_at <= now && self.tracker.remaning > 0 ==> r == 0,
    {
        let until = self.tracker.reset_at.saturating_sub(now);
        if self.tracker.remaning == 0 {
            until
        } else {
            until / self.tracker.remaning as u64
        }
    }

    /// Absorbs one complete server observation.
    pub fn update(&mut self, tracker: RateLimiterTracker)
        ensures
            final(self).tracker == tracker,
    {
        self.tracker = tracker;
    }
}

/// Rate limiter for API requests: one of two throttling strategies, or off.
#[derive(Clone, Copy, Debug, PartialEq, Eq, Structural)]
pub enum RateLimiter {
    Batched(RateLimiterBatched),
    Paced(RateLimiterPaced),
    Off,
}

impl RateLimiter {
    /// Whether the next request must wait before being sent.
    pub open spec fn spec_should_wait(&self) -> bool {
        match self {
            RateLimiter::Batched(b) => b.tracker.remaning == 0,
            RateLimiter::Paced(_) => true,
            RateLimiter::Off => false,
        }
    }

    /// How long a waiting caller sleeps, given the clock reading `now`.
    pub open spec fn spec_wait_duration(&self, now: u64) -> u64 {
        match self {
            RateLimiter::Batched(b) => time_until_reset(b.tracker, now),
            RateLimiter::Paced(p) => paced_delay(p.tracker, now),
            RateLimiter::Off => 0,
        }
    }

    /// The limiter after absorbing the observation `t`: the off limiter
    /// ignores it, the others replace their whole tracker.
    pub open spec fn spec_updated(&self, t: RateLimiterTracker) -> RateLimiter {
        match self {
            RateLimiter::Batched(_) => RateLimiter::Batched(RateLimiterBatched { tracker: t }),
            RateLimiter::Paced(_) => RateLimiter::Paced(RateLimiterPaced { tracker: t }),
            RateLimiter::Off => RateLimiter::Off,
        }
    }

    /// Creates a limiter using the batched strategy.
    pub fn new_batched(now: u64) -> (r: RateLimiter)
        ensures
            r is Batched,
            r matches RateLimiter::Batched(b) ==> b.tracker.remaning == DEFAULT_QUOTA
                && b.tracker.used == 0 && b.tracker.reset_at == sat_add64(
                now,
                DEFAULT_WINDOW_SECS,
            ),
    {
        RateLimiter::Batched(RateLimiterBatched::new(now))
    }

    /// Creates a limiter using the paced strategy.
    pub fn new_paced(now: u64) -> (r: RateLimiter)
        ensures
            r is Paced,
            r matches RateLimiter::Paced(p) ==> p.tracker.remaning == DEFAULT_QUOTA
                && p.tracker.used == 0 && p.tracker.reset_at == sat_add64(
                now,
                DEFAULT_WINDOW_SECS,
            ),
    {
        RateLimiter::Paced(RateLimiterPaced::new(now))
    }

    pub fn should_wait(&self) -> (r: bool)
        ensures
            r == self.spec_should_wait(),
    {
        match self {
            RateLimiter::Batched(b) => b.should_wait(),
            RateLimiter::Paced(p) => p.should_wait(),
            RateLimiter::Off => false,
        }
    }

    /// How long the caller should sleep before sending.  This only computes;
    /// the caller does the sleeping.
    pub fn wait_duration(&self, now: u64) -> (r: u64)
        ensures
            r == self.spec_wait_duration(now),
    {
        match self {
            RateLimiter::Batched(b) => b.wait_duration(now),
            RateLimiter::Paced(p) => p.wait_duration(now),
            RateLimiter::Off => 0,
        }
    }

    /// Whether responses should be inspected for quota headers at all; the
    /// off limiter lets callers skip header parsing entirely.
    pub fn should_update(&self) -> (r: bool)
        ensures
            r == !(self is Off),
    {
        match self {
            RateLimiter::Off => false,
            _ => true,
        }
    }

    /// Absorbs one complete server observation; the off limiter ignores it.
    pub fn update(&mut self, tracker: RateLimiterTracker)
        ensures
            *final(self) == old(self).spec_updated(tracker),
    {
        match self {
            RateLimiter::Batched(b) => b.update(tracker),
            RateLimiter::Paced(p) => p.update(tracker),
            RateLimiter::Off => {},
        }
    }

    /// Absorbs the three raw quota headers of one response.  The update is
    /// atomic: if the limiter is off, or any of the three headers is missing
    /// or malformed, the state is left completely unchanged.
    pub fn observe_headers(
        &mut self,
        remaning: Option<&str>,
        used: Option<&str>,
        reset: Option<&str>,
        now: u64,
    )
        ensures
            *old(self) is Off || !headers_ok(remaning, used, reset) ==> *final(self) == *old(
                self,
            ),
            !(*old(self) is Off) && headers_ok(remaning, used, reset) ==> *final(self) == old(
                self,
            ).spec_updated(headers_tracker(remaning, used, reset, now)),
    {
        if self.should_update() {
            if let Some(tracker) = RateLimiterTracker::from_headers(remaning, used, reset, now) {
                self.update(tracker);
            }
        }
    }
}

/// Law: the batched strategy blocks exactly while the last absorbed
/// observation reported an exhausted quota.  Once an update sets `remaning`
/// to zero, `should_wait` answers true, and since `update` is the only
/// operation that changes a limiter, it keeps answering true until an update
/// with a positive `remaning` is absorbed.
pub proof fn lemma_batched_gate(l: RateLimiter, t: RateLimiterTracker)
    requires
        l is Batched,
    ensures
        l.spec_updated(t).spec_should_wait() <==> t.remaning == 0,
{
}

/// Law: a paced wait never reaches back in time.  The delay is a duration,
/// never below zero, and once the reset deadline lies in the past the
/// computed delay is exactly zero; it also never exceeds the time left in
/// the window.
pub proof fn lemma_paced_no_negative_wait(l: RateLimiter, now: u64)
    requires
        l is Paced,
    ensures
        l.spec_wait_duration(now) >= 0,
        l matches RateLimiter::Paced(p) ==> {
            &&& p.tracker.reset_at <= now ==> l.spec_wait_duration(now) == 0
            &&& l.spec_wait_duration(now) <= time_until_reset(p.tracker, now)
        },
{
}

/// Law: the off limiter never waits and ignores every observation; its
/// observable state cannot change.
pub proof fn lemma_off_inert(t: RateLimiterTracker, now: u64)
    ensures
        !RateLimiter::Off.spec_should_wait(),
        RateLimiter::Off.spec_wait_duration(now) == 0,
        RateLimiter::Off.spec_updated(t) == RateLimiter::Off,
{
}

} // verus!
