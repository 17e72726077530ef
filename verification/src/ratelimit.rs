//! Token-bucket rate limiting for outgoing requests.
//!
//! The server enforces two buckets: one per IP address (50 tokens, refilled
//! at 15 tokens per second) and one per player (25 tokens, refilled at 3
//! tokens per second). Both are tracked as a "theoretical arrival time"
//! (TAT): the instant at which the bucket would be full again. Charging a
//! request first pulls the TAT up to `now - burst` (a bucket holds at most its
//! capacity), then pushes it forward by the cost of the request. The caller
//! must wait until both TATs are no later than the present.
//!
//! Time is counted in ticks of one third of a nanosecond, and costs in
//! hundredths of a token, so that every rate and capacity above is a whole
//! number of ticks.
use crate::clock::Clock;
use vstd::prelude::*;

verus! {

/// Ticks per nanosecond.
pub const TICKS_PER_NS: i128 = 3;

/// Ticks per second.
pub const TICKS_PER_SEC: i128 = 3_000_000_000;

/// Hundredths of a token per token.
pub const CENTITOKENS_PER_TOKEN: i128 = 100;

/// Capacity of the per-IP bucket, in tokens.
pub const IP_CAPACITY: i128 = 50;

/// Refill rate of the per-IP bucket, in tokens per second.
pub const IP_REFILL_PER_SEC: i128 = 15;

/// Capacity of the per-player bucket, in tokens.
pub const PLAYER_CAPACITY: i128 = 25;

/// Refill rate of the per-player bucket, in tokens per second.
pub const PLAYER_REFILL_PER_SEC: i128 = 3;

/// Ticks that one hundredth of a token occupies in the per-IP bucket.
pub const IP_INTERVAL: i128 = 2_000_000;

/// Ticks that a full per-IP bucket spans.
pub const IP_BURST: i128 = 10_000_000_000;

/// Ticks that one hundredth of a token occupies in the per-player bucket.
pub const PLAYER_INTERVAL: i128 = 10_000_000;

/// Ticks that a full per-player bucket spans.
pub const PLAYER_BURST: i128 = 25_000_000_000;

/// Nanoseconds, rounded up, that a drained per-player bucket takes to fill
/// again: its span of 25/3 seconds is 8_333_333_333 1/3 ns.
pub const FULL_REFILL_NS: i128 = 8_333_333_334;

/// The abstract state of a limiter: the two theoretical arrival times, in
/// ticks since the limiter's clock was started.
pub struct LimiterView {
    pub ip_tat: int,
    pub player_tat: int,
}

/// The TAT of one bucket after charging `cost` hundredths of a token at
/// `now`: the TAT is first raised to `now - burst`, then moved forward by the
/// cost.
pub open spec fn charged_tat(tat: int, now: int, burst: int, interval: int, cost: int) -> int {
    (if tat < now - burst { now - burst } else { tat }) + cost * interval
}

/// How long, in ticks, a bucket with the given TAT makes a caller wait at
/// `now`.
pub open spec fn wait_ticks(tat: int, now: int) -> int {
    if tat > now { tat - now } else { 0 }
}

/// A clock reading in nanoseconds, in ticks.
pub open spec fn ticks_of_ns(ns: u64) -> int {
    ns * TICKS_PER_NS
}

/// Ticks rounded up to whole nanoseconds.
pub open spec fn ticks_to_ns(ticks: int) -> int {
    (ticks + 2) / 3
}

/// The state of a limiter that has both buckets full at `now`.
pub open spec fn full_at(now: int) -> LimiterView {
    LimiterView { ip_tat: now - IP_BURST, player_tat: now - PLAYER_BURST }
}

/// The state after charging `cost` hundredths of a token at tick `now`.
pub open spec fn charged(s: LimiterView, now: int, cost: int) -> LimiterView {
    LimiterView {
        ip_tat: charged_tat(s.ip_tat, now, IP_BURST as int, IP_INTERVAL as int, cost),
        player_tat: charged_tat(s.player_tat, now, PLAYER_BURST as int, PLAYER_INTERVAL as int, cost),
    }
}

/// The wait, in nanoseconds, that charging `cost` at tick `now` imposes: the
/// longer of the two buckets' waits.
pub open spec fn charge_wait_ns(s: LimiterView, now: int, cost: int) -> int {
    let after = charged(s, now, cost);
    let ip = wait_ticks(after.ip_tat, now);
    let player = wait_ticks(after.player_tat, now);
    ticks_to_ns(if ip > player { ip } else { player })
}

/// Tracks the per-IP and per-player buckets of one connection.
#[derive(Clone, Debug)]
pub struct RateLimiter {
    clock: Clock,
    ip_tat: i128,
    player_tat: i128,
}

impl View for RateLimiter {
    type V = LimiterView;

    closed spec fn view(&self) -> LimiterView {
        LimiterView { ip_tat: self.ip_tat as int, player_tat: self.player_tat as int }
    }
}

impl RateLimiter {
    /// Whether charging `cost` keeps both TATs within `i128`, the limit of
    /// this representation (the arrival times grow by at most the cost of
    /// each request).
    pub open spec fn can_charge(&self, cost: int) -> bool {
        &&& self@.ip_tat + cost * IP_INTERVAL <= i128::MAX
        &&& self@.player_tat + cost * PLAYER_INTERVAL <= i128::MAX
    }

    /// The last reading of the limiter's clock.
    pub closed spec fn clock_reading(&self) -> u64 {
        self.clock@
    }

    /// Tells whether charging `cost` keeps both arrival times within
    /// `i128`.
    pub fn has_room_for(&self, cost: u64) -> (r: bool)
        ensures
            r == self.can_charge(cost as int),
    {
        let cost: i128 = cost as i128;
        self.ip_tat <= i128::MAX - cost * IP_INTERVAL && self.player_tat <= i128::MAX - cost
            * PLAYER_INTERVAL
    }

    /// A limiter whose clock starts now, with both buckets full.
    pub fn new() -> (r: RateLimiter)
        ensures
            r@ == full_at(0),
            r.clock_reading() == 0,
    {
        RateLimiter { clock: Clock::start(), ip_tat: -IP_BURST, player_tat: -PLAYER_BURST }
    }

    /// Charges `cost` hundredths of a token at `now_ns` nanoseconds on the
    /// limiter's clock and returns how many nanoseconds the caller must wait
    /// before sending.
    pub fn acquire_at(&mut self, now_ns: u64, cost: u64) -> (wait_ns: u128)
        requires
            old(self).can_charge(cost as int),
        ensures
            final(self)@ == charged(old(self)@, ticks_of_ns(now_ns), cost as int),
            wait_ns == charge_wait_ns(old(self)@, ticks_of_ns(now_ns), cost as int),
            final(self).clock_reading() == old(self).clock_reading(),
    {
        let now: i128 = (now_ns as i128) * TICKS_PER_NS;
        let cost: i128 = cost as i128;

        let ip_floor: i128 = now - IP_BURST;
        if self.ip_tat < ip_floor {
            self.ip_tat = ip_floor;
        }
        self.ip_tat = self.ip_tat + cost * IP_INTERVAL;

        let player_floor: i128 = now - PLAYER_BURST;
        if self.player_tat < player_floor {
            self.player_tat = player_floor;
        }
        self.player_tat = self.player_tat + cost * PLAYER_INTERVAL;

        let ip_wait: i128 = if self.ip_tat > now { self.ip_tat - now } else { 0 };
        let player_wait: i128 = if self.player_tat > now { self.player_tat - now } else { 0 };
        let longest: i128 = if ip_wait > player_wait { ip_wait } else { player_wait };
        let whole: i128 = longest / TICKS_PER_NS;
        let rounded: i128 = if longest % TICKS_PER_NS == 0 { whole } else { whole + 1 };
        rounded as u128
    }

    /// Charges `cost` hundredths of a token at the current time on the
    /// limiter's clock and returns how many nanoseconds the caller must wait
    /// before sending. The clock reading is no earlier than the previous
    /// one; the limiter is charged and the wait computed at that reading.
    pub fn acquire(&mut self, cost: u64) -> (wait_ns: u128)
        requires
            old(self).can_charge(cost as int),
        ensures
            exists|now_ns: u64|
                {
                    &&& now_ns >= old(self).clock_reading()
                    &&& final(self).clock_reading() == now_ns
                    &&& final(self)@ == #[trigger] charged(old(self)@, ticks_of_ns(now_ns), cost as int)
                    &&& wait_ns == charge_wait_ns(old(self)@, ticks_of_ns(now_ns), cost as int)
                },
    {
        let now_ns = self.clock.now_ns();
        self.acquire_at(now_ns, cost)
    }
}

impl Default for RateLimiter {
    fn default() -> (r: RateLimiter)
        ensures
            r@ == full_at(0),
            r.clock_reading() == 0,
    {
        RateLimiter::new()
    }
}

/// The interval and burst constants are the bucket capacities and refill
/// rates of the server, expressed in ticks and hundredths of a token.
pub proof fn lemma_bucket_constants()
    ensures
        IP_INTERVAL * IP_REFILL_PER_SEC * CENTITOKENS_PER_TOKEN == TICKS_PER_SEC,
        IP_BURST * IP_REFILL_PER_SEC == IP_CAPACITY * TICKS_PER_SEC,
        PLAYER_INTERVAL * PLAYER_REFILL_PER_SEC * CENTITOKENS_PER_TOKEN == TICKS_PER_SEC,
        PLAYER_BURST * PLAYER_REFILL_PER_SEC == PLAYER_CAPACITY * TICKS_PER_SEC,
        TICKS_PER_SEC == TICKS_PER_NS * 1_000_000_000,
{
}

/// With both buckets full, a request goes out without waiting exactly when
/// it costs no more than the per-player capacity of 25 tokens.
pub proof fn lemma_full_bucket_burst(now: int, cost: int)
    requires
        cost >= 0,
    ensures
        charge_wait_ns(full_at(now), now, cost) == 0 <==> cost <= PLAYER_CAPACITY
            * CENTITOKENS_PER_TOKEN,
{
}

/// Charging `a` and then `b` at the same instant leaves the limiter exactly
/// as charging `a + b` at once, and the second wait is the wait of the
/// combined charge.
pub proof fn lemma_charges_add(s: LimiterView, now: int, a: int, b: int)
    requires
        a >= 0,
        b >= 0,
    ensures
        charged(charged(s, now, a), now, b) == charged(s, now, a + b),
        charge_wait_ns(charged(s, now, a), now, b) == charge_wait_ns(s, now, a + b),
{
    assert(a * IP_INTERVAL + b * IP_INTERVAL == (a + b) * IP_INTERVAL) by (nonlinear_arith);
    assert(a * PLAYER_INTERVAL + b * PLAYER_INTERVAL == (a + b) * PLAYER_INTERVAL)
        by (nonlinear_arith);
}

/// Charging never moves an arrival time backwards, and a larger charge at
/// the same instant never waits less.
pub proof fn lemma_charge_monotone(s: LimiterView, now: int, a: int, b: int)
    requires
        0 <= a <= b,
    ensures
        charged(s, now, a).ip_tat >= s.ip_tat,
        charged(s, now, a).player_tat >= s.player_tat,
        charge_wait_ns(s, now, a) <= charge_wait_ns(s, now, b),
{
    assert(a * IP_INTERVAL <= b * IP_INTERVAL) by (nonlinear_arith)
        requires
            0 <= a <= b,
    ;
    assert(a * PLAYER_INTERVAL <= b * PLAYER_INTERVAL) by (nonlinear_arith)
        requires
            0 <= a <= b,
    ;
}

/// A limiter left idle long enough to refill both buckets behaves exactly
/// as a fresh one.
pub proof fn lemma_idle_refills(s: LimiterView, now: int, cost: int)
    requires
        s.ip_tat <= now - IP_BURST,
        s.player_tat <= now - PLAYER_BURST,
    ensures
        charged(s, now, cost) == charged(full_at(now), now, cost),
        charge_wait_ns(s, now, cost) == charge_wait_ns(full_at(now), now, cost),
{
}

/// However the limiter was used before, a request of `cost` waits at least
/// as long as the per-player bucket needs to refill the part of the cost
/// beyond its capacity: no more than 25 tokens plus 3 per second go out.
pub proof fn lemma_player_rate_bound(s: LimiterView, now: int, cost: int)
    requires
        cost >= 0,
    ensures
        charge_wait_ns(s, now, cost) * TICKS_PER_NS >= cost * PLAYER_INTERVAL - PLAYER_BURST,
{
}

/// The same bound for the per-IP bucket: no more than 50 tokens plus 15 per
/// second go out.
pub proof fn lemma_ip_rate_bound(s: LimiterView, now: int, cost: int)
    requires
        cost >= 0,
    ensures
        charge_wait_ns(s, now, cost) * TICKS_PER_NS >= cost * IP_INTERVAL - IP_BURST,
{
}

/// The state after a run of requests, each given as the tick at which it was
/// made and its cost in hundredths of a token.
pub open spec fn charged_run(s: LimiterView, requests: Seq<(int, int)>) -> LimiterView
    decreases requests.len(),
{
    if requests.len() == 0 {
        s
    } else {
        let (now, cost) = requests.last();
        charged(charged_run(s, requests.drop_last()), now, cost)
    }
}

/// The total cost of a run of requests, in hundredths of a token.
pub open spec fn total_cost(requests: Seq<(int, int)>) -> int
    decreases requests.len(),
{
    if requests.len() == 0 {
        0
    } else {
        total_cost(requests.drop_last()) + requests.last().1
    }
}

/// Over any run of requests, each arrival time has moved past the first
/// request's tick, less the burst, by at least the run's whole cost.
pub proof fn lemma_run_advances_tats(s: LimiterView, requests: Seq<(int, int)>)
    requires
        requests.len() > 0,
        forall|i: int| 0 <= i < requests.len() ==> #[trigger] requests[i].1 >= 0,
    ensures
        charged_run(s, requests).ip_tat >= requests[0].0 - IP_BURST + total_cost(requests)
            * IP_INTERVAL,
        charged_run(s, requests).player_tat >= requests[0].0 - PLAYER_BURST + total_cost(requests)
            * PLAYER_INTERVAL,
    decreases requests.len(),
{
    let rest = requests.drop_last();
    let (now, cost) = requests.last();
    assert(requests[requests.len() - 1] == requests.last());
    if rest.len() > 0 {
        assert forall|i: int| 0 <= i < rest.len() implies #[trigger] rest[i].1 >= 0 by {
            assert(rest[i] == requests[i]);
        }
        lemma_run_advances_tats(s, rest);
        assert(rest[0] == requests[0]);
    } else {
        assert(total_cost(rest) == 0);
    }
    assert(total_cost(rest) * IP_INTERVAL + cost * IP_INTERVAL == total_cost(requests)
        * IP_INTERVAL) by (nonlinear_arith)
        requires
            total_cost(requests) == total_cost(rest) + cost,
    ;
    assert(total_cost(rest) * PLAYER_INTERVAL + cost * PLAYER_INTERVAL == total_cost(requests)
        * PLAYER_INTERVAL) by (nonlinear_arith)
        requires
            total_cost(requests) == total_cost(rest) + cost,
    ;
}

/// Throughput: if every request of a run waits as told before it goes out,
/// then by the time the last one goes out, the run has sent no more than a
/// full bucket plus the refill since the first request, in each bucket:
/// 25 tokens plus 3 per second per player, 50 plus 15 per second per IP.
pub proof fn lemma_throughput(s: LimiterView, requests: Seq<(int, int)>)
    requires
        requests.len() > 0,
        forall|i: int| 0 <= i < requests.len() ==> #[trigger] requests[i].1 >= 0,
    ensures
        ({
            let (now, cost) = requests.last();
            let sent_at = now + charge_wait_ns(charged_run(s, requests.drop_last()), now, cost)
                * TICKS_PER_NS;
            &&& total_cost(requests) * PLAYER_INTERVAL <= sent_at - requests[0].0 + PLAYER_BURST
            &&& total_cost(requests) * IP_INTERVAL <= sent_at - requests[0].0 + IP_BURST
        }),
{
    lemma_run_advances_tats(s, requests);
}

/// The same charge made later never waits longer.
pub proof fn lemma_later_waits_no_longer(s: LimiterView, earlier: int, later: int, cost: int)
    requires
        earlier <= later,
    ensures
        charge_wait_ns(s, later, cost) <= charge_wait_ns(s, earlier, cost),
{
}

/// How far the per-IP bucket is from full at `t`, in ticks.
pub open spec fn ip_fill(s: LimiterView, t: int) -> int {
    (if s.ip_tat < t - IP_BURST { t - IP_BURST } else { s.ip_tat }) - t + IP_BURST
}

/// How far the per-player bucket is from full at `t`, in ticks.
pub open spec fn player_fill(s: LimiterView, t: int) -> int {
    (if s.player_tat < t - PLAYER_BURST { t - PLAYER_BURST } else { s.player_tat }) - t
        + PLAYER_BURST
}

/// At `t`, the per-IP bucket has spent no larger share of its capacity than
/// the per-player bucket (a hundredth of a token weighs five times more in
/// the per-player bucket).
pub open spec fn ip_within_player(s: LimiterView, t: int) -> bool {
    ip_fill(s, t) * 5 <= player_fill(s, t)
}

/// Time passing keeps the per-IP bucket within the per-player bucket.
proof fn lemma_within_persists(s: LimiterView, t: int, later: int)
    requires
        ip_within_player(s, t),
        t <= later,
    ensures
        ip_within_player(s, later),
{
}

/// Charging keeps the per-IP bucket within the per-player bucket.
proof fn lemma_within_charged(s: LimiterView, t: int, cost: int)
    requires
        ip_within_player(s, t),
        cost >= 0,
    ensures
        ip_within_player(charged(s, t, cost), t),
{
}

/// Whether the ticks at which `requests` are made never go back and start no
/// earlier than `start`.
pub open spec fn made_in_order(start: int, requests: Seq<(int, int)>) -> bool {
    &&& requests.len() > 0 ==> start <= requests[0].0
    &&& forall|i: int, j: int| 0 <= i <= j < requests.len() ==> requests[i].0 <= requests[j].0
}

/// The tick of the last request of a run, or `start` for an empty run.
pub open spec fn last_tick(start: int, requests: Seq<(int, int)>) -> int {
    if requests.len() == 0 {
        start
    } else {
        requests.last().0
    }
}

/// Along a run from full buckets, the per-IP bucket stays within the
/// per-player bucket.
proof fn lemma_run_within(start: int, requests: Seq<(int, int)>)
    requires
        made_in_order(start, requests),
        forall|i: int| 0 <= i < requests.len() ==> #[trigger] requests[i].1 >= 0,
    ensures
        ip_within_player(charged_run(full_at(start), requests), last_tick(start, requests)),
    decreases requests.len(),
{
    if requests.len() > 0 {
        let rest = requests.drop_last();
        let (now, cost) = requests.last();
        assert(requests.last() == requests[requests.len() - 1]);
        assert forall|i: int| 0 <= i < rest.len() implies #[trigger] rest[i].1 >= 0 by {
            assert(rest[i] == requests[i]);
        }
        assert forall|i: int, j: int| 0 <= i <= j < rest.len() implies rest[i].0 <= rest[j].0 by {
            assert(rest[i] == requests[i] && rest[j] == requests[j]);
        }
        if rest.len() > 0 {
            assert(rest[0] == requests[0]);
            assert(rest.last() == requests[rest.len() - 1]);
        }
        lemma_run_within(start, rest);
        lemma_within_persists(charged_run(full_at(start), rest), last_tick(start, rest), now);
        lemma_within_charged(charged_run(full_at(start), rest), now, cost);
    }
}

/// Starting from full buckets, with requests made in time order, the
/// per-IP bucket never gives the longer wait: every request waits exactly as
/// long as the per-player bucket makes it.
pub proof fn lemma_player_bucket_decides(start: int, requests: Seq<(int, int)>)
    requires
        requests.len() > 0,
        made_in_order(start, requests),
        forall|i: int| 0 <= i < requests.len() ==> #[trigger] requests[i].1 >= 0,
    ensures
        ({
            let (now, cost) = requests.last();
            let before = charged_run(full_at(start), requests.drop_last());
            charge_wait_ns(before, now, cost) == ticks_to_ns(
                wait_ticks(charged(before, now, cost).player_tat, now),
            )
        }),
{
    lemma_run_within(start, requests);
}

/// A limiter left alone, after a request made at `at_ns` and its wait, for
/// the time a drained per-player bucket takes to fill, is as good as fresh:
/// the next request is charged and waits as with full buckets.
pub proof fn lemma_refilled_after_wait(
    s: LimiterView,
    at_ns: int,
    cost: int,
    now_ns: int,
    next_cost: int,
)
    requires
        cost >= 0,
        now_ns >= at_ns + charge_wait_ns(s, at_ns * TICKS_PER_NS, cost) + FULL_REFILL_NS,
    ensures
        ({
            let after = charged(s, at_ns * TICKS_PER_NS, cost);
            let now = now_ns * TICKS_PER_NS;
            &&& charged(after, now, next_cost) == charged(full_at(now), now, next_cost)
            &&& charge_wait_ns(after, now, next_cost) == charge_wait_ns(
                full_at(now),
                now,
                next_cost,
            )
        }),
{
    let after = charged(s, at_ns * TICKS_PER_NS, cost);
    let now = now_ns * TICKS_PER_NS;
    lemma_idle_refills(after, now, next_cost);
}

} // verus!
