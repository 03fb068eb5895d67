//! Retry policy, `Retry-After` parsing and exponential backoff.
//!
//! The policy's delays are counted in whole milliseconds; a `Retry-After` delay is kept
//! exactly, in seconds and nanoseconds.
use vstd::prelude::*;
use vstd::arithmetic::power2::{pow2, lemma_pow2_strictly_increases, lemma_pow2_pos};
use vstd::arithmetic::mul::lemma_mul_inequality;
use vstd::bits::{lemma_u64_shl_is_mul, lemma_u64_pow2_no_overflow};
use vstd::arithmetic::div_mod::lemma_fundamental_div_mod_converse;
use crate::headers::{
    header_entries, first_value, header_get, header_value_text, visible_ascii, ascii_chars,
};
use crate::text::{trim_spec, trim_chars};
use http::HeaderMap;

verus! {

/// Retry policy for transient failures.
///
/// The policy is conservative: only idempotent methods are retried by default.
#[derive(Debug, Clone)]
pub struct RetryPolicy {
    max_retries: usize,
    base_delay_ms: u64,
    max_delay_ms: u64,
    jitter: bool,
}

/// The abstract content of a [`RetryPolicy`].
pub struct RetryPolicyView {
    pub max_retries: usize,
    pub base_delay_ms: u64,
    pub max_delay_ms: u64,
    pub jitter: bool,
}

impl View for RetryPolicy {
    type V = RetryPolicyView;

    closed spec fn view(&self) -> RetryPolicyView {
        RetryPolicyView {
            max_retries: self.max_retries,
            base_delay_ms: self.base_delay_ms,
            max_delay_ms: self.max_delay_ms,
            jitter: self.jitter,
        }
    }
}

/// The default policy: 3 retries, 200 ms base delay, 5 s cap, with jitter.
pub open spec fn default_retry_policy() -> RetryPolicyView {
    RetryPolicyView { max_retries: 3, base_delay_ms: 200, max_delay_ms: 5000, jitter: true }
}

impl RetryPolicy {
    /// The default policy: 3 retries, 200 ms base delay, 5 s cap, with jitter.
    pub fn new() -> (r: RetryPolicy)
        ensures
            r@ == default_retry_policy(),
    {
        RetryPolicy { max_retries: 3, base_delay_ms: 200, max_delay_ms: 5000, jitter: true }
    }

    /// Maximum number of retries (not including the initial attempt).
    pub fn max_retries(&self) -> (r: usize)
        ensures
            r == self@.max_retries,
    {
        self.max_retries
    }

    /// Base delay for exponential backoff, in milliseconds.
    pub fn base_delay(&self) -> (r: u64)
        ensures
            r == self@.base_delay_ms,
    {
        self.base_delay_ms
    }

    /// Maximum delay cap for exponential backoff, in milliseconds.
    pub fn max_delay(&self) -> (r: u64)
        ensures
            r == self@.max_delay_ms,
    {
        self.max_delay_ms
    }

    /// Whether to apply jitter to backoff delays.
    pub fn jitter(&self) -> (r: bool)
        ensures
            r == self@.jitter,
    {
        self.jitter
    }

    pub fn with_max_retries(self, max_retries: usize) -> (r: RetryPolicy)
        ensures
            r@ == (RetryPolicyView { max_retries, ..self@ }),
    {
        RetryPolicy { max_retries, ..self }
    }

    /// Sets the base delay, in milliseconds.
    pub fn with_base_delay(self, base_delay_ms: u64) -> (r: RetryPolicy)
        ensures
            r@ == (RetryPolicyView { base_delay_ms, ..self@ }),
    {
        RetryPolicy { base_delay_ms, ..self }
    }

    /// Sets the delay cap, in milliseconds.
    pub fn with_max_delay(self, max_delay_ms: u64) -> (r: RetryPolicy)
        ensures
            r@ == (RetryPolicyView { max_delay_ms, ..self@ }),
    {
        RetryPolicy { max_delay_ms, ..self }
    }

    pub fn with_jitter(self, jitter: bool) -> (r: RetryPolicy)
        ensures
            r@ == (RetryPolicyView { jitter, ..self@ }),
    {
        RetryPolicy { jitter, ..self }
    }
}

impl Default for RetryPolicy {
    fn default() -> (r: RetryPolicy)
        ensures
            r@ == default_retry_policy(),
    {
        RetryPolicy::new()
    }
}

/// Status codes that are worth retrying: 429, 502, 503 and 504.
pub open spec fn retryable_status(status: u16) -> bool {
    status == 429 || status == 502 || status == 503 || status == 504
}

/// Whether a response with this status is worth retrying.
pub fn should_retry_status(status: u16) -> (r: bool)
    ensures
        r == retryable_status(status),
{
    status == 429 || status == 502 || status == 503 || status == 504
}

/// The value of a decimal digit character.
pub open spec fn digit_value(c: char) -> int {
    (c as int) - ('0' as int)
}

/// An ASCII decimal digit.
pub open spec fn is_digit(c: char) -> bool {
    '0' <= c && c <= '9'
}

/// The number written by a string of decimal digits.
pub open spec fn decimal_value(s: Seq<char>) -> int
    decreases s.len(),
{
    if s.len() == 0 {
        0
    } else {
        10 * decimal_value(s.drop_last()) + digit_value(s.last())
    }
}

/// The text after an optional leading `+`.
pub open spec fn unsigned_digits(s: Seq<char>) -> Seq<char> {
    if s.len() > 0 && s[0] == '+' {
        s.drop_first()
    } else {
        s
    }
}

/// Every character is a decimal digit.
pub open spec fn all_digits(d: Seq<char>) -> bool {
    forall|i: int| 0 <= i < d.len() ==> is_digit(#[trigger] d[i])
}

/// `u64::from_str`: an optional `+`, then one or more decimal digits, with a value that
/// fits in 64 bits.
pub open spec fn parse_u64_spec(s: Seq<char>) -> Option<u64> {
    let digits = unsigned_digits(s);
    if digits.len() > 0 && all_digits(digits) && decimal_value(digits) <= u64::MAX {
        Some(decimal_value(digits) as u64)
    } else {
        None
    }
}

proof fn lemma_decimal_nonneg(s: Seq<char>)
    requires
        forall|i: int| 0 <= i < s.len() ==> is_digit(#[trigger] s[i]),
    ensures
        decimal_value(s) >= 0,
    decreases s.len(),
{
    if s.len() > 0 {
        lemma_decimal_nonneg(s.drop_last());
        assert(is_digit(s[s.len() - 1]));
    }
}

/// A longer run of digits never writes a smaller number.
proof fn lemma_decimal_prefix_le(s: Seq<char>, i: int)
    requires
        0 <= i <= s.len(),
        forall|k: int| 0 <= k < s.len() ==> is_digit(#[trigger] s[k]),
    ensures
        decimal_value(s.take(i)) <= decimal_value(s),
    decreases s.len() - i,
{
    if i < s.len() {
        let t = s.take(i + 1);
        lemma_decimal_prefix_le(s, i + 1);
        assert(t.drop_last() =~= s.take(i));
        assert(is_digit(t[i]));
        assert forall|k: int| 0 <= k < s.take(i).len() implies is_digit(#[trigger] s.take(i)[k]) by {
            assert(s.take(i)[k] == s[k]);
        }
        lemma_decimal_nonneg(s.take(i));
    } else {
        assert(s.take(i) =~= s);
    }
}

/// `u64::from_str` on a character sequence.
pub fn parse_u64(s: &[char]) -> (r: Option<u64>)
    ensures
        r == parse_u64_spec(s@),
{
    let start: usize = if s.len() > 0 && s[0] == '+' {
        1
    } else {
        0
    };
    let ghost digits = unsigned_digits(s@);
    assert(digits =~= s@.subrange(start as int, s@.len() as int));
    if start >= s.len() {
        return None;
    }
    let mut acc: u64 = 0;
    let mut i: usize = start;
    while i < s.len()
        invariant
            start <= i <= s.len(),
            start < s.len(),
            digits == s@.subrange(start as int, s@.len() as int),
            digits == unsigned_digits(s@),
            forall|k: int| 0 <= k < i - start ==> is_digit(#[trigger] digits[k]),
            acc == decimal_value(digits.take(i - start)),
        decreases s.len() - i,
    {
        let c = s[i];
        if !('0' <= c && c <= '9') {
            assert(!is_digit(digits[i - start]));
            return None;
        }
        let d: u64 = ((c as u32) - ('0' as u32)) as u64;
        let ghost prefix = digits.take(i + 1 - start);
        assert(prefix.drop_last() =~= digits.take(i - start));
        assert(prefix.last() == c);
        let step = match acc.checked_mul(10) {
            Some(m) => m.checked_add(d),
            None => None,
        };
        match step {
            Some(v) => {
                acc = v;
            },
            None => {
                proof {
                    assert(decimal_value(prefix) == 10 * acc + d);
                    assert(decimal_value(prefix) > u64::MAX);
                    if all_digits(digits) {
                        lemma_decimal_prefix_le(digits, i + 1 - start);
                    }
                }
                return None;
            },
        }
        i = i + 1;
    }
    assert(digits.take(digits.len() as int) =~= digits);
    Some(acc)
}

/// `httpdate::parse_http_date`, read as whole seconds since the Unix epoch.
pub uninterp spec fn http_date_secs(s: Seq<char>) -> Option<u64>;

/// Calls `httpdate::parse_http_date` and converts the time to seconds since the Unix epoch.
/// The crate makes the time as the epoch plus whole seconds, and accepts years up to 9999
/// only (`HttpDate::is_valid`), so the seconds are below 253402300800.
#[verifier::external_body]
fn http_date_unix_secs(s: &str) -> (r: Option<u64>)
    ensures
        r == http_date_secs(s@),
        r matches Some(w) ==> w < 253_402_300_800,
{
    match httpdate::parse_http_date(s) {
        Ok(t) => t.duration_since(std::time::UNIX_EPOCH).ok().map(|d| d.as_secs()),
        Err(_) => None,
    }
}

/// `SystemTime::now` measured from the Unix epoch with `duration_since`: whether the clock
/// is at or after the epoch, and the distance in whole seconds and nanoseconds. Nothing is
/// promised of the value: it is the clock's.
#[verifier::external_body]
fn clock_since_epoch() -> (r: (bool, u64, u32))
    ensures
        r.2 < 1_000_000_000,
{
    match std::time::SystemTime::now().duration_since(std::time::UNIX_EPOCH) {
        Ok(d) => (true, d.as_secs(), d.subsec_nanos()),
        Err(e) => (false, e.duration().as_secs(), e.duration().subsec_nanos()),
    }
}

/// `fastrand::u64(0..n)`: a random value below `n`.
#[verifier::external_body]
fn random_below(n: u64) -> (r: u64)
    requires
        n > 0,
    ensures
        r < n,
{
    fastrand::u64(0..n)
}

/// A span of time as `std::time::Duration` holds it: whole seconds and the nanoseconds
/// beyond them.
#[derive(Debug, Clone, Copy, PartialEq, Eq, Structural)]
pub struct Delay {
    pub secs: u64,
    /// Below one second.
    pub nanos: u32,
}

/// The length of a delay in nanoseconds.
pub open spec fn delay_ns(d: Delay) -> int {
    d.secs * 1_000_000_000 + d.nanos
}

/// A delay whose nanoseconds stay below one second.
pub open spec fn delay_ok(d: Delay) -> bool {
    d.nanos < 1_000_000_000
}

/// The delay of `n` nanoseconds (`n` at least 0 and below 2^64 seconds).
pub open spec fn delay_of_ns(n: int) -> Delay {
    Delay { secs: (n / 1_000_000_000) as u64, nanos: (n % 1_000_000_000) as u32 }
}

impl Delay {
    /// `Duration::from_secs`.
    pub fn from_secs(secs: u64) -> (r: Delay)
        ensures
            r == (Delay { secs, nanos: 0 }),
            delay_ok(r),
    {
        Delay { secs, nanos: 0 }
    }

    /// `Duration::from_millis`.
    pub fn from_millis(ms: u64) -> (r: Delay)
        ensures
            delay_ok(r),
            delay_ns(r) == ms * 1_000_000,
            delay_ns(r) % 1_000_000 == 0,
    {
        let secs = ms / 1000;
        let rest = ms % 1000;
        proof {
            assert(ms == secs * 1000 + rest);
            assert(secs * 1000 * 1_000_000 + rest * 1_000_000 == ms * 1_000_000) by (nonlinear_arith)
                requires
                    ms == secs * 1000 + rest,
            ;
            lemma_fundamental_div_mod_converse(ms * 1_000_000, 1_000_000, ms as int, 0);
        }
        Delay { secs, nanos: (rest * 1_000_000) as u32 }
    }
}

/// A reading of the clock: its signed distance from the Unix epoch, as the seconds (below
/// 0 before the epoch) and the nanoseconds beyond them, the way `SystemTime` holds it.
#[derive(Debug, Clone, Copy, PartialEq, Eq, Structural)]
pub struct UnixTime {
    pub secs: i64,
    /// Below one second.
    pub nanos: u32,
}

/// The time in nanoseconds after the epoch (below 0 before it).
pub open spec fn time_ns(t: UnixTime) -> int {
    t.secs * 1_000_000_000 + t.nanos
}

/// A reading whose nanoseconds stay below one second.
pub open spec fn time_ok(t: UnixTime) -> bool {
    t.nanos < 1_000_000_000
}

/// The current time (`SystemTime::now`), its seconds clamped to the range of `i64`.
pub fn now_unix() -> (r: UnixTime)
    ensures
        time_ok(r),
{
    let (after, secs, nanos) = clock_since_epoch();
    if after {
        let s: i64 = if secs > i64::MAX as u64 {
            i64::MAX
        } else {
            secs as i64
        };
        UnixTime { secs: s, nanos }
    } else if secs >= i64::MAX as u64 {
        UnixTime { secs: i64::MIN, nanos: 0 }
    } else if nanos == 0 {
        UnixTime { secs: -(secs as i64), nanos: 0 }
    } else {
        UnixTime { secs: -(secs as i64) - 1, nanos: 1_000_000_000 - nanos }
    }
}

/// The wait until an HTTP date `date` (whole seconds after the epoch) as seen at `now`:
/// `date.duration_since(now)`, or no wait where `date` is not later than `now`.
pub open spec fn wait_until(date: u64, now: UnixTime) -> Delay {
    let diff = date * 1_000_000_000 - time_ns(now);
    if diff > 0 {
        delay_of_ns(diff)
    } else {
        Delay { secs: 0, nanos: 0 }
    }
}

/// What a `Retry-After` value means at time `now`.
///
/// The value must be visible ASCII; surrounding whitespace is ignored. Delta-seconds are
/// read first (`Duration::from_secs`), then an HTTP date, whose distance from `now` is the
/// delay (none for a date that is not later).
pub open spec fn retry_after_value_spec(v: Seq<u8>, now: UnixTime) -> Option<Delay> {
    if !visible_ascii(v) {
        None
    } else {
        let t = trim_spec(ascii_chars(v));
        if t.len() == 0 {
            None
        } else {
            match parse_u64_spec(t) {
                Some(secs) => Some(Delay { secs, nanos: 0 }),
                None => match http_date_secs(t) {
                    Some(date) => Some(wait_until(date, now)),
                    None => None,
                },
            }
        }
    }
}

/// The `Retry-After` delay of a header map at time `now`.
pub open spec fn retry_after_spec(headers: Map<Seq<u8>, Seq<Seq<u8>>>, now: UnixTime) -> Option<Delay> {
    match first_value(headers, "retry-after"@.map_values(|c: char| c as u8)) {
        Some(v) => retry_after_value_spec(v, now),
        None => None,
    }
}

/// The wait until `date` as seen at `now` (see [`wait_until`]).
fn wait_until_exec(date: u64, now: UnixTime) -> (r: Delay)
    requires
        date < 253_402_300_800,
        time_ok(now),
    ensures
        r == wait_until(date, now),
        delay_ok(r),
{
    let secs_diff: i128 = date as i128 - now.secs as i128;
    let ghost diff = date * 1_000_000_000 - time_ns(now);
    assert(diff == secs_diff * 1_000_000_000 - now.nanos) by (nonlinear_arith)
        requires
            diff == date * 1_000_000_000 - (now.secs * 1_000_000_000 + now.nanos),
            secs_diff == date - now.secs,
    ;
    if now.nanos == 0 {
        if secs_diff > 0 {
            proof {
                lemma_fundamental_div_mod_converse(diff, 1_000_000_000, secs_diff as int, 0);
            }
            Delay { secs: secs_diff as u64, nanos: 0 }
        } else {
            assert(diff <= 0) by (nonlinear_arith)
                requires
                    diff == secs_diff * 1_000_000_000 - 0,
                    secs_diff <= 0,
            ;
            Delay { secs: 0, nanos: 0 }
        }
    } else if secs_diff >= 1 {
        let nanos: u32 = 1_000_000_000 - now.nanos;
        proof {
            assert(diff == (secs_diff - 1) * 1_000_000_000 + nanos) by (nonlinear_arith)
                requires
                    diff == secs_diff * 1_000_000_000 - now.nanos,
                    nanos == 1_000_000_000 - now.nanos,
            ;
            lemma_fundamental_div_mod_converse(diff, 1_000_000_000, secs_diff - 1, nanos as int);
        }
        Delay { secs: (secs_diff - 1) as u64, nanos }
    } else {
        assert(diff <= 0) by (nonlinear_arith)
            requires
                diff == secs_diff * 1_000_000_000 - now.nanos,
                secs_diff <= 0,
                now.nanos > 0,
        ;
        Delay { secs: 0, nanos: 0 }
    }
}

/// Reads a `Retry-After` value at time `now`.
pub fn parse_retry_after_value(v: &[u8], now: UnixTime) -> (r: Option<Delay>)
    requires
        time_ok(now),
    ensures
        r == retry_after_value_spec(v@, now),
        r matches Some(d) ==> delay_ok(d),
{
    let text = match header_value_text(v) {
        Some(t) => t,
        None => return None,
    };
    let t = trim_chars(text.as_slice());
    if t.len() == 0 {
        return None;
    }
    match parse_u64(t.as_slice()) {
        Some(secs) => Some(Delay::from_secs(secs)),
        None => {
            let s = crate::text::string_of(t.as_slice());
            match http_date_unix_secs(s.as_str()) {
                Some(date) => Some(wait_until_exec(date, now)),
                None => None,
            }
        },
    }
}

/// The `Retry-After` delay in `headers`, at time `now`.
pub fn parse_retry_after_at(headers: &HeaderMap, now: UnixTime) -> (r: Option<Delay>)
    requires
        time_ok(now),
    ensures
        r == retry_after_spec(header_entries(*headers), now),
        r matches Some(d) ==> delay_ok(d),
{
    proof {
        reveal_strlit("retry-after");
        assert("retry-after"@.map_values(|c: char| c as u8) =~= crate::headers::ascii_bytes(
            "retry-after"@,
        ));
    }
    match header_get(headers, "retry-after") {
        Some(v) => parse_retry_after_value(v.as_slice(), now),
        None => None,
    }
}

/// The `Retry-After` delay in `headers`, as of the current time.
pub fn parse_retry_after(headers: &HeaderMap) -> (r: Option<Delay>)
    ensures
        exists|now: UnixTime| time_ok(now) && r == retry_after_spec(header_entries(*headers), now),
{
    let now = now_unix();
    parse_retry_after_at(headers, now)
}

/// The delay before retry number `attempt + 1`, without jitter: the base delay doubled
/// `attempt` times (at most 31), saturated at `u64::MAX`, then capped by the maximum delay.
pub open spec fn capped_backoff_ms(p: RetryPolicyView, attempt: int) -> u64 {
    let e: nat = if attempt <= 0 {
        0
    } else if attempt < 31 {
        attempt as nat
    } else {
        31
    };
    let raw = p.base_delay_ms * pow2(e);
    let sat: u64 = if raw > u64::MAX {
        u64::MAX
    } else {
        raw as u64
    };
    if sat > p.max_delay_ms {
        p.max_delay_ms
    } else {
        sat
    }
}

/// The capped exponential delay for `attempt` (0 for the first retry).
pub fn capped_backoff(policy: &RetryPolicy, attempt: usize) -> (r: u64)
    ensures
        r == capped_backoff_ms(policy@, attempt as int),
{
    let k: u64 = if attempt < 31 {
        attempt as u64
    } else {
        31
    };
    proof {
        lemma_u64_pow2_no_overflow(k as nat);
        lemma_u64_shl_is_mul(1, k);
    }
    let exp: u64 = 1u64 << k;
    let mut delay: u64 = match policy.base_delay_ms.checked_mul(exp) {
        Some(d) => d,
        None => u64::MAX,
    };
    if delay > policy.max_delay_ms {
        delay = policy.max_delay_ms;
    }
    delay
}

/// The delay before retry number `attempt + 1`: the capped exponential delay, or, with
/// jitter and a non-zero delay, a random value below it ("full jitter").
pub fn backoff_delay(policy: &RetryPolicy, attempt: usize) -> (r: u64)
    ensures
        policy@.jitter && capped_backoff_ms(policy@, attempt as int) > 0 ==> r
            < capped_backoff_ms(policy@, attempt as int),
        !(policy@.jitter && capped_backoff_ms(policy@, attempt as int) > 0) ==> r
            == capped_backoff_ms(policy@, attempt as int),
{
    let delay = capped_backoff(policy, attempt);
    if policy.jitter && delay > 0 {
        random_below(delay)
    } else {
        delay
    }
}

/// The delay without jitter never exceeds the policy's maximum delay.
pub proof fn lemma_backoff_capped(p: RetryPolicyView, attempt: int)
    ensures
        capped_backoff_ms(p, attempt) <= p.max_delay_ms,
{
}

/// The delay without jitter never decreases from one attempt to the next.
pub proof fn lemma_backoff_monotonic(p: RetryPolicyView, a: int, b: int)
    requires
        a <= b,
    ensures
        capped_backoff_ms(p, a) <= capped_backoff_ms(p, b),
{
    let ea: nat = if a <= 0 {
        0
    } else if a < 31 {
        a as nat
    } else {
        31
    };
    let eb: nat = if b <= 0 {
        0
    } else if b < 31 {
        b as nat
    } else {
        31
    };
    if ea < eb {
        lemma_pow2_strictly_increases(ea, eb);
    }
    lemma_pow2_pos(ea);
    lemma_mul_inequality(pow2(ea) as int, pow2(eb) as int, p.base_delay_ms as int);
    assert(p.base_delay_ms * pow2(ea) <= p.base_delay_ms * pow2(eb)) by (nonlinear_arith)
        requires
            pow2(ea) as int * p.base_delay_ms as int <= pow2(eb) as int * p.base_delay_ms as int,
    ;
}

/// Before any cap applies, the delay doubles from one attempt to the next.
pub proof fn lemma_backoff_doubles(p: RetryPolicyView, a: int)
    requires
        0 <= a < 31,
        p.base_delay_ms * pow2((a + 1) as nat) <= p.max_delay_ms,
    ensures
        capped_backoff_ms(p, a + 1) == 2 * capped_backoff_ms(p, a),
{
    vstd::arithmetic::power2::lemma_pow2_unfold((a + 1) as nat);
    assert(p.base_delay_ms * pow2((a + 1) as nat) == 2 * (p.base_delay_ms * pow2(a as nat)))
        by (nonlinear_arith)
        requires
            pow2((a + 1) as nat) == 2 * pow2(a as nat),
    ;
    lemma_pow2_pos(a as nat);
}

} // verus!
