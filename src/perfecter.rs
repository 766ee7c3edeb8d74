//! Exact rescaling of counter deltas by the ratio of the configured cadence to the
//! time that really elapsed, and the clock that produces those ratios.
use vstd::prelude::*;

verus! {

/// `n / d` rounded to the nearest integer, halves rounded up (away from zero).
pub open spec fn round_ratio(n: nat, d: nat) -> nat
    recommends
        d > 0,
{
    ((2 * n + d) / (2 * d)) as nat
}

/// `value * expected / actual` rounded to the nearest integer; an elapsed time of
/// zero leaves the value as it is.
pub open spec fn rescaled(value: nat, expected: nat, actual: nat) -> nat {
    if actual == 0 {
        value
    } else {
        round_ratio(value * expected, actual)
    }
}

/// The time from `prev` to `now` on a monotonic scale; a reading that went
/// backwards counts as no time at all.
pub open spec fn elapsed(prev: nat, now: nat) -> nat {
    if now >= prev {
        (now - prev) as nat
    } else {
        0
    }
}

proof fn lemma_round_ratio_by_remainder(n: nat, d: nat)
    requires
        d > 0,
    ensures
        round_ratio(n, d) == if n % d >= d - n % d { n / d + 1 } else { n / d },
        round_ratio(n, d) <= n,
{
    let q = n / d;
    let r = n % d;
    assert(n == q * d + r && r < d) by (nonlinear_arith)
        requires
            d > 0,
            q == n / d,
            r == n % d,
    ;
    if r >= d - r {
        assert((2 * n + d) / (2 * d) == q + 1) by (nonlinear_arith)
            requires
                n == q * d + r,
                r < d,
                r >= d - r,
                d > 0,
        ;
        assert(q + 1 <= n) by (nonlinear_arith)
            requires
                n == q * d + r,
                r > 0,
                d > 0,
        ;
    } else {
        assert((2 * n + d) / (2 * d) == q) by (nonlinear_arith)
            requires
                n == q * d + r,
                r < d,
                r < d - r,
                d > 0,
        ;
        assert(q <= n) by (nonlinear_arith)
            requires
                n == q * d + r,
                d > 0,
        ;
    }
}

/// `value * expected / actual`, computed exactly and rounded to the nearest integer.
fn rescale_exact(value: u64, expected: u64, actual: u64) -> (r: u128)
    ensures
        r as nat == rescaled(value as nat, expected as nat, actual as nat),
        actual > 0 ==> r as nat <= value as nat * expected as nat,
{
    if actual == 0 {
        value as u128
    } else {
        assert(value as nat * expected as nat <= 0xffff_ffff_ffff_ffff * 0xffff_ffff_ffff_ffff)
            by (nonlinear_arith)
            requires
                value <= 0xffff_ffff_ffff_ffff,
                expected <= 0xffff_ffff_ffff_ffff,
        ;
        let n: u128 = value as u128 * expected as u128;
        let d: u128 = actual as u128;
        let q: u128 = n / d;
        let rem: u128 = n % d;
        proof {
            lemma_round_ratio_by_remainder(n as nat, d as nat);
        }
        if rem >= d - rem {
            q + 1
        } else {
            q
        }
    }
}

/// `value * expected / actual` for a signed value: its magnitude is rounded as an
/// unsigned value's is, so halves go away from zero.
pub open spec fn rescaled_signed(value: int, expected: nat, actual: nat) -> int {
    if value >= 0 {
        rescaled(value as nat, expected, actual) as int
    } else {
        -(rescaled((-value) as nat, expected, actual) as int)
    }
}

/// `x` truncated to a two's-complement integer with `modulus` values.
pub open spec fn wrap_signed(x: int, modulus: int) -> int {
    let t = x % modulus;
    if t >= modulus / 2 {
        t - modulus
    } else {
        t
    }
}

/// `value * expected / actual` for a signed value, computed exactly and rounded to the
/// nearest integer, halves away from zero.
fn rescale_exact_signed(value: i64, expected: u64, actual: u64) -> (r: (bool, u128))
    ensures
        rescaled_signed(value as int, expected as nat, actual as nat) == if r.0 {
            -(r.1 as int)
        } else {
            r.1 as int
        },
        r.1 <= 0x8000_0000_0000_0000u128 * 0xffff_ffff_ffff_ffffu128,
{
    let negative = value < 0;
    let magnitude: u64 = if negative {
        (-(value as i128)) as u64
    } else {
        value as u64
    };
    let m = rescale_exact(magnitude, expected, actual);
    proof {
        if actual > 0 {
            assert(magnitude as nat * expected as nat <= 0x8000_0000_0000_0000nat * 0xffff_ffff_ffff_ffffnat)
                by (nonlinear_arith)
                requires
                    magnitude <= 0x8000_0000_0000_0000u64,
                    expected <= 0xffff_ffff_ffff_ffffu64,
            ;
        }
    }
    (negative, m)
}

/// The two's-complement value of `-magnitude` (if `negative`) or `magnitude`, truncated
/// to `modulus` values.
fn wrapped_signed(negative: bool, magnitude: u128, modulus: u128) -> (r: i128)
    requires
        2 <= modulus <= 0x1_0000_0000_0000_0000,
        modulus % 2 == 0,
    ensures
        r as int == wrap_signed(
            if negative {
                -(magnitude as int)
            } else {
                magnitude as int
            },
            modulus as int,
        ),
        -(modulus as int) / 2 <= r < modulus as int / 2,
{
    let k = magnitude % modulus;
    let t = if negative && k > 0 {
        modulus - k
    } else {
        k
    };
    proof {
        let x: int = if negative {
            -(magnitude as int)
        } else {
            magnitude as int
        };
        let m = modulus as int;
        let q = magnitude as int / m;
        assert(magnitude as int == q * m + k) by (nonlinear_arith)
            requires
                m > 0,
                q == magnitude as int / m,
                k as int == magnitude as int % m,
        ;
        if negative && k > 0 {
            assert(x == (-q - 1) * m + (m - k)) by (nonlinear_arith)
                requires
                    x == -(magnitude as int),
                    magnitude as int == q * m + k,
            ;
            vstd::arithmetic::div_mod::lemma_fundamental_div_mod_converse(x, m, -q - 1, m - k);
        } else if negative {
            assert(x == (-q) * m + 0) by (nonlinear_arith)
                requires
                    x == -(magnitude as int),
                    magnitude as int == q * m + k,
                    k == 0,
            ;
            vstd::arithmetic::div_mod::lemma_fundamental_div_mod_converse(x, m, -q, 0);
        } else {
            vstd::arithmetic::div_mod::lemma_fundamental_div_mod_converse(x, m, q, k as int);
        }
    }
    if t >= modulus / 2 {
        t as i128 - modulus as i128
    } else {
        t as i128
    }
}

/// A ready rescaler: the configured cadence and the time that actually elapsed,
/// both in nanoseconds.
#[derive(Debug)]
pub struct Perfecter {
    expected_duration: u64,
    actual_duration: u64,
}

impl Perfecter {
    /// The configured cadence, in nanoseconds.
    pub closed spec fn expected(&self) -> nat {
        self.expected_duration as nat
    }

    /// The measured time since the previous tick, in nanoseconds.
    pub closed spec fn actual(&self) -> nat {
        self.actual_duration as nat
    }

    pub fn new(expected_duration: u64, actual_duration: u64) -> (r: Perfecter)
        ensures
            r.expected() == expected_duration,
            r.actual() == actual_duration,
    {
        Perfecter { expected_duration, actual_duration }
    }

    pub fn expected_duration(&self) -> (r: u64)
        ensures
            r == self.expected(),
    {
        self.expected_duration
    }

    pub fn actual_duration(&self) -> (r: u64)
        ensures
            r == self.actual(),
    {
        self.actual_duration
    }

    /// Rescales `value` as if exactly the configured cadence had elapsed.
    pub fn perfect<T: Perfect>(&self, value: &T) -> (r: T)
        ensures
            r == value.perfected(self.expected(), self.actual()),
    {
        value.perfect(self)
    }
}

/// Values that can be rescaled by a [`Perfecter`].
pub trait Perfect: Sized {
    /// The rescaled value, for a cadence of `expected` and an elapsed time of `actual`.
    spec fn perfected(&self, expected: nat, actual: nat) -> Self;

    fn perfect(&self, perfecter: &Perfecter) -> (r: Self)
        ensures
            r == self.perfected(perfecter.expected(), perfecter.actual()),
    ;
}

impl Perfect for u64 {
    /// Rounded to the nearest integer, then truncated to 64 bits.
    open spec fn perfected(&self, expected: nat, actual: nat) -> u64 {
        (rescaled(*self as nat, expected, actual) % 0x1_0000_0000_0000_0000) as u64
    }

    fn perfect(&self, perfecter: &Perfecter) -> (r: u64) {
        let exact = rescale_exact(*self, perfecter.expected_duration, perfecter.actual_duration);
        (exact % 0x1_0000_0000_0000_0000) as u64
    }
}

impl Perfect for usize {
    /// Rounded to the nearest integer, then truncated to the width of `usize`.
    open spec fn perfected(&self, expected: nat, actual: nat) -> usize {
        (rescaled(*self as nat, expected, actual) % (usize::MAX as nat + 1)) as usize
    }

    fn perfect(&self, perfecter: &Perfecter) -> (r: usize) {
        let exact = rescale_exact(
            *self as u64,
            perfecter.expected_duration,
            perfecter.actual_duration,
        );
        (exact % (usize::MAX as u128 + 1)) as usize
    }
}

impl Perfect for u32 {
    /// Rounded to the nearest integer, then truncated to 32 bits.
    open spec fn perfected(&self, expected: nat, actual: nat) -> u32 {
        (rescaled(*self as nat, expected, actual) % 0x1_0000_0000) as u32
    }

    fn perfect(&self, perfecter: &Perfecter) -> (r: u32) {
        let exact = rescale_exact(
            *self as u64,
            perfecter.expected_duration,
            perfecter.actual_duration,
        );
        (exact % 0x1_0000_0000) as u32
    }
}

impl Perfect for u16 {
    /// Rounded to the nearest integer, then truncated to 16 bits.
    open spec fn perfected(&self, expected: nat, actual: nat) -> u16 {
        (rescaled(*self as nat, expected, actual) % 0x1_0000) as u16
    }

    fn perfect(&self, perfecter: &Perfecter) -> (r: u16) {
        let exact = rescale_exact(
            *self as u64,
            perfecter.expected_duration,
            perfecter.actual_duration,
        );
        (exact % 0x1_0000) as u16
    }
}

impl Perfect for i64 {
    /// Rounded to the nearest integer, halves away from zero, then truncated to 64 bits.
    open spec fn perfected(&self, expected: nat, actual: nat) -> i64 {
        wrap_signed(rescaled_signed(*self as int, expected, actual), 0x1_0000_0000_0000_0000) as i64
    }

    fn perfect(&self, perfecter: &Perfecter) -> (r: i64) {
        let (negative, m) = rescale_exact_signed(*self, perfecter.expected_duration, perfecter.actual_duration);
        wrapped_signed(negative, m, 0x1_0000_0000_0000_0000) as i64
    }
}

impl Perfect for isize {
    /// Rounded to the nearest integer, halves away from zero, then truncated to the width
    /// of `isize`.
    open spec fn perfected(&self, expected: nat, actual: nat) -> isize {
        wrap_signed(rescaled_signed(*self as int, expected, actual), usize::MAX as int + 1) as isize
    }

    fn perfect(&self, perfecter: &Perfecter) -> (r: isize) {
        let (negative, m) = rescale_exact_signed(
            *self as i64,
            perfecter.expected_duration,
            perfecter.actual_duration,
        );
        wrapped_signed(negative, m, usize::MAX as u128 + 1) as isize
    }
}

impl Perfect for i32 {
    /// Rounded to the nearest integer, halves away from zero, then truncated to 32 bits.
    open spec fn perfected(&self, expected: nat, actual: nat) -> i32 {
        wrap_signed(rescaled_signed(*self as int, expected, actual), 0x1_0000_0000) as i32
    }

    fn perfect(&self, perfecter: &Perfecter) -> (r: i32) {
        let (negative, m) = rescale_exact_signed(
            *self as i64,
            perfecter.expected_duration,
            perfecter.actual_duration,
        );
        wrapped_signed(negative, m, 0x1_0000_0000) as i32
    }
}

impl Perfect for i16 {
    /// Rounded to the nearest integer, halves away from zero, then truncated to 16 bits.
    open spec fn perfected(&self, expected: nat, actual: nat) -> i16 {
        wrap_signed(rescaled_signed(*self as int, expected, actual), 0x1_0000) as i16
    }

    fn perfect(&self, perfecter: &Perfecter) -> (r: i16) {
        let (negative, m) = rescale_exact_signed(
            *self as i64,
            perfecter.expected_duration,
            perfecter.actual_duration,
        );
        wrapped_signed(negative, m, 0x1_0000) as i16
    }
}

impl Perfect for i8 {
    /// Rounded to the nearest integer, halves away from zero, then truncated to 8 bits.
    open spec fn perfected(&self, expected: nat, actual: nat) -> i8 {
        wrap_signed(rescaled_signed(*self as int, expected, actual), 0x100) as i8
    }

    fn perfect(&self, perfecter: &Perfecter) -> (r: i8) {
        let (negative, m) = rescale_exact_signed(
            *self as i64,
            perfecter.expected_duration,
            perfecter.actual_duration,
        );
        wrapped_signed(negative, m, 0x100) as i8
    }
}

impl Perfect for u8 {
    /// Rounded to the nearest integer, then truncated to 8 bits.
    open spec fn perfected(&self, expected: nat, actual: nat) -> u8 {
        (rescaled(*self as nat, expected, actual) % 0x100) as u8
    }

    fn perfect(&self, perfecter: &Perfecter) -> (r: u8) {
        let exact = rescale_exact(
            *self as u64,
            perfecter.expected_duration,
            perfecter.actual_duration,
        );
        (exact % 0x100) as u8
    }
}

#[verifier::external_type_specification]
#[verifier::external_body]
pub struct ExInstant(std::time::Instant);

/// Relies on `std::time::Instant::now`: a reading of the monotonic clock.
#[verifier::external_body]
fn monotonic_now() -> std::time::Instant {
    std::time::Instant::now()
}

/// Relies on `std::time::Instant::elapsed`: the time since `origin`, in nanoseconds.
#[verifier::external_body]
fn nanos_since(origin: &std::time::Instant) -> u64 {
    origin.elapsed().as_nanos() as u64
}

/// Hands out a [`Perfecter`] on each tick, measuring the time since the previous tick.
/// Instants are nanoseconds on a monotonic scale that starts when the clock is made.
pub struct PerfecterProvider {
    expected_duration: u64,
    origin: std::time::Instant,
    prev: Option<u64>,
}

impl PerfecterProvider {
    /// The configured cadence, in nanoseconds.
    pub closed spec fn cadence(&self) -> nat {
        self.expected_duration as nat
    }

    /// The instant of the previous tick, if there was one.
    pub closed spec fn previous(&self) -> Option<nat> {
        match self.prev {
            Some(p) => Some(p as nat),
            None => None,
        }
    }

    pub fn new(duration: u64) -> (r: PerfecterProvider)
        ensures
            r.cadence() == duration,
            r.previous() is None,
    {
        PerfecterProvider { expected_duration: duration, origin: monotonic_now(), prev: None }
    }

    fn get_prev(&self) -> (r: Option<u64>)
        ensures
            r == self.prev,
    {
        self.prev
    }

    fn set_prev(&mut self, prev: Option<u64>)
        ensures
            final(self).prev == prev,
            final(self).expected_duration == old(self).expected_duration,
            final(self).origin == old(self).origin,
    {
        self.prev = prev;
    }

    /// One tick at the instant `now`: the first tick only records `now`; every later one
    /// reports the time since the tick before it and records `now`.
    pub fn get_at(&mut self, now: u64) -> (r: Option<Perfecter>)
        ensures
            final(self).cadence() == old(self).cadence(),
            final(self).previous() == Some(now as nat),
            old(self).previous() is None ==> r is None,
            old(self).previous() is Some ==> r is Some && r->0.expected() == old(self).cadence()
                && r->0.actual() == elapsed(old(self).previous()->0, now as nat),
    {
        match self.get_prev() {
            Some(prev) => {
                let dur = if now >= prev {
                    now - prev
                } else {
                    0
                };
                let res = Perfecter { expected_duration: self.expected_duration, actual_duration: dur };
                self.set_prev(Some(now));
                Some(res)
            },
            None => {
                self.set_prev(Some(now));
                None
            },
        }
    }

    /// The current instant on this clock's scale.
    pub fn now(&self) -> u64 {
        nanos_since(&self.origin)
    }

    /// One tick at the current instant of the monotonic clock.
    pub fn get(&mut self) -> (r: Option<Perfecter>)
        ensures
            final(self).cadence() == old(self).cadence(),
            final(self).previous() is Some,
            old(self).previous() is None ==> r is None,
            old(self).previous() is Some ==> r is Some && r->0.expected() == old(self).cadence(),
    {
        let now = self.now();
        self.get_at(now)
    }
}

/// Every rescaled value is the nearest integer to `value * expected / actual`: it is
/// off by at most half of one unit, with no intermediate rounding.
pub proof fn lemma_rescaled_is_nearest(value: nat, expected: nat, actual: nat)
    requires
        actual > 0,
    ensures
        2 * value * expected <= 2 * rescaled(value, expected, actual) * actual + actual,
        2 * rescaled(value, expected, actual) * actual <= 2 * value * expected + actual,
        2 * rescaled(value, expected, actual) * actual == 2 * value * expected + actual
            ==> (value * expected) % actual * 2 == actual,
{
    let n = value * expected;
    let d = actual;
    let r = rescaled(value, expected, actual);
    assert(r == (2 * n + d) / (2 * d));
    assert(2 * n + d < 2 * d * r + 2 * d && 2 * d * r <= 2 * n + d) by (nonlinear_arith)
        requires
            r == (2 * n + d) / (2 * d),
            d > 0,
    ;
    assert(2 * value * expected == 2 * n) by (nonlinear_arith)
        requires
            n == value * expected,
    ;
    assert(2 * r * actual == 2 * d * r) by (nonlinear_arith)
        requires
            d == actual,
    ;
    if 2 * r * actual == 2 * n + d {
        let h = d - (d * r - n);
        assert(n == (r - 1) * d + h && 2 * h == d) by (nonlinear_arith)
            requires
                2 * d * r == 2 * n + d,
                h == d - (d * r - n),
        ;
        vstd::arithmetic::div_mod::lemma_fundamental_div_mod_converse(n as int, d as int, r - 1, h);
    }
}

/// A counter that advanced at a steady rate over the measured time is rescaled to
/// exactly what that rate gives over the configured cadence, however far the
/// measured time drifted from the cadence.
pub proof fn lemma_steady_rate(rate: nat, expected: nat, actual: nat)
    requires
        actual > 0,
    ensures
        rescaled(rate * actual, expected, actual) == rate * expected,
{
    let n = rate * actual * expected;
    assert(n == (rate * expected) * actual) by (nonlinear_arith)
        requires
            n == rate * actual * expected,
    ;
    assert((2 * n + actual) / (2 * actual) == rate * expected) by (nonlinear_arith)
        requires
            n == (rate * expected) * actual,
            actual > 0,
    ;
}

/// Two ticks in a row report, on the second, exactly the time between them: no
/// time at all when they come at the same instant, and never a negative span.
pub proof fn lemma_consecutive_ticks(t1: nat, t2: nat)
    requires
        t1 <= t2,
    ensures
        elapsed(t1, t2) == t2 - t1,
        t1 == t2 ==> elapsed(t1, t2) == 0,
{
}

} // verus!
