//! The CPU sampler's transition: per-core tick deltas between consecutive snapshots,
//! rescaled to the configured cadence.
use vstd::prelude::*;
use crate::perfecter::{elapsed, Perfect, Perfecter, PerfecterProvider};
use crate::sampler::{ticks_clock, SamplerState};
use crate::types::cpu::{CoreLoadInfo, CoresLoadInfo};

verus! {

pub type CpuState = SamplerState<CoresLoadInfo, CoresLoadInfo>;

/// How far a counter moved from `prev` to `next`, modulo the width of `usize`.
pub open spec fn counter_delta(prev: usize, next: usize) -> usize {
    if next >= prev {
        (next - prev) as usize
    } else {
        (next + (usize::MAX - prev) + 1) as usize
    }
}

/// The rescaled deltas of one core.
pub open spec fn core_rate(prev: CoreLoadInfo, next: CoreLoadInfo, expected: nat, actual: nat) -> CoreLoadInfo {
    CoreLoadInfo {
        system: counter_delta(prev.system, next.system).perfected(expected, actual),
        user: counter_delta(prev.user, next.user).perfected(expected, actual),
        idle: counter_delta(prev.idle, next.idle).perfected(expected, actual),
    }
}

/// The rescaled deltas of every core, index by index.
pub open spec fn cores_rate(prev: Seq<CoreLoadInfo>, next: Seq<CoreLoadInfo>, expected: nat, actual: nat) -> Seq<CoreLoadInfo> {
    Seq::new(next.len(), |i: int| core_rate(prev[i], next[i], expected, actual))
}

/// `next` is the CPU sampler's state after one tick from `state`, where `snapshot` is
/// what the platform returned, `prev_tick` the clock's previous instant, and `now` the
/// instant of the tick.
pub open spec fn cpu_successor(
    state: CpuState,
    snapshot: Option<CoresLoadInfo>,
    prev_tick: Option<nat>,
    cadence: nat,
    now: nat,
    next: CpuState,
) -> bool {
    match snapshot {
        None => next is Unprimed,
        Some(s) => match state.baseline() {
            None => next == SamplerState::<CoresLoadInfo, CoresLoadInfo>::Primed(s),
            Some(prev) => match prev_tick {
                None => next == SamplerState::<CoresLoadInfo, CoresLoadInfo>::Primed(s),
                Some(t) => if prev.len() != s.len() {
                    next == SamplerState::<CoresLoadInfo, CoresLoadInfo>::Primed(s)
                } else {
                    match next {
                        SamplerState::Ready(n, d) => n == s && d@ == cores_rate(
                            prev@,
                            s@,
                            cadence,
                            elapsed(t, now),
                        ),
                        _ => false,
                    }
                },
            },
        },
    }
}

fn counter_delta_of(prev: usize, next: usize) -> (r: usize)
    ensures
        r == counter_delta(prev, next),
{
    if next >= prev {
        next - prev
    } else {
        next + (usize::MAX - prev) + 1
    }
}

/// Rescaled per-core deltas between two snapshots of the same length.
pub fn core_rates(prev: &CoresLoadInfo, next: &CoresLoadInfo, perfecter: &Perfecter) -> (r: CoresLoadInfo)
    requires
        prev.len() == next.len(),
    ensures
        r@ == cores_rate(prev@, next@, perfecter.expected(), perfecter.actual()),
{
    let mut current: CoresLoadInfo = Vec::with_capacity(prev.len());
    let mut i: usize = 0;
    while i < prev.len()
        invariant
            i <= prev.len(),
            prev.len() == next.len(),
            current@.len() == i,
            forall|j: int|
                0 <= j < i ==> current@[j] == core_rate(
                    prev@[j],
                    next@[j],
                    perfecter.expected(),
                    perfecter.actual(),
                ),
        decreases prev.len() - i,
    {
        let p = prev[i];
        let n = next[i];
        current.push(
            CoreLoadInfo {
                system: perfecter.perfect(&counter_delta_of(p.system, n.system)),
                user: perfecter.perfect(&counter_delta_of(p.user, n.user)),
                idle: perfecter.perfect(&counter_delta_of(p.idle, n.idle)),
            },
        );
        i = i + 1;
    }
    assert(current@ =~= cores_rate(prev@, next@, perfecter.expected(), perfecter.actual()));
    current
}

/// One tick of the CPU sampler at the instant `now`, given the platform's snapshot.
pub fn next_state_at(
    state: CpuState,
    snapshot: Option<CoresLoadInfo>,
    clock: &mut PerfecterProvider,
    now: u64,
) -> (r: CpuState)
    ensures
        cpu_successor(state, snapshot, old(clock).previous(), old(clock).cadence(), now as nat, r),
        ticks_clock(state, snapshot) ==> final(clock).previous() == Some(now as nat)
            && final(clock).cadence() == old(clock).cadence(),
        !ticks_clock(state, snapshot) ==> *final(clock) == *old(clock),
{
    match state.into_baseline() {
        None => {
            let _ = clock.get_at(now);
            match snapshot {
                None => SamplerState::Unprimed,
                Some(s) => SamplerState::Primed(s),
            }
        },
        Some(prev) => {
            let next_prev = match snapshot {
                None => {
                    return SamplerState::Unprimed;
                },
                Some(s) => s,
            };
            let perfecter = match clock.get_at(now) {
                None => {
                    return SamplerState::Primed(next_prev);
                },
                Some(p) => p,
            };
            if prev.len() != next_prev.len() {
                SamplerState::Primed(next_prev)
            } else {
                let current = core_rates(&prev, &next_prev, &perfecter);
                SamplerState::Ready(next_prev, current)
            }
        },
    }
}

/// One tick of the CPU sampler at the current instant of `clock`.
pub fn next_state(state: CpuState, snapshot: Option<CoresLoadInfo>, clock: &mut PerfecterProvider) -> (r: CpuState)
    ensures
        exists|now: nat| cpu_successor(state, snapshot, old(clock).previous(), old(clock).cadence(), now, r),
        final(clock).cadence() == old(clock).cadence(),
{
    let now = clock.now();
    next_state_at(state, snapshot, clock, now)
}

/// Three successful snapshots of equal length from an unprimed sampler, with the clock
/// read at `t0 <= t1 <= t2`, lead through `Primed` to `Ready` twice; each derived value is
/// the rescaled delta between the last two snapshots over the time between them.
pub proof fn lemma_three_snapshots(
    s0: CoresLoadInfo,
    s1: CoresLoadInfo,
    s2: CoresLoadInfo,
    first_tick: Option<nat>,
    cadence: nat,
    t0: nat,
    t1: nat,
    t2: nat,
    r1: CpuState,
    r2: CpuState,
    r3: CpuState,
)
    requires
        s0.len() == s1.len(),
        s1.len() == s2.len(),
        t0 <= t1 <= t2,
        cpu_successor(SamplerState::Unprimed, Some(s0), first_tick, cadence, t0, r1),
        cpu_successor(r1, Some(s1), Some(t0), cadence, t1, r2),
        cpu_successor(r2, Some(s2), Some(t1), cadence, t2, r3),
    ensures
        r1 == SamplerState::<CoresLoadInfo, CoresLoadInfo>::Primed(s0),
        r2.baseline() == Some(s1),
        r2.rates() is Some,
        r2.rates()->0@ == cores_rate(s0@, s1@, cadence, (t1 - t0) as nat),
        r3.baseline() == Some(s2),
        r3.rates() is Some,
        r3.rates()->0@ == cores_rate(s1@, s2@, cadence, (t2 - t1) as nat),
{
}

/// After a failed snapshot the sampler is unprimed, the next successful snapshot only
/// primes it, and the one after that yields rates over exactly those two snapshots.
pub proof fn lemma_failure_recovery(
    state: CpuState,
    sa: CoresLoadInfo,
    sb: CoresLoadInfo,
    tick_k: Option<nat>,
    tick_a: Option<nat>,
    cadence: nat,
    tk: nat,
    ta: nat,
    tb: nat,
    rk: CpuState,
    ra: CpuState,
    rb: CpuState,
)
    requires
        sa.len() == sb.len(),
        ta <= tb,
        cpu_successor(state, None, tick_k, cadence, tk, rk),
        cpu_successor(rk, Some(sa), tick_a, cadence, ta, ra),
        cpu_successor(ra, Some(sb), Some(ta), cadence, tb, rb),
    ensures
        rk is Unprimed,
        ra == SamplerState::<CoresLoadInfo, CoresLoadInfo>::Primed(sa),
        rb.baseline() == Some(sb),
        rb.rates() is Some,
        rb.rates()->0@ == cores_rate(sa@, sb@, cadence, (tb - ta) as nat),
{
}

/// A snapshot whose core count differs from the baseline's primes the sampler on it
/// with no rates, and the next snapshot of the new count yields rates again.
pub proof fn lemma_shape_change(
    state: CpuState,
    s: CoresLoadInfo,
    s2: CoresLoadInfo,
    prev_tick: nat,
    cadence: nat,
    t1: nat,
    t2: nat,
    r1: CpuState,
    r2: CpuState,
)
    requires
        state.baseline() is Some,
        state.baseline()->0.len() != s.len(),
        s2.len() == s.len(),
        t1 <= t2,
        cpu_successor(state, Some(s), Some(prev_tick), cadence, t1, r1),
        cpu_successor(r1, Some(s2), Some(t1), cadence, t2, r2),
    ensures
        r1 == SamplerState::<CoresLoadInfo, CoresLoadInfo>::Primed(s),
        r1.rates() is None,
        r2.baseline() == Some(s2),
        r2.rates()->0@ == cores_rate(s@, s2@, cadence, (t2 - t1) as nat),
{
}

} // verus!
