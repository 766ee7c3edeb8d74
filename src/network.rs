//! The network sampler's transition: per-interface byte deltas between consecutive
//! snapshots, rescaled to the configured cadence.
use vstd::prelude::*;
use crate::perfecter::{elapsed, Perfect, Perfecter, PerfecterProvider};
use crate::sampler::{ticks_clock, SamplerState};
use crate::types::network::NetworkInterface;

verus! {

/// A snapshot keyed by interface name (names unique), and the derived rates.
pub type NetworkState = SamplerState<Vec<NetworkInterface>, Vec<NetworkInterface>>;

/// The position of the first entry of `s` named `name`, or `s.len()` if there is none.
pub open spec fn find_name(s: Seq<NetworkInterface>, name: Seq<char>) -> nat
    decreases s.len(),
{
    if s.len() == 0 {
        0
    } else {
        let k = find_name(s.drop_last(), name);
        if k < s.len() - 1 {
            k
        } else if s.last().name@ == name {
            (s.len() - 1) as nat
        } else {
            s.len()
        }
    }
}

/// `s` keyed by name, as inserting its entries one by one into a map would leave it:
/// an entry replaces an earlier one of the same name in its place, a new name goes last.
pub open spec fn keyed(s: Seq<NetworkInterface>) -> Seq<NetworkInterface>
    decreases s.len(),
{
    if s.len() == 0 {
        Seq::empty()
    } else {
        let init = keyed(s.drop_last());
        let k = find_name(init, s.last().name@);
        if k < init.len() {
            init.update(k as int, s.last())
        } else {
            init.push(s.last())
        }
    }
}

/// How far a byte counter moved from `prev` to `next`, modulo 2^64.
pub open spec fn byte_delta(prev: u64, next: u64) -> u64 {
    if next >= prev {
        (next - prev) as u64
    } else {
        (next + (u64::MAX - prev) + 1) as u64
    }
}

/// `next` with its counters replaced by the rescaled deltas since `prev`.
pub open spec fn interface_rate(prev: NetworkInterface, next: NetworkInterface, expected: nat, actual: nat) -> NetworkInterface {
    NetworkInterface {
        name: next.name,
        display_name: next.display_name,
        itype: next.itype,
        is_up: next.is_up,
        bssid: next.bssid,
        ssid: next.ssid,
        up: byte_delta(prev.up, next.up).perfected(expected, actual),
        down: byte_delta(prev.down, next.down).perfected(expected, actual),
    }
}

/// The rates of the interfaces of `next` that `prev` holds too, in the order of `next`.
pub open spec fn interfaces_rate(prev: Seq<NetworkInterface>, next: Seq<NetworkInterface>, expected: nat, actual: nat) -> Seq<NetworkInterface>
    decreases next.len(),
{
    if next.len() == 0 {
        Seq::empty()
    } else {
        let init = interfaces_rate(prev, next.drop_last(), expected, actual);
        let k = find_name(prev, next.last().name@);
        if k < prev.len() {
            init.push(interface_rate(prev[k as int], next.last(), expected, actual))
        } else {
            init
        }
    }
}

/// `next` is the network sampler's state after one tick from `state`, where `snapshot`
/// is what the platform returned, `prev_tick` the clock's previous instant, and `now`
/// the instant of the tick.
pub open spec fn network_successor(
    state: NetworkState,
    snapshot: Option<Vec<NetworkInterface>>,
    prev_tick: Option<nat>,
    cadence: nat,
    now: nat,
    next: NetworkState,
) -> bool {
    match snapshot {
        None => next is Unprimed,
        Some(s) => match next {
            SamplerState::Unprimed => false,
            SamplerState::Primed(n) => n@ == keyed(s@) && (state.baseline() is None
                || prev_tick is None),
            SamplerState::Ready(n, d) => n@ == keyed(s@) && state.baseline() is Some
                && prev_tick is Some && d@ == interfaces_rate(
                state.baseline()->0@,
                keyed(s@),
                cadence,
                elapsed(prev_tick->0, now),
            ),
        },
    }
}

/// `find_name` gives the first entry with the name, or the length when none has it.
proof fn lemma_find_name_spec(s: Seq<NetworkInterface>, name: Seq<char>)
    ensures
        find_name(s, name) <= s.len(),
        find_name(s, name) < s.len() ==> s[find_name(s, name) as int].name@ == name,
        forall|j: int| 0 <= j < find_name(s, name) ==> s[j].name@ != name,
    decreases s.len(),
{
    if s.len() > 0 {
        let t = s.drop_last();
        lemma_find_name_spec(t, name);
        assert forall|j: int| 0 <= j < find_name(s, name) implies s[j].name@ != name by {
            if j < t.len() {
                assert(t[j] == s[j]);
                assert(j < find_name(t, name));
            }
        }
    }
}

/// No two entries of a keyed snapshot share a name.
pub open spec fn names_unique(s: Seq<NetworkInterface>) -> bool {
    forall|i: int, j: int| 0 <= i < j < s.len() ==> s[i].name@ != s[j].name@
}

/// A keyed snapshot holds each name at most once.
pub proof fn lemma_keyed_names_unique(s: Seq<NetworkInterface>)
    ensures
        names_unique(keyed(s)),
    decreases s.len(),
{
    if s.len() > 0 {
        let t = s.drop_last();
        let init = keyed(t);
        let x = s.last();
        lemma_keyed_names_unique(t);
        lemma_find_name_spec(init, x.name@);
        let k = find_name(init, x.name@);
        let out = keyed(s);
        if k < init.len() {
            assert(out == init.update(k as int, x));
            assert forall|m: int| 0 <= m < out.len() implies #[trigger] out[m].name@ == init[m].name@ by {
                if m == k {
                    assert(init[k as int].name@ == x.name@);
                }
            }
        } else {
            assert(out == init.push(x));
            assert forall|m: int| 0 <= m < init.len() implies #[trigger] out[m].name@ != x.name@ by {
                assert(init[m].name@ != x.name@);
            }
        }
    }
}

proof fn lemma_find_name(s: Seq<NetworkInterface>, name: Seq<char>, j: int)
    requires
        0 <= j <= s.len(),
        forall|k: int| 0 <= k < j ==> s[k].name@ != name,
        j < s.len() ==> s[j].name@ == name,
    ensures
        find_name(s, name) == j,
    decreases s.len(),
{
    if s.len() > 0 {
        let t = s.drop_last();
        if j < t.len() {
            lemma_find_name(t, name, j);
        } else {
            lemma_find_name(t, name, t.len() as int);
        }
    }
}

fn copy_name(s: &Option<String>) -> (r: Option<String>)
    ensures
        r == *s,
{
    match s {
        Some(v) => Some(v.clone()),
        None => None,
    }
}

fn copy_interface(x: &NetworkInterface, up: u64, down: u64) -> (r: NetworkInterface)
    ensures
        r == (NetworkInterface { up, down, ..*x }),
{
    NetworkInterface {
        name: x.name.clone(),
        display_name: copy_name(&x.display_name),
        itype: x.itype,
        is_up: x.is_up,
        bssid: copy_name(&x.bssid),
        ssid: copy_name(&x.ssid),
        up,
        down,
    }
}

/// The position of the first interface in `s` named `name`, or `s.len()`.
pub fn position_of(s: &Vec<NetworkInterface>, name: &String) -> (r: usize)
    ensures
        r == find_name(s@, name@),
{
    let mut i: usize = 0;
    while i < s.len()
        invariant
            i <= s.len(),
            forall|k: int| 0 <= k < i ==> s@[k].name@ != name@,
        decreases s.len() - i,
    {
        if s[i].name == *name {
            proof {
                lemma_find_name(s@, name@, i as int);
            }
            return i;
        }
        i = i + 1;
    }
    proof {
        lemma_find_name(s@, name@, i as int);
    }
    i
}

/// A snapshot keyed by interface name: a later entry replaces an earlier one of the
/// same name.
pub fn index_by_name(ifs: &Vec<NetworkInterface>) -> (r: Vec<NetworkInterface>)
    ensures
        r@ == keyed(ifs@),
        names_unique(r@),
{
    proof {
        lemma_keyed_names_unique(ifs@);
    }
    let mut out: Vec<NetworkInterface> = Vec::new();
    let mut i: usize = 0;
    while i < ifs.len()
        invariant
            i <= ifs.len(),
            out@ == keyed(ifs@.subrange(0, i as int)),
        decreases ifs.len() - i,
    {
        let x = copy_interface(&ifs[i], ifs[i].up, ifs[i].down);
        let k = position_of(&out, &x.name);
        assert(ifs@.subrange(0, i + 1).drop_last() =~= ifs@.subrange(0, i as int));
        if k < out.len() {
            out.set(k, x);
        } else {
            out.push(x);
        }
        i = i + 1;
    }
    assert(ifs@.subrange(0, ifs@.len() as int) =~= ifs@);
    out
}

fn byte_delta_of(prev: u64, next: u64) -> (r: u64)
    ensures
        r == byte_delta(prev, next),
{
    if next >= prev {
        next - prev
    } else {
        next + (u64::MAX - prev) + 1
    }
}

/// Rescaled byte deltas of the interfaces of `next` that `prev` holds too.
pub fn interface_rates(prev: &Vec<NetworkInterface>, next: &Vec<NetworkInterface>, perfecter: &Perfecter) -> (r: Vec<NetworkInterface>)
    ensures
        r@ == interfaces_rate(prev@, next@, perfecter.expected(), perfecter.actual()),
{
    let mut current: Vec<NetworkInterface> = Vec::new();
    let mut i: usize = 0;
    while i < next.len()
        invariant
            i <= next.len(),
            current@ == interfaces_rate(
                prev@,
                next@.subrange(0, i as int),
                perfecter.expected(),
                perfecter.actual(),
            ),
        decreases next.len() - i,
    {
        let v = &next[i];
        let k = position_of(prev, &v.name);
        assert(next@.subrange(0, i + 1).drop_last() =~= next@.subrange(0, i as int));
        if k < prev.len() {
            let up = perfecter.perfect(&byte_delta_of(prev[k].up, v.up));
            let down = perfecter.perfect(&byte_delta_of(prev[k].down, v.down));
            current.push(copy_interface(v, up, down));
        }
        i = i + 1;
    }
    assert(next@.subrange(0, next@.len() as int) =~= next@);
    current
}

/// One tick of the network sampler at the instant `now`, given the platform's snapshot.
pub fn next_state_at(
    state: NetworkState,
    snapshot: Option<Vec<NetworkInterface>>,
    clock: &mut PerfecterProvider,
    now: u64,
) -> (r: NetworkState)
    ensures
        network_successor(state, snapshot, old(clock).previous(), old(clock).cadence(), now as nat, r),
        ticks_clock(state, snapshot) ==> final(clock).previous() == Some(now as nat)
            && final(clock).cadence() == old(clock).cadence(),
        !ticks_clock(state, snapshot) ==> *final(clock) == *old(clock),
{
    match state.into_baseline() {
        None => {
            let _ = clock.get_at(now);
            match snapshot {
                None => SamplerState::Unprimed,
                Some(s) => SamplerState::Primed(index_by_name(&s)),
            }
        },
        Some(prev) => {
            let next_prev = match snapshot {
                None => {
                    return SamplerState::Unprimed;
                },
                Some(s) => index_by_name(&s),
            };
            let perfecter = match clock.get_at(now) {
                None => {
                    return SamplerState::Primed(next_prev);
                },
                Some(p) => p,
            };
            let current = interface_rates(&prev, &next_prev, &perfecter);
            SamplerState::Ready(next_prev, current)
        },
    }
}

/// One tick of the network sampler at the current instant of `clock`.
pub fn next_state(
    state: NetworkState,
    snapshot: Option<Vec<NetworkInterface>>,
    clock: &mut PerfecterProvider,
) -> (r: NetworkState)
    ensures
        exists|now: nat|
            network_successor(state, snapshot, old(clock).previous(), old(clock).cadence(), now, r),
        final(clock).cadence() == old(clock).cadence(),
{
    let now = clock.now();
    next_state_at(state, snapshot, clock, now)
}

/// After a failed snapshot the network sampler is unprimed, the next successful snapshot
/// only primes it, and the one after that yields rates over exactly those two snapshots.
pub proof fn lemma_network_failure_recovery(
    state: NetworkState,
    sa: Vec<NetworkInterface>,
    sb: Vec<NetworkInterface>,
    tick_k: Option<nat>,
    tick_a: Option<nat>,
    cadence: nat,
    tk: nat,
    ta: nat,
    tb: nat,
    rk: NetworkState,
    ra: NetworkState,
    rb: NetworkState,
)
    requires
        ta <= tb,
        network_successor(state, None, tick_k, cadence, tk, rk),
        network_successor(rk, Some(sa), tick_a, cadence, ta, ra),
        network_successor(ra, Some(sb), Some(ta), cadence, tb, rb),
    ensures
        rk is Unprimed,
        ra.baseline() is Some && ra.rates() is None,
        ra.baseline()->0@ == keyed(sa@),
        rb.baseline() is Some && rb.baseline()->0@ == keyed(sb@),
        rb.rates() is Some,
        rb.rates()->0@ == interfaces_rate(keyed(sa@), keyed(sb@), cadence, (tb - ta) as nat),
{
}

} // verus!
