//! The state of a rate sampler: no snapshot yet, one snapshot, or two consecutive
//! snapshots with the rates derived from them.
use vstd::prelude::*;

verus! {

#[derive(Clone, Debug)]
pub enum SamplerState<S, D> {
    /// No snapshot observed since start or since the last failed one.
    Unprimed,
    /// One snapshot observed; no rate can be derived yet.
    Primed(S),
    /// The latest snapshot, and the rates derived from it and the one before it.
    Ready(S, D),
}

impl<S, D> SamplerState<S, D> {
    /// The latest snapshot, if any.
    pub open spec fn baseline(self) -> Option<S> {
        match self {
            SamplerState::Unprimed => None,
            SamplerState::Primed(s) => Some(s),
            SamplerState::Ready(s, _) => Some(s),
        }
    }

    /// The derived rates, if there are any.
    pub open spec fn rates(self) -> Option<D> {
        match self {
            SamplerState::Ready(_, d) => Some(d),
            _ => None,
        }
    }

    pub fn into_baseline(self) -> (r: Option<S>)
        ensures
            r == self.baseline(),
    {
        match self {
            SamplerState::Unprimed => None,
            SamplerState::Primed(s) => Some(s),
            SamplerState::Ready(s, _) => Some(s),
        }
    }

    /// The derived rates when two consecutive snapshots are known, else `None`.
    pub fn derived(self) -> (r: Option<D>)
        ensures
            r == self.rates(),
    {
        match self {
            SamplerState::Ready(_, d) => Some(d),
            _ => None,
        }
    }
}

/// Whether a tick from `state` consults the clock: always when there is no baseline
/// (to prime it), otherwise only when the snapshot succeeded.
pub open spec fn ticks_clock<S, D, T>(state: SamplerState<S, D>, snapshot: Option<T>) -> bool {
    state.baseline() is None || snapshot is Some
}

} // verus!
