use vstd::prelude::*;

verus! {

/// Tick counters of one core: time spent in the kernel, in user code, and idle.
#[derive(Copy, Clone, Debug, PartialEq, Eq, Structural)]
pub struct CoreLoadInfo {
    pub system: usize,
    pub user: usize,
    pub idle: usize,
}

/// One entry per core, in the order the platform reports them.
pub type CoresLoadInfo = Vec<CoreLoadInfo>;

} // verus!
