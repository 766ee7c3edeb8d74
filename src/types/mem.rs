use vstd::prelude::*;

verus! {

#[derive(Copy, Clone, Debug, PartialEq, Eq, Structural)]
pub struct RAM {
    pub used: u64,
    pub total: u64,
}

#[derive(Copy, Clone, Debug, PartialEq, Eq, Structural)]
pub struct Swap {
    pub used: u64,
    pub free: u64,
    pub total: u64,
}

} // verus!
