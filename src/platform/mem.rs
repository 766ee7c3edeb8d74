use vstd::prelude::*;
use crate::types::mem::{Swap, RAM};
use crate::types::Result;

verus! {

pub fn ram() -> (r: Result<RAM>)
    ensures
        r matches Ok(m) && m == (RAM { used: 0, total: 0 }),
{
    Ok(RAM { used: 0, total: 0 })
}

pub fn swap() -> (r: Result<Swap>)
    ensures
        r matches Ok(m) && m == (Swap { used: 0, free: 0, total: 0 }),
{
    Ok(Swap { used: 0, free: 0, total: 0 })
}

} // verus!
