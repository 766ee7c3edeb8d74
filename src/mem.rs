use vstd::prelude::*;
use crate::platform::mem;
use crate::types::mem::{Swap, RAM};

verus! {

/// Reads the platform's memory figures.
pub struct Memory;

impl Memory {
    pub fn new() -> Memory {
        Memory
    }

    pub fn ram(&self) -> (r: Option<RAM>)
        ensures
            r == Some(RAM { used: 0, total: 0 }),
    {
        mem::ram().ok()
    }

    pub fn swap(&self) -> (r: Option<Swap>)
        ensures
            r == Some(Swap { used: 0, free: 0, total: 0 }),
    {
        mem::swap().ok()
    }
}

} // verus!
