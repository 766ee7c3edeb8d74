use vstd::prelude::*;
use crate::platform::boottime;

verus! {

/// Reads figures of the system as a whole.
pub struct Misc;

impl Misc {
    pub fn new() -> Misc {
        Misc
    }

    /// When the system booted, where the platform reports it.
    pub fn boot_time(&self) -> (r: Option<std::time::SystemTime>)
        ensures
            r is None,
    {
        boottime::get()
    }
}

} // verus!
