use vstd::prelude::*;
use crate::platform::power;
use crate::types::power::{PowerSources, Type};

verus! {

/// Reads the platform's power sources.
pub struct Power;

impl Power {
    pub fn new() -> Power {
        Power
    }

    pub fn sources(&self) -> (r: PowerSources)
        ensures
            r.sources is None,
            r.power_type == Type::AC,
            r.adapter is None,
    {
        power::sources()
    }
}

} // verus!
