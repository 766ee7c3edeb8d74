use vstd::prelude::*;

verus! {

/// Reads the platform's fans and temperature sensors.
pub struct Thermal;

impl Thermal {
    pub fn new() -> Thermal {
        Thermal
    }
}

} // verus!
