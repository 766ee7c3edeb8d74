use vstd::prelude::*;
use crate::types::power::{PowerSources, Type};

verus! {

pub fn sources() -> (r: PowerSources)
    ensures
        r.sources is None,
        r.power_type == Type::AC,
        r.adapter is None,
{
    PowerSources { sources: None, power_type: Type::AC, adapter: None }
}

} // verus!
