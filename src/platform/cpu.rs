use vstd::prelude::*;
use crate::types::cpu::CoresLoadInfo;
use crate::types::Result;

verus! {

pub fn load() -> (r: Result<CoresLoadInfo>)
    ensures
        r matches Ok(v) && v@.len() == 0,
{
    Ok(Vec::new())
}

} // verus!
