use vstd::prelude::*;
use crate::types::network::NetworkInterface;
use crate::types::Result;

verus! {

pub fn all() -> (r: Result<Vec<NetworkInterface>>)
    ensures
        r matches Ok(v) && v@.len() == 0,
{
    Ok(Vec::new())
}

} // verus!
