use vstd::prelude::*;

verus! {

#[verifier::external_type_specification]
#[verifier::external_body]
pub struct ExSystemTime(std::time::SystemTime);

pub fn get() -> (r: Option<std::time::SystemTime>)
    ensures
        r is None,
{
    None
}

} // verus!
