use vstd::prelude::*;

pub mod cpu;
pub mod error;
pub mod fs;
pub mod mem;
pub mod network;
pub mod power;

pub use error::Error;

verus! {

pub type Result<T> = core::result::Result<T, Error>;

} // verus!
