use vstd::prelude::*;

verus! {

/// A mounted file system. Paths are held in their canonical form.
#[derive(Clone, Debug)]
pub struct FileSystem {
    pub device: String,
    pub filesystem: String,
    pub mountpoint: String,
    pub label: String,
    pub uuid: String,
    pub total: u64,
    pub free: u64,
    pub used: u64,
}

} // verus!
