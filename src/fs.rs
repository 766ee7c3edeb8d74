//! Looking up mounted file systems by device, mount point, label, UUID or a path
//! inside them.
use vstd::prelude::*;
use crate::platform::fs;

verus! {

/// Whether `base` is a prefix of `path`, whole component by whole component.
pub uninterp spec fn path_within(path: Seq<char>, base: Seq<char>) -> bool;

/// Relies on `std::path::Path::starts_with`: whether `base` is a prefix of `path` made of
/// whole components.
#[verifier::external_body]
fn path_starts_with(path: &str, base: &str) -> (r: bool)
    ensures
        r == path_within(path@, base@),
{
    std::path::Path::new(path).starts_with(base)
}

/// The field a lookup compares.
pub enum Field {
    Device,
    Mountpoint,
    Label,
    Uuid,
}

pub open spec fn field_of(f: crate::types::fs::FileSystem, field: Field) -> Seq<char> {
    match field {
        Field::Device => f.device@,
        Field::Mountpoint => f.mountpoint@,
        Field::Label => f.label@,
        Field::Uuid => f.uuid@,
    }
}

/// `found` is the first entry of `list` for which `hit` holds, or `None` if it holds
/// for none.
pub open spec fn first_where(
    list: Seq<crate::types::fs::FileSystem>,
    hit: spec_fn(int) -> bool,
    found: Option<crate::types::fs::FileSystem>,
) -> bool {
    match found {
        Some(f) => exists|i: int|
            0 <= i < list.len() && hit(i) && list[i] == f && forall|j: int| 0 <= j < i ==> !#[trigger] hit(j),
        None => forall|i: int| 0 <= i < list.len() ==> !#[trigger] hit(i),
    }
}

fn copy_fs(f: &crate::types::fs::FileSystem) -> (r: crate::types::fs::FileSystem)
    ensures
        r == *f,
{
    crate::types::fs::FileSystem {
        device: f.device.clone(),
        filesystem: f.filesystem.clone(),
        mountpoint: f.mountpoint.clone(),
        label: f.label.clone(),
        uuid: f.uuid.clone(),
        total: f.total,
        free: f.free,
        used: f.used,
    }
}

fn field_value<'a>(f: &'a crate::types::fs::FileSystem, field: &Field) -> (r: &'a String)
    ensures
        r@ == field_of(*f, *field),
{
    match field {
        Field::Device => &f.device,
        Field::Mountpoint => &f.mountpoint,
        Field::Label => &f.label,
        Field::Uuid => &f.uuid,
    }
}

/// The first file system of `list` whose `field` equals `value`.
pub fn first_with(list: &Vec<crate::types::fs::FileSystem>, field: Field, value: &str) -> (r: Option<crate::types::fs::FileSystem>)
    ensures
        first_where(list@, |i: int| field_of(list@[i], field) == value@, r),
{
    let wanted = value.to_owned();
    let mut i: usize = 0;
    while i < list.len()
        invariant
            i <= list.len(),
            wanted@ == value@,
            forall|j: int| 0 <= j < i ==> field_of(list@[j], field) != value@,
        decreases list.len() - i,
    {
        if *field_value(&list[i], &field) == wanted {
            let found = copy_fs(&list[i]);
            assert(field_of(list@[i as int], field) == value@);
            return Some(found);
        }
        i = i + 1;
    }
    None
}

/// The first file system of `list` whose entry in `contains` is set.
pub fn first_marked(list: &Vec<crate::types::fs::FileSystem>, contains: &Vec<bool>) -> (r: Option<crate::types::fs::FileSystem>)
    requires
        contains.len() == list.len(),
    ensures
        first_where(list@, |i: int| contains@[i], r),
{
    let mut i: usize = 0;
    while i < list.len()
        invariant
            i <= list.len(),
            contains.len() == list.len(),
            forall|j: int| 0 <= j < i ==> !contains@[j],
        decreases list.len() - i,
    {
        if contains[i] {
            return Some(copy_fs(&list[i]));
        }
        i = i + 1;
    }
    None
}

/// The first file system of `list` mounted at a prefix of `path`.
pub fn first_containing(list: &Vec<crate::types::fs::FileSystem>, path: &str) -> (r: Option<crate::types::fs::FileSystem>)
    ensures
        first_where(list@, |i: int| path_within(path@, list@[i].mountpoint@), r),
{
    let mut contains: Vec<bool> = Vec::new();
    let mut i: usize = 0;
    while i < list.len()
        invariant
            i <= list.len(),
            contains@.len() == i,
            forall|j: int| 0 <= j < i ==> contains@[j] == path_within(path@, list@[j].mountpoint@),
        decreases list.len() - i,
    {
        contains.push(path_starts_with(path, list[i].mountpoint.as_str()));
        i = i + 1;
    }
    let r = first_marked(list, &contains);
    proof {
        let marked = |i: int| contains@[i];
        let within = |i: int| path_within(path@, list@[i].mountpoint@);
        assert(forall|j: int| 0 <= j < list.len() ==> #[trigger] marked(j) == within(j));
        if r is Some {
            let i = choose|i: int|
                0 <= i < list.len() && marked(i) && list@[i] == r->0 && forall|j: int|
                    0 <= j < i ==> !#[trigger] marked(j);
            assert forall|j: int| 0 <= j < i implies !#[trigger] within(j) by {
                assert(!marked(j));
            }
            assert(within(i));
        } else {
            assert forall|j: int| 0 <= j < list.len() implies !#[trigger] within(j) by {
                assert(!marked(j));
            }
        }
    }
    r
}

/// Looks up the platform's mounted file systems. Paths given to its methods are in
/// their canonical form.
pub struct FileSystem;

impl FileSystem {
    pub fn new() -> FileSystem {
        FileSystem
    }

    pub fn all(&self) -> (r: Option<Vec<crate::types::fs::FileSystem>>)
        ensures
            r matches Some(v) && v@.len() == 0,
    {
        fs::all().ok()
    }

    pub fn for_device(&self, device: &str) -> (r: Option<crate::types::fs::FileSystem>)
        ensures
            r is None,
    {
        let list = self.all()?;
        first_with(&list, Field::Device, device)
    }

    pub fn for_mountpoint(&self, path: &str) -> (r: Option<crate::types::fs::FileSystem>)
        ensures
            r is None,
    {
        let list = self.all()?;
        first_with(&list, Field::Mountpoint, path)
    }

    pub fn for_label(&self, label: &str) -> (r: Option<crate::types::fs::FileSystem>)
        ensures
            r is None,
    {
        let list = self.all()?;
        first_with(&list, Field::Label, label)
    }

    pub fn for_uuid(&self, uuid: &str) -> (r: Option<crate::types::fs::FileSystem>)
        ensures
            r is None,
    {
        let list = self.all()?;
        first_with(&list, Field::Uuid, uuid)
    }

    pub fn containing_path(&self, path: &str) -> (r: Option<crate::types::fs::FileSystem>)
        ensures
            r is None,
    {
        let list = self.all()?;
        first_containing(&list, path)
    }
}

} // verus!
