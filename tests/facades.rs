use tomography::fs::{first_containing, first_marked, first_with, Field};
use tomography::types::error::ErrnoError;
use tomography::types::fs::FileSystem as Fs;
use tomography::types::mem::{Swap, RAM};
use tomography::types::power::Type;
use tomography::types::Error;
use tomography::{FileSystem, Memory, Misc, Power, Thermal};

fn fs(device: &str, mountpoint: &str, label: &str, uuid: &str) -> Fs {
    Fs {
        device: device.to_string(),
        filesystem: "apfs".to_string(),
        mountpoint: mountpoint.to_string(),
        label: label.to_string(),
        uuid: uuid.to_string(),
        total: 100,
        free: 40,
        used: 60,
    }
}

fn sample() -> Vec<Fs> {
    vec![
        fs("/dev/disk1s2", "/home/data", "Data", "U-2"),
        fs("/dev/disk1s1", "/home", "Home", "U-1"),
        fs("/dev/disk0s1", "/", "Root", "U-0"),
        fs("/dev/disk9s1", "/backup", "Data", "U-9"),
    ]
}

#[test]
fn lookup_by_each_field() {
    let list = sample();
    assert_eq!(first_with(&list, Field::Device, "/dev/disk1s1").unwrap().label, "Home");
    assert_eq!(first_with(&list, Field::Mountpoint, "/").unwrap().device, "/dev/disk0s1");
    assert_eq!(first_with(&list, Field::Uuid, "U-9").unwrap().mountpoint, "/backup");
    assert!(first_with(&list, Field::Label, "Nope").is_none());
}

#[test]
fn lookup_returns_first_match() {
    let list = sample();
    assert_eq!(first_with(&list, Field::Label, "Data").unwrap().uuid, "U-2");
}

#[test]
fn lookup_containing_path_uses_whole_components() {
    let list = sample();
    assert_eq!(first_containing(&list, "/home/data/x").unwrap().label, "Data");
    assert_eq!(first_containing(&list, "/home/user").unwrap().label, "Home");
    // "/homework" is not inside "/home"
    assert_eq!(first_containing(&list, "/homework").unwrap().label, "Root");
    assert!(first_containing(&[].to_vec(), "/").is_none());
}

#[test]
fn lookup_first_marked() {
    let list = sample();
    assert_eq!(first_marked(&list, &vec![false, false, true, true]).unwrap().label, "Root");
    assert!(first_marked(&list, &vec![false; 4]).is_none());
}

#[test]
fn portable_platform_reports_nothing() {
    let f = FileSystem::new();
    assert_eq!(f.all().unwrap().len(), 0);
    assert!(f.for_device("/dev/disk0s1").is_none());
    assert!(f.for_mountpoint("/").is_none());
    assert!(f.for_label("Root").is_none());
    assert!(f.for_uuid("U-0").is_none());
    assert!(f.containing_path("/home").is_none());

    let m = Memory::new();
    assert_eq!(m.ram(), Some(RAM { used: 0, total: 0 }));
    assert_eq!(m.swap(), Some(Swap { used: 0, free: 0, total: 0 }));
    assert!(Misc::new().boot_time().is_none());

    let p = Power::new().sources();
    assert!(p.sources.is_none());
    assert_eq!(p.power_type, Type::AC);
    assert!(p.adapter.is_none());
    let _ = Thermal::new();
}

#[test]
fn errors_keep_their_description() {
    let e = Error::new("no such sensor".to_string());
    assert_eq!(e.description(), "no such sensor");
    let _ = Error::from_errno();
    let _ = ErrnoError::new().description().len();
}
