use tomography::power_info::{
    adapter_from, batteries_from, battery_from, find_flag, find_number, find_text, power_type,
    DescriptionValue, Entry,
};
use tomography::types::power::Type;

fn flag(k: &str, b: bool) -> Entry {
    (k.to_string(), DescriptionValue::Flag(b))
}

fn number(k: &str, n: i64) -> Entry {
    (k.to_string(), DescriptionValue::Number(n))
}

fn text(k: &str, t: &str) -> Entry {
    (k.to_string(), DescriptionValue::Text(t.to_string()))
}

fn battery_entries(provides: bool) -> Vec<Entry> {
    vec![
        flag("Is Present", true),
        text("Power Source State", "Battery Power"),
        number("Current", -1200),
        number("Max Capacity", 100),
        number("DesignCycleCount", 1000),
        number("Current Capacity", 87),
        flag("Battery Provides Time Remaining", provides),
        flag("Is Charging", false),
        number("Time to Empty", 245),
        number("Power Source ID", 4063331),
        number("Time to Full Charge", 0),
        text("Name", "InternalBattery-0"),
        text("Hardware Serial Number", "SECRET-REDACTED"),
        text("Transport Type", "Internal"),
        text("Type", "InternalBattery"),
        text("BatteryHealth", "Good"),
    ]
}

#[test]
fn lookups_take_the_last_entry_of_the_right_kind() {
    let e = vec![
        number("Watts", 60),
        flag("Watts", true),
        number("Watts", 85),
        text("Name", "first"),
        text("Name", "second"),
    ];
    assert_eq!(find_number(&e, "Watts"), Some(85));
    assert_eq!(find_flag(&e, "Watts"), Some(true));
    assert_eq!(find_text(&e, "Name"), Some("second".to_string()));
    assert_eq!(find_text(&e, "Watts"), None);
    assert_eq!(find_number(&e, "Voltage"), None);
}

#[test]
fn battery_decodes_every_field() {
    let b = battery_from(&battery_entries(true)).unwrap();
    assert!(b.present);
    assert!(!b.charged);
    assert_eq!(b.state, "Battery Power");
    assert_eq!(b.current, -1200);
    assert!(!b.finishing_charge);
    assert_eq!(b.max_capacity, 100);
    assert_eq!(b.design_cycle_count, 1000);
    assert_eq!(b.capacity, 87);
    assert!(b.provides_time_remaining);
    assert!(!b.charging);
    assert_eq!(b.time_remaining, Some(245));
    assert_eq!(b.id, 4063331);
    assert_eq!(b.time_to_charge, 0);
    assert_eq!(b.name, "InternalBattery-0");
    assert_eq!(b.serial_number, "SECRET-REDACTED");
    assert_eq!(b.transport_type, "Internal");
    assert_eq!(b.power_type, "InternalBattery");
    assert_eq!(b.health, "Good");
}

#[test]
fn battery_time_remaining_only_when_provided() {
    let b = battery_from(&battery_entries(false)).unwrap();
    assert_eq!(b.time_remaining, None);

    let mut e = battery_entries(false);
    e.retain(|(k, _)| k != "Time to Empty");
    assert!(battery_from(&e).is_some());
    let mut e = battery_entries(true);
    e.retain(|(k, _)| k != "Time to Empty");
    assert!(battery_from(&e).is_none());
}

#[test]
fn battery_optional_flags() {
    let mut e = battery_entries(true);
    e.push(flag("Is Charged", true));
    e.push(flag("Is Finishing Charge", true));
    let b = battery_from(&e).unwrap();
    assert!(b.charged);
    assert!(b.finishing_charge);
}

#[test]
fn battery_missing_key_does_not_decode() {
    let mut e = battery_entries(true);
    e.retain(|(k, _)| k != "BatteryHealth");
    assert!(battery_from(&e).is_none());
}

#[test]
fn batteries_keep_only_decodable_descriptions() {
    let d = vec![battery_entries(true), vec![flag("Is Present", true)], battery_entries(false)];
    let bs = batteries_from(&d);
    assert_eq!(bs.len(), 2);
    assert_eq!(bs[0].time_remaining, Some(245));
    assert_eq!(bs[1].time_remaining, None);
}

#[test]
fn adapter_decodes() {
    let e = vec![
        number("AdapterID", 7),
        number("SerialNumber", 123),
        number("Source", 1),
        number("FamilyCode", -536854528),
        number("Watts", 61),
        number("Current", 3050),
        number("Voltage", 20000),
    ];
    let a = adapter_from(&e).unwrap();
    assert_eq!(
        (a.id, a.serial_number, a.source, a.family, a.watts, a.current, a.voltage),
        (7, 123, 1, -536854528, 61, 3050, 20000)
    );
    assert!(adapter_from(&e[..6].to_vec()).is_none());
}

#[test]
fn power_type_names() {
    assert_eq!(power_type("AC Power"), Some(Type::AC));
    assert_eq!(power_type("Battery Power"), Some(Type::BATTERY));
    assert_eq!(power_type("UPS Power"), Some(Type::UPS));
    assert_eq!(power_type("Solar"), None);
}
