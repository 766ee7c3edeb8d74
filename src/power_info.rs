//! Power-source descriptions as the platform reports them, a list of key/value entries,
//! decoded into batteries, adapters and the kind of source that powers the machine.
use vstd::prelude::*;
use crate::types::power::{Adapter, Battery, Type};

verus! {

/// A value of a power-source description.
#[derive(Clone, Debug)]
pub enum DescriptionValue {
    Flag(bool),
    Number(i64),
    Text(String),
}

/// One key/value entry of a power-source description.
pub type Entry = (String, DescriptionValue);

/// The flag of the last entry named `key` that holds a flag.
pub open spec fn flag_of(e: Seq<Entry>, key: Seq<char>) -> Option<bool>
    decreases e.len(),
{
    if e.len() == 0 {
        None
    } else {
        match e.last() {
            (k, DescriptionValue::Flag(b)) if k@ == key => Some(b),
            _ => flag_of(e.drop_last(), key),
        }
    }
}

/// The number of the last entry named `key` that holds a number.
pub open spec fn number_of(e: Seq<Entry>, key: Seq<char>) -> Option<i64>
    decreases e.len(),
{
    if e.len() == 0 {
        None
    } else {
        match e.last() {
            (k, DescriptionValue::Number(n)) if k@ == key => Some(n),
            _ => number_of(e.drop_last(), key),
        }
    }
}

/// The text of the last entry named `key` that holds a text.
pub open spec fn text_of(e: Seq<Entry>, key: Seq<char>) -> Option<String>
    decreases e.len(),
{
    if e.len() == 0 {
        None
    } else {
        match e.last() {
            (k, DescriptionValue::Text(t)) if k@ == key => Some(t),
            _ => text_of(e.drop_last(), key),
        }
    }
}

/// The flag under `key`, if some entry gives one.
pub fn find_flag(e: &Vec<Entry>, key: &str) -> (r: Option<bool>)
    ensures
        r == flag_of(e@, key@),
{
    let wanted = key.to_owned();
    let mut r: Option<bool> = None;
    let mut i: usize = 0;
    while i < e.len()
        invariant
            i <= e.len(),
            wanted@ == key@,
            r == flag_of(e@.subrange(0, i as int), key@),
        decreases e.len() - i,
    {
        assert(e@.subrange(0, i + 1).drop_last() =~= e@.subrange(0, i as int));
        if e[i].0 == wanted {
            if let DescriptionValue::Flag(b) = &e[i].1 {
                r = Some(*b);
            }
        }
        i = i + 1;
    }
    assert(e@.subrange(0, e@.len() as int) =~= e@);
    r
}

/// The number under `key`, if some entry gives one.
pub fn find_number(e: &Vec<Entry>, key: &str) -> (r: Option<i64>)
    ensures
        r == number_of(e@, key@),
{
    let wanted = key.to_owned();
    let mut r: Option<i64> = None;
    let mut i: usize = 0;
    while i < e.len()
        invariant
            i <= e.len(),
            wanted@ == key@,
            r == number_of(e@.subrange(0, i as int), key@),
        decreases e.len() - i,
    {
        assert(e@.subrange(0, i + 1).drop_last() =~= e@.subrange(0, i as int));
        if e[i].0 == wanted {
            if let DescriptionValue::Number(n) = &e[i].1 {
                r = Some(*n);
            }
        }
        i = i + 1;
    }
    assert(e@.subrange(0, e@.len() as int) =~= e@);
    r
}

/// The text under `key`, if some entry gives one.
pub fn find_text(e: &Vec<Entry>, key: &str) -> (r: Option<String>)
    ensures
        r == text_of(e@, key@),
{
    let wanted = key.to_owned();
    let mut r: Option<String> = None;
    let mut i: usize = 0;
    while i < e.len()
        invariant
            i <= e.len(),
            wanted@ == key@,
            r == text_of(e@.subrange(0, i as int), key@),
        decreases e.len() - i,
    {
        assert(e@.subrange(0, i + 1).drop_last() =~= e@.subrange(0, i as int));
        if e[i].0 == wanted {
            if let DescriptionValue::Text(t) = &e[i].1 {
                r = Some(t.clone());
            }
        }
        i = i + 1;
    }
    assert(e@.subrange(0, e@.len() as int) =~= e@);
    r
}

/// The battery a description gives: `None` when one of the keys a battery needs is
/// missing, and "Time to Empty" is needed only when the battery provides a time remaining.
pub open spec fn battery_of(e: Seq<Entry>) -> Option<Battery> {
    let provides = flag_of(e, "Battery Provides Time Remaining"@);
    if flag_of(e, "Is Present"@) is Some && text_of(e, "Power Source State"@) is Some
        && number_of(e, "Current"@) is Some && number_of(e, "Max Capacity"@) is Some
        && number_of(e, "DesignCycleCount"@) is Some && number_of(e, "Current Capacity"@) is Some
        && provides is Some && flag_of(e, "Is Charging"@) is Some
        && (provides == Some(true) ==> number_of(e, "Time to Empty"@) is Some)
        && number_of(e, "Power Source ID"@) is Some && number_of(e, "Time to Full Charge"@) is Some
        && text_of(e, "Name"@) is Some && text_of(e, "Hardware Serial Number"@) is Some
        && text_of(e, "Transport Type"@) is Some && text_of(e, "Type"@) is Some
        && text_of(e, "BatteryHealth"@) is Some {
        Some(
            Battery {
                present: flag_of(e, "Is Present"@)->0,
                charged: match flag_of(e, "Is Charged"@) {
                    Some(b) => b,
                    None => false,
                },
                state: text_of(e, "Power Source State"@)->0,
                charging: flag_of(e, "Is Charging"@)->0,
                current: number_of(e, "Current"@)->0,
                finishing_charge: match flag_of(e, "Is Finishing Charge"@) {
                    Some(b) => b,
                    None => false,
                },
                max_capacity: number_of(e, "Max Capacity"@)->0,
                design_cycle_count: number_of(e, "DesignCycleCount"@)->0,
                provides_time_remaining: provides->0,
                time_remaining: if provides->0 {
                    number_of(e, "Time to Empty"@)
                } else {
                    None
                },
                capacity: number_of(e, "Current Capacity"@)->0,
                id: number_of(e, "Power Source ID"@)->0,
                time_to_charge: number_of(e, "Time to Full Charge"@)->0,
                name: text_of(e, "Name"@)->0,
                serial_number: text_of(e, "Hardware Serial Number"@)->0,
                transport_type: text_of(e, "Transport Type"@)->0,
                power_type: text_of(e, "Type"@)->0,
                health: text_of(e, "BatteryHealth"@)->0,
            },
        )
    } else {
        None
    }
}

/// Decodes the description of a battery.
pub fn battery_from(e: &Vec<Entry>) -> (r: Option<Battery>)
    ensures
        r == battery_of(e@),
{
    let present = find_flag(e, "Is Present")?;
    let charged = find_flag(e, "Is Charged").unwrap_or(false);
    let state = find_text(e, "Power Source State")?;
    let current = find_number(e, "Current")?;
    let finishing_charge = find_flag(e, "Is Finishing Charge").unwrap_or(false);
    let max_capacity = find_number(e, "Max Capacity")?;
    let design_cycle_count = find_number(e, "DesignCycleCount")?;
    let capacity = find_number(e, "Current Capacity")?;
    let provides_time_remaining = find_flag(e, "Battery Provides Time Remaining")?;
    let charging = find_flag(e, "Is Charging")?;
    let time_remaining = if provides_time_remaining {
        Some(find_number(e, "Time to Empty")?)
    } else {
        None
    };
    let id = find_number(e, "Power Source ID")?;
    let time_to_charge = find_number(e, "Time to Full Charge")?;
    let name = find_text(e, "Name")?;
    let serial_number = find_text(e, "Hardware Serial Number")?;
    let transport_type = find_text(e, "Transport Type")?;
    let power_type = find_text(e, "Type")?;
    let health = find_text(e, "BatteryHealth")?;
    Some(
        Battery {
            present,
            charged,
            state,
            charging,
            current,
            finishing_charge,
            max_capacity,
            design_cycle_count,
            provides_time_remaining,
            time_remaining,
            capacity,
            id,
            time_to_charge,
            name,
            serial_number,
            transport_type,
            power_type,
            health,
        },
    )
}

/// The adapter a description gives: `None` when one of its keys is missing.
pub open spec fn adapter_of(e: Seq<Entry>) -> Option<Adapter> {
    if number_of(e, "AdapterID"@) is Some && number_of(e, "SerialNumber"@) is Some
        && number_of(e, "Source"@) is Some && number_of(e, "FamilyCode"@) is Some
        && number_of(e, "Watts"@) is Some && number_of(e, "Current"@) is Some
        && number_of(e, "Voltage"@) is Some {
        Some(
            Adapter {
                id: number_of(e, "AdapterID"@)->0,
                serial_number: number_of(e, "SerialNumber"@)->0,
                source: number_of(e, "Source"@)->0,
                family: number_of(e, "FamilyCode"@)->0,
                watts: number_of(e, "Watts"@)->0,
                current: number_of(e, "Current"@)->0,
                voltage: number_of(e, "Voltage"@)->0,
            },
        )
    } else {
        None
    }
}

/// Decodes the description of an external power adapter.
pub fn adapter_from(e: &Vec<Entry>) -> (r: Option<Adapter>)
    ensures
        r == adapter_of(e@),
{
    let id = find_number(e, "AdapterID")?;
    let serial_number = find_number(e, "SerialNumber")?;
    let source = find_number(e, "Source")?;
    let family = find_number(e, "FamilyCode")?;
    let watts = find_number(e, "Watts")?;
    let current = find_number(e, "Current")?;
    let voltage = find_number(e, "Voltage")?;
    Some(Adapter { id, serial_number, source, family, watts, current, voltage })
}

/// The batteries among a list of descriptions, in order; a description that does not
/// decode is left out.
pub open spec fn batteries_of(d: Seq<Vec<Entry>>) -> Seq<Battery>
    decreases d.len(),
{
    if d.len() == 0 {
        Seq::empty()
    } else {
        let init = batteries_of(d.drop_last());
        match battery_of(d.last()@) {
            Some(b) => init.push(b),
            None => init,
        }
    }
}

/// Decodes every battery description that holds what a battery needs.
pub fn batteries_from(d: &Vec<Vec<Entry>>) -> (r: Vec<Battery>)
    ensures
        r@ == batteries_of(d@),
{
    let mut out: Vec<Battery> = Vec::new();
    let mut i: usize = 0;
    while i < d.len()
        invariant
            i <= d.len(),
            out@ == batteries_of(d@.subrange(0, i as int)),
        decreases d.len() - i,
    {
        assert(d@.subrange(0, i + 1).drop_last() =~= d@.subrange(0, i as int));
        if let Some(b) = battery_from(&d[i]) {
            out.push(b);
        }
        i = i + 1;
    }
    assert(d@.subrange(0, d@.len() as int) =~= d@);
    out
}

/// The kind of source that powers the machine, from the name the platform gives it.
pub open spec fn power_type_of(name: Seq<char>) -> Option<Type> {
    if name == "AC Power"@ {
        Some(Type::AC)
    } else if name == "Battery Power"@ {
        Some(Type::BATTERY)
    } else if name == "UPS Power"@ {
        Some(Type::UPS)
    } else {
        None
    }
}

pub fn power_type(name: &str) -> (r: Option<Type>)
    ensures
        r == power_type_of(name@),
{
    let n = name.to_owned();
    if n == "AC Power".to_owned() {
        Some(Type::AC)
    } else if n == "Battery Power".to_owned() {
        Some(Type::BATTERY)
    } else if n == "UPS Power".to_owned() {
        Some(Type::UPS)
    } else {
        None
    }
}

} // verus!
