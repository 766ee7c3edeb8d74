use vstd::prelude::*;

verus! {

#[derive(Debug, Copy, Clone, PartialEq, Eq, Structural)]
pub enum Type {
    Wired,
    WiFi,
}

/// A network interface, with its cumulative sent (`up`) and received (`down`) bytes.
#[derive(Debug, Clone)]
pub struct NetworkInterface {
    pub name: String,
    pub display_name: Option<String>,
    pub itype: Type,
    pub is_up: bool,
    pub bssid: Option<String>,
    pub ssid: Option<String>,
    pub up: u64,
    pub down: u64,
}

} // verus!
