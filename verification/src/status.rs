use vstd::prelude::*;

use crate::device::DeviceDescriptor;
use crate::parse::parse_i32;
use crate::parse::parsed_i32;
use crate::text::str_eq;

verus! {

/// Charging status of the host's power supply.
///
/// Equality is used for change detection; there is no meaningful ordering.
#[derive(Clone, Copy, PartialEq, Eq, Structural, Debug)]
pub enum Status {
    Discharging,
    Charging,
    Unknown,
}

impl Status {
    /// Human-readable rendering, used when a status transition is reported.
    pub fn label(&self) -> (r: &'static str)
        ensures
            *self == Status::Discharging ==> r@ == "Discharging"@,
            *self == Status::Charging ==> r@ == "Charging"@,
            *self == Status::Unknown ==> r@ == "Unknown"@,
    {
        match *self {
            Status::Discharging => "Discharging",
            Status::Charging => "Charging",
            Status::Unknown => "Unknown",
        }
    }
}

/// Status derived from a battery device's textual status property: absent or
/// unrecognised values degrade to `Unknown`.
pub open spec fn battery_status_of(status: Option<Seq<char>>) -> Status {
    match status {
        Some(s) => if s == "Charging"@ {
            Status::Charging
        } else if s == "Discharging"@ || s == "Not charging"@ {
            Status::Discharging
        } else {
            Status::Unknown
        },
        None => Status::Unknown,
    }
}

/// Status derived from an adapter device's online property, parsed as a
/// decimal integer: `0` means discharging, `1` or `2` charging, and anything
/// else (absent, malformed, other value) is inconclusive.
pub open spec fn adapter_status_of(online: Option<Seq<char>>) -> Status {
    match online {
        Some(s) => match parsed_i32(s) {
            Some(v) => if v == 0 {
                Status::Discharging
            } else if v == 1 || v == 2 {
                Status::Charging
            } else {
                Status::Unknown
            },
            None => Status::Unknown,
        },
        None => Status::Unknown,
    }
}

impl Status {
    /// Read the charging status a battery device reports in its textual
    /// status property.
    pub fn read_from_battery_device(dev: &DeviceDescriptor) -> (r: Status)
        ensures
            r == battery_status_of(dev@.status),
    {
        match &dev.status {
            Some(s) => {
                if str_eq(s.as_str(), "Charging") {
                    Status::Charging
                } else if str_eq(s.as_str(), "Discharging") {
                    Status::Discharging
                } else if str_eq(s.as_str(), "Not charging") {
                    Status::Discharging
                } else {
                    Status::Unknown
                }
            },
            None => Status::Unknown,
        }
    }

    /// Read the charging status an adapter device reports in its online
    /// property.
    pub fn read_from_adapter_device(dev: &DeviceDescriptor) -> (r: Status)
        ensures
            r == adapter_status_of(dev@.online),
    {
        match &dev.online {
            Some(s) => match parse_i32(s.as_str()) {
                Some(v) => {
                    if v == 0 {
                        Status::Discharging
                    } else if v == 1 || v == 2 {
                        Status::Charging
                    } else {
                        Status::Unknown
                    }
                },
                None => Status::Unknown,
            },
            None => Status::Unknown,
        }
    }
}

/// Combined reading of the adapter-derived and battery-derived statuses: the
/// adapter wins whenever it is conclusive, the battery value is only a
/// fallback.
pub open spec fn resolve(adapter: Status, battery: Status) -> Status {
    if adapter == Status::Unknown {
        battery
    } else {
        adapter
    }
}

/// Adapter-conclusive priority: whenever the adapter reading is `Charging` or
/// `Discharging`, the resolved status is the adapter reading, whatever the
/// battery says.
pub proof fn lemma_adapter_priority(adapter: Status, battery: Status)
    requires
        adapter != Status::Unknown,
    ensures
        resolve(adapter, battery) == adapter,
{
}

/// Adapter-`Unknown` fallback: whenever the adapter reading is inconclusive,
/// the resolved status is exactly the battery reading.
pub proof fn lemma_battery_fallback(adapter: Status, battery: Status)
    requires
        adapter == Status::Unknown,
    ensures
        resolve(adapter, battery) == battery,
{
}

} // verus!
