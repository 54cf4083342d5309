use vstd::prelude::*;

use crate::text::str_eq;
use crate::text::str_starts_with;

verus! {

/// Kind of power-supply device a descriptor stands for.
#[derive(Clone, Copy, PartialEq, Eq, Structural, Debug)]
pub enum DeviceType {
    /// Battery device.
    Battery,
    /// AC adapter (i.e., the power supply) of a device.
    Adapter,
}

/// An immutable snapshot of one device in the power-supply subsystem, as
/// delivered by the OS device-management layer.
///
/// The surrounding program reads each raw device object once and hands it in
/// as this plain value: the parent's driver identifier (when that lookup
/// succeeds and yields valid text), the short device name, and the two
/// properties the status resolution reads.
pub struct DeviceDescriptor {
    /// Driver identifier of the device's parent, when available.
    pub driver: Option<String>,
    /// Short device name, e.g. `BAT0` or `ADP1`.
    pub sysname: String,
    /// Value of the battery status property, when present.
    pub status: Option<String>,
    /// Value of the adapter online property, when present.
    pub online: Option<String>,
}

/// Mathematical snapshot of a [`DeviceDescriptor`].
pub ghost struct DeviceView {
    pub driver: Option<Seq<char>>,
    pub sysname: Seq<char>,
    pub status: Option<Seq<char>>,
    pub online: Option<Seq<char>>,
}

impl View for DeviceDescriptor {
    type V = DeviceView;

    open spec fn view(&self) -> DeviceView {
        DeviceView {
            driver: match self.driver {
                Some(s) => Some(s@),
                None => None,
            },
            sysname: self.sysname@,
            status: match self.status {
                Some(s) => Some(s@),
                None => None,
            },
            online: match self.online {
                Some(s) => Some(s@),
                None => None,
            },
        }
    }
}

/// Fallback classification by short device name: a `BAT` prefix marks a
/// battery, an `ADP` prefix an adapter, anything else is not power-relevant.
pub open spec fn spec_classify_by_name(sysname: Seq<char>) -> Option<DeviceType> {
    if "BAT"@.is_prefix_of(sysname) {
        Some(DeviceType::Battery)
    } else if "ADP"@.is_prefix_of(sysname) {
        Some(DeviceType::Adapter)
    } else {
        None
    }
}

/// Two-tier classification heuristic: the parent's driver identifier decides
/// when it reads `battery` or `ac`; otherwise the short-name prefix decides.
pub open spec fn spec_classify(d: DeviceView) -> Option<DeviceType> {
    match d.driver {
        Some(drv) => if drv == "battery"@ {
            Some(DeviceType::Battery)
        } else if drv == "ac"@ {
            Some(DeviceType::Adapter)
        } else {
            spec_classify_by_name(d.sysname)
        },
        None => spec_classify_by_name(d.sysname),
    }
}

impl DeviceDescriptor {
    /// Classify this descriptor as a battery, an adapter, or neither.
    ///
    /// `None` means the device is not power-supply-relevant and is to be
    /// silently ignored by the caller; it is not an error.
    pub fn device_type(&self) -> (r: Option<DeviceType>)
        ensures
            r == spec_classify(self@),
    {
        match &self.driver {
            Some(drv) => {
                if str_eq(drv.as_str(), "battery") {
                    Some(DeviceType::Battery)
                } else if str_eq(drv.as_str(), "ac") {
                    Some(DeviceType::Adapter)
                } else {
                    self.classify_by_name()
                }
            },
            None => self.classify_by_name(),
        }
    }

    fn classify_by_name(&self) -> (r: Option<DeviceType>)
        ensures
            r == spec_classify_by_name(self@.sysname),
    {
        if str_starts_with(self.sysname.as_str(), "BAT") {
            Some(DeviceType::Battery)
        } else if str_starts_with(self.sysname.as_str(), "ADP") {
            Some(DeviceType::Adapter)
        } else {
            None
        }
    }
}

/// Classification fallback: when no parent-driver string is available, the
/// short-name prefix alone decides, and a name with neither prefix leaves the
/// device unclassified.
pub proof fn lemma_classification_fallback(d: DeviceView)
    requires
        d.driver is None,
    ensures
        "BAT"@.is_prefix_of(d.sysname) ==> spec_classify(d) == Some(DeviceType::Battery),
        !"BAT"@.is_prefix_of(d.sysname) && "ADP"@.is_prefix_of(d.sysname) ==> spec_classify(d)
            == Some(DeviceType::Adapter),
        !"BAT"@.is_prefix_of(d.sysname) && !"ADP"@.is_prefix_of(d.sysname) ==> spec_classify(
            d,
        ) is None,
{
}

} // verus!
