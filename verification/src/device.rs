//! Device data: discovery snapshots and per-device presentation records.

use vstd::prelude::*;

verus! {

/// Immutable snapshot of one device at discovery time.
pub struct FirmwareInfo {
    /// Display name of the device.
    pub name: String,
    /// Version currently installed.
    pub current: String,
    /// Latest version available.
    pub latest: String,
}

impl FirmwareInfo {
    /// A field-for-field copy of the snapshot.
    pub fn duplicate(&self) -> (r: FirmwareInfo)
        ensures
            r == *self,
    {
        FirmwareInfo {
            name: self.name.clone(),
            current: self.current.clone(),
            latest: self.latest.clone(),
        }
    }
}

/// What kind of device a discovery signal describes.
pub enum DeviceKind {
    /// A standalone device; the worker reports whether an upgrade is
    /// available and whether applying it forces a reboot.
    Standalone { upgradeable: bool, needs_reboot: bool },
    /// Whole-system firmware: updating always schedules a reboot, and an
    /// upgrade is available exactly when the current version is not the
    /// latest.
    System,
    /// One interchangeable unit of the aggregated device group, optionally
    /// carrying a firmware digest; the group keeps the latest digest any
    /// unit reported.
    GroupUnit { digest: Option<String> },
}

/// Discovery payload of a `DeviceFound` signal.
pub struct Discovery {
    pub info: FirmwareInfo,
    pub kind: DeviceKind,
}

/// The dispatcher's model of one listed device: its discovery snapshot plus
/// the state of its on-screen control.
pub struct DeviceRecord {
    /// Discovery snapshot the control was built from.
    pub info: FirmwareInfo,
    /// Status text currently shown beside the device.
    pub label: String,
    /// Whether the upgrade control is shown at all (an interactive device).
    pub revealed: bool,
    /// Whether the control currently shows its progress indicator instead of
    /// its upgrade button.
    pub showing_progress: bool,
    /// Whether an upgrade is on offer for this device alone; members of the
    /// aggregated group share the registry's group flag instead.
    pub upgradeable: bool,
    /// Whether this is whole-system firmware, whose update implies a reboot.
    pub is_system: bool,
    /// Whether the device belongs to the aggregated group.
    pub grouped: bool,
}

impl DeviceRecord {
    /// A field-for-field copy of the record.
    pub fn duplicate(&self) -> (r: DeviceRecord)
        ensures
            r == *self,
    {
        DeviceRecord {
            info: self.info.duplicate(),
            label: self.label.clone(),
            revealed: self.revealed,
            showing_progress: self.showing_progress,
            upgradeable: self.upgradeable,
            is_system: self.is_system,
            grouped: self.grouped,
        }
    }
}

} // verus!
