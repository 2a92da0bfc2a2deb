//! The command/signal protocol between the dispatcher and the worker, and the
//! event stream feeding the progress scheduler.

use vstd::prelude::*;
use crate::device::Discovery;

verus! {

/// Payload of a `RequestUpdate` command; its shape depends on the device kind.
pub enum UpdatePayload {
    /// A standalone or whole-system device: the version of the release to
    /// apply.
    Release { version: String },
    /// An aggregated group: the shared firmware digest and the target version.
    GroupDigest { digest: String, version: String },
}

/// Instruction from the dispatcher to the worker.
pub enum Command {
    /// Begin a new scan for devices.
    Scan,
    /// Finish the current unit of work and exit the worker loop.
    Quit,
    /// Apply an update to the named device.
    RequestUpdate { entity: slotmap::DefaultKey, payload: UpdatePayload },
}

/// Message from the worker describing discovery or update progress.
pub enum Signal {
    /// A new scan has begun; all previously discovered devices are invalid.
    Scanning,
    /// The scan finished; no further `DeviceFound` will follow until the next
    /// scan.
    ScanningComplete,
    /// A device with updatable firmware was discovered.
    DeviceFound { discovery: Discovery },
    /// The named device's firmware was updated; the message is its new
    /// human-readable status.
    DeviceUpdated { entity: slotmap::DefaultKey, message: String },
    /// A worker-side failure, optionally tied to one device, with its cause
    /// chain from the most general error to the most specific.
    Error { entity: Option<slotmap::DefaultKey>, chain: Vec<String> },
    /// Whole-system firmware was scheduled; the machine should reboot.
    SystemUpdateScheduled,
    /// The final signal: the worker has exited its loop.
    Stop,
}

/// An instruction for the progress scheduler, keyed by the progress token of
/// the device whose indicator it concerns.
#[derive(Clone, Copy)]
pub enum ActivateEvent {
    /// Begin animating the token's indicator.
    Activate { token: u64 },
    /// Stop animating the token's indicator.
    Deactivate { token: u64 },
    /// Stop animating everything.
    Clear,
}

/// One observable effect of applying a signal or resolving a confirmation,
/// in the order the effects are produced.
pub enum Emit {
    /// Send this command to the worker.
    Cmd { command: Command },
    /// Queue this event for the progress scheduler.
    Act { event: ActivateEvent },
    /// Invoke the external reboot action (fire and forget).
    Reboot,
}

/// The user's answer to the confirmation dialog.
pub enum ModalResponse {
    Accept,
    Cancel,
}

/// Coarse view-level state of the dispatcher.
pub enum ViewState {
    /// No devices shown.
    Idle,
    /// The list was cleared and results are awaited.
    Scanning,
    /// At least one device is listed.
    Populated,
}

} // verus!
