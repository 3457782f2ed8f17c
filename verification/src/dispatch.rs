//! The capability dispatcher: which engine a scan runs, and what a
//! failure falls back to.
//!
//! The capability matrix, kept here as data rather than as scattered
//! conditionals:
//!
//! | Platform      | Default mechanism    | Optional mechanism       |
//! |---------------|----------------------|--------------------------|
//! | Linux / macOS | Broadcast capture    | —                        |
//! | Windows       | Native resolution    | Broadcast capture, opt-in|
//!
//! On Windows, opting into broadcast capture that then fails falls back
//! to native resolution inside this core; everywhere else a broadcast
//! failure is terminal here and the caller's own fallback takes over.

use vstd::prelude::*;

use crate::addr::MacAddr;

verus! {

/// The host platform family, as far as the capability matrix cares.
#[derive(Clone, Copy, PartialEq, Eq, Structural, Debug)]
pub enum Platform {
    Linux,
    MacOs,
    Windows,
}

/// The two scanning mechanisms this core can run.
#[derive(Clone, Copy, PartialEq, Eq, Structural, Debug)]
pub enum Mechanism {
    BroadcastCapture,
    NativeResolution,
}

/// The capability-level errors.  Per-target send failures and per-frame
/// decode failures are silent non-errors and never reach this level.
#[derive(Clone, Copy, PartialEq, Eq, Structural, Debug)]
pub enum ScanError {
    /// No usable interface, or the link-layer channel cannot be opened.
    CapabilityUnavailable,
    /// The native engine was invoked on a platform without one.
    PlatformUnsupported,
}

/// One link-layer interface, as handed in by whoever enumerated them.
pub struct Interface {
    pub name: String,
    pub up: bool,
    pub loopback: bool,
    pub mac: Option<MacAddr>,
}

/// An interface the broadcast engine can use: administratively up, not
/// loopback, and carrying a hardware address.
pub open spec fn suitable(i: Interface) -> bool {
    i.up && !i.loopback && i.mac is Some
}

/// Pick the first suitable interface, if any.
pub fn suitable_interface(ifaces: &Vec<Interface>) -> (r: Option<usize>)
    ensures
        r matches Some(i) ==> 0 <= i < ifaces@.len() && suitable(ifaces@[i as int]) && forall|
            j: int,
        | 0 <= j < i ==> !suitable(ifaces@[j]),
        r is None ==> forall|j: int| 0 <= j < ifaces@.len() ==> !suitable(ifaces@[j]),
{
    let mut k: usize = 0;
    while k < ifaces.len()
        invariant
            0 <= k <= ifaces@.len(),
            forall|j: int| 0 <= j < k ==> !suitable(ifaces@[j]),
        decreases ifaces@.len() - k,
    {
        let candidate = &ifaces[k];
        if candidate.up && !candidate.loopback && candidate.mac.is_some() {
            return Some(k);
        }
        k = k + 1;
    }
    None
}

/// The mechanism the matrix selects: broadcast capture wherever it is
/// the default, and on Windows only when raw capture was asked for.
pub open spec fn spec_selected_mechanism(platform: Platform, prefer_raw_capture: bool) -> Mechanism {
    match platform {
        Platform::Windows => if prefer_raw_capture {
            Mechanism::BroadcastCapture
        } else {
            Mechanism::NativeResolution
        },
        _ => Mechanism::BroadcastCapture,
    }
}

/// The mechanism a scan starts with; see the matrix above.
pub fn selected_mechanism(platform: Platform, prefer_raw_capture: bool) -> (m: Mechanism)
    ensures
        m == spec_selected_mechanism(platform, prefer_raw_capture),
{
    match platform {
        Platform::Windows => if prefer_raw_capture {
            Mechanism::BroadcastCapture
        } else {
            Mechanism::NativeResolution
        },
        _ => Mechanism::BroadcastCapture,
    }
}

/// What a capability-level failure of the running mechanism comes to:
/// it is masked by the fallback mechanism exactly where the matrix
/// offers one — a Windows broadcast failure falls back to native
/// resolution — and propagates unchanged everywhere else.
pub fn after_failure(platform: Platform, failed: Mechanism, error: ScanError) -> (r: Result<
    Mechanism,
    ScanError,
>)
    ensures
        (platform is Windows && failed is BroadcastCapture) ==> r == Ok::<Mechanism, ScanError>(
            Mechanism::NativeResolution,
        ),
        !(platform is Windows && failed is BroadcastCapture) ==> r == Err::<Mechanism, ScanError>(
            error,
        ),
{
    match (platform, failed) {
        (Platform::Windows, Mechanism::BroadcastCapture) => Ok(Mechanism::NativeResolution),
        _ => Err(error),
    }
}

/// Whether the selected scanning method is available.  The two
/// environment facts — does a suitable interface exist, and did the
/// link-layer channel open within the short probe timeout — are handed
/// in by the caller, which is where the probing happens.  Native
/// resolution needs neither and is always available where the matrix
/// selects it.  This never errors.
pub fn is_available(platform: Platform, prefer_raw_capture: bool, broadcast_probe_ok: bool) -> (r:
    bool)
    ensures
        spec_selected_mechanism(platform, prefer_raw_capture) is NativeResolution ==> r,
        spec_selected_mechanism(platform, prefer_raw_capture) is BroadcastCapture ==> r
            == broadcast_probe_ok,
{
    match selected_mechanism(platform, prefer_raw_capture) {
        Mechanism::NativeResolution => true,
        Mechanism::BroadcastCapture => broadcast_probe_ok,
    }
}

} // verus!
