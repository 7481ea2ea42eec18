//! Health reporting: a snapshot of which data sources are usable.
//!
//! The probe itself (environment lookup, outbound ping) happens in the
//! surrounding binary; this module holds the decision logic, which must
//! always produce a report and never fail.

use vstd::prelude::*;

verus! {

/// What the surrounding binary observed when it pinged the dependent
/// service. `Completed` means the call finished, whatever HTTP status
/// came back: the probe tests connectivity, not authorization.
#[derive(Clone, Copy, Debug, PartialEq, Eq, Structural)]
pub enum ProbeOutcome {
    Completed,
    TransportFailed,
}

/// A fresh snapshot of the health flags. Computed per probe, never cached.
#[derive(Clone, Copy, Debug, PartialEq, Eq, Structural)]
pub struct HealthStatus {
    pub credential_present: bool,
    pub dependency_reachable: bool,
}

/// Builds the health report. Total on every input: a missing probe result
/// (the caller could not even attempt the call) counts as unreachable,
/// so the health surface always answers and never propagates a failure.
pub fn health_status(credential_present: bool, probe: Option<ProbeOutcome>) -> (h: HealthStatus)
    ensures
        h.credential_present == credential_present,
        h.dependency_reachable <==> probe == Some(ProbeOutcome::Completed),
{
    let dependency_reachable = match probe {
        Some(ProbeOutcome::Completed) => true,
        Some(ProbeOutcome::TransportFailed) => false,
        None => false,
    };
    HealthStatus { credential_present, dependency_reachable }
}

/// The label reported for the configured serving mode.
pub fn mode_label(demo_mode: bool) -> (s: &'static str)
    ensures
        demo_mode ==> s@ == "demo"@,
        !demo_mode ==> s@ == "live"@,
{
    if demo_mode {
        "demo"
    } else {
        "live"
    }
}

} // verus!
