use marketdata::health::{health_status, mode_label, ProbeOutcome};

#[test]
fn completed_probe_reports_reachable() {
    let h = health_status(true, Some(ProbeOutcome::Completed));
    assert!(h.credential_present);
    assert!(h.dependency_reachable);
}

#[test]
fn failed_probe_reports_unreachable_but_still_answers() {
    let h = health_status(true, Some(ProbeOutcome::TransportFailed));
    assert!(h.credential_present);
    assert!(!h.dependency_reachable);
}

#[test]
fn probe_that_could_not_run_reports_unreachable_but_still_answers() {
    // The caller turns any internal probe failure into an absent outcome;
    // the report still arrives, with the flag downgraded to false.
    let h = health_status(false, None);
    assert!(!h.credential_present);
    assert!(!h.dependency_reachable);
}

#[test]
fn mode_labels() {
    assert_eq!(mode_label(true), "demo");
    assert_eq!(mode_label(false), "live");
}
