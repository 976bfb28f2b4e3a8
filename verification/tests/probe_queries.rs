use consensus_select::probe::{ProbeError, RuntimeCapabilityProbe};

fn probe_with(records: &[(u64, bool)]) -> RuntimeCapabilityProbe {
    let mut probe = RuntimeCapabilityProbe::new();
    for &(block, capable) in records {
        probe.record(block, capable);
    }
    probe
}

#[test]
fn probe_reports_recorded_flags() {
    let probe = probe_with(&[(0, false), (5, false), (10, true)]);
    assert_eq!(probe.try_probe(0), Ok(false));
    assert_eq!(probe.try_probe(5), Ok(false));
    assert_eq!(probe.try_probe(10), Ok(true));
    assert!(probe.has_aura_capability(10));
    assert!(!probe.has_aura_capability(0));
}

#[test]
fn probe_error_on_missing_state() {
    let probe = probe_with(&[(0, false)]);
    assert_eq!(probe.try_probe(7), Err(ProbeError));
}

#[test]
fn probe_failure_counts_as_incapable() {
    let probe = probe_with(&[(0, false)]);
    assert!(!probe.has_aura_capability(7));
}

#[test]
fn probe_is_idempotent() {
    let probe = probe_with(&[(3, true), (4, false)]);
    for block in [3u64, 4, 9] {
        let first = probe.has_aura_capability(block);
        for _ in 0..10 {
            assert_eq!(probe.has_aura_capability(block), first);
        }
    }
}

#[test]
fn probe_on_empty_backend() {
    let probe = RuntimeCapabilityProbe::new();
    assert_eq!(probe.try_probe(0), Err(ProbeError));
    assert!(!probe.has_aura_capability(0));
}
