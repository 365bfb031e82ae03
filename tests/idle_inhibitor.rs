use audio_idle_inhibit::idle_inhibitor::{DryRunIdleInhibitor, IdleInhibitor};

#[test]
fn dry_run_records_state_idempotently() {
    let mut d = DryRunIdleInhibitor::new();
    assert!(!d.is_idle_inhibited());
    d.inhibit().unwrap();
    d.inhibit().unwrap();
    assert!(d.is_idle_inhibited());
    d.set_inhibit_idle(false).unwrap();
    assert!(!d.is_idle_inhibited());
    d.uninhibit().unwrap();
    assert!(!d.is_idle_inhibited());
}
