use rustitles::monitor::InstallationMonitor;

#[test]
fn polling_stops_once_both_stages_are_available() {
    let mut m = InstallationMonitor::new();
    assert!(m.should_poll());
    m.record_probe(true, false);
    assert!(m.should_poll());
    m.record_probe(true, true);
    assert!(!m.should_poll());
}

#[test]
fn stage2_sighting_counts_only_with_stage1_present() {
    let mut m = InstallationMonitor::new();
    m.record_probe(false, true);
    assert!(!m.stage2_available);
    assert!(m.should_poll());
}

#[test]
fn stage2_installer_triggers_exactly_once() {
    let mut m = InstallationMonitor::new();
    // nothing to do while stage 1 is missing
    assert!(!m.maybe_start_stage2());
    m.record_probe(true, false);
    assert!(m.maybe_start_stage2());
    // repeated polls do not re-trigger
    assert!(!m.maybe_start_stage2());
    m.record_probe(true, false);
    assert!(!m.maybe_start_stage2());
    // even after a failed install the run never starts a second one
    m.set_stage2_result(Err("pipx/pip install failed".to_string()));
    let r = m.take_stage2_result();
    assert!(matches!(r, Some(Err(_))));
    assert!(!m.installing_stage2);
    assert!(!m.maybe_start_stage2());
}

#[test]
fn no_trigger_once_both_stages_are_available() {
    let mut m = InstallationMonitor::new();
    m.record_probe(true, true);
    assert!(!m.maybe_start_stage2());
    assert!(!m.should_poll());
}

#[test]
fn successful_stage2_install_makes_stage2_available() {
    let mut m = InstallationMonitor::new();
    m.record_probe(true, false);
    assert!(m.maybe_start_stage2());
    m.set_stage2_result(Ok(()));
    let r = m.take_stage2_result();
    assert!(matches!(r, Some(Ok(()))));
    assert!(m.stage2_available);
    assert!(!m.installing_stage2);
    // the cell is drained exactly once
    assert!(m.take_stage2_result().is_none());
}

#[test]
fn stage1_install_cycle() {
    let mut m = InstallationMonitor::new();
    assert!(m.begin_stage1_install());
    // a second start is refused while one is running
    assert!(!m.begin_stage1_install());
    m.set_stage1_result(Ok(()));
    let r = m.take_stage1_result();
    assert!(matches!(r, Some(Ok(()))));
    assert!(m.stage1_available);
    assert!(!m.installing_stage1);
    assert!(m.take_stage1_result().is_none());
    // with stage 1 now present, the stage-2 installer may start
    assert!(m.maybe_start_stage2());
}

#[test]
fn failed_stage1_install_leaves_stage1_unavailable() {
    let mut m = InstallationMonitor::new();
    assert!(m.begin_stage1_install());
    m.set_stage1_result(Err("installer did not complete".to_string()));
    let r = m.take_stage1_result();
    assert!(matches!(r, Some(Err(_))));
    assert!(!m.stage1_available);
    assert!(!m.installing_stage1);
}
