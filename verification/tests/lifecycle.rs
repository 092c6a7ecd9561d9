use rabbit::lifecycle::Lifecycle;

#[test]
fn initially_not_shutdown() {
    let lc = Lifecycle::new();
    assert!(!lc.is_shutdown_requested());
}

#[test]
fn shutdown_after_request() {
    let lc = Lifecycle::new();
    lc.request_shutdown();
    assert!(lc.is_shutdown_requested());
}

#[test]
fn clone_shares_state() {
    let lc = Lifecycle::new();
    let lc2 = lc.clone();
    lc2.request_shutdown();
    assert!(lc.is_shutdown_requested());
}

#[test]
fn default_lifecycle_is_running() {
    let lc = Lifecycle::default();
    assert!(!lc.is_shutdown_requested());
    let other = lc.clone();
    assert!(!other.is_shutdown_requested());
}
