use reth_peers::thread_names::{has_prefix, is_background_thread};

#[test]
fn background_threads_are_recognised_by_prefix() {
    assert!(is_background_thread("OpenTelemetry.T"));
    assert!(is_background_thread("tracing-appende"));
    assert!(is_background_thread("reqwest-internal"));
    assert!(!is_background_thread("tokio-runtime-w"));
    assert!(!is_background_thread("OpenTelemetry"));
    assert!(!is_background_thread(""));
}

#[test]
fn prefix_check() {
    assert!(has_prefix("reth-net", "reth"));
    assert!(has_prefix("reth", ""));
    assert!(!has_prefix("re", "reth"));
    assert!(!has_prefix("ruth", "reth"));
}
