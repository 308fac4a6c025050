use leafshell::quit::{handle_quit, shutdown_failure_message, QuitDecision};
use leafshell::status::ProxyStatus;

#[test]
fn starting_proxy_blocks_the_quit() {
    let d = handle_quit(&Some(ProxyStatus::Starting), true, false);
    assert_eq!(d, QuitDecision::BlockedStarting);
    assert!(!d.exits());
    assert_eq!(
        d.notification_body(),
        Some("Please wait until VPN finishes starting before quitting.")
    );
}

#[test]
fn both_running_blocks_the_quit() {
    let d = handle_quit(&Some(ProxyStatus::Started), true, true);
    assert_eq!(d, QuitDecision::BlockedProxyRunning);
    assert!(!d.exits(), "the process must not exit while the proxy runs");
    assert_eq!(
        d.notification_body(),
        Some("Please first stop Leaf VPN before quitting.")
    );
}

#[test]
fn engine_alone_is_shut_down_on_the_way_out() {
    let d = handle_quit(&Some(ProxyStatus::Idle), true, false);
    assert_eq!(d, QuitDecision::ShutdownEngineAndExit);
    assert!(d.exits());
    assert_eq!(d.notification_body(), None);
}

#[test]
fn stopped_engine_exits_immediately() {
    let d = handle_quit(&None, false, false);
    assert_eq!(d, QuitDecision::ExitNow);
    assert!(d.exits());
    assert_eq!(d.notification_body(), None);

    // A live proxy report without the engine still exits immediately.
    let d2 = handle_quit(&Some(ProxyStatus::Started), false, true);
    assert_eq!(d2, QuitDecision::ExitNow);
}

#[test]
fn instrumented_exit_hook_sees_no_exit_while_both_run() {
    let mut exited = false;
    let d = handle_quit(&Some(ProxyStatus::Started), true, true);
    if d.exits() {
        exited = true;
    }
    assert!(!exited);

    let d2 = handle_quit(&Some(ProxyStatus::Started), false, true);
    if d2.exits() {
        exited = true;
    }
    assert!(exited);
}

#[test]
fn shutdown_error_notification_names_the_error() {
    assert_eq!(
        shutdown_failure_message("ipc closed"),
        "Failed to shutdown core: ipc closed"
    );
}
