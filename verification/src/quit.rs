//! Ordered application-quit sequence: the quit request is resolved against
//! the status snapshot into a single decision — block it (with a user-facing
//! notification) while the proxy is starting or still running, or exit,
//! shutting the engine down first when it alone is running. Engine shutdown
//! on quit is best-effort: the process never waits for it.

use vstd::prelude::*;

use vstd::string::StringExecFns;

use crate::status::ProxyStatus;

verus! {

/// What an explicit quit request resolves to.
#[derive(Debug, Clone, Copy, PartialEq, Eq, Structural)]
pub enum QuitDecision {
    /// The proxy is still starting: block the quit and ask the user to wait.
    BlockedStarting,
    /// Engine and proxy are both running: block the quit and ask the user to
    /// stop the proxy first.
    BlockedProxyRunning,
    /// The engine runs without the proxy: begin asynchronous engine shutdown
    /// and exit immediately, regardless of the shutdown's outcome.
    ShutdownEngineAndExit,
    /// The engine is not running: exit immediately.
    ExitNow,
}

/// The decision table, evaluated in order: a starting proxy blocks the quit;
/// then engine and proxy both running block it; an engine running alone is
/// shut down on the way out; otherwise the process just exits.
pub open spec fn quit_decision_spec(
    proxy_status: Option<ProxyStatus>,
    engine_running: bool,
    proxy_running: bool,
) -> QuitDecision {
    if proxy_status matches Some(ProxyStatus::Starting) {
        QuitDecision::BlockedStarting
    } else if engine_running && proxy_running {
        QuitDecision::BlockedProxyRunning
    } else if engine_running {
        QuitDecision::ShutdownEngineAndExit
    } else {
        QuitDecision::ExitNow
    }
}

/// Whether a decision lets the process exit.
pub open spec fn quit_exits(d: QuitDecision) -> bool {
    d == QuitDecision::ShutdownEngineAndExit || d == QuitDecision::ExitNow
}

impl QuitDecision {
    /// Whether this decision lets the process exit.
    pub fn exits(&self) -> (r: bool)
        ensures
            r == quit_exits(*self),
    {
        match self {
            QuitDecision::ShutdownEngineAndExit => true,
            QuitDecision::ExitNow => true,
            _ => false,
        }
    }

    /// The user-facing notification a blocking decision surfaces; exiting
    /// decisions are silent.
    pub fn notification_body(&self) -> (r: Option<&'static str>)
        ensures
            r is Some <==> !quit_exits(*self),
            *self == QuitDecision::BlockedStarting ==> (r matches Some(s) && s@
                == "Please wait until VPN finishes starting before quitting."@),
            *self == QuitDecision::BlockedProxyRunning ==> (r matches Some(s) && s@
                == "Please first stop Leaf VPN before quitting."@),
    {
        match self {
            QuitDecision::BlockedStarting => Some(
                "Please wait until VPN finishes starting before quitting.",
            ),
            QuitDecision::BlockedProxyRunning => Some(
                "Please first stop Leaf VPN before quitting.",
            ),
            _ => None,
        }
    }
}

/// Resolve an explicit quit request: `proxy_status` is the last observed
/// proxy state, and the two flags are the engine's and proxy's live running
/// queries.
pub fn handle_quit(
    proxy_status: &Option<ProxyStatus>,
    engine_running: bool,
    proxy_running: bool,
) -> (d: QuitDecision)
    ensures
        d == quit_decision_spec(*proxy_status, engine_running, proxy_running),
{
    match proxy_status {
        Some(ProxyStatus::Starting) => {
            return QuitDecision::BlockedStarting;
        },
        _ => {},
    }
    if engine_running && proxy_running {
        QuitDecision::BlockedProxyRunning
    } else if engine_running {
        QuitDecision::ShutdownEngineAndExit
    } else {
        QuitDecision::ExitNow
    }
}

/// The notification surfaced when the engine's asynchronous shutdown, begun
/// on the way out, later reports an error.
pub fn shutdown_failure_message(error: &str) -> (r: String)
    ensures
        r@ == "Failed to shutdown core: "@ + error@,
{
    String::from_str("Failed to shutdown core: ").concat(error)
}

/// With engine and proxy both reported running, the quit is always blocked:
/// the process does not exit, whatever the proxy status slot holds.
pub proof fn lemma_quit_blocked_when_both_running(proxy_status: Option<ProxyStatus>)
    ensures
        !quit_exits(quit_decision_spec(proxy_status, true, true)),
{
}

/// With the engine not running — unless the proxy is still starting, which
/// blocks every quit — the process exits immediately, without an engine
/// shutdown.
pub proof fn lemma_quit_exits_when_engine_stopped(
    proxy_status: Option<ProxyStatus>,
    proxy_running: bool,
)
    requires
        !(proxy_status matches Some(ProxyStatus::Starting)),
    ensures
        quit_decision_spec(proxy_status, false, proxy_running) == QuitDecision::ExitNow,
        quit_exits(quit_decision_spec(proxy_status, false, proxy_running)),
{
}

} // verus!
