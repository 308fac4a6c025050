//! Presentation-state synchronizer for a desktop proxy-client shell.
//!
//! The crate reconciles asynchronous status signals from a network engine, a
//! proxy process and a connectivity prober into a single status snapshot, a
//! deterministic tray-icon color, a debounced single-flight window-visibility
//! state machine, an ordered quit decision, and typed file-change events.

pub mod file_watch;
pub mod helper;
pub mod quit;
pub mod status;
pub mod tray_icon_manager;
pub mod window_manager;

use vstd::prelude::*;

verus! {

/// Interval that must elapse between two accepted window operations.
pub const WINDOW_OPERATION_DEBOUNCE_MS: u64 = 500;

/// The combined version line the front-end displays, from the engine's and
/// the application's version strings.
pub fn get_versions(leaf_version: &str, app_version: &str) -> (r: String)
    ensures
        r@ == "Leaf Core: "@ + leaf_version@ + " | App: "@ + app_version@,
{
    let mut s = String::from_str("Leaf Core: ");
    s.append(leaf_version);
    s.append(" | App: ");
    s.append(app_version);
    s
}

} // verus!
