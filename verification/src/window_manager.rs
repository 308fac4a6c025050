//! Debounced, single-flight state machine governing the main window's
//! visibility lifecycle.
//!
//! Every public operation first passes the debounce/single-flight gate; losing
//! calls are dropped with [`WindowOperationResult::NoAction`], never queued.
//! The window's state is re-derived from a fresh probe of the live window
//! handle at call time rather than stored, so it cannot drift from reality.
//! The shell observes the handle into a [`WindowProbe`], performs the
//! activation sub-steps the coordinator asks for, and reports their outcomes
//! as [`ActivationOutcomes`].

use vstd::prelude::*;

use vstd::string::StringExecFns;

use crate::WINDOW_OPERATION_DEBOUNCE_MS;

verus! {

/// Window operation result
#[derive(Debug, Clone, Copy, PartialEq, Eq, Structural)]
pub enum WindowOperationResult {
    /// Window is shown and focused
    Shown,
    /// Window is hidden
    Hidden,
    /// Window destroyed
    Destroyed,
    /// Operation failed
    Failed,
    /// No action needed
    NoAction,
}

/// Window state
#[derive(Debug, Clone, Copy, PartialEq, Eq, Structural)]
pub enum WindowState {
    /// Window is visible and focused
    VisibleFocused,
    /// Window is visible but unfocused
    VisibleUnfocused,
    /// Window is minimized
    Minimized,
    /// Window is hidden
    Hidden,
    /// Window does not exist
    NotExist,
}

/// A point-in-time observation of the live window handle: whether the window
/// exists, and its minimized/visible/focused flags (false when unreadable).
#[derive(Debug, Clone, Copy, PartialEq, Eq, Structural)]
pub struct WindowProbe {
    pub exists: bool,
    pub minimized: bool,
    pub visible: bool,
    pub focused: bool,
}

/// Reported success of each sub-step of the activation sequence, as the
/// underlying window calls returned it.
#[derive(Debug, Clone, Copy, PartialEq, Eq, Structural)]
pub struct ActivationOutcomes {
    pub unminimize_ok: bool,
    pub show_ok: bool,
    pub focus_ok: bool,
}

/// The shared debounce record: when the last accepted operation began, and
/// whether one is still in progress.
#[derive(Debug, Clone, Copy, PartialEq, Eq)]
pub struct DebounceGate {
    pub last_operation_ms: Option<u64>,
    pub operation_in_progress: bool,
}

/// The state the probe's flags derive: minimized wins over hidden, hidden
/// over the focus distinction.
pub open spec fn window_state_of(p: WindowProbe) -> WindowState {
    if !p.exists {
        WindowState::NotExist
    } else if p.minimized {
        WindowState::Minimized
    } else if !p.visible {
        WindowState::Hidden
    } else if p.focused {
        WindowState::VisibleFocused
    } else {
        WindowState::VisibleUnfocused
    }
}

/// The debounce gate lets an operation through only if none is in progress and at
/// least the debounce interval has elapsed since the last accepted one began.
pub open spec fn gate_allows(g: DebounceGate, now_ms: u64) -> bool {
    &&& !g.operation_in_progress
    &&& match g.last_operation_ms {
        None => true,
        Some(t) => now_ms >= t + WINDOW_OPERATION_DEBOUNCE_MS,
    }
}

/// The debounce gate right after it accepted an operation at `now_ms`: the operation
/// is recorded as begun and still in progress.
pub open spec fn gate_after_begin(now_ms: u64) -> DebounceGate {
    DebounceGate { last_operation_ms: Some(now_ms), operation_in_progress: true }
}

/// The debounce gate after an operation accepted at `t` has finished.
pub open spec fn gate_completed_at(t: u64) -> DebounceGate {
    DebounceGate { last_operation_ms: Some(t), operation_in_progress: false }
}

/// `Shown` only if every attempted sub-step succeeded; unminimizing is only
/// attempted on a minimized window.
pub open spec fn activation_spec(minimized: bool, e: ActivationOutcomes) -> WindowOperationResult {
    if (minimized ==> e.unminimize_ok) && e.show_ok && e.focus_ok {
        WindowOperationResult::Shown
    } else {
        WindowOperationResult::Failed
    }
}

/// Hiding succeeds only on an existing window whose hide call succeeded.
pub open spec fn hide_spec(exists: bool, hide_ok: bool) -> WindowOperationResult {
    if exists && hide_ok {
        WindowOperationResult::Hidden
    } else {
        WindowOperationResult::Failed
    }
}

/// Destruction is unconditional: it fails only when there is no window.
pub open spec fn destroy_spec(exists: bool) -> WindowOperationResult {
    if exists {
        WindowOperationResult::Destroyed
    } else {
        WindowOperationResult::Failed
    }
}

/// What show does once past the debounce check: re-creating a missing window is
/// unsupported, an already focused window needs no action, anything else is
/// activated.
pub open spec fn show_effect_spec(p: WindowProbe, e: ActivationOutcomes) -> WindowOperationResult {
    match window_state_of(p) {
        WindowState::NotExist => WindowOperationResult::Failed,
        WindowState::VisibleFocused => WindowOperationResult::NoAction,
        _ => activation_spec(p.minimized, e),
    }
}

/// What toggle does once past the debounce check: a missing window is delegated to the
/// show path, a visible one is hidden, a minimized or hidden one is activated.
pub open spec fn toggle_effect_spec(
    p: WindowProbe,
    e: ActivationOutcomes,
    hide_ok: bool,
) -> WindowOperationResult {
    match window_state_of(p) {
        WindowState::NotExist => show_effect_spec(p, e),
        WindowState::VisibleFocused | WindowState::VisibleUnfocused => hide_spec(
            p.exists,
            hide_ok,
        ),
        _ => activation_spec(p.minimized, e),
    }
}

/// The result of a gated operation: the inner outcome if the debounce gate let it
/// through, `NoAction` if the call was dropped.
pub open spec fn gated_result(
    g: DebounceGate,
    now_ms: u64,
    inner: WindowOperationResult,
) -> WindowOperationResult {
    if gate_allows(g, now_ms) {
        inner
    } else {
        WindowOperationResult::NoAction
    }
}

impl DebounceGate {
    /// A fresh gate: no operation recorded, none in progress, so the first
    /// operation is always let through.
    pub fn new() -> (g: DebounceGate)
        ensures
            g.last_operation_ms is None,
            !g.operation_in_progress,
            forall|now_ms: u64| gate_allows(g, now_ms),
    {
        DebounceGate { last_operation_ms: None, operation_in_progress: false }
    }
}

/// Test-and-set entry of the debounce/single-flight protocol: accepts the
/// operation only if the debounce gate allows it at `now_ms`, and then records the
/// operation as begun; a denied call leaves the debounce gate untouched.
pub fn should_handle_window_operation(gate: &mut DebounceGate, now_ms: u64) -> (accepted: bool)
    ensures
        accepted == gate_allows(*old(gate), now_ms),
        accepted ==> *final(gate) == gate_after_begin(now_ms),
        !accepted ==> *final(gate) == *old(gate),
{
    if gate.operation_in_progress {
        return false;
    }
    let allowed: bool = match gate.last_operation_ms {
        None => true,
        Some(t) => now_ms >= t && now_ms - t >= WINDOW_OPERATION_DEBOUNCE_MS,
    };
    if allowed {
        gate.last_operation_ms = Some(now_ms);
        gate.operation_in_progress = true;
        true
    } else {
        false
    }
}

/// Release of the in-progress flag; called on every exit path of an accepted
/// operation, so a dropped or failed operation can never wedge the debounce gate.
pub fn finish_window_operation(gate: &mut DebounceGate)
    ensures
        !final(gate).operation_in_progress,
        final(gate).last_operation_ms == old(gate).last_operation_ms,
{
    gate.operation_in_progress = false;
}

/// Unified window manager
pub struct WindowManager;

impl WindowManager {
    /// Derive the current window state from a fresh probe of the handle.
    pub fn get_main_window_state(probe: &WindowProbe) -> (s: WindowState)
        ensures
            s == window_state_of(*probe),
    {
        if !probe.exists {
            return WindowState::NotExist;
        }
        if probe.minimized {
            return WindowState::Minimized;
        }
        if !probe.visible {
            return WindowState::Hidden;
        }
        if probe.focused {
            WindowState::VisibleFocused
        } else {
            WindowState::VisibleUnfocused
        }
    }

    /// Judge the activation sequence (unminimize if minimized, show, focus)
    /// from the reported sub-step outcomes: best-effort, every step is
    /// attempted, but the overall result is `Shown` only if all attempted
    /// steps succeeded. Platform-specific focus-stealing workarounds are
    /// purely cosmetic and play no part in the outcome.
    pub fn activate_window(minimized: bool, outcomes: &ActivationOutcomes) -> (r:
        WindowOperationResult)
        ensures
            r == activation_spec(minimized, *outcomes),
    {
        let mut operations_successful = true;
        if minimized && !outcomes.unminimize_ok {
            operations_successful = false;
        }
        if !outcomes.show_ok {
            operations_successful = false;
        }
        if !outcomes.focus_ok {
            operations_successful = false;
        }
        if operations_successful {
            WindowOperationResult::Shown
        } else {
            WindowOperationResult::Failed
        }
    }

    /// The show path once past the debounce check.
    fn perform_show(probe: &WindowProbe, outcomes: &ActivationOutcomes) -> (r:
        WindowOperationResult)
        ensures
            r == show_effect_spec(*probe, *outcomes),
    {
        match Self::get_main_window_state(probe) {
            WindowState::NotExist => WindowOperationResult::Failed,
            WindowState::VisibleFocused => WindowOperationResult::NoAction,
            _ => Self::activate_window(probe.minimized, outcomes),
        }
    }

    /// The hide primitive: report how the underlying hide call went.
    fn perform_hide(exists: bool, hide_ok: bool) -> (r: WindowOperationResult)
        ensures
            r == hide_spec(exists, hide_ok),
    {
        if exists {
            if hide_ok {
                WindowOperationResult::Hidden
            } else {
                WindowOperationResult::Failed
            }
        } else {
            WindowOperationResult::Failed
        }
    }

    /// Smartly show the main window: gated, then no-op when already focused,
    /// failure when the window is missing (re-creation is unsupported), and
    /// the activation sequence otherwise.
    pub fn show_main_window(
        gate: &mut DebounceGate,
        now_ms: u64,
        probe: &WindowProbe,
        outcomes: &ActivationOutcomes,
    ) -> (r: WindowOperationResult)
        ensures
            r == gated_result(*old(gate), now_ms, show_effect_spec(*probe, *outcomes)),
            gate_allows(*old(gate), now_ms) ==> *final(gate) == gate_completed_at(now_ms),
            !gate_allows(*old(gate), now_ms) ==> *final(gate) == *old(gate),
    {
        if !should_handle_window_operation(gate, now_ms) {
            return WindowOperationResult::NoAction;
        }
        let result = Self::perform_show(probe, outcomes);
        finish_window_operation(gate);
        result
    }

    /// Toggle main window visibility: gated, then hide a visible window,
    /// activate a minimized or hidden one, and delegate a missing one to the
    /// show path.
    pub fn toggle_main_window(
        gate: &mut DebounceGate,
        now_ms: u64,
        probe: &WindowProbe,
        outcomes: &ActivationOutcomes,
        hide_ok: bool,
    ) -> (r: WindowOperationResult)
        ensures
            r == gated_result(*old(gate), now_ms, toggle_effect_spec(*probe, *outcomes, hide_ok)),
            gate_allows(*old(gate), now_ms) ==> *final(gate) == gate_completed_at(now_ms),
            !gate_allows(*old(gate), now_ms) ==> *final(gate) == *old(gate),
    {
        if !should_handle_window_operation(gate, now_ms) {
            return WindowOperationResult::NoAction;
        }
        let result = match Self::get_main_window_state(probe) {
            WindowState::NotExist => Self::perform_show(probe, outcomes),
            WindowState::VisibleFocused | WindowState::VisibleUnfocused => Self::perform_hide(
                probe.exists,
                hide_ok,
            ),
            _ => Self::activate_existing_main_window(probe, outcomes),
        };
        finish_window_operation(gate);
        result
    }

    /// Activate a window that exists but is hidden or minimized; fails when
    /// no window can be found.
    pub fn activate_existing_main_window(probe: &WindowProbe, outcomes: &ActivationOutcomes) -> (r:
        WindowOperationResult)
        ensures
            probe.exists ==> r == activation_spec(probe.minimized, *outcomes),
            !probe.exists ==> r == WindowOperationResult::Failed,
    {
        if probe.exists {
            Self::activate_window(probe.minimized, outcomes)
        } else {
            WindowOperationResult::Failed
        }
    }

    /// Hide the main window: gated, then report how the hide call went.
    pub fn hide_main_window(gate: &mut DebounceGate, now_ms: u64, exists: bool, hide_ok: bool) -> (r:
        WindowOperationResult)
        ensures
            r == gated_result(*old(gate), now_ms, hide_spec(exists, hide_ok)),
            gate_allows(*old(gate), now_ms) ==> *final(gate) == gate_completed_at(now_ms),
            !gate_allows(*old(gate), now_ms) ==> *final(gate) == *old(gate),
    {
        if !should_handle_window_operation(gate, now_ms) {
            return WindowOperationResult::NoAction;
        }
        let result = Self::perform_hide(exists, hide_ok);
        finish_window_operation(gate);
        result
    }

    /// Destroy the window: gated, then unconditional destruction, which fails
    /// only when there is no window to destroy.
    pub fn destroy_main_window(gate: &mut DebounceGate, now_ms: u64, exists: bool) -> (r:
        WindowOperationResult)
        ensures
            r == gated_result(*old(gate), now_ms, destroy_spec(exists)),
            gate_allows(*old(gate), now_ms) ==> *final(gate) == gate_completed_at(now_ms),
            !gate_allows(*old(gate), now_ms) ==> *final(gate) == *old(gate),
    {
        if !should_handle_window_operation(gate, now_ms) {
            return WindowOperationResult::NoAction;
        }
        let result = if exists {
            WindowOperationResult::Destroyed
        } else {
            WindowOperationResult::Failed
        };
        finish_window_operation(gate);
        result
    }

    /// Intercept a close request from the OS or the user: the close is always
    /// suppressed (the second component is always true) and the window is
    /// hidden instead.
    pub fn close_request_intercept(
        gate: &mut DebounceGate,
        now_ms: u64,
        exists: bool,
        hide_ok: bool,
    ) -> (r: (WindowOperationResult, bool))
        ensures
            r.1 == true,
            r.0 == gated_result(*old(gate), now_ms, hide_spec(exists, hide_ok)),
            gate_allows(*old(gate), now_ms) ==> *final(gate) == gate_completed_at(now_ms),
            !gate_allows(*old(gate), now_ms) ==> *final(gate) == *old(gate),
    {
        let result = Self::hide_main_window(gate, now_ms, exists, hide_ok);
        (result, true)
    }

    /// Check if main window is visible
    pub fn is_main_window_visible(probe: &WindowProbe) -> (r: bool)
        ensures
            r == (probe.exists && probe.visible),
    {
        probe.exists && probe.visible
    }

    /// Check if main window is focused
    pub fn is_main_window_focused(probe: &WindowProbe) -> (r: bool)
        ensures
            r == (probe.exists && probe.focused),
    {
        probe.exists && probe.focused
    }

    /// Check if main window is minimized
    pub fn is_main_window_minimized(probe: &WindowProbe) -> (r: bool)
        ensures
            r == (probe.exists && probe.minimized),
    {
        probe.exists && probe.minimized
    }

    /// Get detailed window status information
    pub fn get_window_status_info(probe: &WindowProbe) -> (r: String)
        ensures
            r@ == window_status_info_spec(*probe),
    {
        let mut s = String::from_str("Window state: ");
        s.append(window_state_name(Self::get_main_window_state(probe)));
        s.append(" | Visible: ");
        s.append(bool_name(Self::is_main_window_visible(probe)));
        s.append(" | Focused: ");
        s.append(bool_name(Self::is_main_window_focused(probe)));
        s.append(" | Minimized: ");
        s.append(bool_name(Self::is_main_window_minimized(probe)));
        s
    }
}

/// The name a window state prints as.
pub open spec fn window_state_name_spec(s: WindowState) -> Seq<char> {
    match s {
        WindowState::VisibleFocused => "VisibleFocused"@,
        WindowState::VisibleUnfocused => "VisibleUnfocused"@,
        WindowState::Minimized => "Minimized"@,
        WindowState::Hidden => "Hidden"@,
        WindowState::NotExist => "NotExist"@,
    }
}

/// The name a flag prints as.
pub open spec fn bool_name_spec(b: bool) -> Seq<char> {
    if b {
        "true"@
    } else {
        "false"@
    }
}

/// The status line describing a probe: the derived state and the three raw
/// flags, each false for a missing window.
pub open spec fn window_status_info_spec(p: WindowProbe) -> Seq<char> {
    "Window state: "@ + window_state_name_spec(window_state_of(p)) + " | Visible: "@
        + bool_name_spec(p.exists && p.visible) + " | Focused: "@ + bool_name_spec(
        p.exists && p.focused,
    ) + " | Minimized: "@ + bool_name_spec(p.exists && p.minimized)
}

/// The name a window state prints as.
pub fn window_state_name(s: WindowState) -> (r: &'static str)
    ensures
        r@ == window_state_name_spec(s),
{
    match s {
        WindowState::VisibleFocused => "VisibleFocused",
        WindowState::VisibleUnfocused => "VisibleUnfocused",
        WindowState::Minimized => "Minimized",
        WindowState::Hidden => "Hidden",
        WindowState::NotExist => "NotExist",
    }
}

/// The name a flag prints as.
fn bool_name(b: bool) -> (r: &'static str)
    ensures
        r@ == bool_name_spec(b),
{
    if b {
        "true"
    } else {
        "false"
    }
}

/// Single-flight: while an accepted operation is still in progress, the debounce gate
/// blocks every second operation, whatever time has passed; of two calls issued
/// concurrently exactly the first one executes.
pub proof fn lemma_single_flight(g: DebounceGate, now1: u64, now2: u64)
    requires
        gate_allows(g, now1),
    ensures
        !gate_allows(gate_after_begin(now1), now2),
{
}

/// Two show calls issued at the same instant: the first one runs, and the
/// second reports NoAction whether it arrives while the first is still in
/// progress or right after it finished.
pub proof fn lemma_duplicate_show_dropped(
    g: DebounceGate,
    now_ms: u64,
    p: WindowProbe,
    e: ActivationOutcomes,
)
    requires
        gate_allows(g, now_ms),
    ensures
        gated_result(gate_after_begin(now_ms), now_ms, show_effect_spec(p, e))
            == WindowOperationResult::NoAction,
        gated_result(gate_completed_at(now_ms), now_ms, show_effect_spec(p, e))
            == WindowOperationResult::NoAction,
{
}

/// Debounce: a toggle issued less than the debounce interval after a
/// completed operation reports NoAction; issued at or beyond the interval it
/// reports the operation's real outcome.
pub proof fn lemma_toggle_debounce(
    t: u64,
    now_ms: u64,
    p: WindowProbe,
    e: ActivationOutcomes,
    hide_ok: bool,
)
    ensures
        now_ms < t + WINDOW_OPERATION_DEBOUNCE_MS ==> gated_result(
            gate_completed_at(t),
            now_ms,
            toggle_effect_spec(p, e, hide_ok),
        ) == WindowOperationResult::NoAction,
        now_ms >= t + WINDOW_OPERATION_DEBOUNCE_MS ==> gated_result(
            gate_completed_at(t),
            now_ms,
            toggle_effect_spec(p, e, hide_ok),
        ) == toggle_effect_spec(p, e, hide_ok),
{
}

/// Toggling a visible, focused window takes the hide path: on a successful
/// hide call the outcome is Hidden.
pub proof fn lemma_toggle_visible_focused_hides(
    p: WindowProbe,
    e: ActivationOutcomes,
    hide_ok: bool,
)
    requires
        window_state_of(p) == WindowState::VisibleFocused,
    ensures
        toggle_effect_spec(p, e, hide_ok) == hide_spec(p.exists, hide_ok),
        hide_ok ==> toggle_effect_spec(p, e, hide_ok) == WindowOperationResult::Hidden,
{
}

} // verus!
