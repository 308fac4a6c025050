use leafshell::window_manager::{
    finish_window_operation, should_handle_window_operation, ActivationOutcomes, DebounceGate,
    WindowManager, WindowOperationResult, WindowProbe, WindowState,
};

fn all_ok() -> ActivationOutcomes {
    ActivationOutcomes { unminimize_ok: true, show_ok: true, focus_ok: true }
}

fn hidden_probe() -> WindowProbe {
    WindowProbe { exists: true, minimized: false, visible: false, focused: false }
}

fn visible_focused_probe() -> WindowProbe {
    WindowProbe { exists: true, minimized: false, visible: true, focused: true }
}

#[test]
fn state_is_derived_from_probe_flags() {
    assert_eq!(
        WindowManager::get_main_window_state(&WindowProbe {
            exists: false,
            minimized: true,
            visible: true,
            focused: true,
        }),
        WindowState::NotExist
    );
    assert_eq!(
        WindowManager::get_main_window_state(&WindowProbe {
            exists: true,
            minimized: true,
            visible: true,
            focused: true,
        }),
        WindowState::Minimized
    );
    assert_eq!(
        WindowManager::get_main_window_state(&hidden_probe()),
        WindowState::Hidden
    );
    assert_eq!(
        WindowManager::get_main_window_state(&visible_focused_probe()),
        WindowState::VisibleFocused
    );
    assert_eq!(
        WindowManager::get_main_window_state(&WindowProbe {
            exists: true,
            minimized: false,
            visible: true,
            focused: false,
        }),
        WindowState::VisibleUnfocused
    );
}

#[test]
fn gate_blocks_while_operation_in_progress() {
    let mut gate = DebounceGate::new();
    assert!(should_handle_window_operation(&mut gate, 1_000));
    // The first operation is still in progress: a concurrent duplicate loses.
    assert!(!should_handle_window_operation(&mut gate, 1_000));
    assert!(!should_handle_window_operation(&mut gate, 99_000));
    finish_window_operation(&mut gate);
    assert!(should_handle_window_operation(&mut gate, 99_000));
}

#[test]
fn gate_enforces_debounce_interval() {
    let mut gate = DebounceGate::new();
    assert!(should_handle_window_operation(&mut gate, 1_000));
    finish_window_operation(&mut gate);
    assert!(!should_handle_window_operation(&mut gate, 1_100));
    assert!(!should_handle_window_operation(&mut gate, 1_499));
    assert!(should_handle_window_operation(&mut gate, 1_500));
}

#[test]
fn concurrent_show_calls_run_exactly_once() {
    let mut gate = DebounceGate::new();
    let first = WindowManager::show_main_window(&mut gate, 5_000, &hidden_probe(), &all_ok());
    let second = WindowManager::show_main_window(&mut gate, 5_000, &hidden_probe(), &all_ok());
    assert_eq!(first, WindowOperationResult::Shown);
    assert_eq!(second, WindowOperationResult::NoAction);
}

#[test]
fn toggle_shortly_after_an_operation_is_dropped() {
    let mut gate = DebounceGate::new();
    let first = WindowManager::show_main_window(&mut gate, 5_000, &hidden_probe(), &all_ok());
    assert_eq!(first, WindowOperationResult::Shown);
    let early =
        WindowManager::toggle_main_window(&mut gate, 5_100, &visible_focused_probe(), &all_ok(), true);
    assert_eq!(early, WindowOperationResult::NoAction);
    let late =
        WindowManager::toggle_main_window(&mut gate, 5_500, &visible_focused_probe(), &all_ok(), true);
    assert_eq!(late, WindowOperationResult::Hidden);
}

#[test]
fn toggle_from_visible_focused_hides() {
    let mut gate = DebounceGate::new();
    let r = WindowManager::toggle_main_window(&mut gate, 0, &visible_focused_probe(), &all_ok(), true);
    assert_eq!(r, WindowOperationResult::Hidden);
}

#[test]
fn toggle_from_minimized_activates() {
    let mut gate = DebounceGate::new();
    let probe = WindowProbe { exists: true, minimized: true, visible: true, focused: false };
    let r = WindowManager::toggle_main_window(&mut gate, 0, &probe, &all_ok(), true);
    assert_eq!(r, WindowOperationResult::Shown);
}

#[test]
fn show_of_missing_window_fails() {
    let mut gate = DebounceGate::new();
    let probe = WindowProbe { exists: false, minimized: false, visible: false, focused: false };
    let r = WindowManager::show_main_window(&mut gate, 0, &probe, &all_ok());
    assert_eq!(r, WindowOperationResult::Failed);
}

#[test]
fn show_of_focused_window_needs_no_action() {
    let mut gate = DebounceGate::new();
    let r = WindowManager::show_main_window(&mut gate, 0, &visible_focused_probe(), &all_ok());
    assert_eq!(r, WindowOperationResult::NoAction);
}

#[test]
fn failed_substep_makes_activation_fail() {
    let mut gate = DebounceGate::new();
    let outcomes = ActivationOutcomes { unminimize_ok: true, show_ok: true, focus_ok: false };
    let r = WindowManager::show_main_window(&mut gate, 0, &hidden_probe(), &outcomes);
    assert_eq!(r, WindowOperationResult::Failed);
}

#[test]
fn unminimize_failure_only_matters_when_minimized() {
    let outcomes = ActivationOutcomes { unminimize_ok: false, show_ok: true, focus_ok: true };
    assert_eq!(
        WindowManager::activate_window(false, &outcomes),
        WindowOperationResult::Shown
    );
    assert_eq!(
        WindowManager::activate_window(true, &outcomes),
        WindowOperationResult::Failed
    );
}

#[test]
fn failed_operation_does_not_wedge_the_gate() {
    let mut gate = DebounceGate::new();
    let probe = WindowProbe { exists: false, minimized: false, visible: false, focused: false };
    let r = WindowManager::show_main_window(&mut gate, 1_000, &probe, &all_ok());
    assert_eq!(r, WindowOperationResult::Failed);
    // The in-progress flag was released on the failure path: the next
    // operation past the interval goes through.
    let r2 = WindowManager::show_main_window(&mut gate, 1_500, &hidden_probe(), &all_ok());
    assert_eq!(r2, WindowOperationResult::Shown);
}

#[test]
fn destroy_is_unconditional_but_needs_a_window() {
    let mut gate = DebounceGate::new();
    assert_eq!(
        WindowManager::destroy_main_window(&mut gate, 0, true),
        WindowOperationResult::Destroyed
    );
    let mut gate2 = DebounceGate::new();
    assert_eq!(
        WindowManager::destroy_main_window(&mut gate2, 0, false),
        WindowOperationResult::Failed
    );
}

#[test]
fn close_request_always_suppresses_the_close() {
    let mut gate = DebounceGate::new();
    let (result, suppress) = WindowManager::close_request_intercept(&mut gate, 0, true, true);
    assert!(suppress);
    assert_eq!(result, WindowOperationResult::Hidden);
    // Even a dropped or failed hide still suppresses the close.
    let (result2, suppress2) = WindowManager::close_request_intercept(&mut gate, 100, true, true);
    assert!(suppress2);
    assert_eq!(result2, WindowOperationResult::NoAction);
}

#[test]
fn probe_flag_queries_require_an_existing_window() {
    let missing = WindowProbe { exists: false, minimized: true, visible: true, focused: true };
    assert!(!WindowManager::is_main_window_visible(&missing));
    assert!(!WindowManager::is_main_window_focused(&missing));
    assert!(!WindowManager::is_main_window_minimized(&missing));
    let probe = visible_focused_probe();
    assert!(WindowManager::is_main_window_visible(&probe));
    assert!(WindowManager::is_main_window_focused(&probe));
    assert!(!WindowManager::is_main_window_minimized(&probe));
}

#[test]
fn status_info_describes_the_probe() {
    assert_eq!(
        WindowManager::get_window_status_info(&visible_focused_probe()),
        "Window state: VisibleFocused | Visible: true | Focused: true | Minimized: false"
    );
    let missing = WindowProbe { exists: false, minimized: false, visible: false, focused: false };
    assert_eq!(
        WindowManager::get_window_status_info(&missing),
        "Window state: NotExist | Visible: false | Focused: false | Minimized: false"
    );
}
