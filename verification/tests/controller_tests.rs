use tray_hotkey::controller::{drain_plan, ExitOutcome, ExitStep, Phase, TrayController, FALLBACK_EXIT_CODE};
use tray_hotkey::events::{classify_message, event_for_action, pump_stops, Event, PumpAction, HOTKEY_ID, MSG_COLOR_CHANGED, MSG_DPI_CHANGED, MSG_HOTKEY};
use tray_hotkey::icon::{IconAsset, IconParam};

fn running_controller() -> TrayController {
    TrayController::new(IconParam { light_mode: false, scale_centi: 100 }, Some(false))
}

/// One toggle round against a simulated external auto-launch state, as the
/// worker performs it: fresh read, mutation request, mutation, confirmation.
fn toggle_once(controller: &mut TrayController, external: &mut bool) {
    let fresh_read = Some(*external);
    if let Some(target) = controller.toggle_request(fresh_read) {
        *external = target; // the mutation succeeds
        controller.confirm_toggle(target, true);
    }
}

#[test]
fn toggle_twice_returns_to_initial_state() {
    let mut controller = running_controller();
    let initial: bool = false;
    let mut external = initial;

    toggle_once(&mut controller, &mut external);
    assert_eq!(external, !initial);
    assert_eq!(controller.menu_checked, Some(external));

    toggle_once(&mut controller, &mut external);
    assert_eq!(external, initial);
    assert_eq!(controller.menu_checked, Some(external));
}

#[test]
fn failed_read_leaves_display_unchanged() {
    let controller = running_controller();
    assert_eq!(controller.toggle_request(None), None);
    assert_eq!(controller.menu_checked, Some(false));
}

#[test]
fn failed_mutation_leaves_display_unchanged() {
    let mut controller = running_controller();
    let target = controller.toggle_request(Some(false)).unwrap();
    assert_eq!(target, true);
    controller.confirm_toggle(target, false);
    assert_eq!(controller.menu_checked, Some(false));
}

#[test]
fn exit_stops_draining_queued_events() {
    let events = vec![
        Event::AutoLaunch,
        Event::Exit,
        Event::SystemDpiChanged,
        Event::AutoLaunch,
        Event::Exit,
    ];
    let consumed = drain_plan(&events);
    assert_eq!(consumed, vec![Event::AutoLaunch, Event::Exit]);
}

#[test]
fn queue_without_exit_is_drained_whole() {
    let events = vec![Event::SystemColorChanged, Event::AutoLaunch, Event::SystemDpiChanged];
    assert_eq!(drain_plan(&events), events);
    assert!(drain_plan(&Vec::new()).is_empty());
}

#[test]
fn exit_event_destroys_tray_before_signalling_pump() {
    let mut controller = running_controller();
    let steps = controller.handle_exit();
    assert_eq!(steps, vec![ExitStep::DestroyTray, ExitStep::SignalPumpQuit]);
    assert_eq!(controller.phase, Phase::Exiting);
    assert!(!controller.wants_more_events());
}

#[test]
fn successful_quit_signal_ends_cooperatively() {
    let mut controller = running_controller();
    controller.handle_exit();
    assert_eq!(controller.finish_exit(true), ExitOutcome::QuitSignaled);
    assert_eq!(controller.phase, Phase::Terminated);
}

#[test]
fn failed_quit_signal_terminates_process() {
    let mut controller = running_controller();
    controller.handle_exit();
    assert_eq!(controller.finish_exit(false), ExitOutcome::TerminateProcess);
    assert_eq!(controller.phase, Phase::Terminated);
    assert_ne!(FALLBACK_EXIT_CODE, 0);
}

#[test]
fn display_change_swaps_icon_only_when_parameters_differ() {
    let mut controller = running_controller();
    let same = IconParam { light_mode: false, scale_centi: 100 };
    assert_eq!(controller.handle_display_change(same), None);
    assert_eq!(controller.icon, same);

    let fresh = IconParam { light_mode: true, scale_centi: 150 };
    assert_eq!(controller.handle_display_change(fresh), Some(IconAsset::Light24));
    assert_eq!(controller.icon, fresh);
    // the same parameters again are a no-op
    assert_eq!(controller.handle_display_change(fresh), None);
}

#[test]
fn startup_snapshot_decides_menu_item() {
    let with_item = TrayController::new(IconParam::default(), Some(true));
    assert_eq!(with_item.menu_checked, Some(true));
    let without_item = TrayController::new(IconParam::default(), None);
    assert_eq!(without_item.menu_checked, None);
    assert!(with_item.wants_more_events());
}

#[test]
fn hotkey_message_with_registered_id_forwards() {
    assert_eq!(classify_message(MSG_HOTKEY, HOTKEY_ID), PumpAction::ForwardHotkey);
    assert_eq!(classify_message(MSG_HOTKEY, HOTKEY_ID + 1), PumpAction::Dispatch);
}

#[test]
fn notification_messages_become_events() {
    assert_eq!(classify_message(MSG_DPI_CHANGED, 0), PumpAction::NotifyDpiChanged);
    assert_eq!(classify_message(MSG_COLOR_CHANGED, 7), PumpAction::NotifyColorChanged);
    assert_eq!(
        event_for_action(PumpAction::NotifyDpiChanged),
        Some(Event::SystemDpiChanged)
    );
    assert_eq!(
        event_for_action(PumpAction::NotifyColorChanged),
        Some(Event::SystemColorChanged)
    );
    assert_eq!(event_for_action(PumpAction::ForwardHotkey), None);
    assert_eq!(event_for_action(PumpAction::Dispatch), None);
}

#[test]
fn other_messages_go_to_default_dispatch() {
    assert_eq!(classify_message(0x0200, 0), PumpAction::Dispatch);
    assert_eq!(classify_message(0, 0), PumpAction::Dispatch);
}

#[test]
fn pump_stops_on_quit_sentinel_or_error() {
    assert!(pump_stops(0));
    assert!(pump_stops(-1));
    assert!(!pump_stops(1));
    assert!(!pump_stops(42));
}
