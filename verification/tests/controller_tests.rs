//! The window/tray controller state machine on concrete event runs.

use quest_passer::controller::{
    match_menu_event, should_continue, tray_plan, Controller, MenuEntry, MsgResponse, Phase,
    TrayDirective, TrayEvent, Visibility, WindowMsg,
};
use quest_passer::window::{
    EX_STYLE_APP_WINDOW, EX_STYLE_LAYERED, EX_STYLE_TOOL_WINDOW, EX_STYLE_TRANSPARENT,
};

fn running_shown() -> Controller {
    let mut c = Controller::initialize();
    c.enter_running(false);
    c
}

#[test]
fn startup_shown_keeps_style_untouched() {
    let c = running_shown();
    assert_eq!(c.phase, Phase::Running);
    assert_eq!(c.visibility, Visibility::Shown);
    assert!(c.window_visible);
    assert_eq!(c.ex_style, 0);
}

#[test]
fn startup_minimized_parks_in_tray() {
    let mut c = Controller::initialize();
    c.enter_running(true);
    assert_eq!(c.visibility, Visibility::HiddenToTray);
    assert!(!c.window_visible);
    assert_eq!(c.ex_style & EX_STYLE_APP_WINDOW, 0);
    assert_ne!(c.ex_style & EX_STYLE_TOOL_WINDOW, 0);
    assert_ne!(c.ex_style & EX_STYLE_TRANSPARENT, 0);
    assert_ne!(c.ex_style & EX_STYLE_LAYERED, 0);
}

#[test]
fn hide_then_show_round_trip() {
    let mut c = running_shown();
    let d = c.handle_tray_event(TrayEvent::HideSelected);
    assert_eq!(d, TrayDirective::ConcealWindow);
    assert_eq!(c.visibility, Visibility::HiddenToTray);
    assert!(!c.window_visible);
    let d = c.handle_tray_event(TrayEvent::ShowSelected);
    assert_eq!(d, TrayDirective::PresentWindow);
    assert_eq!(c.visibility, Visibility::Shown);
    assert!(c.window_visible);
    assert_ne!(c.ex_style & EX_STYLE_APP_WINDOW, 0);
    assert_eq!(c.ex_style & EX_STYLE_TOOL_WINDOW, 0);
}

#[test]
fn show_while_shown_changes_nothing() {
    let mut c = running_shown();
    c.handle_tray_event(TrayEvent::ShowSelected);
    let before = c;
    c.handle_tray_event(TrayEvent::ShowSelected);
    assert_eq!(c, before);
}

#[test]
fn hide_while_hidden_changes_nothing() {
    let mut c = running_shown();
    c.handle_tray_event(TrayEvent::HideSelected);
    let before = c;
    c.handle_tray_event(TrayEvent::HideSelected);
    assert_eq!(c, before);
}

#[test]
fn quit_requests_destroy_and_keeps_state() {
    let mut c = running_shown();
    let before = c;
    let d = c.handle_tray_event(TrayEvent::QuitSelected);
    assert_eq!(d, TrayDirective::RequestDestroy);
    assert_eq!(c, before);
}

#[test]
fn destroy_terminates() {
    let mut c = running_shown();
    c.on_destroy();
    assert_eq!(c.phase, Phase::Terminated);
}

#[test]
fn tick_reports_duration_and_progress() {
    let c = running_shown();
    let u = c.on_timer_tick(61);
    assert_eq!(u.duration_line, "Running: 00:01:01");
    assert_eq!(u.progress, 61);
    let u = c.on_timer_tick(5000);
    assert_eq!(u.progress, 900);
}

#[test]
fn destroy_message_terminates_and_signals_quit() {
    let mut c = running_shown();
    let r = c.handle_window_message(WindowMsg::Destroy);
    assert!(matches!(r, MsgResponse::SignalQuit));
    assert_eq!(c.phase, Phase::Terminated);
}

#[test]
fn timer_message_updates_without_transition() {
    let mut c = running_shown();
    let before = c;
    let r = c.handle_window_message(WindowMsg::TimerTick { elapsed_secs: 3661 });
    match r {
        MsgResponse::UpdateTick(u) => {
            assert_eq!(u.duration_line, "Running: 01:01:01");
            assert_eq!(u.progress, 900);
        }
        _ => panic!("expected a tick update"),
    }
    assert_eq!(c, before);
}

#[test]
fn prepaint_message_picks_background_by_control() {
    let mut c = running_shown();
    let r = c.handle_window_message(WindowMsg::ControlPrePaint { is_duration_label: true });
    match r {
        MsgResponse::Paint(d) => assert!(d.opaque),
        _ => panic!("expected a paint decision"),
    }
    let r = c.handle_window_message(WindowMsg::ControlPrePaint { is_duration_label: false });
    match r {
        MsgResponse::Paint(d) => assert!(!d.opaque),
        _ => panic!("expected a paint decision"),
    }
}

#[test]
fn tray_carries_title_and_four_fixed_entries() {
    let t = tray_plan(&"Star Quest".to_string());
    assert_eq!(t.tooltip, "Star Quest");
    assert_eq!(
        t.entries,
        vec![MenuEntry::Show, MenuEntry::Hide, MenuEntry::Separator, MenuEntry::Quit]
    );
}

#[test]
fn menu_events_correlate_by_identity() {
    let show = "1001".to_string();
    let hide = "1002".to_string();
    let quit = "1003".to_string();
    assert_eq!(match_menu_event(&show, &show, &hide, &quit), Some(TrayEvent::ShowSelected));
    assert_eq!(match_menu_event(&hide, &show, &hide, &quit), Some(TrayEvent::HideSelected));
    assert_eq!(match_menu_event(&quit, &show, &hide, &quit), Some(TrayEvent::QuitSelected));
    assert_eq!(match_menu_event(&"9".to_string(), &show, &hide, &quit), None);
}

#[test]
fn loop_ends_on_quit_or_failure() {
    assert!(!should_continue(0));
    assert!(!should_continue(-1));
    assert!(should_continue(1));
    assert!(should_continue(42));
}
