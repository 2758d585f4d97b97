//! The window/tray controller state machine.
//!
//! States run `Initializing` to `Running` to `Terminated`; while
//! running, the window is either presented or parked in the tray, and
//! tray menu events move it between the two.  Every transition adjusts
//! window visibility and the extended style word together, never one
//! without the other.  The platform layer dispatches events here one at
//! a time and performs the returned directive on the real window.

use vstd::prelude::*;
use crate::timer::{duration_text, format_duration, progress_value, CAP_SECONDS};
use crate::window::{
    apply_hidden_ex_style, apply_shown_ex_style, hidden_ex_style, lemma_style_marks,
    lemma_hidden_style_idempotent, lemma_shown_style_idempotent, paint_decision, shown_ex_style,
    PaintDecision, BACKGROUND_COLOR, EX_STYLE_APP_WINDOW, EX_STYLE_LAYERED, EX_STYLE_TOOL_WINDOW,
    EX_STYLE_TRANSPARENT, TEXT_COLOR,
};

verus! {

/// Whether the runner window is presented or parked in the tray.
#[derive(Clone, Copy, PartialEq, Eq, Structural, Debug)]
pub enum Visibility {
    Shown,
    HiddenToTray,
}

/// Lifecycle phase of the controller.
#[derive(Clone, Copy, PartialEq, Eq, Structural, Debug)]
pub enum Phase {
    Initializing,
    Running,
    Terminated,
}

/// A tray menu selection, already correlated to its entry.
#[derive(Clone, Copy, PartialEq, Eq, Structural, Debug)]
pub enum TrayEvent {
    ShowSelected,
    HideSelected,
    QuitSelected,
}

/// What the platform layer must do after a tray event was handled.
#[derive(Clone, Copy, PartialEq, Eq, Structural, Debug)]
pub enum TrayDirective {
    /// Write the new extended style, show the window normally and bring
    /// it to the foreground.
    PresentWindow,
    /// Write the new extended style and hide the window.
    ConcealWindow,
    /// Post the destroy request; the loop observes the destroy message
    /// and ends.
    RequestDestroy,
}

/// The controller's whole window-scoped state: lifecycle phase, the
/// two-valued visibility, the window's extended style word and whether
/// the platform window is currently visible.
#[derive(Clone, Copy, PartialEq, Eq, Structural, Debug)]
pub struct Controller {
    pub phase: Phase,
    pub visibility: Visibility,
    pub ex_style: u32,
    pub window_visible: bool,
}

/// The state after a "Show" transition: presented, visible, tray marks
/// cleared and the app-window bit set.
pub open spec fn spec_show(c: Controller) -> Controller {
    Controller {
        visibility: Visibility::Shown,
        window_visible: true,
        ex_style: shown_ex_style(c.ex_style),
        ..c
    }
}

/// The state after a "Hide" transition: parked in the tray, invisible,
/// tray marks set and the app-window bit cleared.
pub open spec fn spec_hide(c: Controller) -> Controller {
    Controller {
        visibility: Visibility::HiddenToTray,
        window_visible: false,
        ex_style: hidden_ex_style(c.ex_style),
        ..c
    }
}

impl Controller {
    /// Exactly one of presented/parked holds, mirrored by the real
    /// window's visibility; and a running window parked in the tray
    /// always carries the tray style marks and no app-window bit.
    pub open spec fn wf(&self) -> bool {
        &&& (self.visibility is Shown <==> self.window_visible)
        &&& (self.phase is Running && self.visibility is HiddenToTray ==> self.ex_style
            & EX_STYLE_APP_WINDOW == 0 && self.ex_style & EX_STYLE_TOOL_WINDOW != 0
            && self.ex_style & EX_STYLE_TRANSPARENT != 0 && self.ex_style & EX_STYLE_LAYERED != 0)
    }

    /// The state at the start of the startup sequence, before the
    /// window exists: no visibility, default extended style.
    pub fn initialize() -> (c: Controller)
        ensures
            c.wf(),
            c.phase is Initializing,
            c.ex_style == 0,
            !c.window_visible,
    {
        Controller {
            phase: Phase::Initializing,
            visibility: Visibility::HiddenToTray,
            ex_style: 0,
            window_visible: false,
        }
    }

    /// Ends the startup sequence: enters `Running`, parked in the tray
    /// with the tray style marks when `start_minimized`, otherwise
    /// presented with the style word untouched.
    pub fn enter_running(&mut self, start_minimized: bool)
        requires
            old(self).wf(),
            old(self).phase is Initializing,
        ensures
            final(self).wf(),
            final(self).phase is Running,
            start_minimized ==> final(self).visibility is HiddenToTray
                && !final(self).window_visible
                && final(self).ex_style == hidden_ex_style(old(self).ex_style),
            !start_minimized ==> final(self).visibility is Shown && final(self).window_visible
                && final(self).ex_style == old(self).ex_style,
    {
        self.phase = Phase::Running;
        if start_minimized {
            proof {
                lemma_style_marks(self.ex_style);
            }
            self.ex_style = apply_hidden_ex_style(self.ex_style);
            self.visibility = Visibility::HiddenToTray;
            self.window_visible = false;
        } else {
            self.visibility = Visibility::Shown;
            self.window_visible = true;
        }
    }

    /// Reacts to one tray menu selection.  "Show" and "Hide" move the
    /// machine to the presented or parked state whatever it was before;
    /// "Quit" changes nothing and asks the loop to post the destroy
    /// request.
    pub fn handle_tray_event(&mut self, ev: TrayEvent) -> (d: TrayDirective)
        requires
            old(self).wf(),
            old(self).phase is Running,
        ensures
            final(self).wf(),
            final(self).phase is Running,
            (match ev {
                TrayEvent::ShowSelected => *final(self) == spec_show(*old(self)) && d
                    is PresentWindow,
                TrayEvent::HideSelected => *final(self) == spec_hide(*old(self)) && d
                    is ConcealWindow,
                TrayEvent::QuitSelected => *final(self) == *old(self) && d is RequestDestroy,
            }),
    {
        match ev {
            TrayEvent::ShowSelected => {
                self.ex_style = apply_shown_ex_style(self.ex_style);
                self.visibility = Visibility::Shown;
                self.window_visible = true;
                TrayDirective::PresentWindow
            },
            TrayEvent::HideSelected => {
                proof {
                    lemma_style_marks(self.ex_style);
                }
                self.ex_style = apply_hidden_ex_style(self.ex_style);
                self.visibility = Visibility::HiddenToTray;
                self.window_visible = false;
                TrayDirective::ConcealWindow
            },
            TrayEvent::QuitSelected => TrayDirective::RequestDestroy,
        }
    }

    /// Reacts to the destroy message: the terminal state, everything
    /// else untouched.
    pub fn on_destroy(&mut self)
        requires
            old(self).wf(),
        ensures
            final(self).wf(),
            *final(self) == (Controller { phase: Phase::Terminated, ..*old(self) }),
    {
        self.phase = Phase::Terminated;
    }

    /// The values written on one timer tick; no state transition.
    pub fn on_timer_tick(&self, elapsed_secs: u64) -> (u: TickUpdate)
        requires
            self.phase is Running,
        ensures
            u.duration_line@ == duration_text(elapsed_secs as nat),
            u.progress == vstd::math::min(elapsed_secs as int, CAP_SECONDS as int),
    {
        TickUpdate {
            duration_line: format_duration(elapsed_secs),
            progress: progress_value(elapsed_secs),
        }
    }
}

/// The values written into the duration label and the progress
/// indicator on one timer tick.
pub struct TickUpdate {
    pub duration_line: String,
    pub progress: u64,
}

/// A window message the controller reacts to; every other message
/// passes to the platform default.
pub enum WindowMsg {
    /// The window was destroyed.
    Destroy,
    /// The 1-second timer fired; the platform layer supplies the
    /// elapsed seconds since startup.
    TimerTick { elapsed_secs: u64 },
    /// A child control is about to draw and asks for its background;
    /// the platform layer says whether it is the duration label.
    ControlPrePaint { is_duration_label: bool },
}

/// The reaction the platform layer carries out after a message was
/// handled.
pub enum MsgResponse {
    /// End the message loop: quit was reached.
    SignalQuit,
    /// Write the tick values into the duration label and the progress
    /// indicator.
    UpdateTick(TickUpdate),
    /// Answer the background query with these colors and mode.
    Paint(PaintDecision),
}

impl Controller {
    /// Dispatches one window message, exactly as the message procedure
    /// reacts: destroy terminates and signals the loop; a timer tick
    /// refreshes the two timed controls and moves no state; the
    /// pre-paint query picks opaque background for the duration label
    /// and transparent for the rest, always with the fixed text color.
    pub fn handle_window_message(&mut self, msg: WindowMsg) -> (r: MsgResponse)
        requires
            old(self).wf(),
            old(self).phase is Running,
        ensures
            final(self).wf(),
            (match msg {
                WindowMsg::Destroy => *final(self) == (Controller {
                    phase: Phase::Terminated,
                    ..*old(self)
                }) && r is SignalQuit,
                WindowMsg::TimerTick { elapsed_secs } => *final(self) == *old(self) && (
                r matches MsgResponse::UpdateTick(u) && u.duration_line@ == duration_text(
                    elapsed_secs as nat,
                ) && u.progress == vstd::math::min(elapsed_secs as int, CAP_SECONDS as int)),
                WindowMsg::ControlPrePaint { is_duration_label } => *final(self) == *old(self) && (
                r matches MsgResponse::Paint(d) && d.opaque == is_duration_label
                    && d.background_color == BACKGROUND_COLOR && d.text_color == TEXT_COLOR),
            }),
    {
        match msg {
            WindowMsg::Destroy => {
                self.on_destroy();
                MsgResponse::SignalQuit
            },
            WindowMsg::TimerTick { elapsed_secs } => MsgResponse::UpdateTick(
                self.on_timer_tick(elapsed_secs),
            ),
            WindowMsg::ControlPrePaint { is_duration_label } => MsgResponse::Paint(
                paint_decision(is_duration_label),
            ),
        }
    }
}

/// Firing "Show" on a state already produced by "Show" changes nothing:
/// visibility, window state and extended style are left as they are.
pub proof fn lemma_show_transition_idempotent(c: Controller)
    ensures
        spec_show(spec_show(c)) == spec_show(c),
{
    lemma_shown_style_idempotent(c.ex_style);
}

/// Firing "Hide" on a state already produced by "Hide" changes nothing.
pub proof fn lemma_hide_transition_idempotent(c: Controller)
    ensures
        spec_hide(spec_hide(c)) == spec_hide(c),
{
    lemma_hidden_style_idempotent(c.ex_style);
}

/// One entry of the fixed tray menu.
#[derive(Clone, Copy, PartialEq, Eq, Structural, Debug)]
pub enum MenuEntry {
    Show,
    Hide,
    Separator,
    Quit,
}

/// The tray presence built at startup: the tooltip and the fixed
/// four-entry menu whose entries carry the stable identities that
/// incoming selection events are correlated against.
pub struct TrayPlan {
    pub tooltip: String,
    pub entries: Vec<MenuEntry>,
}

/// The tray presence for a resolved title: the title as the tooltip,
/// and the menu Show, Hide, a separator, Quit.
pub fn tray_plan(title: &String) -> (t: TrayPlan)
    ensures
        t.tooltip@ == title@,
        t.entries@ == seq![MenuEntry::Show, MenuEntry::Hide, MenuEntry::Separator, MenuEntry::Quit],
{
    let mut entries: Vec<MenuEntry> = Vec::new();
    entries.push(MenuEntry::Show);
    entries.push(MenuEntry::Hide);
    entries.push(MenuEntry::Separator);
    entries.push(MenuEntry::Quit);
    proof {
        assert(entries@ =~= seq![
            MenuEntry::Show,
            MenuEntry::Hide,
            MenuEntry::Separator,
            MenuEntry::Quit,
        ]);
    }
    TrayPlan { tooltip: title.clone(), entries }
}

/// Correlates an incoming menu event identity with the three active
/// menu entries, quit taking precedence as in the dispatch order.
pub fn match_menu_event(event_id: &String, show_id: &String, hide_id: &String, quit_id: &String) -> (t:
    Option<TrayEvent>)
    ensures
        t == (if event_id@ == quit_id@ {
            Some(TrayEvent::QuitSelected)
        } else if event_id@ == show_id@ {
            Some(TrayEvent::ShowSelected)
        } else if event_id@ == hide_id@ {
            Some(TrayEvent::HideSelected)
        } else {
            None::<TrayEvent>
        }),
{
    if *event_id == *quit_id {
        Some(TrayEvent::QuitSelected)
    } else if *event_id == *show_id {
        Some(TrayEvent::ShowSelected)
    } else if *event_id == *hide_id {
        Some(TrayEvent::HideSelected)
    } else {
        None
    }
}

/// Whether the event loop goes on after the blocking message wait: it
/// ends only on the quit signal (0) or on failure (-1).
pub fn should_continue(get_message_result: i32) -> (c: bool)
    ensures
        c <==> (get_message_result != 0 && get_message_result != -1),
{
    get_message_result != 0 && get_message_result != -1
}

} // verus!
