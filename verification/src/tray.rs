//! System-tray intents: the native menu's stable action ids, the menu the
//! tray shows, and what each tray event asks of the application.

use vstd::prelude::*;

verus! {

/// A native tray menu action id.
pub type TrayActionId = u32;

/// Restore and foreground the main window.
pub const TRAY_ACTION_SHOW: TrayActionId = 1;
/// Toggle the telemetry refresh pause.
pub const TRAY_ACTION_PAUSE: TrayActionId = 2;
/// Quit the application.
pub const TRAY_ACTION_QUIT: TrayActionId = 3;

/// Frontend intent behind a tray activation.
#[derive(Clone, Copy, Debug, PartialEq, Eq, Structural)]
pub enum TrayIntent {
    /// Restore and foreground the main window.
    ShowWindow,
    /// Toggle the shared telemetry refresh policy.
    TogglePause,
    /// Close the process and release the singleton/tray resources.
    Quit,
}

/// The intent of a native action id.
pub open spec fn tray_intent_spec(id: TrayActionId) -> Option<TrayIntent> {
    if id == TRAY_ACTION_SHOW {
        Some(TrayIntent::ShowWindow)
    } else if id == TRAY_ACTION_PAUSE {
        Some(TrayIntent::TogglePause)
    } else if id == TRAY_ACTION_QUIT {
        Some(TrayIntent::Quit)
    } else {
        None
    }
}

/// Map a native action id to an intent; unknown ids have none.
pub fn resolve_tray_action(id: TrayActionId) -> (r: Option<TrayIntent>)
    ensures
        r == tray_intent_spec(id),
{
    if id == TRAY_ACTION_SHOW {
        Some(TrayIntent::ShowWindow)
    } else if id == TRAY_ACTION_PAUSE {
        Some(TrayIntent::TogglePause)
    } else if id == TRAY_ACTION_QUIT {
        Some(TrayIntent::Quit)
    } else {
        None
    }
}

/// One entry of the tray menu; labels are catalog keys.
#[derive(Clone, Copy, Debug)]
pub enum TrayMenuEntry {
    Action { id: TrayActionId, label_key: &'static str, enabled: bool },
    Checkmark { id: TrayActionId, label_key: &'static str, checked: bool, enabled: bool },
    Separator,
}

/// The tray menu: show window, the pause checkmark (checked while paused),
/// a separator, quit.
pub fn tray_menu_entries(paused: bool) -> (r: Vec<TrayMenuEntry>)
    ensures
        r@.len() == 4,
        r@[0] matches TrayMenuEntry::Action { id, label_key, enabled }
            && id == TRAY_ACTION_SHOW && label_key@ == "tray.show_window"@ && enabled,
        r@[1] matches TrayMenuEntry::Checkmark { id, label_key, checked, enabled }
            && id == TRAY_ACTION_PAUSE && label_key@ == "tray.pause_refresh"@ && checked == paused && enabled,
        r@[2] matches TrayMenuEntry::Separator,
        r@[3] matches TrayMenuEntry::Action { id, label_key, enabled }
            && id == TRAY_ACTION_QUIT && label_key@ == "tray.quit"@ && enabled,
{
    let mut v: Vec<TrayMenuEntry> = Vec::new();
    v.push(TrayMenuEntry::Action { id: TRAY_ACTION_SHOW, label_key: "tray.show_window", enabled: true });
    v.push(TrayMenuEntry::Checkmark { id: TRAY_ACTION_PAUSE, label_key: "tray.pause_refresh", checked: paused, enabled: true });
    v.push(TrayMenuEntry::Separator);
    v.push(TrayMenuEntry::Action { id: TRAY_ACTION_QUIT, label_key: "tray.quit", enabled: true });
    v
}

/// An event from the native tray.
#[derive(Clone, Copy, Debug, PartialEq, Eq, Structural)]
pub enum TrayEvent {
    IconActivated,
    IconDoubleClicked,
    MenuActivated { id: TrayActionId },
}

/// What one tray event asks of the application.
#[derive(Clone, Copy, Debug, PartialEq, Eq, Structural)]
pub enum TrayEffect {
    /// Restore and foreground the window.
    Activate,
    /// Toggle the refresh pause and re-sync the checkmark.
    TogglePause,
    /// Request a quit.
    Quit,
    /// Nothing (an unknown menu id).
    Nothing,
}

/// The effect of one tray event.
pub open spec fn tray_effect_spec(event: TrayEvent) -> TrayEffect {
    match event {
        TrayEvent::IconActivated | TrayEvent::IconDoubleClicked => TrayEffect::Activate,
        TrayEvent::MenuActivated { id } => match tray_intent_spec(id) {
            Some(TrayIntent::ShowWindow) => TrayEffect::Activate,
            Some(TrayIntent::TogglePause) => TrayEffect::TogglePause,
            Some(TrayIntent::Quit) => TrayEffect::Quit,
            None => TrayEffect::Nothing,
        },
    }
}

/// What one tray event asks of the application.
pub fn tray_event_effect(event: TrayEvent) -> (r: TrayEffect)
    ensures
        r == tray_effect_spec(event),
{
    match event {
        TrayEvent::IconActivated | TrayEvent::IconDoubleClicked => TrayEffect::Activate,
        TrayEvent::MenuActivated { id } => match resolve_tray_action(id) {
            Some(TrayIntent::ShowWindow) => TrayEffect::Activate,
            Some(TrayIntent::TogglePause) => TrayEffect::TogglePause,
            Some(TrayIntent::Quit) => TrayEffect::Quit,
            None => TrayEffect::Nothing,
        },
    }
}

/// Whether a drained batch of events asks to restore the window.
pub fn tray_events_activate(events: &[TrayEvent]) -> (r: bool)
    ensures
        r == exists|i: int| 0 <= i < events@.len() && tray_effect_spec(#[trigger] events@[i]) == TrayEffect::Activate,
{
    let mut activate = false;
    let mut i: usize = 0;
    while i < events.len()
        invariant
            i <= events@.len(),
            activate == exists|j: int| 0 <= j < i && tray_effect_spec(#[trigger] events@[j]) == TrayEffect::Activate,
        decreases events@.len() - i,
    {
        if tray_event_effect(events[i]) == TrayEffect::Activate {
            activate = true;
        }
        i = i + 1;
    }
    activate
}

/// The native menu's ids resolve to distinct intents, and each intent is
/// reached from exactly one id.
pub proof fn lemma_tray_ids_round_trip(id: TrayActionId)
    ensures
        tray_intent_spec(TRAY_ACTION_SHOW) == Some(TrayIntent::ShowWindow),
        tray_intent_spec(TRAY_ACTION_PAUSE) == Some(TrayIntent::TogglePause),
        tray_intent_spec(TRAY_ACTION_QUIT) == Some(TrayIntent::Quit),
        tray_intent_spec(id) is Some ==> (id == TRAY_ACTION_SHOW || id == TRAY_ACTION_PAUSE || id == TRAY_ACTION_QUIT),
{
}

} // verus!
