//! First-run optional-setup dialog: the view state machine and the decisions
//! its renderer makes (which status line, which failure line, which actions).
//!
//! The dialog's authority is an observation of the setup script; the state is
//! a pure fold over typed events. Dismissal has no side effects: phase,
//! descriptor and retry memory survive it.

use vstd::prelude::*;
use crate::focus::{focus_id_spec, lemma_first_run_ids_distinct, FocusTarget};
use crate::text::decimal;

verus! {

/// A typed failure of a setup-script request.
#[derive(Clone, Copy, Debug, PartialEq, Eq, Structural)]
pub enum FailureKind {
    Unsupported,
    PermissionDenied,
    RequiresEscalation,
    MissingDependency,
    TimedOut,
    IdentityChanged,
    TemporarilyUnavailable,
    Rejected,
    ProviderFault,
}

/// A setup-script request.
#[derive(Clone, Copy, Debug, PartialEq, Eq, Structural)]
pub enum SetupScriptAction {
    Observe,
    View,
    Run,
    Revert,
    Restart,
}

/// The observed setup-script descriptor, as displayable strings.
#[derive(Clone, Debug)]
pub struct SetupScriptInfo {
    pub path: String,
    pub run_command: String,
    pub revert_command: String,
}

/// Dialog phases.
#[derive(Clone, Copy, Debug, PartialEq, Eq, Structural)]
pub enum FirstRunPhase {
    Hidden,
    Discovering,
    Available,
    Running,
    Reverting,
    RestartRequired,
    Restarting,
    Failed(FailureKind),
}

impl Default for FirstRunPhase {
    fn default() -> (r: Self)
        ensures
            r == FirstRunPhase::Hidden,
    {
        FirstRunPhase::Hidden
    }
}

/// Frontend-local first-run view state.
#[derive(Clone, Debug)]
pub struct FirstRunUiState {
    pub phase: FirstRunPhase,
    pub info: Option<SetupScriptInfo>,
    pub last_action: Option<SetupScriptAction>,
}

impl Default for FirstRunUiState {
    fn default() -> (r: Self)
        ensures
            r.phase == FirstRunPhase::Hidden,
            r.info is None,
            r.last_action is None,
    {
        FirstRunUiState { phase: FirstRunPhase::Hidden, info: None, last_action: None }
    }
}

/// Typed events folded into [`FirstRunUiState`].
#[derive(Clone, Debug)]
pub enum FirstRunEvent {
    /// The boot observation answered; `Some` shows the dialog.
    ObservationCompleted(Option<SetupScriptInfo>),
    /// A typed action was accepted for submission.
    ActionSubmitted(SetupScriptAction),
    /// A submitted action completed.
    ActionCompleted(SetupScriptAction),
    /// A submitted action (or the observation) failed with a typed kind.
    ActionFailed { action: SetupScriptAction, kind: FailureKind },
    /// The dialog was dismissed.
    Dismissed,
}

/// Visibility transition reported by [`FirstRunUiState::reduce`].
#[derive(Clone, Copy, Debug, PartialEq, Eq, Structural)]
pub enum FirstRunTransition {
    Unchanged,
    Shown,
    Hidden,
}

impl Default for FirstRunTransition {
    fn default() -> (r: Self)
        ensures
            r == FirstRunTransition::Unchanged,
    {
        FirstRunTransition::Unchanged
    }
}

/// The dialog's typed button intents.
#[derive(Clone, Copy, Debug, PartialEq, Eq, Structural)]
pub enum FirstRunMessage {
    Close,
    RequestAction(SetupScriptAction),
    OpenWiki,
}

/// The phase a submitted action moves to.
pub open spec fn submitted_phase(action: SetupScriptAction) -> FirstRunPhase {
    match action {
        SetupScriptAction::Run => FirstRunPhase::Running,
        SetupScriptAction::Revert => FirstRunPhase::Reverting,
        SetupScriptAction::Restart => FirstRunPhase::Restarting,
        SetupScriptAction::Observe => FirstRunPhase::Discovering,
        SetupScriptAction::View => FirstRunPhase::Available,
    }
}

/// The phase a completed action moves to.
pub open spec fn completed_phase(action: SetupScriptAction) -> FirstRunPhase {
    match action {
        SetupScriptAction::Run => FirstRunPhase::RestartRequired,
        SetupScriptAction::Revert | SetupScriptAction::View | SetupScriptAction::Observe => {
            FirstRunPhase::Available
        },
        SetupScriptAction::Restart => FirstRunPhase::Restarting,
    }
}

/// Whether a phase puts the dialog on screen.
pub open spec fn phase_visible(phase: FirstRunPhase) -> bool {
    phase != FirstRunPhase::Hidden
}

/// Whether a phase has a request in flight.
pub open spec fn phase_pending(phase: FirstRunPhase) -> bool {
    phase == FirstRunPhase::Running || phase == FirstRunPhase::Reverting
        || phase == FirstRunPhase::Restarting
}

/// The state and transition one event produces.
pub open spec fn reduce_spec(state: FirstRunUiState, event: FirstRunEvent) -> (FirstRunUiState, FirstRunTransition) {
    match event {
        FirstRunEvent::ObservationCompleted(info) => {
            let available = info is Some;
            (
                FirstRunUiState {
                    phase: if available { FirstRunPhase::Available } else { FirstRunPhase::Hidden },
                    info: info,
                    last_action: state.last_action,
                },
                if available { FirstRunTransition::Shown } else { FirstRunTransition::Hidden },
            )
        },
        FirstRunEvent::ActionSubmitted(action) => (
            FirstRunUiState { phase: submitted_phase(action), info: state.info, last_action: Some(action) },
            FirstRunTransition::Shown,
        ),
        FirstRunEvent::ActionCompleted(action) => (
            FirstRunUiState { phase: completed_phase(action), info: state.info, last_action: state.last_action },
            FirstRunTransition::Shown,
        ),
        FirstRunEvent::ActionFailed { action, kind } => {
            if action == SetupScriptAction::Observe {
                (
                    FirstRunUiState { phase: FirstRunPhase::Hidden, info: state.info, last_action: state.last_action },
                    FirstRunTransition::Hidden,
                )
            } else {
                (
                    FirstRunUiState { phase: FirstRunPhase::Failed(kind), info: state.info, last_action: state.last_action },
                    FirstRunTransition::Shown,
                )
            }
        },
        FirstRunEvent::Dismissed => (state, FirstRunTransition::Unchanged),
    }
}

impl FirstRunUiState {
    /// Whether the dialog is on screen.
    pub fn visible(&self) -> (r: bool)
        ensures
            r == phase_visible(self.phase),
    {
        match self.phase {
            FirstRunPhase::Hidden => false,
            _ => true,
        }
    }

    /// Whether the action row must be disabled (a request is in flight).
    pub fn action_pending(&self) -> (r: bool)
        ensures
            r == phase_pending(self.phase),
    {
        match self.phase {
            FirstRunPhase::Running | FirstRunPhase::Reverting | FirstRunPhase::Restarting => true,
            _ => false,
        }
    }

    /// Fold one typed event into the state and report the visibility change.
    pub fn reduce(&mut self, event: FirstRunEvent) -> (transition: FirstRunTransition)
        ensures
            (*final(self), transition) == reduce_spec(*old(self), event),
    {
        match event {
            FirstRunEvent::ObservationCompleted(info) => {
                let available = info.is_some();
                self.info = info;
                self.phase = if available { FirstRunPhase::Available } else { FirstRunPhase::Hidden };
                if available {
                    FirstRunTransition::Shown
                } else {
                    FirstRunTransition::Hidden
                }
            },
            FirstRunEvent::ActionSubmitted(action) => {
                self.last_action = Some(action);
                self.phase = match action {
                    SetupScriptAction::Run => FirstRunPhase::Running,
                    SetupScriptAction::Revert => FirstRunPhase::Reverting,
                    SetupScriptAction::Restart => FirstRunPhase::Restarting,
                    SetupScriptAction::Observe => FirstRunPhase::Discovering,
                    SetupScriptAction::View => FirstRunPhase::Available,
                };
                FirstRunTransition::Shown
            },
            FirstRunEvent::ActionCompleted(action) => {
                self.phase = match action {
                    SetupScriptAction::Run => FirstRunPhase::RestartRequired,
                    SetupScriptAction::Revert | SetupScriptAction::View | SetupScriptAction::Observe => {
                        FirstRunPhase::Available
                    },
                    SetupScriptAction::Restart => FirstRunPhase::Restarting,
                };
                FirstRunTransition::Shown
            },
            FirstRunEvent::ActionFailed { action, kind } => {
                match action {
                    SetupScriptAction::Observe => {
                        self.phase = FirstRunPhase::Hidden;
                        FirstRunTransition::Hidden
                    },
                    _ => {
                        self.phase = FirstRunPhase::Failed(kind);
                        FirstRunTransition::Shown
                    },
                }
            },
            FirstRunEvent::Dismissed => FirstRunTransition::Unchanged,
        }
    }
}

/// The reported transition always agrees with the resulting visibility: a
/// `Shown` report leaves the dialog on screen, a `Hidden` report leaves it
/// off screen, and an `Unchanged` report leaves the state exactly as it was.
pub proof fn lemma_transition_matches_visibility(state: FirstRunUiState, event: FirstRunEvent)
    ensures
        ({
            let (next, transition) = reduce_spec(state, event);
            &&& transition == FirstRunTransition::Shown ==> phase_visible(next.phase)
            &&& transition == FirstRunTransition::Hidden ==> !phase_visible(next.phase)
            &&& transition == FirstRunTransition::Unchanged ==> next == state
        }),
{
}

/// Submitting a run, revert or restart puts a request in flight, and a failed
/// observation always hides the dialog.
pub proof fn lemma_submission_is_pending(state: FirstRunUiState, action: SetupScriptAction, kind: FailureKind)
    ensures
        action != SetupScriptAction::Observe && action != SetupScriptAction::View ==> phase_pending(
            reduce_spec(state, FirstRunEvent::ActionSubmitted(action)).0.phase,
        ),
        !phase_visible(
            reduce_spec(state, FirstRunEvent::ActionFailed { action: SetupScriptAction::Observe, kind }).0.phase,
        ),
{
}

/// Completing an action never leaves a request in flight for it: after a
/// completed run the dialog asks for a restart, after a completed revert,
/// view or observation it offers its actions again, and the descriptor and
/// retry memory are kept. Submitting and then completing the same action
/// (other than a restart) therefore ends with nothing in flight. A
/// submission itself moves a run to running, a revert to reverting, an
/// observation to discovering, and leaves a view on the available actions.
pub proof fn lemma_completion_clears_the_request(state: FirstRunUiState, action: SetupScriptAction)
    requires
        action != SetupScriptAction::Restart,
    ensures
        ({
            let (next, transition) = reduce_spec(state, FirstRunEvent::ActionCompleted(action));
            &&& next.phase != FirstRunPhase::Running
            &&& next.phase != FirstRunPhase::Reverting
            &&& next.phase != FirstRunPhase::Restarting
            &&& action == SetupScriptAction::Run ==> next.phase == FirstRunPhase::RestartRequired
            &&& action != SetupScriptAction::Run ==> next.phase == FirstRunPhase::Available
            &&& next.info == state.info
            &&& next.last_action == state.last_action
            &&& transition == FirstRunTransition::Shown
        }),
        ({
            let submitted = reduce_spec(state, FirstRunEvent::ActionSubmitted(action)).0;
            let done = reduce_spec(submitted, FirstRunEvent::ActionCompleted(action)).0;
            &&& done.phase != FirstRunPhase::Running
            &&& done.phase != FirstRunPhase::Reverting
            &&& done.phase != FirstRunPhase::Restarting
            &&& done.last_action == Some(action)
        }),
        ({
            let submitted = reduce_spec(state, FirstRunEvent::ActionSubmitted(action)).0.phase;
            &&& action == SetupScriptAction::Run ==> submitted == FirstRunPhase::Running
            &&& action == SetupScriptAction::Revert ==> submitted == FirstRunPhase::Reverting
            &&& action == SetupScriptAction::Observe ==> submitted == FirstRunPhase::Discovering
            &&& action == SetupScriptAction::View ==> submitted == FirstRunPhase::Available
        }),
{
}

/// The catalog key of the in-flight status line of a phase, if it has one.
pub open spec fn phase_status_key_spec(phase: FirstRunPhase) -> Option<Seq<char>> {
    match phase {
        FirstRunPhase::Running => Some("first_run.running"@),
        FirstRunPhase::Reverting => Some("first_run.reverting"@),
        FirstRunPhase::Restarting => Some("first_run.restarting"@),
        FirstRunPhase::RestartRequired => Some("first_run.restart_required"@),
        _ => None,
    }
}

/// The catalog key of the status line a phase shows, if any.
pub fn phase_status_key(phase: FirstRunPhase) -> (r: Option<&'static str>)
    ensures
        match r {
            Some(k) => phase_status_key_spec(phase) == Some(k@),
            None => phase_status_key_spec(phase) is None,
        },
{
    match phase {
        FirstRunPhase::Running => Some("first_run.running"),
        FirstRunPhase::Reverting => Some("first_run.reverting"),
        FirstRunPhase::Restarting => Some("first_run.restarting"),
        FirstRunPhase::RestartRequired => Some("first_run.restart_required"),
        _ => None,
    }
}

/// The catalog key of the failure line of a failure kind.
pub open spec fn failure_key_spec(kind: FailureKind) -> Seq<char> {
    match kind {
        FailureKind::Unsupported => "first_run.failure_unsupported"@,
        FailureKind::PermissionDenied | FailureKind::RequiresEscalation => "first_run.failure_permission"@,
        FailureKind::MissingDependency => "first_run.failure_missing_dependency"@,
        FailureKind::TimedOut => "first_run.failure_timeout"@,
        FailureKind::IdentityChanged => "first_run.failure_identity"@,
        FailureKind::TemporarilyUnavailable => "first_run.failure_unavailable"@,
        FailureKind::Rejected => "first_run.failure_rejected"@,
        FailureKind::ProviderFault => "first_run.failure_provider"@,
    }
}

/// The catalog key of the failure line a failure kind shows.
pub fn failure_key(kind: FailureKind) -> (r: &'static str)
    ensures
        r@ == failure_key_spec(kind),
{
    match kind {
        FailureKind::Unsupported => "first_run.failure_unsupported",
        FailureKind::PermissionDenied | FailureKind::RequiresEscalation => "first_run.failure_permission",
        FailureKind::MissingDependency => "first_run.failure_missing_dependency",
        FailureKind::TimedOut => "first_run.failure_timeout",
        FailureKind::IdentityChanged => "first_run.failure_identity",
        FailureKind::TemporarilyUnavailable => "first_run.failure_unavailable",
        FailureKind::Rejected => "first_run.failure_rejected",
        FailureKind::ProviderFault => "first_run.failure_provider",
    }
}

/// The focus stop of one descriptor row's copy button.
pub fn copy_slot(row: u8) -> (r: FocusTarget)
    ensures
        r == FocusTarget::FirstRunCopy(row),
{
    FocusTarget::FirstRunCopy(row)
}

/// The focus stop of one action button.
pub fn action_slot(index: u8) -> (r: FocusTarget)
    ensures
        r == FocusTarget::FirstRunAction(index),
{
    FocusTarget::FirstRunAction(index)
}

/// The dialog's focus slots: an action slot's id is `iced-first-run-action-`
/// and its index, it never meets a copy slot's id, and distinct action
/// slots have distinct ids.
pub proof fn lemma_first_run_slot_ids(i: u8, j: u8)
    ensures
        focus_id_spec(FocusTarget::FirstRunAction(i)) == "iced-first-run-action-"@ + decimal(i as nat),
        focus_id_spec(FocusTarget::FirstRunAction(i)) != focus_id_spec(FocusTarget::FirstRunCopy(j)),
        i != j ==> focus_id_spec(FocusTarget::FirstRunAction(i)) != focus_id_spec(FocusTarget::FirstRunAction(j)),
{
    lemma_first_run_ids_distinct(FocusTarget::FirstRunAction(i), FocusTarget::FirstRunCopy(j));
    if i != j {
        lemma_first_run_ids_distinct(FocusTarget::FirstRunAction(i), FocusTarget::FirstRunAction(j));
    }
}

/// One button of the action row: its focus slot, its catalog label key and
/// the intent it publishes.
#[derive(Clone, Copy, Debug)]
pub struct FirstRunAction {
    pub slot: u8,
    pub label_key: &'static str,
    pub message: FirstRunMessage,
}

/// The action row of the dialog.
#[derive(Clone, Debug)]
pub enum FirstRunActionRow {
    /// A request is in flight: the labels render as inert text.
    Inert(Vec<&'static str>),
    /// The live buttons, in order.
    Buttons(Vec<FirstRunAction>),
}

/// The labels of the always-present actions, in order.
pub open spec fn base_action_keys() -> Seq<Seq<char>> {
    seq!["first_run.open_wiki"@, "first_run.view_script"@, "first_run.run_setup"@, "first_run.revert_setup"@]
}

/// The action a retry button re-submits: the last run or revert, after a failure.
pub open spec fn retry_action(state: FirstRunUiState) -> Option<SetupScriptAction> {
    if state.phase is Failed {
        match state.last_action {
            Some(SetupScriptAction::Run) => Some(SetupScriptAction::Run),
            Some(SetupScriptAction::Revert) => Some(SetupScriptAction::Revert),
            _ => None,
        }
    } else {
        None
    }
}

/// The intents and slots of the live action row.
pub open spec fn action_row_spec(state: FirstRunUiState) -> Seq<(u8, Seq<char>, FirstRunMessage)> {
    let base = seq![
        (0u8, "first_run.open_wiki"@, FirstRunMessage::OpenWiki),
        (1u8, "first_run.view_script"@, FirstRunMessage::RequestAction(SetupScriptAction::View)),
        (2u8, "first_run.run_setup"@, FirstRunMessage::RequestAction(SetupScriptAction::Run)),
        (3u8, "first_run.revert_setup"@, FirstRunMessage::RequestAction(SetupScriptAction::Revert)),
    ];
    let with_restart = if state.phase == FirstRunPhase::RestartRequired {
        base.push((4u8, "first_run.restart"@, FirstRunMessage::RequestAction(SetupScriptAction::Restart)))
    } else {
        base
    };
    match retry_action(state) {
        Some(a) => with_restart.push((5u8, "first_run.retry"@, FirstRunMessage::RequestAction(a))),
        None => with_restart,
    }
}

/// The view of one action button.
pub open spec fn action_view(a: FirstRunAction) -> (u8, Seq<char>, FirstRunMessage) {
    (a.slot, a.label_key@, a.message)
}

fn push_action(row: &mut Vec<FirstRunAction>, slot: u8, label_key: &'static str, message: FirstRunMessage)
    ensures
        final(row)@.len() == old(row)@.len() + 1,
        forall|i: int| 0 <= i < old(row)@.len() ==> final(row)@[i] == old(row)@[i],
        action_view(final(row)@[old(row)@.len() as int]) == (slot, label_key@, message),
{
    row.push(FirstRunAction { slot, label_key, message });
}

/// Decide the action row: inert labels while a request is in flight;
/// otherwise wiki / view / run / revert, a restart button when a restart is
/// required, and a retry button after a failed run or revert.
pub fn action_row(state: &FirstRunUiState) -> (r: FirstRunActionRow)
    ensures
        phase_pending(state.phase) ==> (r matches FirstRunActionRow::Inert(labels)
            && labels@.map_values(|k: &'static str| k@) == base_action_keys()),
        !phase_pending(state.phase) ==> (r matches FirstRunActionRow::Buttons(buttons)
            && buttons@.map_values(|a: FirstRunAction| action_view(a)) == action_row_spec(*state)),
{
    if state.action_pending() {
        let labels = vec!["first_run.open_wiki", "first_run.view_script", "first_run.run_setup", "first_run.revert_setup"];
        assert(labels@.map_values(|k: &'static str| k@) =~= base_action_keys());
        return FirstRunActionRow::Inert(labels);
    }
    let mut row: Vec<FirstRunAction> = Vec::new();
    push_action(&mut row, 0, "first_run.open_wiki", FirstRunMessage::OpenWiki);
    push_action(&mut row, 1, "first_run.view_script", FirstRunMessage::RequestAction(SetupScriptAction::View));
    push_action(&mut row, 2, "first_run.run_setup", FirstRunMessage::RequestAction(SetupScriptAction::Run));
    push_action(&mut row, 3, "first_run.revert_setup", FirstRunMessage::RequestAction(SetupScriptAction::Revert));
    if state.phase == FirstRunPhase::RestartRequired {
        push_action(&mut row, 4, "first_run.restart", FirstRunMessage::RequestAction(SetupScriptAction::Restart));
    }
    let failed = match state.phase {
        FirstRunPhase::Failed(_) => true,
        _ => false,
    };
    if failed {
        match state.last_action {
            Some(SetupScriptAction::Run) => {
                push_action(&mut row, 5, "first_run.retry", FirstRunMessage::RequestAction(SetupScriptAction::Run));
            },
            Some(SetupScriptAction::Revert) => {
                push_action(&mut row, 5, "first_run.retry", FirstRunMessage::RequestAction(SetupScriptAction::Revert));
            },
            _ => {},
        }
    }
    assert(row@.map_values(|a: FirstRunAction| action_view(a)) =~= action_row_spec(*state));
    FirstRunActionRow::Buttons(row)
}

} // verus!
