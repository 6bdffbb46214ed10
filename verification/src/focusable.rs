//! How a focusable control reacts to one input event: keyboard activation
//! while focused, a left press over it (which focuses it and, for pointer
//! activated controls, presses it), and a right press over it for controls
//! with a context action. Anything else goes on to the wrapped content.

use vstd::prelude::*;

verus! {

/// An input event, as far as a focusable control reads it.
#[derive(Clone, Copy, Debug, PartialEq, Eq, Structural)]
pub enum ControlEvent {
    /// Enter or Space pressed.
    KeyActivate,
    /// The left mouse button pressed.
    LeftPress,
    /// The right mouse button pressed.
    RightPress,
    /// Any other event.
    Other,
}

/// A message a control publishes: its focus claim, its press, or its
/// context action.
#[derive(Clone, Copy, Debug, PartialEq, Eq, Structural)]
pub enum ControlMessage {
    Focus,
    Press,
    Context,
}

/// What the control does with an event: the messages it publishes, in
/// order, whether it captures the event, and whether the wrapped content
/// still sees it.
#[derive(Clone, Debug, PartialEq, Eq)]
pub struct ControlReaction {
    pub published: Vec<ControlMessage>,
    pub captured: bool,
    pub forwarded: bool,
}

/// The reaction of a control to an event (see `control_reaction`), as the
/// published messages in order, the capture flag and the forward flag.
pub open spec fn control_reaction_spec(
    event: ControlEvent,
    focused: bool,
    cursor_over: bool,
    activate_on_pointer: bool,
    has_context_action: bool,
) -> (Seq<ControlMessage>, bool, bool) {
    if focused && event == ControlEvent::KeyActivate {
        (seq![ControlMessage::Focus, ControlMessage::Press], true, false)
    } else if event == ControlEvent::LeftPress && cursor_over {
        if activate_on_pointer {
            (seq![ControlMessage::Focus, ControlMessage::Press], true, false)
        } else {
            (seq![ControlMessage::Focus], false, true)
        }
    } else if event == ControlEvent::RightPress && cursor_over && has_context_action {
        (seq![ControlMessage::Focus, ControlMessage::Context], true, false)
    } else {
        (Seq::empty(), false, true)
    }
}

fn reaction(published: Vec<ControlMessage>, captured: bool) -> (r: ControlReaction)
    ensures
        r.published@ == published@,
        r.captured == captured,
        r.forwarded == !captured,
{
    ControlReaction { published, captured, forwarded: !captured }
}

/// The reaction of a control to an event: Enter or Space on the focused
/// control claims focus and then presses it; a left press over it claims
/// focus, then presses it when the control activates on pointer (else the
/// content gets the press too); a right press over a control with a context
/// action claims focus and then fires that action; every other event goes
/// to the content.
pub fn control_reaction(
    event: ControlEvent,
    focused: bool,
    cursor_over: bool,
    activate_on_pointer: bool,
    has_context_action: bool,
) -> (r: ControlReaction)
    ensures
        (r.published@, r.captured, r.forwarded) == control_reaction_spec(
            event,
            focused,
            cursor_over,
            activate_on_pointer,
            has_context_action,
        ),
{
    let key_activate = match event {
        ControlEvent::KeyActivate => true,
        _ => false,
    };
    let left = match event {
        ControlEvent::LeftPress => true,
        _ => false,
    };
    let right = match event {
        ControlEvent::RightPress => true,
        _ => false,
    };
    let r = if focused && key_activate {
        reaction(vec![ControlMessage::Focus, ControlMessage::Press], true)
    } else if left && cursor_over {
        if activate_on_pointer {
            reaction(vec![ControlMessage::Focus, ControlMessage::Press], true)
        } else {
            reaction(vec![ControlMessage::Focus], false)
        }
    } else if right && cursor_over && has_context_action {
        reaction(vec![ControlMessage::Focus, ControlMessage::Context], true)
    } else {
        reaction(Vec::new(), false)
    };
    proof {
        let spec = control_reaction_spec(event, focused, cursor_over, activate_on_pointer, has_context_action);
        assert(r.published@ =~= spec.0);
    }
    r
}

/// Every event is either captured by the control or passed on to its
/// content, never both; a control presses or fires its context action only
/// on an event it captures, and whatever it publishes starts with its focus
/// claim.
pub proof fn lemma_capture_excludes_forwarding(
    event: ControlEvent,
    focused: bool,
    cursor_over: bool,
    activate_on_pointer: bool,
    has_context_action: bool,
)
    ensures
        ({
            let (published, captured, forwarded) = control_reaction_spec(
                event,
                focused,
                cursor_over,
                activate_on_pointer,
                has_context_action,
            );
            &&& captured != forwarded
            &&& (published.contains(ControlMessage::Press) || published.contains(ControlMessage::Context))
                ==> captured
            &&& published.len() > 0 ==> published[0] == ControlMessage::Focus
        }),
{
    let (published, captured, forwarded) = control_reaction_spec(
        event,
        focused,
        cursor_over,
        activate_on_pointer,
        has_context_action,
    );
    if !captured {
        assert(!published.contains(ControlMessage::Press)) by {
            if published.len() > 0 {
                assert(published =~= seq![ControlMessage::Focus]);
                assert(published[0] != ControlMessage::Press);
            }
        }
        assert(!published.contains(ControlMessage::Context)) by {
            if published.len() > 0 {
                assert(published[0] != ControlMessage::Context);
            }
        }
    }
}

} // verus!
