//! Decisions of the token-styled input controls: the search field's clear
//! affordance and the segmented choice group's keyboard navigation.
//!
//! A segmented group is one focus stop over `(label, value)` choices; the
//! active choice is named by VALUE. Left/Right move to the adjacent choice,
//! wrapping past both ends; Enter/Space re-affirm the active choice; an
//! unknown active value disables both.

use vstd::prelude::*;

verus! {

/// The clear affordance exists only for a query that can be cleared.
pub fn search_shows_clear(value: &str) -> (r: bool)
    ensures
        r == (value@.len() > 0),
{
    !value.is_empty()
}

/// The values of a choice list, in order.
pub open spec fn choice_values(choices: Seq<(String, usize)>) -> Seq<usize> {
    choices.map_values(|c: (String, usize)| c.1)
}

/// `i` is the first position whose value is `active`.
pub open spec fn is_first_position(values: Seq<usize>, active: usize, i: int) -> bool {
    &&& 0 <= i < values.len()
    &&& values[i] == active
    &&& forall|j: int| 0 <= j < i ==> values[j] != active
}

/// The index of the active VALUE, if the state names a real choice.
pub fn segmented_active_index(choices: &[(String, usize)], active: usize) -> (r: Option<usize>)
    ensures
        match r {
            Some(i) => is_first_position(choice_values(choices@), active, i as int),
            None => !choice_values(choices@).contains(active),
        },
{
    let ghost values = choice_values(choices@);
    let mut i: usize = 0;
    while i < choices.len()
        invariant
            i <= choices@.len(),
            values == choice_values(choices@),
            forall|j: int| 0 <= j < i ==> values[j] != active,
        decreases choices@.len() - i,
    {
        if choices[i].1 == active {
            return Some(i);
        }
        i = i + 1;
    }
    None
}

/// The neighbor position of `current` among `len` choices, wrapping.
pub open spec fn neighbor(current: int, len: int, right: bool) -> int {
    if right {
        (current + 1) % len
    } else {
        (current + len - 1) % len
    }
}

/// The index adjacent to the active choice in the `right` direction,
/// wrapping past both ends; `None` when the active value is unknown or the
/// group has no neighbor.
pub fn segmented_neighbor_index(choices: &[(String, usize)], active: usize, right: bool) -> (r: Option<usize>)
    ensures
        match r {
            Some(n) => choices@.len() > 1 && exists|c: int|
                is_first_position(choice_values(choices@), active, c) && n == neighbor(
                    c,
                    choices@.len() as int,
                    right,
                ),
            None => choices@.len() <= 1 || !choice_values(choices@).contains(active),
        },
{
    let current = match segmented_active_index(choices, active) {
        Some(c) => c,
        None => return None,
    };
    let len = choices.len();
    if len <= 1 {
        return None;
    }
    let next = if right {
        if current + 1 == len { 0 } else { current + 1 }
    } else {
        if current == 0 { len - 1 } else { current - 1 }
    };
    proof {
        lemma_neighbor_closed_form(current as int, len as int, right);
    }
    Some(next)
}

/// The wrapping neighbor without modular arithmetic.
proof fn lemma_neighbor_closed_form(current: int, len: int, right: bool)
    requires
        0 <= current < len,
        len > 1,
    ensures
        neighbor(current, len, right) == (if right {
            if current + 1 == len { 0 } else { current + 1 }
        } else {
            if current == 0 { len - 1 } else { current - 1 }
        }),
{
    if right {
        if current + 1 == len {
            assert((current + 1) % len == 0) by (nonlinear_arith)
                requires current + 1 == len, len > 1;
        } else {
            assert((current + 1) % len == current + 1) by (nonlinear_arith)
                requires 0 <= current, current + 1 < len;
        }
    } else {
        if current == 0 {
            assert((current + len - 1) % len == len - 1) by (nonlinear_arith)
                requires current == 0, len > 1;
        } else {
            assert((current + len - 1) % len == current - 1) by (nonlinear_arith)
                requires 0 < current < len;
        }
    }
}

/// Stepping right and then left (or left then right) returns to the start.
pub proof fn lemma_neighbor_round_trip(current: int, len: int, right: bool)
    requires
        0 <= current < len,
        len > 1,
    ensures
        neighbor(neighbor(current, len, right), len, !right) == current,
        0 <= neighbor(current, len, right) < len,
{
    lemma_neighbor_closed_form(current, len, right);
    let n = neighbor(current, len, right);
    lemma_neighbor_closed_form(n, len, !right);
}

/// A named key pressed while the segmented group holds focus.
#[derive(Clone, Copy, Debug, PartialEq, Eq, Structural)]
pub enum SegmentedKey {
    Enter,
    Space,
    ArrowLeft,
    ArrowRight,
    Other,
}

/// A message the focused group publishes: its focus claim, or a choice's
/// value.
#[derive(Clone, Copy, Debug, PartialEq, Eq, Structural)]
pub enum SegmentedMessage {
    Focus,
    Change(usize),
}

/// What the focused group does with a key press: the messages it publishes,
/// in order, and whether it captures the event.
#[derive(Clone, Debug, PartialEq, Eq)]
pub struct SegmentedKeyOutcome {
    pub published: Vec<SegmentedMessage>,
    pub captured: bool,
}

/// The group claims focus, then publishes `value`, and captures the event.
pub open spec fn publishes(r: SegmentedKeyOutcome, value: usize) -> bool {
    &&& r.published@ == seq![SegmentedMessage::Focus, SegmentedMessage::Change(value)]
    &&& r.captured
}

/// The group publishes nothing and leaves the event alone.
pub open spec fn ignores(r: SegmentedKeyOutcome) -> bool {
    &&& r.published@.len() == 0
    &&& !r.captured
}

fn publish_outcome(value: usize) -> (r: SegmentedKeyOutcome)
    ensures
        publishes(r, value),
{
    let published = vec![SegmentedMessage::Focus, SegmentedMessage::Change(value)];
    assert(published@ =~= seq![SegmentedMessage::Focus, SegmentedMessage::Change(value)]);
    SegmentedKeyOutcome { published, captured: true }
}

fn ignore_outcome() -> (r: SegmentedKeyOutcome)
    ensures
        ignores(r),
{
    SegmentedKeyOutcome { published: Vec::new(), captured: false }
}

/// The keyboard decision of a segmented group: Enter/Space on a known active
/// value, or an arrow with a neighbor to move to, claims focus, publishes
/// the value and captures the event; anything else is left alone.
pub fn segmented_key_outcome(
    focused: bool,
    key: SegmentedKey,
    choices: &[(String, usize)],
    active: usize,
) -> (r: SegmentedKeyOutcome)
    ensures
        !focused ==> ignores(r),
        key == SegmentedKey::Other ==> ignores(r),
        focused && (key == SegmentedKey::Enter || key == SegmentedKey::Space) ==> (
            if choice_values(choices@).contains(active) {
                publishes(r, active)
            } else {
                ignores(r)
            }),
        focused && (key == SegmentedKey::ArrowLeft || key == SegmentedKey::ArrowRight) ==> (
            if choices@.len() > 1 && choice_values(choices@).contains(active) {
                exists|c: int|
                    is_first_position(choice_values(choices@), active, c) && publishes(
                        r,
                        choices@[neighbor(c, choices@.len() as int, key == SegmentedKey::ArrowRight)].1,
                    )
            } else {
                ignores(r)
            }),
{
    if !focused {
        return ignore_outcome();
    }
    match key {
        SegmentedKey::Enter | SegmentedKey::Space => {
            match segmented_active_index(choices, active) {
                Some(_) => publish_outcome(active),
                None => ignore_outcome(),
            }
        },
        SegmentedKey::ArrowLeft | SegmentedKey::ArrowRight => {
            let right = match key {
                SegmentedKey::ArrowRight => true,
                _ => false,
            };
            match segmented_neighbor_index(choices, active, right) {
                Some(n) => publish_outcome(choices[n].1),
                None => ignore_outcome(),
            }
        },
        SegmentedKey::Other => ignore_outcome(),
    }
}

/// Which outer corners of one segment round: the first segment's left
/// corners and the last segment's right corners.
pub fn segment_rounded_corners(index: usize, last: usize) -> (r: (bool, bool))
    ensures
        r == (index == 0, index == last),
{
    (index == 0, index == last)
}

} // verus!
