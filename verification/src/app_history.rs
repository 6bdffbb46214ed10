//! Copy decisions of the durable application-history page: the window pills,
//! the state notice shown until the history is ready, and the per-row
//! provenance and sparkline gates; and the summary lines of the Performance
//! page's history replay.

use vstd::prelude::*;
use crate::perf_history::{finite_only, is_finite_bits, sample_is_finite};
use crate::text::{decimal, decimal_string, push_str, string_of};

verus! {

/// A replay window of the application history.
#[derive(Clone, Copy, Debug, PartialEq, Eq, Structural)]
pub enum HistoryWindow {
    OneHour,
    TwentyFourHours,
    SevenDays,
}

/// Every replay window, in the order the pills render.
pub fn all_history_windows() -> (r: Vec<HistoryWindow>)
    ensures
        r@ == seq![HistoryWindow::OneHour, HistoryWindow::TwentyFourHours, HistoryWindow::SevenDays],
{
    let r = vec![HistoryWindow::OneHour, HistoryWindow::TwentyFourHours, HistoryWindow::SevenDays];
    assert(r@ =~= seq![HistoryWindow::OneHour, HistoryWindow::TwentyFourHours, HistoryWindow::SevenDays]);
    r
}

/// The catalog key of a window pill's label.
pub open spec fn history_window_key_spec(window: HistoryWindow) -> Seq<char> {
    match window {
        HistoryWindow::OneHour => "perf.replay.window.1h"@,
        HistoryWindow::TwentyFourHours => "perf.replay.window.24h"@,
        HistoryWindow::SevenDays => "perf.replay.window.7d"@,
    }
}

/// The catalog key of a window pill's label.
pub fn history_window_key(window: HistoryWindow) -> (r: &'static str)
    ensures
        r@ == history_window_key_spec(window),
{
    match window {
        HistoryWindow::OneHour => "perf.replay.window.1h",
        HistoryWindow::TwentyFourHours => "perf.replay.window.24h",
        HistoryWindow::SevenDays => "perf.replay.window.7d",
    }
}

/// The variant name of a window, as focus ids spell it.
pub open spec fn history_window_name_spec(window: HistoryWindow) -> Seq<char> {
    match window {
        HistoryWindow::OneHour => "OneHour"@,
        HistoryWindow::TwentyFourHours => "TwentyFourHours"@,
        HistoryWindow::SevenDays => "SevenDays"@,
    }
}

/// The variant name of a window, as focus ids spell it.
pub fn history_window_name(window: HistoryWindow) -> (r: &'static str)
    ensures
        r@ == history_window_name_spec(window),
{
    match window {
        HistoryWindow::OneHour => "OneHour",
        HistoryWindow::TwentyFourHours => "TwentyFourHours",
        HistoryWindow::SevenDays => "SevenDays",
    }
}

/// Distinct windows have distinct names.
pub proof fn lemma_history_window_name_injective(a: HistoryWindow, b: HistoryWindow)
    requires
        history_window_name_spec(a) == history_window_name_spec(b),
    ensures
        a == b,
{
    reveal_strlit("OneHour");
    reveal_strlit("TwentyFourHours");
    reveal_strlit("SevenDays");
    assert(history_window_name_spec(a).len() == history_window_name_spec(b).len());
    match a {
        HistoryWindow::OneHour => assert(history_window_name_spec(a).len() == 7),
        HistoryWindow::TwentyFourHours => assert(history_window_name_spec(a).len() == 15),
        HistoryWindow::SevenDays => assert(history_window_name_spec(a).len() == 9),
    }
}

/// Where the application-history feed stands.
#[derive(Clone, Copy, Debug, PartialEq, Eq, Structural)]
pub enum ApplicationHistoryStatus {
    Disabled,
    Unavailable,
    Connecting,
    Collecting,
    Ready,
}

/// The catalog keys of the state notice: a heading and, unless the history
/// is ready, a detail line.
pub open spec fn history_state_keys_spec(status: ApplicationHistoryStatus) -> (Seq<char>, Option<Seq<char>>) {
    match status {
        ApplicationHistoryStatus::Disabled => (
            "history.application.disabled"@,
            Some("history.application.disabled_detail"@),
        ),
        ApplicationHistoryStatus::Unavailable => (
            "history.application.unavailable"@,
            Some("history.application.unavailable_detail"@),
        ),
        ApplicationHistoryStatus::Connecting => (
            "history.application.connecting"@,
            Some("history.application.connecting_detail"@),
        ),
        ApplicationHistoryStatus::Collecting => (
            "history.application.collecting"@,
            Some("history.application.collecting_detail"@),
        ),
        ApplicationHistoryStatus::Ready => ("history.application.title"@, None),
    }
}

/// The catalog keys of the state notice: the heading key and the detail key
/// (`None` when the history is ready, whose detail is empty).
pub fn history_state_copy(status: ApplicationHistoryStatus) -> (r: (&'static str, Option<&'static str>))
    ensures
        r.0@ == history_state_keys_spec(status).0,
        r.1 is Some <==> history_state_keys_spec(status).1 is Some,
        r.1 is Some ==> r.1->Some_0@ == history_state_keys_spec(status).1->Some_0,
{
    match status {
        ApplicationHistoryStatus::Disabled => (
            "history.application.disabled",
            Some("history.application.disabled_detail"),
        ),
        ApplicationHistoryStatus::Unavailable => (
            "history.application.unavailable",
            Some("history.application.unavailable_detail"),
        ),
        ApplicationHistoryStatus::Connecting => (
            "history.application.connecting",
            Some("history.application.connecting_detail"),
        ),
        ApplicationHistoryStatus::Collecting => (
            "history.application.collecting",
            Some("history.application.collecting_detail"),
        ),
        ApplicationHistoryStatus::Ready => ("history.application.title", None),
    }
}

/// Whether the page renders the history table (only once the feed is ready;
/// every other status renders the state notice).
pub fn history_shows_table(status: ApplicationHistoryStatus) -> (r: bool)
    ensures
        r <==> status == ApplicationHistoryStatus::Ready,
{
    match status {
        ApplicationHistoryStatus::Ready => true,
        _ => false,
    }
}

/// The notice's detail line: the translated detail, followed by the stable
/// code of the unavailability reason in parentheses when there is one.
pub fn history_detail_line(detail: &str, reason_code: Option<&str>) -> (r: String)
    ensures
        reason_code is None ==> r@ == detail@,
        reason_code is Some ==> r@ == detail@ + " ("@ + reason_code->Some_0@ + ")"@,
{
    match reason_code {
        None => string_of(detail),
        Some(code) => {
            let mut line = string_of(detail);
            push_str(&mut line, " (");
            push_str(&mut line, code);
            push_str(&mut line, ")");
            line
        },
    }
}

/// The catalog key of a row's provenance caption.
pub fn history_provenance_key(identity_verified: bool) -> (r: &'static str)
    ensures
        identity_verified ==> r@ == "history.application.verified"@,
        !identity_verified ==> r@ == "history.application.unverified"@,
{
    if identity_verified {
        "history.application.verified"
    } else {
        "history.application.unverified"
    }
}

/// Whether a row's CPU window draws a sparkline: it needs at least two
/// finite samples (samples are `f32` bit patterns); otherwise the cell shows
/// the missing-value dash.
pub fn sparkline_has_line(samples: &[u32]) -> (r: bool)
    ensures
        r <==> finite_only(samples@).len() >= 2,
{
    let mut finite: usize = 0;
    let mut i: usize = 0;
    while i < samples.len()
        invariant
            i <= samples@.len(),
            finite == finite_only(samples@.subrange(0, i as int)).len(),
            finite <= i,
        decreases samples@.len() - i,
    {
        proof {
            let pre = samples@.subrange(0, i as int);
            pre.lemma_filter_push(samples@[i as int], |v: u32| is_finite_bits(v));
            assert(pre.push(samples@[i as int]) =~= samples@.subrange(0, i + 1));
        }
        if sample_is_finite(samples[i]) {
            finite = finite + 1;
        }
        i = i + 1;
    }
    assert(samples@.subrange(0, samples@.len() as int) =~= samples@);
    finite >= 2
}

/// The heading of one replayed series: the metric's slug, then its device
/// and its core index when it has them, each after a middle dot. It does not
/// depend on the language.
pub open spec fn row_heading_spec(slug: Seq<char>, device: Option<Seq<char>>, core: Option<u32>) -> Seq<char> {
    slug + (match device {
        Some(d) => " \u{00B7} "@ + d,
        None => Seq::empty(),
    }) + match core {
        Some(c) => " \u{00B7} core "@ + decimal(c as nat),
        None => Seq::empty(),
    }
}

/// The heading of one replayed series (see `row_heading_spec`).
pub fn row_heading(slug: &str, device: Option<&str>, core: Option<u32>) -> (r: String)
    ensures
        r@ == row_heading_spec(
            slug@,
            match device {
                Some(d) => Some(d@),
                None => None,
            },
            core,
        ),
{
    let mut heading = string_of(slug);
    let ghost base = heading@;
    match device {
        Some(d) => {
            push_str(&mut heading, " \u{00B7} ");
            push_str(&mut heading, d);
        },
        None => {},
    }
    let ghost with_device = heading@;
    match core {
        Some(c) => {
            push_str(&mut heading, " \u{00B7} core ");
            let digits = decimal_string(c as u64);
            push_str(&mut heading, digits.as_str());
        },
        None => {},
    }
    proof {
        let device_part = match device {
            Some(d) => " \u{00B7} "@ + d@,
            None => Seq::<char>::empty(),
        };
        let core_part = match core {
            Some(c) => " \u{00B7} core "@ + decimal(c as nat),
            None => Seq::<char>::empty(),
        };
        assert(with_device =~= base + device_part);
        assert(heading@ =~= with_device + core_part);
    }
    heading
}

/// The coverage line of one replayed series: how many samples were
/// observed and how many gaps the window holds.
pub open spec fn replay_coverage_spec(observed_label: Seq<char>, observed: u64, gaps_label: Seq<char>, gaps: u64) -> Seq<char> {
    observed_label + ": "@ + decimal(observed as nat) + ", "@ + gaps_label + ": "@ + decimal(gaps as nat)
}

/// The coverage line of one replayed series (see `replay_coverage_spec`).
pub fn replay_coverage_line(observed_label: &str, observed: u64, gaps_label: &str, gaps: u64) -> (r: String)
    ensures
        r@ == replay_coverage_spec(observed_label@, observed, gaps_label@, gaps),
{
    let mut line = string_of(observed_label);
    push_str(&mut line, ": ");
    let observed_digits = decimal_string(observed);
    push_str(&mut line, observed_digits.as_str());
    push_str(&mut line, ", ");
    push_str(&mut line, gaps_label);
    push_str(&mut line, ": ");
    let gap_digits = decimal_string(gaps);
    push_str(&mut line, gap_digits.as_str());
    line
}

/// The clock-jump note of one replayed series: the count and the phrase,
/// only when the wall clock jumped inside the window.
pub fn clock_jump_note(clock_jumps: u64, phrase: &str) -> (r: Option<String>)
    ensures
        r is Some <==> clock_jumps > 0,
        r is Some ==> r->Some_0@ == decimal(clock_jumps as nat) + " "@ + phrase@,
{
    if clock_jumps > 0 {
        let mut note = decimal_string(clock_jumps);
        push_str(&mut note, " ");
        push_str(&mut note, phrase);
        Some(note)
    } else {
        None
    }
}

/// The peak reading of one replayed series: the label and the formatted
/// peak, or the missing-value spelling when the window holds no sample.
pub fn replay_peak_text(peak_label: &str, formatted_peak: Option<&str>, missing: &str) -> (r: String)
    ensures
        formatted_peak is Some ==> r@ == peak_label@ + ": "@ + formatted_peak->Some_0@,
        formatted_peak is None ==> r@ == missing@,
{
    match formatted_peak {
        Some(peak) => {
            let mut text = string_of(peak_label);
            push_str(&mut text, ": ");
            push_str(&mut text, peak);
            text
        },
        None => string_of(missing),
    }
}

/// After a failed load, the window whose rows are still on screen, named
/// only when it differs from the selected window.
pub fn last_good_window_note(selected: HistoryWindow, rows_window: Option<HistoryWindow>) -> (r: Option<HistoryWindow>)
    ensures
        r == (match rows_window {
            Some(w) => if w != selected { Some(w) } else { None },
            None => None,
        }),
{
    match rows_window {
        Some(w) => if w != selected { Some(w) } else { None },
        None => None,
    }
}

/// Whether the replay shows its empty notice: loading finished and no
/// series came back.
pub fn replay_shows_empty(loading: bool, row_count: usize) -> (r: bool)
    ensures
        r == (!loading && row_count == 0),
{
    !loading && row_count == 0
}

} // verus!
