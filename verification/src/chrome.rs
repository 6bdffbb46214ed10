//! The window chrome's decisions: which body renders, which tab reads as
//! active, the footer status line and its tone, and the footer's paused and
//! active-alert pills.

use vstd::prelude::*;
use crate::focus::AppPage;
use crate::text::{decimal, decimal_string, push_str, replace_first, replace_first_spec, string_of};

verus! {

/// What the window body renders.
#[derive(Clone, Copy, Debug, PartialEq, Eq, Structural)]
pub enum ViewBody {
    /// The warm-up notice while the first telemetry frame is collected.
    Warmup,
    /// The frontend-local alerts page.
    Alerts,
    /// One of the shared pages.
    Page(AppPage),
}

/// The body: the warm-up notice while collecting, else the alerts page when
/// it is open, else the current page.
pub fn view_body(collecting: bool, alerts_open: bool, page: AppPage) -> (r: ViewBody)
    ensures
        collecting ==> r == ViewBody::Warmup,
        !collecting && alerts_open ==> r == ViewBody::Alerts,
        !collecting && !alerts_open ==> r == ViewBody::Page(page),
{
    if collecting {
        ViewBody::Warmup
    } else if alerts_open {
        ViewBody::Alerts
    } else {
        ViewBody::Page(page)
    }
}

/// Whether a page tab reads as active: it is the current page and the alerts
/// route is not open (only one route reads as active at a time).
pub fn page_tab_active(tab: AppPage, current: AppPage, alerts_open: bool) -> (r: bool)
    ensures
        r <==> (tab == current && !alerts_open),
{
    tab == current && !alerts_open
}

/// The footer status line: the quitting notice once a quit was requested,
/// otherwise the shell's live status text. Both lines are the caller's.
pub fn footer_status(should_quit: bool, quitting: &str, feedback: &str) -> (r: String)
    ensures
        should_quit ==> r@ == quitting@,
        !should_quit ==> r@ == feedback@,
{
    if should_quit {
        string_of(quitting)
    } else {
        string_of(feedback)
    }
}

/// The severity of a feedback notice.
#[derive(Clone, Copy, Debug, PartialEq, Eq, Structural)]
pub enum FeedbackSeverity {
    Info,
    Success,
    Warning,
    Error,
}

/// A palette tone of the chrome.
#[derive(Clone, Copy, Debug, PartialEq, Eq, Structural)]
pub enum Tone {
    Foreground,
    Success,
    Warning,
    Danger,
    Accent,
}

/// The footer status tone: warning while quitting; else the tone of the
/// feedback notice's severity; else the plain foreground.
pub open spec fn footer_tone_spec(should_quit: bool, notice: Option<FeedbackSeverity>) -> Tone {
    if should_quit {
        Tone::Warning
    } else {
        match notice {
            Some(FeedbackSeverity::Info) => Tone::Foreground,
            Some(FeedbackSeverity::Success) => Tone::Success,
            Some(FeedbackSeverity::Warning) => Tone::Warning,
            Some(FeedbackSeverity::Error) => Tone::Danger,
            None => Tone::Foreground,
        }
    }
}

/// The footer status tone (see `footer_tone_spec`).
pub fn footer_tone(should_quit: bool, notice: Option<FeedbackSeverity>) -> (r: Tone)
    ensures
        r == footer_tone_spec(should_quit, notice),
{
    if should_quit {
        Tone::Warning
    } else {
        match notice {
            Some(FeedbackSeverity::Info) => Tone::Foreground,
            Some(FeedbackSeverity::Success) => Tone::Success,
            Some(FeedbackSeverity::Warning) => Tone::Warning,
            Some(FeedbackSeverity::Error) => Tone::Danger,
            None => Tone::Foreground,
        }
    }
}

/// The severity of an active alert.
#[derive(Clone, Copy, Debug, PartialEq, Eq, Structural)]
pub enum AlertSeverity {
    Info,
    Warning,
    Critical,
}

/// How bad a severity is: info, then warning, then critical.
pub open spec fn severity_rank(severity: AlertSeverity) -> int {
    match severity {
        AlertSeverity::Info => 0,
        AlertSeverity::Warning => 1,
        AlertSeverity::Critical => 2,
    }
}

fn rank(severity: AlertSeverity) -> (r: u8)
    ensures
        r as int == severity_rank(severity),
{
    match severity {
        AlertSeverity::Info => 0,
        AlertSeverity::Warning => 1,
        AlertSeverity::Critical => 2,
    }
}

/// The worst severity among the active alerts (`None` when none is active).
pub fn worst_severity(active: &[AlertSeverity]) -> (r: Option<AlertSeverity>)
    ensures
        r is None <==> active@.len() == 0,
        r is Some ==> active@.contains(r->Some_0),
        r is Some ==> forall|i: int| 0 <= i < active@.len() ==> severity_rank(#[trigger] active@[i]) <= severity_rank(
            r->Some_0,
        ),
{
    if active.len() == 0 {
        return None;
    }
    let mut worst = active[0];
    let mut i: usize = 1;
    while i < active.len()
        invariant
            1 <= i <= active@.len(),
            active@.contains(worst),
            forall|j: int| 0 <= j < i ==> severity_rank(#[trigger] active@[j]) <= severity_rank(worst),
        decreases active@.len() - i,
    {
        if rank(active[i]) > rank(worst) {
            worst = active[i];
        }
        i = i + 1;
    }
    Some(worst)
}

/// The badge tone of the footer alert pill: critical is danger, warning is
/// warning, info is accent.
pub fn alert_badge_tone(severity: AlertSeverity) -> (r: Tone)
    ensures
        severity == AlertSeverity::Critical ==> r == Tone::Danger,
        severity == AlertSeverity::Warning ==> r == Tone::Warning,
        severity == AlertSeverity::Info ==> r == Tone::Accent,
{
    match severity {
        AlertSeverity::Critical => Tone::Danger,
        AlertSeverity::Warning => Tone::Warning,
        AlertSeverity::Info => Tone::Accent,
    }
}

/// The footer alert pill's label: none without active alerts, else the
/// caller's template with its first `{}` replaced by the active count.
pub fn alert_pill_label(template: &str, active_count: usize) -> (r: Option<String>)
    ensures
        active_count == 0 ==> r is None,
        active_count > 0 ==> r is Some && r->Some_0@ == replace_first_spec(template@, "{}"@, decimal(active_count as nat)),
{
    if active_count == 0 {
        None
    } else {
        proof {
            reveal_strlit("{}");
        }
        let count = decimal_string(active_count as u64);
        Some(replace_first(template, "{}", count.as_str()))
    }
}

/// The footer paused pill's label: the pause sign and the caller's word while
/// refresh is paused, nothing otherwise.
pub fn paused_label(paused: bool, word: &str) -> (r: Option<String>)
    ensures
        !paused ==> r is None,
        paused ==> r is Some && r->Some_0@ == "\u{23F8} "@ + word@,
{
    if paused {
        let mut label = string_of("\u{23F8} ");
        push_str(&mut label, word);
        Some(label)
    } else {
        None
    }
}

} // verus!
