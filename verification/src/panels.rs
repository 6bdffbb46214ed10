//! Readiness and source-state decisions shared by the device panels: the
//! partial / unavailable source panel, its banner title and retry action,
//! the fan panel's readiness and titles, the core-grid labels, and the
//! captions and hover readings of the device charts.

use vstd::prelude::*;
use crate::text::{decimal, decimal_string, push_str, string_of, trim, trim_spec};

verus! {

/// The tone of a source-state panel.
#[derive(Clone, Copy, Debug, PartialEq, Eq, Structural)]
pub enum PanelState {
    /// Some rows are still served (caution).
    Partial,
    /// The source did not answer (failure).
    Unavailable,
}

/// The panel tone of a merged source failure: a degraded source still serves
/// rows and reads as partial; every other failure as unavailable.
pub fn source_panel_state(degraded: bool) -> (r: PanelState)
    ensures
        degraded ==> r == PanelState::Partial,
        !degraded ==> r == PanelState::Unavailable,
{
    if degraded {
        PanelState::Partial
    } else {
        PanelState::Unavailable
    }
}

/// The catalog key of the source banner's title.
pub fn banner_title_key(degraded: bool) -> (r: &'static str)
    ensures
        degraded ==> r@ == "source.partial_title"@,
        !degraded ==> r@ == "source.unavailable_title"@,
{
    if degraded {
        "source.partial_title"
    } else {
        "source.unavailable_title"
    }
}

/// The source banner's action: a refresh button when the failure can be
/// retried, else the hint that a retry needs a change first.
#[derive(Clone, Copy, Debug, PartialEq, Eq, Structural)]
pub enum SourceNoticeAction {
    Refresh,
    RetryAfterChange,
}

/// The source banner's action for a failure.
pub fn source_notice_action(retryable: bool) -> (r: SourceNoticeAction)
    ensures
        retryable ==> r == SourceNoticeAction::Refresh,
        !retryable ==> r == SourceNoticeAction::RetryAfterChange,
{
    if retryable {
        SourceNoticeAction::Refresh
    } else {
        SourceNoticeAction::RetryAfterChange
    }
}

/// The readiness of a list panel.
#[derive(Clone, Copy, Debug, PartialEq, Eq, Structural)]
pub enum ListState {
    Loading,
    Empty,
    Ready,
}

/// What a sensor reading measures.
#[derive(Clone, Copy, Debug, PartialEq, Eq, Structural)]
pub enum SensorQuantity {
    FanSpeed,
    Temperature,
    Other,
}

/// The fan panel's readiness: loading before any sensor snapshot; empty when
/// the snapshot has no fan channel (an honest "no fan", not a hidden zero);
/// ready otherwise.
pub fn fan_section_state(readings: Option<&[SensorQuantity]>) -> (r: ListState)
    ensures
        readings is None ==> r == ListState::Loading,
        readings is Some && !readings->Some_0@.contains(SensorQuantity::FanSpeed) ==> r == ListState::Empty,
        readings is Some && readings->Some_0@.contains(SensorQuantity::FanSpeed) ==> r == ListState::Ready,
{
    match readings {
        None => ListState::Loading,
        Some(quantities) => {
            let mut i: usize = 0;
            while i < quantities.len()
                invariant
                    readings == Some(quantities),
                    i <= quantities@.len(),
                    forall|j: int| 0 <= j < i ==> quantities@[j] != SensorQuantity::FanSpeed,
                decreases quantities@.len() - i,
            {
                if quantities[i] == SensorQuantity::FanSpeed {
                    assert(quantities@.contains(SensorQuantity::FanSpeed));
                    return ListState::Ready;
                }
                i = i + 1;
            }
            ListState::Empty
        },
    }
}

/// A fan's title: the caller's "Fan" word, followed by an em dash and the
/// trimmed channel label when it has one.
pub fn fan_title(label: &str, fan_word: &str) -> (r: String)
    ensures
        trim_spec(label@).len() == 0 ==> r@ == fan_word@,
        trim_spec(label@).len() > 0 ==> r@ == fan_word@ + " \u{2014} "@ + trim_spec(label@),
{
    let trimmed = trim(label);
    if trimmed.as_str().is_empty() {
        string_of(fan_word)
    } else {
        let mut title = string_of(fan_word);
        push_str(&mut title, " \u{2014} ");
        push_str(&mut title, trimmed.as_str());
        title
    }
}

/// The kind of a logical core on a hybrid CPU.
#[derive(Clone, Copy, Debug, PartialEq, Eq, Structural)]
pub enum CpuType {
    Performance,
    Efficient,
    LowPower,
    Unknown,
}

/// The label of one per-core grid cell: `C`, the core index padded to two
/// digits, and the core kind on a hybrid CPU.
pub open spec fn core_cell_label_spec(index: usize, core_type: Option<CpuType>) -> Seq<char> {
    "C"@ + (if index < 10 {
        "0"@ + decimal(index as nat)
    } else {
        decimal(index as nat)
    }) + match core_type {
        Some(CpuType::Performance) => " (P)"@,
        Some(CpuType::Efficient) => " (E)"@,
        Some(CpuType::LowPower) => " (LP)"@,
        _ => Seq::empty(),
    }
}

/// The label of one per-core grid cell (see `core_cell_label_spec`).
pub fn core_cell_label(index: usize, core_type: Option<CpuType>) -> (r: String)
    ensures
        r@ == core_cell_label_spec(index, core_type),
{
    let mut label = string_of("C");
    if index < 10 {
        push_str(&mut label, "0");
    }
    let digits = decimal_string(index as u64);
    push_str(&mut label, digits.as_str());
    match core_type {
        Some(CpuType::Performance) => push_str(&mut label, " (P)"),
        Some(CpuType::Efficient) => push_str(&mut label, " (E)"),
        Some(CpuType::LowPower) => push_str(&mut label, " (LP)"),
        _ => {},
    }
    proof {
        assert(label@ =~= core_cell_label_spec(index, core_type));
    }
    label
}

/// One part of the core-breakdown badge: the count and the kind, when there
/// are cores of that kind.
pub open spec fn breakdown_part(count: u32, kind: Seq<char>) -> Seq<Seq<char>> {
    if count > 0 {
        seq![decimal(count as nat) + kind]
    } else {
        Seq::empty()
    }
}

/// The parts joined by middle dots.
pub open spec fn join_dots(parts: Seq<Seq<char>>) -> Seq<char>
    decreases parts.len(),
{
    if parts.len() == 0 {
        Seq::empty()
    } else if parts.len() == 1 {
        parts[0]
    } else {
        join_dots(parts.drop_last()) + " \u{00B7} "@ + parts.last()
    }
}

/// The core-breakdown badge of a hybrid CPU: the performance, efficiency and
/// low-power core counts that are not zero, joined by middle dots; nothing
/// when the CPU reports no breakdown.
pub open spec fn core_breakdown_spec(p_cores: u32, e_cores: u32, lp_cores: u32) -> Option<Seq<char>> {
    if p_cores as int + e_cores as int + lp_cores as int > 0 {
        Some(join_dots(breakdown_part(p_cores, " P-Cores"@) + breakdown_part(e_cores, " E-Cores"@) + breakdown_part(
            lp_cores,
            " LP-Cores"@,
        )))
    } else {
        None
    }
}

fn push_part(out: &mut String, parts: Ghost<Seq<Seq<char>>>, any: bool, count: u32, kind: &str) -> (r: (
    Ghost<Seq<Seq<char>>>,
    bool,
))
    requires
        old(out)@ == join_dots(parts@),
        any == (parts@.len() > 0),
    ensures
        r.0@ == parts@ + breakdown_part(count, kind@),
        final(out)@ == join_dots(r.0@),
        r.1 == (r.0@.len() > 0),
{
    if count > 0 {
        if any {
            push_str(out, " \u{00B7} ");
        }
        let digits = decimal_string(count as u64);
        push_str(out, digits.as_str());
        push_str(out, kind);
        let ghost next = parts@ + breakdown_part(count, kind@);
        proof {
            assert(next.drop_last() =~= parts@);
            assert(next.last() == decimal(count as nat) + kind@);
            if parts@.len() == 0 {
                assert(next.len() == 1);
                assert(out@ =~= join_dots(next));
            } else {
                assert(out@ =~= join_dots(next));
            }
        }
        (Ghost(next), true)
    } else {
        proof {
            assert(parts@ + breakdown_part(count, kind@) =~= parts@);
        }
        (Ghost(parts@ + breakdown_part(count, kind@)), any)
    }
}

/// The core-breakdown badge (see `core_breakdown_spec`).
pub fn core_breakdown_label(p_cores: u32, e_cores: u32, lp_cores: u32) -> (r: Option<String>)
    ensures
        r is Some <==> core_breakdown_spec(p_cores, e_cores, lp_cores) is Some,
        r is Some ==> r->Some_0@ == core_breakdown_spec(p_cores, e_cores, lp_cores)->Some_0,
{
    if p_cores == 0 && e_cores == 0 && lp_cores == 0 {
        return None;
    }
    let mut out = String::new();
    let ghost empty: Seq<Seq<char>> = Seq::empty();
    proof {
        assert(out@ =~= join_dots(empty));
    }
    let (parts, any) = push_part(&mut out, Ghost(empty), false, p_cores, " P-Cores");
    let (parts, any) = push_part(&mut out, parts, any, e_cores, " E-Cores");
    let (parts, _) = push_part(&mut out, parts, any, lp_cores, " LP-Cores");
    proof {
        assert(parts@ =~= breakdown_part(p_cores, " P-Cores"@) + breakdown_part(e_cores, " E-Cores"@)
            + breakdown_part(lp_cores, " LP-Cores"@));
    }
    Some(out)
}

/// The caption of a device mini-graph: the metric label alone once the
/// window holds two samples to plot, else the label and the caller's
/// collecting phrase after a middle dot.
pub fn mini_graph_caption(metric_label: &str, sample_count: usize, collecting: &str) -> (r: String)
    ensures
        sample_count >= 2 ==> r@ == metric_label@,
        sample_count < 2 ==> r@ == metric_label@ + " \u{00B7} "@ + collecting@,
{
    let mut caption = string_of(metric_label);
    if sample_count < 2 {
        push_str(&mut caption, " \u{00B7} ");
        push_str(&mut caption, collecting);
    }
    caption
}

/// One reading of the chart's hover pill: the series label, a space, the
/// value text and a percent sign.
pub open spec fn readout_part(label: Seq<char>, value: Seq<char>) -> Seq<char> {
    label + " "@ + value + "%"@
}

/// The chart's hover pill at one sample index: each series that holds a
/// finite value there contributes its reading, the two joined by a middle
/// dot; nothing when neither does.
pub open spec fn readout_spec(
    cpu_label: Seq<char>,
    cpu_value: Option<Seq<char>>,
    memory_label: Seq<char>,
    memory_value: Option<Seq<char>>,
) -> Option<Seq<char>> {
    match (cpu_value, memory_value) {
        (None, None) => None,
        (Some(c), None) => Some(readout_part(cpu_label, c)),
        (None, Some(m)) => Some(readout_part(memory_label, m)),
        (Some(c), Some(m)) => Some(
            readout_part(cpu_label, c) + " \u{00B7} "@ + readout_part(memory_label, m),
        ),
    }
}

fn push_readout(out: &mut String, label: &str, value: &str)
    ensures
        final(out)@ == old(out)@ + readout_part(label@, value@),
{
    push_str(out, label);
    push_str(out, " ");
    push_str(out, value);
    push_str(out, "%");
}

/// The hover pill text (see `readout_spec`). Each value is the series
/// sample at the hovered index, already rounded to whole percent; a series
/// with no finite sample there passes `None`.
pub fn readout_text(
    cpu_label: &str,
    cpu_value: Option<&str>,
    memory_label: &str,
    memory_value: Option<&str>,
) -> (r: Option<String>)
    ensures
        r is Some <==> (cpu_value is Some || memory_value is Some),
        r is Some ==> Some(r->Some_0@) == readout_spec(
            cpu_label@,
            match cpu_value { Some(v) => Some(v@), None => None },
            memory_label@,
            match memory_value { Some(v) => Some(v@), None => None },
        ),
{
    let mut out = String::new();
    let mut any = false;
    proof {
        assert(out@ =~= Seq::<char>::empty());
    }
    match cpu_value {
        Some(v) => {
            push_readout(&mut out, cpu_label, v);
            any = true;
        },
        None => {},
    }
    match memory_value {
        Some(v) => {
            if any {
                push_str(&mut out, " \u{00B7} ");
            }
            push_readout(&mut out, memory_label, v);
            any = true;
        },
        None => {},
    }
    if any {
        Some(out)
    } else {
        None
    }
}

} // verus!
