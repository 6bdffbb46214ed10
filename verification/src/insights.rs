//! Text of the process-insights facets: open-file rows, resource pairs,
//! connection lines, GPU-engine lines, the facet overflow line and the
//! unavailable reasons. No line makes up a number: an unknown value is the
//! caller's placeholder.

use vstd::prelude::*;
use crate::containers::IsolationKind;
use crate::text::{decimal, decimal_string, push_str, string_of};

verus! {

/// Rows a facet renders before its overflow line.
pub const MAX_FACET_ROWS: usize = 8;

/// The overflow line under a facet with more rows than it renders.
pub fn facet_overflow_label(total: usize) -> (r: Option<String>)
    ensures
        total <= MAX_FACET_ROWS ==> r is None,
        total > MAX_FACET_ROWS ==> r is Some && r->Some_0@ == "\u{2026} +"@ + decimal((total - MAX_FACET_ROWS) as nat)
            + " more"@,
{
    if total > MAX_FACET_ROWS {
        let mut line = string_of("\u{2026} +");
        let extra = decimal_string((total - MAX_FACET_ROWS) as u64);
        push_str(&mut line, extra.as_str());
        push_str(&mut line, " more");
        Some(line)
    } else {
        None
    }
}

/// One open descriptor: its number and its resolved target (`None` when the
/// link could not be read).
#[derive(Clone, Debug)]
pub struct OpenFileFacts {
    pub fd: u32,
    pub target: Option<String>,
}

/// One open-file row: `fd N → target`, the unreadable marker standing in for
/// an unresolved target.
pub open spec fn open_file_row_spec(entry: OpenFileFacts, unreadable: Seq<char>) -> Seq<char> {
    "fd "@ + decimal(entry.fd as nat) + " \u{2192} "@ + match entry.target {
        Some(t) => t@,
        None => unreadable,
    }
}

/// One open-file row (see `open_file_row_spec`).
pub fn format_open_file_row(entry: &OpenFileFacts, unreadable: &str) -> (r: String)
    ensures
        r@ == open_file_row_spec(*entry, unreadable@),
{
    let mut row = string_of("fd ");
    let fd = decimal_string(entry.fd as u64);
    push_str(&mut row, fd.as_str());
    push_str(&mut row, " \u{2192} ");
    match &entry.target {
        Some(t) => push_str(&mut row, t.as_str()),
        None => push_str(&mut row, unreadable),
    }
    row
}

/// The open-file rows a facet renders: the first `cap` descriptors, in order.
pub fn open_file_rows(entries: &[OpenFileFacts], cap: usize, unreadable: &str) -> (r: Vec<String>)
    ensures
        r@.len() == (if entries@.len() < cap { entries@.len() } else { cap as nat }),
        forall|i: int| 0 <= i < r@.len() ==> (#[trigger] r@[i])@ == open_file_row_spec(entries@[i], unreadable@),
{
    let n: usize = if entries.len() < cap { entries.len() } else { cap };
    let mut rows: Vec<String> = Vec::new();
    let mut i: usize = 0;
    while i < n
        invariant
            n <= entries@.len(),
            i <= n,
            rows@.len() == i,
            forall|k: int| 0 <= k < i ==> (#[trigger] rows@[k])@ == open_file_row_spec(entries@[k], unreadable@),
        decreases n - i,
    {
        let row = format_open_file_row(&entries[i], unreadable);
        rows.push(row);
        i = i + 1;
    }
    rows
}

/// A resource limit: none, or a formatted value.
#[derive(Clone, Debug)]
pub enum LimitText {
    Unlimited,
    Value(String),
}

/// The text of a limit: `∞` when unlimited.
pub open spec fn limit_text_spec(limit: LimitText) -> Seq<char> {
    match limit {
        LimitText::Unlimited => "\u{221E}"@,
        LimitText::Value(v) => v@,
    }
}

/// A `current / limit` pair: both when both are known; the current value
/// alone without a limit; the placeholder over the limit without a current
/// value; nothing when neither is known.
pub open spec fn resource_pair_spec(current: Option<Seq<char>>, limit: Option<LimitText>, missing: Seq<char>) -> Option<
    Seq<char>,
> {
    match (current, limit) {
        (Some(c), Some(l)) => Some(c + " / "@ + limit_text_spec(l)),
        (Some(c), None) => Some(c),
        (None, Some(l)) => Some(missing + " / "@ + limit_text_spec(l)),
        (None, None) => None,
    }
}

/// A `current / limit` pair (see `resource_pair_spec`).
pub fn format_resource_pair(current: Option<&str>, limit: Option<&LimitText>, missing: &str) -> (r: Option<String>)
    ensures
        r is Some <==> resource_pair_spec(
            match current {
                Some(c) => Some(c@),
                None => None,
            },
            match limit {
                Some(l) => Some(*l),
                None => None,
            },
            missing@,
        ) is Some,
        r is Some ==> r->Some_0@ == resource_pair_spec(
            match current {
                Some(c) => Some(c@),
                None => None,
            },
            match limit {
                Some(l) => Some(*l),
                None => None,
            },
            missing@,
        )->Some_0,
{
    match limit {
        Some(l) => {
            let mut pair = match current {
                Some(c) => string_of(c),
                None => string_of(missing),
            };
            push_str(&mut pair, " / ");
            match l {
                LimitText::Unlimited => push_str(&mut pair, "\u{221E}"),
                LimitText::Value(v) => push_str(&mut pair, v.as_str()),
            }
            Some(pair)
        },
        None => match current {
            Some(c) => Some(string_of(c)),
            None => None,
        },
    }
}

/// The transport of a connection.
#[derive(Clone, Copy, Debug, PartialEq, Eq, Structural)]
pub enum ConnectionTransport {
    Tcp,
    Udp,
}

/// The address family of a connection.
#[derive(Clone, Copy, Debug, PartialEq, Eq, Structural)]
pub enum AddressFamily {
    Ipv4,
    Ipv6,
}

/// The transport name of a connection line: `TCP6` / `UDP6` over IPv6, else
/// the transport's own name.
pub open spec fn transport_name_spec(transport: ConnectionTransport, family: AddressFamily, name: Seq<char>) -> Seq<
    char,
> {
    match (transport, family) {
        (ConnectionTransport::Tcp, AddressFamily::Ipv6) => "TCP6"@,
        (ConnectionTransport::Udp, AddressFamily::Ipv6) => "UDP6"@,
        _ => name,
    }
}

/// One connection line: the family-aware transport name, two spaces, and
/// `local → remote` (neither endpoint is dropped). `transport_name` is the
/// transport's own display name.
pub fn format_connection(
    transport: ConnectionTransport,
    family: AddressFamily,
    transport_name: &str,
    local: &str,
    remote: &str,
) -> (r: String)
    ensures
        r@ == transport_name_spec(transport, family, transport_name@) + "  "@ + local@ + " \u{2192} "@ + remote@,
{
    let mut line = match (transport, family) {
        (ConnectionTransport::Tcp, AddressFamily::Ipv6) => string_of("TCP6"),
        (ConnectionTransport::Udp, AddressFamily::Ipv6) => string_of("UDP6"),
        _ => string_of(transport_name),
    };
    push_str(&mut line, "  ");
    push_str(&mut line, local);
    push_str(&mut line, " \u{2192} ");
    push_str(&mut line, remote);
    line
}

/// One GPU-engine line: the engine's name, its formatted usage, and its
/// cumulative work — the formatted busy time when known, else the cycle
/// count, else the placeholder — separated by two spaces.
pub open spec fn engine_usage_spec(
    name: Seq<char>,
    usage: Option<Seq<char>>,
    busy_time: Option<Seq<char>>,
    cycles: Option<u64>,
    missing: Seq<char>,
) -> Seq<char> {
    name + "  "@ + (match usage {
        Some(u) => u,
        None => missing,
    }) + "  "@ + match busy_time {
        Some(t) => t,
        None => match cycles {
            Some(c) => decimal(c as nat) + " cycles"@,
            None => missing,
        },
    }
}

/// One GPU-engine line (see `engine_usage_spec`).
pub fn format_engine_usage(
    name: &str,
    usage: Option<&str>,
    busy_time: Option<&str>,
    cycles: Option<u64>,
    missing: &str,
) -> (r: String)
    ensures
        r@ == engine_usage_spec(
            name@,
            match usage {
                Some(u) => Some(u@),
                None => None,
            },
            match busy_time {
                Some(t) => Some(t@),
                None => None,
            },
            cycles,
            missing@,
        ),
{
    let mut line = string_of(name);
    push_str(&mut line, "  ");
    match usage {
        Some(u) => push_str(&mut line, u),
        None => push_str(&mut line, missing),
    }
    push_str(&mut line, "  ");
    match busy_time {
        Some(t) => push_str(&mut line, t),
        None => match cycles {
            Some(c) => {
                let digits = decimal_string(c);
                push_str(&mut line, digits.as_str());
                push_str(&mut line, " cycles");
            },
            None => push_str(&mut line, missing),
        },
    }
    line
}

/// Why a facet is unavailable.
#[derive(Clone, Copy, Debug, PartialEq, Eq, Structural)]
pub enum FacetUnavailable {
    /// The provider was denied access.
    ProviderPermissionDenied,
    /// The provider needs elevated privileges.
    ProviderRequiresEscalation,
    /// The provider does not support the facet.
    ProviderUnsupported,
    /// The provider failed otherwise.
    ProviderOther,
    /// The request named a capability the platform lacks.
    SubmissionUnsupportedCapability,
    /// The request could not be submitted otherwise.
    SubmissionOther,
}

/// The message of an unavailable facet: denied access and missing privilege
/// read as a permission denial, an unsupported provider or capability as
/// unsupported, anything else as unavailable.
pub fn facet_unavailable_text(reason: FacetUnavailable) -> (r: &'static str)
    ensures
        (reason == FacetUnavailable::ProviderPermissionDenied || reason == FacetUnavailable::ProviderRequiresEscalation)
            ==> r@ == "permission denied"@,
        (reason == FacetUnavailable::ProviderUnsupported || reason == FacetUnavailable::SubmissionUnsupportedCapability)
            ==> r@ == "unsupported"@,
        (reason == FacetUnavailable::ProviderOther || reason == FacetUnavailable::SubmissionOther) ==> r@
            == "unavailable"@,
{
    match reason {
        FacetUnavailable::ProviderPermissionDenied | FacetUnavailable::ProviderRequiresEscalation => "permission denied",
        FacetUnavailable::ProviderUnsupported | FacetUnavailable::SubmissionUnsupportedCapability => "unsupported",
        FacetUnavailable::ProviderOther | FacetUnavailable::SubmissionOther => "unavailable",
    }
}

/// A facet label: a catalog key to translate, or fixed text.
#[derive(Clone, Copy, Debug)]
pub enum FacetLabel {
    Catalog(&'static str),
    Fixed(&'static str),
}

/// The isolation facet's kind: the runtime's name (`systemd-nspawn` spelled
/// out), or the host-process catalog line for an unisolated process.
pub open spec fn isolation_kind_spec(kind: Option<IsolationKind>) -> (bool, Seq<char>) {
    match kind {
        Some(IsolationKind::Docker) => (false, "Docker"@),
        Some(IsolationKind::Podman) => (false, "Podman"@),
        Some(IsolationKind::Kubernetes) => (false, "Kubernetes"@),
        Some(IsolationKind::Lxc) => (false, "LXC"@),
        Some(IsolationKind::SystemdNspawn) => (false, "systemd-nspawn"@),
        Some(IsolationKind::Flatpak) => (false, "Flatpak"@),
        Some(IsolationKind::Snap) => (false, "Snap"@),
        Some(IsolationKind::Wsl) => (false, "WSL"@),
        Some(IsolationKind::OtherContainer) => (false, "Container"@),
        None => (true, "proc_insights.host_process"@),
    }
}

/// The label view of a facet label: `(true, key)` or `(false, text)`.
pub open spec fn facet_label_view(label: FacetLabel) -> (bool, Seq<char>) {
    match label {
        FacetLabel::Catalog(key) => (true, key@),
        FacetLabel::Fixed(text) => (false, text@),
    }
}

/// The isolation facet's kind (see `isolation_kind_spec`).
pub fn isolation_kind_label(kind: Option<IsolationKind>) -> (r: FacetLabel)
    ensures
        facet_label_view(r) == isolation_kind_spec(kind),
{
    match kind {
        Some(IsolationKind::Docker) => FacetLabel::Fixed("Docker"),
        Some(IsolationKind::Podman) => FacetLabel::Fixed("Podman"),
        Some(IsolationKind::Kubernetes) => FacetLabel::Fixed("Kubernetes"),
        Some(IsolationKind::Lxc) => FacetLabel::Fixed("LXC"),
        Some(IsolationKind::SystemdNspawn) => FacetLabel::Fixed("systemd-nspawn"),
        Some(IsolationKind::Flatpak) => FacetLabel::Fixed("Flatpak"),
        Some(IsolationKind::Snap) => FacetLabel::Fixed("Snap"),
        Some(IsolationKind::Wsl) => FacetLabel::Fixed("WSL"),
        Some(IsolationKind::OtherContainer) => FacetLabel::Fixed("Container"),
        None => FacetLabel::Catalog("proc_insights.host_process"),
    }
}

/// The sandboxed row: `Yes`, `No`, or the unknown catalog line.
pub fn sandboxed_label(sandboxed: Option<bool>) -> (r: FacetLabel)
    ensures
        sandboxed == Some(true) ==> facet_label_view(r) == (false, "Yes"@),
        sandboxed == Some(false) ==> facet_label_view(r) == (false, "No"@),
        sandboxed is None ==> facet_label_view(r) == (true, "proc_insights.unknown"@),
{
    match sandboxed {
        Some(true) => FacetLabel::Fixed("Yes"),
        Some(false) => FacetLabel::Fixed("No"),
        None => FacetLabel::Catalog("proc_insights.unknown"),
    }
}

/// Whether the isolation facet shows a container-id row: only for a known,
/// non-empty id.
pub fn shows_container_id(container_id: Option<&str>) -> (r: bool)
    ensures
        r <==> (container_id is Some && container_id->Some_0@.len() > 0),
{
    match container_id {
        Some(id) => !id.is_empty(),
        None => false,
    }
}

/// The environment facet's heading: the caller's word alone for an empty
/// environment; followed by the entry count; and by the count of entries
/// left out when the provider truncated the list.
pub open spec fn environment_heading_spec(word: Seq<char>, entries: nat, truncated: nat) -> Seq<char> {
    if truncated > 0 {
        word + " \u{00B7} "@ + decimal(entries) + " \u{00B7} +"@ + decimal(truncated)
    } else if entries == 0 {
        word
    } else {
        word + " \u{00B7} "@ + decimal(entries)
    }
}

/// The environment facet's heading (see `environment_heading_spec`).
pub fn environment_heading(word: &str, entries: usize, truncated: usize) -> (r: String)
    ensures
        r@ == environment_heading_spec(word@, entries as nat, truncated as nat),
{
    let mut heading = string_of(word);
    if truncated > 0 || entries > 0 {
        push_str(&mut heading, " \u{00B7} ");
        let count = decimal_string(entries as u64);
        push_str(&mut heading, count.as_str());
        if truncated > 0 {
            push_str(&mut heading, " \u{00B7} +");
            let more = decimal_string(truncated as u64);
            push_str(&mut heading, more.as_str());
        }
    }
    heading
}

} // verus!
