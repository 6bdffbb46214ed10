//! The Containers page: which body branch renders for a rollup, the message
//! each non-table branch shows, and the display strings of one container
//! row. A typed unhealthy source and a container-free host never share a
//! branch, and no cell ever shows a made-up zero.

use vstd::prelude::*;
use crate::text::{decimal, decimal_string, replace_all, replace_spec, string_of};

verus! {

/// The state of the container-rollup source.
#[derive(Clone, Copy, Debug, PartialEq, Eq, Structural)]
pub enum DeviceStatus {
    Healthy,
    MissingTool,
    Unsupported,
    PermissionDenied,
    Stale,
}

/// The facts of a rollup the page branches on.
#[derive(Clone, Copy, Debug, PartialEq, Eq, Structural)]
pub struct ContainerRollupFacts {
    pub status: DeviceStatus,
    pub container_count: usize,
}

/// Which branch the page body takes.
#[derive(Clone, Copy, Debug, PartialEq, Eq, Structural)]
pub enum ContainersPageBranch {
    /// No rollup has arrived yet.
    Waiting,
    /// A host without the unified rollup.
    Unsupported,
    /// The rollup source is not readable.
    PermissionDenied,
    /// The rollup source went stale.
    Stale,
    /// A healthy source with no containers.
    Empty,
    /// A healthy source with rows to render.
    Table,
}

/// The page branch of a rollup (see `ContainersPageBranch`); a source with a
/// missing tool is an empty-but-healthy projection.
pub open spec fn page_branch_spec(rollup: Option<ContainerRollupFacts>) -> ContainersPageBranch {
    match rollup {
        None => ContainersPageBranch::Waiting,
        Some(r) => match r.status {
            DeviceStatus::Unsupported => ContainersPageBranch::Unsupported,
            DeviceStatus::PermissionDenied => ContainersPageBranch::PermissionDenied,
            DeviceStatus::Stale => ContainersPageBranch::Stale,
            _ => if r.container_count == 0 {
                ContainersPageBranch::Empty
            } else {
                ContainersPageBranch::Table
            },
        },
    }
}

/// The page branch of the current rollup.
pub fn page_branch(rollup: Option<&ContainerRollupFacts>) -> (r: ContainersPageBranch)
    ensures
        r == page_branch_spec(
            match rollup {
                Some(f) => Some(*f),
                None => None,
            },
        ),
{
    match rollup {
        None => ContainersPageBranch::Waiting,
        Some(r) => match r.status {
            DeviceStatus::Unsupported => ContainersPageBranch::Unsupported,
            DeviceStatus::PermissionDenied => ContainersPageBranch::PermissionDenied,
            DeviceStatus::Stale => ContainersPageBranch::Stale,
            DeviceStatus::Healthy | DeviceStatus::MissingTool => if r.container_count == 0 {
                ContainersPageBranch::Empty
            } else {
                ContainersPageBranch::Table
            },
        },
    }
}

/// The catalog key of the message panel a branch shows (the table shows
/// none).
pub open spec fn branch_message_key_spec(branch: ContainersPageBranch) -> Option<Seq<char>> {
    match branch {
        ContainersPageBranch::Waiting => Some("containers.telemetry_not_collected"@),
        ContainersPageBranch::Unsupported => Some("containers.unsupported"@),
        ContainersPageBranch::PermissionDenied => Some("containers.permission_denied"@),
        ContainersPageBranch::Stale => Some("containers.unavailable"@),
        ContainersPageBranch::Empty => Some("containers.no_containers"@),
        ContainersPageBranch::Table => None,
    }
}

/// The catalog key of the message panel a branch shows.
pub fn branch_message_key(branch: ContainersPageBranch) -> (r: Option<&'static str>)
    ensures
        r is Some <==> branch_message_key_spec(branch) is Some,
        r is Some ==> r->Some_0@ == branch_message_key_spec(branch)->Some_0,
{
    match branch {
        ContainersPageBranch::Waiting => Some("containers.telemetry_not_collected"),
        ContainersPageBranch::Unsupported => Some("containers.unsupported"),
        ContainersPageBranch::PermissionDenied => Some("containers.permission_denied"),
        ContainersPageBranch::Stale => Some("containers.unavailable"),
        ContainersPageBranch::Empty => Some("containers.no_containers"),
        ContainersPageBranch::Table => None,
    }
}

/// The isolation runtime of a container.
#[derive(Clone, Copy, Debug, PartialEq, Eq, Structural)]
pub enum IsolationKind {
    Docker,
    Podman,
    Kubernetes,
    Lxc,
    SystemdNspawn,
    Flatpak,
    Snap,
    Wsl,
    OtherContainer,
}

/// The friendly label of a runtime.
pub open spec fn runtime_label_spec(runtime: Option<IsolationKind>) -> Seq<char> {
    match runtime {
        Some(IsolationKind::Docker) => "Docker"@,
        Some(IsolationKind::Podman) => "Podman"@,
        Some(IsolationKind::Kubernetes) => "Kubernetes"@,
        Some(IsolationKind::Lxc) => "LXC"@,
        Some(IsolationKind::SystemdNspawn) => "nspawn"@,
        Some(IsolationKind::Flatpak) => "Flatpak"@,
        Some(IsolationKind::Snap) => "Snap"@,
        Some(IsolationKind::Wsl) => "WSL"@,
        _ => "Container"@,
    }
}

/// The friendly label of a runtime.
pub fn runtime_label(runtime: Option<IsolationKind>) -> (r: &'static str)
    ensures
        r@ == runtime_label_spec(runtime),
{
    match runtime {
        Some(IsolationKind::Docker) => "Docker",
        Some(IsolationKind::Podman) => "Podman",
        Some(IsolationKind::Kubernetes) => "Kubernetes",
        Some(IsolationKind::Lxc) => "LXC",
        Some(IsolationKind::SystemdNspawn) => "nspawn",
        Some(IsolationKind::Flatpak) => "Flatpak",
        Some(IsolationKind::Snap) => "Snap",
        Some(IsolationKind::Wsl) => "WSL",
        Some(IsolationKind::OtherContainer) | None => "Container",
    }
}

/// One container of the rollup, with its readings already formatted where
/// they are current (`None` where no reading is).
#[derive(Clone, Debug)]
pub struct ContainerFacts {
    pub name: String,
    pub runtime: Option<IsolationKind>,
    pub cpu_text: Option<String>,
    pub memory_text: Option<String>,
    pub member_count: usize,
}

/// The display strings of one container row.
#[derive(Clone, Debug)]
pub struct ContainerRowVm {
    pub name: String,
    pub runtime: String,
    pub cpu: String,
    pub memory: String,
    pub processes: String,
}

/// A formatted reading, or the placeholder.
pub open spec fn reading_or(text: Option<String>, missing: Seq<char>) -> Seq<char> {
    match text {
        Some(t) => t@,
        None => missing,
    }
}

fn reading_text(text: &Option<String>, missing: &str) -> (r: String)
    ensures
        r@ == reading_or(*text, missing@),
{
    match text {
        Some(t) => string_of(t.as_str()),
        None => string_of(missing),
    }
}

/// Fold one container into its row strings: the name; the runtime label, or
/// the placeholder without a runtime; the readings, or the placeholder; the
/// member count, or the placeholder without members.
pub fn container_row_vm(summary: &ContainerFacts, missing: &str) -> (r: ContainerRowVm)
    ensures
        r.name@ == summary.name@,
        r.runtime@ == (match summary.runtime {
            Some(kind) => runtime_label_spec(Some(kind)),
            None => missing@,
        }),
        r.cpu@ == reading_or(summary.cpu_text, missing@),
        r.memory@ == reading_or(summary.memory_text, missing@),
        r.processes@ == (if summary.member_count == 0 {
            missing@
        } else {
            decimal(summary.member_count as nat)
        }),
{
    let runtime = match summary.runtime {
        Some(kind) => string_of(runtime_label(Some(kind))),
        None => string_of(missing),
    };
    let processes = if summary.member_count == 0 {
        string_of(missing)
    } else {
        decimal_string(summary.member_count as u64)
    };
    ContainerRowVm {
        name: string_of(summary.name.as_str()),
        runtime,
        cpu: reading_text(&summary.cpu_text, missing),
        memory: reading_text(&summary.memory_text, missing),
        processes,
    }
}

/// The "+N more" line under a capped table: the caller's template with
/// `{count}` filled.
pub fn more_rows_label(template: &str, hidden: usize) -> (r: String)
    ensures
        r@ == replace_spec(template@, "{count}"@, decimal(hidden as nat)),
{
    proof {
        reveal_strlit("{count}");
    }
    let count = decimal_string(hidden as u64);
    replace_all(template, "{count}", count.as_str())
}

} // verus!
