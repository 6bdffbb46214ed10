//! Directory-usage scan targeting for the Performance Disk device.
//!
//! The Disk-device action toggles a bounded scan: an active scan of this
//! disk's own tree is cancelled; otherwise a scan of the disk's first mounted
//! partition (or its own mount point, or `/` when neither is known) starts.
//! A snapshot belongs to a disk when its root lies below one of the disk's
//! mount points.

use vstd::prelude::*;
use crate::text::{chars_of, decimal, decimal_string, push_str, string_of};

verus! {

/// The mount facts of one disk: its own mount point and its partitions'
/// mount points (an empty string means "not mounted").
#[derive(Clone, Debug)]
pub struct DiskMounts {
    pub mount_point: String,
    pub partition_mount_points: Vec<String>,
}

/// A scan's lifecycle status.
#[derive(Clone, Copy, Debug, PartialEq, Eq, Structural)]
pub enum DirectoryScanStatus {
    Scanning,
    Completed,
    Cancelled,
    Failed,
}

/// The latest directory-usage snapshot, as far as targeting reads it.
#[derive(Clone, Debug)]
pub struct DirectoryUsageSnapshot {
    pub scan_id: u64,
    pub root: String,
    pub status: DirectoryScanStatus,
}

/// The typed request the Disk-device action submits.
#[derive(Clone, Debug)]
pub enum DirectoryUsageRequest {
    /// Cancel the active scan with this id.
    Cancel(u64),
    /// Start a bounded scan of this root.
    StartScan(String),
}

/// Whether `prefix` is a prefix of `s`.
pub open spec fn has_prefix(s: Seq<char>, prefix: Seq<char>) -> bool {
    prefix.len() <= s.len() && s.subrange(0, prefix.len() as int) == prefix
}

/// Whether a mount point owns a scan root: the root mount owns every
/// absolute path; another mount owns itself and the paths below it.
pub open spec fn mount_owns_root_spec(mount_point: Seq<char>, root: Seq<char>) -> bool {
    if mount_point == "/"@ {
        root.len() > 0 && root[0] == '/'
    } else {
        root == mount_point || (has_prefix(root, mount_point) && root.len() > mount_point.len()
            && root[mount_point.len() as int] == '/')
    }
}

fn starts_with(s: &Vec<char>, prefix: &Vec<char>) -> (r: bool)
    ensures
        r == has_prefix(s@, prefix@),
{
    if prefix.len() > s.len() {
        return false;
    }
    let mut i: usize = 0;
    while i < prefix.len()
        invariant
            prefix@.len() <= s@.len(),
            i <= prefix@.len(),
            forall|j: int| 0 <= j < i ==> s@[j] == prefix@[j],
        decreases prefix@.len() - i,
    {
        if s[i] != prefix[i] {
            assert(s@.subrange(0, prefix@.len() as int)[i as int] != prefix@[i as int]);
            return false;
        }
        i = i + 1;
    }
    assert(s@.subrange(0, prefix@.len() as int) =~= prefix@);
    true
}

fn vec_eq(a: &Vec<char>, b: &Vec<char>) -> (r: bool)
    ensures
        r == (a@ == b@),
{
    if a.len() != b.len() {
        return false;
    }
    let r = starts_with(a, b);
    proof {
        if r {
            assert(a@.subrange(0, b@.len() as int) =~= a@);
        } else if a@ == b@ {
            assert(a@.subrange(0, b@.len() as int) =~= b@);
        }
    }
    r
}

/// Whether one mount point owns the snapshot root.
pub fn mount_owns_root(mount_point: &str, root: &str) -> (r: bool)
    ensures
        r == mount_owns_root_spec(mount_point@, root@),
{
    let m = chars_of(mount_point);
    let r = chars_of(root);
    if crate::text::str_eq(mount_point, "/") {
        return r.len() > 0 && r[0] == '/';
    }
    vec_eq(&r, &m) || (starts_with(&r, &m) && r.len() > m.len() && r[m.len()] == '/')
}

/// Whether a snapshot's root is this disk's own tree: one of its mounted
/// partitions, or the disk-level mount point when it is mounted.
pub open spec fn targets_disk_spec(root: Seq<char>, disk: DiskMounts) -> bool {
    (exists|i: int| 0 <= i < disk.partition_mount_points@.len()
        && disk.partition_mount_points@[i]@.len() > 0
        && mount_owns_root_spec(disk.partition_mount_points@[i]@, root))
    || (disk.mount_point@.len() > 0 && mount_owns_root_spec(disk.mount_point@, root))
}

/// Whether the snapshot's scan root is this disk's own tree.
pub fn snapshot_targets_disk(snapshot: &DirectoryUsageSnapshot, disk: &DiskMounts) -> (r: bool)
    ensures
        r == targets_disk_spec(snapshot.root@, *disk),
{
    let parts = &disk.partition_mount_points;
    let mut i: usize = 0;
    while i < parts.len()
        invariant
            i <= parts@.len(),
            parts == &disk.partition_mount_points,
            forall|j: int| 0 <= j < i ==> !(parts@[j]@.len() > 0 && mount_owns_root_spec(
                parts@[j]@,
                snapshot.root@,
            )),
        decreases parts@.len() - i,
    {
        let m = parts[i].as_str();
        if !m.is_empty() && mount_owns_root(m, snapshot.root.as_str()) {
            return true;
        }
        i = i + 1;
    }
    let own = disk.mount_point.as_str();
    !own.is_empty() && mount_owns_root(own, snapshot.root.as_str())
}

/// Whether the disk reports any mount to scan.
pub open spec fn has_reported_mount_spec(disk: DiskMounts) -> bool {
    (exists|i: int| 0 <= i < disk.partition_mount_points@.len()
        && disk.partition_mount_points@[i]@.len() > 0) || disk.mount_point@.len() > 0
}

/// Whether the disk has any reported mount to scan.
pub fn has_reported_mount(disk: &DiskMounts) -> (r: bool)
    ensures
        r == has_reported_mount_spec(*disk),
{
    let parts = &disk.partition_mount_points;
    let mut i: usize = 0;
    while i < parts.len()
        invariant
            i <= parts@.len(),
            parts == &disk.partition_mount_points,
            forall|j: int| 0 <= j < i ==> parts@[j]@.len() == 0,
        decreases parts@.len() - i,
    {
        if !parts[i].as_str().is_empty() {
            return true;
        }
        i = i + 1;
    }
    !disk.mount_point.as_str().is_empty()
}

/// The scan root a disk's action targets: the first mounted partition, else
/// the disk's own mount point, else `/`.
pub open spec fn scan_target_root_spec(disk: DiskMounts) -> Seq<char> {
    let parts = disk.partition_mount_points@;
    if exists|i: int| 0 <= i < parts.len() && parts[i]@.len() > 0 {
        let i = choose|i: int|
            0 <= i < parts.len() && parts[i]@.len() > 0 && forall|j: int|
                0 <= j < i ==> parts[j]@.len() == 0;
        parts[i]@
    } else if disk.mount_point@.len() > 0 {
        disk.mount_point@
    } else {
        "/"@
    }
}

/// The scan root this disk's action button targets.
pub fn scan_target_root(disk: &DiskMounts) -> (r: String)
    ensures
        r@ == scan_target_root_spec(*disk),
{
    let parts = &disk.partition_mount_points;
    let mut i: usize = 0;
    while i < parts.len()
        invariant
            i <= parts@.len(),
            parts == &disk.partition_mount_points,
            forall|j: int| 0 <= j < i ==> parts@[j]@.len() == 0,
        decreases parts@.len() - i,
    {
        if !parts[i].as_str().is_empty() {
            proof {
                let c = choose|k: int|
                    0 <= k < parts@.len() && parts@[k]@.len() > 0 && forall|j: int|
                        0 <= j < k ==> parts@[j]@.len() == 0;
                assert(0 <= c < parts@.len() && parts@[c]@.len() > 0 && forall|j: int|
                    0 <= j < c ==> parts@[j]@.len() == 0);
                if c < i {
                } else if c > i {
                    assert(parts@[i as int]@.len() == 0);
                }
            }
            return parts[i].clone();
        }
        i = i + 1;
    }
    if !disk.mount_point.as_str().is_empty() {
        disk.mount_point.clone()
    } else {
        string_of("/")
    }
}

/// The request the action submits: cancel an active scan of this disk's own
/// tree, otherwise start a scan of the disk's target root.
pub fn toggle_request(disk: &DiskMounts, active: Option<&DirectoryUsageSnapshot>) -> (r: DirectoryUsageRequest)
    ensures
        match active {
            Some(s) if s.status == DirectoryScanStatus::Scanning && targets_disk_spec(s.root@, *disk) =>
                r == DirectoryUsageRequest::Cancel(s.scan_id),
            _ => r matches DirectoryUsageRequest::StartScan(root) && root@ == scan_target_root_spec(*disk),
        },
{
    if let Some(snapshot) = active {
        if snapshot.status == DirectoryScanStatus::Scanning && snapshot_targets_disk(snapshot, disk) {
            return DirectoryUsageRequest::Cancel(snapshot.scan_id);
        }
    }
    DirectoryUsageRequest::StartScan(scan_target_root(disk))
}

/// Maximum entry rows rendered before collapsing into a "+N more" line.
pub const MAX_VISIBLE_ENTRIES: usize = 8;

/// How many entries the collapsed panel renders.
pub fn visible_entries(total: usize) -> (r: usize)
    ensures
        r == (if total < MAX_VISIBLE_ENTRIES { total } else { MAX_VISIBLE_ENTRIES }),
{
    if total < MAX_VISIBLE_ENTRIES { total } else { MAX_VISIBLE_ENTRIES }
}

/// The catalog key of the label of a scan status.
pub open spec fn status_key_spec(status: DirectoryScanStatus) -> Seq<char> {
    match status {
        DirectoryScanStatus::Scanning => "disk.usage_scanning"@,
        DirectoryScanStatus::Completed => "disk.usage_completed"@,
        DirectoryScanStatus::Cancelled => "disk.usage_cancelled"@,
        DirectoryScanStatus::Failed => "disk.usage_failed"@,
    }
}

/// The catalog key of the label of one scan status.
pub fn status_key(status: DirectoryScanStatus) -> (r: &'static str)
    ensures
        r@ == status_key_spec(status),
{
    match status {
        DirectoryScanStatus::Scanning => "disk.usage_scanning",
        DirectoryScanStatus::Completed => "disk.usage_completed",
        DirectoryScanStatus::Cancelled => "disk.usage_cancelled",
        DirectoryScanStatus::Failed => "disk.usage_failed",
    }
}

/// The display label of one report entry: the scan root for the root entry
/// (an empty relative path), the relative path otherwise.
pub fn entry_label(path: &str, root: &str) -> (r: String)
    ensures
        r@ == (if path@.len() == 0 { root@ } else { path@ }),
{
    if path.is_empty() {
        string_of(root)
    } else {
        string_of(path)
    }
}

/// The cumulative counters of a scan, with the byte sum already formatted
/// (`None` while no byte count is known) and its partial mark.
#[derive(Clone, Debug)]
pub struct DirectoryTotals {
    pub files_counted: u64,
    pub directories_visited: u64,
    pub bytes_text: Option<String>,
    pub bytes_partial: bool,
    pub unreadable_directories: u64,
    pub capped: bool,
}

/// The catalog words of the totals line.
#[derive(Clone, Debug)]
pub struct DirectoryTotalsLabels {
    pub files: String,
    pub dirs: String,
    pub partial: String,
    pub unreadable_dirs: String,
    pub capped: String,
}

/// The separator between the facts of the totals line.
pub open spec fn dot() -> Seq<char> {
    " \u{00B7} "@
}

/// The totals line: files and directories counted, then, each only when it
/// holds, the byte sum, the partial mark, the unreadable-directory count and
/// the capped mark, separated by middle dots.
pub open spec fn totals_text_spec(t: DirectoryTotals, l: DirectoryTotalsLabels) -> Seq<char> {
    decimal(t.files_counted as nat) + " "@ + l.files@ + dot() + decimal(t.directories_visited as nat) + " "@
        + l.dirs@
        + (match t.bytes_text {
        Some(b) => dot() + b@,
        None => Seq::empty(),
    }) + (if t.bytes_partial {
        dot() + l.partial@
    } else {
        Seq::empty()
    }) + (if t.unreadable_directories > 0 {
        dot() + decimal(t.unreadable_directories as nat) + " "@ + l.unreadable_dirs@
    } else {
        Seq::empty()
    }) + (if t.capped {
        dot() + l.capped@
    } else {
        Seq::empty()
    })
}

/// The totals line of a scan: every failure dimension is a fact of its own,
/// never folded into a complete-looking number.
pub fn totals_text(totals: &DirectoryTotals, labels: &DirectoryTotalsLabels) -> (r: String)
    ensures
        r@ == totals_text_spec(*totals, *labels),
{
    let mut line = decimal_string(totals.files_counted);
    push_str(&mut line, " ");
    push_str(&mut line, labels.files.as_str());
    push_str(&mut line, " \u{00B7} ");
    let dirs = decimal_string(totals.directories_visited);
    push_str(&mut line, dirs.as_str());
    push_str(&mut line, " ");
    push_str(&mut line, labels.dirs.as_str());
    let ghost base = line@;
    match &totals.bytes_text {
        Some(b) => {
            push_str(&mut line, " \u{00B7} ");
            push_str(&mut line, b.as_str());
        },
        None => {},
    }
    let ghost with_bytes = line@;
    if totals.bytes_partial {
        push_str(&mut line, " \u{00B7} ");
        push_str(&mut line, labels.partial.as_str());
    }
    let ghost with_partial = line@;
    if totals.unreadable_directories > 0 {
        push_str(&mut line, " \u{00B7} ");
        let n = decimal_string(totals.unreadable_directories);
        push_str(&mut line, n.as_str());
        push_str(&mut line, " ");
        push_str(&mut line, labels.unreadable_dirs.as_str());
    }
    let ghost with_unreadable = line@;
    if totals.capped {
        push_str(&mut line, " \u{00B7} ");
        push_str(&mut line, labels.capped.as_str());
    }
    proof {
        let t = *totals;
        let l = *labels;
        let bytes_part = match t.bytes_text {
            Some(b) => dot() + b@,
            None => Seq::<char>::empty(),
        };
        let partial_part = if t.bytes_partial { dot() + l.partial@ } else { Seq::<char>::empty() };
        let unreadable_part = if t.unreadable_directories > 0 {
            dot() + decimal(t.unreadable_directories as nat) + " "@ + l.unreadable_dirs@
        } else {
            Seq::<char>::empty()
        };
        let capped_part = if t.capped { dot() + l.capped@ } else { Seq::<char>::empty() };
        assert(base =~= decimal(t.files_counted as nat) + " "@ + l.files@ + dot() + decimal(
            t.directories_visited as nat,
        ) + " "@ + l.dirs@);
        assert(with_bytes =~= base + bytes_part);
        assert(with_partial =~= with_bytes + partial_part);
        assert(with_unreadable =~= with_partial + unreadable_part);
        assert(line@ =~= with_unreadable + capped_part);
        assert(line@ =~= totals_text_spec(t, l));
    }
    line
}

/// The size cell of one report entry: the formatted measured size, else the
/// unreadable label for an unreadable subtree (never a made-up zero), else
/// the missing-value placeholder.
pub fn entry_size_text(size_text: Option<&str>, unreadable: bool, unreadable_label: &str, missing: &str) -> (r: String)
    ensures
        size_text is Some ==> r@ == size_text->Some_0@,
        size_text is None && unreadable ==> r@ == unreadable_label@,
        size_text is None && !unreadable ==> r@ == missing@,
{
    match size_text {
        Some(s) => string_of(s),
        None => if unreadable {
            string_of(unreadable_label)
        } else {
            string_of(missing)
        },
    }
}

/// Every mount point owns its own path.
pub proof fn lemma_mount_owns_itself(mount_point: Seq<char>)
    ensures
        mount_owns_root_spec(mount_point, mount_point),
{
    reveal_strlit("/");
}

/// A scan started by a disk's action targets that disk's own tree, so the
/// action's next toggle cancels it rather than starting another: for a disk
/// with a reported mount, the scan target root belongs to the disk.
pub proof fn lemma_started_scan_targets_disk(disk: DiskMounts)
    requires
        has_reported_mount_spec(disk),
    ensures
        targets_disk_spec(scan_target_root_spec(disk), disk),
{
    let parts = disk.partition_mount_points@;
    let root = scan_target_root_spec(disk);
    if exists|i: int| 0 <= i < parts.len() && parts[i]@.len() > 0 {
        let i = choose|i: int|
            0 <= i < parts.len() && parts[i]@.len() > 0 && forall|j: int|
                0 <= j < i ==> parts[j]@.len() == 0;
        lemma_first_mounted_exists(parts);
        lemma_mount_owns_itself(parts[i]@);
        assert(root == parts[i]@);
    } else {
        lemma_mount_owns_itself(disk.mount_point@);
    }
}

/// If some entry is mounted, there is a first mounted entry.
proof fn lemma_first_mounted_exists(parts: Seq<String>)
    requires
        exists|i: int| 0 <= i < parts.len() && parts[i]@.len() > 0,
    ensures
        exists|i: int|
            0 <= i < parts.len() && parts[i]@.len() > 0 && forall|j: int|
                0 <= j < i ==> parts[j]@.len() == 0,
    decreases parts.len(),
{
    if parts[0]@.len() > 0 {
        assert(0 < parts.len() && parts[0]@.len() > 0);
    } else {
        let w = choose|i: int| 0 <= i < parts.len() && parts[i]@.len() > 0;
        let rest = parts.drop_first();
        assert(rest[w - 1] == parts[w]);
        lemma_first_mounted_exists(rest);
        let k = choose|k: int|
            0 <= k < rest.len() && rest[k]@.len() > 0 && forall|j: int|
                0 <= j < k ==> rest[j]@.len() == 0;
        assert forall|j: int| 0 <= j < k + 1 implies parts[j]@.len() == 0 by {
            if j > 0 {
                assert(parts[j] == rest[j - 1]);
            }
        }
        assert(parts[k + 1] == rest[k]);
    }
}

} // verus!
