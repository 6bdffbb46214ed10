//! Structured clipboard export of one process (TSV / JSON) and the body of
//! the system diagnostics report.
//!
//! JSON string literals are produced by `serde_json`, so a command line that
//! carries quotes, newlines or other control characters still yields valid
//! JSON. Numbers the toolkit formats from floating-point readings (the CPU
//! percentage) and the human-readable byte and duration spellings arrive
//! pre-formatted.

use vstd::prelude::*;
use crate::text::{decimal, has_infix, has_suffix, infix_split, push_decimal, push_str, string_of, trim, trim_spec};

verus! {

/// The lowercase hexadecimal digit of a value below 16.
pub open spec fn hex_digit(d: nat) -> char {
    if d < 10 {
        crate::text::digit_char(d)
    } else if d == 10 { 'a' } else if d == 11 { 'b' } else if d == 12 { 'c' } else if d == 13 { 'd' }
    else if d == 14 { 'e' } else { 'f' }
}

/// The JSON spelling of one character inside a string literal: quote,
/// backslash and the control characters are escaped (`\b \t \n \f \r`, the
/// rest as `\u00XX`); every other character stands for itself.
pub open spec fn json_escape_char(c: char) -> Seq<char> {
    let v = c as u32;
    if c == '"' {
        seq!['\\', '"']
    } else if c == '\\' {
        seq!['\\', '\\']
    } else if v == 0x08 {
        seq!['\\', 'b']
    } else if v == 0x09 {
        seq!['\\', 't']
    } else if v == 0x0a {
        seq!['\\', 'n']
    } else if v == 0x0c {
        seq!['\\', 'f']
    } else if v == 0x0d {
        seq!['\\', 'r']
    } else if v < 0x20 {
        seq!['\\', 'u', '0', '0', hex_digit((v / 16) as nat), hex_digit((v % 16) as nat)]
    } else {
        seq![c]
    }
}

/// The escaped characters of a string literal's contents.
pub open spec fn json_escape_body(s: Seq<char>) -> Seq<char>
    decreases s.len(),
{
    if s.len() == 0 {
        Seq::empty()
    } else {
        json_escape_body(s.drop_last()) + json_escape_char(s.last())
    }
}

/// The JSON string literal of a text.
pub open spec fn json_string_spec(s: Seq<char>) -> Seq<char> {
    seq!['"'] + json_escape_body(s) + seq!['"']
}

/// The error type of `serde_json`.
#[verifier::external_type_specification]
#[verifier::external_body]
pub struct ExJsonError(serde_json::Error);

/// `serde_json::to_string(value)` for a string slice. Serializing a `str`
/// writes the escaped literal into a `Vec`, which cannot fail, so the call
/// returns `Ok` with the JSON string literal of `value`: serde_json escapes
/// exactly `"`, `\` and the control characters below U+0020 (`\b \t \n \f \r`,
/// the others as `\u00xx` with lowercase hex digits) and copies every other
/// character.
#[verifier::external_body]
fn serialize_str(value: &str) -> (r: Result<String, serde_json::Error>)
    ensures
        r is Ok,
        r->Ok_0@ == json_string_spec(value@),
{
    serde_json::to_string(value)
}

/// One JSON string literal, escaped by serde_json (`""` should serialization
/// ever fail).
pub fn json_string(value: &str) -> (r: String)
    ensures
        r@ == json_string_spec(value@),
{
    match serialize_str(value) {
        Ok(s) => s,
        Err(_) => string_of("\"\""),
    }
}

/// One process as the export reads it.
#[derive(Clone, Debug)]
pub struct ProcessExport {
    pub pid: u32,
    pub name: String,
    pub status: String,
    pub cmdline: String,
    /// The owning user, when known.
    pub user: Option<String>,
    /// The CPU percentage with one decimal (e.g. `12.5`), when known.
    pub cpu_text: Option<String>,
    /// The resident memory in bytes, when known.
    pub memory_bytes: Option<u64>,
    /// The human-readable resident memory, when known.
    pub memory_text: Option<String>,
}

/// A present text, or the shared missing-value spelling.
pub open spec fn or_missing(value: Option<String>, missing: Seq<char>) -> Seq<char> {
    match value {
        Some(v) => v@,
        None => missing,
    }
}

/// The TSV line of one process: pid, name, CPU%, memory, user (an em dash
/// when empty), status.
pub open spec fn process_tsv_spec(p: ProcessExport, missing: Seq<char>) -> Seq<char> {
    let user = or_missing(p.user, missing);
    let cpu = match p.cpu_text {
        Some(c) => c@ + "%"@,
        None => missing,
    };
    decimal(p.pid as nat) + "\t"@ + p.name@ + "\t"@ + cpu + "\t"@ + or_missing(p.memory_text, missing)
        + "\t"@ + (if user.len() == 0 { "\u{2014}"@ } else { user }) + "\t"@ + p.status@
}

/// A process's TSV line is its six facts in order, separated by tabs: the
/// decimal pid, the name, the CPU text with a percent sign, the memory text,
/// the user (an em dash when empty) and the status; an absent CPU, memory
/// or user reads as the missing spelling.
pub proof fn lemma_tsv_fields_in_order(p: ProcessExport, missing: Seq<char>)
    ensures
        process_tsv_spec(p, missing) == decimal(p.pid as nat) + seq!['\t'] + p.name@ + seq!['\t'] + (match p.cpu_text {
            Some(c) => c@ + seq!['%'],
            None => missing,
        }) + seq!['\t'] + (match p.memory_text {
            Some(m) => m@,
            None => missing,
        }) + seq!['\t'] + ({
            let u = match p.user {
                Some(u) => u@,
                None => missing,
            };
            if u.len() == 0 { seq!['\u{2014}'] } else { u }
        }) + seq!['\t'] + p.status@,
{
    reveal_strlit("\t");
    reveal_strlit("%");
    reveal_strlit("\u{2014}");
    assert("\t"@ =~= seq!['\t']);
    assert("%"@ =~= seq!['%']);
    assert("\u{2014}"@ =~= seq!['\u{2014}']);
}

/// Format a single process as tab-separated values.
pub fn process_to_tsv(p: &ProcessExport, missing: &str) -> (r: String)
    ensures
        r@ == process_tsv_spec(*p, missing@),
{
    let mut out = String::new();
    push_decimal(&mut out, p.pid as u64);
    push_str(&mut out, "\t");
    push_str(&mut out, p.name.as_str());
    push_str(&mut out, "\t");
    match &p.cpu_text {
        Some(c) => {
            push_str(&mut out, c.as_str());
            push_str(&mut out, "%");
        },
        None => push_str(&mut out, missing),
    }
    push_str(&mut out, "\t");
    match &p.memory_text {
        Some(m) => push_str(&mut out, m.as_str()),
        None => push_str(&mut out, missing),
    }
    push_str(&mut out, "\t");
    let user: &str = match &p.user {
        Some(u) => u.as_str(),
        None => missing,
    };
    if user.is_empty() {
        push_str(&mut out, "\u{2014}");
    } else {
        push_str(&mut out, user);
    }
    push_str(&mut out, "\t");
    push_str(&mut out, p.status.as_str());
    assert(out@ =~= process_tsv_spec(*p, missing@));
    out
}

/// The JSON object of one process: `pid`, `name`, `cpu_usage`,
/// `memory_bytes`, `user`, `status`, `cmdline`, in that order; absent values
/// and an empty command line are `null`.
pub open spec fn process_json_spec(p: ProcessExport) -> Seq<char> {
    let user = match p.user {
        Some(u) => json_string_spec(u@),
        None => "null"@,
    };
    let cmdline = if p.cmdline@.len() == 0 { "null"@ } else { json_string_spec(p.cmdline@) };
    let cpu = match p.cpu_text {
        Some(c) => c@,
        None => "null"@,
    };
    let memory = match p.memory_bytes {
        Some(m) => decimal(m as nat),
        None => "null"@,
    };
    "{\n  \"pid\": "@ + decimal(p.pid as nat) + ",\n  \"name\": "@ + json_string_spec(p.name@)
        + ",\n  \"cpu_usage\": "@ + cpu + ",\n  \"memory_bytes\": "@ + memory + ",\n  \"user\": "@
        + user + ",\n  \"status\": "@ + json_string_spec(p.status@) + ",\n  \"cmdline\": "@ + cmdline
        + "\n}"@
}

/// The runs of a process's JSON object, left to right: each field's
/// opening separator and key, then its value; the closing brace last.
spec fn json_runs(p: ProcessExport) -> Seq<Seq<char>> {
    seq!["{\n  \"pid\": "@, json_value(p, 0), ",\n  \"name\": "@, json_value(p, 1), ",\n  \"cpu_usage\": "@, json_value(p, 2), ",\n  \"memory_bytes\": "@, json_value(p, 3), ",\n  \"user\": "@, json_value(p, 4), ",\n  \"status\": "@, json_value(p, 5), ",\n  \"cmdline\": "@, json_value(p, 6), "\n}"@]
}

/// The value of the `k`-th field of a process's JSON object.
spec fn json_value(p: ProcessExport, k: int) -> Seq<char> {
    if k == 0 {
        decimal(p.pid as nat)
    } else if k == 1 {
        json_string_spec(p.name@)
    } else if k == 2 {
        (match p.cpu_text {
            Some(c) => c@,
            None => "null"@,
        })
    } else if k == 3 {
        (match p.memory_bytes {
            Some(m) => decimal(m as nat),
            None => "null"@,
        })
    } else if k == 4 {
        (match p.user {
            Some(u) => json_string_spec(u@),
            None => "null"@,
        })
    } else if k == 5 {
        json_string_spec(p.status@)
    } else {
        (if p.cmdline@.len() == 0 {
            "null"@
        } else {
            json_string_spec(p.cmdline@)
        })
    }
}

/// The left-to-right concatenation of the first `n` runs.
spec fn runs_upto(runs: Seq<Seq<char>>, n: int) -> Seq<char>
    decreases n,
{
    if n <= 0 {
        Seq::empty()
    } else {
        runs_upto(runs, n - 1) + runs[n - 1]
    }
}

/// The concatenation of runs `a..b`.
spec fn runs_between(runs: Seq<Seq<char>>, a: int, b: int) -> Seq<char>
    decreases b - a,
{
    if b <= a {
        Seq::empty()
    } else {
        runs_between(runs, a, b - 1) + runs[b - 1]
    }
}

/// The first `b` runs split at `a`.
proof fn lemma_runs_split(runs: Seq<Seq<char>>, a: int, b: int)
    requires
        0 <= a <= b,
    ensures
        runs_upto(runs, b) == runs_upto(runs, a) + runs_between(runs, a, b),
    decreases b - a,
{
    if b == a {
        assert(runs_upto(runs, a) + Seq::<char>::empty() =~= runs_upto(runs, a));
    } else {
        lemma_runs_split(runs, a, b - 1);
        vstd::seq_lib::lemma_concat_associative(runs_upto(runs, a), runs_between(runs, a, b - 1), runs[b - 1]);
    }
}

/// The object is the concatenation of its runs.
proof fn lemma_json_runs(p: ProcessExport)
    ensures
        process_json_spec(p) == runs_upto(json_runs(p), 15),
{
    let r = json_runs(p);
    reveal_with_fuel(runs_upto, 16);
    assert(process_json_spec(p) =~= runs_upto(r, 15));
}

/// Field `k` (its separator, value and the next separator) sits in the
/// object between the runs before it and the runs after it.
proof fn lemma_json_field_at(p: ProcessExport, k: int)
    requires
        0 <= k < 7,
    ensures
        infix_split(
            process_json_spec(p),
            runs_upto(json_runs(p), 2 * k),
            json_runs(p)[2 * k] + json_runs(p)[2 * k + 1] + json_runs(p)[2 * k + 2],
            runs_between(json_runs(p), 2 * k + 3, 15),
        ),
{
    let r = json_runs(p);
    lemma_json_runs(p);
    lemma_runs_split(r, 2 * k + 3, 15);
    assert(runs_upto(r, 2 * k + 1) == runs_upto(r, 2 * k) + r[2 * k]);
    assert(runs_upto(r, 2 * k + 2) == runs_upto(r, 2 * k + 1) + r[2 * k + 1]);
    assert(runs_upto(r, 2 * k + 3) == runs_upto(r, 2 * k + 2) + r[2 * k + 2]);
    vstd::seq_lib::lemma_concat_associative(runs_upto(r, 2 * k), r[2 * k] + r[2 * k + 1] + r[2 * k + 2], runs_between(r, 2 * k + 3, 15));
    assert(runs_upto(r, 2 * k) + r[2 * k] + r[2 * k + 1] + r[2 * k + 2] =~= runs_upto(r, 2 * k) + (r[2 * k] + r[2 * k + 1] + r[2 * k + 2]));
}

/// Every field of a process's JSON object carries its own fact: between the
/// separator that opens it and the one that opens the next field (or the
/// closing brace), each key holds the value of that fact: the decimal pid
/// and byte count, the JSON string literals of the name, user, status and
/// command line, the CPU text as a number, and `null` for what is absent.
pub proof fn lemma_json_fields_carry_their_facts(p: ProcessExport)
    ensures
        has_infix(
            process_json_spec(p),
            "{\n  \"pid\": "@ + decimal(p.pid as nat) + ",\n  \"name\": "@,
        ),
        has_infix(
            process_json_spec(p),
            ",\n  \"name\": "@ + json_string_spec(p.name@) + ",\n  \"cpu_usage\": "@,
        ),
        has_infix(
            process_json_spec(p),
            ",\n  \"cpu_usage\": "@ + (match p.cpu_text {
                Some(c) => c@,
                None => "null"@,
            }) + ",\n  \"memory_bytes\": "@,
        ),
        has_infix(
            process_json_spec(p),
            ",\n  \"memory_bytes\": "@ + (match p.memory_bytes {
                Some(m) => decimal(m as nat),
                None => "null"@,
            }) + ",\n  \"user\": "@,
        ),
        has_infix(
            process_json_spec(p),
            ",\n  \"user\": "@ + (match p.user {
                Some(u) => json_string_spec(u@),
                None => "null"@,
            }) + ",\n  \"status\": "@,
        ),
        has_infix(
            process_json_spec(p),
            ",\n  \"status\": "@ + json_string_spec(p.status@) + ",\n  \"cmdline\": "@,
        ),
        has_suffix(
            process_json_spec(p),
            ",\n  \"cmdline\": "@ + (if p.cmdline@.len() == 0 {
                "null"@
            } else {
                json_string_spec(p.cmdline@)
            }) + "\n}"@,
        ),
{
    lemma_json_field_at(p, 0);
    lemma_json_field_at(p, 1);
    lemma_json_field_at(p, 2);
    lemma_json_field_at(p, 3);
    lemma_json_field_at(p, 4);
    lemma_json_field_at(p, 5);
    lemma_json_field_at(p, 6);
    let r = json_runs(p);
    assert(runs_between(r, 15, 15) =~= Seq::<char>::empty());
    let tail = r[12] + r[13] + r[14];
    assert(process_json_spec(p) =~= runs_upto(r, 12) + tail);
    assert(process_json_spec(p).subrange(process_json_spec(p).len() - tail.len(), process_json_spec(p).len() as int) =~= tail);
}

/// Format a process as a JSON object string.
pub fn process_to_json(p: &ProcessExport) -> (r: String)
    ensures
        r@ == process_json_spec(*p),
{
    let mut out = String::new();
    push_str(&mut out, "{\n  \"pid\": ");
    push_decimal(&mut out, p.pid as u64);
    push_str(&mut out, ",\n  \"name\": ");
    let name = json_string(p.name.as_str());
    push_str(&mut out, name.as_str());
    push_str(&mut out, ",\n  \"cpu_usage\": ");
    match &p.cpu_text {
        Some(c) => push_str(&mut out, c.as_str()),
        None => push_str(&mut out, "null"),
    }
    push_str(&mut out, ",\n  \"memory_bytes\": ");
    match p.memory_bytes {
        Some(m) => push_decimal(&mut out, m),
        None => push_str(&mut out, "null"),
    }
    push_str(&mut out, ",\n  \"user\": ");
    match &p.user {
        Some(u) => {
            let quoted = json_string(u.as_str());
            push_str(&mut out, quoted.as_str());
        },
        None => push_str(&mut out, "null"),
    }
    push_str(&mut out, ",\n  \"status\": ");
    let status = json_string(p.status.as_str());
    push_str(&mut out, status.as_str());
    push_str(&mut out, ",\n  \"cmdline\": ");
    if p.cmdline.as_str().is_empty() {
        push_str(&mut out, "null");
    } else {
        let cmdline = json_string(p.cmdline.as_str());
        push_str(&mut out, cmdline.as_str());
    }
    push_str(&mut out, "\n}");
    assert(out@ =~= process_json_spec(*p));
    out
}

/// The hardware facts the diagnostics report and the About dialog read.
#[derive(Clone, Debug)]
pub struct HardwareFacts {
    pub os_name: Option<String>,
    pub os_version: Option<String>,
    pub kernel_version: Option<String>,
    pub hostname: Option<String>,
    pub architecture: Option<String>,
    pub motherboard_vendor: Option<String>,
    pub motherboard_model: Option<String>,
    pub firmware_release_date: Option<String>,
    pub secure_boot: Option<bool>,
    pub cpu_brand: Option<String>,
    pub cpu_cores: Option<usize>,
    pub total_memory_mb: Option<u64>,
}

/// One GPU adapter of the report.
#[derive(Clone, Debug)]
pub struct GpuFacts {
    pub brand: String,
    pub driver: Option<String>,
    pub driver_version: Option<String>,
}

/// One disk of the report.
#[derive(Clone, Debug)]
pub struct DiskFacts {
    pub name: String,
    pub model: String,
}

/// The snapshot facts the diagnostics report reads, with the formatted
/// readings: the uptime, the finite CPU usage (e.g. `12.5%`), and the used and
/// total memory as byte sizes.
#[derive(Clone, Debug)]
pub struct SnapshotFacts {
    pub uptime_text: String,
    pub processes: usize,
    pub cpu_usage_text: Option<String>,
    pub memory_text: Option<(String, String)>,
    pub gpus: Vec<GpuFacts>,
    pub disks: Vec<DiskFacts>,
}

/// A present text, or a fallback.
pub open spec fn or_else_text(value: Option<String>, fallback: Seq<char>) -> Seq<char> {
    match value {
        Some(v) => v@,
        None => fallback,
    }
}

/// The report lines of the hardware facts.
pub open spec fn hardware_lines_spec(hw: HardwareFacts, missing: Seq<char>) -> Seq<char> {
    let os = trim_spec(or_else_text(hw.os_name, "Unknown OS"@) + " "@ + or_else_text(hw.os_version, ""@));
    let cores = match hw.cpu_cores {
        Some(c) => decimal(c as nat),
        None => missing,
    };
    "OS: "@ + os + "\n"@ + "Kernel: "@ + or_else_text(hw.kernel_version, "Unknown"@) + "\n"@
        + "Hostname: "@ + or_else_text(hw.hostname, "\u{2014}"@) + "\n"@ + "CPU: "@
        + or_else_text(hw.cpu_brand, "Unknown"@) + "\n"@ + "Cores: "@ + cores + "\n"@
}

/// The driver-version suffix of a GPU line: present only for a proven,
/// non-empty version.
pub open spec fn version_part(v: Option<String>) -> Seq<char> {
    match v {
        Some(v) => if v@.len() > 0 { ", Version: "@ + v@ } else { ""@ },
        None => ""@,
    }
}

/// The memory reading of the report: used / total, or the missing spelling.
pub open spec fn memory_part(m: Option<(String, String)>, missing: Seq<char>) -> Seq<char> {
    match m {
        Some((used, total)) => used@ + " / "@ + total@,
        None => missing,
    }
}

/// The report line of one GPU adapter.
pub open spec fn gpu_line_spec(index: nat, gpu: GpuFacts) -> Seq<char> {
    let version = version_part(gpu.driver_version);
    "  [GPU "@ + decimal(index) + "] "@ + gpu.brand@ + " (Driver: "@ + or_else_text(gpu.driver, "\u{2014}"@)
        + version + ")\n"@
}

/// The report lines of a GPU list.
pub open spec fn gpu_lines_spec(gpus: Seq<GpuFacts>) -> Seq<char>
    decreases gpus.len(),
{
    if gpus.len() == 0 {
        Seq::empty()
    } else {
        gpu_lines_spec(gpus.drop_last()) + gpu_line_spec((gpus.len() - 1) as nat, gpus.last())
    }
}

/// The report line of one disk.
pub open spec fn disk_line_spec(index: nat, disk: DiskFacts) -> Seq<char> {
    "  [Disk "@ + decimal(index) + "] "@ + disk.name@ + " ("@ + disk.model@ + ")\n"@
}

/// The report lines of a disk list.
pub open spec fn disk_lines_spec(disks: Seq<DiskFacts>) -> Seq<char>
    decreases disks.len(),
{
    if disks.len() == 0 {
        Seq::empty()
    } else {
        disk_lines_spec(disks.drop_last()) + disk_line_spec((disks.len() - 1) as nat, disks.last())
    }
}

/// The report lines of the snapshot facts.
pub open spec fn snapshot_lines_spec(snap: SnapshotFacts, missing: Seq<char>) -> Seq<char> {
    snapshot_head_spec(snap, missing) + gpu_block_spec(snap.gpus@) + disk_block_spec(snap.disks@)
}

/// The unredacted diagnostics report body.
pub open spec fn diagnostics_body_spec(hw: Option<HardwareFacts>, snap: Option<SnapshotFacts>, missing: Seq<char>) -> Seq<char> {
    "### TaskForest System Diagnostics Report\n\n"@ + "```markdown\n"@ + (match hw {
        Some(h) => hardware_lines_spec(h, missing),
        None => ""@,
    }) + (match snap {
        Some(s) => snapshot_lines_spec(s, missing),
        None => "System Snapshot: Unavailable\n"@,
    }) + "```\n"@
}

/// The report lines of a GPU list hold each adapter's line in place.
proof fn lemma_gpu_line_in_lines(gpus: Seq<GpuFacts>, k: int) -> (split: (Seq<char>, Seq<char>))
    requires
        0 <= k < gpus.len(),
    ensures
        infix_split(gpu_lines_spec(gpus), split.0, gpu_line_spec(k as nat, gpus[k]), split.1),
    decreases gpus.len(),
{
    let last = gpu_line_spec((gpus.len() - 1) as nat, gpus.last());
    if k == gpus.len() - 1 {
        assert(gpu_lines_spec(gpus) =~= gpu_lines_spec(gpus.drop_last()) + last + Seq::<char>::empty());
        (gpu_lines_spec(gpus.drop_last()), Seq::<char>::empty())
    } else {
        let (pre, post) = lemma_gpu_line_in_lines(gpus.drop_last(), k);
        assert(gpus.drop_last()[k] == gpus[k]);
        let line = gpu_line_spec(k as nat, gpus[k]);
        assert(gpu_lines_spec(gpus) =~= pre + line + (post + last));
        (pre, post + last)
    }
}

/// Every GPU adapter of the snapshot gets its own report line: its index,
/// brand and driver (a dash when unknown), then `, Version: ` and the driver
/// version when that version is known and non-empty, then the closing
/// parenthesis.
pub proof fn lemma_gpu_report_lines(hw: Option<HardwareFacts>, snap: SnapshotFacts, missing: Seq<char>, k: int)
    requires
        0 <= k < snap.gpus@.len(),
    ensures
        has_infix(
            diagnostics_body_spec(hw, Some(snap), missing),
            "  [GPU "@ + decimal(k as nat) + "] "@ + snap.gpus@[k].brand@ + " (Driver: "@ + (match snap.gpus@[k].driver {
                Some(d) => d@,
                None => "\u{2014}"@,
            }) + (match snap.gpus@[k].driver_version {
                Some(v) => if v@.len() > 0 { ", Version: "@ + v@ } else { Seq::empty() },
                None => Seq::empty(),
            }) + ")\n"@,
        ),
{
    reveal_strlit("");
    let gpus = snap.gpus@;
    let (pre, post) = lemma_gpu_line_in_lines(gpus, k);
    let line = gpu_line_spec(k as nat, gpus[k]);
    let g0 = "GPU Count: "@ + decimal(gpus.len()) + "\n"@;
    let lines = gpu_lines_spec(gpus);
    assert(gpu_block_spec(gpus) == g0 + lines);
    assert(lines == pre + line + post);
    assert(g0 + lines =~= (g0 + pre) + line + post);
    let head = snapshot_head_spec(snap, missing);
    let disk = disk_block_spec(snap.disks@);
    assert(snapshot_lines_spec(snap, missing) == head + gpu_block_spec(gpus) + disk);
    assert(head + ((g0 + pre) + line + post) + disk =~= (head + (g0 + pre)) + line + (post + disk));
    let hw_part = match hw {
        Some(h) => hardware_lines_spec(h, missing),
        None => ""@,
    };
    let top = "### TaskForest System Diagnostics Report\n\n"@ + "```markdown\n"@ + hw_part;
    let end = "```\n"@;
    let body = diagnostics_body_spec(hw, Some(snap), missing);
    assert(body == top + snapshot_lines_spec(snap, missing) + end);
    let a = top + (head + (g0 + pre));
    let b = (post + disk) + end;
    assert(top + ((head + (g0 + pre)) + line + (post + disk)) + end =~= a + line + b);
    assert(line =~= "  [GPU "@ + decimal(k as nat) + "] "@ + gpus[k].brand@ + " (Driver: "@ + (match gpus[k].driver {
        Some(d) => d@,
        None => "\u{2014}"@,
    }) + (match gpus[k].driver_version {
        Some(v) => if v@.len() > 0 { ", Version: "@ + v@ } else { Seq::empty() },
        None => Seq::empty(),
    }) + ")\n"@);
    assert(infix_split(body, a, line, b));
}

/// The report lines of a disk list hold each disk's line in place.
proof fn lemma_disk_line_in_lines(disks: Seq<DiskFacts>, k: int) -> (split: (Seq<char>, Seq<char>))
    requires
        0 <= k < disks.len(),
    ensures
        infix_split(disk_lines_spec(disks), split.0, disk_line_spec(k as nat, disks[k]), split.1),
    decreases disks.len(),
{
    let last = disk_line_spec((disks.len() - 1) as nat, disks.last());
    if k == disks.len() - 1 {
        assert(disk_lines_spec(disks) =~= disk_lines_spec(disks.drop_last()) + last + Seq::<char>::empty());
        (disk_lines_spec(disks.drop_last()), Seq::<char>::empty())
    } else {
        let (pre, post) = lemma_disk_line_in_lines(disks.drop_last(), k);
        assert(disks.drop_last()[k] == disks[k]);
        let line = disk_line_spec(k as nat, disks[k]);
        assert(disk_lines_spec(disks) =~= pre + line + (post + last));
        (pre, post + last)
    }
}

/// Every disk of the snapshot gets its own report line: its index, name and
/// model in parentheses.
pub proof fn lemma_disk_report_lines(hw: Option<HardwareFacts>, snap: SnapshotFacts, missing: Seq<char>, k: int)
    requires
        0 <= k < snap.disks@.len(),
    ensures
        has_infix(
            diagnostics_body_spec(hw, Some(snap), missing),
            "  [Disk "@ + decimal(k as nat) + "] "@ + snap.disks@[k].name@ + " ("@ + snap.disks@[k].model@ + ")\n"@,
        ),
{
    let disks = snap.disks@;
    let (pre, post) = lemma_disk_line_in_lines(disks, k);
    let line = disk_line_spec(k as nat, disks[k]);
    let d0 = "Disks Count: "@ + decimal(disks.len()) + "\n"@;
    let lines = disk_lines_spec(disks);
    assert(disk_block_spec(disks) == d0 + lines);
    assert(lines == pre + line + post);
    assert(d0 + lines =~= (d0 + pre) + line + post);
    let head = snapshot_head_spec(snap, missing);
    let gpu = gpu_block_spec(snap.gpus@);
    assert(snapshot_lines_spec(snap, missing) == head + gpu + disk_block_spec(disks));
    assert(head + gpu + ((d0 + pre) + line + post) =~= (head + gpu + (d0 + pre)) + line + post);
    let hw_part = match hw {
        Some(h) => hardware_lines_spec(h, missing),
        None => ""@,
    };
    let top = "### TaskForest System Diagnostics Report\n\n"@ + "```markdown\n"@ + hw_part;
    let end = "```\n"@;
    let body = diagnostics_body_spec(hw, Some(snap), missing);
    assert(body == top + snapshot_lines_spec(snap, missing) + end);
    let a = top + (head + gpu + (d0 + pre));
    let b = post + end;
    assert(top + ((head + gpu + (d0 + pre)) + line + post) + end =~= a + line + b);
    assert(infix_split(body, a, line, b));
}

pub(crate) fn push_or(out: &mut String, value: &Option<String>, fallback: &str)
    ensures
        final(out)@ == old(out)@ + or_else_text(*value, fallback@),
{
    match value {
        Some(v) => push_str(out, v.as_str()),
        None => push_str(out, fallback),
    }
}

fn push_hardware(out: &mut String, hw: &HardwareFacts, missing: &str)
    ensures
        final(out)@ == old(out)@ + hardware_lines_spec(*hw, missing@),
{
    let mut os = String::new();
    push_or(&mut os, &hw.os_name, "Unknown OS");
    push_str(&mut os, " ");
    push_or(&mut os, &hw.os_version, "");
    let os_trimmed = trim(os.as_str());
    push_str(out, "OS: ");
    push_str(out, os_trimmed.as_str());
    push_str(out, "\n");
    push_str(out, "Kernel: ");
    push_or(out, &hw.kernel_version, "Unknown");
    push_str(out, "\n");
    push_str(out, "Hostname: ");
    push_or(out, &hw.hostname, "\u{2014}");
    push_str(out, "\n");
    push_str(out, "CPU: ");
    push_or(out, &hw.cpu_brand, "Unknown");
    push_str(out, "\n");
    push_str(out, "Cores: ");
    match hw.cpu_cores {
        Some(c) => push_decimal(out, c as u64),
        None => push_str(out, missing),
    }
    push_str(out, "\n");
    assert(out@ =~= old(out)@ + hardware_lines_spec(*hw, missing@));
}

fn push_gpus(out: &mut String, gpus: &Vec<GpuFacts>)
    ensures
        final(out)@ == old(out)@ + gpu_lines_spec(gpus@),
{
    let ghost start = out@;
    let mut i: usize = 0;
    assert(gpus@.subrange(0, 0) =~= Seq::<GpuFacts>::empty());
    while i < gpus.len()
        invariant
            i <= gpus@.len(),
            out@ == start + gpu_lines_spec(gpus@.subrange(0, i as int)),
        decreases gpus@.len() - i,
    {
        let gpu = &gpus[i];
        let ghost before = out@;
        push_str(out, "  [GPU ");
        push_decimal(out, i as u64);
        push_str(out, "] ");
        push_str(out, gpu.brand.as_str());
        push_str(out, " (Driver: ");
        push_or(out, &gpu.driver, "\u{2014}");
        let ghost before_version = out@;
        let ghost version = version_part(gpu.driver_version);
        match &gpu.driver_version {
            Some(v) => {
                assert(gpu.driver_version == Some(*v));
                if !v.as_str().is_empty() {
                    assert(version == ", Version: "@ + v@);
                    push_str(out, ", Version: ");
                    push_str(out, v.as_str());
                    assert(out@ =~= before_version + version);
                } else {
                    proof { reveal_strlit(""); }
                    assert(version == ""@);
                    assert(out@ =~= before_version + version);
                }
            },
            None => {
                proof { reveal_strlit(""); }
                assert(out@ =~= before_version + version);
            },
        }
        push_str(out, ")\n");
        proof {
            let next = gpus@.subrange(0, i + 1);
            assert(next.drop_last() =~= gpus@.subrange(0, i as int));
            assert(next.last() == gpus@[i as int]);
            assert(out@ =~= before + gpu_line_spec(i as nat, gpus@[i as int]));
        }
        i = i + 1;
    }
    assert(gpus@.subrange(0, gpus@.len() as int) =~= gpus@);
}

fn push_disks(out: &mut String, disks: &Vec<DiskFacts>)
    ensures
        final(out)@ == old(out)@ + disk_lines_spec(disks@),
{
    let ghost start = out@;
    let mut i: usize = 0;
    assert(disks@.subrange(0, 0) =~= Seq::<DiskFacts>::empty());
    while i < disks.len()
        invariant
            i <= disks@.len(),
            out@ == start + disk_lines_spec(disks@.subrange(0, i as int)),
        decreases disks@.len() - i,
    {
        let disk = &disks[i];
        let ghost before = out@;
        push_str(out, "  [Disk ");
        push_decimal(out, i as u64);
        push_str(out, "] ");
        push_str(out, disk.name.as_str());
        push_str(out, " (");
        push_str(out, disk.model.as_str());
        push_str(out, ")\n");
        proof {
            let next = disks@.subrange(0, i + 1);
            assert(next.drop_last() =~= disks@.subrange(0, i as int));
            assert(next.last() == disks@[i as int]);
            assert(out@ =~= before + disk_line_spec(i as nat, disks@[i as int]));
        }
        i = i + 1;
    }
    assert(disks@.subrange(0, disks@.len() as int) =~= disks@);
}

/// The head lines of the snapshot facts.
pub open spec fn snapshot_head_spec(snap: SnapshotFacts, missing: Seq<char>) -> Seq<char> {
    "Uptime: "@ + snap.uptime_text@ + "\n"@ + "Process Count: "@ + decimal(snap.processes as nat) + "\n"@
        + "CPU Total Usage: "@ + or_else_text(snap.cpu_usage_text, missing) + "\n"@ + "Memory: "@
        + memory_part(snap.memory_text, missing) + "\n"@
}

/// The GPU block of the snapshot facts.
pub open spec fn gpu_block_spec(gpus: Seq<GpuFacts>) -> Seq<char> {
    if gpus.len() > 0 {
        "GPU Count: "@ + decimal(gpus.len()) + "\n"@ + gpu_lines_spec(gpus)
    } else {
        ""@
    }
}

/// The disk block of the snapshot facts.
pub open spec fn disk_block_spec(disks: Seq<DiskFacts>) -> Seq<char> {
    if disks.len() > 0 {
        "Disks Count: "@ + decimal(disks.len()) + "\n"@ + disk_lines_spec(disks)
    } else {
        ""@
    }
}

fn push_snapshot_head(out: &mut String, snap: &SnapshotFacts, missing: &str)
    ensures
        final(out)@ == old(out)@ + snapshot_head_spec(*snap, missing@),
{
    push_str(out, "Uptime: ");
    push_str(out, snap.uptime_text.as_str());
    push_str(out, "\n");
    push_str(out, "Process Count: ");
    push_decimal(out, snap.processes as u64);
    push_str(out, "\n");
    push_str(out, "CPU Total Usage: ");
    push_or(out, &snap.cpu_usage_text, missing);
    push_str(out, "\n");
    push_str(out, "Memory: ");
    let ghost before = out@;
    match &snap.memory_text {
        Some(pair) => {
            assert(snap.memory_text == Some(*pair));
            push_str(out, pair.0.as_str());
            push_str(out, " / ");
            push_str(out, pair.1.as_str());
        },
        None => push_str(out, missing),
    }
    assert(out@ =~= before + memory_part(snap.memory_text, missing@));
    push_str(out, "\n");
    assert(out@ =~= old(out)@ + snapshot_head_spec(*snap, missing@));
}

fn push_gpu_block(out: &mut String, gpus: &Vec<GpuFacts>)
    ensures
        final(out)@ == old(out)@ + gpu_block_spec(gpus@),
{
    if gpus.len() > 0 {
        assert((gpus.len() as u64) as nat == gpus@.len());
        push_str(out, "GPU Count: ");
        push_decimal(out, gpus.len() as u64);
        push_str(out, "\n");
        push_gpus(out, gpus);
        assert(out@ =~= old(out)@ + gpu_block_spec(gpus@));
    } else {
        proof { reveal_strlit(""); }
        assert(out@ =~= old(out)@ + gpu_block_spec(gpus@));
    }
}

fn push_disk_block(out: &mut String, disks: &Vec<DiskFacts>)
    ensures
        final(out)@ == old(out)@ + disk_block_spec(disks@),
{
    if disks.len() > 0 {
        push_str(out, "Disks Count: ");
        push_decimal(out, disks.len() as u64);
        push_str(out, "\n");
        push_disks(out, disks);
        assert(out@ =~= old(out)@ + disk_block_spec(disks@));
    } else {
        proof { reveal_strlit(""); }
        assert(out@ =~= old(out)@ + disk_block_spec(disks@));
    }
}

fn push_snapshot(out: &mut String, snap: &SnapshotFacts, missing: &str)
    ensures
        final(out)@ == old(out)@ + snapshot_lines_spec(*snap, missing@),
{
    push_snapshot_head(out, snap, missing);
    push_gpu_block(out, &snap.gpus);
    push_disk_block(out, &snap.disks);
    assert(out@ =~= old(out)@ + snapshot_lines_spec(*snap, missing@));
}

/// The unredacted report body: the heading, a fenced block with the
/// hardware facts (when known) and the snapshot facts (or the unavailable
/// line), and the closing fence.
pub fn diagnostics_markdown_body(hardware: Option<&HardwareFacts>, snapshot: Option<&SnapshotFacts>, missing: &str) -> (r: String)
    ensures
        r@ == diagnostics_body_spec(
            match hardware { Some(h) => Some(*h), None => None },
            match snapshot { Some(s) => Some(*s), None => None },
            missing@,
        ),
{
    let mut out = String::new();
    push_str(&mut out, "### TaskForest System Diagnostics Report\n\n");
    push_str(&mut out, "```markdown\n");
    let ghost a = out@;
    let ghost hw_part = match hardware {
        Some(h) => hardware_lines_spec(*h, missing@),
        None => ""@,
    };
    match hardware {
        Some(hw) => {
            push_hardware(&mut out, hw, missing);
            assert(out@ =~= a + hw_part);
        },
        None => {
            proof { reveal_strlit(""); }
            assert(out@ =~= a + hw_part);
        },
    }
    let ghost b = out@;
    let ghost snap_part = match snapshot {
        Some(s) => snapshot_lines_spec(*s, missing@),
        None => "System Snapshot: Unavailable\n"@,
    };
    match snapshot {
        Some(snap) => {
            push_snapshot(&mut out, snap, missing);
            assert(out@ =~= b + snap_part);
        },
        None => {
            push_str(&mut out, "System Snapshot: Unavailable\n");
            assert(out@ =~= b + snap_part);
        },
    }
    push_str(&mut out, "```\n");
    assert(out@ =~= diagnostics_body_spec(
        match hardware { Some(h) => Some(*h), None => None },
        match snapshot { Some(s) => Some(*s), None => None },
        missing@,
    ));
    out
}

} // verus!
