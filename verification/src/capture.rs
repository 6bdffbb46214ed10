//! Readiness-marker lines for pixel-capture evidence runs, and the stable
//! capture vocabulary for pages and Performance devices.
//!
//! Writing a marker to its file is the caller's business; this module builds
//! the exact lines.

use vstd::prelude::*;
use crate::focus::{page_key, page_key_spec, AppPage};
use crate::text::push_str;

verus! {

/// One selectable Performance-page resource.
#[derive(Clone, Copy, Debug, PartialEq, Eq, Structural)]
pub enum PerfDevice {
    Cpu,
    Memory,
    Disk(usize),
    Network(usize),
    Gpu(usize),
    Battery(usize),
    Fan(usize),
}

/// The capture spelling of a Performance resource.
pub open spec fn device_name_spec(device: PerfDevice) -> Seq<char> {
    match device {
        PerfDevice::Cpu => "cpu"@,
        PerfDevice::Memory => "memory"@,
        PerfDevice::Disk(_) => "disk"@,
        PerfDevice::Network(_) => "network"@,
        PerfDevice::Gpu(_) => "gpu"@,
        PerfDevice::Battery(_) => "battery"@,
        PerfDevice::Fan(_) => "fan"@,
    }
}

/// The readiness marker line for one capture event.
pub open spec fn marker_line_spec(event: Seq<char>, mode: Seq<char>, page: Seq<char>) -> Seq<char> {
    "ICED_CAPTURE_MARKER event="@ + event + " mode="@ + mode + " page="@ + page + "\n"@
}

/// The target marker line for one captured page/resource.
pub open spec fn target_marker_line_spec(page: Seq<char>, target: Seq<char>) -> Seq<char> {
    "ICED_CAPTURE_MARKER event=target_ready mode=demo page="@ + page + " device="@ + target + "\n"@
}

/// Build one stable marker line for the capture evidence runner.
pub fn marker_line(event: &str, mode: &str, page: &str) -> (line: String)
    ensures
        line@ == marker_line_spec(event@, mode@, page@),
{
    let mut line = String::new();
    push_str(&mut line, "ICED_CAPTURE_MARKER event=");
    push_str(&mut line, event);
    push_str(&mut line, " mode=");
    push_str(&mut line, mode);
    push_str(&mut line, " page=");
    push_str(&mut line, page);
    push_str(&mut line, "\n");
    assert(line@ =~= marker_line_spec(event@, mode@, page@));
    line
}

/// Stable capture vocabulary for the Performance selector.
pub fn device_name(device: PerfDevice) -> (name: &'static str)
    ensures
        name@ == device_name_spec(device),
{
    match device {
        PerfDevice::Cpu => "cpu",
        PerfDevice::Memory => "memory",
        PerfDevice::Disk(_) => "disk",
        PerfDevice::Network(_) => "network",
        PerfDevice::Gpu(_) => "gpu",
        PerfDevice::Battery(_) => "battery",
        PerfDevice::Fan(_) => "fan",
    }
}

/// Build the target marker for a canonical capture page/resource.
pub fn target_marker_line(page: &str, target: &str) -> (line: String)
    ensures
        line@ == target_marker_line_spec(page@, target@),
{
    let mut line = String::new();
    push_str(&mut line, "ICED_CAPTURE_MARKER event=target_ready mode=demo page=");
    push_str(&mut line, page);
    push_str(&mut line, " device=");
    push_str(&mut line, target);
    push_str(&mut line, "\n");
    assert(line@ =~= target_marker_line_spec(page@, target@));
    line
}

/// The canonical capture spelling of one shared page.
pub fn page_name(page: AppPage) -> (name: &'static str)
    ensures
        name@ == page_key_spec(page),
{
    page_key(page)
}

/// The target marker that proves a Performance resource was captured: the
/// `performance` page with the resource's capture spelling.
pub fn device_marker_line(device: PerfDevice) -> (line: String)
    ensures
        line@ == target_marker_line_spec("performance"@, device_name_spec(device)),
{
    target_marker_line("performance", device_name(device))
}

} // verus!
