//! The unit family and Y-axis rule of a per-device mini-graph.
//!
//! `Percent` pins the frame ceiling at 100; every other scale tracks the
//! finite peak of its window. Besides the ceiling, the scale picks the
//! summary/readout unit suffix.

use vstd::prelude::*;

verus! {

/// The Y-axis scaling rule and unit family of a per-device graph.
#[derive(Clone, Copy, Debug, PartialEq, Eq, Structural)]
pub enum DeviceMetricScale {
    /// Fixed 0..100 ceiling (utilization %, battery charge %).
    Percent,
    /// Ceiling tracks the finite peak (unitless fallback).
    AutoPeak,
    /// Bytes-per-second magnitude formatted through a unit pair.
    BytesPerSecond { use_bytes: bool, use_base2: bool },
    /// Fan speed.
    Rpm,
    /// Power.
    Watts,
    /// Temperature.
    Celsius,
    /// Clock.
    Megahertz,
}

/// The system-wide trend series.
#[derive(Clone, Copy, Debug, PartialEq, Eq, Structural)]
pub enum TrendSeries {
    CpuUsagePercent,
    MemoryUsagePercent,
    GpuUsagePercent,
    DiskActiveTimePct,
    DiskBytesPerSec,
    NetworkBytesPerSec,
    CpuTemperatureC,
    CpuFrequencyMhz,
    CpuPowerW,
}

/// The scale a system-wide series uses.
pub open spec fn series_scale(series: TrendSeries) -> DeviceMetricScale {
    match series {
        TrendSeries::CpuUsagePercent | TrendSeries::MemoryUsagePercent
        | TrendSeries::GpuUsagePercent | TrendSeries::DiskActiveTimePct => DeviceMetricScale::Percent,
        TrendSeries::DiskBytesPerSec | TrendSeries::NetworkBytesPerSec => {
            DeviceMetricScale::BytesPerSecond { use_bytes: true, use_base2: true }
        },
        TrendSeries::CpuTemperatureC => DeviceMetricScale::Celsius,
        TrendSeries::CpuFrequencyMhz => DeviceMetricScale::Megahertz,
        TrendSeries::CpuPowerW => DeviceMetricScale::Watts,
    }
}

/// The scale a system-wide series uses: percentages pin at 100, throughputs
/// format as binary bytes per second, the rest carry their unit.
impl From<TrendSeries> for DeviceMetricScale {
    fn from(series: TrendSeries) -> (r: Self) {
        match series {
            TrendSeries::CpuUsagePercent | TrendSeries::MemoryUsagePercent
            | TrendSeries::GpuUsagePercent | TrendSeries::DiskActiveTimePct => DeviceMetricScale::Percent,
            TrendSeries::DiskBytesPerSec | TrendSeries::NetworkBytesPerSec => {
                DeviceMetricScale::BytesPerSecond { use_bytes: true, use_base2: true }
            },
            TrendSeries::CpuTemperatureC => DeviceMetricScale::Celsius,
            TrendSeries::CpuFrequencyMhz => DeviceMetricScale::Megahertz,
            TrendSeries::CpuPowerW => DeviceMetricScale::Watts,
        }
    }
}

impl vstd::std_specs::convert::FromSpecImpl<TrendSeries> for DeviceMetricScale {
    open spec fn obeys_from_spec() -> bool {
        true
    }

    open spec fn from_spec(series: TrendSeries) -> DeviceMetricScale {
        series_scale(series)
    }
}

impl DeviceMetricScale {
    /// Whether the frame ceiling is the fixed 100 (otherwise the window's
    /// finite peak).
    pub fn fixed_percent_ceiling(self) -> (r: bool)
        ensures
            r == (self == DeviceMetricScale::Percent),
    {
        match self {
            DeviceMetricScale::Percent => true,
            _ => false,
        }
    }
}

/// The unit suffix of a scale's readouts.
pub open spec fn unit_suffix_spec(scale: DeviceMetricScale) -> Seq<char> {
    match scale {
        DeviceMetricScale::Percent => "%"@,
        DeviceMetricScale::AutoPeak | DeviceMetricScale::BytesPerSecond { .. } => ""@,
        DeviceMetricScale::Rpm => " RPM"@,
        DeviceMetricScale::Watts => " W"@,
        DeviceMetricScale::Celsius => " \u{b0}C"@,
        DeviceMetricScale::Megahertz => " MHz"@,
    }
}

/// The unit suffix of a scale's summary and hover readouts.
pub fn scale_unit_suffix(scale: DeviceMetricScale) -> (r: &'static str)
    ensures
        r@ == unit_suffix_spec(scale),
{
    match scale {
        DeviceMetricScale::Percent => "%",
        DeviceMetricScale::AutoPeak | DeviceMetricScale::BytesPerSecond { .. } => "",
        DeviceMetricScale::Rpm => " RPM",
        DeviceMetricScale::Watts => " W",
        DeviceMetricScale::Celsius => " \u{b0}C",
        DeviceMetricScale::Megahertz => " MHz",
    }
}

/// Every percentage series shares the fixed 100 ceiling, and no magnitude
/// series does.
pub proof fn lemma_percent_series_pin_ceiling(series: TrendSeries)
    ensures
        (series_scale(series) == DeviceMetricScale::Percent) <==> (series == TrendSeries::CpuUsagePercent
            || series == TrendSeries::MemoryUsagePercent || series == TrendSeries::GpuUsagePercent
            || series == TrendSeries::DiskActiveTimePct),
{
}

} // verus!
