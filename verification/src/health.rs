//! The health modal's domain rows: the "count + noun + model" device values,
//! the CPU reading line, the used-of-total gate, the system line, and the
//! summary rows in order with their health.

use vstd::prelude::*;
use crate::i18n::{t, translation, Key, Language};
use crate::text::{decimal, decimal_string, push_str, replace_all, replace_spec, str_eq, string_of};

verus! {

/// The "count + noun + model" value: the singular template for a count of
/// one and the plural template otherwise, with `{count}` and `{model}` filled.
pub open spec fn count_value_spec(language: Language, one: Key, many: Key, count: nat, model: Seq<char>) -> Seq<char> {
    replace_spec(
        replace_spec(translation(language, if count == 1 { one } else { many }), "{count}"@, decimal(count)),
        "{model}"@,
        model,
    )
}

/// Resolve one "count + noun + first model" value: pick the singular template
/// for a count of one and the plural template otherwise, then substitute the
/// `{count}` and `{model}` placeholders.
pub fn count_value(language: Language, one: Key, many: Key, count: usize, model: &str) -> (r: String)
    ensures
        r@ == count_value_spec(language, one, many, count as nat, model@),
{
    let key = if count == 1 { one } else { many };
    let count_text = decimal_string(count as u64);
    proof {
        reveal_strlit("{count}");
        reveal_strlit("{model}");
    }
    let with_count = replace_all(t(language, key), "{count}", count_text.as_str());
    replace_all(with_count.as_str(), "{model}", model)
}

/// A device domain's value and health: with no device reported, the
/// placeholder and unhealthy; otherwise the count value naming the first
/// device, and healthy.
pub fn device_count_value(language: Language, one: Key, many: Key, models: &[String], missing: &str) -> (r: (
    String,
    bool,
))
    ensures
        models@.len() == 0 ==> r.0@ == missing@ && !r.1,
        models@.len() > 0 ==> r.0@ == count_value_spec(language, one, many, models@.len(), models@[0]@) && r.1,
{
    if models.len() == 0 {
        (string_of(missing), false)
    } else {
        (count_value(language, one, many, models.len(), models[0].as_str()), true)
    }
}

/// The used and total readings of a memory domain, when both are known and
/// the total is positive (a zero total is no reading).
pub fn used_of_total(used: Option<u64>, total: Option<u64>) -> (r: Option<(u64, u64)>)
    ensures
        r is Some <==> (used is Some && total is Some && total->Some_0 > 0),
        r is Some ==> r->Some_0 == (used->Some_0, total->Some_0),
{
    match (used, total) {
        (Some(u), Some(t)) => if t > 0 {
            Some((u, t))
        } else {
            None
        },
        _ => None,
    }
}

/// Whether a clock reading is absent: empty or the missing-value dash.
pub open spec fn clock_absent(freq: Seq<char>) -> bool {
    freq.len() == 0 || freq == "\u{2014}"@
}

/// The CPU reading: the formatted usage, joined by a middle dot to the clock
/// readout when one is present; the clock alone without a usage; the
/// placeholder with neither.
pub open spec fn cpu_reading_spec(usage: Option<Seq<char>>, freq: Seq<char>, missing: Seq<char>) -> Seq<char> {
    match usage {
        Some(u) => if clock_absent(freq) {
            u
        } else {
            u + " \u{00B7} "@ + freq
        },
        None => if clock_absent(freq) {
            missing
        } else {
            freq
        },
    }
}

/// The CPU reading of the health summary (see `cpu_reading_spec`).
pub fn cpu_reading_text(usage: Option<&str>, freq: &str, missing: &str) -> (r: String)
    ensures
        r@ == cpu_reading_spec(
            match usage {
                Some(u) => Some(u@),
                None => None,
            },
            freq@,
            missing@,
        ),
{
    let absent = freq.is_empty() || str_eq(freq, "\u{2014}");
    match usage {
        Some(u) => if absent {
            string_of(u)
        } else {
            let mut line = string_of(u);
            push_str(&mut line, " \u{00B7} ");
            push_str(&mut line, freq);
            line
        },
        None => if absent {
            string_of(missing)
        } else {
            string_of(freq)
        },
    }
}

/// The system line: the template with `{uptime}`, `{processes}` and
/// `{threads}` filled in turn (an unknown thread count reads as the
/// placeholder).
pub open spec fn system_value_spec(
    template: Seq<char>,
    uptime: Seq<char>,
    processes: nat,
    threads: Option<nat>,
    missing: Seq<char>,
) -> Seq<char> {
    replace_spec(
        replace_spec(replace_spec(template, "{uptime}"@, uptime), "{processes}"@, decimal(processes)),
        "{threads}"@,
        match threads {
            Some(n) => decimal(n),
            None => missing,
        },
    )
}

/// The system line of the health summary (see `system_value_spec`); the row
/// is healthy when any process is running.
pub fn system_value(template: &str, uptime: &str, processes: usize, threads: Option<usize>, missing: &str) -> (r: (
    String,
    bool,
))
    ensures
        r.0@ == system_value_spec(
            template@,
            uptime@,
            processes as nat,
            match threads {
                Some(n) => Some(n as nat),
                None => None,
            },
            missing@,
        ),
        r.1 == (processes > 0),
{
    proof {
        reveal_strlit("{uptime}");
        reveal_strlit("{processes}");
        reveal_strlit("{threads}");
    }
    let with_uptime = replace_all(template, "{uptime}", uptime);
    let process_text = decimal_string(processes as u64);
    let with_processes = replace_all(with_uptime.as_str(), "{processes}", process_text.as_str());
    let thread_text = match threads {
        Some(n) => decimal_string(n as u64),
        None => string_of(missing),
    };
    (replace_all(with_processes.as_str(), "{threads}", thread_text.as_str()), processes > 0)
}

/// One row of the health summary: the domain label, its value, and whether
/// the domain reads healthy.
#[derive(Clone, Debug)]
pub struct HealthRow {
    pub label: String,
    pub value: String,
    pub healthy: bool,
}

/// A row as plain values.
pub open spec fn health_row_view(row: HealthRow) -> (Seq<char>, Seq<char>, bool) {
    (row.label@, row.value@, row.healthy)
}

/// The row labels of the health summary, in the active language.
#[derive(Clone, Debug)]
pub struct HealthLabels {
    pub score: String,
    pub cpu: String,
    pub memory: String,
    pub swap: String,
    pub disk: String,
    pub network: String,
    pub gpu: String,
    pub system: String,
}

/// What the health summary reads of the latest snapshot. Text pieces arrive
/// formatted; the device and system values come from `device_count_value`
/// and `system_value`.
#[derive(Clone, Debug)]
pub struct HealthInputs {
    /// The health score (0..=100), when one is computed, and its summary line.
    pub score: Option<u32>,
    pub score_summary: String,
    /// The formatted CPU usage, when observed.
    pub cpu_usage: Option<String>,
    /// The clock readout (empty or a dash when absent).
    pub cpu_frequency: String,
    /// The formatted CPU temperature, when observed.
    pub cpu_temperature: Option<String>,
    /// Used and total memory bytes, with the formatted "used / total" line.
    pub memory_used: Option<u64>,
    pub memory_total: Option<u64>,
    pub memory_text: String,
    /// Used and total swap bytes, with the formatted "used / total" line.
    pub swap_used: Option<u64>,
    pub swap_total: Option<u64>,
    pub swap_text: String,
    /// The disk, network, GPU and system values with their health.
    pub disk_value: String,
    pub disk_healthy: bool,
    pub network_value: String,
    pub network_healthy: bool,
    pub gpu_value: String,
    pub gpu_healthy: bool,
    pub system_value: String,
    pub system_healthy: bool,
}

/// The value of a used-of-total row: the formatted line when both amounts
/// are known and the total is positive, the placeholder otherwise.
pub open spec fn amount_row(used: Option<u64>, total: Option<u64>, text: Seq<char>, missing: Seq<char>) -> (Seq<char>, bool) {
    if used is Some && total is Some && total->Some_0 > 0 {
        (text, true)
    } else {
        (missing, false)
    }
}

/// The rows of the health summary, in order: the score (only when one is
/// computed; healthy from 80 up), the CPU (usage and clock, then the
/// temperature; healthy when the usage is observed), memory and swap
/// (healthy when both amounts are known), then disk, network, GPU and
/// system as their values say.
pub open spec fn health_rows_spec(labels: HealthLabels, inputs: HealthInputs, missing: Seq<char>) -> Seq<(Seq<char>, Seq<char>, bool)> {
    let score_rows = match inputs.score {
        Some(score) => seq![(labels.score@, inputs.score_summary@, score >= 80)],
        None => Seq::empty(),
    };
    let usage = match inputs.cpu_usage {
        Some(u) => Some(u@),
        None => None,
    };
    let temperature = match inputs.cpu_temperature {
        Some(t) => t@,
        None => missing,
    };
    let cpu = cpu_reading_spec(usage, inputs.cpu_frequency@, missing) + " \u{00B7} "@ + temperature;
    let memory = amount_row(inputs.memory_used, inputs.memory_total, inputs.memory_text@, missing);
    let swap = amount_row(inputs.swap_used, inputs.swap_total, inputs.swap_text@, missing);
    score_rows + seq![
        (labels.cpu@, cpu, inputs.cpu_usage is Some),
        (labels.memory@, memory.0, memory.1),
        (labels.swap@, swap.0, swap.1),
        (labels.disk@, inputs.disk_value@, inputs.disk_healthy),
        (labels.network@, inputs.network_value@, inputs.network_healthy),
        (labels.gpu@, inputs.gpu_value@, inputs.gpu_healthy),
        (labels.system@, inputs.system_value@, inputs.system_healthy),
    ]
}

fn amount_value(used: Option<u64>, total: Option<u64>, text: &str, missing: &str) -> (r: (String, bool))
    ensures
        (r.0@, r.1) == amount_row(used, total, text@, missing@),
{
    match used_of_total(used, total) {
        Some(_) => (string_of(text), true),
        None => (string_of(missing), false),
    }
}

fn push_row(rows: &mut Vec<HealthRow>, label: &str, value: String, healthy: bool)
    ensures
        final(rows)@.map_values(|r: HealthRow| health_row_view(r))
            == old(rows)@.map_values(|r: HealthRow| health_row_view(r)).push((label@, value@, healthy)),
{
    let ghost before = rows@;
    rows.push(HealthRow { label: string_of(label), value, healthy });
    proof {
        assert(rows@.map_values(|r: HealthRow| health_row_view(r)) =~= before.map_values(
            |r: HealthRow| health_row_view(r),
        ).push((label@, value@, healthy)));
    }
}

/// The rows of the health summary (see `health_rows_spec`).
pub fn health_rows(labels: &HealthLabels, inputs: &HealthInputs, missing: &str) -> (r: Vec<HealthRow>)
    ensures
        r@.map_values(|row: HealthRow| health_row_view(row)) == health_rows_spec(*labels, *inputs, missing@),
{
    let mut rows: Vec<HealthRow> = Vec::new();
    proof {
        assert(rows@.map_values(|row: HealthRow| health_row_view(row)) =~= Seq::<(Seq<char>, Seq<char>, bool)>::empty());
    }
    match inputs.score {
        Some(score) => {
            push_row(&mut rows, labels.score.as_str(), string_of(inputs.score_summary.as_str()), score >= 80);
        },
        None => {},
    }
    let usage: Option<&str> = match &inputs.cpu_usage {
        Some(u) => Some(u.as_str()),
        None => None,
    };
    let mut cpu = cpu_reading_text(usage, inputs.cpu_frequency.as_str(), missing);
    push_str(&mut cpu, " \u{00B7} ");
    match &inputs.cpu_temperature {
        Some(t) => push_str(&mut cpu, t.as_str()),
        None => push_str(&mut cpu, missing),
    }
    push_row(&mut rows, labels.cpu.as_str(), cpu, inputs.cpu_usage.is_some());
    let (memory, memory_ok) = amount_value(inputs.memory_used, inputs.memory_total, inputs.memory_text.as_str(), missing);
    push_row(&mut rows, labels.memory.as_str(), memory, memory_ok);
    let (swap, swap_ok) = amount_value(inputs.swap_used, inputs.swap_total, inputs.swap_text.as_str(), missing);
    push_row(&mut rows, labels.swap.as_str(), swap, swap_ok);
    push_row(&mut rows, labels.disk.as_str(), string_of(inputs.disk_value.as_str()), inputs.disk_healthy);
    push_row(&mut rows, labels.network.as_str(), string_of(inputs.network_value.as_str()), inputs.network_healthy);
    push_row(&mut rows, labels.gpu.as_str(), string_of(inputs.gpu_value.as_str()), inputs.gpu_healthy);
    push_row(&mut rows, labels.system.as_str(), string_of(inputs.system_value.as_str()), inputs.system_healthy);
    proof {
        let spec = health_rows_spec(*labels, *inputs, missing@);
        assert(rows@.map_values(|row: HealthRow| health_row_view(row)) =~= spec);
    }
    rows
}

} // verus!
