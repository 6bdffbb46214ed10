//! The About dialog's facts: the key/value rows it renders and the clipboard
//! payload of its copy-details action, built from those same rows.

use vstd::prelude::*;
use crate::export::{or_else_text, push_or, HardwareFacts};
use crate::text::{decimal, decimal_string, push_str, string_of};

verus! {

/// One About row: the catalog key of its label and its rendered value.
#[derive(Clone, Debug)]
pub struct AboutRow {
    pub label_key: &'static str,
    pub value: String,
}

/// A row's key and value as plain text.
pub open spec fn about_row_view(row: AboutRow) -> (Seq<char>, Seq<char>) {
    (row.label_key@, row.value@)
}

/// The hardware facts with every field unknown (what the dialog shows before
/// the first hardware probe).
pub open spec fn unknown_hardware() -> HardwareFacts {
    HardwareFacts {
        os_name: None,
        os_version: None,
        kernel_version: None,
        hostname: None,
        architecture: None,
        motherboard_vendor: None,
        motherboard_model: None,
        firmware_release_date: None,
        secure_boot: None,
        cpu_brand: None,
        cpu_cores: None,
        total_memory_mb: None,
    }
}

/// The About rows, in order: hostname, OS name and version, kernel,
/// architecture, motherboard vendor and model, firmware date, the secure-boot
/// state (only when it is known), CPU, logical cores, installed memory in MiB
/// and uptime. An unknown value renders `missing` rather than dropping its row.
pub open spec fn about_rows_spec(
    h: HardwareFacts,
    uptime: Option<Seq<char>>,
    missing: Seq<char>,
    enabled: Seq<char>,
    disabled: Seq<char>,
) -> Seq<(Seq<char>, Seq<char>)> {
    let head = seq![
        ("system.hostname"@, or_else_text(h.hostname, missing)),
        ("system.field.os_name"@, or_else_text(h.os_name, missing)),
        ("system.field.os_version"@, or_else_text(h.os_version, missing)),
        ("system.kernel"@, or_else_text(h.kernel_version, missing)),
        ("system.field.architecture"@, or_else_text(h.architecture, missing)),
        ("system.field.motherboard_vendor"@, or_else_text(h.motherboard_vendor, missing)),
        ("system.field.motherboard_model"@, or_else_text(h.motherboard_model, missing)),
        ("system.field.firmware_release_date"@, or_else_text(h.firmware_release_date, missing)),
    ];
    let secure = match h.secure_boot {
        Some(on) => seq![("system.secure_boot"@, if on { enabled } else { disabled })],
        None => Seq::<(Seq<char>, Seq<char>)>::empty(),
    };
    let tail = seq![
        ("common.cpu"@, or_else_text(h.cpu_brand, missing)),
        ("common.logical_cores"@, match h.cpu_cores {
            Some(cores) => decimal(cores as nat),
            None => missing,
        }),
        ("system.field.installed_memory"@, match h.total_memory_mb {
            Some(mib) => decimal(mib as nat) + " MiB"@,
            None => missing,
        }),
        ("common.uptime"@, match uptime {
            Some(u) => u,
            None => missing,
        }),
    ];
    head + secure + tail
}

fn push_row(rows: &mut Vec<AboutRow>, label_key: &'static str, value: String)
    ensures
        final(rows)@.map_values(|row: AboutRow| about_row_view(row))
            == old(rows)@.map_values(|row: AboutRow| about_row_view(row)).push((label_key@, value@)),
{
    let ghost before = rows@;
    rows.push(AboutRow { label_key, value });
    proof {
        assert(rows@ == before.push(AboutRow { label_key, value }));
        assert(rows@.map_values(|row: AboutRow| about_row_view(row)) =~= before.map_values(
            |row: AboutRow| about_row_view(row),
        ).push((label_key@, value@)));
    }
}

fn text_value(value: &Option<String>, missing: &str) -> (r: String)
    ensures
        r@ == or_else_text(*value, missing@),
{
    let mut out = String::new();
    push_or(&mut out, value, missing);
    proof {
        assert(out@ =~= or_else_text(*value, missing@));
    }
    out
}

fn unknown_facts() -> (r: HardwareFacts)
    ensures
        r == unknown_hardware(),
{
    HardwareFacts {
        os_name: None,
        os_version: None,
        kernel_version: None,
        hostname: None,
        architecture: None,
        motherboard_vendor: None,
        motherboard_model: None,
        firmware_release_date: None,
        secure_boot: None,
        cpu_brand: None,
        cpu_cores: None,
        total_memory_mb: None,
    }
}

/// The About rows for the probed hardware (unknown before the first probe)
/// and the formatted uptime of the latest snapshot (`None` without one). The
/// placeholder and the enabled / disabled words are the caller's catalog
/// lines.
pub fn about_rows(
    hardware: Option<&HardwareFacts>,
    uptime: Option<&str>,
    missing: &str,
    enabled: &str,
    disabled: &str,
) -> (r: Vec<AboutRow>)
    ensures
        r@.map_values(|row: AboutRow| about_row_view(row)) == about_rows_spec(
            match hardware {
                Some(h) => *h,
                None => unknown_hardware(),
            },
            match uptime {
                Some(u) => Some(u@),
                None => None,
            },
            missing@,
            enabled@,
            disabled@,
        ),
{
    let unknown = unknown_facts();
    let h: &HardwareFacts = match hardware {
        Some(h) => h,
        None => &unknown,
    };
    let mut rows: Vec<AboutRow> = Vec::new();
    push_row(&mut rows, "system.hostname", text_value(&h.hostname, missing));
    push_row(&mut rows, "system.field.os_name", text_value(&h.os_name, missing));
    push_row(&mut rows, "system.field.os_version", text_value(&h.os_version, missing));
    push_row(&mut rows, "system.kernel", text_value(&h.kernel_version, missing));
    push_row(&mut rows, "system.field.architecture", text_value(&h.architecture, missing));
    push_row(&mut rows, "system.field.motherboard_vendor", text_value(&h.motherboard_vendor, missing));
    push_row(&mut rows, "system.field.motherboard_model", text_value(&h.motherboard_model, missing));
    push_row(&mut rows, "system.field.firmware_release_date", text_value(&h.firmware_release_date, missing));
    let ghost head = rows@.map_values(|row: AboutRow| about_row_view(row));
    match h.secure_boot {
        Some(on) => {
            let value = if on { string_of(enabled) } else { string_of(disabled) };
            push_row(&mut rows, "system.secure_boot", value);
        },
        None => {},
    }
    let ghost with_secure = rows@.map_values(|row: AboutRow| about_row_view(row));
    push_row(&mut rows, "common.cpu", text_value(&h.cpu_brand, missing));
    let cores = match h.cpu_cores {
        Some(c) => decimal_string(c as u64),
        None => string_of(missing),
    };
    push_row(&mut rows, "common.logical_cores", cores);
    let memory = match h.total_memory_mb {
        Some(mib) => {
            let mut m = decimal_string(mib);
            push_str(&mut m, " MiB");
            m
        },
        None => string_of(missing),
    };
    push_row(&mut rows, "system.field.installed_memory", memory);
    let up = match uptime {
        Some(u) => string_of(u),
        None => string_of(missing),
    };
    push_row(&mut rows, "common.uptime", up);
    proof {
        let spec_rows = about_rows_spec(
            *h,
            match uptime {
                Some(u) => Some(u@),
                None => None,
            },
            missing@,
            enabled@,
            disabled@,
        );
        assert(head.len() == 8);
        assert(with_secure.subrange(0, 8) =~= head);
        assert(rows@.map_values(|row: AboutRow| about_row_view(row)) =~= spec_rows);
    }
    rows
}

/// One rendered About line: the translated label and the value.
#[derive(Clone, Debug)]
pub struct InfoLine {
    pub label: String,
    pub value: String,
}

/// The lines of the copy payload: each row on a line of its own, as
/// `label: value`, each preceded by a newline.
pub open spec fn info_lines_text(lines: Seq<InfoLine>) -> Seq<char>
    decreases lines.len(),
{
    if lines.len() == 0 {
        Seq::empty()
    } else {
        info_lines_text(lines.drop_last()) + "\n"@ + lines.last().label@ + ": "@ + lines.last().value@
    }
}

/// The clipboard payload of the copy-details action: the version line, then
/// exactly the rows the dialog renders, one per line as `label: value`.
pub fn about_copy_payload(version: &str, lines: &[InfoLine]) -> (r: String)
    ensures
        r@ == version@ + info_lines_text(lines@),
{
    let mut payload = string_of(version);
    let mut i: usize = 0;
    while i < lines.len()
        invariant
            i <= lines@.len(),
            payload@ == version@ + info_lines_text(lines@.subrange(0, i as int)),
        decreases lines@.len() - i,
    {
        proof {
            let next = lines@.subrange(0, i + 1);
            assert(next.drop_last() =~= lines@.subrange(0, i as int));
            assert(next.last() == lines@[i as int]);
        }
        push_str(&mut payload, "\n");
        push_str(&mut payload, lines[i].label.as_str());
        push_str(&mut payload, ": ");
        push_str(&mut payload, lines[i].value.as_str());
        i = i + 1;
        proof {
            assert(payload@ =~= version@ + info_lines_text(lines@.subrange(0, i as int)));
        }
    }
    assert(lines@.subrange(0, lines@.len() as int) =~= lines@);
    payload
}

} // verus!
