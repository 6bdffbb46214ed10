//! The CPU-affinity editor's facts: the selected-CPU count, the status line,
//! the hexadecimal mask readout, when editing is offered, and the chip grid.
//! A missing or failed read never becomes a guessed all-CPU mask.

use vstd::prelude::*;
use crate::text::{decimal, decimal_string, push_char, push_str, string_of, trim, trim_spec};

verus! {

/// Whether a CPU index names one of the machine's logical CPUs.
pub open spec fn in_range(cpu: u32, logical_cpu_count: usize) -> bool {
    (cpu as int) < (logical_cpu_count as int)
}

/// How many of the selected CPUs exist on this machine.
pub fn affinity_selected_count(cpus: &[u32], logical_cpu_count: usize) -> (r: usize)
    ensures
        r == cpus@.filter(|c: u32| in_range(c, logical_cpu_count)).len(),
{
    let ghost pred = |c: u32| in_range(c, logical_cpu_count);
    let mut count: usize = 0;
    let mut i: usize = 0;
    while i < cpus.len()
        invariant
            i <= cpus@.len(),
            pred == (|c: u32| in_range(c, logical_cpu_count)),
            count == cpus@.subrange(0, i as int).filter(pred).len(),
            count <= i,
        decreases cpus@.len() - i,
    {
        proof {
            let pre = cpus@.subrange(0, i as int);
            pre.lemma_filter_push(cpus@[i as int], pred);
            assert(pre.push(cpus@[i as int]) =~= cpus@.subrange(0, i + 1));
        }
        if (cpus[i] as usize) < logical_cpu_count {
            count = count + 1;
        }
        i = i + 1;
    }
    assert(cpus@.subrange(0, cpus@.len() as int) =~= cpus@);
    count
}

/// The status line above the grid: the read failure when the read failed;
/// the collecting notice while no mask has been read; otherwise
/// `selected / count` and the caller's "logical CPUs" label.
pub open spec fn affinity_status_spec(
    failure: Option<Seq<char>>,
    cpus_known: bool,
    selected: nat,
    logical_cpu_count: nat,
    collecting: Seq<char>,
    cpus_label: Seq<char>,
) -> Seq<char> {
    match failure {
        Some(f) => "Current affinity unavailable: "@ + f,
        None => if !cpus_known {
            collecting
        } else {
            decimal(selected) + " / "@ + decimal(logical_cpu_count) + " "@ + cpus_label
        },
    }
}

/// The status line above the grid (see `affinity_status_spec`); `failure` is
/// the failure's rendered name.
pub fn affinity_status_line(
    failure: Option<&str>,
    cpus_known: bool,
    selected: usize,
    logical_cpu_count: usize,
    collecting: &str,
    cpus_label: &str,
) -> (r: String)
    ensures
        r@ == affinity_status_spec(
            match failure {
                Some(f) => Some(f@),
                None => None,
            },
            cpus_known,
            selected as nat,
            logical_cpu_count as nat,
            collecting@,
            cpus_label@,
        ),
{
    match failure {
        Some(f) => {
            let mut line = string_of("Current affinity unavailable: ");
            push_str(&mut line, f);
            line
        },
        None => if !cpus_known {
            string_of(collecting)
        } else {
            let mut line = decimal_string(selected as u64);
            push_str(&mut line, " / ");
            let total = decimal_string(logical_cpu_count as u64);
            push_str(&mut line, total.as_str());
            push_str(&mut line, " ");
            push_str(&mut line, cpus_label);
            line
        },
    }
}

/// The header line naming the target: its name (the unknown-process label
/// when blank).
pub fn affinity_target_name(name: &str, unknown_process: &str) -> (r: String)
    ensures
        trim_spec(name@).len() == 0 ==> r@ == unknown_process@,
        trim_spec(name@).len() > 0 ==> r@ == name@,
{
    let trimmed = trim(name);
    if trimmed.as_str().is_empty() {
        string_of(unknown_process)
    } else {
        string_of(name)
    }
}

/// Whether bit `b` of a mask is set.
pub open spec fn mask_bit(mask: u128, b: u128) -> bool {
    (mask >> b) & 1u128 == 1u128
}

proof fn lemma_mask_or_bit(mask: u128, c: u128, b: u128)
    requires
        c < 128,
        b < 128,
    ensures
        mask_bit(mask | (1u128 << c), b) == (mask_bit(mask, b) || b == c),
{
    assert(((mask | (1u128 << c)) >> b) & 1u128 == 1u128 <==> (((mask >> b) & 1u128 == 1u128) || b == c))
        by (bit_vector)
        requires
            c < 128,
            b < 128,
    ;
}

proof fn lemma_mask_empty(b: u128)
    requires
        b < 128,
    ensures
        !mask_bit(0u128, b),
{
    assert((0u128 >> b) & 1u128 != 1u128) by (bit_vector);
}

/// The affinity mask of the selected CPUs: bit `b` is set exactly when CPU
/// `b` is selected (CPUs from 128 up have no bit).
pub fn affinity_mask(cpus: &[u32]) -> (r: u128)
    ensures
        forall|b: u128| b < 128 ==> (mask_bit(r, b) <==> exists|j: int| 0 <= j < cpus@.len() && cpus@[j] as u128 == b),
{
    let mut mask: u128 = 0;
    let mut i: usize = 0;
    proof {
        assert forall|b: u128| b < 128 implies !mask_bit(mask, b) by {
            lemma_mask_empty(b);
        }
    }
    while i < cpus.len()
        invariant
            i <= cpus@.len(),
            forall|b: u128| b < 128 ==> (mask_bit(mask, b) <==> exists|j: int| 0 <= j < i && cpus@[j] as u128 == b),
        decreases cpus@.len() - i,
    {
        let cpu = cpus[i];
        let ghost before = mask;
        if cpu < 128 {
            let c: u128 = cpu as u128;
            mask = mask | (1u128 << c);
            proof {
                assert forall|b: u128| b < 128 implies (mask_bit(mask, b) <==> exists|j: int|
                    0 <= j < i + 1 && cpus@[j] as u128 == b) by {
                    lemma_mask_or_bit(before, c, b);
                    if b == c {
                        assert(cpus@[i as int] as u128 == b);
                    }
                    if exists|j: int| 0 <= j < i + 1 && cpus@[j] as u128 == b {
                        let j = choose|j: int| 0 <= j < i + 1 && cpus@[j] as u128 == b;
                        if j < i {
                        } else {
                            assert(b == c);
                        }
                    }
                }
            }
        } else {
            proof {
                assert forall|b: u128| b < 128 implies (mask_bit(mask, b) <==> exists|j: int|
                    0 <= j < i + 1 && cpus@[j] as u128 == b) by {
                    if exists|j: int| 0 <= j < i + 1 && cpus@[j] as u128 == b {
                        let j = choose|j: int| 0 <= j < i + 1 && cpus@[j] as u128 == b;
                        if j == i {
                            assert(cpus@[i as int] >= 128);
                        }
                    }
                }
            }
        }
        i = i + 1;
    }
    mask
}

/// The uppercase hexadecimal digit of a value below sixteen.
pub open spec fn hex_upper(d: nat) -> char {
    if d < 10 {
        ((d + 48) as u8) as char
    } else {
        ((d + 55) as u8) as char
    }
}

/// The low `width` hexadecimal digits of `v`, most significant first.
pub open spec fn hex_digits(v: nat, width: nat) -> Seq<char>
    decreases width,
{
    if width == 0 {
        Seq::empty()
    } else {
        hex_digits(v / 16, (width - 1) as nat).push(hex_upper(v % 16))
    }
}

/// How many hex digits the readout shows: 8 up to 32 CPUs, 16 up to 64, 32
/// beyond.
pub open spec fn mask_width(logical_cpu_count: usize) -> nat {
    if logical_cpu_count <= 32 {
        8
    } else if logical_cpu_count <= 64 {
        16
    } else {
        32
    }
}

fn hex_digit_char(d: u128) -> (c: char)
    requires
        d < 16,
    ensures
        c == hex_upper(d as nat),
{
    if d < 10 {
        ((d + 48) as u8) as char
    } else {
        ((d + 55) as u8) as char
    }
}

fn push_hex(out: &mut String, v: u128, width: usize)
    ensures
        final(out)@ == old(out)@ + hex_digits(v as nat, width as nat),
    decreases width,
{
    if width == 0 {
        assert(old(out)@ + hex_digits(v as nat, 0) =~= old(out)@);
        return;
    }
    push_hex(out, v / 16, width - 1);
    push_char(out, hex_digit_char(v % 16));
    assert(out@ =~= old(out)@ + hex_digits(v as nat, width as nat));
}

/// The mask readout: `0x` and the mask's low 8, 16 or 32 uppercase hex
/// digits, by the machine's CPU count.
pub fn affinity_mask_text(mask: u128, logical_cpu_count: usize) -> (r: String)
    ensures
        r@ == "0x"@ + hex_digits(mask as nat, mask_width(logical_cpu_count)),
{
    let width: usize = if logical_cpu_count <= 32 {
        8
    } else if logical_cpu_count <= 64 {
        16
    } else {
        32
    };
    let mut out = string_of("0x");
    push_hex(&mut out, mask, width);
    out
}

/// Whether the editor offers its presets, grid and apply button: only once
/// a mask has been read and the read did not fail.
pub fn affinity_editable(cpus_known: bool, read_failed: bool) -> (r: bool)
    ensures
        r <==> (cpus_known && !read_failed),
{
    cpus_known && !read_failed
}

/// Whether the performance / efficiency core presets show: only when the
/// hardware reports a core breakdown.
pub fn core_presets_shown(core_breakdown_total: Option<usize>) -> (r: bool)
    ensures
        r <==> (core_breakdown_total is Some && core_breakdown_total->Some_0 > 0),
{
    match core_breakdown_total {
        Some(total) => total > 0,
        None => false,
    }
}

/// Chips per grid row.
pub const AFFINITY_GRID_COLUMNS: usize = 8;

/// The CPUs the grid lists: every logical CPU with a 32-bit index.
pub open spec fn grid_cpu_count(logical_cpu_count: usize) -> nat {
    if logical_cpu_count as int <= 0x1_0000_0000 {
        logical_cpu_count as nat
    } else {
        0x1_0000_0000
    }
}

/// The chip grid: the listed CPUs in order, eight to a row, the last row
/// holding the remainder.
pub open spec fn grid_row_spec(n: nat, row: int) -> Seq<u32> {
    let start = row * 8;
    let end = if start + 8 <= n { start + 8 } else { n as int };
    Seq::new((end - start) as nat, |j: int| (start + j) as u32)
}

/// The chip grid's rows of CPU indices (see `grid_row_spec`).
pub fn affinity_grid_rows(logical_cpu_count: usize) -> (r: Vec<Vec<u32>>)
    ensures
        r@.len() == (grid_cpu_count(logical_cpu_count) + 7) / 8,
        forall|k: int| 0 <= k < r@.len() ==> (#[trigger] r@[k])@ == grid_row_spec(grid_cpu_count(logical_cpu_count), k),
{
    let ghost n = grid_cpu_count(logical_cpu_count);
    let limit: u64 = if logical_cpu_count as u64 <= 0xffff_ffffu64 {
        logical_cpu_count as u64
    } else {
        0x1_0000_0000u64
    };
    assert(limit as nat == n);
    let mut rows: Vec<Vec<u32>> = Vec::new();
    let mut current: Vec<u32> = Vec::new();
    let mut cpu: u64 = 0;
    while cpu < limit
        invariant
            limit as nat == n,
            n <= 0x1_0000_0000,
            cpu <= limit,
            rows@.len() == cpu / 8,
            current@.len() == cpu % 8,
            forall|k: int| 0 <= k < rows@.len() ==> (#[trigger] rows@[k])@ == grid_row_spec(n, k),
            current@ == Seq::new((cpu % 8) as nat, |j: int| ((cpu / 8) * 8 + j) as u32),
        decreases limit - cpu,
    {
        current.push(cpu as u32);
        cpu = cpu + 1;
        if current.len() == AFFINITY_GRID_COLUMNS {
            proof {
                assert(cpu % 8 == 0);
                assert(current@ =~= grid_row_spec(n, rows@.len() as int));
            }
            rows.push(current);
            current = Vec::new();
            proof {
                assert(current@ =~= Seq::new((cpu % 8) as nat, |j: int| ((cpu / 8) * 8 + j) as u32));
            }
        } else {
            proof {
                assert(current@ =~= Seq::new((cpu % 8) as nat, |j: int| ((cpu / 8) * 8 + j) as u32));
            }
        }
    }
    if current.len() > 0 {
        proof {
            assert(current@ =~= grid_row_spec(n, rows@.len() as int));
        }
        rows.push(current);
    }
    rows
}

} // verus!
