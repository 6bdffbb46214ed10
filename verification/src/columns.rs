//! The Applications table's column kit: the display order, the column
//! chooser, the Trend cell's position, the stable contract identities, the
//! header labels and sort arrows, and the viewport row range.

use vstd::prelude::*;
use crate::text::{push_str, string_of};
use crate::saved_views::{parse_sort_token, sort_from_token, sort_token, sort_token_spec, ColumnSet, SortCol};

verus! {

/// The direction of the active sort.
#[derive(Clone, Copy, Debug, PartialEq, Eq, Structural)]
pub enum SortDir {
    Asc,
    Desc,
}

/// The stable identity of a column in the toolkit-neutral column inventory,
/// spelled exactly like its persisted sort / hidden-column token.
pub fn sort_col_contract_id(column: SortCol) -> (r: &'static str)
    ensures
        r@ == sort_token_spec(column),
{
    sort_token(column)
}

/// The column a persisted column-width token names; the spelling is exact and
/// an unknown token names none.
pub fn sort_col_from_contract_id(token: &str) -> (r: Option<SortCol>)
    ensures
        r == parse_sort_token(token@),
{
    sort_from_token(token)
}

/// The catalog key of a column's header label.
pub open spec fn column_label_key_spec(column: SortCol) -> Seq<char> {
    match column {
        SortCol::Pid => "proc.pid"@,
        SortCol::Name => "common.name"@,
        SortCol::Cpu => "common.cpu"@,
        SortCol::Memory => "common.memory"@,
        SortCol::Pss => "proc.pss"@,
        SortCol::Swap => "proc.swap"@,
        SortCol::User => "common.user"@,
        SortCol::State => "common.state"@,
        SortCol::Threads => "common.threads"@,
        SortCol::CpuTime => "proc.cpu_time"@,
        SortCol::DiskRead => "proc.disk_read"@,
        SortCol::DiskWrite => "proc.disk_write"@,
        SortCol::StartTime => "proc.start"@,
        SortCol::Fds => "proc.fds"@,
        SortCol::Nice => "proc.nice"@,
    }
}

/// The catalog key of a column's localized header label.
pub fn localized_sort_column_label(column: SortCol) -> (r: &'static str)
    ensures
        r@ == column_label_key_spec(column),
{
    match column {
        SortCol::Pid => "proc.pid",
        SortCol::Name => "common.name",
        SortCol::Cpu => "common.cpu",
        SortCol::Memory => "common.memory",
        SortCol::Pss => "proc.pss",
        SortCol::Swap => "proc.swap",
        SortCol::User => "common.user",
        SortCol::State => "common.state",
        SortCol::Threads => "common.threads",
        SortCol::CpuTime => "proc.cpu_time",
        SortCol::DiskRead => "proc.disk_read",
        SortCol::DiskWrite => "proc.disk_write",
        SortCol::StartTime => "proc.start",
        SortCol::Fds => "proc.fds",
        SortCol::Nice => "proc.nice",
    }
}

/// The arrow on a header: `▲` or `▼` on the active sort column by direction,
/// nothing on every other column.
pub fn sort_arrow(active: (SortCol, SortDir), column: SortCol) -> (r: Option<&'static str>)
    ensures
        r is Some <==> column == active.0,
        r is Some && active.1 == SortDir::Asc ==> r->Some_0@ == "\u{25B2}"@,
        r is Some && active.1 == SortDir::Desc ==> r->Some_0@ == "\u{25BC}"@,
{
    if column == active.0 {
        match active.1 {
            SortDir::Asc => Some("\u{25B2}"),
            SortDir::Desc => Some("\u{25BC}"),
        }
    } else {
        None
    }
}

/// The table's columns in display order; Swap only when the host has a swap
/// device.
pub open spec fn apps_column_order_spec(swap_visible: bool) -> Seq<SortCol> {
    seq![SortCol::Pid, SortCol::Name, SortCol::Cpu, SortCol::Memory, SortCol::Pss] + (if swap_visible {
        seq![SortCol::Swap]
    } else {
        Seq::empty()
    }) + seq![
        SortCol::DiskRead,
        SortCol::DiskWrite,
        SortCol::CpuTime,
        SortCol::Threads,
        SortCol::User,
        SortCol::State,
        SortCol::Fds,
        SortCol::Nice,
        SortCol::StartTime,
    ]
}

/// The table's columns in display order.
pub fn apps_column_order(swap_visible: bool) -> (r: Vec<SortCol>)
    ensures
        r@ == apps_column_order_spec(swap_visible),
{
    let mut columns = vec![SortCol::Pid, SortCol::Name, SortCol::Cpu, SortCol::Memory, SortCol::Pss];
    if swap_visible {
        columns.push(SortCol::Swap);
    }
    columns.push(SortCol::DiskRead);
    columns.push(SortCol::DiskWrite);
    columns.push(SortCol::CpuTime);
    columns.push(SortCol::Threads);
    columns.push(SortCol::User);
    columns.push(SortCol::State);
    columns.push(SortCol::Fds);
    columns.push(SortCol::Nice);
    columns.push(SortCol::StartTime);
    assert(columns@ =~= apps_column_order_spec(swap_visible));
    columns
}

/// Whether the column chooser keeps a column: Name always, any other column
/// unless hidden.
pub open spec fn keeps_column(hidden: Set<SortCol>, column: SortCol) -> bool {
    column == SortCol::Name || !hidden.contains(column)
}

/// The displayed columns: the display order with the hidden columns removed
/// (Name stays even if a stale set lists it).
pub fn visible_apps_column_order(swap_visible: bool, hidden: &ColumnSet) -> (r: Vec<SortCol>)
    ensures
        r@ == apps_column_order_spec(swap_visible).filter(|c: SortCol| keeps_column(hidden.view(), c)),
{
    let all = apps_column_order(swap_visible);
    let ghost pred = |c: SortCol| keeps_column(hidden.view(), c);
    let mut out: Vec<SortCol> = Vec::new();
    let mut i: usize = 0;
    while i < all.len()
        invariant
            i <= all@.len(),
            all@ == apps_column_order_spec(swap_visible),
            pred == (|c: SortCol| keeps_column(hidden.view(), c)),
            out@ == all@.subrange(0, i as int).filter(pred),
        decreases all@.len() - i,
    {
        proof {
            let pre = all@.subrange(0, i as int);
            pre.lemma_filter_push(all@[i as int], pred);
            assert(pre.push(all@[i as int]) =~= all@.subrange(0, i + 1));
        }
        let column = all[i];
        if column == SortCol::Name || !hidden.contains(column) {
            out.push(column);
        }
        i = i + 1;
    }
    assert(all@.subrange(0, all@.len() as int) =~= all@);
    out
}

fn position(columns: &[SortCol], target: SortCol) -> (r: Option<usize>)
    ensures
        r is Some ==> r->Some_0 < columns@.len() && columns@[r->Some_0 as int] == target && forall|j: int|
            0 <= j < r->Some_0 ==> columns@[j] != target,
        r is None ==> forall|j: int| 0 <= j < columns@.len() ==> columns@[j] != target,
{
    let mut i: usize = 0;
    while i < columns.len()
        invariant
            i <= columns@.len(),
            forall|j: int| 0 <= j < i ==> columns@[j] != target,
        decreases columns@.len() - i,
    {
        if columns[i] == target {
            return Some(i);
        }
        i = i + 1;
    }
    None
}

/// Whether `column` first occurs in `columns` at `index`.
pub open spec fn first_at(columns: Seq<SortCol>, column: SortCol, index: int) -> bool {
    0 <= index < columns.len() && columns[index] == column && forall|j: int| 0 <= j < index ==> columns[j] != column
}

/// Where the Trend cell goes among the displayed columns: right after CPU
/// when CPU is displayed, else right after Name, else first.
pub fn trend_header_index_for(columns: &[SortCol]) -> (r: usize)
    ensures
        columns@.contains(SortCol::Cpu) ==> r >= 1 && first_at(columns@, SortCol::Cpu, r - 1),
        !columns@.contains(SortCol::Cpu) && columns@.contains(SortCol::Name) ==> r >= 1 && first_at(
            columns@,
            SortCol::Name,
            r - 1,
        ),
        !columns@.contains(SortCol::Cpu) && !columns@.contains(SortCol::Name) ==> r == 0,
        r <= columns@.len(),
{
    let _count = columns.len();
    match position(columns, SortCol::Cpu) {
        Some(i) => {
            assert(columns@.contains(SortCol::Cpu));
            i + 1
        },
        None => {
            assert(!columns@.contains(SortCol::Cpu));
            match position(columns, SortCol::Name) {
                Some(i) => i + 1,
                None => {
                    assert(!columns@.contains(SortCol::Name));
                    0
                },
            }
        },
    }
}

/// The rows a viewport window builds: `start` and `end` clamped to the row
/// count, with the end never before the start.
pub fn clamped_row_range(row_count: usize, start: usize, end: usize) -> (r: (usize, usize))
    ensures
        r.0 == (if start < row_count { start } else { row_count }),
        r.1 == (if end < r.0 { r.0 } else if end < row_count { end } else { row_count }),
        r.0 <= r.1 <= row_count,
{
    let s = if start < row_count { start } else { row_count };
    let e = if end < row_count { end } else { row_count };
    let e = if e < s { s } else { e };
    (s, e)
}

/// Whether a column's header edge resizes it: every column but the identity
/// column (Name).
pub fn column_resizable(column: SortCol) -> (r: bool)
    ensures
        r <==> column != SortCol::Name,
{
    column != SortCol::Name
}

/// The label of one column-chooser entry: a check mark for a shown column,
/// a dot for a hidden one, then the column's label.
pub fn column_menu_entry_label(shown: bool, label: &str) -> (r: String)
    ensures
        shown ==> r@ == "\u{2713} "@ + label@,
        !shown ==> r@ == "\u{00B7} "@ + label@,
{
    let mut out = if shown { string_of("\u{2713} ") } else { string_of("\u{00B7} ") };
    push_str(&mut out, label);
    out
}

/// Whether a column gets a keyboard width stepper: it is resizable and shown
/// (a hidden column has no header to drag).
pub open spec fn has_stepper(hidden: Set<SortCol>, column: SortCol) -> bool {
    column != SortCol::Name && !hidden.contains(column)
}

/// The columns with a keyboard width stepper, in display order (the swap
/// column included).
pub fn stepper_columns(hidden: &ColumnSet) -> (r: Vec<SortCol>)
    ensures
        r@ == apps_column_order_spec(true).filter(|c: SortCol| has_stepper(hidden.view(), c)),
{
    let all = apps_column_order(true);
    let ghost pred = |c: SortCol| has_stepper(hidden.view(), c);
    let mut out: Vec<SortCol> = Vec::new();
    let mut i: usize = 0;
    while i < all.len()
        invariant
            i <= all@.len(),
            all@ == apps_column_order_spec(true),
            pred == (|c: SortCol| has_stepper(hidden.view(), c)),
            out@ == all@.subrange(0, i as int).filter(pred),
        decreases all@.len() - i,
    {
        proof {
            let pre = all@.subrange(0, i as int);
            pre.lemma_filter_push(all@[i as int], pred);
            assert(pre.push(all@[i as int]) =~= all@.subrange(0, i + 1));
        }
        let column = all[i];
        if column_resizable(column) && !hidden.contains(column) {
            out.push(column);
        }
        i = i + 1;
    }
    assert(all@.subrange(0, all@.len() as int) =~= all@);
    out
}

/// Every column with a width stepper is a displayed column: the chooser
/// never offers to size a column the table does not show.
pub proof fn lemma_stepper_columns_are_shown(hidden: Set<SortCol>, column: SortCol)
    requires
        apps_column_order_spec(true).filter(|c: SortCol| has_stepper(hidden, c)).contains(column),
    ensures
        apps_column_order_spec(true).filter(|c: SortCol| keeps_column(hidden, c)).contains(column),
{
    let order = apps_column_order_spec(true);
    let steps = |c: SortCol| has_stepper(hidden, c);
    let keeps = |c: SortCol| keeps_column(hidden, c);
    let i = choose|i: int| 0 <= i < order.filter(steps).len() && order.filter(steps)[i] == column;
    order.lemma_filter_pred(steps, i);
    order.lemma_filter_contains_rev(steps, column);
    let j = choose|j: int| 0 <= j < order.len() && order[j] == column;
    order.lemma_filter_contains(keeps, j);
}

/// Name is the mandatory identity column: whatever the hidden set holds,
/// the displayed columns include it.
pub proof fn lemma_name_always_shown(swap_visible: bool, hidden: Set<SortCol>)
    ensures
        apps_column_order_spec(swap_visible).filter(|c: SortCol| keeps_column(hidden, c)).contains(SortCol::Name),
{
    let order = apps_column_order_spec(swap_visible);
    assert(order[1] == SortCol::Name);
    order.lemma_filter_contains(|c: SortCol| keeps_column(hidden, c), 1);
}

} // verus!
