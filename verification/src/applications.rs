//! Decisions of the Applications page: the empty-state message, the
//! multi-select hint, the priority presets, the per-column visibility tags
//! of a table row, and what each kind of row does when pressed.

use vstd::prelude::*;
use crate::columns::apps_column_order_spec;
use crate::focus::{AppPage, FocusTarget};
use crate::saved_views::{ColumnSet, SortCol};
use crate::text::{decimal, push_str, replace_all, replace_spec, string_of, trim, trim_spec};

verus! {

/// The empty-state message: the "no processes" line when the trimmed query is
/// empty, otherwise the "no processes match" line followed by the trimmed
/// query in curly quotes. The two catalog lines are the caller's.
pub fn empty_state_message(query: &str, no_processes: &str, no_processes_match: &str) -> (r: String)
    ensures
        trim_spec(query@).len() == 0 ==> r@ == no_processes@,
        trim_spec(query@).len() > 0 ==> r@ == no_processes_match@ + " \u{201C}"@ + trim_spec(query@) + "\u{201D}"@,
{
    let trimmed = trim(query);
    if trimmed.as_str().is_empty() {
        string_of(no_processes)
    } else {
        let mut out = string_of(no_processes_match);
        push_str(&mut out, " \u{201C}");
        push_str(&mut out, trimmed.as_str());
        push_str(&mut out, "\u{201D}");
        assert(out@ =~= no_processes_match@ + " \u{201C}"@ + trim_spec(query@) + "\u{201D}"@);
        out
    }
}

/// The action-bar hint: with more than one selected row the multi-select
/// template with `{count}` filled in, otherwise the single-row note. The two
/// catalog lines are the caller's.
pub fn selection_hint(selected_count: usize, multi_template: &str, single_note: &str) -> (r: String)
    ensures
        selected_count > 1 ==> r@ == replace_spec(multi_template@, "{count}"@, decimal(selected_count as nat)),
        selected_count <= 1 ==> r@ == single_note@,
{
    if selected_count > 1 {
        let count = crate::text::decimal_string(selected_count as u64);
        proof {
            reveal_strlit("{count}");
        }
        replace_all(multi_template, "{count}", count.as_str())
    } else {
        string_of(single_note)
    }
}

/// The priority tier of a batch priority change.
#[derive(Clone, Copy, Debug, PartialEq, Eq, Structural)]
pub enum PriorityTier {
    High,
    Normal,
    Low,
}

/// A batch action over the selected processes.
#[derive(Clone, Copy, Debug, PartialEq, Eq, Structural)]
pub enum ProcessBatchAction {
    Kill,
    Suspend,
    Resume,
    SetPriority(PriorityTier),
}

/// The three nice-level presets of the action bar.
#[derive(Clone, Copy, Debug, PartialEq, Eq, Structural)]
pub enum PriorityChoice {
    High,
    Normal,
    Low,
}

/// The tier a preset stands for.
pub open spec fn choice_tier(choice: PriorityChoice) -> PriorityTier {
    match choice {
        PriorityChoice::High => PriorityTier::High,
        PriorityChoice::Normal => PriorityTier::Normal,
        PriorityChoice::Low => PriorityTier::Low,
    }
}

impl PriorityChoice {
    /// Every preset, in menu order.
    pub fn all() -> (r: [PriorityChoice; 3])
        ensures
            r@ == seq![PriorityChoice::High, PriorityChoice::Normal, PriorityChoice::Low],
    {
        [PriorityChoice::High, PriorityChoice::Normal, PriorityChoice::Low]
    }

    /// The priority tier of this preset.
    pub fn tier(self) -> (r: PriorityTier)
        ensures
            r == choice_tier(self),
    {
        match self {
            PriorityChoice::High => PriorityTier::High,
            PriorityChoice::Normal => PriorityTier::Normal,
            PriorityChoice::Low => PriorityTier::Low,
        }
    }

    /// The batch action this preset submits.
    pub fn action(self) -> (r: ProcessBatchAction)
        ensures
            r == ProcessBatchAction::SetPriority(choice_tier(self)),
    {
        ProcessBatchAction::SetPriority(self.tier())
    }
}

/// The per-column visibility tags zipped against a row's cells. Tree/flat
/// rows carry one cell per column; grouped aggregate rows fuse Pid+Name into
/// one leading identity cell, so their tags start at `Name`. `None` tags the
/// trend sparkline cell, which never hides.
pub open spec fn visible_column_tags_spec(swap_visible: bool, grouped: bool) -> Seq<Option<SortCol>> {
    let head = if grouped {
        seq![Some(SortCol::Name), Some(SortCol::Cpu)]
    } else {
        seq![Some(SortCol::Pid), Some(SortCol::Name), Some(SortCol::Cpu)]
    };
    let mid = head + seq![None, Some(SortCol::Memory), Some(SortCol::Pss)];
    let with_swap = if swap_visible { mid.push(Some(SortCol::Swap)) } else { mid };
    with_swap + seq![
        Some(SortCol::DiskRead),
        Some(SortCol::DiskWrite),
        Some(SortCol::CpuTime),
        Some(SortCol::Threads),
        Some(SortCol::User),
        Some(SortCol::State),
        Some(SortCol::Fds),
        Some(SortCol::Nice),
        Some(SortCol::StartTime),
    ]
}

/// The per-column visibility tags of one row.
pub fn visible_column_tags(swap_visible: bool, grouped: bool) -> (r: Vec<Option<SortCol>>)
    ensures
        r@ == visible_column_tags_spec(swap_visible, grouped),
{
    let mut columns: Vec<Option<SortCol>> = if grouped {
        vec![Some(SortCol::Name), Some(SortCol::Cpu)]
    } else {
        vec![Some(SortCol::Pid), Some(SortCol::Name), Some(SortCol::Cpu)]
    };
    columns.push(None);
    columns.push(Some(SortCol::Memory));
    columns.push(Some(SortCol::Pss));
    if swap_visible {
        columns.push(Some(SortCol::Swap));
    }
    columns.push(Some(SortCol::DiskRead));
    columns.push(Some(SortCol::DiskWrite));
    columns.push(Some(SortCol::CpuTime));
    columns.push(Some(SortCol::Threads));
    columns.push(Some(SortCol::User));
    columns.push(Some(SortCol::State));
    columns.push(Some(SortCol::Fds));
    columns.push(Some(SortCol::Nice));
    columns.push(Some(SortCol::StartTime));
    assert(columns@ =~= visible_column_tags_spec(swap_visible, grouped));
    columns
}

/// Grouped rows carry exactly one tag fewer than flat rows (the fused
/// identity cell), and the swap column adds exactly one tag.
pub proof fn lemma_column_tag_counts(swap_visible: bool)
    ensures
        visible_column_tags_spec(swap_visible, true).len() + 1 == visible_column_tags_spec(swap_visible, false).len(),
        visible_column_tags_spec(false, true).len() + 1 == visible_column_tags_spec(true, true).len(),
        visible_column_tags_spec(false, false).len() + 1 == visible_column_tags_spec(true, false).len(),
{
}

/// A row's cells line up with the table header: a flat row's tags are the
/// header's columns in the header's order, with the trend cell right after
/// CPU; a grouped row's tags are the same without the leading Pid (its
/// identity cell spans Pid and Name). In particular, with the swap column
/// shown, Swap is the seventh cell of a flat row and the sixth of a grouped
/// one, right after PSS.
pub proof fn lemma_row_tags_follow_header(swap_visible: bool)
    ensures
        ({
            let header = apps_column_order_spec(swap_visible);
            let flat = visible_column_tags_spec(swap_visible, false);
            &&& flat == header.subrange(0, 3).map_values(|c: SortCol| Some(c)) + seq![None]
                + header.subrange(3, header.len() as int).map_values(|c: SortCol| Some(c))
            &&& visible_column_tags_spec(swap_visible, true) == flat.drop_first()
        }),
        swap_visible ==> visible_column_tags_spec(true, false)[6] == Some(SortCol::Swap)
            && visible_column_tags_spec(true, false)[5] == Some(SortCol::Pss),
        swap_visible ==> visible_column_tags_spec(true, true)[5] == Some(SortCol::Swap),
{
    let header = apps_column_order_spec(swap_visible);
    let flat = visible_column_tags_spec(swap_visible, false);
    assert(flat =~= header.subrange(0, 3).map_values(|c: SortCol| Some(c)) + seq![None]
        + header.subrange(3, header.len() as int).map_values(|c: SortCol| Some(c)));
    assert(visible_column_tags_spec(swap_visible, true) =~= flat.drop_first());
}

/// Hiding one column (other than Name, which never hides) drops exactly
/// that column's cell from a row whose cells match its tags one for one.
pub proof fn lemma_hiding_drops_that_cell<T>(cells: Seq<T>, swap_visible: bool, grouped: bool, column: SortCol, i: int)
    requires
        cells.len() == visible_column_tags_spec(swap_visible, grouped).len(),
        0 <= i < cells.len(),
        visible_column_tags_spec(swap_visible, grouped)[i] == Some(column),
        column != SortCol::Name,
    ensures
        kept_cells(cells, visible_column_tags_spec(swap_visible, grouped), set![column], cells.len()) == cells.remove(i),
{
    let tags = visible_column_tags_spec(swap_visible, grouped);
    assert forall|j: int| 0 <= j < tags.len() && j != i implies tags[j] != Some(column) by {
        lemma_tags_distinct(swap_visible, grouped, i, j);
    }
    lemma_kept_one_hidden(cells, tags, column, i, cells.len());
}

/// No column tags two cells of a row.
proof fn lemma_tags_distinct(swap_visible: bool, grouped: bool, i: int, j: int)
    requires
        0 <= i < visible_column_tags_spec(swap_visible, grouped).len(),
        0 <= j < visible_column_tags_spec(swap_visible, grouped).len(),
        i != j,
        visible_column_tags_spec(swap_visible, grouped)[i] is Some,
    ensures
        visible_column_tags_spec(swap_visible, grouped)[i] != visible_column_tags_spec(swap_visible, grouped)[j],
{
    let tags = visible_column_tags_spec(swap_visible, grouped);
    if swap_visible {
        if grouped {
            assert(tags =~= seq![Some(SortCol::Name), Some(SortCol::Cpu), None, Some(SortCol::Memory), Some(SortCol::Pss), Some(SortCol::Swap), Some(SortCol::DiskRead), Some(SortCol::DiskWrite), Some(SortCol::CpuTime), Some(SortCol::Threads), Some(SortCol::User), Some(SortCol::State), Some(SortCol::Fds), Some(SortCol::Nice), Some(SortCol::StartTime)]);
        } else {
            assert(tags =~= seq![Some(SortCol::Pid), Some(SortCol::Name), Some(SortCol::Cpu), None, Some(SortCol::Memory), Some(SortCol::Pss), Some(SortCol::Swap), Some(SortCol::DiskRead), Some(SortCol::DiskWrite), Some(SortCol::CpuTime), Some(SortCol::Threads), Some(SortCol::User), Some(SortCol::State), Some(SortCol::Fds), Some(SortCol::Nice), Some(SortCol::StartTime)]);
        }
    } else {
        if grouped {
            assert(tags =~= seq![Some(SortCol::Name), Some(SortCol::Cpu), None, Some(SortCol::Memory), Some(SortCol::Pss), Some(SortCol::DiskRead), Some(SortCol::DiskWrite), Some(SortCol::CpuTime), Some(SortCol::Threads), Some(SortCol::User), Some(SortCol::State), Some(SortCol::Fds), Some(SortCol::Nice), Some(SortCol::StartTime)]);
        } else {
            assert(tags =~= seq![Some(SortCol::Pid), Some(SortCol::Name), Some(SortCol::Cpu), None, Some(SortCol::Memory), Some(SortCol::Pss), Some(SortCol::DiskRead), Some(SortCol::DiskWrite), Some(SortCol::CpuTime), Some(SortCol::Threads), Some(SortCol::User), Some(SortCol::State), Some(SortCol::Fds), Some(SortCol::Nice), Some(SortCol::StartTime)]);
        }
    }
}

/// With one hidden column whose only tag is at `i`, the first `n` kept cells
/// are the first `n` cells without the `i`-th.
proof fn lemma_kept_one_hidden<T>(cells: Seq<T>, tags: Seq<Option<SortCol>>, column: SortCol, i: int, n: nat)
    requires
        n <= cells.len(),
        n <= tags.len(),
        0 <= i < tags.len(),
        tags[i] == Some(column),
        column != SortCol::Name,
        forall|j: int| 0 <= j < tags.len() && j != i ==> tags[j] != Some(column),
    ensures
        n <= i ==> kept_cells(cells, tags, set![column], n) == cells.subrange(0, n as int),
        n > i ==> kept_cells(cells, tags, set![column], n) == cells.subrange(0, n as int).remove(i),
    decreases n,
{
    if n == 0 {
        assert(kept_cells(cells, tags, set![column], n) =~= cells.subrange(0, 0));
    } else {
        lemma_kept_one_hidden(cells, tags, column, i, (n - 1) as nat);
        let k = (n - 1) as int;
        if k == i {
            assert(!keep_tag(tags[k], set![column]));
            assert(cells.subrange(0, n as int).remove(i) =~= cells.subrange(0, k));
        } else {
            assert(keep_tag(tags[k], set![column])) by {
                match tags[k] {
                    Some(c) => {
                        assert(c != column);
                    },
                    None => {},
                }
            }
            if n <= i {
                assert(cells.subrange(0, n as int) =~= cells.subrange(0, k).push(cells[k]));
            } else {
                assert(cells.subrange(0, n as int).remove(i) =~= cells.subrange(0, k).remove(i).push(cells[k]));
            }
        }
    }
}

/// Whether a cell survives the column chooser: the trend cell (no tag) and
/// Name always, any other column unless hidden.
pub open spec fn keep_tag(tag: Option<SortCol>, hidden: Set<SortCol>) -> bool {
    match tag {
        None => true,
        Some(column) => column == SortCol::Name || !hidden.contains(column),
    }
}

/// The first `n` cells, each zipped with its tag, with the hidden ones
/// dropped.
pub open spec fn kept_cells<T>(cells: Seq<T>, tags: Seq<Option<SortCol>>, hidden: Set<SortCol>, n: nat) -> Seq<T>
    decreases n,
{
    if n == 0 {
        Seq::empty()
    } else {
        kept_cells(cells, tags, hidden, (n - 1) as nat) + (if keep_tag(tags[n - 1], hidden) {
            seq![cells[n - 1]]
        } else {
            Seq::empty()
        })
    }
}

/// A row's cells with the chooser applied: each cell is zipped with its
/// column tag (the zip stops at the shorter list) and kept unless its column
/// is hidden.
pub fn visible_column_elements<T>(elements: Vec<T>, swap_visible: bool, hidden: &ColumnSet, grouped: bool) -> (r: Vec<T>)
    ensures
        r@ == kept_cells(
            elements@,
            visible_column_tags_spec(swap_visible, grouped),
            hidden.view(),
            if elements@.len() < visible_column_tags_spec(swap_visible, grouped).len() {
                elements@.len()
            } else {
                visible_column_tags_spec(swap_visible, grouped).len()
            },
        ),
{
    let tags = visible_column_tags(swap_visible, grouped);
    let ghost initial = elements@;
    let n: usize = if elements.len() < tags.len() { elements.len() } else { tags.len() };
    let mut rest = elements;
    let mut out: Vec<T> = Vec::new();
    let mut i: usize = 0;
    while i < n
        invariant
            n <= initial.len(),
            n <= tags@.len(),
            tags@ == visible_column_tags_spec(swap_visible, grouped),
            i <= n,
            rest@ == initial.subrange(i as int, initial.len() as int),
            out@ == kept_cells(initial, tags@, hidden.view(), i as nat),
        decreases n - i,
    {
        let cell = rest.remove(0);
        let keep = match tags[i] {
            None => true,
            Some(column) => column == SortCol::Name || !hidden.contains(column),
        };
        if keep {
            out.push(cell);
        }
        proof {
            assert(rest@ =~= initial.subrange(i + 1, initial.len() as int));
        }
        i = i + 1;
    }
    out
}

/// The expand marker of a tree row: a right triangle when collapsed, a down
/// triangle when expanded, a dot on a leaf.
pub open spec fn tree_marker(has_children: bool, collapsed: bool) -> Seq<char> {
    if has_children {
        if collapsed { "\u{25B6}"@ } else { "\u{25BC}"@ }
    } else {
        "\u{00B7}"@
    }
}

/// Two spaces per indent level.
pub open spec fn indent(levels: nat) -> Seq<char>
    decreases levels,
{
    if levels == 0 {
        Seq::empty()
    } else {
        indent((levels - 1) as nat) + "  "@
    }
}

/// The guide in front of a tree row's name: at depth zero the marker and a
/// space; deeper, two spaces per level above the parent's, the corner guide,
/// the marker and a space.
pub open spec fn tree_guide_spec(depth: nat, has_children: bool, collapsed: bool) -> Seq<char> {
    if depth > 0 {
        indent((depth - 1) as nat) + "\u{2514}\u{2500} "@ + tree_marker(has_children, collapsed) + " "@
    } else {
        tree_marker(has_children, collapsed) + " "@
    }
}

/// The guide in front of a tree row's name (see `tree_guide_spec`).
pub fn tree_guide_prefix(depth: usize, has_children: bool, collapsed: bool) -> (r: String)
    ensures
        r@ == tree_guide_spec(depth as nat, has_children, collapsed),
{
    let marker: &str = if has_children {
        if collapsed { "\u{25B6}" } else { "\u{25BC}" }
    } else {
        "\u{00B7}"
    };
    let mut out = String::new();
    if depth > 0 {
        let mut level: usize = 0;
        while level < depth - 1
            invariant
                depth > 0,
                level <= depth - 1,
                out@ == indent(level as nat),
            decreases depth - 1 - level,
        {
            push_str(&mut out, "  ");
            level = level + 1;
        }
        push_str(&mut out, "\u{2514}\u{2500} ");
    }
    push_str(&mut out, marker);
    push_str(&mut out, " ");
    proof {
        assert(out@ =~= tree_guide_spec(depth as nat, has_children, collapsed));
    }
    out
}

/// The expansion marker of a group header: down when expanded, right when
/// collapsed.
pub fn group_marker(expanded: bool) -> (r: &'static str)
    ensures
        expanded ==> r@ == "\u{25BC}"@,
        !expanded ==> r@ == "\u{25B6}"@,
{
    if expanded { "\u{25BC}" } else { "\u{25B6}" }
}

/// The member count of a group header, as `x` and the count.
pub fn member_count_label(member_count: usize) -> (r: String)
    ensures
        r@ == "x"@ + decimal(member_count as nat),
{
    let mut out = string_of("x");
    let digits = crate::text::decimal_string(member_count as u64);
    push_str(&mut out, digits.as_str());
    out
}

/// An aggregate count cell: the count and whether it is a measured zero, or
/// the placeholder (never a zero) when the aggregate has no current value.
pub fn aggregate_count_text(value: Option<u64>, missing: &str) -> (r: (String, bool))
    ensures
        value is Some ==> r.0@ == decimal(value->Some_0 as nat) && r.1 == (value->Some_0 == 0),
        value is None ==> r.0@ == missing@ && !r.1,
{
    match value {
        Some(v) => (crate::text::decimal_string(v), v == 0),
        None => (string_of(missing), false),
    }
}

/// Whether the Swap column shows: a measured zero swap total confirms there
/// is no swap device; no snapshot, or an unknown total, keeps it visible.
/// `swap_total` is `None` without a snapshot, else the snapshot's current
/// swap total.
pub fn swap_column_visible(swap_total: Option<Option<u64>>) -> (r: bool)
    ensures
        r <==> !(swap_total == Some(Some(0u64))),
{
    match swap_total {
        Some(Some(total)) => total != 0,
        _ => true,
    }
}

/// What the action bar shows: the batch confirmation while a batch waits,
/// else the end-task confirmation while one waits, else the actions.
#[derive(Clone, Copy, Debug, PartialEq, Eq, Structural)]
pub enum ActionBarMode {
    ConfirmBatch,
    ConfirmEnd,
    Actions,
}

/// The action bar's mode; a pending batch takes precedence.
pub fn action_bar_mode(pending_batch: bool, pending_end: bool) -> (r: ActionBarMode)
    ensures
        pending_batch ==> r == ActionBarMode::ConfirmBatch,
        !pending_batch && pending_end ==> r == ActionBarMode::ConfirmEnd,
        !pending_batch && !pending_end ==> r == ActionBarMode::Actions,
{
    if pending_batch {
        ActionBarMode::ConfirmBatch
    } else if pending_end {
        ActionBarMode::ConfirmEnd
    } else {
        ActionBarMode::Actions
    }
}

/// One item of the action bar.
#[derive(Clone, Copy, Debug, PartialEq, Eq, Structural)]
pub enum ActionBarItem {
    EndTask,
    Kill,
    OpenLocation,
    SearchOnline,
    Suspend,
    Resume,
    Affinity,
    ChooseColumns,
    RunNewTask,
    Priority,
    SelectionHint,
}

/// The action bar's items, in order. With an application row selected, the
/// verbs that act on one process (end task, open location, search online,
/// affinity) are left out; the batch verbs stay.
pub open spec fn action_bar_items_spec(application_selected: bool) -> Seq<ActionBarItem> {
    if application_selected {
        seq![
            ActionBarItem::Kill,
            ActionBarItem::Suspend,
            ActionBarItem::Resume,
            ActionBarItem::ChooseColumns,
            ActionBarItem::RunNewTask,
            ActionBarItem::Priority,
            ActionBarItem::SelectionHint,
        ]
    } else {
        seq![
            ActionBarItem::EndTask,
            ActionBarItem::Kill,
            ActionBarItem::OpenLocation,
            ActionBarItem::SearchOnline,
            ActionBarItem::Suspend,
            ActionBarItem::Resume,
            ActionBarItem::Affinity,
            ActionBarItem::ChooseColumns,
            ActionBarItem::RunNewTask,
            ActionBarItem::Priority,
            ActionBarItem::SelectionHint,
        ]
    }
}

/// The action bar's items for the current selection.
pub fn action_bar_items(application_selected: bool) -> (r: Vec<ActionBarItem>)
    ensures
        r@ == action_bar_items_spec(application_selected),
{
    let mut items: Vec<ActionBarItem> = Vec::new();
    if !application_selected {
        items.push(ActionBarItem::EndTask);
    }
    items.push(ActionBarItem::Kill);
    if !application_selected {
        items.push(ActionBarItem::OpenLocation);
        items.push(ActionBarItem::SearchOnline);
    }
    items.push(ActionBarItem::Suspend);
    items.push(ActionBarItem::Resume);
    if !application_selected {
        items.push(ActionBarItem::Affinity);
    }
    items.push(ActionBarItem::ChooseColumns);
    items.push(ActionBarItem::RunNewTask);
    items.push(ActionBarItem::Priority);
    items.push(ActionBarItem::SelectionHint);
    assert(items@ =~= action_bar_items_spec(application_selected));
    items
}

/// How many processes the selection's verbs reach: every live descendant of
/// a selected application row, else the multi-selected processes.
pub fn selected_target_count(application_descendants: Option<usize>, selected_processes: usize) -> (r: usize)
    ensures
        application_descendants is Some ==> r == application_descendants->Some_0,
        application_descendants is None ==> r == selected_processes,
{
    match application_descendants {
        Some(n) => n,
        None => selected_processes,
    }
}

/// The count beside the search trigger: the number of listed processes, a
/// space and the caller's catalog noun.
pub fn process_count_label(count: usize, noun: &str) -> (r: String)
    ensures
        r@ == decimal(count as nat) + " "@ + noun@,
{
    let mut out = crate::text::decimal_string(count as u64);
    push_str(&mut out, " ");
    push_str(&mut out, noun);
    out
}

/// The batch action an action-bar button requests: kill, suspend and resume
/// reach every selected process; the other items act otherwise.
pub fn action_bar_batch(item: ActionBarItem) -> (r: Option<ProcessBatchAction>)
    ensures
        item == ActionBarItem::Kill ==> r == Some(ProcessBatchAction::Kill),
        item == ActionBarItem::Suspend ==> r == Some(ProcessBatchAction::Suspend),
        item == ActionBarItem::Resume ==> r == Some(ProcessBatchAction::Resume),
        !(item == ActionBarItem::Kill || item == ActionBarItem::Suspend || item == ActionBarItem::Resume) ==> r is None,
{
    match item {
        ActionBarItem::Kill => Some(ProcessBatchAction::Kill),
        ActionBarItem::Suspend => Some(ProcessBatchAction::Suspend),
        ActionBarItem::Resume => Some(ProcessBatchAction::Resume),
        _ => None,
    }
}

/// Whether a row highlights as selected: its live identity belongs to the
/// multi-select set, or its row key is the selected row.
pub open spec fn row_selected_spec(
    identity: Option<u64>,
    selected_identities: Seq<u64>,
    selected_row: Option<u64>,
    row_key: Option<u64>,
) -> bool {
    (identity is Some && selected_identities.contains(identity->Some_0)) || (row_key is Some
        && selected_row == row_key)
}

/// Whether a row highlights as selected (see `row_selected_spec`). A group
/// header, which has no live identity, passes `None` and no identities.
pub fn row_is_selected(
    identity: Option<u64>,
    selected_identities: &[u64],
    selected_row: Option<u64>,
    row_key: Option<u64>,
) -> (r: bool)
    ensures
        r == row_selected_spec(identity, selected_identities@, selected_row, row_key),
{
    let member = match identity {
        Some(id) => {
            let mut found = false;
            let mut i: usize = 0;
            while i < selected_identities.len()
                invariant
                    i <= selected_identities@.len(),
                    found == (exists|j: int| 0 <= j < i && selected_identities@[j] == id),
                decreases selected_identities@.len() - i,
            {
                if selected_identities[i] == id {
                    found = true;
                }
                i = i + 1;
            }
            proof {
                if found {
                    assert(selected_identities@.contains(id));
                } else {
                    assert(!selected_identities@.contains(id));
                }
            }
            found
        },
        None => false,
    };
    let keyed = match (row_key, selected_row) {
        (Some(k), Some(sel)) => k == sel,
        _ => false,
    };
    member || keyed
}

/// Whether a process row hosts the open context menu: only the row that
/// carries the open menu's live identity does; a row without a live
/// identity never hosts one.
pub fn row_hosts_menu(open: Option<u64>, identity: Option<u64>) -> (r: bool)
    ensures
        r == (open is Some && open == identity),
{
    match (open, identity) {
        (Some(o), Some(i)) => o == i,
        _ => false,
    }
}

/// What pressing a row of the Applications table publishes.
#[derive(Clone, Debug, PartialEq, Eq)]
pub enum RowPress {
    /// A tree parent: toggles its subtree and selects it.
    ActivateTreeNode { identity: Option<u64>, flat_index: usize },
    /// A selectable row: its table-row focus stop selects row `index`, and a
    /// right press opens the context menu of the live identity when it has
    /// one.
    SelectRow { target: FocusTarget, index: usize, menu_identity: Option<u64> },
    /// A group header: toggles the group's expansion.
    ToggleGroupExpansion { expansion_key: String, row_key: Option<u64> },
}

/// What pressing a tree row publishes: a parent activates its node (toggle
/// and select); a leaf is a selectable row with the context menu of its
/// live identity.
pub fn tree_row_press(has_children: bool, identity: Option<u64>, flat_index: usize) -> (r: RowPress)
    ensures
        has_children ==> r == (RowPress::ActivateTreeNode { identity, flat_index }),
        !has_children ==> r == (RowPress::SelectRow {
            target: FocusTarget::TableRow { page: AppPage::Applications, index: flat_index },
            index: flat_index,
            menu_identity: identity,
        }),
{
    if has_children {
        RowPress::ActivateTreeNode { identity, flat_index }
    } else {
        RowPress::SelectRow {
            target: FocusTarget::TableRow { page: AppPage::Applications, index: flat_index },
            index: flat_index,
            menu_identity: identity,
        }
    }
}

/// What pressing a group header publishes: the toggle of its expansion.
pub fn group_header_press(expansion_key: &str, row_key: Option<u64>) -> (r: RowPress)
    ensures
        (r matches RowPress::ToggleGroupExpansion { expansion_key: k, row_key: rk } && k@ == expansion_key@
            && rk == row_key),
{
    RowPress::ToggleGroupExpansion { expansion_key: string_of(expansion_key), row_key }
}

} // verus!
