//! Saved process-view presets: the filter / sort / column token vocabulary
//! of the transfer document, the preset model and its wire form.
//!
//! Tokens are the document's stable spellings; parsing a token a value wrote
//! gives that value back, and an unknown token is rejected. Hidden columns
//! travel as their tokens in ascending order.

use vstd::prelude::*;
use crate::text::{str_eq, string_of};

verus! {

/// The process status filter of the Applications table.
#[derive(Clone, Copy, Debug, PartialEq, Eq, Structural)]
pub enum ProcessStatusFilter {
    All,
    Running,
    Sleeping,
    Stopped,
    Zombie,
    Other,
}

/// A sortable process-table column.
#[derive(Clone, Copy, Debug, PartialEq, Eq, Structural)]
pub enum SortCol {
    Name,
    User,
    Pid,
    Threads,
    StartTime,
    State,
    Cpu,
    Memory,
    Pss,
    Swap,
    DiskRead,
    DiskWrite,
    CpuTime,
    Fds,
    Nice,
}

/// The document token of a status filter.
pub open spec fn filter_token_spec(filter: ProcessStatusFilter) -> Seq<char> {
    match filter {
        ProcessStatusFilter::All => "All"@,
        ProcessStatusFilter::Running => "Running"@,
        ProcessStatusFilter::Sleeping => "Sleeping"@,
        ProcessStatusFilter::Stopped => "Stopped"@,
        ProcessStatusFilter::Zombie => "Zombie"@,
        ProcessStatusFilter::Other => "Other"@,
    }
}

/// The status filter a token names.
pub open spec fn parse_filter_token(token: Seq<char>) -> Option<ProcessStatusFilter> {
    if token == "All"@ {
        Some(ProcessStatusFilter::All)
    } else if token == "Running"@ {
        Some(ProcessStatusFilter::Running)
    } else if token == "Sleeping"@ {
        Some(ProcessStatusFilter::Sleeping)
    } else if token == "Stopped"@ {
        Some(ProcessStatusFilter::Stopped)
    } else if token == "Zombie"@ {
        Some(ProcessStatusFilter::Zombie)
    } else if token == "Other"@ {
        Some(ProcessStatusFilter::Other)
    } else {
        None
    }
}

/// The document token of a status filter.
pub fn filter_token(filter: ProcessStatusFilter) -> (r: &'static str)
    ensures
        r@ == filter_token_spec(filter),
{
    match filter {
        ProcessStatusFilter::All => "All",
        ProcessStatusFilter::Running => "Running",
        ProcessStatusFilter::Sleeping => "Sleeping",
        ProcessStatusFilter::Stopped => "Stopped",
        ProcessStatusFilter::Zombie => "Zombie",
        ProcessStatusFilter::Other => "Other",
    }
}

/// Parse a status-filter token; unknown tokens are rejected.
pub fn filter_from_token(token: &str) -> (r: Option<ProcessStatusFilter>)
    ensures
        r == parse_filter_token(token@),
{
    if str_eq(token, "All") {
        Some(ProcessStatusFilter::All)
    } else if str_eq(token, "Running") {
        Some(ProcessStatusFilter::Running)
    } else if str_eq(token, "Sleeping") {
        Some(ProcessStatusFilter::Sleeping)
    } else if str_eq(token, "Stopped") {
        Some(ProcessStatusFilter::Stopped)
    } else if str_eq(token, "Zombie") {
        Some(ProcessStatusFilter::Zombie)
    } else if str_eq(token, "Other") {
        Some(ProcessStatusFilter::Other)
    } else {
        None
    }
}

/// Parsing a status filter's token gives the filter back.
pub proof fn lemma_filter_token_round_trip(filter: ProcessStatusFilter)
    ensures
        parse_filter_token(filter_token_spec(filter)) == Some(filter),
{
    reveal_strlit("All");
    reveal_strlit("Running");
    reveal_strlit("Sleeping");
    reveal_strlit("Stopped");
    reveal_strlit("Zombie");
    reveal_strlit("Other");
    match filter {
        ProcessStatusFilter::All => {
        },
        ProcessStatusFilter::Running => {
            assert("Running"@.len() != "All"@.len());
        },
        ProcessStatusFilter::Sleeping => {
            assert("Sleeping"@.len() != "All"@.len());
            assert("Sleeping"@.len() != "Running"@.len());
        },
        ProcessStatusFilter::Stopped => {
            assert("Stopped"@.len() != "All"@.len());
            assert("Stopped"@[0] != "Running"@[0]);
            assert("Stopped"@.len() != "Sleeping"@.len());
        },
        ProcessStatusFilter::Zombie => {
            assert("Zombie"@.len() != "All"@.len());
            assert("Zombie"@.len() != "Running"@.len());
            assert("Zombie"@.len() != "Sleeping"@.len());
            assert("Zombie"@.len() != "Stopped"@.len());
        },
        ProcessStatusFilter::Other => {
            assert("Other"@.len() != "All"@.len());
            assert("Other"@.len() != "Running"@.len());
            assert("Other"@.len() != "Sleeping"@.len());
            assert("Other"@.len() != "Stopped"@.len());
            assert("Other"@.len() != "Zombie"@.len());
        },
    }
}

/// The document token of a sort column.
pub open spec fn sort_token_spec(col: SortCol) -> Seq<char> {
    match col {
        SortCol::Name => "Name"@,
        SortCol::User => "User"@,
        SortCol::Pid => "PID"@,
        SortCol::Threads => "Threads"@,
        SortCol::StartTime => "StartTime"@,
        SortCol::State => "Status"@,
        SortCol::Cpu => "CPU"@,
        SortCol::Memory => "Memory"@,
        SortCol::Pss => "PSS"@,
        SortCol::Swap => "Swap"@,
        SortCol::DiskRead => "DiskRead"@,
        SortCol::DiskWrite => "DiskWrite"@,
        SortCol::CpuTime => "CPUTime"@,
        SortCol::Fds => "FDs"@,
        SortCol::Nice => "Nice"@,
    }
}

/// The sort column a token names.
pub open spec fn parse_sort_token(token: Seq<char>) -> Option<SortCol> {
    if token == "Name"@ {
        Some(SortCol::Name)
    } else if token == "User"@ {
        Some(SortCol::User)
    } else if token == "PID"@ {
        Some(SortCol::Pid)
    } else if token == "Threads"@ {
        Some(SortCol::Threads)
    } else if token == "StartTime"@ {
        Some(SortCol::StartTime)
    } else if token == "Status"@ {
        Some(SortCol::State)
    } else if token == "CPU"@ {
        Some(SortCol::Cpu)
    } else if token == "Memory"@ {
        Some(SortCol::Memory)
    } else if token == "PSS"@ {
        Some(SortCol::Pss)
    } else if token == "Swap"@ {
        Some(SortCol::Swap)
    } else if token == "DiskRead"@ {
        Some(SortCol::DiskRead)
    } else if token == "DiskWrite"@ {
        Some(SortCol::DiskWrite)
    } else if token == "CPUTime"@ {
        Some(SortCol::CpuTime)
    } else if token == "FDs"@ {
        Some(SortCol::Fds)
    } else if token == "Nice"@ {
        Some(SortCol::Nice)
    } else {
        None
    }
}

/// The document token of a sort column.
pub fn sort_token(col: SortCol) -> (r: &'static str)
    ensures
        r@ == sort_token_spec(col),
{
    match col {
        SortCol::Name => "Name",
        SortCol::User => "User",
        SortCol::Pid => "PID",
        SortCol::Threads => "Threads",
        SortCol::StartTime => "StartTime",
        SortCol::State => "Status",
        SortCol::Cpu => "CPU",
        SortCol::Memory => "Memory",
        SortCol::Pss => "PSS",
        SortCol::Swap => "Swap",
        SortCol::DiskRead => "DiskRead",
        SortCol::DiskWrite => "DiskWrite",
        SortCol::CpuTime => "CPUTime",
        SortCol::Fds => "FDs",
        SortCol::Nice => "Nice",
    }
}

/// Parse a sort-column token; unknown tokens are rejected.
pub fn sort_from_token(token: &str) -> (r: Option<SortCol>)
    ensures
        r == parse_sort_token(token@),
{
    if str_eq(token, "Name") {
        Some(SortCol::Name)
    } else if str_eq(token, "User") {
        Some(SortCol::User)
    } else if str_eq(token, "PID") {
        Some(SortCol::Pid)
    } else if str_eq(token, "Threads") {
        Some(SortCol::Threads)
    } else if str_eq(token, "StartTime") {
        Some(SortCol::StartTime)
    } else if str_eq(token, "Status") {
        Some(SortCol::State)
    } else if str_eq(token, "CPU") {
        Some(SortCol::Cpu)
    } else if str_eq(token, "Memory") {
        Some(SortCol::Memory)
    } else if str_eq(token, "PSS") {
        Some(SortCol::Pss)
    } else if str_eq(token, "Swap") {
        Some(SortCol::Swap)
    } else if str_eq(token, "DiskRead") {
        Some(SortCol::DiskRead)
    } else if str_eq(token, "DiskWrite") {
        Some(SortCol::DiskWrite)
    } else if str_eq(token, "CPUTime") {
        Some(SortCol::CpuTime)
    } else if str_eq(token, "FDs") {
        Some(SortCol::Fds)
    } else if str_eq(token, "Nice") {
        Some(SortCol::Nice)
    } else {
        None
    }
}

/// Parsing a sort column's token gives the column back.
pub proof fn lemma_sort_token_round_trip(col: SortCol)
    ensures
        parse_sort_token(sort_token_spec(col)) == Some(col),
{
    reveal_strlit("Name");
    reveal_strlit("User");
    reveal_strlit("PID");
    reveal_strlit("Threads");
    reveal_strlit("StartTime");
    reveal_strlit("Status");
    reveal_strlit("CPU");
    reveal_strlit("Memory");
    reveal_strlit("PSS");
    reveal_strlit("Swap");
    reveal_strlit("DiskRead");
    reveal_strlit("DiskWrite");
    reveal_strlit("CPUTime");
    reveal_strlit("FDs");
    reveal_strlit("Nice");
    match col {
        SortCol::Name => {
        },
        SortCol::User => {
            assert("User"@[0] != "Name"@[0]);
        },
        SortCol::Pid => {
            assert("PID"@.len() != "Name"@.len());
            assert("PID"@.len() != "User"@.len());
        },
        SortCol::Threads => {
            assert("Threads"@.len() != "Name"@.len());
            assert("Threads"@.len() != "User"@.len());
            assert("Threads"@.len() != "PID"@.len());
        },
        SortCol::StartTime => {
            assert("StartTime"@.len() != "Name"@.len());
            assert("StartTime"@.len() != "User"@.len());
            assert("StartTime"@.len() != "PID"@.len());
            assert("StartTime"@.len() != "Threads"@.len());
        },
        SortCol::State => {
            assert("Status"@.len() != "Name"@.len());
            assert("Status"@.len() != "User"@.len());
            assert("Status"@.len() != "PID"@.len());
            assert("Status"@.len() != "Threads"@.len());
            assert("Status"@.len() != "StartTime"@.len());
        },
        SortCol::Cpu => {
            assert("CPU"@.len() != "Name"@.len());
            assert("CPU"@.len() != "User"@.len());
            assert("CPU"@[0] != "PID"@[0]);
            assert("CPU"@.len() != "Threads"@.len());
            assert("CPU"@.len() != "StartTime"@.len());
            assert("CPU"@.len() != "Status"@.len());
        },
        SortCol::Memory => {
            assert("Memory"@.len() != "Name"@.len());
            assert("Memory"@.len() != "User"@.len());
            assert("Memory"@.len() != "PID"@.len());
            assert("Memory"@.len() != "Threads"@.len());
            assert("Memory"@.len() != "StartTime"@.len());
            assert("Memory"@[0] != "Status"@[0]);
            assert("Memory"@.len() != "CPU"@.len());
        },
        SortCol::Pss => {
            assert("PSS"@.len() != "Name"@.len());
            assert("PSS"@.len() != "User"@.len());
            assert("PSS"@[1] != "PID"@[1]);
            assert("PSS"@.len() != "Threads"@.len());
            assert("PSS"@.len() != "StartTime"@.len());
            assert("PSS"@.len() != "Status"@.len());
            assert("PSS"@[0] != "CPU"@[0]);
            assert("PSS"@.len() != "Memory"@.len());
        },
        SortCol::Swap => {
            assert("Swap"@[0] != "Name"@[0]);
            assert("Swap"@[0] != "User"@[0]);
            assert("Swap"@.len() != "PID"@.len());
            assert("Swap"@.len() != "Threads"@.len());
            assert("Swap"@.len() != "StartTime"@.len());
            assert("Swap"@.len() != "Status"@.len());
            assert("Swap"@.len() != "CPU"@.len());
            assert("Swap"@.len() != "Memory"@.len());
            assert("Swap"@.len() != "PSS"@.len());
        },
        SortCol::DiskRead => {
            assert("DiskRead"@.len() != "Name"@.len());
            assert("DiskRead"@.len() != "User"@.len());
            assert("DiskRead"@.len() != "PID"@.len());
            assert("DiskRead"@.len() != "Threads"@.len());
            assert("DiskRead"@.len() != "StartTime"@.len());
            assert("DiskRead"@.len() != "Status"@.len());
            assert("DiskRead"@.len() != "CPU"@.len());
            assert("DiskRead"@.len() != "Memory"@.len());
            assert("DiskRead"@.len() != "PSS"@.len());
            assert("DiskRead"@.len() != "Swap"@.len());
        },
        SortCol::DiskWrite => {
            assert("DiskWrite"@.len() != "Name"@.len());
            assert("DiskWrite"@.len() != "User"@.len());
            assert("DiskWrite"@.len() != "PID"@.len());
            assert("DiskWrite"@.len() != "Threads"@.len());
            assert("DiskWrite"@[0] != "StartTime"@[0]);
            assert("DiskWrite"@.len() != "Status"@.len());
            assert("DiskWrite"@.len() != "CPU"@.len());
            assert("DiskWrite"@.len() != "Memory"@.len());
            assert("DiskWrite"@.len() != "PSS"@.len());
            assert("DiskWrite"@.len() != "Swap"@.len());
            assert("DiskWrite"@.len() != "DiskRead"@.len());
        },
        SortCol::CpuTime => {
            assert("CPUTime"@.len() != "Name"@.len());
            assert("CPUTime"@.len() != "User"@.len());
            assert("CPUTime"@.len() != "PID"@.len());
            assert("CPUTime"@[0] != "Threads"@[0]);
            assert("CPUTime"@.len() != "StartTime"@.len());
            assert("CPUTime"@.len() != "Status"@.len());
            assert("CPUTime"@.len() != "CPU"@.len());
            assert("CPUTime"@.len() != "Memory"@.len());
            assert("CPUTime"@.len() != "PSS"@.len());
            assert("CPUTime"@.len() != "Swap"@.len());
            assert("CPUTime"@.len() != "DiskRead"@.len());
            assert("CPUTime"@.len() != "DiskWrite"@.len());
        },
        SortCol::Fds => {
            assert("FDs"@.len() != "Name"@.len());
            assert("FDs"@.len() != "User"@.len());
            assert("FDs"@[0] != "PID"@[0]);
            assert("FDs"@.len() != "Threads"@.len());
            assert("FDs"@.len() != "StartTime"@.len());
            assert("FDs"@.len() != "Status"@.len());
            assert("FDs"@[0] != "CPU"@[0]);
            assert("FDs"@.len() != "Memory"@.len());
            assert("FDs"@[0] != "PSS"@[0]);
            assert("FDs"@.len() != "Swap"@.len());
            assert("FDs"@.len() != "DiskRead"@.len());
            assert("FDs"@.len() != "DiskWrite"@.len());
            assert("FDs"@.len() != "CPUTime"@.len());
        },
        SortCol::Nice => {
            assert("Nice"@[1] != "Name"@[1]);
            assert("Nice"@[0] != "User"@[0]);
            assert("Nice"@.len() != "PID"@.len());
            assert("Nice"@.len() != "Threads"@.len());
            assert("Nice"@.len() != "StartTime"@.len());
            assert("Nice"@.len() != "Status"@.len());
            assert("Nice"@.len() != "CPU"@.len());
            assert("Nice"@.len() != "Memory"@.len());
            assert("Nice"@.len() != "PSS"@.len());
            assert("Nice"@[0] != "Swap"@[0]);
            assert("Nice"@.len() != "DiskRead"@.len());
            assert("Nice"@.len() != "DiskWrite"@.len());
            assert("Nice"@.len() != "CPUTime"@.len());
            assert("Nice"@.len() != "FDs"@.len());
        },
    }
}

/// The bit position of a column in a column set.
pub open spec fn col_bit(col: SortCol) -> u32 {
    match col {
        SortCol::Name => 0,
        SortCol::User => 1,
        SortCol::Pid => 2,
        SortCol::Threads => 3,
        SortCol::StartTime => 4,
        SortCol::State => 5,
        SortCol::Cpu => 6,
        SortCol::Memory => 7,
        SortCol::Pss => 8,
        SortCol::Swap => 9,
        SortCol::DiskRead => 10,
        SortCol::DiskWrite => 11,
        SortCol::CpuTime => 12,
        SortCol::Fds => 13,
        SortCol::Nice => 14,
    }
}

fn col_bit_exec(col: SortCol) -> (r: u32)
    ensures
        r == col_bit(col),
{
    match col {
        SortCol::Name => 0,
        SortCol::User => 1,
        SortCol::Pid => 2,
        SortCol::Threads => 3,
        SortCol::StartTime => 4,
        SortCol::State => 5,
        SortCol::Cpu => 6,
        SortCol::Memory => 7,
        SortCol::Pss => 8,
        SortCol::Swap => 9,
        SortCol::DiskRead => 10,
        SortCol::DiskWrite => 11,
        SortCol::CpuTime => 12,
        SortCol::Fds => 13,
        SortCol::Nice => 14,
    }
}

/// The columns in ascending order of their tokens.
pub open spec fn token_order() -> Seq<SortCol> {
    seq![SortCol::Cpu, SortCol::CpuTime, SortCol::DiskRead, SortCol::DiskWrite, SortCol::Fds, SortCol::Memory, SortCol::Name, SortCol::Nice, SortCol::Pid, SortCol::Pss, SortCol::StartTime, SortCol::State, SortCol::Swap, SortCol::Threads, SortCol::User
    ]
}

fn token_order_exec() -> (r: Vec<SortCol>)
    ensures
        r@ == token_order(),
{
    let v = vec![SortCol::Cpu, SortCol::CpuTime, SortCol::DiskRead, SortCol::DiskWrite, SortCol::Fds, SortCol::Memory, SortCol::Name, SortCol::Nice, SortCol::Pid, SortCol::Pss, SortCol::StartTime, SortCol::State, SortCol::Swap, SortCol::Threads, SortCol::User];
    assert(v@ =~= token_order());
    v
}

/// Every column appears in the token order.
proof fn lemma_token_order_complete(col: SortCol)
    ensures
        token_order().contains(col),
{
    match col {
        SortCol::Name => assert(token_order()[6] == SortCol::Name),
        SortCol::User => assert(token_order()[14] == SortCol::User),
        SortCol::Pid => assert(token_order()[8] == SortCol::Pid),
        SortCol::Threads => assert(token_order()[13] == SortCol::Threads),
        SortCol::StartTime => assert(token_order()[10] == SortCol::StartTime),
        SortCol::State => assert(token_order()[11] == SortCol::State),
        SortCol::Cpu => assert(token_order()[0] == SortCol::Cpu),
        SortCol::Memory => assert(token_order()[5] == SortCol::Memory),
        SortCol::Pss => assert(token_order()[9] == SortCol::Pss),
        SortCol::Swap => assert(token_order()[12] == SortCol::Swap),
        SortCol::DiskRead => assert(token_order()[2] == SortCol::DiskRead),
        SortCol::DiskWrite => assert(token_order()[3] == SortCol::DiskWrite),
        SortCol::CpuTime => assert(token_order()[1] == SortCol::CpuTime),
        SortCol::Fds => assert(token_order()[4] == SortCol::Fds),
        SortCol::Nice => assert(token_order()[7] == SortCol::Nice),
    }
}

/// A set of process-table columns.
#[derive(Clone, Copy, Debug, PartialEq, Eq, Structural)]
pub struct ColumnSet {
    bits: u32,
}

/// Whether bit `i` of `bits` is set.
pub open spec fn bit_set(bits: u32, i: u32) -> bool {
    (bits >> i) & 1u32 == 1u32
}

proof fn lemma_bit_or(bits: u32, i: u32, j: u32)
    requires
        i < 32,
        j < 32,
    ensures
        bit_set(bits | (1u32 << i), j) == (i == j || bit_set(bits, j)),
{
    assert(((bits | (1u32 << i)) >> j) & 1u32 == 1u32 <==> (i == j || (bits >> j) & 1u32 == 1u32))
        by (bit_vector)
        requires
            i < 32,
            j < 32,
    ;
}

proof fn lemma_bit_empty(j: u32)
    requires
        j < 32,
    ensures
        !bit_set(0u32, j),
{
    assert((0u32 >> j) & 1u32 != 1u32) by (bit_vector);
}

impl ColumnSet {
    /// The set of columns.
    pub closed spec fn view(&self) -> Set<SortCol> {
        Set::new(|c: SortCol| bit_set(self.bits, col_bit(c)))
    }

    /// The empty set.
    pub fn new() -> (r: Self)
        ensures
            r.view() == Set::<SortCol>::empty(),
    {
        let r = ColumnSet { bits: 0 };
        assert forall|c: SortCol| !r.view().contains(c) by {
            lemma_bit_empty(col_bit(c));
        }
        assert(r.view() =~= Set::<SortCol>::empty());
        r
    }

    /// Whether the set holds a column.
    pub fn contains(&self, col: SortCol) -> (r: bool)
        ensures
            r == self.view().contains(col),
    {
        let i = col_bit_exec(col);
        (self.bits >> i) & 1u32 == 1u32
    }

    /// Add a column.
    pub fn insert(&mut self, col: SortCol)
        ensures
            final(self).view() == old(self).view().insert(col),
    {
        let i = col_bit_exec(col);
        let ghost before = self.bits;
        self.bits = self.bits | (1u32 << i);
        proof {
            assert forall|c: SortCol| #[trigger] final(self).view().contains(c) == old(self).view().insert(col).contains(c) by {
                lemma_bit_or(before, i, col_bit(c));
            }
            assert(final(self).view() =~= old(self).view().insert(col));
        }
    }
}

/// The tokens of a column set, in ascending token order.
pub open spec fn hidden_tokens_spec(set: Set<SortCol>) -> Seq<Seq<char>> {
    token_order().filter(|c: SortCol| set.contains(c)).map_values(|c: SortCol| sort_token_spec(c))
}

/// The tokens of the hidden columns, in ascending order.
pub fn hidden_tokens(hidden: &ColumnSet) -> (r: Vec<String>)
    ensures
        r@.map_values(|s: String| s@) == hidden_tokens_spec(hidden.view()),
{
    let order = token_order_exec();
    let mut out: Vec<String> = Vec::new();
    let mut i: usize = 0;
    while i < order.len()
        invariant
            i <= order@.len(),
            order@ == token_order(),
            out@.map_values(|s: String| s@) == token_order().subrange(0, i as int).filter(
                |c: SortCol| hidden.view().contains(c),
            ).map_values(|c: SortCol| sort_token_spec(c)),
        decreases order@.len() - i,
    {
        let col = order[i];
        let ghost pre = token_order().subrange(0, i as int);
        proof {
            assert(token_order().subrange(0, i + 1) =~= pre.push(col));
            pre.lemma_filter_push(col, |c: SortCol| hidden.view().contains(c));
        }
        if hidden.contains(col) {
            let ghost before = out@;
            out.push(string_of(sort_token(col)));
            assert(out@.map_values(|s: String| s@) =~= before.map_values(|s: String| s@).push(sort_token_spec(col)));
        }
        i = i + 1;
    }
    assert(token_order().subrange(0, order@.len() as int) =~= token_order());
    out
}

/// The column set a token list names, if every token names a column.
pub open spec fn parse_hidden_tokens(tokens: Seq<Seq<char>>) -> Option<Set<SortCol>>
    decreases tokens.len(),
{
    if tokens.len() == 0 {
        Some(Set::empty())
    } else {
        match (parse_hidden_tokens(tokens.drop_last()), parse_sort_token(tokens.last())) {
            (Some(s), Some(c)) => Some(s.insert(c)),
            _ => None,
        }
    }
}

/// Parse hidden-column tokens; any unknown token rejects the whole list.
pub fn hidden_from_tokens(tokens: &[String]) -> (r: Option<ColumnSet>)
    ensures
        match r {
            Some(set) => parse_hidden_tokens(tokens@.map_values(|s: String| s@)) == Some(set.view()),
            None => parse_hidden_tokens(tokens@.map_values(|s: String| s@)) is None,
        },
{
    let ghost all = tokens@.map_values(|s: String| s@);
    let mut cols = ColumnSet::new();
    let mut i: usize = 0;
    while i < tokens.len()
        invariant
            i <= tokens@.len(),
            all == tokens@.map_values(|s: String| s@),
            parse_hidden_tokens(all.subrange(0, i as int)) == Some(cols.view()),
        decreases tokens@.len() - i,
    {
        let ghost pre = all.subrange(0, i as int);
        let ghost next = all.subrange(0, i + 1);
        assert(next.drop_last() =~= pre);
        assert(next.last() == tokens@[i as int]@);
        match sort_from_token(tokens[i].as_str()) {
            Some(col) => {
                cols.insert(col);
            },
            None => {
                proof {
                    lemma_parse_hidden_none_extends(all, i as int + 1);
                }
                return None;
            },
        }
        i = i + 1;
    }
    assert(all.subrange(0, tokens@.len() as int) =~= all);
    Some(cols)
}

/// Once a prefix fails to parse, every longer prefix fails too.
proof fn lemma_parse_hidden_none_extends(all: Seq<Seq<char>>, k: int)
    requires
        0 < k <= all.len(),
        parse_hidden_tokens(all.subrange(0, k)) is None,
    ensures
        parse_hidden_tokens(all) is None,
    decreases all.len() - k,
{
    if k < all.len() {
        let next = all.subrange(0, k + 1);
        assert(next.drop_last() =~= all.subrange(0, k));
        lemma_parse_hidden_none_extends(all, k + 1);
    } else {
        assert(all.subrange(0, k) =~= all);
    }
}

/// The tokens of the first `k` columns (in token order) of a set parse back
/// to that part of the set.
proof fn lemma_hidden_prefix_round_trip(set: Set<SortCol>, k: int)
    requires
        0 <= k <= token_order().len(),
    ensures
        parse_hidden_tokens(
            token_order().subrange(0, k).filter(|c: SortCol| set.contains(c)).map_values(
                |c: SortCol| sort_token_spec(c),
            ),
        ) == Some(set.intersect(token_order().subrange(0, k).to_set())),
    decreases k,
{
    let pred = |c: SortCol| set.contains(c);
    if k == 0 {
        let e = token_order().subrange(0, 0);
        assert(e =~= Seq::<SortCol>::empty());
        assert(e.filter(pred) =~= Seq::<SortCol>::empty());
        assert(e.filter(pred).map_values(|c: SortCol| sort_token_spec(c)) =~= Seq::<Seq<char>>::empty());
        assert(set.intersect(e.to_set()) =~= Set::<SortCol>::empty());
    } else {
        lemma_hidden_prefix_round_trip(set, k - 1);
        let pre = token_order().subrange(0, k - 1);
        let col = token_order()[k - 1];
        assert(token_order().subrange(0, k) =~= pre.push(col));
        pre.lemma_filter_push(col, pred);
        lemma_sort_token_round_trip(col);
        pre.lemma_push_to_set_commute(col);
        let toks = pre.filter(pred).map_values(|c: SortCol| sort_token_spec(c));
        if set.contains(col) {
            let toks2 = pre.push(col).filter(pred).map_values(|c: SortCol| sort_token_spec(c));
            assert(toks2 =~= toks.push(sort_token_spec(col)));
            assert(toks2.drop_last() =~= toks);
            assert(set.intersect(pre.push(col).to_set()) =~= set.intersect(pre.to_set()).insert(col));
        } else {
            assert(pre.push(col).filter(pred) == pre.filter(pred));
            assert(set.intersect(pre.push(col).to_set()) =~= set.intersect(pre.to_set()));
        }
    }
}

/// Parsing the tokens of a column set gives the set back.
pub proof fn lemma_hidden_tokens_round_trip(set: Set<SortCol>)
    ensures
        parse_hidden_tokens(hidden_tokens_spec(set)) == Some(set),
{
    lemma_hidden_prefix_round_trip(set, token_order().len() as int);
    assert(token_order().subrange(0, token_order().len() as int) =~= token_order());
    assert forall|c: SortCol| set.contains(c) implies token_order().to_set().contains(c) by {
        lemma_token_order_complete(c);
    }
    assert(set.intersect(token_order().to_set()) =~= set);
}

/// The filter, sort and hidden columns of a preset survive its transfer
/// document: parsing the tokens written for them gives them back.
pub proof fn lemma_preset_tokens_round_trip(filter: ProcessStatusFilter, sort: SortCol, hidden: Set<SortCol>)
    ensures
        parse_filter_token(filter_token_spec(filter)) == Some(filter),
        parse_sort_token(sort_token_spec(sort)) == Some(sort),
        parse_hidden_tokens(hidden_tokens_spec(hidden)) == Some(hidden),
{
    lemma_filter_token_round_trip(filter);
    lemma_sort_token_round_trip(sort);
    lemma_hidden_tokens_round_trip(hidden);
}

/// The outcome of one saved-view import.
#[derive(Clone, Copy, Debug, Default, PartialEq, Eq, Structural)]
pub struct SavedViewImportSummary {
    pub imported: usize,
    pub renamed: usize,
}

/// The feedback line a transfer leaves behind.
#[derive(Clone, Copy, Debug, PartialEq, Eq, Structural)]
pub enum SavedViewTransferFeedback {
    ExportCopied,
    ExportFailed,
    Imported(SavedViewImportSummary),
    ClipboardEmpty,
    ImportInvalid,
}

/// One saved process view.
#[derive(Clone, Debug)]
pub struct SavedViewPreset {
    pub id: u64,
    pub name_key: Option<&'static str>,
    pub custom_name: String,
    pub built_in: bool,
    pub filter: ProcessStatusFilter,
    pub sort_col: SortCol,
    pub sort_asc: bool,
    pub hidden_cols: ColumnSet,
}

/// Where a preset's display name comes from.
#[derive(Clone, Debug)]
pub enum PresetName {
    /// A catalog key to translate.
    Key(&'static str),
    /// The user's own name.
    Custom(String),
}

impl SavedViewPreset {
    /// Whether a preset was saved by the user (not built in, no catalog name).
    pub open spec fn is_user_saved_spec(&self) -> bool {
        !self.built_in && self.name_key is None
    }

    /// A built-in preset named by a catalog key.
    pub fn built_in(id: u64, name_key: &'static str, filter: ProcessStatusFilter, sort_col: SortCol, sort_asc: bool) -> (r: Self)
        ensures
            r.id == id,
            r.name_key == Some(name_key),
            r.custom_name@ == Seq::<char>::empty(),
            r.built_in,
            r.filter == filter,
            r.sort_col == sort_col,
            r.sort_asc == sort_asc,
            r.hidden_cols.view() == Set::<SortCol>::empty(),
    {
        SavedViewPreset {
            id,
            name_key: Some(name_key),
            custom_name: String::new(),
            built_in: true,
            filter,
            sort_col,
            sort_asc,
            hidden_cols: ColumnSet::new(),
        }
    }

    /// A user preset restored from a transfer document (id 0 until one is
    /// allocated).
    pub fn restored(name: String, filter: ProcessStatusFilter, sort_col: SortCol, sort_asc: bool, hidden_cols: ColumnSet) -> (r: Self)
        ensures
            r.id == 0,
            r.name_key is None,
            r.custom_name == name,
            !r.built_in,
            r.filter == filter,
            r.sort_col == sort_col,
            r.sort_asc == sort_asc,
            r.hidden_cols == hidden_cols,
    {
        SavedViewPreset { id: 0, name_key: None, custom_name: name, built_in: false, filter, sort_col, sort_asc, hidden_cols }
    }

    /// The source of the display name: the catalog key when there is one,
    /// the custom name otherwise.
    pub fn display_name(&self) -> (r: PresetName)
        ensures
            match self.name_key {
                Some(k) => r matches PresetName::Key(k2) && k2 == k,
                None => r matches PresetName::Custom(n) && n@ == self.custom_name@,
            },
    {
        match self.name_key {
            Some(k) => PresetName::Key(k),
            None => PresetName::Custom(self.custom_name.clone()),
        }
    }

    /// Whether the user saved this preset.
    pub fn is_user_saved(&self) -> (r: bool)
        ensures
            r == self.is_user_saved_spec(),
    {
        !self.built_in && self.name_key.is_none()
    }

    /// The user's name for a user-saved preset.
    pub fn user_name(&self) -> (r: Option<&str>)
        ensures
            match r {
                Some(n) => self.is_user_saved_spec() && n@ == self.custom_name@,
                None => !self.is_user_saved_spec(),
            },
    {
        if self.is_user_saved() {
            Some(self.custom_name.as_str())
        } else {
            None
        }
    }
}

/// The three built-in presets: CPU hotspots, running tree, memory heavy.
pub fn default_built_in_presets() -> (r: Vec<SavedViewPreset>)
    ensures
        r@.len() == 3,
        r@[0].id == 1 && r@[0].name_key == Some("saved_views.cpu_hotspots")
            && r@[0].filter == ProcessStatusFilter::All && r@[0].sort_col == SortCol::Cpu && !r@[0].sort_asc,
        r@[1].id == 2 && r@[1].name_key == Some("saved_views.running_tree")
            && r@[1].filter == ProcessStatusFilter::Running && r@[1].sort_col == SortCol::Cpu && !r@[1].sort_asc,
        r@[2].id == 3 && r@[2].name_key == Some("saved_views.memory_heavy")
            && r@[2].filter == ProcessStatusFilter::All && r@[2].sort_col == SortCol::Memory && !r@[2].sort_asc,
        forall|i: int| 0 <= i < 3 ==> #[trigger] r@[i].built_in && r@[i].hidden_cols.view() == Set::<SortCol>::empty()
            && r@[i].custom_name@ == Seq::<char>::empty(),
{
    let a = SavedViewPreset::built_in(1, "saved_views.cpu_hotspots", ProcessStatusFilter::All, SortCol::Cpu, false);
    let b = SavedViewPreset::built_in(2, "saved_views.running_tree", ProcessStatusFilter::Running, SortCol::Cpu, false);
    let c = SavedViewPreset::built_in(3, "saved_views.memory_heavy", ProcessStatusFilter::All, SortCol::Memory, false);
    let mut v: Vec<SavedViewPreset> = Vec::new();
    v.push(a);
    v.push(b);
    v.push(c);
    v
}

/// One preset in the transfer document.
#[derive(Clone, Debug)]
pub struct WirePreset {
    pub name: String,
    pub filter: String,
    pub sort: String,
    pub sort_asc: bool,
    pub hidden_columns: Vec<String>,
}

/// The preset at this document position cannot be transferred.
#[derive(Clone, Copy, Debug, PartialEq, Eq, Structural)]
pub struct InvalidPreset {
    pub index: usize,
}

/// The wire form of a user-saved preset. `name_is_portable` is the transfer
/// contract's verdict on the preset's user name; a preset that is not
/// user-saved, or whose name is not portable, is rejected at `index`.
pub fn wire_from_preset(preset: &SavedViewPreset, index: usize, name_is_portable: bool) -> (r: Result<WirePreset, InvalidPreset>)
    ensures
        match r {
            Ok(w) => preset.is_user_saved_spec() && name_is_portable
                && w.name@ == preset.custom_name@
                && w.filter@ == filter_token_spec(preset.filter)
                && w.sort@ == sort_token_spec(preset.sort_col)
                && w.sort_asc == preset.sort_asc
                && w.hidden_columns@.map_values(|s: String| s@) == hidden_tokens_spec(preset.hidden_cols.view()),
            Err(e) => e.index == index && !(preset.is_user_saved_spec() && name_is_portable),
        },
{
    let name = match preset.user_name() {
        Some(n) => n,
        None => return Err(InvalidPreset { index }),
    };
    if !name_is_portable {
        return Err(InvalidPreset { index });
    }
    Ok(WirePreset {
        name: string_of(name),
        filter: string_of(filter_token(preset.filter)),
        sort: string_of(sort_token(preset.sort_col)),
        sort_asc: preset.sort_asc,
        hidden_columns: hidden_tokens(&preset.hidden_cols),
    })
}

/// Restore a user preset from its wire form: the name must be portable (the
/// transfer contract's verdict) and every token must parse; otherwise the
/// preset at `index` is rejected.
pub fn preset_from_wire(wire: WirePreset, index: usize, name_is_portable: bool) -> (r: Result<SavedViewPreset, InvalidPreset>)
    ensures
        match r {
            Ok(p) => name_is_portable
                && parse_filter_token(wire.filter@) == Some(p.filter)
                && parse_sort_token(wire.sort@) == Some(p.sort_col)
                && parse_hidden_tokens(wire.hidden_columns@.map_values(|s: String| s@)) == Some(p.hidden_cols.view())
                && p.custom_name == wire.name && p.sort_asc == wire.sort_asc
                && p.id == 0 && p.name_key is None && !p.built_in,
            Err(e) => e.index == index && !(name_is_portable
                && parse_filter_token(wire.filter@) is Some
                && parse_sort_token(wire.sort@) is Some
                && parse_hidden_tokens(wire.hidden_columns@.map_values(|s: String| s@)) is Some),
        },
{
    if !name_is_portable {
        return Err(InvalidPreset { index });
    }
    let filter = match filter_from_token(wire.filter.as_str()) {
        Some(f) => f,
        None => return Err(InvalidPreset { index }),
    };
    let sort = match sort_from_token(wire.sort.as_str()) {
        Some(s) => s,
        None => return Err(InvalidPreset { index }),
    };
    let hidden = match hidden_from_tokens(wire.hidden_columns.as_slice()) {
        Some(h) => h,
        None => return Err(InvalidPreset { index }),
    };
    Ok(SavedViewPreset::restored(wire.name, filter, sort, wire.sort_asc, hidden))
}

/// Whether a preset is the one restored from a wire preset: the wire's name
/// and direction, the parsed tokens, no id yet, not built in.
pub open spec fn restored_from(p: SavedViewPreset, w: WirePreset) -> bool {
    &&& parse_filter_token(w.filter@) == Some(p.filter)
    &&& parse_sort_token(w.sort@) == Some(p.sort_col)
    &&& parse_hidden_tokens(w.hidden_columns@.map_values(|s: String| s@)) == Some(p.hidden_cols.view())
    &&& p.custom_name == w.name
    &&& p.sort_asc == w.sort_asc
    &&& p.id == 0
    &&& p.name_key is None
    &&& !p.built_in
}

/// Whether a wire preset can be restored: a portable name and tokens that
/// all parse.
pub open spec fn wire_restorable(w: WirePreset, name_is_portable: bool) -> bool {
    &&& name_is_portable
    &&& parse_filter_token(w.filter@) is Some
    &&& parse_sort_token(w.sort@) is Some
    &&& parse_hidden_tokens(w.hidden_columns@.map_values(|s: String| s@)) is Some
}

/// Restore every preset of an imported document, in order. `names_portable`
/// holds the transfer contract's verdict on each preset's name. The first
/// preset that cannot be restored rejects the whole document at its index.
pub fn presets_from_wire(wire: Vec<WirePreset>, names_portable: &[bool]) -> (r: Result<Vec<SavedViewPreset>, InvalidPreset>)
    requires
        names_portable@.len() == wire@.len(),
    ensures
        match r {
            Ok(ps) => ps@.len() == wire@.len() && (forall|i: int| 0 <= i < wire@.len() ==> wire_restorable(
                #[trigger] wire@[i],
                names_portable@[i],
            )) && forall|i: int| 0 <= i < ps@.len() ==> restored_from(#[trigger] ps@[i], wire@[i]),
            Err(e) => e.index < wire@.len() && !wire_restorable(wire@[e.index as int], names_portable@[e.index as int])
                && forall|i: int| 0 <= i < e.index ==> wire_restorable(#[trigger] wire@[i], names_portable@[i]),
        },
{
    let ghost initial = wire@;
    let n = wire.len();
    let mut rest = wire;
    let mut out: Vec<SavedViewPreset> = Vec::new();
    let mut i: usize = 0;
    while i < n
        invariant
            initial == wire@,
            n == initial.len(),
            names_portable@.len() == n,
            i <= n,
            rest@ == initial.subrange(i as int, n as int),
            out@.len() == i,
            forall|k: int| 0 <= k < i ==> wire_restorable(#[trigger] initial[k], names_portable@[k]),
            forall|k: int| 0 <= k < i ==> restored_from(#[trigger] out@[k], initial[k]),
        decreases n - i,
    {
        let w = rest.remove(0);
        assert(w == initial[i as int]);
        match preset_from_wire(w, i, names_portable[i]) {
            Ok(p) => {
                out.push(p);
            },
            Err(e) => {
                return Err(e);
            },
        }
        proof {
            assert(rest@ =~= initial.subrange(i + 1, n as int));
        }
        i = i + 1;
    }
    Ok(out)
}

/// The preset an import appends: the restored preset under its resolved
/// name and its allocated id.
pub open spec fn imported_as(q: SavedViewPreset, p: SavedViewPreset, name: String, id: u64) -> bool {
    &&& q.id == id
    &&& q.custom_name == name
    &&& q.name_key == p.name_key
    &&& q.built_in == p.built_in
    &&& q.filter == p.filter
    &&& q.sort_col == p.sort_col
    &&& q.sort_asc == p.sort_asc
    &&& q.hidden_cols == p.hidden_cols
}

/// Commit an import: each restored preset is appended after the existing
/// ones under its resolved name (names are resolved for the whole batch, so a
/// document holding a name twice still yields distinct presets) and its
/// allocated id (ids skip the live presets); the id counter moves to the
/// allocation's next free id. The summary counts the imported and the
/// renamed presets.
pub fn commit_import(
    existing: &mut Vec<SavedViewPreset>,
    next_id: &mut u64,
    imported: Vec<SavedViewPreset>,
    names: Vec<String>,
    ids: &[u64],
    allocated_next_id: u64,
    renamed: usize,
) -> (r: SavedViewImportSummary)
    requires
        names@.len() == imported@.len(),
        ids@.len() == imported@.len(),
    ensures
        final(existing)@.len() == old(existing)@.len() + imported@.len(),
        final(existing)@.subrange(0, old(existing)@.len() as int) == old(existing)@,
        forall|k: int|
            0 <= k < imported@.len() ==> imported_as(
                #[trigger] final(existing)@[old(existing)@.len() + k],
                imported@[k],
                names@[k],
                ids@[k],
            ),
        *final(next_id) == allocated_next_id,
        r == (SavedViewImportSummary { imported: imported@.len() as usize, renamed }),
{
    let ghost before = existing@;
    let ghost presets = imported@;
    let ghost resolved = names@;
    let n = imported.len();
    let mut rest = imported;
    let mut rest_names = names;
    let mut i: usize = 0;
    while i < n
        invariant
            n == presets.len(),
            resolved.len() == n,
            ids@.len() == n,
            i <= n,
            rest@ == presets.subrange(i as int, n as int),
            rest_names@ == resolved.subrange(i as int, n as int),
            existing@.len() == before.len() + i,
            existing@.subrange(0, before.len() as int) == before,
            forall|k: int| 0 <= k < i ==> imported_as(#[trigger] existing@[before.len() + k], presets[k], resolved[k], ids@[k]),
        decreases n - i,
    {
        let mut preset = rest.remove(0);
        let name = rest_names.remove(0);
        preset.custom_name = name;
        preset.id = ids[i];
        let ghost pre_push = existing@;
        existing.push(preset);
        proof {
            assert(existing@.subrange(0, before.len() as int) =~= pre_push.subrange(0, before.len() as int));
            assert(rest@ =~= presets.subrange(i + 1, n as int));
            assert(rest_names@ =~= resolved.subrange(i + 1, n as int));
        }
        i = i + 1;
    }
    *next_id = allocated_next_id;
    SavedViewImportSummary { imported: n, renamed }
}

/// Whether a wire preset is the transfer form of a preset: its user name,
/// its filter and sort tokens, its direction and its hidden-column tokens.
pub open spec fn wire_of(w: WirePreset, p: SavedViewPreset) -> bool {
    &&& w.name@ == p.custom_name@
    &&& w.filter@ == filter_token_spec(p.filter)
    &&& w.sort@ == sort_token_spec(p.sort_col)
    &&& w.sort_asc == p.sort_asc
    &&& w.hidden_columns@.map_values(|s: String| s@) == hidden_tokens_spec(p.hidden_cols.view())
}

/// The user-saved presets, in order, each with the verdict on its name.
pub open spec fn user_entries(presets: Seq<SavedViewPreset>, portable: Seq<bool>) -> Seq<(SavedViewPreset, bool)> {
    Seq::new(presets.len(), |i: int| (presets[i], portable[i])).filter(
        |e: (SavedViewPreset, bool)| e.0.is_user_saved_spec(),
    )
}

proof fn lemma_filter_prefix<A>(s: Seq<A>, pred: spec_fn(A) -> bool, i: int, j: int)
    requires
        0 <= i <= j <= s.len(),
    ensures
        s.subrange(0, i).filter(pred).len() <= s.subrange(0, j).filter(pred).len(),
        s.subrange(0, j).filter(pred).subrange(0, s.subrange(0, i).filter(pred).len() as int) == s.subrange(
            0,
            i,
        ).filter(pred),
    decreases j - i,
{
    if i == j {
        let f = s.subrange(0, i).filter(pred);
        assert(f.subrange(0, f.len() as int) =~= f);
    } else {
        lemma_filter_prefix(s, pred, i, j - 1);
        let pre = s.subrange(0, j - 1);
        pre.lemma_filter_push(s[j - 1], pred);
        assert(pre.push(s[j - 1]) =~= s.subrange(0, j));
        let a = s.subrange(0, i).filter(pred);
        let b = pre.filter(pred);
        let c = s.subrange(0, j).filter(pred);
        assert(c.subrange(0, a.len() as int) =~= b.subrange(0, a.len() as int));
    }
}

/// The transfer forms of the user-saved presets, in order (built-in presets
/// are not exported). `names_portable[i]` is the transfer contract's verdict
/// on the name of `presets[i]`. The first user preset whose name is not
/// portable rejects the export at its position among the exported presets.
pub fn export_wire_presets(presets: &[SavedViewPreset], names_portable: &[bool]) -> (r: Result<Vec<WirePreset>, InvalidPreset>)
    requires
        names_portable@.len() == presets@.len(),
    ensures
        match r {
            Ok(ws) => ws@.len() == user_entries(presets@, names_portable@).len() && forall|k: int|
                0 <= k < ws@.len() ==> (#[trigger] user_entries(presets@, names_portable@)[k]).1 && wire_of(
                    ws@[k],
                    user_entries(presets@, names_portable@)[k].0,
                ),
            Err(e) => e.index < user_entries(presets@, names_portable@).len() && !user_entries(
                presets@,
                names_portable@,
            )[e.index as int].1 && forall|k: int|
                0 <= k < e.index ==> (#[trigger] user_entries(presets@, names_portable@)[k]).1,
        },
{
    let ghost pairs = Seq::new(presets@.len(), |i: int| (presets@[i], names_portable@[i]));
    let ghost pred = |e: (SavedViewPreset, bool)| e.0.is_user_saved_spec();
    let ghost users = user_entries(presets@, names_portable@);
    assert(users == pairs.filter(pred));
    assert(pairs.subrange(0, pairs.len() as int) =~= pairs);
    let mut out: Vec<WirePreset> = Vec::new();
    let mut i: usize = 0;
    while i < presets.len()
        invariant
            names_portable@.len() == presets@.len(),
            pairs == Seq::new(presets@.len(), |i: int| (presets@[i], names_portable@[i])),
            pred == (|e: (SavedViewPreset, bool)| e.0.is_user_saved_spec()),
            users == pairs.filter(pred),
            pairs.subrange(0, pairs.len() as int) == pairs,
            i <= presets@.len(),
            out@.len() == pairs.subrange(0, i as int).filter(pred).len(),
            forall|k: int| 0 <= k < out@.len() ==> (#[trigger] pairs.subrange(0, i as int).filter(pred)[k]).1 && wire_of(
                out@[k],
                pairs.subrange(0, i as int).filter(pred)[k].0,
            ),
        decreases presets@.len() - i,
    {
        let ghost pre = pairs.subrange(0, i as int);
        proof {
            pre.lemma_filter_push(pairs[i as int], pred);
            assert(pre.push(pairs[i as int]) =~= pairs.subrange(0, i + 1));
            lemma_filter_prefix(pairs, pred, i as int, i + 1);
            lemma_filter_prefix(pairs, pred, i + 1, pairs.len() as int);
        }
        if presets[i].is_user_saved() {
            let k = out.len();
            match wire_from_preset(&presets[i], k, names_portable[i]) {
                Ok(w) => {
                    out.push(w);
                    proof {
                        let post = pairs.subrange(0, i + 1).filter(pred);
                        assert forall|m: int| 0 <= m < out@.len() implies (#[trigger] post[m]).1 && wire_of(
                            out@[m],
                            post[m].0,
                        ) by {
                            if m < k {
                                assert(post[m] == pre.filter(pred)[m]);
                            }
                        }
                    }
                },
                Err(e) => {
                    proof {
                        let post = pairs.subrange(0, i + 1).filter(pred);
                        assert(post == pre.filter(pred).push(pairs[i as int]));
                        assert(users.subrange(0, post.len() as int) == post);
                        assert(users[k as int] == post[k as int]);
                        assert forall|m: int| 0 <= m < e.index implies (#[trigger] users[m]).1 by {
                            assert(users[m] == post[m]);
                            assert(post[m] == pre.filter(pred)[m]);
                        }
                    }
                    return Err(e);
                },
            }
        } else {
            proof {
                assert(pairs.subrange(0, i + 1).filter(pred) == pre.filter(pred));
            }
        }
        i = i + 1;
    }
    Ok(out)
}

/// What an export keeps, an import gives back: a preset restored from the
/// transfer form of a user preset has that preset's name, filter, sort
/// column, direction and hidden columns.
pub proof fn lemma_export_import_round_trip(p: SavedViewPreset, w: WirePreset, q: SavedViewPreset)
    requires
        wire_of(w, p),
        restored_from(q, w),
    ensures
        q.custom_name@ == p.custom_name@,
        q.filter == p.filter,
        q.sort_col == p.sort_col,
        q.sort_asc == p.sort_asc,
        q.hidden_cols.view() == p.hidden_cols.view(),
{
    lemma_preset_tokens_round_trip(p.filter, p.sort_col, p.hidden_cols.view());
}

/// The table state the presets ribbon compares presets against, the last
/// transfer's feedback and whether the layout is compact.
#[derive(Clone, Copy, Debug)]
pub struct PresetsRibbonState {
    pub filter: ProcessStatusFilter,
    pub sort: SortCol,
    pub ascending: bool,
    pub feedback: Option<SavedViewTransferFeedback>,
    pub compact: bool,
}

/// Whether a preset's pill reads as active: its filter, sort column and
/// direction are the table's.
pub fn preset_is_active(preset: &SavedViewPreset, state: &PresetsRibbonState) -> (r: bool)
    ensures
        r <==> (preset.filter == state.filter && preset.sort_col == state.sort && preset.sort_asc == state.ascending),
{
    preset.filter == state.filter && preset.sort_col == state.sort && preset.sort_asc == state.ascending
}

/// The catalog key of a transfer's feedback line and whether it reads as an
/// error.
pub open spec fn feedback_key_spec(feedback: SavedViewTransferFeedback) -> (Seq<char>, bool) {
    match feedback {
        SavedViewTransferFeedback::ExportCopied => ("first_run.copy_output"@, false),
        SavedViewTransferFeedback::ExportFailed => ("saved_views.export_failed"@, true),
        SavedViewTransferFeedback::Imported(_) => ("saved_views.import_success"@, false),
        SavedViewTransferFeedback::ClipboardEmpty => ("saved_views.clipboard_empty"@, true),
        SavedViewTransferFeedback::ImportInvalid => ("saved_views.import_invalid"@, true),
    }
}

/// The catalog key of a transfer's feedback line and whether it is an error.
pub fn feedback_key(feedback: SavedViewTransferFeedback) -> (r: (&'static str, bool))
    ensures
        (r.0@, r.1) == feedback_key_spec(feedback),
{
    match feedback {
        SavedViewTransferFeedback::ExportCopied => ("first_run.copy_output", false),
        SavedViewTransferFeedback::ExportFailed => ("saved_views.export_failed", true),
        SavedViewTransferFeedback::Imported(_) => ("saved_views.import_success", false),
        SavedViewTransferFeedback::ClipboardEmpty => ("saved_views.clipboard_empty", true),
        SavedViewTransferFeedback::ImportInvalid => ("saved_views.import_invalid", true),
    }
}

/// The import feedback line: the caller's template with `{count}` and then
/// `{renamed}` filled from the import summary.
pub fn import_success_text(template: &str, summary: SavedViewImportSummary) -> (r: String)
    ensures
        r@ == crate::text::replace_spec(
            crate::text::replace_spec(template@, "{count}"@, crate::text::decimal(summary.imported as nat)),
            "{renamed}"@,
            crate::text::decimal(summary.renamed as nat),
        ),
{
    proof {
        reveal_strlit("{count}");
        reveal_strlit("{renamed}");
    }
    let count = crate::text::decimal_string(summary.imported as u64);
    let renamed = crate::text::decimal_string(summary.renamed as u64);
    let with_count = crate::text::replace_all(template, "{count}", count.as_str());
    crate::text::replace_all(with_count.as_str(), "{renamed}", renamed.as_str())
}

} // verus!
