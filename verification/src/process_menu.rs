//! The process-row context menu: its header line and its rows of commands,
//! each with its focus identity, label and destructive styling.

use vstd::prelude::*;
use crate::focus::FocusTarget;
use crate::text::{decimal, decimal_string, push_str, string_of, trim, trim_spec};

verus! {

/// A POSIX signal the menu can send.
#[derive(Clone, Copy, Debug, PartialEq, Eq, Structural)]
pub enum ProcessSignal {
    Hangup,
    Interrupt,
    User1,
    User2,
}

/// A command of the process menu.
#[derive(Clone, Copy, Debug, PartialEq, Eq, Structural)]
pub enum MenuCommand {
    EndTask,
    EndProcessTree,
    Kill,
    Suspend,
    Resume,
    Signal(ProcessSignal),
    OpenLocation,
    SearchOnline,
    Properties,
    CopyName,
    CopyPid,
    CopyCommandLine,
    CopyTsv,
    CopyJson,
    Close,
}

/// The header's subject line: the process name (the unknown-process label
/// when the name is blank), a middle dot and the pid.
pub open spec fn menu_header_spec(name: Seq<char>, unknown: Seq<char>, pid: u32) -> Seq<char> {
    (if trim_spec(name).len() == 0 {
        unknown
    } else {
        name
    }) + " \u{00B7} PID "@ + decimal(pid as nat)
}

/// The header's subject line for one process.
pub fn process_menu_header(process_name: &str, unknown_process: &str, pid: u32) -> (r: String)
    ensures
        r@ == menu_header_spec(process_name@, unknown_process@, pid),
{
    let trimmed = trim(process_name);
    let mut line = if trimmed.as_str().is_empty() {
        string_of(unknown_process)
    } else {
        string_of(process_name)
    };
    push_str(&mut line, " \u{00B7} PID ");
    let digits = decimal_string(pid as u64);
    push_str(&mut line, digits.as_str());
    line
}

/// The menu's rows, top to bottom: the primary verbs, the signals, the
/// secondary actions, the copy actions and the close button.
pub open spec fn menu_rows_spec() -> Seq<Seq<MenuCommand>> {
    seq![
        seq![
            MenuCommand::EndTask,
            MenuCommand::EndProcessTree,
            MenuCommand::Kill,
            MenuCommand::Suspend,
            MenuCommand::Resume,
        ],
        seq![
            MenuCommand::Signal(ProcessSignal::Hangup),
            MenuCommand::Signal(ProcessSignal::Interrupt),
            MenuCommand::Signal(ProcessSignal::User1),
            MenuCommand::Signal(ProcessSignal::User2),
        ],
        seq![MenuCommand::OpenLocation, MenuCommand::SearchOnline, MenuCommand::Properties],
        seq![
            MenuCommand::CopyName,
            MenuCommand::CopyPid,
            MenuCommand::CopyCommandLine,
            MenuCommand::CopyTsv,
            MenuCommand::CopyJson,
        ],
        seq![MenuCommand::Close],
    ]
}

/// The menu's rows of commands.
pub fn process_menu_rows() -> (r: Vec<Vec<MenuCommand>>)
    ensures
        r@.len() == menu_rows_spec().len(),
        forall|i: int| 0 <= i < r@.len() ==> (#[trigger] r@[i])@ == menu_rows_spec()[i],
{
    let primary = vec![
        MenuCommand::EndTask,
        MenuCommand::EndProcessTree,
        MenuCommand::Kill,
        MenuCommand::Suspend,
        MenuCommand::Resume,
    ];
    let signals = vec![
        MenuCommand::Signal(ProcessSignal::Hangup),
        MenuCommand::Signal(ProcessSignal::Interrupt),
        MenuCommand::Signal(ProcessSignal::User1),
        MenuCommand::Signal(ProcessSignal::User2),
    ];
    let secondary = vec![MenuCommand::OpenLocation, MenuCommand::SearchOnline, MenuCommand::Properties];
    let copy = vec![
        MenuCommand::CopyName,
        MenuCommand::CopyPid,
        MenuCommand::CopyCommandLine,
        MenuCommand::CopyTsv,
        MenuCommand::CopyJson,
    ];
    let close = vec![MenuCommand::Close];
    assert(primary@ =~= menu_rows_spec()[0]);
    assert(signals@ =~= menu_rows_spec()[1]);
    assert(secondary@ =~= menu_rows_spec()[2]);
    assert(copy@ =~= menu_rows_spec()[3]);
    assert(close@ =~= menu_rows_spec()[4]);
    vec![primary, signals, secondary, copy, close]
}

/// The focus identity of a command's button.
pub open spec fn menu_target_spec(command: MenuCommand) -> FocusTarget {
    match command {
        MenuCommand::EndTask => FocusTarget::ProcessMenuEndTask,
        MenuCommand::EndProcessTree => FocusTarget::ProcessMenuEndTree,
        MenuCommand::Kill => FocusTarget::ProcessMenuKill,
        MenuCommand::Suspend => FocusTarget::ProcessMenuSuspend,
        MenuCommand::Resume => FocusTarget::ProcessMenuResume,
        MenuCommand::Signal(ProcessSignal::Hangup) => FocusTarget::ProcessMenuSignalHangup,
        MenuCommand::Signal(ProcessSignal::Interrupt) => FocusTarget::ProcessMenuSignalInterrupt,
        MenuCommand::Signal(ProcessSignal::User1) => FocusTarget::ProcessMenuSignalUser1,
        MenuCommand::Signal(ProcessSignal::User2) => FocusTarget::ProcessMenuSignalUser2,
        MenuCommand::OpenLocation => FocusTarget::ProcessMenuOpenLocation,
        MenuCommand::SearchOnline => FocusTarget::ProcessMenuSearchOnline,
        MenuCommand::Properties => FocusTarget::ProcessMenuProperties,
        MenuCommand::CopyName => FocusTarget::ProcessMenuCopyName,
        MenuCommand::CopyPid => FocusTarget::ProcessMenuCopyPid,
        MenuCommand::CopyCommandLine => FocusTarget::ProcessMenuCopyCommandLine,
        MenuCommand::CopyTsv => FocusTarget::ProcessMenuCopyTsv,
        MenuCommand::CopyJson => FocusTarget::ProcessMenuCopyJson,
        MenuCommand::Close => FocusTarget::ProcessMenuClose,
    }
}

/// The focus identity of a command's button.
pub fn menu_target(command: MenuCommand) -> (r: FocusTarget)
    ensures
        r == menu_target_spec(command),
{
    match command {
        MenuCommand::EndTask => FocusTarget::ProcessMenuEndTask,
        MenuCommand::EndProcessTree => FocusTarget::ProcessMenuEndTree,
        MenuCommand::Kill => FocusTarget::ProcessMenuKill,
        MenuCommand::Suspend => FocusTarget::ProcessMenuSuspend,
        MenuCommand::Resume => FocusTarget::ProcessMenuResume,
        MenuCommand::Signal(ProcessSignal::Hangup) => FocusTarget::ProcessMenuSignalHangup,
        MenuCommand::Signal(ProcessSignal::Interrupt) => FocusTarget::ProcessMenuSignalInterrupt,
        MenuCommand::Signal(ProcessSignal::User1) => FocusTarget::ProcessMenuSignalUser1,
        MenuCommand::Signal(ProcessSignal::User2) => FocusTarget::ProcessMenuSignalUser2,
        MenuCommand::OpenLocation => FocusTarget::ProcessMenuOpenLocation,
        MenuCommand::SearchOnline => FocusTarget::ProcessMenuSearchOnline,
        MenuCommand::Properties => FocusTarget::ProcessMenuProperties,
        MenuCommand::CopyName => FocusTarget::ProcessMenuCopyName,
        MenuCommand::CopyPid => FocusTarget::ProcessMenuCopyPid,
        MenuCommand::CopyCommandLine => FocusTarget::ProcessMenuCopyCommandLine,
        MenuCommand::CopyTsv => FocusTarget::ProcessMenuCopyTsv,
        MenuCommand::CopyJson => FocusTarget::ProcessMenuCopyJson,
        MenuCommand::Close => FocusTarget::ProcessMenuClose,
    }
}

/// A button label: a catalog key to translate, or fixed text.
#[derive(Clone, Copy, Debug)]
pub enum MenuLabel {
    Catalog(&'static str),
    Fixed(&'static str),
}

/// A command's label: `(true, key)` for a catalog key, `(false, text)` for
/// fixed text.
pub open spec fn menu_label_spec(command: MenuCommand) -> (bool, Seq<char>) {
    match command {
        MenuCommand::EndTask => (true, "proc.end_task"@),
        MenuCommand::EndProcessTree => (true, "proc.end_process_tree"@),
        MenuCommand::Kill => (true, "proc.kill"@),
        MenuCommand::Suspend => (true, "proc.suspend"@),
        MenuCommand::Resume => (true, "proc.resume"@),
        MenuCommand::Signal(ProcessSignal::Hangup) => (false, "Send SIGHUP"@),
        MenuCommand::Signal(ProcessSignal::Interrupt) => (false, "Send SIGINT"@),
        MenuCommand::Signal(ProcessSignal::User1) => (false, "Send SIGUSR1"@),
        MenuCommand::Signal(ProcessSignal::User2) => (false, "Send SIGUSR2"@),
        MenuCommand::OpenLocation => (true, "proc.open_location"@),
        MenuCommand::SearchOnline => (true, "proc.search_online"@),
        MenuCommand::Properties => (false, "Properties"@),
        MenuCommand::CopyName => (true, "menu.copy_name"@),
        MenuCommand::CopyPid => (true, "menu.copy_pid"@),
        MenuCommand::CopyCommandLine => (true, "menu.copy_command_line"@),
        MenuCommand::CopyTsv => (false, "TSV"@),
        MenuCommand::CopyJson => (false, "JSON"@),
        MenuCommand::Close => (true, "common.cancel"@),
    }
}

/// The label of a command's button.
pub fn menu_label(command: MenuCommand) -> (r: MenuLabel)
    ensures
        match r {
            MenuLabel::Catalog(key) => menu_label_spec(command) == (true, key@),
            MenuLabel::Fixed(text) => menu_label_spec(command) == (false, text@),
        },
{
    match command {
        MenuCommand::EndTask => MenuLabel::Catalog("proc.end_task"),
        MenuCommand::EndProcessTree => MenuLabel::Catalog("proc.end_process_tree"),
        MenuCommand::Kill => MenuLabel::Catalog("proc.kill"),
        MenuCommand::Suspend => MenuLabel::Catalog("proc.suspend"),
        MenuCommand::Resume => MenuLabel::Catalog("proc.resume"),
        MenuCommand::Signal(ProcessSignal::Hangup) => MenuLabel::Fixed("Send SIGHUP"),
        MenuCommand::Signal(ProcessSignal::Interrupt) => MenuLabel::Fixed("Send SIGINT"),
        MenuCommand::Signal(ProcessSignal::User1) => MenuLabel::Fixed("Send SIGUSR1"),
        MenuCommand::Signal(ProcessSignal::User2) => MenuLabel::Fixed("Send SIGUSR2"),
        MenuCommand::OpenLocation => MenuLabel::Catalog("proc.open_location"),
        MenuCommand::SearchOnline => MenuLabel::Catalog("proc.search_online"),
        MenuCommand::Properties => MenuLabel::Fixed("Properties"),
        MenuCommand::CopyName => MenuLabel::Catalog("menu.copy_name"),
        MenuCommand::CopyPid => MenuLabel::Catalog("menu.copy_pid"),
        MenuCommand::CopyCommandLine => MenuLabel::Catalog("menu.copy_command_line"),
        MenuCommand::CopyTsv => MenuLabel::Fixed("TSV"),
        MenuCommand::CopyJson => MenuLabel::Fixed("JSON"),
        MenuCommand::Close => MenuLabel::Catalog("common.cancel"),
    }
}

/// Whether a command's button takes the destructive styling: exactly the
/// verbs that end the process (end task, end tree, kill).
pub fn menu_destructive(command: MenuCommand) -> (r: bool)
    ensures
        r <==> (command == MenuCommand::EndTask || command == MenuCommand::EndProcessTree || command
            == MenuCommand::Kill),
{
    match command {
        MenuCommand::EndTask | MenuCommand::EndProcessTree | MenuCommand::Kill => true,
        _ => false,
    }
}

} // verus!
