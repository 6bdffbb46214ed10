//! Stable focus-operation ids for the frontend's focus stops.
//!
//! Every keyboard-reachable control registers under one id derived from its
//! focus target; the id is a pure function of the target, so a control keeps
//! its identity across frames.

use vstd::prelude::*;
use crate::app_history::{history_window_name, history_window_name_spec, lemma_history_window_name_injective, HistoryWindow};
use crate::text::{decimal, lemma_decimal_digits, lemma_decimal_injective, lemma_prefix_cancel, lemma_split_after_digits, lemma_split_before_digits, push_decimal, push_str, string_of};

verus! {

/// The shared application pages.
#[derive(Clone, Copy, Debug, PartialEq, Eq, Structural)]
pub enum AppPage {
    Performance,
    Applications,
    Services,
    System,
    Startup,
    Users,
    AppHistory,
}

/// The canonical spelling of a page in focus ids and capture markers.
pub open spec fn page_key_spec(page: AppPage) -> Seq<char> {
    match page {
        AppPage::Performance => "performance"@,
        AppPage::Applications => "applications"@,
        AppPage::Services => "services"@,
        AppPage::System => "system"@,
        AppPage::Startup => "startup"@,
        AppPage::Users => "users"@,
        AppPage::AppHistory => "app-history"@,
    }
}

/// The canonical spelling of a page.
pub fn page_key(page: AppPage) -> (s: &'static str)
    ensures
        s@ == page_key_spec(page),
{
    match page {
        AppPage::Performance => "performance",
        AppPage::Applications => "applications",
        AppPage::Services => "services",
        AppPage::System => "system",
        AppPage::Startup => "startup",
        AppPage::Users => "users",
        AppPage::AppHistory => "app-history",
    }
}

/// The refresh request a source-retry control re-issues; requests other than
/// the three retryable inventories share one id.
#[derive(Clone, Copy, Debug, PartialEq, Eq, Structural)]
pub enum RefreshRequest {
    Services,
    Startup,
    Sessions,
    Other,
}

/// The id spelling of a refresh request.
pub open spec fn refresh_request_key_spec(request: RefreshRequest) -> Seq<char> {
    match request {
        RefreshRequest::Services => "services"@,
        RefreshRequest::Startup => "startup"@,
        RefreshRequest::Sessions => "sessions"@,
        RefreshRequest::Other => "other"@,
    }
}

/// The id spelling of a refresh request.
pub fn refresh_request_key(request: RefreshRequest) -> (s: &'static str)
    ensures
        s@ == refresh_request_key_spec(request),
{
    match request {
        RefreshRequest::Services => "services",
        RefreshRequest::Startup => "startup",
        RefreshRequest::Sessions => "sessions",
        RefreshRequest::Other => "other",
    }
}

/// Stable id of the modal close button.
pub const MODAL_CLOSE_ID: &'static str = "iced-modal-close";

/// A renderer-local focus stop. Payloads that the shared vocabulary spells
/// through another type's key carry that key as a string.
#[derive(Clone, Copy, Debug, PartialEq, Eq)]
pub enum FocusTarget {
    ModalClose,
    TableRow { page: AppPage, index: usize },
    PageTab(AppPage),
    SearchTrigger,
    SearchClose,
    ProcessColumnsTrigger,
    ProcessColumnToggle(&'static str),
    ProcessColumnNarrow(&'static str),
    ProcessColumnWiden(&'static str),
    ProcessColumnsClose,
    ServicesSearch,
    SourceRetry(RefreshRequest),
    AuthorizeRaplPower,
    AuthorizeMsrReadouts,
    EndTask,
    OpenProcessLocation,
    SearchProcessOnline,
    ProcessAffinityOpen,
    ProcessAffinityCpu(usize),
    ProcessAffinityApply,
    ProcessNetworkEscalation,
    DetailsTab(&'static str),
    SuspendProcess,
    ResumeProcess,
    KillProcess,
    ProcessMenuEndTask,
    ProcessMenuEndTree,
    ProcessMenuKill,
    ProcessMenuSuspend,
    ProcessMenuResume,
    ProcessMenuSignalHangup,
    ProcessMenuSignalInterrupt,
    ProcessMenuSignalUser1,
    ProcessMenuSignalUser2,
    ProcessMenuOpenLocation,
    ProcessMenuSearchOnline,
    ProcessMenuProperties,
    ProcessMenuCopyName,
    ProcessMenuCopyPid,
    ProcessMenuCopyCommandLine,
    ProcessMenuClose,
    ConfirmEndTask,
    ConfirmProcessBatch,
    CancelEndTask,
    SessionDisconnect,
    SessionLock,
    UserRowMenuDisconnect,
    UserRowMenuLock,
    UserRowMenuClose,
    SettingsTrigger,
    ContainersTrigger,
    HealthTrigger,
    AboutTrigger,
    Export,
    WindowCapture,
    ServiceAction { index: usize, action: &'static str },
    ServiceMenuAction { index: usize, action: &'static str },
    ServiceMenuClose,
    ServiceLogOpen { index: usize },
    ServiceDetailsOpen { index: usize },
    ConfirmServiceControl,
    CancelServiceControl,
    StartupControl,
    StartupMenuAction { index: usize, enabled: bool },
    StartupMenuClose,
    ConfirmStartupControl,
    SettingsChoice { section: &'static str, index: usize },
    PerfDeviceTab { key: &'static str, index: usize },
    ProcessStatusFilterTab(&'static str),
    ServiceDetailsLogPause,
    ServiceDetailsLogLevel,
    ServiceDetailsLogTime,
    ServiceDetailsLogCopy,
    ServiceDetailsLogRefresh,
    DirectoryUsageScan,
    DirectoryUsageCancel,
    DiskSmartOpen { index: usize },
    SmartSelfTestShort { index: usize },
    SmartSelfTestExtended { index: usize },
    ConfirmSmartSelfTest,
    CancelSmartSelfTest,
    GpuEnginesExpandToggle,
    GpuEngineRowsToggle,
    AboutCopyDetails,
    ServiceLogFollow,
    ServiceLogPause,
    ServiceLogLevel,
    ServiceLogTime,
    ServiceLogCopy,
    ServiceLogExport,
    ServiceDetailsRetry,
    SavedViewPreset(u64),
    SavedViewSaveCurrent,
    SavedViewExport,
    SavedViewImport,
    HistoryReplayToggle,
    HistoryReplayWindow(HistoryWindow),
    HistoryReplayRefresh,
    AlertCenterClear,
    AlertCenterExport,
    ProcessMenuCopyTsv,
    ProcessMenuCopyJson,
    RunTaskOpen,
    RunTaskCommandInput,
    RunTaskSubmit,
    RunTaskCancel,
    AlertsPageTab,
    AlertsRuleToggle(usize),
    AlertsExport,
    AlertsImport,
    FirstRunCopy(u8),
    FirstRunAction(u8),
    ProcessAffinitySelectAll,
    ProcessAffinityClearAll,
    ProcessAffinityInvert,
    ProcessAffinityPCores,
    ProcessAffinityECores,
    ProcessTreeExpandAll,
    ProcessTreeCollapseAll,
    ServiceDetailsJumpToProcess,
    StartupOpenLocation,
    PerformanceGraphPoints(usize),
}

/// The stable focus-operation id of one focus stop.
pub open spec fn focus_id_spec(target: FocusTarget) -> Seq<char> {
    match target {
        FocusTarget::ModalClose => "iced-modal-close"@,
        FocusTarget::TableRow { page, index } => "iced-table-row-"@ + page_key_spec(page) + "-"@ + decimal(index as nat),
        FocusTarget::PageTab(page) => "iced-page-tab-"@ + page_key_spec(page),
        FocusTarget::SearchTrigger => "iced-search-trigger"@,
        FocusTarget::SearchClose => "iced-search-close"@,
        FocusTarget::ProcessColumnsTrigger => "iced-process-columns-trigger"@,
        FocusTarget::ProcessColumnToggle(label) => "iced-process-column-toggle-"@ + label@,
        FocusTarget::ProcessColumnNarrow(label) => "iced-process-column-narrow-"@ + label@,
        FocusTarget::ProcessColumnWiden(label) => "iced-process-column-widen-"@ + label@,
        FocusTarget::ProcessColumnsClose => "iced-process-columns-close"@,
        FocusTarget::ServicesSearch => "iced-services-search"@,
        FocusTarget::SourceRetry(request) => "iced-source-retry-"@ + refresh_request_key_spec(request),
        FocusTarget::AuthorizeRaplPower => "iced-authorize-rapl-power"@,
        FocusTarget::AuthorizeMsrReadouts => "iced-authorize-msr-readouts"@,
        FocusTarget::EndTask => "iced-end-task"@,
        FocusTarget::OpenProcessLocation => "iced-open-process-location"@,
        FocusTarget::SearchProcessOnline => "iced-search-process-online"@,
        FocusTarget::ProcessAffinityOpen => "iced-process-affinity-open"@,
        FocusTarget::ProcessAffinityCpu(cpu) => "iced-process-affinity-cpu-"@ + decimal(cpu as nat),
        FocusTarget::ProcessAffinityApply => "iced-process-affinity-apply"@,
        FocusTarget::ProcessNetworkEscalation => "iced-process-net-escalation"@,
        FocusTarget::DetailsTab(section) => "iced-details-tab-"@ + section@,
        FocusTarget::SuspendProcess => "iced-suspend-process"@,
        FocusTarget::ResumeProcess => "iced-resume-process"@,
        FocusTarget::KillProcess => "iced-kill-process"@,
        FocusTarget::ProcessMenuEndTask => "iced-process-menu-end-task"@,
        FocusTarget::ProcessMenuEndTree => "iced-process-menu-end-tree"@,
        FocusTarget::ProcessMenuKill => "iced-process-menu-kill"@,
        FocusTarget::ProcessMenuSuspend => "iced-process-menu-suspend"@,
        FocusTarget::ProcessMenuResume => "iced-process-menu-resume"@,
        FocusTarget::ProcessMenuSignalHangup => "iced-process-menu-signal-hangup"@,
        FocusTarget::ProcessMenuSignalInterrupt => "iced-process-menu-signal-interrupt"@,
        FocusTarget::ProcessMenuSignalUser1 => "iced-process-menu-signal-user1"@,
        FocusTarget::ProcessMenuSignalUser2 => "iced-process-menu-signal-user2"@,
        FocusTarget::ProcessMenuOpenLocation => "iced-process-menu-open-location"@,
        FocusTarget::ProcessMenuSearchOnline => "iced-process-menu-search-online"@,
        FocusTarget::ProcessMenuProperties => "iced-process-menu-properties"@,
        FocusTarget::ProcessMenuCopyName => "iced-process-menu-copy-name"@,
        FocusTarget::ProcessMenuCopyPid => "iced-process-menu-copy-pid"@,
        FocusTarget::ProcessMenuCopyCommandLine => "iced-process-menu-copy-command-line"@,
        FocusTarget::ProcessMenuClose => "iced-process-menu-close"@,
        FocusTarget::ConfirmEndTask => "iced-confirm-end-task"@,
        FocusTarget::ConfirmProcessBatch => "iced-confirm-process-batch"@,
        FocusTarget::CancelEndTask => "iced-cancel-end-task"@,
        FocusTarget::SessionDisconnect => "iced-session-disconnect"@,
        FocusTarget::SessionLock => "iced-session-lock"@,
        FocusTarget::UserRowMenuDisconnect => "iced-user-row-menu-disconnect"@,
        FocusTarget::UserRowMenuLock => "iced-user-row-menu-lock"@,
        FocusTarget::UserRowMenuClose => "iced-user-row-menu-close"@,
        FocusTarget::SettingsTrigger => "iced-settings-trigger"@,
        FocusTarget::ContainersTrigger => "iced-containers-trigger"@,
        FocusTarget::HealthTrigger => "iced-health-trigger"@,
        FocusTarget::AboutTrigger => "iced-about-trigger"@,
        FocusTarget::Export => "iced-export"@,
        FocusTarget::WindowCapture => "iced-window-capture"@,
        FocusTarget::ServiceAction { index, action } => "iced-service-action-"@ + decimal(index as nat) + "-"@ + action@,
        FocusTarget::ServiceMenuAction { index, action } => "iced-service-menu-action-"@ + decimal(index as nat) + "-"@ + action@,
        FocusTarget::ServiceMenuClose => "iced-service-menu-close"@,
        FocusTarget::ServiceLogOpen { index } => "iced-service-log-open-"@ + decimal(index as nat),
        FocusTarget::ServiceDetailsOpen { index } => "iced-service-details-open-"@ + decimal(index as nat),
        FocusTarget::ConfirmServiceControl => "iced-confirm-service-control"@,
        FocusTarget::CancelServiceControl => "iced-cancel-service-control"@,
        FocusTarget::StartupControl => "iced-startup-control"@,
        FocusTarget::StartupMenuAction { index, enabled } => "iced-startup-menu-action-"@ + decimal(index as nat) + "-"@ + (if enabled { "enable"@ } else { "disable"@ }),
        FocusTarget::StartupMenuClose => "iced-startup-menu-close"@,
        FocusTarget::ConfirmStartupControl => "iced-confirm-startup-control"@,
        FocusTarget::SettingsChoice { section, index } => "iced-settings-choice-"@ + section@ + "-"@ + decimal(index as nat),
        FocusTarget::PerfDeviceTab { key, index } => "iced-perf-tab-"@ + key@ + "-"@ + decimal(index as nat),
        FocusTarget::ProcessStatusFilterTab(key) => "iced-process-status-filter-"@ + key@,
        FocusTarget::ServiceDetailsLogPause => "iced-service-details-log-pause"@,
        FocusTarget::ServiceDetailsLogLevel => "iced-service-details-log-level"@,
        FocusTarget::ServiceDetailsLogTime => "iced-service-details-log-time"@,
        FocusTarget::ServiceDetailsLogCopy => "iced-service-details-log-copy"@,
        FocusTarget::ServiceDetailsLogRefresh => "iced-service-details-log-refresh"@,
        FocusTarget::DirectoryUsageScan => "iced-directory-usage-scan"@,
        FocusTarget::DirectoryUsageCancel => "iced-directory-usage-cancel"@,
        FocusTarget::DiskSmartOpen { index } => "iced-disk-smart-open-"@ + decimal(index as nat),
        FocusTarget::SmartSelfTestShort { index } => "iced-smart-self-test-short-"@ + decimal(index as nat),
        FocusTarget::SmartSelfTestExtended { index } => "iced-smart-self-test-extended-"@ + decimal(index as nat),
        FocusTarget::ConfirmSmartSelfTest => "iced-confirm-smart-self-test"@,
        FocusTarget::CancelSmartSelfTest => "iced-cancel-smart-self-test"@,
        FocusTarget::GpuEnginesExpandToggle => "iced-gpu-engines-expand-toggle"@,
        FocusTarget::GpuEngineRowsToggle => "iced-gpu-engine-rows-toggle"@,
        FocusTarget::AboutCopyDetails => "iced-about-copy-details"@,
        FocusTarget::ServiceLogFollow => "iced-service-log-follow"@,
        FocusTarget::ServiceLogPause => "iced-service-log-pause"@,
        FocusTarget::ServiceLogLevel => "iced-service-log-level"@,
        FocusTarget::ServiceLogTime => "iced-service-log-time"@,
        FocusTarget::ServiceLogCopy => "iced-service-log-copy"@,
        FocusTarget::ServiceLogExport => "iced-service-log-export"@,
        FocusTarget::ServiceDetailsRetry => "iced-service-details-retry"@,
        FocusTarget::SavedViewPreset(id) => "iced-saved-view-preset-"@ + decimal(id as nat),
        FocusTarget::SavedViewSaveCurrent => "iced-saved-view-save-current"@,
        FocusTarget::SavedViewExport => "iced-saved-view-export"@,
        FocusTarget::SavedViewImport => "iced-saved-view-import"@,
        FocusTarget::HistoryReplayToggle => "iced-history-replay-toggle"@,
        FocusTarget::HistoryReplayWindow(window) => "iced-history-replay-window-"@ + history_window_name_spec(window),
        FocusTarget::HistoryReplayRefresh => "iced-history-replay-refresh"@,
        FocusTarget::AlertCenterClear => "iced-alert-center-clear"@,
        FocusTarget::AlertCenterExport => "iced-alert-center-export"@,
        FocusTarget::ProcessMenuCopyTsv => "iced-process-menu-copy-tsv"@,
        FocusTarget::ProcessMenuCopyJson => "iced-process-menu-copy-json"@,
        FocusTarget::RunTaskOpen => "iced-run-task-open"@,
        FocusTarget::RunTaskCommandInput => "iced-run-task-command-input"@,
        FocusTarget::RunTaskSubmit => "iced-run-task-submit"@,
        FocusTarget::RunTaskCancel => "iced-run-task-cancel"@,
        FocusTarget::AlertsPageTab => "iced-alerts-page-tab"@,
        FocusTarget::AlertsRuleToggle(index) => "iced-alerts-rule-toggle-"@ + decimal(index as nat),
        FocusTarget::AlertsExport => "iced-alerts-export"@,
        FocusTarget::AlertsImport => "iced-alerts-import"@,
        FocusTarget::FirstRunCopy(row) => "iced-first-run-copy-"@ + decimal(row as nat),
        FocusTarget::FirstRunAction(index) => "iced-first-run-action-"@ + decimal(index as nat),
        FocusTarget::ProcessAffinitySelectAll => "iced-process-affinity-select-all"@,
        FocusTarget::ProcessAffinityClearAll => "iced-process-affinity-clear-all"@,
        FocusTarget::ProcessAffinityInvert => "iced-process-affinity-invert"@,
        FocusTarget::ProcessAffinityPCores => "iced-process-affinity-p-cores"@,
        FocusTarget::ProcessAffinityECores => "iced-process-affinity-e-cores"@,
        FocusTarget::ProcessTreeExpandAll => "iced-process-tree-expand-all"@,
        FocusTarget::ProcessTreeCollapseAll => "iced-process-tree-collapse-all"@,
        FocusTarget::ServiceDetailsJumpToProcess => "iced-service-details-jump-to-process"@,
        FocusTarget::StartupOpenLocation => "iced-startup-open-location"@,
        FocusTarget::PerformanceGraphPoints(points) => "iced-perf-graph-points-"@ + decimal(points as nat),
    }
}

/// Return the stable focus-operation id of one focus stop.
pub fn focus_id(target: FocusTarget) -> (id: String)
    ensures
        id@ == focus_id_spec(target),
{
    match target {
        FocusTarget::ModalClose => string_of(MODAL_CLOSE_ID),
        FocusTarget::TableRow { page, index } => {
            let mut s = String::new();
            push_str(&mut s, "iced-table-row-");
            push_str(&mut s, page_key(page));
            push_str(&mut s, "-");
            push_decimal(&mut s, index as u64);
            assert(s@ =~= focus_id_spec(target));
            s
        },
        FocusTarget::PageTab(page) => {
            let mut s = String::new();
            push_str(&mut s, "iced-page-tab-");
            push_str(&mut s, page_key(page));
            assert(s@ =~= focus_id_spec(target));
            s
        },
        FocusTarget::SearchTrigger => string_of("iced-search-trigger"),
        FocusTarget::SearchClose => string_of("iced-search-close"),
        FocusTarget::ProcessColumnsTrigger => string_of("iced-process-columns-trigger"),
        FocusTarget::ProcessColumnToggle(label) => {
            let mut s = String::new();
            push_str(&mut s, "iced-process-column-toggle-");
            push_str(&mut s, label);
            assert(s@ =~= focus_id_spec(target));
            s
        },
        FocusTarget::ProcessColumnNarrow(label) => {
            let mut s = String::new();
            push_str(&mut s, "iced-process-column-narrow-");
            push_str(&mut s, label);
            assert(s@ =~= focus_id_spec(target));
            s
        },
        FocusTarget::ProcessColumnWiden(label) => {
            let mut s = String::new();
            push_str(&mut s, "iced-process-column-widen-");
            push_str(&mut s, label);
            assert(s@ =~= focus_id_spec(target));
            s
        },
        FocusTarget::ProcessColumnsClose => string_of("iced-process-columns-close"),
        FocusTarget::ServicesSearch => string_of("iced-services-search"),
        FocusTarget::SourceRetry(request) => {
            let mut s = String::new();
            push_str(&mut s, "iced-source-retry-");
            push_str(&mut s, refresh_request_key(request));
            assert(s@ =~= focus_id_spec(target));
            s
        },
        FocusTarget::AuthorizeRaplPower => string_of("iced-authorize-rapl-power"),
        FocusTarget::AuthorizeMsrReadouts => string_of("iced-authorize-msr-readouts"),
        FocusTarget::EndTask => string_of("iced-end-task"),
        FocusTarget::OpenProcessLocation => string_of("iced-open-process-location"),
        FocusTarget::SearchProcessOnline => string_of("iced-search-process-online"),
        FocusTarget::ProcessAffinityOpen => string_of("iced-process-affinity-open"),
        FocusTarget::ProcessAffinityCpu(cpu) => {
            let mut s = String::new();
            push_str(&mut s, "iced-process-affinity-cpu-");
            push_decimal(&mut s, cpu as u64);
            assert(s@ =~= focus_id_spec(target));
            s
        },
        FocusTarget::ProcessAffinityApply => string_of("iced-process-affinity-apply"),
        FocusTarget::ProcessNetworkEscalation => string_of("iced-process-net-escalation"),
        FocusTarget::DetailsTab(section) => {
            let mut s = String::new();
            push_str(&mut s, "iced-details-tab-");
            push_str(&mut s, section);
            assert(s@ =~= focus_id_spec(target));
            s
        },
        FocusTarget::SuspendProcess => string_of("iced-suspend-process"),
        FocusTarget::ResumeProcess => string_of("iced-resume-process"),
        FocusTarget::KillProcess => string_of("iced-kill-process"),
        FocusTarget::ProcessMenuEndTask => string_of("iced-process-menu-end-task"),
        FocusTarget::ProcessMenuEndTree => string_of("iced-process-menu-end-tree"),
        FocusTarget::ProcessMenuKill => string_of("iced-process-menu-kill"),
        FocusTarget::ProcessMenuSuspend => string_of("iced-process-menu-suspend"),
        FocusTarget::ProcessMenuResume => string_of("iced-process-menu-resume"),
        FocusTarget::ProcessMenuSignalHangup => string_of("iced-process-menu-signal-hangup"),
        FocusTarget::ProcessMenuSignalInterrupt => string_of("iced-process-menu-signal-interrupt"),
        FocusTarget::ProcessMenuSignalUser1 => string_of("iced-process-menu-signal-user1"),
        FocusTarget::ProcessMenuSignalUser2 => string_of("iced-process-menu-signal-user2"),
        FocusTarget::ProcessMenuOpenLocation => string_of("iced-process-menu-open-location"),
        FocusTarget::ProcessMenuSearchOnline => string_of("iced-process-menu-search-online"),
        FocusTarget::ProcessMenuProperties => string_of("iced-process-menu-properties"),
        FocusTarget::ProcessMenuCopyName => string_of("iced-process-menu-copy-name"),
        FocusTarget::ProcessMenuCopyPid => string_of("iced-process-menu-copy-pid"),
        FocusTarget::ProcessMenuCopyCommandLine => string_of("iced-process-menu-copy-command-line"),
        FocusTarget::ProcessMenuClose => string_of("iced-process-menu-close"),
        FocusTarget::ConfirmEndTask => string_of("iced-confirm-end-task"),
        FocusTarget::ConfirmProcessBatch => string_of("iced-confirm-process-batch"),
        FocusTarget::CancelEndTask => string_of("iced-cancel-end-task"),
        FocusTarget::SessionDisconnect => string_of("iced-session-disconnect"),
        FocusTarget::SessionLock => string_of("iced-session-lock"),
        FocusTarget::UserRowMenuDisconnect => string_of("iced-user-row-menu-disconnect"),
        FocusTarget::UserRowMenuLock => string_of("iced-user-row-menu-lock"),
        FocusTarget::UserRowMenuClose => string_of("iced-user-row-menu-close"),
        FocusTarget::SettingsTrigger => string_of("iced-settings-trigger"),
        FocusTarget::ContainersTrigger => string_of("iced-containers-trigger"),
        FocusTarget::HealthTrigger => string_of("iced-health-trigger"),
        FocusTarget::AboutTrigger => string_of("iced-about-trigger"),
        FocusTarget::Export => string_of("iced-export"),
        FocusTarget::WindowCapture => string_of("iced-window-capture"),
        FocusTarget::ServiceAction { index, action } => {
            let mut s = String::new();
            push_str(&mut s, "iced-service-action-");
            push_decimal(&mut s, index as u64);
            push_str(&mut s, "-");
            push_str(&mut s, action);
            assert(s@ =~= focus_id_spec(target));
            s
        },
        FocusTarget::ServiceMenuAction { index, action } => {
            let mut s = String::new();
            push_str(&mut s, "iced-service-menu-action-");
            push_decimal(&mut s, index as u64);
            push_str(&mut s, "-");
            push_str(&mut s, action);
            assert(s@ =~= focus_id_spec(target));
            s
        },
        FocusTarget::ServiceMenuClose => string_of("iced-service-menu-close"),
        FocusTarget::ServiceLogOpen { index } => {
            let mut s = String::new();
            push_str(&mut s, "iced-service-log-open-");
            push_decimal(&mut s, index as u64);
            assert(s@ =~= focus_id_spec(target));
            s
        },
        FocusTarget::ServiceDetailsOpen { index } => {
            let mut s = String::new();
            push_str(&mut s, "iced-service-details-open-");
            push_decimal(&mut s, index as u64);
            assert(s@ =~= focus_id_spec(target));
            s
        },
        FocusTarget::ConfirmServiceControl => string_of("iced-confirm-service-control"),
        FocusTarget::CancelServiceControl => string_of("iced-cancel-service-control"),
        FocusTarget::StartupControl => string_of("iced-startup-control"),
        FocusTarget::StartupMenuAction { index, enabled } => {
            let mut s = String::new();
            push_str(&mut s, "iced-startup-menu-action-");
            push_decimal(&mut s, index as u64);
            push_str(&mut s, "-");
            push_str(&mut s, if enabled { "enable" } else { "disable" });
            assert(s@ =~= focus_id_spec(target));
            s
        },
        FocusTarget::StartupMenuClose => string_of("iced-startup-menu-close"),
        FocusTarget::ConfirmStartupControl => string_of("iced-confirm-startup-control"),
        FocusTarget::SettingsChoice { section, index } => {
            let mut s = String::new();
            push_str(&mut s, "iced-settings-choice-");
            push_str(&mut s, section);
            push_str(&mut s, "-");
            push_decimal(&mut s, index as u64);
            assert(s@ =~= focus_id_spec(target));
            s
        },
        FocusTarget::PerfDeviceTab { key, index } => {
            let mut s = String::new();
            push_str(&mut s, "iced-perf-tab-");
            push_str(&mut s, key);
            push_str(&mut s, "-");
            push_decimal(&mut s, index as u64);
            assert(s@ =~= focus_id_spec(target));
            s
        },
        FocusTarget::ProcessStatusFilterTab(key) => {
            let mut s = String::new();
            push_str(&mut s, "iced-process-status-filter-");
            push_str(&mut s, key);
            assert(s@ =~= focus_id_spec(target));
            s
        },
        FocusTarget::ServiceDetailsLogPause => string_of("iced-service-details-log-pause"),
        FocusTarget::ServiceDetailsLogLevel => string_of("iced-service-details-log-level"),
        FocusTarget::ServiceDetailsLogTime => string_of("iced-service-details-log-time"),
        FocusTarget::ServiceDetailsLogCopy => string_of("iced-service-details-log-copy"),
        FocusTarget::ServiceDetailsLogRefresh => string_of("iced-service-details-log-refresh"),
        FocusTarget::DirectoryUsageScan => string_of("iced-directory-usage-scan"),
        FocusTarget::DirectoryUsageCancel => string_of("iced-directory-usage-cancel"),
        FocusTarget::DiskSmartOpen { index } => {
            let mut s = String::new();
            push_str(&mut s, "iced-disk-smart-open-");
            push_decimal(&mut s, index as u64);
            assert(s@ =~= focus_id_spec(target));
            s
        },
        FocusTarget::SmartSelfTestShort { index } => {
            let mut s = String::new();
            push_str(&mut s, "iced-smart-self-test-short-");
            push_decimal(&mut s, index as u64);
            assert(s@ =~= focus_id_spec(target));
            s
        },
        FocusTarget::SmartSelfTestExtended { index } => {
            let mut s = String::new();
            push_str(&mut s, "iced-smart-self-test-extended-");
            push_decimal(&mut s, index as u64);
            assert(s@ =~= focus_id_spec(target));
            s
        },
        FocusTarget::ConfirmSmartSelfTest => string_of("iced-confirm-smart-self-test"),
        FocusTarget::CancelSmartSelfTest => string_of("iced-cancel-smart-self-test"),
        FocusTarget::GpuEnginesExpandToggle => string_of("iced-gpu-engines-expand-toggle"),
        FocusTarget::GpuEngineRowsToggle => string_of("iced-gpu-engine-rows-toggle"),
        FocusTarget::AboutCopyDetails => string_of("iced-about-copy-details"),
        FocusTarget::ServiceLogFollow => string_of("iced-service-log-follow"),
        FocusTarget::ServiceLogPause => string_of("iced-service-log-pause"),
        FocusTarget::ServiceLogLevel => string_of("iced-service-log-level"),
        FocusTarget::ServiceLogTime => string_of("iced-service-log-time"),
        FocusTarget::ServiceLogCopy => string_of("iced-service-log-copy"),
        FocusTarget::ServiceLogExport => string_of("iced-service-log-export"),
        FocusTarget::ServiceDetailsRetry => string_of("iced-service-details-retry"),
        FocusTarget::SavedViewPreset(id) => {
            let mut s = String::new();
            push_str(&mut s, "iced-saved-view-preset-");
            push_decimal(&mut s, id as u64);
            assert(s@ =~= focus_id_spec(target));
            s
        },
        FocusTarget::SavedViewSaveCurrent => string_of("iced-saved-view-save-current"),
        FocusTarget::SavedViewExport => string_of("iced-saved-view-export"),
        FocusTarget::SavedViewImport => string_of("iced-saved-view-import"),
        FocusTarget::HistoryReplayToggle => string_of("iced-history-replay-toggle"),
        FocusTarget::HistoryReplayWindow(window) => {
            let mut s = String::new();
            push_str(&mut s, "iced-history-replay-window-");
            push_str(&mut s, history_window_name(window));
            assert(s@ =~= focus_id_spec(target));
            s
        },
        FocusTarget::HistoryReplayRefresh => string_of("iced-history-replay-refresh"),
        FocusTarget::AlertCenterClear => string_of("iced-alert-center-clear"),
        FocusTarget::AlertCenterExport => string_of("iced-alert-center-export"),
        FocusTarget::ProcessMenuCopyTsv => string_of("iced-process-menu-copy-tsv"),
        FocusTarget::ProcessMenuCopyJson => string_of("iced-process-menu-copy-json"),
        FocusTarget::RunTaskOpen => string_of("iced-run-task-open"),
        FocusTarget::RunTaskCommandInput => string_of("iced-run-task-command-input"),
        FocusTarget::RunTaskSubmit => string_of("iced-run-task-submit"),
        FocusTarget::RunTaskCancel => string_of("iced-run-task-cancel"),
        FocusTarget::AlertsPageTab => string_of("iced-alerts-page-tab"),
        FocusTarget::AlertsRuleToggle(index) => {
            let mut s = String::new();
            push_str(&mut s, "iced-alerts-rule-toggle-");
            push_decimal(&mut s, index as u64);
            assert(s@ =~= focus_id_spec(target));
            s
        },
        FocusTarget::AlertsExport => string_of("iced-alerts-export"),
        FocusTarget::AlertsImport => string_of("iced-alerts-import"),
        FocusTarget::FirstRunCopy(row) => {
            let mut s = String::new();
            push_str(&mut s, "iced-first-run-copy-");
            push_decimal(&mut s, row as u64);
            assert(s@ =~= focus_id_spec(target));
            s
        },
        FocusTarget::FirstRunAction(index) => {
            let mut s = String::new();
            push_str(&mut s, "iced-first-run-action-");
            push_decimal(&mut s, index as u64);
            assert(s@ =~= focus_id_spec(target));
            s
        },
        FocusTarget::ProcessAffinitySelectAll => string_of("iced-process-affinity-select-all"),
        FocusTarget::ProcessAffinityClearAll => string_of("iced-process-affinity-clear-all"),
        FocusTarget::ProcessAffinityInvert => string_of("iced-process-affinity-invert"),
        FocusTarget::ProcessAffinityPCores => string_of("iced-process-affinity-p-cores"),
        FocusTarget::ProcessAffinityECores => string_of("iced-process-affinity-e-cores"),
        FocusTarget::ProcessTreeExpandAll => string_of("iced-process-tree-expand-all"),
        FocusTarget::ProcessTreeCollapseAll => string_of("iced-process-tree-collapse-all"),
        FocusTarget::ServiceDetailsJumpToProcess => string_of("iced-service-details-jump-to-process"),
        FocusTarget::StartupOpenLocation => string_of("iced-startup-open-location"),
        FocusTarget::PerformanceGraphPoints(points) => {
            let mut s = String::new();
            push_str(&mut s, "iced-perf-graph-points-");
            push_decimal(&mut s, points as u64);
            assert(s@ =~= focus_id_spec(target));
            s
        },
    }
}

/// Distinct rows of one page never share a focus id.
pub proof fn lemma_table_row_ids_distinct(page: AppPage, a: usize, b: usize)
    requires
        a != b,
    ensures
        focus_id_spec(FocusTarget::TableRow { page, index: a })
            != focus_id_spec(FocusTarget::TableRow { page, index: b }),
{
    let p = "iced-table-row-"@ + page_key_spec(page) + "-"@;
    assert(focus_id_spec(FocusTarget::TableRow { page, index: a }) =~= p + decimal(a as nat));
    assert(focus_id_spec(FocusTarget::TableRow { page, index: b }) =~= p + decimal(b as nat));
    if p + decimal(a as nat) == p + decimal(b as nat) {
        lemma_prefix_cancel(p, decimal(a as nat), decimal(b as nat));
        lemma_decimal_injective(a as nat, b as nat);
    }
}

/// Whether a target is one of the first-run dialog's focus stops.
pub open spec fn is_first_run_slot(target: FocusTarget) -> bool {
    target is FirstRunCopy || target is FirstRunAction
}

/// The first-run dialog's focus stops are collision-free: distinct slots
/// never share a focus id.
pub proof fn lemma_first_run_ids_distinct(x: FocusTarget, y: FocusTarget)
    requires
        is_first_run_slot(x),
        is_first_run_slot(y),
        x != y,
    ensures
        focus_id_spec(x) != focus_id_spec(y),
{
    reveal_strlit("iced-first-run-copy-");
    reveal_strlit("iced-first-run-action-");
    let pc = "iced-first-run-copy-"@;
    let pa = "iced-first-run-action-"@;
    match (x, y) {
        (FocusTarget::FirstRunCopy(a), FocusTarget::FirstRunCopy(b)) => {
            if pc + decimal(a as nat) == pc + decimal(b as nat) {
                lemma_prefix_cancel(pc, decimal(a as nat), decimal(b as nat));
                lemma_decimal_injective(a as nat, b as nat);
            }
        },
        (FocusTarget::FirstRunAction(a), FocusTarget::FirstRunAction(b)) => {
            if pa + decimal(a as nat) == pa + decimal(b as nat) {
                lemma_prefix_cancel(pa, decimal(a as nat), decimal(b as nat));
                lemma_decimal_injective(a as nat, b as nat);
            }
        },
        (FocusTarget::FirstRunCopy(a), FocusTarget::FirstRunAction(b)) => {
            assert((pc + decimal(a as nat))[15] != (pa + decimal(b as nat))[15]);
        },
        (FocusTarget::FirstRunAction(a), FocusTarget::FirstRunCopy(b)) => {
            assert((pa + decimal(a as nat))[15] != (pc + decimal(b as nat))[15]);
        },
        _ => {},
    }
}

/// The variant index of a focus target, in declaration order.
spec fn target_variant(target: FocusTarget) -> int {
    match target {

        FocusTarget::ModalClose => 0,

        FocusTarget::TableRow { .. } => 1,

        FocusTarget::PageTab(..) => 2,

        FocusTarget::SearchTrigger => 3,

        FocusTarget::SearchClose => 4,

        FocusTarget::ProcessColumnsTrigger => 5,

        FocusTarget::ProcessColumnToggle(..) => 6,

        FocusTarget::ProcessColumnNarrow(..) => 7,

        FocusTarget::ProcessColumnWiden(..) => 8,

        FocusTarget::ProcessColumnsClose => 9,

        FocusTarget::ServicesSearch => 10,

        FocusTarget::SourceRetry(..) => 11,

        FocusTarget::AuthorizeRaplPower => 12,

        FocusTarget::AuthorizeMsrReadouts => 13,

        FocusTarget::EndTask => 14,

        FocusTarget::OpenProcessLocation => 15,

        FocusTarget::SearchProcessOnline => 16,

        FocusTarget::ProcessAffinityOpen => 17,

        FocusTarget::ProcessAffinityCpu(..) => 18,

        FocusTarget::ProcessAffinityApply => 19,

        FocusTarget::ProcessNetworkEscalation => 20,

        FocusTarget::DetailsTab(..) => 21,

        FocusTarget::SuspendProcess => 22,

        FocusTarget::ResumeProcess => 23,

        FocusTarget::KillProcess => 24,

        FocusTarget::ProcessMenuEndTask => 25,

        FocusTarget::ProcessMenuEndTree => 26,

        FocusTarget::ProcessMenuKill => 27,

        FocusTarget::ProcessMenuSuspend => 28,

        FocusTarget::ProcessMenuResume => 29,

        FocusTarget::ProcessMenuSignalHangup => 30,

        FocusTarget::ProcessMenuSignalInterrupt => 31,

        FocusTarget::ProcessMenuSignalUser1 => 32,

        FocusTarget::ProcessMenuSignalUser2 => 33,

        FocusTarget::ProcessMenuOpenLocation => 34,

        FocusTarget::ProcessMenuSearchOnline => 35,

        FocusTarget::ProcessMenuProperties => 36,

        FocusTarget::ProcessMenuCopyName => 37,

        FocusTarget::ProcessMenuCopyPid => 38,

        FocusTarget::ProcessMenuCopyCommandLine => 39,

        FocusTarget::ProcessMenuClose => 40,

        FocusTarget::ConfirmEndTask => 41,

        FocusTarget::ConfirmProcessBatch => 42,

        FocusTarget::CancelEndTask => 43,

        FocusTarget::SessionDisconnect => 44,

        FocusTarget::SessionLock => 45,

        FocusTarget::UserRowMenuDisconnect => 46,

        FocusTarget::UserRowMenuLock => 47,

        FocusTarget::UserRowMenuClose => 48,

        FocusTarget::SettingsTrigger => 49,

        FocusTarget::ContainersTrigger => 50,

        FocusTarget::HealthTrigger => 51,

        FocusTarget::AboutTrigger => 52,

        FocusTarget::Export => 53,

        FocusTarget::WindowCapture => 54,

        FocusTarget::ServiceAction { .. } => 55,

        FocusTarget::ServiceMenuAction { .. } => 56,

        FocusTarget::ServiceMenuClose => 57,

        FocusTarget::ServiceLogOpen { .. } => 58,

        FocusTarget::ServiceDetailsOpen { .. } => 59,

        FocusTarget::ConfirmServiceControl => 60,

        FocusTarget::CancelServiceControl => 61,

        FocusTarget::StartupControl => 62,

        FocusTarget::StartupMenuAction { .. } => 63,

        FocusTarget::StartupMenuClose => 64,

        FocusTarget::ConfirmStartupControl => 65,

        FocusTarget::SettingsChoice { .. } => 66,

        FocusTarget::PerfDeviceTab { .. } => 67,

        FocusTarget::ProcessStatusFilterTab(..) => 68,

        FocusTarget::ServiceDetailsLogPause => 69,

        FocusTarget::ServiceDetailsLogLevel => 70,

        FocusTarget::ServiceDetailsLogTime => 71,

        FocusTarget::ServiceDetailsLogCopy => 72,

        FocusTarget::ServiceDetailsLogRefresh => 73,

        FocusTarget::DirectoryUsageScan => 74,

        FocusTarget::DirectoryUsageCancel => 75,

        FocusTarget::DiskSmartOpen { .. } => 76,

        FocusTarget::SmartSelfTestShort { .. } => 77,

        FocusTarget::SmartSelfTestExtended { .. } => 78,

        FocusTarget::ConfirmSmartSelfTest => 79,

        FocusTarget::CancelSmartSelfTest => 80,

        FocusTarget::GpuEnginesExpandToggle => 81,

        FocusTarget::GpuEngineRowsToggle => 82,

        FocusTarget::AboutCopyDetails => 83,

        FocusTarget::ServiceLogFollow => 84,

        FocusTarget::ServiceLogPause => 85,

        FocusTarget::ServiceLogLevel => 86,

        FocusTarget::ServiceLogTime => 87,

        FocusTarget::ServiceLogCopy => 88,

        FocusTarget::ServiceLogExport => 89,

        FocusTarget::ServiceDetailsRetry => 90,

        FocusTarget::SavedViewPreset(..) => 91,

        FocusTarget::SavedViewSaveCurrent => 92,

        FocusTarget::SavedViewExport => 93,

        FocusTarget::SavedViewImport => 94,

        FocusTarget::HistoryReplayToggle => 95,

        FocusTarget::HistoryReplayWindow(..) => 96,

        FocusTarget::HistoryReplayRefresh => 97,

        FocusTarget::AlertCenterClear => 98,

        FocusTarget::AlertCenterExport => 99,

        FocusTarget::ProcessMenuCopyTsv => 100,

        FocusTarget::ProcessMenuCopyJson => 101,

        FocusTarget::RunTaskOpen => 102,

        FocusTarget::RunTaskCommandInput => 103,

        FocusTarget::RunTaskSubmit => 104,

        FocusTarget::RunTaskCancel => 105,

        FocusTarget::AlertsPageTab => 106,

        FocusTarget::AlertsRuleToggle(..) => 107,

        FocusTarget::AlertsExport => 108,

        FocusTarget::AlertsImport => 109,

        FocusTarget::FirstRunCopy(..) => 110,

        FocusTarget::FirstRunAction(..) => 111,

        FocusTarget::ProcessAffinitySelectAll => 112,

        FocusTarget::ProcessAffinityClearAll => 113,

        FocusTarget::ProcessAffinityInvert => 114,

        FocusTarget::ProcessAffinityPCores => 115,

        FocusTarget::ProcessAffinityECores => 116,

        FocusTarget::ProcessTreeExpandAll => 117,

        FocusTarget::ProcessTreeCollapseAll => 118,

        FocusTarget::ServiceDetailsJumpToProcess => 119,

        FocusTarget::StartupOpenLocation => 120,

        FocusTarget::PerformanceGraphPoints(..) => 121,

    }
}

/// The variant a focus id was built for, read off its length and a few of
/// the characters of its fixed part.
spec fn id_variant(s: Seq<char>) -> int {

    if s.len() == 16 && s[5] == 'm' {
        0

    } else if s[5] == 't' {
        1

    } else if s[5] == 'p' && s[6] == 'a' {
        2

    } else if s.len() == 19 && s[5] == 's' && s[6] == 'e' && s[7] == 'a' && s[12] == 't' {
        3

    } else if s.len() == 17 && s[5] == 's' && s[6] == 'e' && s[7] == 'a' && s[12] == 'c' {
        4

    } else if s.len() == 28 && s[5] == 'p' && s[6] == 'r' && s[13] == 'c' && s[19] == 's' && s[21] == 't' {
        5

    } else if s[5] == 'p' && s[6] == 'r' && s[13] == 'c' && s[19] == '-' && s[20] == 't' {
        6

    } else if s[5] == 'p' && s[6] == 'r' && s[13] == 'c' && s[19] == '-' && s[20] == 'n' {
        7

    } else if s[5] == 'p' && s[6] == 'r' && s[13] == 'c' && s[19] == '-' {
        8

    } else if s.len() == 26 && s[5] == 'p' && s[6] == 'r' && s[13] == 'c' {
        9

    } else if s.len() == 20 && s[5] == 's' && s[6] == 'e' && s[7] == 'r' && s[12] == 's' {
        10

    } else if s[5] == 's' && s[6] == 'o' {
        11

    } else if s.len() == 25 && s[5] == 'a' && s[6] == 'u' && s[15] == 'r' {
        12

    } else if s.len() == 27 && s[5] == 'a' && s[6] == 'u' {
        13

    } else if s.len() == 13 && s[5] == 'e' && s[6] == 'n' {
        14

    } else if s.len() == 26 && s[5] == 'o' {
        15

    } else if s.len() == 26 && s[5] == 's' && s[6] == 'e' && s[7] == 'a' {
        16

    } else if s.len() == 26 && s[5] == 'p' && s[6] == 'r' && s[13] == 'a' && s[22] == 'o' {
        17

    } else if s[5] == 'p' && s[6] == 'r' && s[13] == 'a' && s[22] == 'c' && s[23] == 'p' {
        18

    } else if s.len() == 27 && s[5] == 'p' && s[6] == 'r' && s[13] == 'a' && s[22] == 'a' {
        19

    } else if s.len() == 27 && s[5] == 'p' && s[6] == 'r' && s[13] == 'n' {
        20

    } else if s[5] == 'd' && s[6] == 'e' {
        21

    } else if s.len() == 20 && s[5] == 's' && s[6] == 'u' {
        22

    } else if s.len() == 19 && s[5] == 'r' && s[6] == 'e' {
        23

    } else if s.len() == 17 && s[5] == 'k' {
        24

    } else if s.len() == 26 && s[5] == 'p' && s[6] == 'r' && s[13] == 'm' && s[18] == 'e' && s[23] == 'a' {
        25

    } else if s.len() == 26 && s[5] == 'p' && s[6] == 'r' && s[13] == 'm' && s[18] == 'e' {
        26

    } else if s.len() == 22 && s[5] == 'p' && s[6] == 'r' && s[13] == 'm' && s[18] == 'k' {
        27

    } else if s.len() == 25 && s[5] == 'p' && s[6] == 'r' && s[13] == 'm' && s[18] == 's' && s[19] == 'u' {
        28

    } else if s.len() == 24 && s[5] == 'p' && s[6] == 'r' && s[13] == 'm' && s[18] == 'r' {
        29

    } else if s.len() == 31 && s[5] == 'p' && s[6] == 'r' && s[13] == 'm' && s[18] == 's' && s[19] == 'i' && s[25] == 'h' {
        30

    } else if s.len() == 34 && s[5] == 'p' && s[6] == 'r' && s[13] == 'm' && s[18] == 's' && s[19] == 'i' && s[25] == 'i' {
        31

    } else if s.len() == 30 && s[5] == 'p' && s[6] == 'r' && s[13] == 'm' && s[18] == 's' && s[19] == 'i' && s[29] == '1' {
        32

    } else if s.len() == 30 && s[5] == 'p' && s[6] == 'r' && s[13] == 'm' && s[18] == 's' && s[19] == 'i' {
        33

    } else if s.len() == 31 && s[5] == 'p' && s[6] == 'r' && s[13] == 'm' && s[18] == 'o' {
        34

    } else if s.len() == 31 && s[5] == 'p' && s[6] == 'r' && s[13] == 'm' && s[18] == 's' {
        35

    } else if s.len() == 28 && s[5] == 'p' && s[6] == 'r' && s[13] == 'm' && s[18] == 'p' {
        36

    } else if s.len() == 27 && s[5] == 'p' && s[6] == 'r' && s[13] == 'm' && s[19] == 'o' && s[23] == 'n' {
        37

    } else if s.len() == 26 && s[5] == 'p' && s[6] == 'r' && s[13] == 'm' && s[19] == 'o' && s[23] == 'p' {
        38

    } else if s.len() == 35 && s[5] == 'p' && s[6] == 'r' && s[13] == 'm' && s[19] == 'o' && s[23] == 'c' {
        39

    } else if s.len() == 23 && s[5] == 'p' && s[6] == 'r' && s[13] == 'm' && s[19] == 'l' {
        40

    } else if s.len() == 21 && s[5] == 'c' && s[6] == 'o' && s[8] == 'f' && s[13] == 'e' {
        41

    } else if s.len() == 26 && s[5] == 'c' && s[6] == 'o' && s[8] == 'f' && s[13] == 'p' {
        42

    } else if s.len() == 20 && s[5] == 'c' && s[6] == 'a' && s[12] == 'e' {
        43

    } else if s.len() == 23 && s[5] == 's' && s[6] == 'e' && s[7] == 's' && s[13] == 'd' {
        44

    } else if s.len() == 17 && s[5] == 's' && s[6] == 'e' && s[7] == 's' {
        45

    } else if s.len() == 29 && s[5] == 'u' && s[19] == 'd' {
        46

    } else if s.len() == 23 && s[5] == 'u' && s[19] == 'l' {
        47

    } else if s.len() == 24 && s[5] == 'u' {
        48

    } else if s.len() == 21 && s[5] == 's' && s[6] == 'e' && s[7] == 't' && s[14] == 't' {
        49

    } else if s.len() == 23 && s[5] == 'c' && s[6] == 'o' && s[8] == 't' {
        50

    } else if s.len() == 19 && s[5] == 'h' && s[6] == 'e' {
        51

    } else if s.len() == 18 && s[5] == 'a' && s[6] == 'b' && s[11] == 't' {
        52

    } else if s.len() == 11 && s[5] == 'e' {
        53

    } else if s.len() == 19 && s[5] == 'w' {
        54

    } else if s[5] == 's' && s[6] == 'e' && s[7] == 'r' && s[13] == 'a' {
        55

    } else if s[5] == 's' && s[6] == 'e' && s[7] == 'r' && s[13] == 'm' && s[18] == 'a' {
        56

    } else if s.len() == 23 && s[5] == 's' && s[6] == 'e' && s[7] == 'r' && s[13] == 'm' {
        57

    } else if s[5] == 's' && s[6] == 'e' && s[7] == 'r' && s[13] == 'l' && s[17] == 'o' {
        58

    } else if s[5] == 's' && s[6] == 'e' && s[7] == 'r' && s[13] == 'd' && s[21] == 'o' {
        59

    } else if s.len() == 28 && s[5] == 'c' && s[6] == 'o' && s[14] == 'e' {
        60

    } else if s.len() == 27 && s[5] == 'c' && s[6] == 'a' && s[13] == 'e' {
        61

    } else if s.len() == 20 && s[5] == 's' && s[6] == 't' && s[13] == 'c' {
        62

    } else if s[5] == 's' && s[6] == 't' && s[13] == 'm' && s[18] == 'a' {
        63

    } else if s.len() == 23 && s[5] == 's' && s[6] == 't' && s[13] == 'm' {
        64

    } else if s.len() == 28 && s[5] == 'c' && s[6] == 'o' && s[14] == 't' {
        65

    } else if s[5] == 's' && s[6] == 'e' && s[7] == 't' {
        66

    } else if s[5] == 'p' && s[6] == 'e' && s[10] == 't' {
        67

    } else if s[5] == 'p' && s[6] == 'r' && s[13] == 's' {
        68

    } else if s.len() == 30 && s[5] == 's' && s[6] == 'e' && s[13] == 'd' && s[21] == 'l' && s[25] == 'p' {
        69

    } else if s.len() == 30 && s[5] == 's' && s[6] == 'e' && s[13] == 'd' && s[21] == 'l' && s[25] == 'l' {
        70

    } else if s.len() == 29 && s[5] == 's' && s[6] == 'e' && s[13] == 'd' && s[21] == 'l' && s[25] == 't' {
        71

    } else if s.len() == 29 && s[5] == 's' && s[6] == 'e' && s[13] == 'd' && s[21] == 'l' && s[25] == 'c' {
        72

    } else if s.len() == 32 && s[5] == 's' && s[6] == 'e' && s[13] == 'd' && s[21] == 'l' {
        73

    } else if s.len() == 25 && s[5] == 'd' && s[7] == 'r' && s[21] == 's' {
        74

    } else if s.len() == 27 && s[5] == 'd' && s[7] == 'r' {
        75

    } else if s[5] == 'd' {
        76

    } else if s[5] == 's' && s[6] == 'm' && s[21] == 's' {
        77

    } else if s[5] == 's' && s[6] == 'm' {
        78

    } else if s.len() == 28 && s[5] == 'c' && s[6] == 'o' {
        79

    } else if s.len() == 27 && s[5] == 'c' {
        80

    } else if s.len() == 30 && s[5] == 'g' && s[15] == 's' {
        81

    } else if s.len() == 27 && s[5] == 'g' {
        82

    } else if s.len() == 23 && s[5] == 'a' && s[6] == 'b' {
        83

    } else if s.len() == 23 && s[5] == 's' && s[6] == 'e' && s[13] == 'l' && s[17] == 'f' {
        84

    } else if s.len() == 22 && s[5] == 's' && s[6] == 'e' && s[13] == 'l' && s[17] == 'p' {
        85

    } else if s.len() == 22 && s[5] == 's' && s[6] == 'e' && s[13] == 'l' && s[17] == 'l' {
        86

    } else if s.len() == 21 && s[5] == 's' && s[6] == 'e' && s[13] == 'l' && s[17] == 't' {
        87

    } else if s.len() == 21 && s[5] == 's' && s[6] == 'e' && s[13] == 'l' && s[17] == 'c' {
        88

    } else if s.len() == 23 && s[5] == 's' && s[6] == 'e' && s[13] == 'l' {
        89

    } else if s.len() == 26 && s[5] == 's' && s[6] == 'e' && s[21] == 'r' {
        90

    } else if s[5] == 's' && s[6] == 'a' && s[16] == 'p' {
        91

    } else if s.len() == 28 && s[5] == 's' && s[6] == 'a' && s[16] == 's' {
        92

    } else if s.len() == 22 && s[5] == 's' && s[6] == 'a' && s[16] == 'e' {
        93

    } else if s.len() == 22 && s[5] == 's' && s[6] == 'a' {
        94

    } else if s.len() == 26 && s[5] == 'h' && s[20] == 't' {
        95

    } else if s[5] == 'h' && s[20] == 'w' {
        96

    } else if s.len() == 27 && s[5] == 'h' {
        97

    } else if s.len() == 23 && s[5] == 'a' && s[10] == '-' && s[18] == 'c' {
        98

    } else if s.len() == 24 && s[5] == 'a' && s[10] == '-' {
        99

    } else if s.len() == 26 && s[5] == 'p' && s[6] == 'r' && s[13] == 'm' && s[23] == 't' {
        100

    } else if s.len() == 27 && s[5] == 'p' && s[6] == 'r' && s[13] == 'm' {
        101

    } else if s.len() == 18 && s[5] == 'r' && s[14] == 'o' {
        102

    } else if s.len() == 27 && s[5] == 'r' && s[14] == 'c' && s[15] == 'o' {
        103

    } else if s.len() == 20 && s[5] == 'r' && s[14] == 's' {
        104

    } else if s.len() == 20 && s[5] == 'r' {
        105

    } else if s.len() == 20 && s[5] == 'a' && s[12] == 'p' {
        106

    } else if s[5] == 'a' && s[12] == 'r' {
        107

    } else if s.len() == 18 && s[5] == 'a' && s[12] == 'e' {
        108

    } else if s.len() == 18 && s[5] == 'a' {
        109

    } else if s[5] == 'f' && s[15] == 'c' {
        110

    } else if s[5] == 'f' {
        111

    } else if s.len() == 32 && s[5] == 'p' && s[6] == 'r' && s[13] == 'a' && s[22] == 's' {
        112

    } else if s.len() == 31 && s[5] == 'p' && s[6] == 'r' && s[13] == 'a' && s[22] == 'c' {
        113

    } else if s.len() == 28 && s[5] == 'p' && s[6] == 'r' && s[13] == 'a' && s[22] == 'i' {
        114

    } else if s.len() == 29 && s[5] == 'p' && s[6] == 'r' && s[13] == 'a' && s[22] == 'p' {
        115

    } else if s.len() == 29 && s[5] == 'p' && s[6] == 'r' && s[13] == 'a' {
        116

    } else if s.len() == 28 && s[5] == 'p' && s[6] == 'r' && s[18] == 'e' {
        117

    } else if s.len() == 30 && s[5] == 'p' && s[6] == 'r' {
        118

    } else if s.len() == 36 && s[5] == 's' && s[6] == 'e' {
        119

    } else if s.len() == 26 && s[5] == 's' {
        120

    } else {
        121
    }
}

/// The focus id starts with `iced-`.
pub open spec fn has_iced_prefix(s: Seq<char>) -> bool {
    &&& s.len() >= 5
    &&& s[0] == 'i'
    &&& s[1] == 'c'
    &&& s[2] == 'e'
    &&& s[3] == 'd'
    &&& s[4] == '-'
}

/// Every focus id reads back to its target's variant and starts with `iced-`.
proof fn lemma_id_variant(target: FocusTarget)
    ensures
        id_variant(focus_id_spec(target)) == target_variant(target),
        has_iced_prefix(focus_id_spec(target)),
{
    match target {

        FocusTarget::ModalClose => reveal_strlit("iced-modal-close"),

        FocusTarget::TableRow { .. } => reveal_strlit("iced-table-row-"),

        FocusTarget::PageTab(..) => reveal_strlit("iced-page-tab-"),

        FocusTarget::SearchTrigger => reveal_strlit("iced-search-trigger"),

        FocusTarget::SearchClose => reveal_strlit("iced-search-close"),

        FocusTarget::ProcessColumnsTrigger => reveal_strlit("iced-process-columns-trigger"),

        FocusTarget::ProcessColumnToggle(..) => reveal_strlit("iced-process-column-toggle-"),

        FocusTarget::ProcessColumnNarrow(..) => reveal_strlit("iced-process-column-narrow-"),

        FocusTarget::ProcessColumnWiden(..) => reveal_strlit("iced-process-column-widen-"),

        FocusTarget::ProcessColumnsClose => reveal_strlit("iced-process-columns-close"),

        FocusTarget::ServicesSearch => reveal_strlit("iced-services-search"),

        FocusTarget::SourceRetry(..) => reveal_strlit("iced-source-retry-"),

        FocusTarget::AuthorizeRaplPower => reveal_strlit("iced-authorize-rapl-power"),

        FocusTarget::AuthorizeMsrReadouts => reveal_strlit("iced-authorize-msr-readouts"),

        FocusTarget::EndTask => reveal_strlit("iced-end-task"),

        FocusTarget::OpenProcessLocation => reveal_strlit("iced-open-process-location"),

        FocusTarget::SearchProcessOnline => reveal_strlit("iced-search-process-online"),

        FocusTarget::ProcessAffinityOpen => reveal_strlit("iced-process-affinity-open"),

        FocusTarget::ProcessAffinityCpu(..) => reveal_strlit("iced-process-affinity-cpu-"),

        FocusTarget::ProcessAffinityApply => reveal_strlit("iced-process-affinity-apply"),

        FocusTarget::ProcessNetworkEscalation => reveal_strlit("iced-process-net-escalation"),

        FocusTarget::DetailsTab(..) => reveal_strlit("iced-details-tab-"),

        FocusTarget::SuspendProcess => reveal_strlit("iced-suspend-process"),

        FocusTarget::ResumeProcess => reveal_strlit("iced-resume-process"),

        FocusTarget::KillProcess => reveal_strlit("iced-kill-process"),

        FocusTarget::ProcessMenuEndTask => reveal_strlit("iced-process-menu-end-task"),

        FocusTarget::ProcessMenuEndTree => reveal_strlit("iced-process-menu-end-tree"),

        FocusTarget::ProcessMenuKill => reveal_strlit("iced-process-menu-kill"),

        FocusTarget::ProcessMenuSuspend => reveal_strlit("iced-process-menu-suspend"),

        FocusTarget::ProcessMenuResume => reveal_strlit("iced-process-menu-resume"),

        FocusTarget::ProcessMenuSignalHangup => reveal_strlit("iced-process-menu-signal-hangup"),

        FocusTarget::ProcessMenuSignalInterrupt => reveal_strlit("iced-process-menu-signal-interrupt"),

        FocusTarget::ProcessMenuSignalUser1 => reveal_strlit("iced-process-menu-signal-user1"),

        FocusTarget::ProcessMenuSignalUser2 => reveal_strlit("iced-process-menu-signal-user2"),

        FocusTarget::ProcessMenuOpenLocation => reveal_strlit("iced-process-menu-open-location"),

        FocusTarget::ProcessMenuSearchOnline => reveal_strlit("iced-process-menu-search-online"),

        FocusTarget::ProcessMenuProperties => reveal_strlit("iced-process-menu-properties"),

        FocusTarget::ProcessMenuCopyName => reveal_strlit("iced-process-menu-copy-name"),

        FocusTarget::ProcessMenuCopyPid => reveal_strlit("iced-process-menu-copy-pid"),

        FocusTarget::ProcessMenuCopyCommandLine => reveal_strlit("iced-process-menu-copy-command-line"),

        FocusTarget::ProcessMenuClose => reveal_strlit("iced-process-menu-close"),

        FocusTarget::ConfirmEndTask => reveal_strlit("iced-confirm-end-task"),

        FocusTarget::ConfirmProcessBatch => reveal_strlit("iced-confirm-process-batch"),

        FocusTarget::CancelEndTask => reveal_strlit("iced-cancel-end-task"),

        FocusTarget::SessionDisconnect => reveal_strlit("iced-session-disconnect"),

        FocusTarget::SessionLock => reveal_strlit("iced-session-lock"),

        FocusTarget::UserRowMenuDisconnect => reveal_strlit("iced-user-row-menu-disconnect"),

        FocusTarget::UserRowMenuLock => reveal_strlit("iced-user-row-menu-lock"),

        FocusTarget::UserRowMenuClose => reveal_strlit("iced-user-row-menu-close"),

        FocusTarget::SettingsTrigger => reveal_strlit("iced-settings-trigger"),

        FocusTarget::ContainersTrigger => reveal_strlit("iced-containers-trigger"),

        FocusTarget::HealthTrigger => reveal_strlit("iced-health-trigger"),

        FocusTarget::AboutTrigger => reveal_strlit("iced-about-trigger"),

        FocusTarget::Export => reveal_strlit("iced-export"),

        FocusTarget::WindowCapture => reveal_strlit("iced-window-capture"),

        FocusTarget::ServiceAction { .. } => reveal_strlit("iced-service-action-"),

        FocusTarget::ServiceMenuAction { .. } => reveal_strlit("iced-service-menu-action-"),

        FocusTarget::ServiceMenuClose => reveal_strlit("iced-service-menu-close"),

        FocusTarget::ServiceLogOpen { .. } => reveal_strlit("iced-service-log-open-"),

        FocusTarget::ServiceDetailsOpen { .. } => reveal_strlit("iced-service-details-open-"),

        FocusTarget::ConfirmServiceControl => reveal_strlit("iced-confirm-service-control"),

        FocusTarget::CancelServiceControl => reveal_strlit("iced-cancel-service-control"),

        FocusTarget::StartupControl => reveal_strlit("iced-startup-control"),

        FocusTarget::StartupMenuAction { .. } => reveal_strlit("iced-startup-menu-action-"),

        FocusTarget::StartupMenuClose => reveal_strlit("iced-startup-menu-close"),

        FocusTarget::ConfirmStartupControl => reveal_strlit("iced-confirm-startup-control"),

        FocusTarget::SettingsChoice { .. } => reveal_strlit("iced-settings-choice-"),

        FocusTarget::PerfDeviceTab { .. } => reveal_strlit("iced-perf-tab-"),

        FocusTarget::ProcessStatusFilterTab(..) => reveal_strlit("iced-process-status-filter-"),

        FocusTarget::ServiceDetailsLogPause => reveal_strlit("iced-service-details-log-pause"),

        FocusTarget::ServiceDetailsLogLevel => reveal_strlit("iced-service-details-log-level"),

        FocusTarget::ServiceDetailsLogTime => reveal_strlit("iced-service-details-log-time"),

        FocusTarget::ServiceDetailsLogCopy => reveal_strlit("iced-service-details-log-copy"),

        FocusTarget::ServiceDetailsLogRefresh => reveal_strlit("iced-service-details-log-refresh"),

        FocusTarget::DirectoryUsageScan => reveal_strlit("iced-directory-usage-scan"),

        FocusTarget::DirectoryUsageCancel => reveal_strlit("iced-directory-usage-cancel"),

        FocusTarget::DiskSmartOpen { .. } => reveal_strlit("iced-disk-smart-open-"),

        FocusTarget::SmartSelfTestShort { .. } => reveal_strlit("iced-smart-self-test-short-"),

        FocusTarget::SmartSelfTestExtended { .. } => reveal_strlit("iced-smart-self-test-extended-"),

        FocusTarget::ConfirmSmartSelfTest => reveal_strlit("iced-confirm-smart-self-test"),

        FocusTarget::CancelSmartSelfTest => reveal_strlit("iced-cancel-smart-self-test"),

        FocusTarget::GpuEnginesExpandToggle => reveal_strlit("iced-gpu-engines-expand-toggle"),

        FocusTarget::GpuEngineRowsToggle => reveal_strlit("iced-gpu-engine-rows-toggle"),

        FocusTarget::AboutCopyDetails => reveal_strlit("iced-about-copy-details"),

        FocusTarget::ServiceLogFollow => reveal_strlit("iced-service-log-follow"),

        FocusTarget::ServiceLogPause => reveal_strlit("iced-service-log-pause"),

        FocusTarget::ServiceLogLevel => reveal_strlit("iced-service-log-level"),

        FocusTarget::ServiceLogTime => reveal_strlit("iced-service-log-time"),

        FocusTarget::ServiceLogCopy => reveal_strlit("iced-service-log-copy"),

        FocusTarget::ServiceLogExport => reveal_strlit("iced-service-log-export"),

        FocusTarget::ServiceDetailsRetry => reveal_strlit("iced-service-details-retry"),

        FocusTarget::SavedViewPreset(..) => reveal_strlit("iced-saved-view-preset-"),

        FocusTarget::SavedViewSaveCurrent => reveal_strlit("iced-saved-view-save-current"),

        FocusTarget::SavedViewExport => reveal_strlit("iced-saved-view-export"),

        FocusTarget::SavedViewImport => reveal_strlit("iced-saved-view-import"),

        FocusTarget::HistoryReplayToggle => reveal_strlit("iced-history-replay-toggle"),

        FocusTarget::HistoryReplayWindow(..) => reveal_strlit("iced-history-replay-window-"),

        FocusTarget::HistoryReplayRefresh => reveal_strlit("iced-history-replay-refresh"),

        FocusTarget::AlertCenterClear => reveal_strlit("iced-alert-center-clear"),

        FocusTarget::AlertCenterExport => reveal_strlit("iced-alert-center-export"),

        FocusTarget::ProcessMenuCopyTsv => reveal_strlit("iced-process-menu-copy-tsv"),

        FocusTarget::ProcessMenuCopyJson => reveal_strlit("iced-process-menu-copy-json"),

        FocusTarget::RunTaskOpen => reveal_strlit("iced-run-task-open"),

        FocusTarget::RunTaskCommandInput => reveal_strlit("iced-run-task-command-input"),

        FocusTarget::RunTaskSubmit => reveal_strlit("iced-run-task-submit"),

        FocusTarget::RunTaskCancel => reveal_strlit("iced-run-task-cancel"),

        FocusTarget::AlertsPageTab => reveal_strlit("iced-alerts-page-tab"),

        FocusTarget::AlertsRuleToggle(..) => reveal_strlit("iced-alerts-rule-toggle-"),

        FocusTarget::AlertsExport => reveal_strlit("iced-alerts-export"),

        FocusTarget::AlertsImport => reveal_strlit("iced-alerts-import"),

        FocusTarget::FirstRunCopy(..) => reveal_strlit("iced-first-run-copy-"),

        FocusTarget::FirstRunAction(..) => reveal_strlit("iced-first-run-action-"),

        FocusTarget::ProcessAffinitySelectAll => reveal_strlit("iced-process-affinity-select-all"),

        FocusTarget::ProcessAffinityClearAll => reveal_strlit("iced-process-affinity-clear-all"),

        FocusTarget::ProcessAffinityInvert => reveal_strlit("iced-process-affinity-invert"),

        FocusTarget::ProcessAffinityPCores => reveal_strlit("iced-process-affinity-p-cores"),

        FocusTarget::ProcessAffinityECores => reveal_strlit("iced-process-affinity-e-cores"),

        FocusTarget::ProcessTreeExpandAll => reveal_strlit("iced-process-tree-expand-all"),

        FocusTarget::ProcessTreeCollapseAll => reveal_strlit("iced-process-tree-collapse-all"),

        FocusTarget::ServiceDetailsJumpToProcess => reveal_strlit("iced-service-details-jump-to-process"),

        FocusTarget::StartupOpenLocation => reveal_strlit("iced-startup-open-location"),

        FocusTarget::PerformanceGraphPoints(..) => reveal_strlit("iced-perf-graph-points-"),

    }
}

/// The page a spelling belongs to, read off its length and first character.
spec fn page_of_key(s: Seq<char>) -> AppPage {
    if s.len() == 11 && s[0] == 'p' {
        AppPage::Performance
    } else if s.len() == 12 {
        AppPage::Applications
    } else if s.len() == 8 {
        AppPage::Services
    } else if s.len() == 6 {
        AppPage::System
    } else if s.len() == 7 {
        AppPage::Startup
    } else if s.len() == 5 {
        AppPage::Users
    } else {
        AppPage::AppHistory
    }
}

/// Distinct pages have distinct spellings.
pub proof fn lemma_page_key_injective(a: AppPage, b: AppPage)
    requires
        page_key_spec(a) == page_key_spec(b),
    ensures
        a == b,
{
    lemma_page_of_key(a);
    lemma_page_of_key(b);
}

proof fn lemma_page_of_key(page: AppPage)
    ensures
        page_of_key(page_key_spec(page)) == page,
{
    match page {
        AppPage::Performance => reveal_strlit("performance"),
        AppPage::Applications => reveal_strlit("applications"),
        AppPage::Services => reveal_strlit("services"),
        AppPage::System => reveal_strlit("system"),
        AppPage::Startup => reveal_strlit("startup"),
        AppPage::Users => reveal_strlit("users"),
        AppPage::AppHistory => reveal_strlit("app-history"),
    }
}

/// The refresh request a spelling belongs to.
spec fn refresh_of_key(s: Seq<char>) -> RefreshRequest {
    if s.len() == 7 {
        RefreshRequest::Startup
    } else if s.len() == 5 {
        RefreshRequest::Other
    } else if s[2] == 'r' {
        RefreshRequest::Services
    } else {
        RefreshRequest::Sessions
    }
}

proof fn lemma_refresh_of_key(request: RefreshRequest)
    ensures
        refresh_of_key(refresh_request_key_spec(request)) == request,
{
    match request {
        RefreshRequest::Services => reveal_strlit("services"),
        RefreshRequest::Startup => reveal_strlit("startup"),
        RefreshRequest::Sessions => reveal_strlit("sessions"),
        RefreshRequest::Other => reveal_strlit("other"),
    }
}

/// Distinct refresh requests have distinct spellings.
proof fn lemma_refresh_key_injective(a: RefreshRequest, b: RefreshRequest)
    requires
        refresh_request_key_spec(a) == refresh_request_key_spec(b),
    ensures
        a == b,
{
    lemma_refresh_of_key(a);
    lemma_refresh_of_key(b);
}

/// Two targets that name the same focus stop: the same variant with the
/// same payloads, text payloads compared by their spelling.
pub open spec fn spelled_alike(a: FocusTarget, b: FocusTarget) -> bool {
    match (a, b) {

        (FocusTarget::ProcessColumnToggle(x), FocusTarget::ProcessColumnToggle(y)) => x@ == y@,

        (FocusTarget::ProcessColumnNarrow(x), FocusTarget::ProcessColumnNarrow(y)) => x@ == y@,

        (FocusTarget::ProcessColumnWiden(x), FocusTarget::ProcessColumnWiden(y)) => x@ == y@,

        (FocusTarget::DetailsTab(x), FocusTarget::DetailsTab(y)) => x@ == y@,

        (FocusTarget::ProcessStatusFilterTab(x), FocusTarget::ProcessStatusFilterTab(y)) => x@ == y@,

        (FocusTarget::ServiceAction { index: i, action: x }, FocusTarget::ServiceAction { index: j, action: y }) => i == j && x@ == y@,

        (FocusTarget::ServiceMenuAction { index: i, action: x }, FocusTarget::ServiceMenuAction { index: j, action: y }) => i == j && x@ == y@,

        (FocusTarget::SettingsChoice { section: x, index: i }, FocusTarget::SettingsChoice { section: y, index: j }) => i == j && x@ == y@,

        (FocusTarget::PerfDeviceTab { key: x, index: i }, FocusTarget::PerfDeviceTab { key: y, index: j }) => i == j && x@ == y@,

        _ => a == b,
    }
}

proof fn lemma_alike_table_row(a: FocusTarget, b: FocusTarget)
    requires
        a is TableRow,
        b is TableRow,
        focus_id_spec(a) == focus_id_spec(b),
    ensures
        spelled_alike(a, b),
{
    reveal_strlit("-");
    assert("-"@ =~= seq!['-']);
    match a {
        FocusTarget::TableRow { page: p, index: i } => match b {
            FocusTarget::TableRow { page: q, index: j } => {
        let l = "iced-table-row-"@;
        assert(focus_id_spec(a) =~= l + (page_key_spec(p) + seq!['-'] + decimal(i as nat)));
        assert(focus_id_spec(b) =~= l + (page_key_spec(q) + seq!['-'] + decimal(j as nat)));
        lemma_prefix_cancel(l, page_key_spec(p) + seq!['-'] + decimal(i as nat), page_key_spec(q) + seq!['-'] + decimal(j as nat));
        lemma_decimal_digits(i as nat);
        lemma_decimal_digits(j as nat);
        lemma_split_before_digits(page_key_spec(p), decimal(i as nat), page_key_spec(q), decimal(j as nat));
        lemma_page_key_injective(p, q);
        lemma_decimal_injective(i as nat, j as nat);
            },
            _ => {},
        },
        _ => {},
    }
}

proof fn lemma_alike_page_tab(a: FocusTarget, b: FocusTarget)
    requires
        a is PageTab,
        b is PageTab,
        focus_id_spec(a) == focus_id_spec(b),
    ensures
        spelled_alike(a, b),
{
    reveal_strlit("-");
    assert("-"@ =~= seq!['-']);
    match a {
        FocusTarget::PageTab(p) => match b {
            FocusTarget::PageTab(q) => {
        lemma_prefix_cancel("iced-page-tab-"@, page_key_spec(p), page_key_spec(q));
        lemma_page_key_injective(p, q);
            },
            _ => {},
        },
        _ => {},
    }
}

proof fn lemma_alike_source_retry(a: FocusTarget, b: FocusTarget)
    requires
        a is SourceRetry,
        b is SourceRetry,
        focus_id_spec(a) == focus_id_spec(b),
    ensures
        spelled_alike(a, b),
{
    reveal_strlit("-");
    assert("-"@ =~= seq!['-']);
    match a {
        FocusTarget::SourceRetry(p) => match b {
            FocusTarget::SourceRetry(q) => {
        lemma_prefix_cancel("iced-source-retry-"@, refresh_request_key_spec(p), refresh_request_key_spec(q));
        lemma_refresh_key_injective(p, q);
            },
            _ => {},
        },
        _ => {},
    }
}

proof fn lemma_alike_history_replay_window(a: FocusTarget, b: FocusTarget)
    requires
        a is HistoryReplayWindow,
        b is HistoryReplayWindow,
        focus_id_spec(a) == focus_id_spec(b),
    ensures
        spelled_alike(a, b),
{
    reveal_strlit("-");
    assert("-"@ =~= seq!['-']);
    match a {
        FocusTarget::HistoryReplayWindow(p) => match b {
            FocusTarget::HistoryReplayWindow(q) => {
        lemma_prefix_cancel("iced-history-replay-window-"@, history_window_name_spec(p), history_window_name_spec(q));
        lemma_history_window_name_injective(p, q);
            },
            _ => {},
        },
        _ => {},
    }
}

proof fn lemma_alike_process_column_toggle(a: FocusTarget, b: FocusTarget)
    requires
        a is ProcessColumnToggle,
        b is ProcessColumnToggle,
        focus_id_spec(a) == focus_id_spec(b),
    ensures
        spelled_alike(a, b),
{
    reveal_strlit("-");
    assert("-"@ =~= seq!['-']);
    match a {
        FocusTarget::ProcessColumnToggle(x) => match b {
            FocusTarget::ProcessColumnToggle(y) => {
        lemma_prefix_cancel("iced-process-column-toggle-"@, x@, y@);
            },
            _ => {},
        },
        _ => {},
    }
}

proof fn lemma_alike_process_column_narrow(a: FocusTarget, b: FocusTarget)
    requires
        a is ProcessColumnNarrow,
        b is ProcessColumnNarrow,
        focus_id_spec(a) == focus_id_spec(b),
    ensures
        spelled_alike(a, b),
{
    reveal_strlit("-");
    assert("-"@ =~= seq!['-']);
    match a {
        FocusTarget::ProcessColumnNarrow(x) => match b {
            FocusTarget::ProcessColumnNarrow(y) => {
        lemma_prefix_cancel("iced-process-column-narrow-"@, x@, y@);
            },
            _ => {},
        },
        _ => {},
    }
}

proof fn lemma_alike_process_column_widen(a: FocusTarget, b: FocusTarget)
    requires
        a is ProcessColumnWiden,
        b is ProcessColumnWiden,
        focus_id_spec(a) == focus_id_spec(b),
    ensures
        spelled_alike(a, b),
{
    reveal_strlit("-");
    assert("-"@ =~= seq!['-']);
    match a {
        FocusTarget::ProcessColumnWiden(x) => match b {
            FocusTarget::ProcessColumnWiden(y) => {
        lemma_prefix_cancel("iced-process-column-widen-"@, x@, y@);
            },
            _ => {},
        },
        _ => {},
    }
}

proof fn lemma_alike_details_tab(a: FocusTarget, b: FocusTarget)
    requires
        a is DetailsTab,
        b is DetailsTab,
        focus_id_spec(a) == focus_id_spec(b),
    ensures
        spelled_alike(a, b),
{
    reveal_strlit("-");
    assert("-"@ =~= seq!['-']);
    match a {
        FocusTarget::DetailsTab(x) => match b {
            FocusTarget::DetailsTab(y) => {
        lemma_prefix_cancel("iced-details-tab-"@, x@, y@);
            },
            _ => {},
        },
        _ => {},
    }
}

proof fn lemma_alike_process_status_filter_tab(a: FocusTarget, b: FocusTarget)
    requires
        a is ProcessStatusFilterTab,
        b is ProcessStatusFilterTab,
        focus_id_spec(a) == focus_id_spec(b),
    ensures
        spelled_alike(a, b),
{
    reveal_strlit("-");
    assert("-"@ =~= seq!['-']);
    match a {
        FocusTarget::ProcessStatusFilterTab(x) => match b {
            FocusTarget::ProcessStatusFilterTab(y) => {
        lemma_prefix_cancel("iced-process-status-filter-"@, x@, y@);
            },
            _ => {},
        },
        _ => {},
    }
}

proof fn lemma_alike_process_affinity_cpu(a: FocusTarget, b: FocusTarget)
    requires
        a is ProcessAffinityCpu,
        b is ProcessAffinityCpu,
        focus_id_spec(a) == focus_id_spec(b),
    ensures
        spelled_alike(a, b),
{
    reveal_strlit("-");
    assert("-"@ =~= seq!['-']);
    match a {
        FocusTarget::ProcessAffinityCpu(i) => match b {
            FocusTarget::ProcessAffinityCpu(j) => {
        lemma_prefix_cancel("iced-process-affinity-cpu-"@, decimal(i as nat), decimal(j as nat));
        lemma_decimal_injective(i as nat, j as nat);
            },
            _ => {},
        },
        _ => {},
    }
}

proof fn lemma_alike_service_log_open(a: FocusTarget, b: FocusTarget)
    requires
        a is ServiceLogOpen,
        b is ServiceLogOpen,
        focus_id_spec(a) == focus_id_spec(b),
    ensures
        spelled_alike(a, b),
{
    reveal_strlit("-");
    assert("-"@ =~= seq!['-']);
    match a {
        FocusTarget::ServiceLogOpen { index: i } => match b {
            FocusTarget::ServiceLogOpen { index: j } => {
        lemma_prefix_cancel("iced-service-log-open-"@, decimal(i as nat), decimal(j as nat));
        lemma_decimal_injective(i as nat, j as nat);
            },
            _ => {},
        },
        _ => {},
    }
}

proof fn lemma_alike_service_details_open(a: FocusTarget, b: FocusTarget)
    requires
        a is ServiceDetailsOpen,
        b is ServiceDetailsOpen,
        focus_id_spec(a) == focus_id_spec(b),
    ensures
        spelled_alike(a, b),
{
    reveal_strlit("-");
    assert("-"@ =~= seq!['-']);
    match a {
        FocusTarget::ServiceDetailsOpen { index: i } => match b {
            FocusTarget::ServiceDetailsOpen { index: j } => {
        lemma_prefix_cancel("iced-service-details-open-"@, decimal(i as nat), decimal(j as nat));
        lemma_decimal_injective(i as nat, j as nat);
            },
            _ => {},
        },
        _ => {},
    }
}

proof fn lemma_alike_disk_smart_open(a: FocusTarget, b: FocusTarget)
    requires
        a is DiskSmartOpen,
        b is DiskSmartOpen,
        focus_id_spec(a) == focus_id_spec(b),
    ensures
        spelled_alike(a, b),
{
    reveal_strlit("-");
    assert("-"@ =~= seq!['-']);
    match a {
        FocusTarget::DiskSmartOpen { index: i } => match b {
            FocusTarget::DiskSmartOpen { index: j } => {
        lemma_prefix_cancel("iced-disk-smart-open-"@, decimal(i as nat), decimal(j as nat));
        lemma_decimal_injective(i as nat, j as nat);
            },
            _ => {},
        },
        _ => {},
    }
}

proof fn lemma_alike_smart_self_test_short(a: FocusTarget, b: FocusTarget)
    requires
        a is SmartSelfTestShort,
        b is SmartSelfTestShort,
        focus_id_spec(a) == focus_id_spec(b),
    ensures
        spelled_alike(a, b),
{
    reveal_strlit("-");
    assert("-"@ =~= seq!['-']);
    match a {
        FocusTarget::SmartSelfTestShort { index: i } => match b {
            FocusTarget::SmartSelfTestShort { index: j } => {
        lemma_prefix_cancel("iced-smart-self-test-short-"@, decimal(i as nat), decimal(j as nat));
        lemma_decimal_injective(i as nat, j as nat);
            },
            _ => {},
        },
        _ => {},
    }
}

proof fn lemma_alike_smart_self_test_extended(a: FocusTarget, b: FocusTarget)
    requires
        a is SmartSelfTestExtended,
        b is SmartSelfTestExtended,
        focus_id_spec(a) == focus_id_spec(b),
    ensures
        spelled_alike(a, b),
{
    reveal_strlit("-");
    assert("-"@ =~= seq!['-']);
    match a {
        FocusTarget::SmartSelfTestExtended { index: i } => match b {
            FocusTarget::SmartSelfTestExtended { index: j } => {
        lemma_prefix_cancel("iced-smart-self-test-extended-"@, decimal(i as nat), decimal(j as nat));
        lemma_decimal_injective(i as nat, j as nat);
            },
            _ => {},
        },
        _ => {},
    }
}

proof fn lemma_alike_saved_view_preset(a: FocusTarget, b: FocusTarget)
    requires
        a is SavedViewPreset,
        b is SavedViewPreset,
        focus_id_spec(a) == focus_id_spec(b),
    ensures
        spelled_alike(a, b),
{
    reveal_strlit("-");
    assert("-"@ =~= seq!['-']);
    match a {
        FocusTarget::SavedViewPreset(i) => match b {
            FocusTarget::SavedViewPreset(j) => {
        lemma_prefix_cancel("iced-saved-view-preset-"@, decimal(i as nat), decimal(j as nat));
        lemma_decimal_injective(i as nat, j as nat);
            },
            _ => {},
        },
        _ => {},
    }
}

proof fn lemma_alike_alerts_rule_toggle(a: FocusTarget, b: FocusTarget)
    requires
        a is AlertsRuleToggle,
        b is AlertsRuleToggle,
        focus_id_spec(a) == focus_id_spec(b),
    ensures
        spelled_alike(a, b),
{
    reveal_strlit("-");
    assert("-"@ =~= seq!['-']);
    match a {
        FocusTarget::AlertsRuleToggle(i) => match b {
            FocusTarget::AlertsRuleToggle(j) => {
        lemma_prefix_cancel("iced-alerts-rule-toggle-"@, decimal(i as nat), decimal(j as nat));
        lemma_decimal_injective(i as nat, j as nat);
            },
            _ => {},
        },
        _ => {},
    }
}

proof fn lemma_alike_first_run_copy(a: FocusTarget, b: FocusTarget)
    requires
        a is FirstRunCopy,
        b is FirstRunCopy,
        focus_id_spec(a) == focus_id_spec(b),
    ensures
        spelled_alike(a, b),
{
    reveal_strlit("-");
    assert("-"@ =~= seq!['-']);
    match a {
        FocusTarget::FirstRunCopy(i) => match b {
            FocusTarget::FirstRunCopy(j) => {
        lemma_prefix_cancel("iced-first-run-copy-"@, decimal(i as nat), decimal(j as nat));
        lemma_decimal_injective(i as nat, j as nat);
            },
            _ => {},
        },
        _ => {},
    }
}

proof fn lemma_alike_first_run_action(a: FocusTarget, b: FocusTarget)
    requires
        a is FirstRunAction,
        b is FirstRunAction,
        focus_id_spec(a) == focus_id_spec(b),
    ensures
        spelled_alike(a, b),
{
    reveal_strlit("-");
    assert("-"@ =~= seq!['-']);
    match a {
        FocusTarget::FirstRunAction(i) => match b {
            FocusTarget::FirstRunAction(j) => {
        lemma_prefix_cancel("iced-first-run-action-"@, decimal(i as nat), decimal(j as nat));
        lemma_decimal_injective(i as nat, j as nat);
            },
            _ => {},
        },
        _ => {},
    }
}

proof fn lemma_alike_performance_graph_points(a: FocusTarget, b: FocusTarget)
    requires
        a is PerformanceGraphPoints,
        b is PerformanceGraphPoints,
        focus_id_spec(a) == focus_id_spec(b),
    ensures
        spelled_alike(a, b),
{
    reveal_strlit("-");
    assert("-"@ =~= seq!['-']);
    match a {
        FocusTarget::PerformanceGraphPoints(i) => match b {
            FocusTarget::PerformanceGraphPoints(j) => {
        lemma_prefix_cancel("iced-perf-graph-points-"@, decimal(i as nat), decimal(j as nat));
        lemma_decimal_injective(i as nat, j as nat);
            },
            _ => {},
        },
        _ => {},
    }
}

proof fn lemma_alike_service_action(a: FocusTarget, b: FocusTarget)
    requires
        a is ServiceAction,
        b is ServiceAction,
        focus_id_spec(a) == focus_id_spec(b),
    ensures
        spelled_alike(a, b),
{
    reveal_strlit("-");
    assert("-"@ =~= seq!['-']);
    match a {
        FocusTarget::ServiceAction { index: i, action: x } => match b {
            FocusTarget::ServiceAction { index: j, action: y } => {
        let l = "iced-service-action-"@;
        assert(focus_id_spec(a) =~= l + (decimal(i as nat) + seq!['-'] + x@));
        assert(focus_id_spec(b) =~= l + (decimal(j as nat) + seq!['-'] + y@));
        lemma_prefix_cancel(l, decimal(i as nat) + seq!['-'] + x@, decimal(j as nat) + seq!['-'] + y@);
        lemma_decimal_digits(i as nat);
        lemma_decimal_digits(j as nat);
        lemma_split_after_digits(decimal(i as nat), x@, decimal(j as nat), y@);
        lemma_decimal_injective(i as nat, j as nat);
            },
            _ => {},
        },
        _ => {},
    }
}

proof fn lemma_alike_service_menu_action(a: FocusTarget, b: FocusTarget)
    requires
        a is ServiceMenuAction,
        b is ServiceMenuAction,
        focus_id_spec(a) == focus_id_spec(b),
    ensures
        spelled_alike(a, b),
{
    reveal_strlit("-");
    assert("-"@ =~= seq!['-']);
    match a {
        FocusTarget::ServiceMenuAction { index: i, action: x } => match b {
            FocusTarget::ServiceMenuAction { index: j, action: y } => {
        let l = "iced-service-menu-action-"@;
        assert(focus_id_spec(a) =~= l + (decimal(i as nat) + seq!['-'] + x@));
        assert(focus_id_spec(b) =~= l + (decimal(j as nat) + seq!['-'] + y@));
        lemma_prefix_cancel(l, decimal(i as nat) + seq!['-'] + x@, decimal(j as nat) + seq!['-'] + y@);
        lemma_decimal_digits(i as nat);
        lemma_decimal_digits(j as nat);
        lemma_split_after_digits(decimal(i as nat), x@, decimal(j as nat), y@);
        lemma_decimal_injective(i as nat, j as nat);
            },
            _ => {},
        },
        _ => {},
    }
}

proof fn lemma_alike_startup_menu_action(a: FocusTarget, b: FocusTarget)
    requires
        a is StartupMenuAction,
        b is StartupMenuAction,
        focus_id_spec(a) == focus_id_spec(b),
    ensures
        spelled_alike(a, b),
{
    reveal_strlit("-");
    assert("-"@ =~= seq!['-']);
    match a {
        FocusTarget::StartupMenuAction { index: i, enabled: e } => match b {
            FocusTarget::StartupMenuAction { index: j, enabled: f } => {
        let l = "iced-startup-menu-action-"@;
        let we = if e { "enable"@ } else { "disable"@ };
        let wf = if f { "enable"@ } else { "disable"@ };
        assert(focus_id_spec(a) =~= l + (decimal(i as nat) + seq!['-'] + we));
        assert(focus_id_spec(b) =~= l + (decimal(j as nat) + seq!['-'] + wf));
        lemma_prefix_cancel(l, decimal(i as nat) + seq!['-'] + we, decimal(j as nat) + seq!['-'] + wf);
        lemma_decimal_digits(i as nat);
        lemma_decimal_digits(j as nat);
        lemma_split_after_digits(decimal(i as nat), we, decimal(j as nat), wf);
        lemma_decimal_injective(i as nat, j as nat);
        reveal_strlit("enable");
        reveal_strlit("disable");
            },
            _ => {},
        },
        _ => {},
    }
}

proof fn lemma_alike_settings_choice(a: FocusTarget, b: FocusTarget)
    requires
        a is SettingsChoice,
        b is SettingsChoice,
        focus_id_spec(a) == focus_id_spec(b),
    ensures
        spelled_alike(a, b),
{
    reveal_strlit("-");
    assert("-"@ =~= seq!['-']);
    match a {
        FocusTarget::SettingsChoice { section: x, index: i } => match b {
            FocusTarget::SettingsChoice { section: y, index: j } => {
        let l = "iced-settings-choice-"@;
        assert(focus_id_spec(a) =~= l + (x@ + seq!['-'] + decimal(i as nat)));
        assert(focus_id_spec(b) =~= l + (y@ + seq!['-'] + decimal(j as nat)));
        lemma_prefix_cancel(l, x@ + seq!['-'] + decimal(i as nat), y@ + seq!['-'] + decimal(j as nat));
        lemma_decimal_digits(i as nat);
        lemma_decimal_digits(j as nat);
        lemma_split_before_digits(x@, decimal(i as nat), y@, decimal(j as nat));
        lemma_decimal_injective(i as nat, j as nat);
            },
            _ => {},
        },
        _ => {},
    }
}

proof fn lemma_alike_perf_device_tab(a: FocusTarget, b: FocusTarget)
    requires
        a is PerfDeviceTab,
        b is PerfDeviceTab,
        focus_id_spec(a) == focus_id_spec(b),
    ensures
        spelled_alike(a, b),
{
    reveal_strlit("-");
    assert("-"@ =~= seq!['-']);
    match a {
        FocusTarget::PerfDeviceTab { key: x, index: i } => match b {
            FocusTarget::PerfDeviceTab { key: y, index: j } => {
        let l = "iced-perf-tab-"@;
        assert(focus_id_spec(a) =~= l + (x@ + seq!['-'] + decimal(i as nat)));
        assert(focus_id_spec(b) =~= l + (y@ + seq!['-'] + decimal(j as nat)));
        lemma_prefix_cancel(l, x@ + seq!['-'] + decimal(i as nat), y@ + seq!['-'] + decimal(j as nat));
        lemma_decimal_digits(i as nat);
        lemma_decimal_digits(j as nat);
        lemma_split_before_digits(x@, decimal(i as nat), y@, decimal(j as nat));
        lemma_decimal_injective(i as nat, j as nat);
            },
            _ => {},
        },
        _ => {},
    }
}

/// Two targets of one variant whose ids agree name the same focus stop.
proof fn lemma_same_variant_alike(a: FocusTarget, b: FocusTarget)
    requires
        target_variant(a) == target_variant(b),
        focus_id_spec(a) == focus_id_spec(b),
    ensures
        spelled_alike(a, b),
{
    if a is TableRow && b is TableRow {
        lemma_alike_table_row(a, b);
    } else if a is PageTab && b is PageTab {
        lemma_alike_page_tab(a, b);
    } else if a is SourceRetry && b is SourceRetry {
        lemma_alike_source_retry(a, b);
    } else if a is HistoryReplayWindow && b is HistoryReplayWindow {
        lemma_alike_history_replay_window(a, b);
    } else if a is ProcessColumnToggle && b is ProcessColumnToggle {
        lemma_alike_process_column_toggle(a, b);
    } else if a is ProcessColumnNarrow && b is ProcessColumnNarrow {
        lemma_alike_process_column_narrow(a, b);
    } else if a is ProcessColumnWiden && b is ProcessColumnWiden {
        lemma_alike_process_column_widen(a, b);
    } else if a is DetailsTab && b is DetailsTab {
        lemma_alike_details_tab(a, b);
    } else if a is ProcessStatusFilterTab && b is ProcessStatusFilterTab {
        lemma_alike_process_status_filter_tab(a, b);
    } else if a is ProcessAffinityCpu && b is ProcessAffinityCpu {
        lemma_alike_process_affinity_cpu(a, b);
    } else if a is ServiceLogOpen && b is ServiceLogOpen {
        lemma_alike_service_log_open(a, b);
    } else if a is ServiceDetailsOpen && b is ServiceDetailsOpen {
        lemma_alike_service_details_open(a, b);
    } else if a is DiskSmartOpen && b is DiskSmartOpen {
        lemma_alike_disk_smart_open(a, b);
    } else if a is SmartSelfTestShort && b is SmartSelfTestShort {
        lemma_alike_smart_self_test_short(a, b);
    } else if a is SmartSelfTestExtended && b is SmartSelfTestExtended {
        lemma_alike_smart_self_test_extended(a, b);
    } else if a is SavedViewPreset && b is SavedViewPreset {
        lemma_alike_saved_view_preset(a, b);
    } else if a is AlertsRuleToggle && b is AlertsRuleToggle {
        lemma_alike_alerts_rule_toggle(a, b);
    } else if a is FirstRunCopy && b is FirstRunCopy {
        lemma_alike_first_run_copy(a, b);
    } else if a is FirstRunAction && b is FirstRunAction {
        lemma_alike_first_run_action(a, b);
    } else if a is PerformanceGraphPoints && b is PerformanceGraphPoints {
        lemma_alike_performance_graph_points(a, b);
    } else if a is ServiceAction && b is ServiceAction {
        lemma_alike_service_action(a, b);
    } else if a is ServiceMenuAction && b is ServiceMenuAction {
        lemma_alike_service_menu_action(a, b);
    } else if a is StartupMenuAction && b is StartupMenuAction {
        lemma_alike_startup_menu_action(a, b);
    } else if a is SettingsChoice && b is SettingsChoice {
        lemma_alike_settings_choice(a, b);
    } else if a is PerfDeviceTab && b is PerfDeviceTab {
        lemma_alike_perf_device_tab(a, b);
    }
}

/// Every focus id starts with `iced-`, and two targets share an id only
/// when they name the same focus stop: distinct targets whose text payloads
/// (if any) are spelled differently never collide.
pub proof fn lemma_focus_ids_distinct(a: FocusTarget, b: FocusTarget)
    requires
        !spelled_alike(a, b),
    ensures
        focus_id_spec(a) != focus_id_spec(b),
        has_iced_prefix(focus_id_spec(a)),
        has_iced_prefix(focus_id_spec(b)),
{
    lemma_id_variant(a);
    lemma_id_variant(b);
    if focus_id_spec(a) == focus_id_spec(b) {
        lemma_same_variant_alike(a, b);
    }
}

} // verus!
