//! The frontend's component capability declaration and functional-intent
//! declaration.
//!
//! Every component capability carries the reference semantics, is a
//! toolkit-native piece the frontend trusts, or a registered divergence with
//! its reason. Every product intent either consumes shared state, names a
//! local surface, records an accepted difference, or is refused with a
//! reason.

use vstd::prelude::*;
use crate::feature_coverage::{CapabilitySupport, FrontendShape};

verus! {

/// A UI component capability of the reference vocabulary.
#[derive(Clone, Copy, Debug, PartialEq, Eq, Structural)]
pub enum ComponentCapability {
    ModalOverlay,
    ContextMenu,
    DropdownMenu,
    Tooltip,
    Toast,
    TextInput,
    SearchInput,
    TextSelection,
    Switch,
    Slider,
    Checkbox,
    Select,
    SegmentedControl,
    Table,
    ColumnDragResize,
    VirtualList,
    Tree,
    Scrollbar,
    FocusVisible,
}

/// One row of the capability declaration.
#[derive(Clone, Copy, Debug)]
pub struct CapabilityEntry {
    pub capability: ComponentCapability,
    pub support: CapabilitySupport,
}

/// The capabilities in declaration order.
pub open spec fn declared_capabilities() -> Seq<ComponentCapability> {
    seq![
        ComponentCapability::ModalOverlay,
        ComponentCapability::ContextMenu,
        ComponentCapability::DropdownMenu,
        ComponentCapability::Tooltip,
        ComponentCapability::Toast,
        ComponentCapability::TextInput,
        ComponentCapability::SearchInput,
        ComponentCapability::TextSelection,
        ComponentCapability::Switch,
        ComponentCapability::Slider,
        ComponentCapability::Checkbox,
        ComponentCapability::Select,
        ComponentCapability::SegmentedControl,
        ComponentCapability::Table,
        ComponentCapability::ColumnDragResize,
        ComponentCapability::VirtualList,
        ComponentCapability::Tree,
        ComponentCapability::Scrollbar,
        ComponentCapability::FocusVisible,
    ]
}

/// The decision of each capability: the reference semantics everywhere but the toast (a
/// divergence: feedback renders in the footer activity line) and the
/// scrollbar (native: the toolkit's scrollable).
pub open spec fn capability_support_spec(c: ComponentCapability) -> CapabilitySupport {
    match c {
        ComponentCapability::Toast => CapabilitySupport::Divergent {
            reason: "transient feedback renders through the shared footer activity line, not floating toasts",
        },
        ComponentCapability::Scrollbar => CapabilitySupport::Native { via: "iced scrollable" },
        _ => CapabilitySupport::Ported,
    }
}

/// The frontend's component-capability declaration.
#[derive(Clone, Debug)]
pub struct FrontendCapabilityDeclaration {
    pub frontend: FrontendShape,
    pub entries: Vec<CapabilityEntry>,
}

/// Declare the component capabilities with their drivers.
pub fn capability_declaration() -> (r: FrontendCapabilityDeclaration)
    ensures
        r.frontend == FrontendShape::Iced,
        r.entries@.len() == declared_capabilities().len(),
        forall|i: int| 0 <= i < r.entries@.len() ==> (#[trigger] r.entries@[i]).capability
            == declared_capabilities()[i] && r.entries@[i].support == capability_support_spec(
            declared_capabilities()[i],
        ),
{
    let order = vec![
        ComponentCapability::ModalOverlay,
        ComponentCapability::ContextMenu,
        ComponentCapability::DropdownMenu,
        ComponentCapability::Tooltip,
        ComponentCapability::Toast,
        ComponentCapability::TextInput,
        ComponentCapability::SearchInput,
        ComponentCapability::TextSelection,
        ComponentCapability::Switch,
        ComponentCapability::Slider,
        ComponentCapability::Checkbox,
        ComponentCapability::Select,
        ComponentCapability::SegmentedControl,
        ComponentCapability::Table,
        ComponentCapability::ColumnDragResize,
        ComponentCapability::VirtualList,
        ComponentCapability::Tree,
        ComponentCapability::Scrollbar,
        ComponentCapability::FocusVisible,
    ];
    assert(order@ =~= declared_capabilities());
    let mut entries: Vec<CapabilityEntry> = Vec::new();
    let mut i: usize = 0;
    while i < order.len()
        invariant
            i <= order@.len(),
            order@ == declared_capabilities(),
            entries@.len() == i,
            forall|j: int| 0 <= j < i ==> (#[trigger] entries@[j]).capability == declared_capabilities()[j]
                && entries@[j].support == capability_support_spec(declared_capabilities()[j]),
        decreases order@.len() - i,
    {
        let capability = order[i];
        let support = match capability {
            ComponentCapability::Toast => CapabilitySupport::Divergent {
                reason: "transient feedback renders through the shared footer activity line, not floating toasts",
            },
            ComponentCapability::Scrollbar => CapabilitySupport::Native { via: "iced scrollable" },
            _ => CapabilitySupport::Ported,
        };
        entries.push(CapabilityEntry { capability, support });
        i = i + 1;
    }
    FrontendCapabilityDeclaration { frontend: FrontendShape::Iced, entries }
}

/// A product intent of the functional matrix.
#[derive(Clone, Copy, Debug, PartialEq, Eq, Structural)]
pub enum ProductIntent {
    AlertRuleToggle,
    AlertRuleAuthoring,
    AlertRuleTransfer,
    ActiveAlerts,
    AlertEventHistory,
    ServiceDetails,
    ServiceDependencies,
    ServiceLogs,
    ServiceLogExport,
    ProcessAffinityEditor,
    SmartSelfTest,
    DiagnosticBundle,
    FirstRunSetup,
    GpuMetricInspection,
    TransientFeedback,
}

/// How the frontend surfaces one product intent.
#[derive(Clone, Copy, Debug, PartialEq, Eq)]
pub enum SurfaceDecision {
    /// Consumed from shared semantic state at this route.
    Shared { route: &'static str },
    /// A frontend-local surface at this route.
    Local { route: &'static str },
    /// A local surface that deliberately differs, for the given reason.
    AcceptedDifference { route: &'static str, reason: &'static str },
    /// Refused, for the given reason.
    Unsupported { reason: &'static str },
}

/// The surface decision of each product intent.
pub open spec fn decision_spec(intent: ProductIntent) -> SurfaceDecision {
    match intent {
        ProductIntent::AlertRuleToggle => SurfaceDecision::Local { route: "alerts.page.rule-toggle" },
        ProductIntent::AlertRuleAuthoring => SurfaceDecision::Unsupported {
            reason: "the Iced product shape exposes rule toggles only; rule add/update/remove authoring remains a GPUI reference surface",
        },
        ProductIntent::AlertRuleTransfer => SurfaceDecision::Unsupported {
            reason: "the Iced product shape does not offer alert-rule import/export; the shared rule contract remains available to future surface work",
        },
        ProductIntent::ActiveAlerts => SurfaceDecision::Shared { route: "shell.alert-active" },
        ProductIntent::AlertEventHistory => SurfaceDecision::Local { route: "alerts.overlay.event-history" },
        ProductIntent::ServiceDetails => SurfaceDecision::Local { route: "service-details.modal" },
        ProductIntent::ServiceDependencies => SurfaceDecision::Shared { route: "shell.service-dependencies" },
        ProductIntent::ServiceLogs => SurfaceDecision::Local { route: "service-details.log-lines" },
        ProductIntent::ServiceLogExport => SurfaceDecision::Local { route: "service-log.export" },
        ProductIntent::ProcessAffinityEditor => SurfaceDecision::Local { route: "processes.affinity-modal" },
        ProductIntent::SmartSelfTest => SurfaceDecision::Unsupported {
            reason: "the Iced product shape exposes SMART observation only; SMART control remains a GPUI reference surface",
        },
        ProductIntent::DiagnosticBundle => SurfaceDecision::AcceptedDifference {
            route: "about.diagnostic-report",
            reason: "Iced provides a redacted clipboard report while GPUI provides the preview/write bundle workflow",
        },
        ProductIntent::FirstRunSetup => SurfaceDecision::Local { route: "first-run.dialog" },
        ProductIntent::GpuMetricInspection => SurfaceDecision::AcceptedDifference {
            route: "performance.gpu.all-families",
            reason: "Iced renders every available GPU metric family together instead of exposing a selector",
        },
        ProductIntent::TransientFeedback => SurfaceDecision::AcceptedDifference {
            route: "footer.activity-line",
            reason: "transient feedback uses the shared footer activity line instead of a floating toast",
        },
    }
}

/// The surface decision of one product intent.
pub fn decision(intent: ProductIntent) -> (r: SurfaceDecision)
    ensures
        r == decision_spec(intent),
{
    match intent {
        ProductIntent::AlertRuleToggle => SurfaceDecision::Local { route: "alerts.page.rule-toggle" },
        ProductIntent::AlertRuleAuthoring => SurfaceDecision::Unsupported {
            reason: "the Iced product shape exposes rule toggles only; rule add/update/remove authoring remains a GPUI reference surface",
        },
        ProductIntent::AlertRuleTransfer => SurfaceDecision::Unsupported {
            reason: "the Iced product shape does not offer alert-rule import/export; the shared rule contract remains available to future surface work",
        },
        ProductIntent::ActiveAlerts => SurfaceDecision::Shared { route: "shell.alert-active" },
        ProductIntent::AlertEventHistory => SurfaceDecision::Local { route: "alerts.overlay.event-history" },
        ProductIntent::ServiceDetails => SurfaceDecision::Local { route: "service-details.modal" },
        ProductIntent::ServiceDependencies => SurfaceDecision::Shared { route: "shell.service-dependencies" },
        ProductIntent::ServiceLogs => SurfaceDecision::Local { route: "service-details.log-lines" },
        ProductIntent::ServiceLogExport => SurfaceDecision::Local { route: "service-log.export" },
        ProductIntent::ProcessAffinityEditor => SurfaceDecision::Local { route: "processes.affinity-modal" },
        ProductIntent::SmartSelfTest => SurfaceDecision::Unsupported {
            reason: "the Iced product shape exposes SMART observation only; SMART control remains a GPUI reference surface",
        },
        ProductIntent::DiagnosticBundle => SurfaceDecision::AcceptedDifference {
            route: "about.diagnostic-report",
            reason: "Iced provides a redacted clipboard report while GPUI provides the preview/write bundle workflow",
        },
        ProductIntent::FirstRunSetup => SurfaceDecision::Local { route: "first-run.dialog" },
        ProductIntent::GpuMetricInspection => SurfaceDecision::AcceptedDifference {
            route: "performance.gpu.all-families",
            reason: "Iced renders every available GPU metric family together instead of exposing a selector",
        },
        ProductIntent::TransientFeedback => SurfaceDecision::AcceptedDifference {
            route: "footer.activity-line",
            reason: "transient feedback uses the shared footer activity line instead of a floating toast",
        },
    }
}

/// Every product intent, in matrix order.
pub open spec fn all_intents() -> Seq<ProductIntent> {
    seq![
        ProductIntent::AlertRuleToggle,
        ProductIntent::AlertRuleAuthoring,
        ProductIntent::AlertRuleTransfer,
        ProductIntent::ActiveAlerts,
        ProductIntent::AlertEventHistory,
        ProductIntent::ServiceDetails,
        ProductIntent::ServiceDependencies,
        ProductIntent::ServiceLogs,
        ProductIntent::ServiceLogExport,
        ProductIntent::ProcessAffinityEditor,
        ProductIntent::SmartSelfTest,
        ProductIntent::DiagnosticBundle,
        ProductIntent::FirstRunSetup,
        ProductIntent::GpuMetricInspection,
        ProductIntent::TransientFeedback,
    ]
}

/// One row of the functional declaration.
#[derive(Clone, Copy, Debug)]
pub struct FunctionalEntry {
    pub intent: ProductIntent,
    pub decision: SurfaceDecision,
}

/// The frontend's functional-intent declaration.
#[derive(Clone, Debug)]
pub struct FrontendFunctionalDeclaration {
    pub frontend: FrontendShape,
    pub entries: Vec<FunctionalEntry>,
}

/// Declare the complete surface decision set: one entry per intent.
pub fn functional_declaration() -> (r: FrontendFunctionalDeclaration)
    ensures
        r.frontend == FrontendShape::Iced,
        r.entries@.len() == all_intents().len(),
        forall|i: int| 0 <= i < r.entries@.len() ==> (#[trigger] r.entries@[i]).intent == all_intents()[i]
            && r.entries@[i].decision == decision_spec(all_intents()[i]),
{
    let order = vec![
        ProductIntent::AlertRuleToggle,
        ProductIntent::AlertRuleAuthoring,
        ProductIntent::AlertRuleTransfer,
        ProductIntent::ActiveAlerts,
        ProductIntent::AlertEventHistory,
        ProductIntent::ServiceDetails,
        ProductIntent::ServiceDependencies,
        ProductIntent::ServiceLogs,
        ProductIntent::ServiceLogExport,
        ProductIntent::ProcessAffinityEditor,
        ProductIntent::SmartSelfTest,
        ProductIntent::DiagnosticBundle,
        ProductIntent::FirstRunSetup,
        ProductIntent::GpuMetricInspection,
        ProductIntent::TransientFeedback,
    ];
    assert(order@ =~= all_intents());
    let mut entries: Vec<FunctionalEntry> = Vec::new();
    let mut i: usize = 0;
    while i < order.len()
        invariant
            i <= order@.len(),
            order@ == all_intents(),
            entries@.len() == i,
            forall|j: int| 0 <= j < i ==> (#[trigger] entries@[j]).intent == all_intents()[j]
                && entries@[j].decision == decision_spec(all_intents()[j]),
        decreases order@.len() - i,
    {
        let intent = order[i];
        entries.push(FunctionalEntry { intent, decision: decision(intent) });
        i = i + 1;
    }
    FrontendFunctionalDeclaration { frontend: FrontendShape::Iced, entries }
}

/// Every divergence and every refusal carries a non-empty reason.
pub proof fn lemma_every_difference_has_reason(c: ComponentCapability, intent: ProductIntent)
    ensures
        capability_support_spec(c) matches CapabilitySupport::Divergent { reason } ==> reason@.len() > 0,
        decision_spec(intent) matches SurfaceDecision::Unsupported { reason } ==> reason@.len() > 0,
        decision_spec(intent) matches SurfaceDecision::AcceptedDifference { reason, .. } ==> reason@.len() > 0,
{
    reveal_strlit("transient feedback renders through the shared footer activity line, not floating toasts");
    reveal_strlit("the Iced product shape exposes rule toggles only; rule add/update/remove authoring remains a GPUI reference surface");
    reveal_strlit("the Iced product shape does not offer alert-rule import/export; the shared rule contract remains available to future surface work");
    reveal_strlit("the Iced product shape exposes SMART observation only; SMART control remains a GPUI reference surface");
    reveal_strlit("Iced provides a redacted clipboard report while GPUI provides the preview/write bundle workflow");
    reveal_strlit("Iced renders every available GPU metric family together instead of exposing a selector");
    reveal_strlit("transient feedback uses the shared footer activity line instead of a floating toast");
}

} // verus!
