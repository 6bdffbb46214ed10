//! The frontend's feature-coverage declaration: one explicit support
//! decision per registered feature.
//!
//! A feature is declared `Ported` only when this frontend renders the shared
//! projection that backs it; every other feature is a reasoned `Unsupported`
//! gap. No feature is silently absent and every absence carries a reason.

use vstd::prelude::*;

verus! {

/// A registered product feature.
#[derive(Clone, Copy, Debug, PartialEq, Eq, Structural)]
pub enum FeatureId {
    ProcessSchedulerPolicy,
    ProcessPriorityMapping,
    ProcessAffinityMask,
    ProcessTreeKill,
    MemoryBreakdownRssPss,
    MemoryPageFaults,
    MemoryTransparentHugePages,
    HandleEnumeration,
    ThreadTopologyEnumeration,
    ThreadRunqueueLatency,
    ThreadUninterruptibleSleepDiagnosis,
    ThreadWaitChannelClassification,
    ProcessNetworkThroughput,
    SocketInventory,
    SocketRttMetrics,
    ProcessLogicalPhysicalIo,
    DiskDeviceTopology,
    DiskIopsQueueLatency,
    DiskSmartHealth,
    SwapThroughputRate,
    HardwareTopologyTree,
    CpuCacheTopology,
    CpuHeterogeneousCoreClass,
    GpuAdapterEnumeration,
    NpuTelemetry,
    GpuEngineUtilization,
    GpuMemoryReadout,
    RaplPowerDraw,
    ThermalZoneSensors,
    ThermalThrottleEvents,
    CpuCStateAnalysis,
    BatteryPowerInventory,
    LinuxNamespaceAudit,
    PosixCapabilitiesAudit,
    SeccompFilterAudit,
    SandboxEnvironmentDetection,
    ProcessMasqueradingDetection,
    SystemdDependencyDag,
    ServiceLogStream,
    ServiceFailureDiagnosis,
    ServiceInventoryStatus,
    ServiceLifecycleControl,
    PsiMultiWindowTelemetry,
    MemoryThrashingHealthScore,
    PressureLoadAverageNormalized,
    MultiResolutionRingBuffer,
    MultiFormatExport,
    HandleTypeClassification,
    DeletedFileHandleWatch,
    HandleFdLimitSaturation,
    HandleReversePathSearch,
    SocketQueueBacklog,
    CpuCoreFrequency,
    ProcessGpuAttribution,
    ProcessAncestorLineage,
    MemoryVmaMap,
    MemoryLeakTrend,
    ThreadContextSwitchRates,
    ListeningPortTopology,
    NumaMemoryDistribution,
    UseBottleneckAttribution,
    UnresponsiveAppDetection,
    DbusServiceTopology,
    DbusIntrospection,
    PipeDeadlockDiagnosis,
    SharedMemorySegments,
    UdsPeerTopology,
    PmuCounterAbstraction,
    SyscallDistributionProfiling,
    SlowSyscallTrap,
    ProcessEventTrace,
    CpuFlameGraph,
    TimeTravelScrubber,
    TelemetryPercentileAggregation,
    HistoryChartImageExport,
}

/// The frontend shape a declaration speaks for.
#[derive(Clone, Copy, Debug, PartialEq, Eq, Structural)]
pub enum FrontendShape {
    Iced,
}

/// Whether and how a frontend supports a feature or component.
#[derive(Clone, Copy, Debug, PartialEq, Eq)]
pub enum CapabilitySupport {
    /// The frontend implements the reference semantics.
    Ported,
    /// The frontend trusts a toolkit-native implementation.
    Native { via: &'static str },
    /// The frontend deliberately differs, for the given reason.
    Divergent { reason: &'static str },
    /// The frontend has no surface for it, for the given reason.
    Unsupported { reason: &'static str },
}

/// The support decision of one feature: `None` when it is rendered, `Some(reason)`
/// for a reasoned gap.
pub open spec fn support_spec(feature: FeatureId) -> Option<Seq<char>> {
    match feature {
        FeatureId::ProcessSchedulerPolicy | FeatureId::ProcessPriorityMapping | FeatureId::ProcessAffinityMask | FeatureId::ProcessTreeKill | FeatureId::MemoryBreakdownRssPss | FeatureId::MemoryPageFaults | FeatureId::MemoryTransparentHugePages | FeatureId::HandleEnumeration | FeatureId::ThreadTopologyEnumeration | FeatureId::ThreadRunqueueLatency | FeatureId::ThreadUninterruptibleSleepDiagnosis | FeatureId::ThreadWaitChannelClassification | FeatureId::ProcessNetworkThroughput | FeatureId::SocketInventory | FeatureId::SocketRttMetrics | FeatureId::ProcessLogicalPhysicalIo | FeatureId::DiskDeviceTopology | FeatureId::DiskIopsQueueLatency | FeatureId::DiskSmartHealth | FeatureId::SwapThroughputRate | FeatureId::HardwareTopologyTree | FeatureId::CpuCacheTopology | FeatureId::CpuHeterogeneousCoreClass | FeatureId::GpuAdapterEnumeration | FeatureId::NpuTelemetry | FeatureId::GpuEngineUtilization | FeatureId::GpuMemoryReadout | FeatureId::RaplPowerDraw | FeatureId::ThermalZoneSensors | FeatureId::ThermalThrottleEvents | FeatureId::CpuCStateAnalysis | FeatureId::BatteryPowerInventory | FeatureId::LinuxNamespaceAudit | FeatureId::PosixCapabilitiesAudit | FeatureId::SeccompFilterAudit | FeatureId::SandboxEnvironmentDetection | FeatureId::ProcessMasqueradingDetection | FeatureId::SystemdDependencyDag | FeatureId::ServiceLogStream | FeatureId::ServiceFailureDiagnosis | FeatureId::ServiceInventoryStatus | FeatureId::ServiceLifecycleControl | FeatureId::PsiMultiWindowTelemetry | FeatureId::MemoryThrashingHealthScore | FeatureId::PressureLoadAverageNormalized | FeatureId::MultiResolutionRingBuffer | FeatureId::MultiFormatExport => None,
        FeatureId::HandleTypeClassification => Some("the Iced open-file facet renders fd and target only, with no descriptor type classifier"@),
        FeatureId::DeletedFileHandleWatch => Some("the Iced open-file facet does not surface deleted-but-held descriptors"@),
        FeatureId::HandleFdLimitSaturation => Some("the Iced open-file facet renders descriptors without the RLIMIT_NOFILE saturation context"@),
        FeatureId::HandleReversePathSearch => Some("no system-wide handle search surface is wired in Iced"@),
        FeatureId::SocketQueueBacklog => Some("the Iced connection rows render addresses and state without send/receive queue depth"@),
        FeatureId::CpuCoreFrequency => Some("the Iced CPU surface renders the package-level frequency without the per-core readout"@),
        FeatureId::ProcessGpuAttribution => Some("no per-process GPU attribution is wired in the Iced process surface"@),
        FeatureId::ProcessAncestorLineage => Some("the Iced process surface renders the row table without the ancestor lineage chain"@),
        FeatureId::MemoryVmaMap | FeatureId::MemoryLeakTrend | FeatureId::ThreadContextSwitchRates | FeatureId::ListeningPortTopology | FeatureId::NumaMemoryDistribution | FeatureId::UseBottleneckAttribution | FeatureId::UnresponsiveAppDetection | FeatureId::DbusServiceTopology | FeatureId::DbusIntrospection | FeatureId::PipeDeadlockDiagnosis | FeatureId::SharedMemorySegments | FeatureId::UdsPeerTopology | FeatureId::PmuCounterAbstraction | FeatureId::SyscallDistributionProfiling | FeatureId::SlowSyscallTrap | FeatureId::ProcessEventTrace | FeatureId::CpuFlameGraph | FeatureId::TimeTravelScrubber | FeatureId::TelemetryPercentileAggregation | FeatureId::HistoryChartImageExport => Some("no Iced surface renders this shared projection facet yet"@),
    }
}

/// The decision of a support value in the form of [`support_spec`].
pub open spec fn support_view(s: CapabilitySupport) -> Option<Seq<char>> {
    match s {
        CapabilitySupport::Ported => None,
        CapabilitySupport::Unsupported { reason } => Some(reason@),
        CapabilitySupport::Native { via } => Some(via@),
        CapabilitySupport::Divergent { reason } => Some(reason@),
    }
}

/// One explicit support decision per feature.
pub fn support(feature: FeatureId) -> (r: CapabilitySupport)
    ensures
        support_view(r) == support_spec(feature),
        r is Ported || r is Unsupported,
{
    match feature {
        FeatureId::ProcessSchedulerPolicy | FeatureId::ProcessPriorityMapping | FeatureId::ProcessAffinityMask | FeatureId::ProcessTreeKill | FeatureId::MemoryBreakdownRssPss | FeatureId::MemoryPageFaults | FeatureId::MemoryTransparentHugePages | FeatureId::HandleEnumeration | FeatureId::ThreadTopologyEnumeration | FeatureId::ThreadRunqueueLatency | FeatureId::ThreadUninterruptibleSleepDiagnosis | FeatureId::ThreadWaitChannelClassification | FeatureId::ProcessNetworkThroughput | FeatureId::SocketInventory | FeatureId::SocketRttMetrics | FeatureId::ProcessLogicalPhysicalIo | FeatureId::DiskDeviceTopology | FeatureId::DiskIopsQueueLatency | FeatureId::DiskSmartHealth | FeatureId::SwapThroughputRate | FeatureId::HardwareTopologyTree | FeatureId::CpuCacheTopology | FeatureId::CpuHeterogeneousCoreClass | FeatureId::GpuAdapterEnumeration | FeatureId::NpuTelemetry | FeatureId::GpuEngineUtilization | FeatureId::GpuMemoryReadout | FeatureId::RaplPowerDraw | FeatureId::ThermalZoneSensors | FeatureId::ThermalThrottleEvents | FeatureId::CpuCStateAnalysis | FeatureId::BatteryPowerInventory | FeatureId::LinuxNamespaceAudit | FeatureId::PosixCapabilitiesAudit | FeatureId::SeccompFilterAudit | FeatureId::SandboxEnvironmentDetection | FeatureId::ProcessMasqueradingDetection | FeatureId::SystemdDependencyDag | FeatureId::ServiceLogStream | FeatureId::ServiceFailureDiagnosis | FeatureId::ServiceInventoryStatus | FeatureId::ServiceLifecycleControl | FeatureId::PsiMultiWindowTelemetry | FeatureId::MemoryThrashingHealthScore | FeatureId::PressureLoadAverageNormalized | FeatureId::MultiResolutionRingBuffer | FeatureId::MultiFormatExport => CapabilitySupport::Ported,
        FeatureId::HandleTypeClassification => CapabilitySupport::Unsupported {
            reason: "the Iced open-file facet renders fd and target only, with no descriptor type classifier",
        },
        FeatureId::DeletedFileHandleWatch => CapabilitySupport::Unsupported {
            reason: "the Iced open-file facet does not surface deleted-but-held descriptors",
        },
        FeatureId::HandleFdLimitSaturation => CapabilitySupport::Unsupported {
            reason: "the Iced open-file facet renders descriptors without the RLIMIT_NOFILE saturation context",
        },
        FeatureId::HandleReversePathSearch => CapabilitySupport::Unsupported {
            reason: "no system-wide handle search surface is wired in Iced",
        },
        FeatureId::SocketQueueBacklog => CapabilitySupport::Unsupported {
            reason: "the Iced connection rows render addresses and state without send/receive queue depth",
        },
        FeatureId::CpuCoreFrequency => CapabilitySupport::Unsupported {
            reason: "the Iced CPU surface renders the package-level frequency without the per-core readout",
        },
        FeatureId::ProcessGpuAttribution => CapabilitySupport::Unsupported {
            reason: "no per-process GPU attribution is wired in the Iced process surface",
        },
        FeatureId::ProcessAncestorLineage => CapabilitySupport::Unsupported {
            reason: "the Iced process surface renders the row table without the ancestor lineage chain",
        },
        FeatureId::MemoryVmaMap | FeatureId::MemoryLeakTrend | FeatureId::ThreadContextSwitchRates | FeatureId::ListeningPortTopology | FeatureId::NumaMemoryDistribution | FeatureId::UseBottleneckAttribution | FeatureId::UnresponsiveAppDetection | FeatureId::DbusServiceTopology | FeatureId::DbusIntrospection | FeatureId::PipeDeadlockDiagnosis | FeatureId::SharedMemorySegments | FeatureId::UdsPeerTopology | FeatureId::PmuCounterAbstraction | FeatureId::SyscallDistributionProfiling | FeatureId::SlowSyscallTrap | FeatureId::ProcessEventTrace | FeatureId::CpuFlameGraph | FeatureId::TimeTravelScrubber | FeatureId::TelemetryPercentileAggregation | FeatureId::HistoryChartImageExport => CapabilitySupport::Unsupported {
            reason: "no Iced surface renders this shared projection facet yet",
        },
    }
}

/// Every registered feature, in declaration order.
pub open spec fn all_features() -> Seq<FeatureId> {
    seq![FeatureId::ProcessSchedulerPolicy, FeatureId::ProcessPriorityMapping, FeatureId::ProcessAffinityMask, FeatureId::ProcessTreeKill, FeatureId::MemoryBreakdownRssPss, FeatureId::MemoryPageFaults, FeatureId::MemoryTransparentHugePages, FeatureId::HandleEnumeration, FeatureId::ThreadTopologyEnumeration, FeatureId::ThreadRunqueueLatency, FeatureId::ThreadUninterruptibleSleepDiagnosis, FeatureId::ThreadWaitChannelClassification, FeatureId::ProcessNetworkThroughput, FeatureId::SocketInventory, FeatureId::SocketRttMetrics, FeatureId::ProcessLogicalPhysicalIo, FeatureId::DiskDeviceTopology, FeatureId::DiskIopsQueueLatency, FeatureId::DiskSmartHealth, FeatureId::SwapThroughputRate, FeatureId::HardwareTopologyTree, FeatureId::CpuCacheTopology, FeatureId::CpuHeterogeneousCoreClass, FeatureId::GpuAdapterEnumeration, FeatureId::NpuTelemetry, FeatureId::GpuEngineUtilization, FeatureId::GpuMemoryReadout, FeatureId::RaplPowerDraw, FeatureId::ThermalZoneSensors, FeatureId::ThermalThrottleEvents, FeatureId::CpuCStateAnalysis, FeatureId::BatteryPowerInventory, FeatureId::LinuxNamespaceAudit, FeatureId::PosixCapabilitiesAudit, FeatureId::SeccompFilterAudit, FeatureId::SandboxEnvironmentDetection, FeatureId::ProcessMasqueradingDetection, FeatureId::SystemdDependencyDag, FeatureId::ServiceLogStream, FeatureId::ServiceFailureDiagnosis, FeatureId::ServiceInventoryStatus, FeatureId::ServiceLifecycleControl, FeatureId::PsiMultiWindowTelemetry, FeatureId::MemoryThrashingHealthScore, FeatureId::PressureLoadAverageNormalized, FeatureId::MultiResolutionRingBuffer, FeatureId::MultiFormatExport, FeatureId::HandleTypeClassification, FeatureId::DeletedFileHandleWatch, FeatureId::HandleFdLimitSaturation, FeatureId::HandleReversePathSearch, FeatureId::SocketQueueBacklog, FeatureId::CpuCoreFrequency, FeatureId::ProcessGpuAttribution, FeatureId::ProcessAncestorLineage, FeatureId::MemoryVmaMap, FeatureId::MemoryLeakTrend, FeatureId::ThreadContextSwitchRates, FeatureId::ListeningPortTopology, FeatureId::NumaMemoryDistribution, FeatureId::UseBottleneckAttribution, FeatureId::UnresponsiveAppDetection, FeatureId::DbusServiceTopology, FeatureId::DbusIntrospection, FeatureId::PipeDeadlockDiagnosis, FeatureId::SharedMemorySegments, FeatureId::UdsPeerTopology, FeatureId::PmuCounterAbstraction, FeatureId::SyscallDistributionProfiling, FeatureId::SlowSyscallTrap, FeatureId::ProcessEventTrace, FeatureId::CpuFlameGraph, FeatureId::TimeTravelScrubber, FeatureId::TelemetryPercentileAggregation, FeatureId::HistoryChartImageExport]
}

/// Every registered feature, in declaration order.
pub fn all_feature_ids() -> (r: Vec<FeatureId>)
    ensures
        r@ == all_features(),
{
    let v = vec![FeatureId::ProcessSchedulerPolicy, FeatureId::ProcessPriorityMapping, FeatureId::ProcessAffinityMask, FeatureId::ProcessTreeKill, FeatureId::MemoryBreakdownRssPss, FeatureId::MemoryPageFaults, FeatureId::MemoryTransparentHugePages, FeatureId::HandleEnumeration, FeatureId::ThreadTopologyEnumeration, FeatureId::ThreadRunqueueLatency, FeatureId::ThreadUninterruptibleSleepDiagnosis, FeatureId::ThreadWaitChannelClassification, FeatureId::ProcessNetworkThroughput, FeatureId::SocketInventory, FeatureId::SocketRttMetrics, FeatureId::ProcessLogicalPhysicalIo, FeatureId::DiskDeviceTopology, FeatureId::DiskIopsQueueLatency, FeatureId::DiskSmartHealth, FeatureId::SwapThroughputRate, FeatureId::HardwareTopologyTree, FeatureId::CpuCacheTopology, FeatureId::CpuHeterogeneousCoreClass, FeatureId::GpuAdapterEnumeration, FeatureId::NpuTelemetry, FeatureId::GpuEngineUtilization, FeatureId::GpuMemoryReadout, FeatureId::RaplPowerDraw, FeatureId::ThermalZoneSensors, FeatureId::ThermalThrottleEvents, FeatureId::CpuCStateAnalysis, FeatureId::BatteryPowerInventory, FeatureId::LinuxNamespaceAudit, FeatureId::PosixCapabilitiesAudit, FeatureId::SeccompFilterAudit, FeatureId::SandboxEnvironmentDetection, FeatureId::ProcessMasqueradingDetection, FeatureId::SystemdDependencyDag, FeatureId::ServiceLogStream, FeatureId::ServiceFailureDiagnosis, FeatureId::ServiceInventoryStatus, FeatureId::ServiceLifecycleControl, FeatureId::PsiMultiWindowTelemetry, FeatureId::MemoryThrashingHealthScore, FeatureId::PressureLoadAverageNormalized, FeatureId::MultiResolutionRingBuffer, FeatureId::MultiFormatExport, FeatureId::HandleTypeClassification, FeatureId::DeletedFileHandleWatch, FeatureId::HandleFdLimitSaturation, FeatureId::HandleReversePathSearch, FeatureId::SocketQueueBacklog, FeatureId::CpuCoreFrequency, FeatureId::ProcessGpuAttribution, FeatureId::ProcessAncestorLineage, FeatureId::MemoryVmaMap, FeatureId::MemoryLeakTrend, FeatureId::ThreadContextSwitchRates, FeatureId::ListeningPortTopology, FeatureId::NumaMemoryDistribution, FeatureId::UseBottleneckAttribution, FeatureId::UnresponsiveAppDetection, FeatureId::DbusServiceTopology, FeatureId::DbusIntrospection, FeatureId::PipeDeadlockDiagnosis, FeatureId::SharedMemorySegments, FeatureId::UdsPeerTopology, FeatureId::PmuCounterAbstraction, FeatureId::SyscallDistributionProfiling, FeatureId::SlowSyscallTrap, FeatureId::ProcessEventTrace, FeatureId::CpuFlameGraph, FeatureId::TimeTravelScrubber, FeatureId::TelemetryPercentileAggregation, FeatureId::HistoryChartImageExport];
    assert(v@ =~= all_features());
    v
}

/// One row of the coverage declaration.
#[derive(Clone, Copy, Debug)]
pub struct FeatureCoverageEntry {
    pub feature: FeatureId,
    pub support: CapabilitySupport,
}

/// The frontend's complete coverage declaration.
#[derive(Clone, Debug)]
pub struct FeatureCoverageDeclaration {
    pub frontend: FrontendShape,
    pub entries: Vec<FeatureCoverageEntry>,
}

/// Declare the complete feature-coverage decision set: one entry per
/// registered feature, in registry order, each carrying its decision.
pub fn feature_coverage_declaration() -> (r: FeatureCoverageDeclaration)
    ensures
        r.frontend == FrontendShape::Iced,
        r.entries@.len() == all_features().len(),
        forall|i: int| 0 <= i < r.entries@.len() ==> (#[trigger] r.entries@[i]).feature == all_features()[i]
            && support_view(r.entries@[i].support) == support_spec(all_features()[i])
            && (r.entries@[i].support is Ported || r.entries@[i].support is Unsupported),
{
    let all = all_feature_ids();
    let mut entries: Vec<FeatureCoverageEntry> = Vec::new();
    let mut i: usize = 0;
    while i < all.len()
        invariant
            i <= all@.len(),
            all@ == all_features(),
            entries@.len() == i,
            forall|j: int| 0 <= j < i ==> (#[trigger] entries@[j]).feature == all_features()[j]
                && support_view(entries@[j].support) == support_spec(all_features()[j])
                && (entries@[j].support is Ported || entries@[j].support is Unsupported),
        decreases all@.len() - i,
    {
        let feature = all[i];
        entries.push(FeatureCoverageEntry { feature, support: support(feature) });
        i = i + 1;
    }
    FeatureCoverageDeclaration { frontend: FrontendShape::Iced, entries }
}

/// No silent omission: every feature appears in the declaration order.
pub proof fn lemma_every_feature_declared(feature: FeatureId)
    ensures
        all_features().contains(feature),
{
    match feature {
        FeatureId::ProcessSchedulerPolicy => assert(all_features()[0] == FeatureId::ProcessSchedulerPolicy),
        FeatureId::ProcessPriorityMapping => assert(all_features()[1] == FeatureId::ProcessPriorityMapping),
        FeatureId::ProcessAffinityMask => assert(all_features()[2] == FeatureId::ProcessAffinityMask),
        FeatureId::ProcessTreeKill => assert(all_features()[3] == FeatureId::ProcessTreeKill),
        FeatureId::MemoryBreakdownRssPss => assert(all_features()[4] == FeatureId::MemoryBreakdownRssPss),
        FeatureId::MemoryPageFaults => assert(all_features()[5] == FeatureId::MemoryPageFaults),
        FeatureId::MemoryTransparentHugePages => assert(all_features()[6] == FeatureId::MemoryTransparentHugePages),
        FeatureId::HandleEnumeration => assert(all_features()[7] == FeatureId::HandleEnumeration),
        FeatureId::ThreadTopologyEnumeration => assert(all_features()[8] == FeatureId::ThreadTopologyEnumeration),
        FeatureId::ThreadRunqueueLatency => assert(all_features()[9] == FeatureId::ThreadRunqueueLatency),
        FeatureId::ThreadUninterruptibleSleepDiagnosis => assert(all_features()[10] == FeatureId::ThreadUninterruptibleSleepDiagnosis),
        FeatureId::ThreadWaitChannelClassification => assert(all_features()[11] == FeatureId::ThreadWaitChannelClassification),
        FeatureId::ProcessNetworkThroughput => assert(all_features()[12] == FeatureId::ProcessNetworkThroughput),
        FeatureId::SocketInventory => assert(all_features()[13] == FeatureId::SocketInventory),
        FeatureId::SocketRttMetrics => assert(all_features()[14] == FeatureId::SocketRttMetrics),
        FeatureId::ProcessLogicalPhysicalIo => assert(all_features()[15] == FeatureId::ProcessLogicalPhysicalIo),
        FeatureId::DiskDeviceTopology => assert(all_features()[16] == FeatureId::DiskDeviceTopology),
        FeatureId::DiskIopsQueueLatency => assert(all_features()[17] == FeatureId::DiskIopsQueueLatency),
        FeatureId::DiskSmartHealth => assert(all_features()[18] == FeatureId::DiskSmartHealth),
        FeatureId::SwapThroughputRate => assert(all_features()[19] == FeatureId::SwapThroughputRate),
        FeatureId::HardwareTopologyTree => assert(all_features()[20] == FeatureId::HardwareTopologyTree),
        FeatureId::CpuCacheTopology => assert(all_features()[21] == FeatureId::CpuCacheTopology),
        FeatureId::CpuHeterogeneousCoreClass => assert(all_features()[22] == FeatureId::CpuHeterogeneousCoreClass),
        FeatureId::GpuAdapterEnumeration => assert(all_features()[23] == FeatureId::GpuAdapterEnumeration),
        FeatureId::NpuTelemetry => assert(all_features()[24] == FeatureId::NpuTelemetry),
        FeatureId::GpuEngineUtilization => assert(all_features()[25] == FeatureId::GpuEngineUtilization),
        FeatureId::GpuMemoryReadout => assert(all_features()[26] == FeatureId::GpuMemoryReadout),
        FeatureId::RaplPowerDraw => assert(all_features()[27] == FeatureId::RaplPowerDraw),
        FeatureId::ThermalZoneSensors => assert(all_features()[28] == FeatureId::ThermalZoneSensors),
        FeatureId::ThermalThrottleEvents => assert(all_features()[29] == FeatureId::ThermalThrottleEvents),
        FeatureId::CpuCStateAnalysis => assert(all_features()[30] == FeatureId::CpuCStateAnalysis),
        FeatureId::BatteryPowerInventory => assert(all_features()[31] == FeatureId::BatteryPowerInventory),
        FeatureId::LinuxNamespaceAudit => assert(all_features()[32] == FeatureId::LinuxNamespaceAudit),
        FeatureId::PosixCapabilitiesAudit => assert(all_features()[33] == FeatureId::PosixCapabilitiesAudit),
        FeatureId::SeccompFilterAudit => assert(all_features()[34] == FeatureId::SeccompFilterAudit),
        FeatureId::SandboxEnvironmentDetection => assert(all_features()[35] == FeatureId::SandboxEnvironmentDetection),
        FeatureId::ProcessMasqueradingDetection => assert(all_features()[36] == FeatureId::ProcessMasqueradingDetection),
        FeatureId::SystemdDependencyDag => assert(all_features()[37] == FeatureId::SystemdDependencyDag),
        FeatureId::ServiceLogStream => assert(all_features()[38] == FeatureId::ServiceLogStream),
        FeatureId::ServiceFailureDiagnosis => assert(all_features()[39] == FeatureId::ServiceFailureDiagnosis),
        FeatureId::ServiceInventoryStatus => assert(all_features()[40] == FeatureId::ServiceInventoryStatus),
        FeatureId::ServiceLifecycleControl => assert(all_features()[41] == FeatureId::ServiceLifecycleControl),
        FeatureId::PsiMultiWindowTelemetry => assert(all_features()[42] == FeatureId::PsiMultiWindowTelemetry),
        FeatureId::MemoryThrashingHealthScore => assert(all_features()[43] == FeatureId::MemoryThrashingHealthScore),
        FeatureId::PressureLoadAverageNormalized => assert(all_features()[44] == FeatureId::PressureLoadAverageNormalized),
        FeatureId::MultiResolutionRingBuffer => assert(all_features()[45] == FeatureId::MultiResolutionRingBuffer),
        FeatureId::MultiFormatExport => assert(all_features()[46] == FeatureId::MultiFormatExport),
        FeatureId::HandleTypeClassification => assert(all_features()[47] == FeatureId::HandleTypeClassification),
        FeatureId::DeletedFileHandleWatch => assert(all_features()[48] == FeatureId::DeletedFileHandleWatch),
        FeatureId::HandleFdLimitSaturation => assert(all_features()[49] == FeatureId::HandleFdLimitSaturation),
        FeatureId::HandleReversePathSearch => assert(all_features()[50] == FeatureId::HandleReversePathSearch),
        FeatureId::SocketQueueBacklog => assert(all_features()[51] == FeatureId::SocketQueueBacklog),
        FeatureId::CpuCoreFrequency => assert(all_features()[52] == FeatureId::CpuCoreFrequency),
        FeatureId::ProcessGpuAttribution => assert(all_features()[53] == FeatureId::ProcessGpuAttribution),
        FeatureId::ProcessAncestorLineage => assert(all_features()[54] == FeatureId::ProcessAncestorLineage),
        FeatureId::MemoryVmaMap => assert(all_features()[55] == FeatureId::MemoryVmaMap),
        FeatureId::MemoryLeakTrend => assert(all_features()[56] == FeatureId::MemoryLeakTrend),
        FeatureId::ThreadContextSwitchRates => assert(all_features()[57] == FeatureId::ThreadContextSwitchRates),
        FeatureId::ListeningPortTopology => assert(all_features()[58] == FeatureId::ListeningPortTopology),
        FeatureId::NumaMemoryDistribution => assert(all_features()[59] == FeatureId::NumaMemoryDistribution),
        FeatureId::UseBottleneckAttribution => assert(all_features()[60] == FeatureId::UseBottleneckAttribution),
        FeatureId::UnresponsiveAppDetection => assert(all_features()[61] == FeatureId::UnresponsiveAppDetection),
        FeatureId::DbusServiceTopology => assert(all_features()[62] == FeatureId::DbusServiceTopology),
        FeatureId::DbusIntrospection => assert(all_features()[63] == FeatureId::DbusIntrospection),
        FeatureId::PipeDeadlockDiagnosis => assert(all_features()[64] == FeatureId::PipeDeadlockDiagnosis),
        FeatureId::SharedMemorySegments => assert(all_features()[65] == FeatureId::SharedMemorySegments),
        FeatureId::UdsPeerTopology => assert(all_features()[66] == FeatureId::UdsPeerTopology),
        FeatureId::PmuCounterAbstraction => assert(all_features()[67] == FeatureId::PmuCounterAbstraction),
        FeatureId::SyscallDistributionProfiling => assert(all_features()[68] == FeatureId::SyscallDistributionProfiling),
        FeatureId::SlowSyscallTrap => assert(all_features()[69] == FeatureId::SlowSyscallTrap),
        FeatureId::ProcessEventTrace => assert(all_features()[70] == FeatureId::ProcessEventTrace),
        FeatureId::CpuFlameGraph => assert(all_features()[71] == FeatureId::CpuFlameGraph),
        FeatureId::TimeTravelScrubber => assert(all_features()[72] == FeatureId::TimeTravelScrubber),
        FeatureId::TelemetryPercentileAggregation => assert(all_features()[73] == FeatureId::TelemetryPercentileAggregation),
        FeatureId::HistoryChartImageExport => assert(all_features()[74] == FeatureId::HistoryChartImageExport),
    }
}

/// Every deliberate absence carries a reason: no gap has an empty reason.
pub proof fn lemma_every_gap_has_reason(feature: FeatureId)
    ensures
        support_spec(feature) matches Some(reason) ==> reason.len() > 0,
{
    reveal_strlit("the Iced open-file facet renders fd and target only, with no descriptor type classifier");
    reveal_strlit("the Iced open-file facet does not surface deleted-but-held descriptors");
    reveal_strlit("the Iced open-file facet renders descriptors without the RLIMIT_NOFILE saturation context");
    reveal_strlit("no system-wide handle search surface is wired in Iced");
    reveal_strlit("the Iced connection rows render addresses and state without send/receive queue depth");
    reveal_strlit("the Iced CPU surface renders the package-level frequency without the per-core readout");
    reveal_strlit("no per-process GPU attribution is wired in the Iced process surface");
    reveal_strlit("the Iced process surface renders the row table without the ancestor lineage chain");
    reveal_strlit("no Iced surface renders this shared projection facet yet");
}

} // verus!
