//! Health analyzers for OpenShift resources
//!
//! Each analyzer turns the snapshot of a resource into a health analysis:
//! a score, the issues found and the recommendations that go with them.
pub mod common;
pub mod machine_analyzer;
pub mod networking_analyzer;
pub mod node_analyzer;
pub mod operator_analyzer;
pub mod pod_analyzer;
pub mod storage_analyzer;
pub mod workload_analyzer;

use crate::resources::{str_eq, ResourceSnapshot, SnapshotView};
use crate::types::{new_analysis, HealthAnalysis, HealthAnalysisView};
use machine_analyzer::{machine_analysis, MachineAnalyzer};
use networking_analyzer::{networking_analysis, NetworkingAnalyzer};
use node_analyzer::{node_analysis, NodeAnalyzer};
use operator_analyzer::{operator_analysis, OperatorAnalyzer};
use pod_analyzer::{pod_analysis, PodAnalyzer};
use storage_analyzer::{storage_analysis, StorageAnalyzer};
use vstd::prelude::*;
use workload_analyzer::{workload_analysis, WorkloadAnalyzer};

verus! {

/// Trait for resource health analyzers
pub trait HealthAnalyzer {
    /// The analysis this analyzer gives of a resource.
    spec fn analysis_of(&self, resource: SnapshotView) -> HealthAnalysisView;

    /// The resource kinds this analyzer handles.
    spec fn kinds(&self) -> Seq<Seq<char>>;

    /// Analyze a resource and return health analysis
    fn analyze(&self, resource: &ResourceSnapshot) -> (r: HealthAnalysis)
        ensures
            r@ == self.analysis_of(resource@),
    ;

    /// Get the resource types this analyzer supports
    fn supported_kinds(&self) -> (r: Vec<&'static str>)
        ensures
            r@.map_values(|s: &str| s@) == self.kinds(),
    ;
}

/// One of the analyzers a registry can hold.
pub enum RegisteredAnalyzer {
    Node(NodeAnalyzer),
    Pod(PodAnalyzer),
    Operator(OperatorAnalyzer),
    Machine(MachineAnalyzer),
    Workload(WorkloadAnalyzer),
    Storage(StorageAnalyzer),
    Networking(NetworkingAnalyzer),
}

impl HealthAnalyzer for RegisteredAnalyzer {
    open spec fn analysis_of(&self, resource: SnapshotView) -> HealthAnalysisView {
        match self {
            RegisteredAnalyzer::Node(a) => a.analysis_of(resource),
            RegisteredAnalyzer::Pod(a) => a.analysis_of(resource),
            RegisteredAnalyzer::Operator(a) => a.analysis_of(resource),
            RegisteredAnalyzer::Machine(a) => a.analysis_of(resource),
            RegisteredAnalyzer::Workload(a) => a.analysis_of(resource),
            RegisteredAnalyzer::Storage(a) => a.analysis_of(resource),
            RegisteredAnalyzer::Networking(a) => a.analysis_of(resource),
        }
    }

    open spec fn kinds(&self) -> Seq<Seq<char>> {
        match self {
            RegisteredAnalyzer::Node(a) => a.kinds(),
            RegisteredAnalyzer::Pod(a) => a.kinds(),
            RegisteredAnalyzer::Operator(a) => a.kinds(),
            RegisteredAnalyzer::Machine(a) => a.kinds(),
            RegisteredAnalyzer::Workload(a) => a.kinds(),
            RegisteredAnalyzer::Storage(a) => a.kinds(),
            RegisteredAnalyzer::Networking(a) => a.kinds(),
        }
    }

    fn analyze(&self, resource: &ResourceSnapshot) -> (r: HealthAnalysis) {
        match self {
            RegisteredAnalyzer::Node(a) => a.analyze(resource),
            RegisteredAnalyzer::Pod(a) => a.analyze(resource),
            RegisteredAnalyzer::Operator(a) => a.analyze(resource),
            RegisteredAnalyzer::Machine(a) => a.analyze(resource),
            RegisteredAnalyzer::Workload(a) => a.analyze(resource),
            RegisteredAnalyzer::Storage(a) => a.analyze(resource),
            RegisteredAnalyzer::Networking(a) => a.analyze(resource),
        }
    }

    fn supported_kinds(&self) -> (r: Vec<&'static str>) {
        match self {
            RegisteredAnalyzer::Node(a) => a.supported_kinds(),
            RegisteredAnalyzer::Pod(a) => a.supported_kinds(),
            RegisteredAnalyzer::Operator(a) => a.supported_kinds(),
            RegisteredAnalyzer::Machine(a) => a.supported_kinds(),
            RegisteredAnalyzer::Workload(a) => a.supported_kinds(),
            RegisteredAnalyzer::Storage(a) => a.supported_kinds(),
            RegisteredAnalyzer::Networking(a) => a.supported_kinds(),
        }
    }
}

/// The analysis of a resource by a list of analyzers: the first analyzer
/// that supports the resource's kind decides; with none, the default
/// analysis (score 100, "No analysis performed").
pub open spec fn dispatch(analyzers: Seq<RegisteredAnalyzer>, r: SnapshotView) -> HealthAnalysisView
    decreases analyzers.len(),
{
    if analyzers.len() == 0 {
        new_analysis(100, "No analysis performed"@)
    } else if analyzers[0].kinds().contains(r.kind) {
        analyzers[0].analysis_of(r)
    } else {
        dispatch(analyzers.drop_first(), r)
    }
}

/// The analyzers of a new registry, in registration order.
pub open spec fn default_analyzers() -> Seq<RegisteredAnalyzer> {
    seq![
        RegisteredAnalyzer::Node(NodeAnalyzer),
        RegisteredAnalyzer::Pod(PodAnalyzer),
        RegisteredAnalyzer::Operator(OperatorAnalyzer),
        RegisteredAnalyzer::Machine(MachineAnalyzer),
        RegisteredAnalyzer::Workload(WorkloadAnalyzer),
        RegisteredAnalyzer::Storage(StorageAnalyzer),
        RegisteredAnalyzer::Networking(NetworkingAnalyzer),
    ]
}

/// Registry of health analyzers
pub struct AnalyzerRegistry {
    pub analyzers: Vec<RegisteredAnalyzer>,
}

fn kind_supported(kinds: &Vec<&'static str>, kind: &str) -> (r: bool)
    ensures
        r == kinds@.map_values(|s: &str| s@).contains(kind@),
{
    let ghost ks = kinds@.map_values(|s: &str| s@);
    let mut i: usize = 0;
    while i < kinds.len()
        invariant
            i <= kinds.len(),
            ks == kinds@.map_values(|s: &str| s@),
            forall|k: int| 0 <= k < i ==> ks[k] != kind@,
        decreases kinds.len() - i,
    {
        if str_eq(kinds[i], kind) {
            assert(ks[i as int] == kind@);
            return true;
        }
        i = i + 1;
    }
    false
}

impl AnalyzerRegistry {
    /// Create a new analyzer registry with default analyzers
    pub fn new() -> (r: AnalyzerRegistry)
        ensures
            r.analyzers@ == default_analyzers(),
    {
        let mut registry = AnalyzerRegistry { analyzers: Vec::new() };
        registry.register(RegisteredAnalyzer::Node(NodeAnalyzer::new()));
        registry.register(RegisteredAnalyzer::Pod(PodAnalyzer::new()));
        registry.register(RegisteredAnalyzer::Operator(OperatorAnalyzer::new()));
        registry.register(RegisteredAnalyzer::Machine(MachineAnalyzer::new()));
        registry.register(RegisteredAnalyzer::Workload(WorkloadAnalyzer::new()));
        registry.register(RegisteredAnalyzer::Storage(StorageAnalyzer::new()));
        registry.register(RegisteredAnalyzer::Networking(NetworkingAnalyzer::new()));
        assert(registry.analyzers@ =~= default_analyzers());
        registry
    }

    /// Register a new analyzer
    pub fn register(&mut self, analyzer: RegisteredAnalyzer)
        ensures
            final(self).analyzers@ == old(self).analyzers@.push(analyzer),
    {
        self.analyzers.push(analyzer);
    }

    /// Analyze a resource using the appropriate analyzer
    pub fn analyze(&self, resource: &ResourceSnapshot) -> (r: HealthAnalysis)
        ensures
            r@ == dispatch(self.analyzers@, resource@),
    {
        let mut i: usize = 0;
        assert(self.analyzers@.skip(0) =~= self.analyzers@);
        while i < self.analyzers.len()
            invariant
                i <= self.analyzers.len(),
                dispatch(self.analyzers@, resource@) == dispatch(
                    self.analyzers@.skip(i as int),
                    resource@,
                ),
            decreases self.analyzers.len() - i,
        {
            let ghost rest = self.analyzers@.skip(i as int);
            assert(rest[0] == self.analyzers@[i as int]);
            assert(rest.drop_first() =~= self.analyzers@.skip(i + 1));
            let kinds = self.analyzers[i].supported_kinds();
            if kind_supported(&kinds, resource.kind.as_str()) {
                return self.analyzers[i].analyze(resource);
            }
            i = i + 1;
        }
        HealthAnalysis::default()
    }
}

impl Default for AnalyzerRegistry {
    fn default() -> (r: AnalyzerRegistry)
        ensures
            r.analyzers@ == default_analyzers(),
    {
        AnalyzerRegistry::new()
    }
}

/// A new registry sends each kind to the analyzer made for it, and gives
/// any other kind the default analysis.
pub proof fn lemma_default_registry_routes(r: SnapshotView)
    ensures
        dispatch(default_analyzers(), r) == (if r.kind == "Node"@ {
            node_analysis(r)
        } else if r.kind == "Pod"@ {
            pod_analysis(r)
        } else if r.kind == "ClusterOperator"@ {
            operator_analysis(r)
        } else if r.kind == "Machine"@ {
            machine_analysis(r)
        } else if seq![
            "Deployment"@,
            "StatefulSet"@,
            "DaemonSet"@,
            "Job"@,
            "CronJob"@,
            "ReplicaSet"@,
        ].contains(r.kind) {
            workload_analysis(r)
        } else if seq![
            "PersistentVolumeClaim"@,
            "PersistentVolume"@,
            "StorageClass"@,
            "VolumeAttachment"@,
        ].contains(r.kind) {
            storage_analysis(r)
        } else if seq!["Route"@, "Service"@, "Endpoints"@, "IngressController"@].contains(r.kind) {
            networking_analysis(r)
        } else {
            new_analysis(100, "No analysis performed"@)
        }),
{
    let a = default_analyzers();
    reveal_with_fuel(dispatch, 8);
    assert(seq!["Node"@].contains(r.kind) <==> r.kind == "Node"@) by {
        if r.kind == "Node"@ {
            assert(seq!["Node"@][0] == r.kind);
        }
    }
    assert(seq!["Pod"@].contains(r.kind) <==> r.kind == "Pod"@) by {
        if r.kind == "Pod"@ {
            assert(seq!["Pod"@][0] == r.kind);
        }
    }
    assert(seq!["ClusterOperator"@].contains(r.kind) <==> r.kind == "ClusterOperator"@) by {
        if r.kind == "ClusterOperator"@ {
            assert(seq!["ClusterOperator"@][0] == r.kind);
        }
    }
    assert(seq!["Machine"@].contains(r.kind) <==> r.kind == "Machine"@) by {
        if r.kind == "Machine"@ {
            assert(seq!["Machine"@][0] == r.kind);
        }
    }
    assert(a.drop_first().drop_first().drop_first().drop_first().drop_first().drop_first().drop_first().len() == 0);
}

/// Whatever analyzers a registry holds, its analysis has a score of at
/// most 100.
pub proof fn lemma_dispatch_score_bounded(analyzers: Seq<RegisteredAnalyzer>, r: SnapshotView)
    ensures
        dispatch(analyzers, r).health_score <= 100,
    decreases analyzers.len(),
{
    if analyzers.len() > 0 && !analyzers[0].kinds().contains(r.kind) {
        lemma_dispatch_score_bounded(analyzers.drop_first(), r);
    }
}

} // verus!
