//! Ecosystem-scan decision records and the crate-adoption governance gate.
//!
//! Before an S/A uplift primitive ships there must be an explicit
//! adopt-vs-build record tied to the hard constraints (unsafe policy,
//! determinism, native toolchain footprint, portability, license posture).
//! The scan checks that every candidate is covered, that every record names
//! a considered crate or says why none exists, that every rejection of full
//! adoption is grounded on the required constraint axes with a fallback
//! plan, and that no adopted crate breaks the unsafe policy or the
//! determinism ceiling.

use vstd::prelude::*;

pub mod gate;
pub mod report;
pub mod laws;
pub mod ledger;

pub use gate::{
    EcosystemScanConfig, ScanSeverity, ScanViolation, ScanViolationCode, ScanViolationView,
};
pub use ledger::{canonical_ledger, canonical_scan_report};
pub use report::{
    EcosystemScanGate, EcosystemScanJsonStatsArtifact, EcosystemScanReport, EcosystemScanSummary,
};

verus! {

/// Schema version for ecosystem-scan reports.
pub const ECOSYSTEM_SCAN_SCHEMA_VERSION: &'static str = "ecosystem-scan-v1";

// ── Candidate registry ───────────────────────────────────────────────────

/// An S/A-tier alien-uplift primitive that must carry an adoption decision.
#[derive(Debug, Clone, Copy, PartialEq, Eq, PartialOrd, Ord, Hash, Structural)]
pub enum UpliftCandidate {
    /// Contracts-as-code engine and artifact-graph IDs.
    ContractsAsCode,
    /// CEGIS sketch synthesis for unmapped translation holes.
    CegisSynthesis,
    /// E-graph saturation optimizer for generated code.
    EGraphOptimizer,
    /// Abstract-interpretation safety layer.
    AbstractInterpretation,
    /// Concolic differential explorer.
    ConcolicDifferential,
    /// Metamorphic-relation oracle library.
    MetamorphicOracle,
    /// Shadow-run dual execution harness.
    ShadowRun,
    /// Controller-composition interference guardrails.
    ControllerInterferenceGuardrails,
}

/// Number of uplift candidates.
pub const CANDIDATE_COUNT: usize = 8;

/// The candidate at position `k` of the registry order.
pub open spec fn candidate_at(k: int) -> UpliftCandidate {
    if k == 0 {
        UpliftCandidate::ContractsAsCode
    } else if k == 1 {
        UpliftCandidate::CegisSynthesis
    } else if k == 2 {
        UpliftCandidate::EGraphOptimizer
    } else if k == 3 {
        UpliftCandidate::AbstractInterpretation
    } else if k == 4 {
        UpliftCandidate::ConcolicDifferential
    } else if k == 5 {
        UpliftCandidate::MetamorphicOracle
    } else if k == 6 {
        UpliftCandidate::ShadowRun
    } else {
        UpliftCandidate::ControllerInterferenceGuardrails
    }
}

impl UpliftCandidate {
    /// Every candidate that must be covered by the scan ledger.
    pub const ALL: [UpliftCandidate; 8] = [
        UpliftCandidate::ContractsAsCode,
        UpliftCandidate::CegisSynthesis,
        UpliftCandidate::EGraphOptimizer,
        UpliftCandidate::AbstractInterpretation,
        UpliftCandidate::ConcolicDifferential,
        UpliftCandidate::MetamorphicOracle,
        UpliftCandidate::ShadowRun,
        UpliftCandidate::ControllerInterferenceGuardrails,
    ];

    /// Position of the candidate in the registry order.
    pub open spec fn index(self) -> int {
        match self {
            UpliftCandidate::ContractsAsCode => 0,
            UpliftCandidate::CegisSynthesis => 1,
            UpliftCandidate::EGraphOptimizer => 2,
            UpliftCandidate::AbstractInterpretation => 3,
            UpliftCandidate::ConcolicDifferential => 4,
            UpliftCandidate::MetamorphicOracle => 5,
            UpliftCandidate::ShadowRun => 6,
            UpliftCandidate::ControllerInterferenceGuardrails => 7,
        }
    }

    /// Every candidate, in registry order.
    pub fn all() -> (v: Vec<UpliftCandidate>)
        ensures
            v@.len() == 8,
            forall|k: int| 0 <= k < 8 ==> #[trigger] v@[k] == candidate_at(k),
    {
        let v = vec![
            UpliftCandidate::ContractsAsCode,
            UpliftCandidate::CegisSynthesis,
            UpliftCandidate::EGraphOptimizer,
            UpliftCandidate::AbstractInterpretation,
            UpliftCandidate::ConcolicDifferential,
            UpliftCandidate::MetamorphicOracle,
            UpliftCandidate::ShadowRun,
            UpliftCandidate::ControllerInterferenceGuardrails,
        ];
        v
    }

    /// Human-readable primitive name.
    pub open spec fn name_spec(self) -> Seq<char> {
        match self {
            UpliftCandidate::ContractsAsCode => "Contracts-as-Code Engine"@,
            UpliftCandidate::CegisSynthesis => "CEGIS Sketch Synthesis"@,
            UpliftCandidate::EGraphOptimizer => "E-Graph Saturation Optimizer"@,
            UpliftCandidate::AbstractInterpretation => "Abstract-Interpretation Safety Layer"@,
            UpliftCandidate::ConcolicDifferential => "Concolic Differential Explorer"@,
            UpliftCandidate::MetamorphicOracle => "Metamorphic-Relation Oracle"@,
            UpliftCandidate::ShadowRun => "Shadow-Run Dual Execution Harness"@,
            UpliftCandidate::ControllerInterferenceGuardrails => "Controller-Interference Guardrails"@,
        }
    }

    /// Human-readable primitive name.
    pub fn name(self) -> (s: &'static str)
        ensures
            s@ == self.name_spec(),
    {
        match self {
            UpliftCandidate::ContractsAsCode => "Contracts-as-Code Engine",
            UpliftCandidate::CegisSynthesis => "CEGIS Sketch Synthesis",
            UpliftCandidate::EGraphOptimizer => "E-Graph Saturation Optimizer",
            UpliftCandidate::AbstractInterpretation => "Abstract-Interpretation Safety Layer",
            UpliftCandidate::ConcolicDifferential => "Concolic Differential Explorer",
            UpliftCandidate::MetamorphicOracle => "Metamorphic-Relation Oracle",
            UpliftCandidate::ShadowRun => "Shadow-Run Dual Execution Harness",
            UpliftCandidate::ControllerInterferenceGuardrails => "Controller-Interference Guardrails",
        }
    }

    /// Stable kebab-case identifier.
    pub open spec fn id_spec(self) -> Seq<char> {
        match self {
            UpliftCandidate::ContractsAsCode => "contracts-as-code"@,
            UpliftCandidate::CegisSynthesis => "cegis-synthesis"@,
            UpliftCandidate::EGraphOptimizer => "egraph-optimizer"@,
            UpliftCandidate::AbstractInterpretation => "abstract-interpretation"@,
            UpliftCandidate::ConcolicDifferential => "concolic-differential"@,
            UpliftCandidate::MetamorphicOracle => "metamorphic-oracle"@,
            UpliftCandidate::ShadowRun => "shadow-run"@,
            UpliftCandidate::ControllerInterferenceGuardrails => "controller-interference-guardrails"@,
        }
    }

    /// Stable kebab-case identifier (the record's `candidate_id`).
    pub fn candidate_id(self) -> (s: &'static str)
        ensures
            s@ == self.id_spec(),
    {
        match self {
            UpliftCandidate::ContractsAsCode => "contracts-as-code",
            UpliftCandidate::CegisSynthesis => "cegis-synthesis",
            UpliftCandidate::EGraphOptimizer => "egraph-optimizer",
            UpliftCandidate::AbstractInterpretation => "abstract-interpretation",
            UpliftCandidate::ConcolicDifferential => "concolic-differential",
            UpliftCandidate::MetamorphicOracle => "metamorphic-oracle",
            UpliftCandidate::ShadowRun => "shadow-run",
            UpliftCandidate::ControllerInterferenceGuardrails => "controller-interference-guardrails",
        }
    }

    /// Alien-graveyard relevance tier.
    pub open spec fn tier_spec(self) -> UpliftTier {
        match self {
            UpliftCandidate::ContractsAsCode
            | UpliftCandidate::ShadowRun
            | UpliftCandidate::MetamorphicOracle
            | UpliftCandidate::AbstractInterpretation => UpliftTier::S,
            _ => UpliftTier::A,
        }
    }

    /// Alien-graveyard relevance tier.
    pub fn tier(self) -> (t: UpliftTier)
        ensures
            t == self.tier_spec(),
    {
        match self {
            UpliftCandidate::ContractsAsCode
            | UpliftCandidate::ShadowRun
            | UpliftCandidate::MetamorphicOracle
            | UpliftCandidate::AbstractInterpretation => UpliftTier::S,
            UpliftCandidate::CegisSynthesis
            | UpliftCandidate::EGraphOptimizer
            | UpliftCandidate::ConcolicDifferential
            | UpliftCandidate::ControllerInterferenceGuardrails => UpliftTier::A,
        }
    }

    /// Migration-architecture stage this primitive serves.
    pub open spec fn stage_spec(self) -> ArchitectureStage {
        match self {
            UpliftCandidate::ContractsAsCode
            | UpliftCandidate::ShadowRun
            | UpliftCandidate::ControllerInterferenceGuardrails => ArchitectureStage::CrossCutting,
            UpliftCandidate::CegisSynthesis
            | UpliftCandidate::EGraphOptimizer => ArchitectureStage::Translation,
            _ => ArchitectureStage::Certification,
        }
    }

    /// Migration-architecture stage this primitive serves.
    pub fn architecture_stage(self) -> (s: ArchitectureStage)
        ensures
            s == self.stage_spec(),
    {
        match self {
            UpliftCandidate::ContractsAsCode | UpliftCandidate::ShadowRun => {
                ArchitectureStage::CrossCutting
            },
            UpliftCandidate::CegisSynthesis | UpliftCandidate::EGraphOptimizer => {
                ArchitectureStage::Translation
            },
            UpliftCandidate::AbstractInterpretation
            | UpliftCandidate::ConcolicDifferential
            | UpliftCandidate::MetamorphicOracle => ArchitectureStage::Certification,
            UpliftCandidate::ControllerInterferenceGuardrails => ArchitectureStage::CrossCutting,
        }
    }

    /// In-tree module that implements the build/hybrid decision.
    pub open spec fn module_spec(self) -> Seq<char> {
        match self {
            UpliftCandidate::ContractsAsCode => "doctor_frankentui::semantic_contract"@,
            UpliftCandidate::CegisSynthesis => "doctor_frankentui::cegis_synthesis"@,
            UpliftCandidate::EGraphOptimizer => "doctor_frankentui::egraph_optimizer"@,
            UpliftCandidate::AbstractInterpretation => "doctor_frankentui::abstract_interpretation"@,
            UpliftCandidate::ConcolicDifferential => "doctor_frankentui::concolic_differential"@,
            UpliftCandidate::MetamorphicOracle => "doctor_frankentui::metamorphic_oracle"@,
            UpliftCandidate::ShadowRun => "doctor_frankentui::shadow_run"@,
            UpliftCandidate::ControllerInterferenceGuardrails => "doctor_frankentui::controller_composition"@,
        }
    }

    /// In-tree module that implements the build/hybrid decision.
    pub fn in_tree_module(self) -> (s: &'static str)
        ensures
            s@ == self.module_spec(),
    {
        match self {
            UpliftCandidate::ContractsAsCode => "doctor_frankentui::semantic_contract",
            UpliftCandidate::CegisSynthesis => "doctor_frankentui::cegis_synthesis",
            UpliftCandidate::EGraphOptimizer => "doctor_frankentui::egraph_optimizer",
            UpliftCandidate::AbstractInterpretation => "doctor_frankentui::abstract_interpretation",
            UpliftCandidate::ConcolicDifferential => "doctor_frankentui::concolic_differential",
            UpliftCandidate::MetamorphicOracle => "doctor_frankentui::metamorphic_oracle",
            UpliftCandidate::ShadowRun => "doctor_frankentui::shadow_run",
            UpliftCandidate::ControllerInterferenceGuardrails => "doctor_frankentui::controller_composition",
        }
    }
}

/// Alien-graveyard relevance tier (`S` highest, `A` next).
#[derive(Debug, Clone, Copy, PartialEq, Eq, PartialOrd, Ord, Hash, Structural)]
pub enum UpliftTier {
    /// S-tier: highest-leverage primitive.
    S,
    /// A-tier: high-leverage primitive.
    A,
}

impl UpliftTier {
    /// Stable lowercase tag.
    pub open spec fn tag(self) -> Seq<char> {
        match self {
            UpliftTier::S => "s"@,
            UpliftTier::A => "a"@,
        }
    }

    /// Stable lowercase tag.
    pub fn as_str(self) -> (s: &'static str)
        ensures
            s@ == self.tag(),
    {
        match self {
            UpliftTier::S => "s",
            UpliftTier::A => "a",
        }
    }
}

/// Migration-architecture stage a primitive maps onto.
#[derive(Debug, Clone, Copy, PartialEq, Eq, PartialOrd, Ord, Hash, Structural)]
pub enum ArchitectureStage {
    /// Source ingestion and static/dynamic understanding.
    Ingestion,
    /// Canonical IR and semantic normalization.
    Ir,
    /// Translation engine and code generation.
    Translation,
    /// Validation, certification, and confidence scoring.
    Certification,
    /// Cross-cutting concern (provenance, governance, supervision).
    CrossCutting,
}

impl ArchitectureStage {
    /// Stable lowercase tag.
    pub open spec fn tag(self) -> Seq<char> {
        match self {
            ArchitectureStage::Ingestion => "ingestion"@,
            ArchitectureStage::Ir => "ir"@,
            ArchitectureStage::Translation => "translation"@,
            ArchitectureStage::Certification => "certification"@,
            ArchitectureStage::CrossCutting => "cross_cutting"@,
        }
    }

    /// Stable lowercase tag.
    pub fn as_str(self) -> (s: &'static str)
        ensures
            s@ == self.tag(),
    {
        match self {
            ArchitectureStage::Ingestion => "ingestion",
            ArchitectureStage::Ir => "ir",
            ArchitectureStage::Translation => "translation",
            ArchitectureStage::Certification => "certification",
            ArchitectureStage::CrossCutting => "cross_cutting",
        }
    }
}

/// A constraint axis that a reject rationale must address.
#[derive(Debug, Clone, Copy, PartialEq, Eq, PartialOrd, Ord, Hash, Structural)]
pub enum ConstraintAxis {
    /// Performance / benchmark posture.
    Performance,
    /// Determinism and replayability.
    Determinism,
    /// Unsafe-code policy fit.
    UnsafePolicy,
    /// License / IP posture.
    License,
    /// Portability and native-toolchain footprint.
    Portability,
}

/// The axis at position `k` of the declaration order.
pub open spec fn axis_at(k: int) -> ConstraintAxis {
    if k == 0 {
        ConstraintAxis::Performance
    } else if k == 1 {
        ConstraintAxis::Determinism
    } else if k == 2 {
        ConstraintAxis::UnsafePolicy
    } else if k == 3 {
        ConstraintAxis::License
    } else {
        ConstraintAxis::Portability
    }
}

impl ConstraintAxis {
    /// Every constraint axis a scan can require.
    pub const ALL: [ConstraintAxis; 5] = [
        ConstraintAxis::Performance,
        ConstraintAxis::Determinism,
        ConstraintAxis::UnsafePolicy,
        ConstraintAxis::License,
        ConstraintAxis::Portability,
    ];

    /// Position in declaration order (the derived ordering).
    pub open spec fn rank(self) -> int {
        match self {
            ConstraintAxis::Performance => 0,
            ConstraintAxis::Determinism => 1,
            ConstraintAxis::UnsafePolicy => 2,
            ConstraintAxis::License => 3,
            ConstraintAxis::Portability => 4,
        }
    }

    /// Position in declaration order.
    pub fn rank_of(self) -> (r: u8)
        ensures
            r == self.rank(),
    {
        match self {
            ConstraintAxis::Performance => 0,
            ConstraintAxis::Determinism => 1,
            ConstraintAxis::UnsafePolicy => 2,
            ConstraintAxis::License => 3,
            ConstraintAxis::Portability => 4,
        }
    }

    /// Every axis, in declaration order.
    pub fn all() -> (v: Vec<ConstraintAxis>)
        ensures
            v@.len() == 5,
            forall|k: int| 0 <= k < 5 ==> #[trigger] v@[k] == axis_at(k),
    {
        vec![
            ConstraintAxis::Performance,
            ConstraintAxis::Determinism,
            ConstraintAxis::UnsafePolicy,
            ConstraintAxis::License,
            ConstraintAxis::Portability,
        ]
    }

    /// Stable lowercase tag.
    pub open spec fn tag(self) -> Seq<char> {
        match self {
            ConstraintAxis::Performance => "performance"@,
            ConstraintAxis::Determinism => "determinism"@,
            ConstraintAxis::UnsafePolicy => "unsafe_policy"@,
            ConstraintAxis::License => "license"@,
            ConstraintAxis::Portability => "portability"@,
        }
    }

    /// Stable lowercase tag.
    pub fn as_str(self) -> (s: &'static str)
        ensures
            s@ == self.tag(),
    {
        match self {
            ConstraintAxis::Performance => "performance",
            ConstraintAxis::Determinism => "determinism",
            ConstraintAxis::UnsafePolicy => "unsafe_policy",
            ConstraintAxis::License => "license",
            ConstraintAxis::Portability => "portability",
        }
    }
}

/// The adopt-vs-build verdict for a candidate.
#[derive(Debug, Clone, Copy, PartialEq, Eq, PartialOrd, Ord, Hash, Structural)]
pub enum AdoptionDecision {
    /// Adopt an external crate wholesale.
    Adopt,
    /// Build a bespoke in-tree implementation.
    Build,
    /// Adopt a substrate crate but build the domain logic on top.
    Hybrid,
    /// Decision deferred pending more evidence.
    Deferred,
}

impl AdoptionDecision {
    /// Stable lowercase tag.
    pub open spec fn tag(self) -> Seq<char> {
        match self {
            AdoptionDecision::Adopt => "adopt"@,
            AdoptionDecision::Build => "build"@,
            AdoptionDecision::Hybrid => "hybrid"@,
            AdoptionDecision::Deferred => "deferred"@,
        }
    }

    /// Stable lowercase tag.
    pub fn as_str(self) -> (s: &'static str)
        ensures
            s@ == self.tag(),
    {
        match self {
            AdoptionDecision::Adopt => "adopt",
            AdoptionDecision::Build => "build",
            AdoptionDecision::Hybrid => "hybrid",
            AdoptionDecision::Deferred => "deferred",
        }
    }

    /// Whether this decision rejects full external adoption.
    pub open spec fn rejects_spec(self) -> bool {
        !(self is Adopt)
    }

    /// Whether this decision rejects full external adoption and therefore
    /// requires constraint-grounded rationale plus a fallback plan.
    pub fn rejects_full_adoption(self) -> (b: bool)
        ensures
            b == self.rejects_spec(),
    {
        !matches!(self, AdoptionDecision::Adopt)
    }

    /// Whether this decision ships in-tree code (build or hybrid).
    pub open spec fn ships_spec(self) -> bool {
        self is Build || self is Hybrid
    }

    /// Whether this decision ships in-tree code (build or hybrid).
    pub fn ships_in_tree_code(self) -> (b: bool)
        ensures
            b == self.ships_spec(),
    {
        matches!(self, AdoptionDecision::Build | AdoptionDecision::Hybrid)
    }

    /// Whether this decision relies on at least one adopted crate.
    pub open spec fn relies_spec(self) -> bool {
        self is Adopt || self is Hybrid
    }

    /// Whether this decision relies on at least one adopted crate.
    pub fn relies_on_adopted_crate(self) -> (b: bool)
        ensures
            b == self.relies_spec(),
    {
        matches!(self, AdoptionDecision::Adopt | AdoptionDecision::Hybrid)
    }
}

/// Per-crate consideration verdict.
#[derive(Debug, Clone, Copy, PartialEq, Eq, PartialOrd, Ord, Hash, Structural)]
pub enum CrateVerdict {
    /// Selected for adoption (whole or as a hybrid substrate).
    Selected,
    /// Considered but rejected.
    Rejected,
    /// Still under evaluation.
    Considered,
}

impl CrateVerdict {
    /// Stable lowercase tag.
    pub open spec fn tag(self) -> Seq<char> {
        match self {
            CrateVerdict::Selected => "selected"@,
            CrateVerdict::Rejected => "rejected"@,
            CrateVerdict::Considered => "considered"@,
        }
    }

    /// Stable lowercase tag.
    pub fn as_str(self) -> (s: &'static str)
        ensures
            s@ == self.tag(),
    {
        match self {
            CrateVerdict::Selected => "selected",
            CrateVerdict::Rejected => "rejected",
            CrateVerdict::Considered => "considered",
        }
    }
}

/// Determinism risk of a candidate crate (`None` lowest, `High` highest).
#[derive(Debug, Clone, Copy, PartialEq, Eq, PartialOrd, Ord, Hash, Structural)]
pub enum DeterminismRisk {
    /// Fully deterministic given fixed inputs.
    NoRisk,
    /// Deterministic under a documented seed/config discipline.
    Low,
    /// Determinism depends on environment or hidden global state.
    Medium,
    /// Inherently non-deterministic.
    High,
}

impl DeterminismRisk {
    /// Position in the risk order (the derived ordering).
    pub open spec fn rank(self) -> int {
        match self {
            DeterminismRisk::NoRisk => 0,
            DeterminismRisk::Low => 1,
            DeterminismRisk::Medium => 2,
            DeterminismRisk::High => 3,
        }
    }

    /// Position in the risk order.
    pub fn rank_of(self) -> (r: u8)
        ensures
            r == self.rank(),
    {
        match self {
            DeterminismRisk::NoRisk => 0,
            DeterminismRisk::Low => 1,
            DeterminismRisk::Medium => 2,
            DeterminismRisk::High => 3,
        }
    }

    /// Stable lowercase tag.
    pub open spec fn tag(self) -> Seq<char> {
        match self {
            DeterminismRisk::NoRisk => "none"@,
            DeterminismRisk::Low => "low"@,
            DeterminismRisk::Medium => "medium"@,
            DeterminismRisk::High => "high"@,
        }
    }

    /// Stable lowercase tag.
    pub fn as_str(self) -> (s: &'static str)
        ensures
            s@ == self.tag(),
    {
        match self {
            DeterminismRisk::NoRisk => "none",
            DeterminismRisk::Low => "low",
            DeterminismRisk::Medium => "medium",
            DeterminismRisk::High => "high",
        }
    }
}

/// How a candidate crate fits the workspace unsafe-code policy.
#[derive(Debug, Clone, Copy, PartialEq, Eq, PartialOrd, Ord, Hash, Structural)]
pub enum UnsafePolicyFit {
    /// No `unsafe` anywhere in the dependency surface.
    Clean,
    /// `unsafe` exists but is contained behind a safe, audited boundary.
    Contained,
    /// Requires `unsafe`/FFI in a way that conflicts with the policy.
    Violates,
    /// Unsafe footprint not yet assessed.
    Unknown,
}

impl UnsafePolicyFit {
    /// Stable lowercase tag.
    pub open spec fn tag(self) -> Seq<char> {
        match self {
            UnsafePolicyFit::Clean => "clean"@,
            UnsafePolicyFit::Contained => "contained"@,
            UnsafePolicyFit::Violates => "violates"@,
            UnsafePolicyFit::Unknown => "unknown"@,
        }
    }

    /// Stable lowercase tag.
    pub fn as_str(self) -> (s: &'static str)
        ensures
            s@ == self.tag(),
    {
        match self {
            UnsafePolicyFit::Clean => "clean",
            UnsafePolicyFit::Contained => "contained",
            UnsafePolicyFit::Violates => "violates",
            UnsafePolicyFit::Unknown => "unknown",
        }
    }
}

/// License / IP posture of a candidate crate.
#[derive(Debug, Clone, Copy, PartialEq, Eq, PartialOrd, Ord, Hash, Structural)]
pub enum LicensePosture {
    /// Permissive (MIT / Apache-2.0 / BSD).
    Permissive,
    /// Weak copyleft (MPL / LGPL).
    WeakCopyleft,
    /// Strong copyleft (GPL / AGPL).
    StrongCopyleft,
    /// Proprietary / closed.
    Proprietary,
    /// Public domain / unlicensed-permissive.
    PublicDomain,
    /// License not assessed.
    Unknown,
    /// No external license applies.
    NotApplicable,
}

impl LicensePosture {
    /// Stable lowercase tag.
    pub open spec fn tag(self) -> Seq<char> {
        match self {
            LicensePosture::Permissive => "permissive"@,
            LicensePosture::WeakCopyleft => "weak_copyleft"@,
            LicensePosture::StrongCopyleft => "strong_copyleft"@,
            LicensePosture::Proprietary => "proprietary"@,
            LicensePosture::PublicDomain => "public_domain"@,
            LicensePosture::Unknown => "unknown"@,
            LicensePosture::NotApplicable => "not_applicable"@,
        }
    }

    /// Stable lowercase tag.
    pub fn as_str(self) -> (s: &'static str)
        ensures
            s@ == self.tag(),
    {
        match self {
            LicensePosture::Permissive => "permissive",
            LicensePosture::WeakCopyleft => "weak_copyleft",
            LicensePosture::StrongCopyleft => "strong_copyleft",
            LicensePosture::Proprietary => "proprietary",
            LicensePosture::PublicDomain => "public_domain",
            LicensePosture::Unknown => "unknown",
            LicensePosture::NotApplicable => "not_applicable",
        }
    }
}

/// Portability / native-toolchain footprint of a candidate crate.
#[derive(Debug, Clone, Copy, PartialEq, Eq, PartialOrd, Ord, Hash, Structural)]
pub enum PortabilityPosture {
    /// Pure Rust, builds everywhere the workspace builds.
    Portable,
    /// Mostly portable with minor platform caveats.
    MostlyPortable,
    /// Tied to a specific platform.
    PlatformSpecific,
    /// Requires a non-cargo native toolchain.
    RequiresNativeToolchain,
    /// Portability not assessed.
    Unknown,
}

impl PortabilityPosture {
    /// Stable lowercase tag.
    pub open spec fn tag(self) -> Seq<char> {
        match self {
            PortabilityPosture::Portable => "portable"@,
            PortabilityPosture::MostlyPortable => "mostly_portable"@,
            PortabilityPosture::PlatformSpecific => "platform_specific"@,
            PortabilityPosture::RequiresNativeToolchain => "requires_native_toolchain"@,
            PortabilityPosture::Unknown => "unknown"@,
        }
    }

    /// Stable lowercase tag.
    pub fn as_str(self) -> (s: &'static str)
        ensures
            s@ == self.tag(),
    {
        match self {
            PortabilityPosture::Portable => "portable",
            PortabilityPosture::MostlyPortable => "mostly_portable",
            PortabilityPosture::PlatformSpecific => "platform_specific",
            PortabilityPosture::RequiresNativeToolchain => "requires_native_toolchain",
            PortabilityPosture::Unknown => "unknown",
        }
    }
}

// ── Record components ────────────────────────────────────────────────────

/// A benchmark/cost delta observed (or projected) for a candidate crate
/// relative to the in-tree baseline.
#[derive(Debug, Clone, PartialEq)]
pub struct BenchmarkDelta {
    /// Metric name.
    pub metric: String,
    /// Human-readable summary of the delta.
    pub summary: String,
    /// IEEE-754 bit pattern of the signed percentage delta vs baseline, if
    /// quantified (positive = candidate is more expensive).
    pub delta_pct_bits: Option<u64>,
}

impl BenchmarkDelta {
    /// Build a qualitative delta with no numeric value.
    pub fn qualitative(metric: &str, summary: &str) -> (d: BenchmarkDelta)
        ensures
            d.metric@ == metric@,
            d.summary@ == summary@,
            d.delta_pct_bits is None,
    {
        BenchmarkDelta {
            metric: String::from_str(metric),
            summary: String::from_str(summary),
            delta_pct_bits: None,
        }
    }

    /// Build a quantified delta from the bit pattern of a percentage.
    pub fn quantified(metric: &str, summary: &str, delta_pct_bits: u64) -> (d: BenchmarkDelta)
        ensures
            d.metric@ == metric@,
            d.summary@ == summary@,
            d.delta_pct_bits == Some(delta_pct_bits),
    {
        BenchmarkDelta {
            metric: String::from_str(metric),
            summary: String::from_str(summary),
            delta_pct_bits: Some(delta_pct_bits),
        }
    }
}

/// A single considered Rust crate for an uplift candidate.
#[derive(Debug, Clone, PartialEq)]
pub struct CrateCandidate {
    /// Crate name as published.
    pub crate_name: String,
    /// Version or semver range considered, if any.
    pub considered_version: Option<String>,
    /// Source/evidence URL.
    pub source_url: Option<String>,
    /// Benchmark/cost deltas vs the in-tree baseline.
    pub benchmark_deltas: Vec<BenchmarkDelta>,
    /// Determinism risk assessment.
    pub determinism_risk: DeterminismRisk,
    /// Unsafe-policy fit.
    pub unsafe_policy_fit: UnsafePolicyFit,
    /// License / IP posture.
    pub license_posture: LicensePosture,
    /// Portability posture.
    pub portability: PortabilityPosture,
    /// Verdict for this specific crate.
    pub verdict: CrateVerdict,
    /// Constraint-grounded rationale for the verdict.
    pub rationale: String,
}

impl CrateCandidate {
    /// Build a crate-candidate record; an unassessed crate starts with the
    /// worst-case posture so it cannot be silently adopted.
    pub fn new(crate_name: &str, verdict: CrateVerdict) -> (c: CrateCandidate)
        ensures
            c.crate_name@ == crate_name@,
            c.considered_version is None,
            c.source_url is None,
            c.benchmark_deltas@.len() == 0,
            c.determinism_risk == DeterminismRisk::High,
            c.unsafe_policy_fit == UnsafePolicyFit::Unknown,
            c.license_posture == LicensePosture::Unknown,
            c.portability == PortabilityPosture::Unknown,
            c.verdict == verdict,
            c.rationale@.len() == 0,
    {
        CrateCandidate {
            crate_name: String::from_str(crate_name),
            considered_version: None,
            source_url: None,
            benchmark_deltas: Vec::new(),
            determinism_risk: DeterminismRisk::High,
            unsafe_policy_fit: UnsafePolicyFit::Unknown,
            license_posture: LicensePosture::Unknown,
            portability: PortabilityPosture::Unknown,
            verdict,
            rationale: String::new(),
        }
    }

    /// Set the considered version.
    pub fn version(self, version: &str) -> (c: CrateCandidate)
        ensures
            c == (CrateCandidate { considered_version: c.considered_version, ..self }),
            c.considered_version matches Some(v) && v@ == version@,
    {
        let mut c = self;
        c.considered_version = Some(String::from_str(version));
        c
    }

    /// Set the source/evidence URL.
    pub fn source(self, url: &str) -> (c: CrateCandidate)
        ensures
            c == (CrateCandidate { source_url: c.source_url, ..self }),
            c.source_url matches Some(v) && v@ == url@,
    {
        let mut c = self;
        c.source_url = Some(String::from_str(url));
        c
    }

    /// Push a benchmark delta.
    pub fn with_benchmark(self, delta: BenchmarkDelta) -> (c: CrateCandidate)
        ensures
            c == (CrateCandidate { benchmark_deltas: c.benchmark_deltas, ..self }),
            c.benchmark_deltas@ == self.benchmark_deltas@.push(delta),
    {
        let mut c = self;
        c.benchmark_deltas.push(delta);
        c
    }

    /// Set the determinism / unsafe / license / portability posture.
    pub fn posture(
        self,
        determinism_risk: DeterminismRisk,
        unsafe_policy_fit: UnsafePolicyFit,
        license_posture: LicensePosture,
        portability: PortabilityPosture,
    ) -> (c: CrateCandidate)
        ensures
            c == (CrateCandidate {
                determinism_risk,
                unsafe_policy_fit,
                license_posture,
                portability,
                ..self
            }),
    {
        let mut c = self;
        c.determinism_risk = determinism_risk;
        c.unsafe_policy_fit = unsafe_policy_fit;
        c.license_posture = license_posture;
        c.portability = portability;
        c
    }

    /// Set the verdict rationale.
    pub fn rationale(self, rationale: &str) -> (c: CrateCandidate)
        ensures
            c == (CrateCandidate { rationale: c.rationale, ..self }),
            c.rationale@ == rationale@,
    {
        let mut c = self;
        c.rationale = String::from_str(rationale);
        c
    }
}

/// Constraint-grounded rationale for rejecting full adoption.
#[derive(Debug, Clone, PartialEq, Eq)]
pub struct ConstraintRationale {
    /// The constraint axis addressed.
    pub axis: ConstraintAxis,
    /// The rationale tied to that axis.
    pub rationale: String,
}

impl ConstraintRationale {
    /// Build a constraint rationale.
    pub fn new(axis: ConstraintAxis, rationale: &str) -> (r: ConstraintRationale)
        ensures
            r.axis == axis,
            r.rationale@ == rationale@,
    {
        ConstraintRationale { axis, rationale: String::from_str(rationale) }
    }
}

// ── Scan record ──────────────────────────────────────────────────────────

/// One adopt-vs-build decision record for an uplift candidate.
#[derive(Debug, Clone, PartialEq)]
pub struct EcosystemScanRecord {
    /// The candidate this record covers.
    pub candidate: UpliftCandidate,
    /// Stable candidate identifier (must equal `candidate.candidate_id()`).
    pub candidate_id: String,
    /// Relevance tier.
    pub tier: UpliftTier,
    /// Migration-architecture stage served.
    pub architecture_stage: ArchitectureStage,
    /// The adopt-vs-build decision.
    pub decision: AdoptionDecision,
    /// Human summary of the decision.
    pub decision_summary: String,
    /// Considered Rust crates (may be empty iff `none_found_statement` is set).
    pub considered_crates: Vec<CrateCandidate>,
    /// Explicit statement when no suitable crate exists.
    pub none_found_statement: Option<String>,
    /// Crates actually adopted.
    pub adopted_crates: Vec<String>,
    /// Constraint-grounded rationale for rejecting full adoption.
    pub reject_rationale: Vec<ConstraintRationale>,
    /// Conservative fallback plan when adoption is rejected.
    pub fallback_plan: Option<String>,
    /// In-tree module implementing the build/hybrid decision.
    pub in_tree_module: Option<String>,
}

impl EcosystemScanRecord {
    /// Start a record for a candidate, deriving identity, tier, stage and
    /// module from the candidate itself.
    pub fn new(candidate: UpliftCandidate, decision: AdoptionDecision) -> (r: EcosystemScanRecord)
        ensures
            r.candidate == candidate,
            r.candidate_id@ == candidate.id_spec(),
            r.tier == candidate.tier_spec(),
            r.architecture_stage == candidate.stage_spec(),
            r.decision == decision,
            r.decision_summary@.len() == 0,
            r.considered_crates@.len() == 0,
            r.none_found_statement is None,
            r.adopted_crates@.len() == 0,
            r.reject_rationale@.len() == 0,
            r.fallback_plan is None,
            decision.ships_spec() ==> (r.in_tree_module matches Some(m) && m@
                == candidate.module_spec()),
            !decision.ships_spec() ==> r.in_tree_module is None,
    {
        let in_tree_module = if decision.ships_in_tree_code() {
            Some(String::from_str(candidate.in_tree_module()))
        } else {
            None
        };
        EcosystemScanRecord {
            candidate,
            candidate_id: String::from_str(candidate.candidate_id()),
            tier: candidate.tier(),
            architecture_stage: candidate.architecture_stage(),
            decision,
            decision_summary: String::new(),
            considered_crates: Vec::new(),
            none_found_statement: None,
            adopted_crates: Vec::new(),
            reject_rationale: Vec::new(),
            fallback_plan: None,
            in_tree_module,
        }
    }

    /// Set the decision summary.
    pub fn summary(self, summary: &str) -> (r: EcosystemScanRecord)
        ensures
            r == (EcosystemScanRecord { decision_summary: r.decision_summary, ..self }),
            r.decision_summary@ == summary@,
    {
        let mut r = self;
        r.decision_summary = String::from_str(summary);
        r
    }

    /// Push a considered crate.
    pub fn with_crate(self, candidate: CrateCandidate) -> (r: EcosystemScanRecord)
        ensures
            r == (EcosystemScanRecord { considered_crates: r.considered_crates, ..self }),
            r.considered_crates@ == self.considered_crates@.push(candidate),
    {
        let mut r = self;
        r.considered_crates.push(candidate);
        r
    }

    /// Record an explicit none-found statement.
    pub fn none_found(self, statement: &str) -> (r: EcosystemScanRecord)
        ensures
            r == (EcosystemScanRecord { none_found_statement: r.none_found_statement, ..self }),
            r.none_found_statement matches Some(s) && s@ == statement@,
    {
        let mut r = self;
        r.none_found_statement = Some(String::from_str(statement));
        r
    }

    /// Mark a crate as adopted.
    pub fn adopt_crate(self, name: &str) -> (r: EcosystemScanRecord)
        ensures
            r == (EcosystemScanRecord { adopted_crates: r.adopted_crates, ..self }),
            r.adopted_crates@.len() == self.adopted_crates@.len() + 1,
            r.adopted_crates@.drop_last() == self.adopted_crates@,
            r.adopted_crates@.last()@ == name@,
    {
        let mut r = self;
        r.adopted_crates.push(String::from_str(name));
        proof {
            assert(r.adopted_crates@.drop_last() =~= self.adopted_crates@);
        }
        r
    }

    /// Push a constraint-grounded reject rationale.
    pub fn with_reject_rationale(self, rationale: ConstraintRationale) -> (r: EcosystemScanRecord)
        ensures
            r == (EcosystemScanRecord { reject_rationale: r.reject_rationale, ..self }),
            r.reject_rationale@ == self.reject_rationale@.push(rationale),
    {
        let mut r = self;
        r.reject_rationale.push(rationale);
        r
    }

    /// Set the conservative fallback plan.
    pub fn fallback(self, plan: &str) -> (r: EcosystemScanRecord)
        ensures
            r == (EcosystemScanRecord { fallback_plan: r.fallback_plan, ..self }),
            r.fallback_plan matches Some(s) && s@ == plan@,
    {
        let mut r = self;
        r.fallback_plan = Some(String::from_str(plan));
        r
    }

    /// Whether the record lists at least one considered crate.
    pub fn has_considered_crate(&self) -> (b: bool)
        ensures
            b == (self.considered_crates@.len() > 0),
    {
        self.considered_crates.len() > 0
    }

    /// Whether some reject rationale addresses `axis`.
    pub open spec fn covers_axis(self, axis: ConstraintAxis) -> bool {
        exists|i: int|
            0 <= i < self.reject_rationale@.len() && (#[trigger] self.reject_rationale@[i]).axis
                == axis
    }

    /// The set of constraint axes covered by the reject rationale, sorted in
    /// declaration order with duplicates removed.
    pub fn covered_axes(&self) -> (axes: Vec<ConstraintAxis>)
        ensures
            strictly_ascending_axes(axes@),
            forall|a: ConstraintAxis| #[trigger] axes@.contains(a) <==> self.covers_axis(a),
    {
        let mut raw: Vec<ConstraintAxis> = Vec::new();
        let mut i: usize = 0;
        while i < self.reject_rationale.len()
            invariant
                i <= self.reject_rationale@.len(),
                raw@.len() == i,
                forall|k: int| 0 <= k < i ==> #[trigger] raw@[k] == self.reject_rationale@[k].axis,
            decreases self.reject_rationale@.len() - i,
        {
            raw.push(self.reject_rationale[i].axis);
            i = i + 1;
        }
        let axes = sort_dedup_axes(raw.as_slice());
        proof {
            assert forall|a: ConstraintAxis| #[trigger] axes@.contains(a) <==> self.covers_axis(
                a,
            ) by {
                if self.covers_axis(a) {
                    let k = choose|k: int|
                        0 <= k < self.reject_rationale@.len()
                            && (#[trigger] self.reject_rationale@[k]).axis == a;
                    assert(raw@[k] == a);
                    assert(raw@.contains(a));
                }
                if raw@.contains(a) {
                    let k = choose|k: int| 0 <= k < raw@.len() && raw@[k] == a;
                    assert(self.reject_rationale@[k].axis == a);
                }
            }
        }
        axes
    }
}

// ── Sorting and deduplicating axes ───────────────────────────────────────

/// Axes strictly ascending in declaration order (sorted, no duplicates).
pub open spec fn strictly_ascending_axes(s: Seq<ConstraintAxis>) -> bool {
    forall|i: int, j: int| 0 <= i < j < s.len() ==> (#[trigger] s[i]).rank() < (#[trigger] s[j]).rank()
}

/// The axes of `input` sorted in declaration order with duplicates removed.
pub fn sort_dedup_axes(input: &[ConstraintAxis]) -> (out: Vec<ConstraintAxis>)
    ensures
        strictly_ascending_axes(out@),
        forall|a: ConstraintAxis| #[trigger] out@.contains(a) <==> input@.contains(a),
{
    let all = ConstraintAxis::all();
    let mut out: Vec<ConstraintAxis> = Vec::new();
    let mut k: usize = 0;
    while k < 5
        invariant
            k <= 5,
            all@.len() == 5,
            forall|m: int| 0 <= m < 5 ==> #[trigger] all@[m] == axis_at(m),
            strictly_ascending_axes(out@),
            forall|i: int| 0 <= i < out@.len() ==> (#[trigger] out@[i]).rank() < k,
            forall|a: ConstraintAxis|
                #[trigger] out@.contains(a) <==> (input@.contains(a) && a.rank() < k),
        decreases 5 - k,
    {
        let axis = all[k];
        assert(axis.rank() == k);
        let mut present = false;
        let mut j: usize = 0;
        while j < input.len()
            invariant
                j <= input@.len(),
                present <==> exists|m: int| 0 <= m < j && input@[m] == axis,
            decreases input@.len() - j,
        {
            if input[j] == axis {
                present = true;
            }
            j = j + 1;
        }
        if present {
            let ghost before = out@;
            out.push(axis);
            proof {
                assert forall|a: ConstraintAxis| #[trigger] out@.contains(a) <==> (input@.contains(
                    a,
                ) && a.rank() < k + 1) by {
                    if out@.contains(a) {
                        let i = choose|i: int| 0 <= i < out@.len() && out@[i] == a;
                        if i < before.len() {
                            assert(before[i] == a);
                            assert(before.contains(a));
                        }
                    }
                    if input@.contains(a) && a.rank() < k + 1 {
                        if a.rank() < k {
                            assert(before.contains(a));
                            let i = choose|i: int| 0 <= i < before.len() && before[i] == a;
                            assert(out@[i] == a);
                        } else {
                            assert(a == axis);
                            assert(out@[before.len() as int] == a);
                        }
                    }
                }
            }
        } else {
            proof {
                assert forall|a: ConstraintAxis| #[trigger] out@.contains(a) <==> (input@.contains(
                    a,
                ) && a.rank() < k + 1) by {
                    if input@.contains(a) && a.rank() == k {
                        assert(a == axis);
                        let m = choose|m: int| 0 <= m < input@.len() && input@[m] == a;
                        assert(false);
                    }
                    if out@.contains(a) {
                        let i = choose|i: int| 0 <= i < out@.len() && out@[i] == a;
                        assert(out@[i].rank() < k);
                    }
                }
            }
        }
        k = k + 1;
    }
    out
}

} // verus!
