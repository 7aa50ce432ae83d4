//! The canonical adopt-vs-build ledger for every S/A uplift candidate.

use vstd::prelude::*;

use crate::ecosystem_scan::report::{EcosystemScanGate, EcosystemScanReport};
use crate::ecosystem_scan::{
    candidate_at, AdoptionDecision, BenchmarkDelta, ConstraintAxis, ConstraintRationale,
    CrateCandidate, CrateVerdict, DeterminismRisk, EcosystemScanRecord, LicensePosture,
    PortabilityPosture, UnsafePolicyFit, UpliftCandidate,
};

verus! {

/// The canonical adopt-vs-build ledger, one record per candidate in
/// registry order. It is the baseline the governance gate consumes.
pub fn canonical_ledger() -> (v: Vec<EcosystemScanRecord>)
    ensures
        v@.len() == 8,
        forall|k: int| 0 <= k < 8 ==> (#[trigger] v@[k]).candidate == candidate_at(k),
{
    let v = vec![
        contracts_as_code_record(),
        cegis_record(),
        egraph_record(),
        abstract_interpretation_record(),
        concolic_record(),
        metamorphic_record(),
        shadow_run_record(),
        controller_guardrails_record(),
    ];
    v
}

/// Evaluate the canonical ledger under a default gate.
pub fn canonical_scan_report() -> (r: EcosystemScanReport)
    ensures
        r.records@.len() == 8,
        forall|k: int| 0 <= k < 8 ==> (#[trigger] r.records@[k]).candidate == candidate_at(k),
{
    let gate = EcosystemScanGate::default();
    let ledger = canonical_ledger();
    let r = gate.evaluate(ledger);
    r
}

fn contracts_as_code_record() -> (r: EcosystemScanRecord)
    ensures
        r.candidate == UpliftCandidate::ContractsAsCode,
        r.decision == AdoptionDecision::Hybrid,
{
    EcosystemScanRecord::new(UpliftCandidate::ContractsAsCode, AdoptionDecision::Hybrid)
        .summary(
            "Adopt serde/serde_json/sha2 as the serialization + content-hash substrate; \
             build the claim/evidence/policy/trace artifact graph in-tree.",
        )
        .adopt_crate("serde")
        .adopt_crate("serde_json")
        .adopt_crate("sha2")
        .with_crate(
            CrateCandidate::new("serde", CrateVerdict::Selected)
                .version("1.0")
                .source("https://crates.io/crates/serde")
                .posture(
                    DeterminismRisk::NoRisk,
                    UnsafePolicyFit::Contained,
                    LicensePosture::Permissive,
                    PortabilityPosture::Portable,
                )
                .rationale("De-facto serialization substrate; deterministic, pure-Rust."),
        )
        .with_crate(
            CrateCandidate::new("sha2", CrateVerdict::Selected)
                .version("0.11")
                .source("https://crates.io/crates/sha2")
                .posture(
                    DeterminismRisk::NoRisk,
                    UnsafePolicyFit::Contained,
                    LicensePosture::Permissive,
                    PortabilityPosture::Portable,
                )
                .rationale("Content-addressed artifact IDs need a stable, portable hash."),
        )
        .with_crate(
            CrateCandidate::new("contracts", CrateVerdict::Rejected)
                .version("0.6")
                .source("https://crates.io/crates/contracts")
                .posture(
                    DeterminismRisk::NoRisk,
                    UnsafePolicyFit::Clean,
                    LicensePosture::Permissive,
                    PortabilityPosture::Portable,
                )
                .rationale(
                    "Only pre/post-condition macros; provides no artifact-graph, \
                     provenance ledger, or claim/evidence/policy/trace linkage.",
                ),
        )
        .with_reject_rationale(ConstraintRationale::new(
            ConstraintAxis::Performance,
            "Artifact-graph traversal is not a hotspot; bespoke code avoids macro overhead.",
        ))
        .with_reject_rationale(ConstraintRationale::new(
            ConstraintAxis::Determinism,
            "Provenance IDs must be content-addressed and replayable; in-tree hashing guarantees this.",
        ))
        .with_reject_rationale(ConstraintRationale::new(
            ConstraintAxis::UnsafePolicy,
            "All adopted substrate crates are unsafe-contained; graph logic itself is unsafe-free.",
        ))
        .with_reject_rationale(ConstraintRationale::new(
            ConstraintAxis::License,
            "No copyleft pulled in; serde/serde_json/sha2 are permissive.",
        ))
        .with_reject_rationale(ConstraintRationale::new(
            ConstraintAxis::Portability,
            "Artifact graph is pure Rust over the migration IR; no native deps.",
        ))
        .fallback(
            "If the artifact graph regresses, fall back to flat JSONL evidence records \
             keyed by content hash.",
        )
}

fn cegis_record() -> (r: EcosystemScanRecord)
    ensures
        r.candidate == UpliftCandidate::CegisSynthesis,
        r.decision == AdoptionDecision::Build,
{
    EcosystemScanRecord::new(UpliftCandidate::CegisSynthesis, AdoptionDecision::Build)
        .summary(
            "Build the counterexample-guided synthesis loop in-tree over migration IR; \
             SMT-solver bindings are rejected on portability/unsafe/determinism grounds.",
        )
        .with_crate(
            CrateCandidate::new("z3", CrateVerdict::Rejected)
                .version("0.12")
                .source("https://crates.io/crates/z3")
                .with_benchmark(BenchmarkDelta::qualitative(
                    "build_footprint",
                    "Adds a multi-MB native Z3 toolchain dependency.",
                ))
                .posture(
                    DeterminismRisk::High,
                    UnsafePolicyFit::Violates,
                    LicensePosture::Permissive,
                    PortabilityPosture::RequiresNativeToolchain,
                )
                .rationale(
                    "FFI to native Z3 requires unsafe and a non-cargo toolchain; \
                     solver internals are not bit-for-bit reproducible across versions.",
                ),
        )
        .with_crate(
            CrateCandidate::new("rsmt2", CrateVerdict::Rejected)
                .version("0.17")
                .source("https://crates.io/crates/rsmt2")
                .posture(
                    DeterminismRisk::High,
                    UnsafePolicyFit::Contained,
                    LicensePosture::Permissive,
                    PortabilityPosture::RequiresNativeToolchain,
                )
                .rationale(
                    "Spawns an external SMT solver process; determinism and portability \
                     depend on an out-of-tree binary we cannot pin.",
                ),
        )
        .with_reject_rationale(ConstraintRationale::new(
            ConstraintAxis::Performance,
            "Translation holes are small and bounded; a domain sketch search beats general SMT latency.",
        ))
        .with_reject_rationale(ConstraintRationale::new(
            ConstraintAxis::Determinism,
            "SMT solver internals vary across versions/platforms, breaking replayable counterexamples.",
        ))
        .with_reject_rationale(ConstraintRationale::new(
            ConstraintAxis::UnsafePolicy,
            "Native solver FFI conflicts with workspace #![forbid(unsafe_code)].",
        ))
        .with_reject_rationale(ConstraintRationale::new(
            ConstraintAxis::License,
            "Bindings are permissive, but the underlying native toolchain widens the IP surface.",
        ))
        .with_reject_rationale(ConstraintRationale::new(
            ConstraintAxis::Portability,
            "Requires a native Z3/solver toolchain absent from the pure-cargo build.",
        ))
        .fallback(
            "If a hole resists the bounded sketch search, emit a typed TODO stub plus a \
             certification gap rather than an unproven synthesis.",
        )
}

fn egraph_record() -> (r: EcosystemScanRecord)
    ensures
        r.candidate == UpliftCandidate::EGraphOptimizer,
        r.decision == AdoptionDecision::Build,
{
    EcosystemScanRecord::new(UpliftCandidate::EGraphOptimizer, AdoptionDecision::Build)
        .summary(
            "Build a node-budgeted e-graph optimizer over migration codegen IR; the canonical \
             `egg` crate is rejected on integration-cost and extraction-control grounds.",
        )
        .with_crate(
            CrateCandidate::new("egg", CrateVerdict::Rejected)
                .version("0.9")
                .source("https://crates.io/crates/egg")
                .with_benchmark(BenchmarkDelta::qualitative(
                    "extraction_control",
                    "Strong saturation, but extraction cost-model and budget control are less granular than needed.",
                ))
                .posture(
                    DeterminismRisk::Low,
                    UnsafePolicyFit::Clean,
                    LicensePosture::Permissive,
                    PortabilityPosture::Portable,
                )
                .rationale(
                    "Excellent library, but its E-node model would require adapting all codegen IR \
                     into egg's Language trait, and we need explicit node-budget fallback the in-tree \
                     optimizer already provides (shared with ftui-layout::egraph).",
                ),
        )
        .with_reject_rationale(ConstraintRationale::new(
            ConstraintAxis::Performance,
            "Codegen graphs are small; saturation is not the bottleneck, integration overhead would be.",
        ))
        .with_reject_rationale(ConstraintRationale::new(
            ConstraintAxis::Determinism,
            "We need a fixed, budgeted saturation schedule with deterministic extraction tie-breaks.",
        ))
        .with_reject_rationale(ConstraintRationale::new(
            ConstraintAxis::UnsafePolicy,
            "egg is unsafe-clean, so this axis is not a blocker; in-tree code stays unsafe-free too.",
        ))
        .with_reject_rationale(ConstraintRationale::new(
            ConstraintAxis::License,
            "egg is permissive; no license blocker, decision is integration-cost-driven.",
        ))
        .with_reject_rationale(ConstraintRationale::new(
            ConstraintAxis::Portability,
            "egg is portable; the decision rests on reusing the existing in-tree e-graph design.",
        ))
        .fallback(
            "If saturation exceeds the node budget, fall back to the untransformed codegen output \
             and flag a missed-optimization note.",
        )
}

fn abstract_interpretation_record() -> (r: EcosystemScanRecord)
    ensures
        r.candidate == UpliftCandidate::AbstractInterpretation,
        r.decision == AdoptionDecision::Build,
{
    EcosystemScanRecord::new(
        UpliftCandidate::AbstractInterpretation,
        AdoptionDecision::Build,
    )
    .summary(
        "Build the Galois-linked over-approximation layer in-tree; the only mature abstract-domain \
         libraries are native (Apron/ELINA) and rejected on portability/unsafe grounds.",
    )
    .with_crate(
        CrateCandidate::new("elina", CrateVerdict::Rejected)
            .source("https://crates.io/crates/elina")
            .posture(
                DeterminismRisk::Medium,
                UnsafePolicyFit::Violates,
                LicensePosture::WeakCopyleft,
                PortabilityPosture::RequiresNativeToolchain,
            )
            .rationale(
                "Rust binding over the native ELINA/Apron C library; requires unsafe FFI, a native \
                 build, and carries LGPL terms — all three conflict with workspace policy.",
            ),
    )
    .none_found("No pure-Rust, unsafe-free general-purpose abstract-interpretation domain library exists; \
         native Apron/ELINA bindings are the only mature option and are policy-incompatible.")
    .with_reject_rationale(ConstraintRationale::new(
        ConstraintAxis::Performance,
        "Migration-time analysis runs offline; bespoke interval/sign domains are fast enough.",
    ))
    .with_reject_rationale(ConstraintRationale::new(
        ConstraintAxis::Determinism,
        "Galois connections and widening must be deterministic; in-tree domains guarantee fixed iteration order.",
    ))
    .with_reject_rationale(ConstraintRationale::new(
        ConstraintAxis::UnsafePolicy,
        "Apron/ELINA bindings require unsafe FFI, violating #![forbid(unsafe_code)].",
    ))
    .with_reject_rationale(ConstraintRationale::new(
        ConstraintAxis::License,
        "ELINA is LGPL; a copyleft native dependency is unacceptable for the workspace.",
    ))
    .with_reject_rationale(ConstraintRationale::new(
        ConstraintAxis::Portability,
        "Native Apron toolchain is absent from the pure-cargo build and CI.",
    ))
    .fallback(
        "If a construct falls outside the supported abstract domains, widen to Top and emit a \
         conservative certification gap rather than an unsound result.",
    )
}

fn concolic_record() -> (r: EcosystemScanRecord)
    ensures
        r.candidate == UpliftCandidate::ConcolicDifferential,
        r.decision == AdoptionDecision::Build,
{
    EcosystemScanRecord::new(UpliftCandidate::ConcolicDifferential, AdoptionDecision::Build)
        .summary(
            "Build a source-level concolic differential explorer in-tree; existing Rust symbolic \
             executors operate on LLVM IR and are rejected as the wrong abstraction.",
        )
        .with_crate(
            CrateCandidate::new("haybale", CrateVerdict::Rejected)
                .source("https://crates.io/crates/haybale")
                .posture(
                    DeterminismRisk::Medium,
                    UnsafePolicyFit::Violates,
                    LicensePosture::Permissive,
                    PortabilityPosture::RequiresNativeToolchain,
                )
                .rationale(
                    "Symbolic-executes LLVM bitcode via the Boolector SMT solver; wrong abstraction \
                     level (we compare TSX source vs generated Rust) and pulls native solver + LLVM.",
                ),
        )
        .with_reject_rationale(ConstraintRationale::new(
            ConstraintAxis::Performance,
            "We only need bounded divergence probes over translated fragments, not full LLVM symbolic execution.",
        ))
        .with_reject_rationale(ConstraintRationale::new(
            ConstraintAxis::Determinism,
            "Underlying SMT/LLVM path enumeration is not reproducible across versions.",
        ))
        .with_reject_rationale(ConstraintRationale::new(
            ConstraintAxis::UnsafePolicy,
            "LLVM + native solver dependencies require unsafe FFI, violating workspace policy.",
        ))
        .with_reject_rationale(ConstraintRationale::new(
            ConstraintAxis::License,
            "Permissive licenses, but the native LLVM/Boolector toolchain widens supply-chain risk.",
        ))
        .with_reject_rationale(ConstraintRationale::new(
            ConstraintAxis::Portability,
            "Requires LLVM + native solver toolchain unavailable in the pure-cargo build.",
        ))
        .fallback(
            "If concolic exploration cannot bound a divergence, fall back to seeded differential \
             fuzzing over the metamorphic oracle.",
        )
}

fn metamorphic_record() -> (r: EcosystemScanRecord)
    ensures
        r.candidate == UpliftCandidate::MetamorphicOracle,
        r.decision == AdoptionDecision::Hybrid,
{
    EcosystemScanRecord::new(UpliftCandidate::MetamorphicOracle, AdoptionDecision::Hybrid)
        .summary(
            "Adopt proptest as the deterministic input-generation substrate; build the \
             metamorphic-relation library (equivalence under permutation/idempotence/refinement) in-tree.",
        )
        .adopt_crate("proptest")
        .with_crate(
            CrateCandidate::new("proptest", CrateVerdict::Selected)
                .version("1.7")
                .source("https://crates.io/crates/proptest")
                .posture(
                    DeterminismRisk::Low,
                    UnsafePolicyFit::Contained,
                    LicensePosture::Permissive,
                    PortabilityPosture::Portable,
                )
                .rationale(
                    "Seeded, shrinking property generation is deterministic under a fixed seed and \
                     already a workspace dev-dependency; ideal generation substrate.",
                ),
        )
        .with_crate(
            CrateCandidate::new("quickcheck", CrateVerdict::Rejected)
                .source("https://crates.io/crates/quickcheck")
                .posture(
                    DeterminismRisk::Medium,
                    UnsafePolicyFit::Clean,
                    LicensePosture::Permissive,
                    PortabilityPosture::Portable,
                )
                .rationale("Weaker shrinking and seed control than proptest; no metamorphic relations either."),
        )
        .with_reject_rationale(ConstraintRationale::new(
            ConstraintAxis::Performance,
            "Relation checks are cheap; generation cost dominates and proptest handles it.",
        ))
        .with_reject_rationale(ConstraintRationale::new(
            ConstraintAxis::Determinism,
            "proptest seeds make failing cases replayable; the relation library adds no nondeterminism.",
        ))
        .with_reject_rationale(ConstraintRationale::new(
            ConstraintAxis::UnsafePolicy,
            "proptest's unsafe is contained; the relation library is unsafe-free.",
        ))
        .with_reject_rationale(ConstraintRationale::new(
            ConstraintAxis::License,
            "proptest is permissive (MIT/Apache); no IP risk.",
        ))
        .with_reject_rationale(ConstraintRationale::new(
            ConstraintAxis::Portability,
            "proptest is pure Rust; no native dependency.",
        ))
        .fallback(
            "If a relation cannot be expressed as a metamorphic transform, fall back to fixed \
             golden-output differential checks.",
        )
}

fn shadow_run_record() -> (r: EcosystemScanRecord)
    ensures
        r.candidate == UpliftCandidate::ShadowRun,
        r.decision == AdoptionDecision::Build,
{
    EcosystemScanRecord::new(UpliftCandidate::ShadowRun, AdoptionDecision::Build)
        .summary(
            "Build the dual-execution shadow-run harness in-tree over the migration's own run model; \
             shadow execution is an architecture pattern, not a publishable crate.",
        )
        .none_found(
            "No general-purpose Rust crate provides dual-execution shadow comparison over an \
             arbitrary deterministic run model; this is an architectural pattern realized in-tree.",
        )
        .with_reject_rationale(ConstraintRationale::new(
            ConstraintAxis::Performance,
            "Shadow runs are gated and budgeted; in-tree control avoids unnecessary dual execution.",
        ))
        .with_reject_rationale(ConstraintRationale::new(
            ConstraintAxis::Determinism,
            "Frame/output checksums must match bit-for-bit; only an in-tree harness over our buffers can guarantee this.",
        ))
        .with_reject_rationale(ConstraintRationale::new(
            ConstraintAxis::UnsafePolicy,
            "Harness is pure Rust over existing deterministic execution paths; no unsafe.",
        ))
        .with_reject_rationale(ConstraintRationale::new(
            ConstraintAxis::License,
            "No external dependency, so no license exposure.",
        ))
        .with_reject_rationale(ConstraintRationale::new(
            ConstraintAxis::Portability,
            "Pure Rust; runs anywhere the workspace runs.",
        ))
        .fallback(
            "If shadow comparison cannot be completed within budget, fall back to recording a \
             single-path run plus a deferred-comparison evidence note.",
        )
}

fn controller_guardrails_record() -> (r: EcosystemScanRecord)
    ensures
        r.candidate == UpliftCandidate::ControllerInterferenceGuardrails,
        r.decision == AdoptionDecision::Build,
{
    EcosystemScanRecord::new(
        UpliftCandidate::ControllerInterferenceGuardrails,
        AdoptionDecision::Build,
    )
    .summary(
        "Build controller-composition interference and timescale-separation guardrails in-tree; \
         Rust control-theory crates target numeric simulation, not discrete UI controller composition.",
    )
    .with_crate(
        CrateCandidate::new("control_systems", CrateVerdict::Rejected)
            .source("https://crates.io/crates/control_systems")
            .posture(
                DeterminismRisk::Low,
                UnsafePolicyFit::Clean,
                LicensePosture::Permissive,
                PortabilityPosture::Portable,
            )
            .rationale(
                "Continuous-time transfer-function/state-space simulation; does not model discrete \
                 UI controller interaction, interference matrices, or timescale-separation guardrails.",
            ),
    )
    .with_reject_rationale(ConstraintRationale::new(
        ConstraintAxis::Performance,
        "Interference checks run at composition time and are cheap; no need for a numeric simulation engine.",
    ))
    .with_reject_rationale(ConstraintRationale::new(
        ConstraintAxis::Determinism,
        "Timescale-separation guardrails must produce identical verdicts across runs; in-tree logic ensures it.",
    ))
    .with_reject_rationale(ConstraintRationale::new(
        ConstraintAxis::UnsafePolicy,
        "Guardrail logic is pure Rust; no unsafe required.",
    ))
    .with_reject_rationale(ConstraintRationale::new(
        ConstraintAxis::License,
        "Candidate crate is permissive; rejection is domain-fit-driven, not license-driven.",
    ))
    .with_reject_rationale(ConstraintRationale::new(
        ConstraintAxis::Portability,
        "Candidate is portable; the guardrails stay pure Rust regardless.",
    ))
    .fallback(
        "If two controllers cannot be proven non-interfering, fall back to serializing them under a \
         single-owner lock and flag the composition as degraded.",
    )
}

} // verus!
