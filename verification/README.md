# doctor_frankentui

Governance gates, decision records and migration-intake logic for the
doctor workflow, written in Verus with their contracts proved.

## Layout

- `src/` — the verified library.
  - `text.rs`: character sequences, string helpers, sorted sets, and the
    SHA-256 / hex identity helpers the reports use.
  - `ecosystem_scan/`: the adopt-vs-build ledger, its gate and report.
  - `milestone_policy.rs`: the quality-bar ladder and its weakest-link rule.
  - `entry_header_compiler/`: entry-header drafts, graduation templates,
    effort bands and the schema compiler.
  - `import/`: source-kind detection, git failure classes, toolchain
    context, the dry-run forecast and the incremental watch scope.
  - `golden_isomorphism/`: fixture verdicts, invariant statuses and the
    promotion gate over an isomorphism proof.
  - `governance.rs`, `metamorphic_oracle.rs`, `profile_orchestrator.rs`,
    `posterior_core.rs`, `performance_diff.rs`: the remaining gates and
    their decision logic.
  - Each module ends with the laws it proves (`law_*` proof functions).
- `tests/` — executable tests of the library.
- `app/` — ordinary Rust around the library: the `import` command with its
  filesystem and `git` work, JSON statistics export, and the engines whose
  arithmetic is in `f64` (golden checksums, posterior inference, milestone
  EV checks, profile hotspot ranking).
