//! Governance gates, decision records and migration-intake logic for the
//! doctor workflow, with their contracts proved.

pub mod text;
pub mod ecosystem_scan;
pub mod milestone_policy;
pub mod entry_header_compiler;
pub mod import;
pub mod golden_isomorphism;
pub mod governance;
pub mod metamorphic_oracle;
pub mod profile_orchestrator;
pub mod posterior_core;
pub mod performance_diff;
