use doctor_frankentui::import::forecast::{
    forecast_confidence_band, forecast_difficulty_label, rank_forecast_modules,
    usize_to_u8_clamped, ForecastRiskModule,
};
use doctor_frankentui::import::{
    classify_git_stderr, detect_source_kind, diff_snapshot_fingerprints,
    inferred_runtime_marker_for_bundler, invalidated_stages_for_path, is_js_ts_source_file,
    looks_like_git_url, normalize_stderr, parse_package_manager_field, watch_pipeline_stages,
    IntakeErrorClass, IntakeFailure, SnapshotFileFingerprint, SourceKind,
};
use doctor_frankentui::import::context::{
    bundler_config_candidates, detect_bundler_assumption, first_nonempty_line,
    infer_package_manager_from_lockfiles, parse_pnpm_workspace_globs, runtime_context,
    rust_toolchain_channel, rust_toolchain_from, text_lines, trimmed_sorted_set,
    watch_recomputation_scope, workspace_context,
};
use doctor_frankentui::import::watch_file_change;

#[test]
fn classify_git_stderr_maps_known_error_shapes() {
    assert_eq!(
        classify_git_stderr("fatal: Authentication failed for 'https://example'"),
        IntakeErrorClass::Auth
    );
    assert_eq!(
        classify_git_stderr("fatal: Could not resolve host: github.com"),
        IntakeErrorClass::Network
    );
    assert_eq!(
        classify_git_stderr("fatal: unknown revision or path not in the working tree"),
        IntakeErrorClass::MissingFiles
    );
    assert_eq!(
        classify_git_stderr("fatal: not a git repository"),
        IntakeErrorClass::IncompatibleRepo
    );
}

#[test]
fn parse_package_manager_field_extracts_name_and_version() {
    let (manager, version) = parse_package_manager_field("pnpm@9.1.0");
    assert_eq!(manager.as_deref(), Some("pnpm"));
    assert_eq!(version.as_deref(), Some("9.1.0"));

    let (manager_only, version_none) = parse_package_manager_field("yarn");
    assert_eq!(manager_only.as_deref(), Some("yarn"));
    assert_eq!(version_none, None);
}

#[test]
fn detect_source_kind_prefers_existing_paths() {
    assert_eq!(detect_source_kind("/tmp/some/source", true), SourceKind::LocalPath);
    assert_eq!(
        detect_source_kind("https://github.com/example/repo.git", false),
        SourceKind::GitUrl
    );
}

#[test]
fn existing_path_wins_even_when_it_looks_like_a_url() {
    assert_eq!(detect_source_kind("repo.git", true), SourceKind::LocalPath);
    assert_eq!(detect_source_kind("repo.git", false), SourceKind::GitUrl);
    assert_eq!(detect_source_kind("plain-dir", false), SourceKind::LocalPath);
}

#[test]
fn git_url_shapes_are_recognised_after_trimming() {
    assert!(looks_like_git_url("  https://example.com/x  "));
    assert!(looks_like_git_url("git@github.com:org/repo"));
    assert!(looks_like_git_url("ssh://host/repo"));
    assert!(looks_like_git_url("file:///srv/repo"));
    assert!(looks_like_git_url("/srv/repo.git"));
    assert!(!looks_like_git_url("./local/dir"));
}

#[test]
fn unmatched_stderr_is_unknown_and_classification_ignores_case() {
    assert_eq!(classify_git_stderr("PERMISSION DENIED (publickey)"), IntakeErrorClass::Auth);
    assert_eq!(classify_git_stderr("TLS handshake failed"), IntakeErrorClass::Network);
    assert_eq!(classify_git_stderr("something odd happened"), IntakeErrorClass::Unknown);
}

#[test]
fn auth_patterns_take_precedence_over_network_patterns() {
    assert_eq!(
        classify_git_stderr("proxy said: authentication failed"),
        IntakeErrorClass::Auth
    );
}

#[test]
fn intake_failures_map_to_distinct_exit_codes() {
    let codes: Vec<i32> = [
        IntakeErrorClass::Auth,
        IntakeErrorClass::Network,
        IntakeErrorClass::MissingFiles,
        IntakeErrorClass::IncompatibleRepo,
        IntakeErrorClass::Unknown,
    ]
    .iter()
    .map(|class| IntakeFailure::new(*class, "x").exit_code())
    .collect();
    assert_eq!(codes, vec![41, 42, 43, 44, 45]);
    let failure = IntakeFailure::new(IntakeErrorClass::Network, "host down");
    assert_eq!(failure.exit_message(), "intake_failed class=network reason=host down");
}

#[test]
fn normalize_stderr_joins_trimmed_nonblank_lines() {
    assert_eq!(normalize_stderr("  first  \n\n second\r\n   \nthird"), "first | second | third");
    assert_eq!(normalize_stderr("   \n  \n"), "no stderr output");
    assert_eq!(normalize_stderr(""), "no stderr output");
}

#[test]
fn package_manager_field_with_leading_at_keeps_whole_value() {
    let (manager, version) = parse_package_manager_field("@scoped");
    assert_eq!(manager.as_deref(), Some("@scoped"));
    assert_eq!(version, None);
    let (manager, version) = parse_package_manager_field("@scope/pm@2.0.0");
    assert_eq!(manager.as_deref(), Some("@scope/pm"));
    assert_eq!(version.as_deref(), Some("2.0.0"));
}

#[test]
fn bundler_runtime_markers() {
    assert_eq!(inferred_runtime_marker_for_bundler(Some("vite")), Some("import.meta.env"));
    assert_eq!(inferred_runtime_marker_for_bundler(Some("astro")), Some("import.meta.env"));
    assert_eq!(inferred_runtime_marker_for_bundler(Some("bun")), Some("Bun.env"));
    assert_eq!(inferred_runtime_marker_for_bundler(Some("webpack")), Some("process.env"));
    assert_eq!(inferred_runtime_marker_for_bundler(None), None);
}

#[test]
fn js_ts_source_extensions() {
    for path in ["a.ts", "b/c.tsx", "d.js", "e.jsx", "f.mjs", "g.cjs", "h.mts", "i.cts"] {
        assert!(is_js_ts_source_file(path), "{path}");
    }
    assert!(!is_js_ts_source_file("style.css"));
    assert!(!is_js_ts_source_file("README"));
    assert!(!is_js_ts_source_file("archive.ts.bak"));
}

#[test]
fn watch_stages_and_invalidation_scopes() {
    let all = watch_pipeline_stages();
    assert_eq!(
        all,
        vec!["ingest", "ir_lower", "plan", "translate", "emit", "optimize", "write_generated"]
    );
    assert_eq!(invalidated_stages_for_path("package.json"), all);
    assert_eq!(invalidated_stages_for_path("apps/web/yarn.lock"), all);
    assert_eq!(invalidated_stages_for_path("vite.config.ts"), all);
    assert_eq!(invalidated_stages_for_path("src/App.tsx"), all);
    assert_eq!(invalidated_stages_for_path("styles/site.scss"), all);
    assert_eq!(invalidated_stages_for_path("docs/guide.md"), vec!["ingest"]);
    assert_eq!(invalidated_stages_for_path("assets/logo.png"), vec!["ingest", "ir_lower"]);
}

fn fp(path: &str, sha: &str, size: u64) -> SnapshotFileFingerprint {
    SnapshotFileFingerprint { path: path.to_string(), sha256: sha.to_string(), size_bytes: size }
}

#[test]
fn snapshot_diff_reports_each_change_once_in_path_order() {
    let previous = vec![fp("a.md", "1", 1), fp("b.ts", "2", 2), fp("c.json", "3", 3)];
    let current = vec![fp("a.md", "1", 1), fp("b.ts", "9", 2), fp("d.css", "4", 4)];
    let (changes, counts) = diff_snapshot_fingerprints(&previous, &current);
    let summary: Vec<(String, String)> = changes
        .iter()
        .map(|c| (c.path.clone(), c.change_kind.clone()))
        .collect();
    assert_eq!(
        summary,
        vec![
            ("b.ts".to_string(), "modified".to_string()),
            ("c.json".to_string(), "removed".to_string()),
            ("d.css".to_string(), "added".to_string()),
        ]
    );
    assert_eq!((counts.added, counts.modified, counts.removed, counts.unchanged), (1, 1, 1, 1));
    assert_eq!(changes[0].previous_sha256.as_deref(), Some("2"));
    assert_eq!(changes[0].current_sha256.as_deref(), Some("9"));
}

#[test]
fn identical_snapshots_have_no_changes() {
    let listing = vec![fp("a.md", "1", 1), fp("b.ts", "2", 2)];
    let (changes, counts) = diff_snapshot_fingerprints(&listing, &listing);
    assert!(changes.is_empty());
    assert_eq!(counts.unchanged, 2);
}

#[test]
fn difficulty_labels_follow_the_bands() {
    assert_eq!(forecast_difficulty_label(0), "low");
    assert_eq!(forecast_difficulty_label(29), "low");
    assert_eq!(forecast_difficulty_label(30), "moderate");
    assert_eq!(forecast_difficulty_label(54), "moderate");
    assert_eq!(forecast_difficulty_label(55), "high");
    assert_eq!(forecast_difficulty_label(79), "high");
    assert_eq!(forecast_difficulty_label(80), "severe");
}

#[test]
fn confidence_band_formula() {
    let band = forecast_confidence_band(50, 3);
    assert_eq!(
        (band.lower_percent, band.expected_percent, band.upper_percent, band.label.as_str()),
        (49, 61, 69, "medium")
    );
    let band = forecast_confidence_band(0, 0);
    assert_eq!(
        (band.lower_percent, band.expected_percent, band.upper_percent, band.label.as_str()),
        (80, 92, 98, "high")
    );
    let band = forecast_confidence_band(100, 10);
    assert_eq!(
        (band.lower_percent, band.expected_percent, band.upper_percent, band.label.as_str()),
        (18, 30, 38, "low")
    );
}

#[test]
fn confidence_never_rises_with_difficulty() {
    let mut last = 100;
    for score in 0..=100u8 {
        let band = forecast_confidence_band(score, 2);
        assert!(band.expected_percent <= last);
        assert!(band.lower_percent <= band.expected_percent);
        assert!(band.expected_percent <= band.upper_percent);
        last = band.expected_percent;
    }
}

#[test]
fn clamping_to_one_hundred() {
    assert_eq!(usize_to_u8_clamped(7), 7);
    assert_eq!(usize_to_u8_clamped(100), 100);
    assert_eq!(usize_to_u8_clamped(5000), 100);
}

fn module(path: &str, score: u8) -> ForecastRiskModule {
    ForecastRiskModule {
        path: path.to_string(),
        difficulty_score: score,
        confidence_impact_percent: score / 2,
        risk_factors: vec!["effects".to_string()],
        evidence_refs: Vec::new(),
    }
}

#[test]
fn ranking_orders_by_score_then_path_and_keeps_eight() {
    let input: Vec<ForecastRiskModule> = (0..10)
        .map(|i| module(&format!("m{i}.ts"), (i * 7 % 5) as u8 * 10))
        .collect();
    let ranked = rank_forecast_modules(input);
    assert_eq!(ranked.len(), 8);
    for pair in ranked.windows(2) {
        assert!(
            pair[0].difficulty_score > pair[1].difficulty_score
                || (pair[0].difficulty_score == pair[1].difficulty_score
                    && pair[0].path <= pair[1].path)
        );
    }
    assert_eq!(ranked[0].difficulty_score, 40);
}


#[test]
fn text_lines_split_on_newlines() {
    assert_eq!(text_lines("a\nb\n"), vec!["a", "b", ""]);
    assert_eq!(text_lines(""), vec![""]);
    assert_eq!(first_nonempty_line("\n  \n 18.2 \nx"), Some("18.2".to_string()));
    assert_eq!(first_nonempty_line(" \n\t\n"), None);
}

#[test]
fn rust_toolchain_pins() {
    assert_eq!(
        rust_toolchain_channel("[toolchain]\nchannel = \"nightly-2024-01-01\"\ncomponents = []\n"),
        Some("nightly-2024-01-01".to_string())
    );
    assert_eq!(rust_toolchain_channel("channel = \"\"\nchannel=stable"), Some("stable".to_string()));
    assert_eq!(rust_toolchain_channel("[toolchain]\nprofile = \"minimal\""), None);
    assert_eq!(
        rust_toolchain_from(&Some("[toolchain]\n".to_string()), &Some("\n1.78.0\n".to_string())),
        Some("1.78.0".to_string())
    );
    assert_eq!(
        rust_toolchain_from(&Some("channel = \"beta\"".to_string()), &Some("stable".to_string())),
        Some("beta".to_string())
    );
    assert_eq!(rust_toolchain_from(&None, &None), None);
}

#[test]
fn pnpm_workspace_globs_are_read_from_the_packages_block() {
    let yaml = "packages:\n  - 'apps/*'\n  - \"packages/*\"\n  # comment\n  - apps/*\nother: x\n  - ignored\n";
    assert_eq!(parse_pnpm_workspace_globs(yaml), vec!["apps/*", "packages/*"]);
    assert!(parse_pnpm_workspace_globs("catalog:\n  - x\n").is_empty());
    assert_eq!(parse_pnpm_workspace_globs("packages:\r\n\t- libs/**\r\n"), vec!["libs/**"]);
}

#[test]
fn workspace_context_merges_markers_and_globs() {
    let (markers, globs) = workspace_context(
        &Some(vec![" apps/* ".to_string(), "  ".to_string()]),
        &Some("packages:\n - libs/*\n - apps/*\n".to_string()),
        &vec!["turbo.json".to_string(), "other.json".to_string()],
    );
    assert_eq!(markers, vec!["package.json#workspaces", "pnpm-workspace.yaml", "turbo.json"]);
    assert_eq!(globs, vec!["apps/*", "libs/*"]);
    let (markers, globs) = workspace_context(&None, &None, &Vec::new());
    assert!(markers.is_empty() && globs.is_empty());
    assert_eq!(
        trimmed_sorted_set(&vec!["@b/*".to_string(), " @a/* ".to_string(), "@b/*".to_string()]),
        vec!["@a/*", "@b/*"]
    );
}

fn strings(items: &[&str]) -> Vec<String> {
    items.iter().map(|s| s.to_string()).collect()
}

#[test]
fn bundler_assumption_collects_sorted_evidence() {
    let (bundler, evidence) = detect_bundler_assumption(
        &strings(&["vite.config.ts"]),
        &strings(&["vite", "react"]),
        &strings(&["VITE build"]),
    );
    assert_eq!(bundler.as_deref(), Some("vite"));
    assert_eq!(evidence.as_deref(), Some("config:vite.config.ts,dependency:vite,script:vite"));

    let (bundler, evidence) = detect_bundler_assumption(&Vec::new(), &Vec::new(), &strings(&["next dev"]));
    assert_eq!(bundler.as_deref(), Some("next"));
    assert_eq!(evidence.as_deref(), Some("script:next"));

    let (bundler, evidence) =
        detect_bundler_assumption(&Vec::new(), &strings(&["@rspack/core"]), &Vec::new());
    assert_eq!(bundler.as_deref(), Some("rspack"));
    assert_eq!(evidence.as_deref(), Some("dependency:@rspack/core"));

    assert_eq!(detect_bundler_assumption(&Vec::new(), &Vec::new(), &Vec::new()), (None, None));
    let candidates = bundler_config_candidates();
    assert_eq!(candidates.first().map(String::as_str), Some("next.config.js"));
    assert_eq!(candidates.last().map(String::as_str), Some("bunfig.toml"));
    assert!(candidates.contains(&".parcelrc".to_string()));
}

#[test]
fn lockfiles_imply_a_package_manager() {
    assert_eq!(
        infer_package_manager_from_lockfiles(&strings(&["package-lock.json", "yarn.lock"])),
        Some(("yarn".to_string(), "lockfile:yarn.lock".to_string()))
    );
    assert_eq!(
        infer_package_manager_from_lockfiles(&strings(&["bun.lock"])),
        Some(("bun".to_string(), "lockfile:bun.lock".to_string()))
    );
    assert_eq!(infer_package_manager_from_lockfiles(&Vec::new()), None);
}

#[test]
fn runtime_markers_and_dynamic_imports() {
    let (markers, dynamic) = runtime_context(
        &strings(&["const a = import('x'); process.env.A", "Bun.env.B"]),
        Some("vite"),
    );
    assert_eq!(markers, vec!["Bun.env", "import.meta.env", "process.env"]);
    assert!(dynamic);
    let (markers, dynamic) = runtime_context(&strings(&["import x from 'y'"]), None);
    assert!(markers.is_empty());
    assert!(!dynamic);
    let (markers, _) = runtime_context(&Vec::new(), Some("webpack"));
    assert_eq!(markers, vec!["process.env"]);
}

#[test]
fn watch_mode_scopes_doc_change_to_ingest_and_reports_cache_hits() {
    let change = watch_file_change("docs/guide.md", "modified", Some("1".to_string()), Some("2".to_string()));
    let (invalidated, hits) = watch_recomputation_scope(false, &vec![change]);
    assert_eq!(invalidated, vec!["ingest"]);
    assert_eq!(hits, vec!["ir_lower", "plan", "translate", "emit", "optimize", "write_generated"]);
}

#[test]
fn watch_baseline_recomputes_everything() {
    let (invalidated, hits) = watch_recomputation_scope(true, &Vec::new());
    assert_eq!(invalidated, watch_pipeline_stages());
    assert!(hits.is_empty());
    let (invalidated, hits) = watch_recomputation_scope(false, &Vec::new());
    assert!(invalidated.is_empty());
    assert_eq!(hits.len(), 7);
}
