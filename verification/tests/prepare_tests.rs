use rustwide::cmd::Binary;
use rustwide::cmd::CommandError;
use rustwide::cmd::ProcessOutput;
use rustwide::prepare::build_std_fetch_args;
use rustwide::prepare::classify_failure;
use rustwide::prepare::fetch_failure_action;
use rustwide::prepare::run_command_outcome;
use rustwide::prepare::scan_lines;
use rustwide::prepare::validate_manifest_outcome;
use rustwide::prepare::validate_manifest_precheck;
use rustwide::prepare::FetchFailureAction;
use rustwide::prepare::Prepare;
use rustwide::prepare::PrepareError;
use rustwide::prepare::PrepareStage;
use rustwide::prepare::RunCommandError;
use rustwide::toolchain::Toolchain;
use rustwide::workspace::Workspace;

fn workspace() -> Workspace {
    Workspace {
        root: "/work".to_string(),
        user_agent: "rustwide-tests".to_string(),
        default_command_timeout: None,
        default_no_output_timeout: None,
        sandbox_image_name: "build-image".to_string(),
        rustup_profile: "minimal".to_string(),
        fetch_registry_index_during_builds: false,
        current_container_mounts: None,
    }
}

#[test]
fn missing_manifest_fails_before_any_cargo() {
    assert_eq!(
        validate_manifest_precheck(false),
        Err(PrepareError::MissingCargoToml)
    );
    assert_eq!(validate_manifest_precheck(true), Ok(()));
    assert_eq!(
        validate_manifest_outcome(false),
        Err(PrepareError::InvalidCargoTomlSyntax)
    );
}

#[test]
fn yanked_dependency_is_classified() {
    let lines = vec![
        "    Updating crates.io index".to_string(),
        "error: failed to select a version for the requirement `foo = \"=1.0.0\"`".to_string(),
    ];
    let flags = scan_lines(&lines);
    assert!(flags.yanked);
    let stderr = lines.join("\n");
    let res = run_command_outcome(
        Err(CommandError::ExecutionFailed { status: 101, stderr: stderr.clone() }),
        flags,
    );
    assert_eq!(
        res,
        Err(RunCommandError::Prepare(PrepareError::YankedDependencies(stderr)))
    );
}

#[test]
fn classification_follows_priority_order() {
    let lines = vec![
        "error: failed to parse lock file at /x/Cargo.lock".to_string(),
        "no matching package named `gone`".to_string(),
    ];
    let flags = scan_lines(&lines);
    assert!(flags.missing && flags.broken_lockfile && !flags.yanked);
    assert_eq!(
        classify_failure(flags, "out".to_string()),
        Some(PrepareError::MissingDependencies("out".to_string()))
    );
}

#[test]
fn unclassified_failures_stand() {
    let lines = vec!["error: something else".to_string()];
    let flags = scan_lines(&lines);
    let err = CommandError::ExecutionFailed { status: 1, stderr: "error: something else".into() };
    let res = run_command_outcome(Err(err), flags);
    match res {
        Err(RunCommandError::Command(CommandError::ExecutionFailed { status, .. })) => {
            assert_eq!(status, 1)
        }
        other => panic!("expected the command error to stand, got {:?}", other),
    }
    let ok = ProcessOutput { stdout: Vec::new(), stderr: Vec::new() };
    assert!(run_command_outcome(Ok(ok), flags).is_ok());
}

#[test]
fn fetch_regenerates_the_lockfile_once() {
    assert_eq!(fetch_failure_action(false), FetchFailureAction::RegenerateAndRetry);
    assert_eq!(fetch_failure_action(true), FetchFailureAction::Propagate);
}

#[test]
fn pipeline_stage_order() {
    let prepare = Prepare::new("/work/builds/b/source", Vec::new());
    assert_eq!(
        prepare.prepare(),
        vec![
            PrepareStage::CopySource,
            PrepareStage::RemoveOverrides,
            PrepareStage::TweakManifest,
            PrepareStage::ValidateManifest,
            PrepareStage::CaptureLockfile,
            PrepareStage::FetchDeps,
        ]
    );
}

#[test]
fn override_files_under_the_source() {
    let prepare = Prepare::new("/src", Vec::new());
    assert_eq!(
        prepare.remove_override_files(),
        vec![
            "/src/.cargo/config",
            "/src/.cargo/config.toml",
            "/src/rust-toolchain",
            "/src/rust-toolchain.toml",
        ]
    );
}

#[test]
fn cargo_invocations() {
    let ws = workspace();
    let tc = Toolchain::dist("beta");
    let prepare = Prepare::new("/src", Vec::new());

    let validate = prepare.validate_manifest(&ws, &tc);
    assert_eq!(validate.binary, Binary::ManagedByRustwide("cargo".to_string()));
    assert_eq!(
        validate.args,
        vec!["+beta", "metadata", "--manifest-path", "Cargo.toml", "--no-deps"]
    );
    assert_eq!(validate.cd.as_deref(), Some("/src"));
    assert!(!validate.log_output);

    let lock = prepare.capture_lockfile(&ws, &tc, false).unwrap();
    assert_eq!(
        lock.args,
        vec![
            "+beta",
            "generate-lockfile",
            "--manifest-path",
            "Cargo.toml",
            "-Zno-index-update"
        ]
    );
    assert_eq!(
        lock.env,
        vec![(
            "__CARGO_TEST_CHANNEL_OVERRIDE_DO_NOT_USE_THIS".to_string(),
            "nightly".to_string()
        )]
    );
    assert!(prepare.capture_lockfile(&ws, &tc, true).is_none());

    let fetch = prepare.fetch_deps(&ws, &tc);
    assert_eq!(fetch.args, vec!["+beta", "fetch", "--manifest-path", "Cargo.toml"]);
}

#[test]
fn build_std_targets() {
    assert!(build_std_fetch_args(&Vec::new()).is_empty());
    let args = build_std_fetch_args(&vec![
        "x86_64-unknown-linux-gnu".to_string(),
        "aarch64-unknown-linux-gnu".to_string(),
    ]);
    assert_eq!(
        args,
        vec![
            "-Zbuild-std",
            "--target",
            "x86_64-unknown-linux-gnu",
            "--target",
            "aarch64-unknown-linux-gnu",
        ]
    );
}
