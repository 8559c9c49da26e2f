use rustwide::cmd::sandbox::Container;
use rustwide::cmd::Binary;
use rustwide::cmd::Command;
use rustwide::cmd::sandbox::MountConfig;
use rustwide::cmd::CommandError;
use rustwide::cmd::MountKind;
use rustwide::cmd::SandboxBuilder;
use rustwide::cmd::SandboxImage;
use rustwide::inside_docker::find_probed_container;
use rustwide::inside_docker::CurrentContainer;
use rustwide::inside_docker::Mount;
use rustwide::workspace::Workspace;

fn workspace() -> Workspace {
    Workspace {
        root: "/work".to_string(),
        user_agent: "rustwide-tests".to_string(),
        default_command_timeout: None,
        default_no_output_timeout: None,
        sandbox_image_name: "build-image".to_string(),
        rustup_profile: "minimal".to_string(),
        fetch_registry_index_during_builds: false,
        current_container_mounts: None,
    }
}

#[test]
fn image_over_the_size_limit_is_rejected_before_pulling() {
    // Layers summing to one byte over the limit fail with the summed size,
    // and no pull plan is produced.
    let manifest =
        r#"{"config": {"digest": "sha256:abcd"}, "layers": [{"size": 6}, {"size": 5}]}"#
            .to_string();
    let res = SandboxImage::remote("img:tag", Some(10), Some(&manifest));
    match res {
        Err(CommandError::SandboxImageTooLarge(size)) => assert_eq!(size, 11),
        other => panic!("expected the size rejection, got {:?}", other),
    }
}

#[test]
fn image_within_the_size_limit_is_pinned() {
    let manifest =
        r#"{"config": {"digest": "sha256:abcd"}, "layers": [{"size": 6}, {"size": 5}]}"#
            .to_string();
    let plan = SandboxImage::remote("img:tag", Some(11), Some(&manifest)).unwrap();
    assert_eq!(plan.pull_reference, "img@sha256:abcd");
    assert_eq!(plan.digest.as_deref(), Some("sha256:abcd"));

    let plain = SandboxImage::remote("img:tag", None, None).unwrap();
    assert_eq!(plain.pull_reference, "img:tag");
    assert!(plain.digest.is_none());
}

#[test]
fn unreadable_manifest_is_an_inspection_error() {
    let manifest = "not json".to_string();
    match SandboxImage::remote("img", Some(10), Some(&manifest)) {
        Err(CommandError::InvalidDockerManifestInspectOutput(_)) => {}
        other => panic!("expected the manifest error, got {:?}", other),
    }
}

#[test]
fn missing_local_image_is_reported() {
    let image = SandboxImage::local("img");
    assert_eq!(image.name, "img");
    assert!(image.ensure_exists_locally(Ok(())).is_ok());
    match image.ensure_exists_locally(Err(CommandError::IO("no daemon".to_string()))) {
        Err(CommandError::SandboxImageMissing(_)) => {}
        other => panic!("expected the missing-image error, got {:?}", other),
    }
}

#[test]
fn create_invocation() {
    let ws = workspace();
    let builder = SandboxBuilder::new()
        .mount("/src", "/opt/rustwide/workdir", MountKind::ReadOnly)
        .env("SOURCE_DIR", "/opt/rustwide/workdir")
        .workdir("/opt/rustwide/workdir")
        .memory_limit(Some(536870912))
        .cpu_limit(Some(1500))
        .user(1000, 1000)
        .enable_networking(false)
        .cmd(vec!["cargo".to_string(), "build".to_string()]);
    let args = builder.create_args(&ws).unwrap();
    assert_eq!(
        args,
        vec![
            "create",
            "-v",
            "/src:/opt/rustwide/workdir:ro,Z",
            "-e",
            "SOURCE_DIR=/opt/rustwide/workdir",
            "-w",
            "/opt/rustwide/workdir",
            "-m",
            "536870912",
            "--cpus",
            "1.500",
            "--user",
            "1000:1000",
            "--network",
            "none",
            "build-image",
            "cargo",
            "build",
        ]
    );
}

#[test]
fn mounts_are_rebased_inside_a_container() {
    let mut ws = workspace();
    ws.current_container_mounts = Some(vec![Mount {
        source: "/host/data".to_string(),
        destination: "/data".to_string(),
    }]);

    let mc = MountConfig {
        host_path: "/data/builds/x".to_string(),
        sandbox_path: "/opt/rustwide/workdir".to_string(),
        perm: MountKind::ReadWrite,
    };
    assert_eq!(mc.host_path(&ws).unwrap(), "/host/data/builds/x");
    assert_eq!(
        mc.to_volume_arg(&ws).unwrap(),
        "/host/data/builds/x:/opt/rustwide/workdir:rw,Z"
    );

    let outside = MountConfig {
        host_path: "/elsewhere".to_string(),
        sandbox_path: "/opt/rustwide/workdir".to_string(),
        perm: MountKind::ReadOnly,
    };
    match outside.host_path(&ws) {
        Err(CommandError::WorkspaceNotMountedCorrectly) => {}
        other => panic!("expected the not-mounted error, got {:?}", other),
    }
}

#[test]
fn mount_argument_forms() {
    let ws = workspace();
    let mc = MountConfig {
        host_path: "/cache".to_string(),
        sandbox_path: "/opt/rustwide/cargo-home".to_string(),
        perm: MountKind::ReadOnly,
    };
    assert_eq!(
        mc.to_mount_arg(&ws).unwrap(),
        "type=bind,src=/cache,dst=/opt/rustwide/cargo-home,readonly"
    );
}

#[test]
fn container_id_and_oom_flag() {
    let container = Container::from_create_output(&vec!["abc123".to_string()]);
    assert_eq!(container.id, "abc123");

    let inspect = r#"[{"State": {"OOMKilled": true}}]"#;
    assert_eq!(container.inspect_oom(inspect), Ok(true));
    let inspect = r#"[{"State": {"OOMKilled": false}}]"#;
    assert_eq!(container.inspect_oom(inspect), Ok(false));
    match container.inspect_oom("broken") {
        Err(CommandError::InvalidDockerInspectOutput(_)) => {}
        other => panic!("expected the inspect error, got {:?}", other),
    }
}

#[test]
fn sandboxed_commands_mount_the_workspace() {
    let ws = workspace();
    let sandbox = SandboxBuilder::new().memory_limit(Some(1024)).enable_networking(false);
    let cmd = Command::new_sandboxed(&ws, sandbox, Binary::ManagedByRustwide("cargo".to_string()))
        .args(vec!["build".to_string()])
        .env("RUST_LOG", "debug")
        .cd("/work/builds/foo/source");
    let plan = cmd.sandbox_plan(Some((1000, 1000)));

    assert_eq!(plan.cmd, vec!["/opt/rustwide/cargo-home/bin/cargo", "build"]);
    assert_eq!(plan.workdir.as_deref(), Some("/opt/rustwide/workdir"));
    assert_eq!(plan.user.as_deref(), Some("1000:1000"));
    assert_eq!(plan.memory_limit, Some(1024));
    assert!(!plan.enable_networking);
    assert_eq!(
        plan.env,
        vec![
            ("SOURCE_DIR".to_string(), "/opt/rustwide/workdir".to_string()),
            ("RUST_LOG".to_string(), "debug".to_string()),
            ("CARGO_HOME".to_string(), "/opt/rustwide/cargo-home".to_string()),
            ("RUSTUP_HOME".to_string(), "/opt/rustwide/rustup-home".to_string()),
        ]
    );
    assert_eq!(plan.mounts.len(), 3);
    assert_eq!(plan.mounts[0].host_path, "/work/builds/foo/source");
    assert_eq!(plan.mounts[0].sandbox_path, "/opt/rustwide/workdir");
    assert_eq!(plan.mounts[0].perm, MountKind::ReadOnly);
    assert_eq!(plan.mounts[1].host_path, "/work/cargo-home");
    assert_eq!(plan.mounts[1].perm, MountKind::ReadOnly);
    assert_eq!(plan.mounts[2].host_path, "/work/rustup-home");
}

#[test]
fn containers_are_deleted_by_force() {
    let ws = workspace();
    let container = Container::from_create_output(&vec!["abc123".to_string()]);
    let delete = container.delete(&ws);
    assert_eq!(delete.args, vec!["rm", "-f", "abc123"]);
}

#[test]
fn current_container_mount_table() {
    let inspect = r#"[{"Mounts": [
        {"Source": "/host/data", "Destination": "/data", "Mode": "rw"},
        {"Source": "/host/work", "Destination": "/work", "Mode": "ro"}
    ]}]"#;
    let container = CurrentContainer::detect(inspect).expect("the document is readable");
    let mounts = container.mounts();
    assert_eq!(mounts.len(), 2);
    assert_eq!(mounts[0].source(), "/host/data");
    assert_eq!(mounts[0].destination(), "/data");
    assert_eq!(mounts[1].source(), "/host/work");
    assert!(CurrentContainer::detect("broken").is_none());
    assert!(CurrentContainer::detect("[]").is_none());
}

#[test]
fn probe_finds_the_matching_container() {
    let content = "cmFuZG9tLXByb2Jl";
    let candidates = vec![
        ("one".to_string(), None),
        ("two".to_string(), Some(vec!["different".to_string()])),
        ("three".to_string(), Some(vec![content.to_string()])),
    ];
    assert_eq!(
        find_probed_container(&candidates, content),
        Some("three".to_string())
    );
    assert_eq!(find_probed_container(&candidates[..2].to_vec(), content), None);
}
