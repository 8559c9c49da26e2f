use rustwide::build_dir::Build;
use rustwide::build_dir::BuildDirectory;
use rustwide::cmd::Binary;
use rustwide::cmd::SandboxBuilder;
use rustwide::toolchain::Toolchain;
use rustwide::workspace::Workspace;

fn workspace() -> Workspace {
    Workspace {
        root: "/work".to_string(),
        user_agent: "rustwide-tests".to_string(),
        default_command_timeout: None,
        default_no_output_timeout: None,
        sandbox_image_name: "build-image".to_string(),
        rustup_profile: "minimal".to_string(),
        fetch_registry_index_during_builds: false,
        current_container_mounts: None,
    }
}

#[test]
fn test_build_dir_drop() {
    let ws = workspace();
    let mut build_dir = BuildDirectory::new(&ws, "drop-dir");
    build_dir.purge_on_drop(true);
    let path = build_dir.build_dir();
    // Dropping the directory removes its whole tree.
    assert_eq!(build_dir.drop_plan(), Some(path));

    let mut keep = BuildDirectory::new(&ws, "drop-dir");
    keep.purge_on_drop(false);
    assert_eq!(keep.drop_plan(), None);
}

#[test]
fn build_dir_layout() {
    let ws = workspace();
    let dir = BuildDirectory::new(&ws, "foo");
    assert_eq!(dir.build_dir(), "/work/builds/foo");
    assert_eq!(dir.source_dir(), "/work/builds/foo/source");
    assert_eq!(dir.target_dir(), "/work/builds/foo/target");
    assert_eq!(dir.purge(), "/work/builds/foo");
}

#[test]
fn run_creates_target_and_removes_source() {
    let ws = workspace();
    let dir = BuildDirectory::new(&ws, "foo");
    let plan = dir.run_plan();
    assert_eq!(plan.create_before, "/work/builds/foo/target");
    assert_eq!(plan.remove_on_success, "/work/builds/foo/source");
    assert_ne!(plan.remove_on_success, plan.create_before);
}

#[test]
fn build_commands_mount_the_target() {
    let ws = workspace();
    let dir = BuildDirectory::new(&ws, "foo");
    let build = Build {
        source_dir: dir.source_dir(),
        target_dir: dir.target_dir(),
        toolchain: Toolchain::dist("beta"),
        sandbox: SandboxBuilder::new(),
    };
    let cmd = build.cmd(&ws, SandboxBuilder::new(), Binary::Global("rustfmt".to_string()));
    assert_eq!(cmd.cd.as_deref(), Some("/work/builds/foo/source"));
    assert_eq!(
        cmd.env,
        vec![("CARGO_TARGET_DIR".to_string(), "/opt/rustwide/target".to_string())]
    );
    let sandbox = cmd.sandbox.expect("the command is sandboxed");
    let mount = sandbox.mounts.last().expect("the target is mounted");
    assert_eq!(mount.host_path, "/work/builds/foo/target");
    assert_eq!(mount.sandbox_path, "/opt/rustwide/target");

    let cargo = build.cargo(&ws, SandboxBuilder::new());
    assert_eq!(cargo.args, vec!["+beta"]);
    assert_eq!(cargo.binary, Binary::ManagedByRustwide("cargo".to_string()));
}
