use rustwide::cmd::Binary;
use rustwide::cmd::Command;
use rustwide::native::executable_mode_for;
use rustwide::native::is_executable;
use rustwide::native::make_executable;
use rustwide::native::path_ends_in_exe;
use rustwide::native::CurrentUser;
use rustwide::text::join;
use rustwide::text::replace_all;
use rustwide::text::u64_to_string;
use rustwide::tools::check_installed_after;
use rustwide::tools::install;
use rustwide::tools::BinaryCrate;
use rustwide::tools::Rustup;
use rustwide::tools::ToolAction;
use rustwide::workspace::Workspace;

fn workspace() -> Workspace {
    Workspace {
        root: "/work".to_string(),
        user_agent: "rustwide-tests".to_string(),
        default_command_timeout: None,
        default_no_output_timeout: None,
        sandbox_image_name: "build-image".to_string(),
        rustup_profile: "minimal".to_string(),
        fetch_registry_index_during_builds: false,
        current_container_mounts: None,
    }
}

#[test]
fn present_tools_update_missing_tools_install() {
    assert_eq!(install(true), ToolAction::Update);
    assert_eq!(install(false), ToolAction::Install);
    assert!(check_installed_after("git-credential-null", true).is_ok());
    assert_eq!(
        check_installed_after("git-credential-null", false).unwrap_err(),
        "tool git-credential-null is still missing after install"
    );
}

#[test]
fn binary_crate_installation() {
    let ws = workspace();
    let tool = BinaryCrate {
        crate_name: "git-credential-null".to_string(),
        binary: "git-credential-null".to_string(),
        cargo_subcommand: None,
    };
    assert_eq!(tool.binary_path(&ws), "/work/cargo-home/bin/git-credential-null");
    assert_eq!(
        tool.name(),
        Binary::ManagedByRustwide("git-credential-null".to_string())
    );
    assert!(tool.prepare_command_args().is_empty());

    let cmd = tool.install(&ws, false);
    assert_eq!(cmd.args, vec!["+stable", "install", "git-credential-null"]);
    assert!(cmd.timeout.is_none());
    let cmd = tool.update(&ws, true);
    assert_eq!(cmd.args, vec!["+stable", "install", "git-credential-null", "--debug"]);

    let sub = BinaryCrate {
        crate_name: "cargo-audit".to_string(),
        binary: "cargo-audit".to_string(),
        cargo_subcommand: Some("audit".to_string()),
    };
    assert_eq!(sub.name(), Binary::ManagedByRustwide("cargo".to_string()));
    assert_eq!(sub.prepare_command_args(), vec!["audit"]);
    assert!(!tool.is_installed(true, false));
    assert!(tool.is_installed(true, true));
}

#[test]
fn rustup_bootstrap() {
    let ws = workspace();
    let rustup = Rustup;
    assert_eq!(
        rustup.install_url("x86_64-unknown-linux-gnu"),
        "https://static.rust-lang.org/rustup/archive/1.27.1/x86_64-unknown-linux-gnu/rustup-init"
    );
    let cmd = rustup.install(&ws, "/tmp/rustup-init");
    assert_eq!(cmd.binary, Binary::Global("/tmp/rustup-init".to_string()));
    assert_eq!(
        cmd.args,
        vec!["-y", "--no-modify-path", "--default-toolchain", "stable", "--profile", "minimal"]
    );
    assert_eq!(
        cmd.env,
        vec![
            ("RUSTUP_HOME".to_string(), "/work/rustup-home".to_string()),
            ("CARGO_HOME".to_string(), "/work/cargo-home".to_string()),
        ]
    );
    let cmd = rustup.update(&ws);
    assert_eq!(cmd.args, vec!["update", "stable", "--no-self-update"]);
}

#[test]
fn test_executables() {
    let user = CurrentUser { user_id: 1000, group_id: 1000 };
    // Owned by the user: the owner bits; owned by the group: the group
    // bits; anything else: the other bits.
    assert_eq!(executable_mode_for(1000, 1000, &user), 0o500);
    assert_eq!(executable_mode_for(0, 1000, &user), 0o050);
    assert_eq!(executable_mode_for(0, 0, &user), 0o005);

    // A fresh file is not executable; setting the bits makes it so.
    let mode = 0o644;
    let expected = executable_mode_for(1000, 1000, &user);
    assert!(!is_executable(mode, expected));
    let mode = make_executable(mode, expected);
    assert!(is_executable(mode, expected));

    assert!(path_ends_in_exe("C:/tools/rustup-init.exe"));
    assert!(!path_ends_in_exe("/usr/bin/rustup-init"));
}

#[test]
fn managed_binaries_resolve_in_the_cargo_home() {
    let ws = workspace();
    let cmd = Command::new(&ws, Binary::ManagedByRustwide("cargo".to_string()));
    let (program, env) = cmd.resolve_binary();
    assert_eq!(program, "/work/cargo-home/bin/cargo");
    assert_eq!(
        env,
        vec![
            ("CARGO_HOME".to_string(), "/work/cargo-home".to_string()),
            ("RUSTUP_HOME".to_string(), "/work/rustup-home".to_string()),
        ]
    );
    let cmd = Command::new(&ws, Binary::Global("git".to_string()));
    let (program, env) = cmd.resolve_binary();
    assert_eq!(program, "git");
    assert!(env.is_empty());
}

#[test]
fn text_primitives() {
    assert_eq!(u64_to_string(0), "0");
    assert_eq!(u64_to_string(90210), "90210");
    assert_eq!(join(&vec!["a".to_string(), "b".to_string()], "\n"), "a\nb");
    assert_eq!(join(&Vec::new(), "\n"), "");
    assert_eq!(replace_all("a-{x}-b-{x}", "{x}", "1"), "a-1-b-1");
    assert_eq!(replace_all("none here", "{x}", "1"), "none here");
}
