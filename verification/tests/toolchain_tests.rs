use rustwide::cmd::Binary;
use rustwide::toolchain::list_installed_toolchains;
use rustwide::toolchain::Toolchain;
use rustwide::toolchain::ToolchainDirEntry;
use rustwide::toolchain::ToolchainError;
use rustwide::workspace::Workspace;

fn workspace() -> Workspace {
    Workspace {
        root: "/work".to_string(),
        user_agent: "rustwide-tests".to_string(),
        default_command_timeout: None,
        default_no_output_timeout: None,
        sandbox_image_name: "build-image".to_string(),
        rustup_profile: "minimal".to_string(),
        fetch_registry_index_during_builds: false,
        current_container_mounts: None,
    }
}

#[test]
fn test_list_installed() {
    const DIST_NAME: &str = "stable-x86_64-unknown-linux-gnu";
    const LINK_NAME: &str = "stage1";
    const CI_SHA: &str = "0000000000000000000000000000000000000000";

    let entries = vec![
        // A toolchain installed by rustup has a file under update-hashes.
        ToolchainDirEntry { name: DIST_NAME.to_string(), is_symlink: false, has_update_hash: true },
        // A toolchain linked by rustup is just a symlink.
        ToolchainDirEntry { name: LINK_NAME.to_string(), is_symlink: true, has_update_hash: false },
        // A standard CI toolchain.
        ToolchainDirEntry { name: CI_SHA.to_string(), is_symlink: false, has_update_hash: false },
        // An alt CI toolchain.
        ToolchainDirEntry {
            name: format!("{}-alt", CI_SHA),
            is_symlink: false,
            has_update_hash: false,
        },
    ];

    let res = list_installed_toolchains(&entries);

    assert!(res.contains(&Toolchain::dist(DIST_NAME)));
    assert!(res.contains(&Toolchain::dist(LINK_NAME)));
    assert!(res.contains(&Toolchain::ci(CI_SHA, false)));
    assert!(res.contains(&Toolchain::ci(CI_SHA, true)));
    assert_eq!(res.len(), 4);
}

#[test]
fn needed_by_rustwide() {
    let tc = Toolchain::dist("stable-x86_64-unknown-linux-gnu");
    assert!(tc.is_needed_by_rustwide());
    let tc = Toolchain::dist("nightly-x86_64-unknown-linux-gnu");
    assert!(!tc.is_needed_by_rustwide());
    assert!(!Toolchain::ci("0000000", false).is_needed_by_rustwide());
}

#[test]
fn rustup_names() {
    assert_eq!(Toolchain::dist("beta").rustup_name(), "beta");
    assert_eq!(Toolchain::ci("0000000", false).rustup_name(), "0000000");
    assert_eq!(Toolchain::ci("0000000", true).rustup_name(), "0000000-alt");
}

#[test]
fn dist_and_ci_accessors() {
    let dist = Toolchain::dist("stable");
    assert_eq!(dist.as_dist().unwrap().name(), "stable");
    assert!(dist.as_ci().is_none());

    let ci = Toolchain::ci("0000000", true);
    let meta = ci.as_ci().unwrap();
    assert_eq!(meta.sha(), "0000000");
    assert!(meta.is_alt());
    assert!(ci.as_dist().is_none());
}

#[test]
fn install_and_uninstall_commands() {
    let ws = workspace();
    let dist = Toolchain::dist("beta");
    let cmd = dist.install(&ws);
    assert_eq!(cmd.binary, Binary::ManagedByRustwide("rustup".to_string()));
    assert_eq!(cmd.args, vec!["toolchain", "install", "beta", "--profile", "minimal"]);

    let ci = Toolchain::ci("0000000", true);
    let cmd = ci.install(&ws);
    assert_eq!(
        cmd.binary,
        Binary::ManagedByRustwide("rustup-toolchain-install-master".to_string())
    );
    assert_eq!(cmd.args, vec!["0000000", "-c", "cargo", "--alt"]);

    let cmd = ci.uninstall(&ws);
    assert_eq!(cmd.args, vec!["toolchain", "uninstall", "0000000-alt"]);
}

#[test]
fn component_and_target_commands() {
    let ws = workspace();
    let dist = Toolchain::dist("beta");
    let cmd = dist.add_component(&ws, "rust-src").unwrap();
    assert_eq!(cmd.args, vec!["component", "add", "--toolchain", "beta", "rust-src"]);
    let cmd = dist.remove_target(&ws, "wasm32-unknown-unknown").unwrap();
    assert_eq!(
        cmd.args,
        vec!["target", "remove", "--toolchain", "beta", "wasm32-unknown-unknown"]
    );

    let ci = Toolchain::ci("0000000", false);
    assert_eq!(
        ci.add_target(&ws, "wasm32-unknown-unknown").unwrap_err(),
        ToolchainError::UnsupportedOperation
    );
}

#[test]
fn installed_target_listing() {
    let ws = workspace();
    let dist = Toolchain::dist("beta");
    let cmd = dist.installed_targets_command(&ws).unwrap();
    assert_eq!(cmd.args, vec!["target", "list", "--installed", "--toolchain", "beta"]);

    let lines = vec![
        "x86_64-unknown-linux-gnu".to_string(),
        String::new(),
        "wasm32-unknown-unknown".to_string(),
    ];
    let targets = dist.installed_targets(true, false, &lines).unwrap();
    assert_eq!(targets, vec!["x86_64-unknown-linux-gnu", "wasm32-unknown-unknown"]);

    assert_eq!(
        dist.installed_targets(false, true, &Vec::new()).unwrap_err(),
        Some(ToolchainError::NotInstalled)
    );
    assert_eq!(dist.installed_targets(false, false, &Vec::new()).unwrap_err(), None);
}

#[test]
fn rustup_proxies() {
    let tc = Toolchain::dist("beta");
    let cargo = tc.cargo();
    assert_eq!(cargo.binary, "cargo");
    assert_eq!(cargo.toolchain_arg, "+beta");
    let rustc = tc.rustc();
    assert_eq!(rustc.binary, "rustc");
    let doc = tc.rustup_binary("rustdoc");
    assert_eq!(doc.binary, "rustdoc");
    assert_eq!(doc.toolchain_arg, "+beta");
}
