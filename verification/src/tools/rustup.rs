//! Bootstrapping rustup: the pinned installer download URL, the installer
//! invocation that sets the workspace up without touching the user's
//! environment, and the idempotent update of the main toolchain.

use vstd::prelude::*;
use vstd::string::*;
use crate::cmd::Binary;
use crate::cmd::Command;
use crate::text;
use crate::workspace::Workspace;

verus! {

/// The rustup bootstrapper.
pub struct Rustup;

/// The pinned rustup-init version the bootstrapper downloads; newer ones
/// regressed for this use.
pub open spec fn rustup_version() -> Seq<char> {
    "1.27.1"@
}

impl Rustup {
    /// Whether rustup is installed: its binary exists and is executable.
    pub fn is_installed(&self, file_exists: bool, executable: bool) -> (r: bool)
        ensures
            r == (file_exists && executable),
    {
        file_exists && executable
    }

    /// Where the pinned `rustup-init` for the host target is downloaded
    /// from.
    pub fn install_url(&self, host_target: &str) -> (r: String)
        ensures
            r@ == "https://static.rust-lang.org/rustup/archive/"@ + rustup_version() + "/"@
                + host_target@ + "/rustup-init"@,
    {
        proof {
            reveal_strlit("1.27.1");
            reveal_strlit("https://static.rust-lang.org/rustup/archive/");
            reveal_strlit("https://static.rust-lang.org/rustup/archive/1.27.1/");
        }
        let mut u = "https://static.rust-lang.org/rustup/archive/1.27.1/".to_owned();
        proof {
            assert(u@ =~= "https://static.rust-lang.org/rustup/archive/"@ + rustup_version()
                + "/"@) by {
                reveal_strlit("/");
            }
        }
        u.append(host_target);
        u.append("/rustup-init");
        u
    }

    /// The downloaded installer's invocation: install the main toolchain
    /// with the workspace's profile, without touching the caller's paths,
    /// into the workspace's homes.
    pub fn install(&self, workspace: &Workspace, installer_path: &str) -> (r: Command)
        ensures
            (r.binary matches Binary::Global(b) && b@ == installer_path@),
            text::strs(r.args@) =~= seq![
                "-y"@,
                "--no-modify-path"@,
                "--default-toolchain"@,
                "stable"@,
                "--profile"@,
                workspace.rustup_profile@,
            ],
            r.env@.len() == 2,
            r.env@[0].0@ == "RUSTUP_HOME"@ && r.env@[0].1@ == workspace.root@ + "/rustup-home"@,
            r.env@[1].0@ == "CARGO_HOME"@ && r.env@[1].1@ == workspace.root@ + "/cargo-home"@,
    {
        let mut args: Vec<String> = Vec::new();
        args.push("-y".to_owned());
        args.push("--no-modify-path".to_owned());
        args.push("--default-toolchain".to_owned());
        args.push("stable".to_owned());
        args.push("--profile".to_owned());
        args.push(workspace.rustup_profile.clone());
        let rustup_home = workspace.rustup_home();
        let cargo_home = workspace.cargo_home();
        Command::new(workspace, Binary::Global(installer_path.to_owned())).args(args).env(
            "RUSTUP_HOME",
            rustup_home.as_str(),
        ).env("CARGO_HOME", cargo_home.as_str())
    }

    /// The command that updates the main toolchain, without rustup updating
    /// itself.
    pub fn update(&self, workspace: &Workspace) -> (r: Command)
        ensures
            (r.binary matches Binary::ManagedByRustwide(b) && b@ == "rustup"@),
            text::strs(r.args@) =~= seq!["update"@, "stable"@, "--no-self-update"@],
    {
        let mut args: Vec<String> = Vec::new();
        args.push("update".to_owned());
        args.push("stable".to_owned());
        args.push("--no-self-update".to_owned());
        Command::new(workspace, Binary::ManagedByRustwide("rustup".to_owned())).args(args)
    }
}

} // verus!
