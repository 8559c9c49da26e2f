//! Tools installed from crates: where their binary lives in the cargo
//! home, how they are invoked, and the `cargo install` that installs them.

use vstd::prelude::*;
use vstd::string::*;
use crate::cmd::Binary;
use crate::cmd::Command;
use crate::text;
use crate::toolchain::Toolchain;
use crate::workspace::Workspace;

verus! {

/// A tool installed with `cargo install`.
pub struct BinaryCrate {
    /// The crate that provides the tool.
    pub crate_name: String,
    /// The binary the tool runs as.
    pub binary: String,
    /// The cargo subcommand the binary serves, when it is one.
    pub cargo_subcommand: Option<String>,
}

impl BinaryCrate {
    /// Where the tool's binary lives: under `bin/` in the cargo home.
    pub fn binary_path(&self, workspace: &Workspace) -> (r: String)
        ensures
            r@ == workspace.root@ + "/cargo-home"@ + "/bin/"@ + self.binary@,
    {
        let mut p = workspace.cargo_home();
        p.append("/bin/");
        p.append(self.binary.as_str());
        p
    }

    /// The binary the tool is invoked as: `cargo` for a subcommand, the
    /// tool's own binary otherwise, managed in the workspace.
    pub fn name(&self) -> (r: Binary)
        ensures
            match self.cargo_subcommand {
                Some(_) => r matches Binary::ManagedByRustwide(b) && b@ == "cargo"@,
                None => r matches Binary::ManagedByRustwide(b) && b@ == self.binary@,
            },
    {
        match &self.cargo_subcommand {
            Some(_) => Binary::ManagedByRustwide("cargo".to_owned()),
            None => Binary::ManagedByRustwide(self.binary.clone()),
        }
    }

    /// The arguments prepended when the tool is a cargo subcommand.
    pub fn prepare_command_args(&self) -> (r: Vec<String>)
        ensures
            match self.cargo_subcommand {
                Some(sub) => text::strs(r@) =~= seq![sub@],
                None => r@.len() == 0,
            },
    {
        let mut v: Vec<String> = Vec::new();
        match &self.cargo_subcommand {
            Some(sub) => {
                v.push(sub.clone());
            },
            None => {},
        }
        v
    }

    /// Whether the tool is installed: its binary exists and is executable.
    pub fn is_installed(&self, file_exists: bool, executable: bool) -> (r: bool)
        ensures
            r == (file_exists && executable),
    {
        file_exists && executable
    }

    /// The command that installs the tool: `cargo install` with the main
    /// toolchain, unbounded in time, and built quickly in debug mode when a
    /// fast installation is wanted.
    pub fn install(&self, workspace: &Workspace, fast_install: bool) -> (r: Command)
        ensures
            (r.binary matches Binary::ManagedByRustwide(b) && b@ == "cargo"@),
            text::strs(r.args@) =~= (if fast_install {
                seq!["+stable"@, "install"@, self.crate_name@, "--debug"@]
            } else {
                seq!["+stable"@, "install"@, self.crate_name@]
            }),
            r.timeout is None,
    {
        let main = Toolchain::main_toolchain();
        let proxy = main.cargo();
        proof {
            reveal_strlit("+");
            reveal_strlit("stable");
            reveal_strlit("+stable");
            assert(proxy.toolchain_arg@ =~= "+stable"@);
        }
        let mut args: Vec<String> = Vec::new();
        args.push(proxy.toolchain_arg);
        args.push("install".to_owned());
        args.push(self.crate_name.clone());
        if fast_install {
            args.push("--debug".to_owned());
        }
        Command::new(workspace, Binary::ManagedByRustwide(proxy.binary)).args(args).timeout(None)
    }

    /// The command that updates the tool: the same installation, which is
    /// idempotent.
    pub fn update(&self, workspace: &Workspace, fast_install: bool) -> (r: Command)
        ensures
            (r.binary matches Binary::ManagedByRustwide(b) && b@ == "cargo"@),
            text::strs(r.args@) =~= (if fast_install {
                seq!["+stable"@, "install"@, self.crate_name@, "--debug"@]
            } else {
                seq!["+stable"@, "install"@, self.crate_name@]
            }),
            r.timeout is None,
    {
        self.install(workspace, fast_install)
    }
}

} // verus!
