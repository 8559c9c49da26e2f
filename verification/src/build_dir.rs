//! Build directories: the per-build scratch area inside a workspace, with
//! its recreated `source/` tree and its persistent `target/` directory, and
//! the sandboxed commands a running build issues. Creating and removing the
//! directories happens outside the library; the paths and the cleanup
//! decisions are computed here.

use vstd::prelude::*;
use vstd::string::*;
use crate::cmd::Binary;
use crate::cmd::Command;
use crate::cmd::MountKind;
use crate::cmd::SandboxBuilder;
use crate::text;
use crate::toolchain::Toolchain;
use crate::workspace::Workspace;

verus! {

/// The canonical work directory inside the sandbox.
pub fn container_work_dir() -> (r: &'static str)
    ensures
        r@ == "/opt/rustwide/workdir"@,
{
    "/opt/rustwide/workdir"
}

/// The canonical target directory inside the sandbox.
pub fn container_target_dir() -> (r: &'static str)
    ensures
        r@ == "/opt/rustwide/target"@,
{
    "/opt/rustwide/target"
}

/// A named scratch area inside the workspace: `builds/<name>/` holding
/// `source/` and `target/`.
pub struct BuildDirectory {
    /// The workspace's builds directory.
    pub builds_dir: String,
    /// The build directory's name.
    pub name: String,
    /// Whether the whole directory is removed when the value is dropped.
    pub purge_on_drop: bool,
}

impl BuildDirectory {
    /// The build directory of the given name in the workspace.
    pub fn new(workspace: &Workspace, name: &str) -> (r: Self)
        ensures
            r.builds_dir@ == workspace.root@ + "/builds"@,
            r.name@ == name@,
            !r.purge_on_drop,
    {
        BuildDirectory { builds_dir: workspace.builds_dir(), name: name.to_owned(), purge_on_drop: false }
    }

    /// Enable or disable removing the whole directory on drop.
    pub fn purge_on_drop(&mut self, purge: bool)
        ensures
            final(self).purge_on_drop == purge,
            final(self).builds_dir == old(self).builds_dir,
            final(self).name == old(self).name,
    {
        self.purge_on_drop = purge;
    }

    /// The build directory itself.
    pub fn build_dir(&self) -> (r: String)
        ensures
            r@ == self.builds_dir@ + "/"@ + self.name@,
    {
        text::concat3(self.builds_dir.as_str(), "/", self.name.as_str())
    }

    /// The scratch source tree, recreated on every run.
    pub fn source_dir(&self) -> (r: String)
        ensures
            r@ == self.builds_dir@ + "/"@ + self.name@ + "/source"@,
    {
        let mut p = self.build_dir();
        p.append("/source");
        p
    }

    /// The persistent compiler-artifact directory, shared by the runs in
    /// this build directory.
    pub fn target_dir(&self) -> (r: String)
        ensures
            r@ == self.builds_dir@ + "/"@ + self.name@ + "/target"@,
    {
        let mut p = self.build_dir();
        p.append("/target");
        p
    }

    /// What purging removes: the whole build directory.
    pub fn purge(&self) -> (r: String)
        ensures
            r@ == self.builds_dir@ + "/"@ + self.name@,
    {
        self.build_dir()
    }

    /// What dropping the value removes: the whole directory when purging on
    /// drop was requested, nothing otherwise.
    pub fn drop_plan(&self) -> (r: Option<String>)
        ensures
            self.purge_on_drop ==> (r matches Some(p) && p@ == self.builds_dir@ + "/"@
                + self.name@),
            !self.purge_on_drop ==> r is None,
    {
        if self.purge_on_drop {
            Some(self.build_dir())
        } else {
            None
        }
    }

    /// What a successful run leaves behind: `target/` is created before the
    /// build and kept; `source/` is removed afterwards.
    pub fn run_plan(&self) -> (r: RunPlan)
        ensures
            r.create_before@ == self.builds_dir@ + "/"@ + self.name@ + "/target"@,
            r.remove_on_success@ == self.builds_dir@ + "/"@ + self.name@ + "/source"@,
    {
        RunPlan { create_before: self.target_dir(), remove_on_success: self.source_dir() }
    }
}

/// The directory bookkeeping of one run.
pub struct RunPlan {
    /// Created before the build runs, and kept: the target directory.
    pub create_before: String,
    /// Removed after a successful run: the source directory.
    pub remove_on_success: String,
}

/// A successful run removes the source tree and keeps the target
/// directory: what it removes is never the directory it created.
pub proof fn lemma_run_keeps_target(d: BuildDirectory, r: RunPlan)
    requires
        r.create_before@ == d.builds_dir@ + "/"@ + d.name@ + "/target"@,
        r.remove_on_success@ == d.builds_dir@ + "/"@ + d.name@ + "/source"@,
    ensures
        r.remove_on_success@ != r.create_before@,
{
    reveal_strlit("/target");
    reveal_strlit("/source");
    let base = d.builds_dir@ + "/"@ + d.name@;
    assert(r.create_before@.len() == base.len() + 7);
    assert(r.remove_on_success@.len() == base.len() + 7);
    assert(r.create_before@[base.len() as int + 1] == 't');
    assert(r.remove_on_success@[base.len() as int + 1] == 's');
}

/// A running build: the directories it works in and the sandbox its
/// commands run inside.
pub struct Build {
    /// The host source directory, mounted as the sandbox work directory.
    pub source_dir: String,
    /// The host target directory, mounted writable as the sandbox target.
    pub target_dir: String,
    /// The toolchain the build uses.
    pub toolchain: Toolchain,
    /// The sandbox configuration commands run in.
    pub sandbox: SandboxBuilder,
}

impl Build {
    /// A sandboxed command of this build: it runs in the source directory,
    /// with the target directory mounted writable and named by
    /// `CARGO_TARGET_DIR`.
    pub fn cmd(&self, workspace: &Workspace, sandbox: SandboxBuilder, binary: Binary) -> (r:
        Command)
        ensures
            r.binary == binary,
            r.cd matches Some(d) && d@ == self.source_dir@,
            r.env@.len() == 1,
            r.env@[0].0@ == "CARGO_TARGET_DIR"@,
            r.env@[0].1@ == "/opt/rustwide/target"@,
            r.sandbox matches Some(sb) && sb.mounts@.len() == sandbox.mounts@.len() + 1
                && sb.mounts@[sandbox.mounts@.len() as int].host_path@ == self.target_dir@
                && sb.mounts@[sandbox.mounts@.len() as int].sandbox_path@
                == "/opt/rustwide/target"@
                && sb.mounts@[sandbox.mounts@.len() as int].perm == MountKind::ReadWrite,
    {
        let mounted = sandbox.mount(self.target_dir.as_str(), container_target_dir(), MountKind::ReadWrite);
        Command::new_sandboxed(workspace, mounted, binary).cd(self.source_dir.as_str()).env(
            "CARGO_TARGET_DIR",
            container_target_dir(),
        )
    }

    /// The build's `cargo`, proxied through rustup for its toolchain.
    pub fn cargo(&self, workspace: &Workspace, sandbox: SandboxBuilder) -> (r: Command)
        ensures
            (r.binary matches Binary::ManagedByRustwide(b) && b@ == "cargo"@),
            r.cd matches Some(d) && d@ == self.source_dir@,
    {
        let proxy = self.toolchain.cargo();
        let mut args: Vec<String> = Vec::new();
        args.push(proxy.toolchain_arg);
        let cmd = self.cmd(workspace, sandbox, Binary::ManagedByRustwide(proxy.binary));
        cmd.args(args)
    }

    /// The path to the source code on the host, outside the sandbox.
    pub fn host_source_dir(&self) -> (r: &str)
        ensures
            r@ == self.source_dir@,
    {
        self.source_dir.as_str()
    }

    /// The path to the target directory on the host, outside the sandbox.
    pub fn host_target_dir(&self) -> (r: &str)
        ensures
            r@ == self.target_dir@,
    {
        self.target_dir.as_str()
    }
}

} // verus!
