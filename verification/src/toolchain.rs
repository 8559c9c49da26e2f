//! The toolchain model: dist toolchains named for rustup and CI builds named
//! by a commit hash, the rustup invocations that manage them, and the
//! classification of what is installed. Running rustup happens outside the
//! library; every invocation is built and checked here.

use vstd::prelude::*;
use vstd::string::*;
use crate::cmd::Binary;
use crate::cmd::Command;
use crate::text;
use crate::workspace::Workspace;

verus! {

/// An error from a toolchain operation.
#[derive(Debug, PartialEq)]
pub enum ToolchainError {
    /// The toolchain is not installed in the workspace, but the operation
    /// requires it.
    NotInstalled,
    /// The operation is not supported on this kind of toolchain.
    UnsupportedOperation,
}

/// A dist toolchain: a name rustup recognizes, such as `stable` or a
/// version number.
#[derive(Debug, PartialEq, Eq, Hash, Clone)]
pub struct DistToolchain {
    /// The rustup name of the toolchain.
    pub name: String,
}

impl DistToolchain {
    /// The name of this toolchain.
    pub fn name(&self) -> (r: &str)
        ensures
            r@ == self.name@,
    {
        self.name.as_str()
    }
}

/// A CI toolchain: a build of a merge commit, normal or "alt".
#[derive(Debug, PartialEq, Eq, Hash, Clone)]
pub struct CiToolchain {
    /// The hash of the merge commit that produced the build.
    pub sha: String,
    /// Whether this is an alternate build with extra assertions.
    pub alt: bool,
}

impl CiToolchain {
    /// The hash of the commit that produced this toolchain.
    pub fn sha(&self) -> (r: &str)
        ensures
            r@ == self.sha@,
    {
        self.sha.as_str()
    }

    /// Whether this is an alternate build.
    pub fn is_alt(&self) -> (r: bool)
        ensures
            r == self.alt,
    {
        self.alt
    }
}

/// The two kinds of toolchain.
#[derive(Debug, PartialEq, Eq, Hash, Clone)]
pub enum ToolchainInner {
    /// A toolchain distributed through rustup.
    Dist(DistToolchain),
    /// A build from CI artifacts.
    CI(CiToolchain),
}

/// A Rust compiler toolchain, either a dist toolchain or a CI build.
#[derive(Debug, PartialEq, Eq, Hash, Clone)]
pub struct Toolchain {
    /// Which kind of toolchain this is, with its identity.
    pub inner: ToolchainInner,
}

/// The name rustup knows the toolchain by: the dist name, or the commit
/// hash with `-alt` appended for alternate builds.
pub open spec fn rustup_name_spec(t: Toolchain) -> Seq<char> {
    match t.inner {
        ToolchainInner::Dist(d) => d.name@,
        ToolchainInner::CI(c) => if c.alt {
            c.sha@ + "-alt"@
        } else {
            c.sha@
        },
    }
}

impl Toolchain {
    /// The dist toolchain with the given rustup name.
    pub fn dist(name: &str) -> (r: Self)
        ensures
            r.inner matches ToolchainInner::Dist(d) && d.name@ == name@,
    {
        Toolchain { inner: ToolchainInner::Dist(DistToolchain { name: name.to_owned() }) }
    }

    /// The CI toolchain for the given commit hash.
    pub fn ci(sha: &str, alt: bool) -> (r: Self)
        ensures
            r.inner matches ToolchainInner::CI(c) && c.sha@ == sha@ && c.alt == alt,
    {
        Toolchain { inner: ToolchainInner::CI(CiToolchain { sha: sha.to_owned(), alt }) }
    }

    /// The toolchain the library itself needs for installing tools.
    pub fn main_toolchain() -> (r: Self)
        ensures
            r.inner matches ToolchainInner::Dist(d) && d.name@ == "stable"@,
    {
        Toolchain::dist("stable")
    }

    /// Whether this toolchain is the one the library itself needs: a dist
    /// toolchain whose name starts with the main channel.
    pub fn is_needed_by_rustwide(&self) -> (r: bool)
        ensures
            r == (match self.inner {
                ToolchainInner::Dist(d) => text::starts_with_spec(d.name@, "stable"@),
                ToolchainInner::CI(_) => false,
            }),
    {
        match &self.inner {
            ToolchainInner::Dist(d) => text::starts_with(d.name.as_str(), "stable"),
            ToolchainInner::CI(_) => false,
        }
    }

    /// This toolchain's dist metadata, when it is a dist toolchain.
    pub fn as_dist(&self) -> (r: Option<&DistToolchain>)
        ensures
            match r {
                Some(d) => self.inner == ToolchainInner::Dist(*d),
                None => self.inner is CI,
            },
    {
        match &self.inner {
            ToolchainInner::Dist(d) => Some(d),
            ToolchainInner::CI(_) => None,
        }
    }

    /// This toolchain's CI metadata, when it is a CI build.
    pub fn as_ci(&self) -> (r: Option<&CiToolchain>)
        ensures
            match r {
                Some(c) => self.inner == ToolchainInner::CI(*c),
                None => self.inner is Dist,
            },
    {
        match &self.inner {
            ToolchainInner::Dist(_) => None,
            ToolchainInner::CI(c) => Some(c),
        }
    }

    /// The name rustup knows this toolchain by.
    pub fn rustup_name(&self) -> (r: String)
        ensures
            r@ == rustup_name_spec(*self),
    {
        match &self.inner {
            ToolchainInner::Dist(d) => d.name.clone(),
            ToolchainInner::CI(c) => {
                if c.alt {
                    text::concat2(c.sha.as_str(), "-alt")
                } else {
                    c.sha.clone()
                }
            },
        }
    }

    /// The command that installs this toolchain: `rustup toolchain install`
    /// with the workspace's profile for a dist toolchain, and the CI
    /// installer with the commit hash — and `--alt` for alternate builds —
    /// for a CI build.
    pub fn install(&self, workspace: &Workspace) -> (r: Command)
        ensures
            match self.inner {
                ToolchainInner::Dist(d) => (r.binary matches Binary::ManagedByRustwide(b)
                    && b@ == "rustup"@) && text::strs(r.args@) =~= seq![
                    "toolchain"@,
                    "install"@,
                    d.name@,
                    "--profile"@,
                    workspace.rustup_profile@,
                ],
                ToolchainInner::CI(c) => (r.binary matches Binary::ManagedByRustwide(b)
                    && b@ == "rustup-toolchain-install-master"@) && text::strs(r.args@) =~= (
                if c.alt {
                    seq![c.sha@, "-c"@, "cargo"@, "--alt"@]
                } else {
                    seq![c.sha@, "-c"@, "cargo"@]
                }),
            },
    {
        match &self.inner {
            ToolchainInner::Dist(d) => {
                let mut args: Vec<String> = Vec::new();
                args.push("toolchain".to_owned());
                args.push("install".to_owned());
                args.push(d.name.clone());
                args.push("--profile".to_owned());
                args.push(workspace.rustup_profile.clone());
                Command::new(workspace, Binary::ManagedByRustwide("rustup".to_owned())).args(args)
            },
            ToolchainInner::CI(c) => {
                let mut args: Vec<String> = Vec::new();
                args.push(c.sha.clone());
                args.push("-c".to_owned());
                args.push("cargo".to_owned());
                if c.alt {
                    args.push("--alt".to_owned());
                }
                Command::new(
                    workspace,
                    Binary::ManagedByRustwide("rustup-toolchain-install-master".to_owned()),
                ).args(args)
            },
        }
    }

    /// The command that uninstalls this toolchain from the workspace.
    pub fn uninstall(&self, workspace: &Workspace) -> (r: Command)
        ensures
            (r.binary matches Binary::ManagedByRustwide(b) && b@ == "rustup"@),
            text::strs(r.args@) =~= seq!["toolchain"@, "uninstall"@, rustup_name_spec(*self)],
    {
        let mut args: Vec<String> = Vec::new();
        args.push("toolchain".to_owned());
        args.push("uninstall".to_owned());
        args.push(self.rustup_name());
        Command::new(workspace, Binary::ManagedByRustwide("rustup".to_owned())).args(args)
    }

    /// The command that changes one rustup-managed thing: `rustup
    /// <component|target> <add|remove> --toolchain <name> <thing>`. CI
    /// toolchains do not support this.
    fn change_rustup_thing(
        &self,
        workspace: &Workspace,
        thing: &str,
        action: &str,
        name: &str,
    ) -> (r: Result<Command, ToolchainError>)
        ensures
            match r {
                Ok(cmd) => self.inner is Dist && (cmd.binary matches Binary::ManagedByRustwide(b)
                    && b@ == "rustup"@) && text::strs(cmd.args@) =~= seq![
                    thing@,
                    action@,
                    "--toolchain"@,
                    rustup_name_spec(*self),
                    name@,
                ],
                Err(e) => self.inner is CI && e == ToolchainError::UnsupportedOperation,
            },
    {
        match &self.inner {
            ToolchainInner::CI(_) => Err(ToolchainError::UnsupportedOperation),
            ToolchainInner::Dist(_) => {
                let mut args: Vec<String> = Vec::new();
                args.push(thing.to_owned());
                args.push(action.to_owned());
                args.push("--toolchain".to_owned());
                args.push(self.rustup_name());
                args.push(name.to_owned());
                Ok(
                    Command::new(workspace, Binary::ManagedByRustwide("rustup".to_owned())).args(
                        args,
                    ),
                )
            },
        }
    }

    /// The command that installs a component for this toolchain.
    pub fn add_component(&self, workspace: &Workspace, name: &str) -> (r: Result<
        Command,
        ToolchainError,
    >)
        ensures
            match r {
                Ok(cmd) => self.inner is Dist && (cmd.binary matches Binary::ManagedByRustwide(b)
                    && b@ == "rustup"@) && text::strs(cmd.args@) =~= seq![
                    "component"@,
                    "add"@,
                    "--toolchain"@,
                    rustup_name_spec(*self),
                    name@,
                ],
                Err(e) => self.inner is CI && e == ToolchainError::UnsupportedOperation,
            },
    {
        self.change_rustup_thing(workspace, "component", "add", name)
    }

    /// The command that removes a component of this toolchain.
    pub fn remove_component(&self, workspace: &Workspace, name: &str) -> (r: Result<
        Command,
        ToolchainError,
    >)
        ensures
            match r {
                Ok(cmd) => self.inner is Dist && (cmd.binary matches Binary::ManagedByRustwide(b)
                    && b@ == "rustup"@) && text::strs(cmd.args@) =~= seq![
                    "component"@,
                    "remove"@,
                    "--toolchain"@,
                    rustup_name_spec(*self),
                    name@,
                ],
                Err(e) => self.inner is CI && e == ToolchainError::UnsupportedOperation,
            },
    {
        self.change_rustup_thing(workspace, "component", "remove", name)
    }

    /// The command that installs a target for this toolchain; not supported
    /// on CI toolchains.
    pub fn add_target(&self, workspace: &Workspace, name: &str) -> (r: Result<
        Command,
        ToolchainError,
    >)
        ensures
            match r {
                Ok(cmd) => self.inner is Dist && (cmd.binary matches Binary::ManagedByRustwide(b)
                    && b@ == "rustup"@) && text::strs(cmd.args@) =~= seq![
                    "target"@,
                    "add"@,
                    "--toolchain"@,
                    rustup_name_spec(*self),
                    name@,
                ],
                Err(e) => self.inner is CI && e == ToolchainError::UnsupportedOperation,
            },
    {
        self.change_rustup_thing(workspace, "target", "add", name)
    }

    /// The command that removes a target of this toolchain; not supported
    /// on CI toolchains.
    pub fn remove_target(&self, workspace: &Workspace, name: &str) -> (r: Result<
        Command,
        ToolchainError,
    >)
        ensures
            match r {
                Ok(cmd) => self.inner is Dist && (cmd.binary matches Binary::ManagedByRustwide(b)
                    && b@ == "rustup"@) && text::strs(cmd.args@) =~= seq![
                    "target"@,
                    "remove"@,
                    "--toolchain"@,
                    rustup_name_spec(*self),
                    name@,
                ],
                Err(e) => self.inner is CI && e == ToolchainError::UnsupportedOperation,
            },
    {
        self.change_rustup_thing(workspace, "target", "remove", name)
    }

    /// The command that lists the installed targets of this toolchain; only
    /// dist toolchains support listing.
    pub fn installed_targets_command(&self, workspace: &Workspace) -> (r: Result<
        Command,
        ToolchainError,
    >)
        ensures
            match r {
                Ok(cmd) => self.inner is Dist && (cmd.binary matches Binary::ManagedByRustwide(b)
                    && b@ == "rustup"@) && text::strs(cmd.args@) =~= seq![
                    "target"@,
                    "list"@,
                    "--installed"@,
                    "--toolchain"@,
                    rustup_name_spec(*self),
                ],
                Err(e) => self.inner is CI && e == ToolchainError::UnsupportedOperation,
            },
    {
        match &self.inner {
            ToolchainInner::CI(_) => Err(ToolchainError::UnsupportedOperation),
            ToolchainInner::Dist(d) => {
                let mut args: Vec<String> = Vec::new();
                args.push("target".to_owned());
                args.push("list".to_owned());
                args.push("--installed".to_owned());
                args.push("--toolchain".to_owned());
                args.push(d.name.clone());
                Ok(
                    Command::new(workspace, Binary::ManagedByRustwide("rustup".to_owned())).args(
                        args,
                    ),
                )
            },
        }
    }

    /// Classify the listing's outcome: the nonempty lines on success,
    /// `NotInstalled` when the failure printed the not-installed
    /// diagnostic, and nothing otherwise — the underlying failure then
    /// stands.
    pub fn installed_targets(
        &self,
        run_succeeded: bool,
        not_installed_seen: bool,
        stdout_lines: &Vec<String>,
    ) -> (r: Result<Vec<String>, Option<ToolchainError>>)
        ensures
            run_succeeded ==> (r matches Ok(v) && text::strs(v@) == nonempty_lines(
                text::strs(stdout_lines@),
            )),
            !run_succeeded && not_installed_seen ==> r == Err::<Vec<String>, _>(
                Some(ToolchainError::NotInstalled),
            ),
            !run_succeeded && !not_installed_seen ==> r == Err::<Vec<String>, _>(
                None::<ToolchainError>,
            ),
    {
        if run_succeeded {
            let mut out: Vec<String> = Vec::new();
            let mut i: usize = 0;
            proof {
                assert(text::strs(stdout_lines@).subrange(0, 0)
                    =~= Seq::<Seq<char>>::empty());
                assert(text::strs(out@) =~= nonempty_lines(text::strs(stdout_lines@).subrange(0, 0)));
            }
            while i < stdout_lines.len()
                invariant
                    0 <= i <= stdout_lines@.len(),
                    text::strs(out@) == nonempty_lines(text::strs(stdout_lines@).subrange(0, i as int)),
                decreases stdout_lines@.len() - i,
            {
                let line = vstd::std_specs::vec::vec_index(stdout_lines, i);
                let ghost before = out@;
                if !line.as_str().is_empty() {
                    out.push(line.clone());
                }
                proof {
                    let all = text::strs(stdout_lines@);
                    lemma_nonempty_lines_snoc(all.subrange(0, i as int), all[i as int]);
                    assert(all.subrange(0, i + 1) =~= all.subrange(0, i as int).push(all[i as int]));
                    if line@.len() > 0 {
                        assert(text::strs(out@) =~= text::strs(before).push(all[i as int]));
                    }
                }
                i += 1;
            }
            proof {
                assert(text::strs(stdout_lines@).subrange(0, stdout_lines@.len() as int)
                    =~= text::strs(stdout_lines@));
            }
            Ok(out)
        } else if not_installed_seen {
            Err(Some(ToolchainError::NotInstalled))
        } else {
            Err(None)
        }
    }

    /// The rustup-proxied `cargo` of this toolchain.
    pub fn cargo(&self) -> (r: RustupProxy)
        ensures
            r.binary@ == "cargo"@,
            r.toolchain_arg@ == "+"@ + rustup_name_spec(*self),
    {
        self.rustup_binary("cargo")
    }

    /// The rustup-proxied `rustc` of this toolchain.
    pub fn rustc(&self) -> (r: RustupProxy)
        ensures
            r.binary@ == "rustc"@,
            r.toolchain_arg@ == "+"@ + rustup_name_spec(*self),
    {
        self.rustup_binary("rustc")
    }

    /// A rustup-proxied binary of this toolchain: rustup's proxy selects
    /// the toolchain from the leading `+name` argument.
    pub fn rustup_binary(&self, name: &str) -> (r: RustupProxy)
        ensures
            r.binary@ == name@,
            r.toolchain_arg@ == "+"@ + rustup_name_spec(*self),
    {
        let rn = self.rustup_name();
        let arg = text::concat2("+", rn.as_str());
        RustupProxy { binary: name.to_owned(), toolchain_arg: arg }
    }
}

/// Whether a listing line is the rustup diagnostic for a toolchain that is
/// not installed.
pub open spec fn not_installed_diag(line: Seq<char>) -> bool {
    text::starts_with_spec(line, "error: toolchain "@) && text::ends_with_spec(
        line,
        " is not installed"@,
    )
}

/// Recognize the rustup diagnostic for a toolchain that is not installed.
pub fn is_not_installed_diag(line: &str) -> (r: bool)
    ensures
        r == not_installed_diag(line@),
{
    text::starts_with(line, "error: toolchain ") && text::ends_with(line, " is not installed")
}

/// The nonempty lines, in order.
pub open spec fn nonempty_lines(lines: Seq<Seq<char>>) -> Seq<Seq<char>>
    decreases lines.len(),
{
    if lines.len() == 0 {
        lines
    } else if lines[0].len() > 0 {
        seq![lines[0]] + nonempty_lines(lines.subrange(1, lines.len() as int))
    } else {
        nonempty_lines(lines.subrange(1, lines.len() as int))
    }
}

/// Appending a line appends it to the nonempty lines exactly when it is
/// nonempty.
proof fn lemma_nonempty_lines_snoc(lines: Seq<Seq<char>>, line: Seq<char>)
    ensures
        nonempty_lines(lines.push(line)) == (if line.len() > 0 {
            nonempty_lines(lines).push(line)
        } else {
            nonempty_lines(lines)
        }),
    decreases lines.len(),
{
    let lp = lines.push(line);
    if lines.len() == 0 {
        assert(lp[0] == line);
        assert(lp.subrange(1, lp.len() as int) =~= Seq::<Seq<char>>::empty());
        assert(nonempty_lines(lp.subrange(1, lp.len() as int)) =~= Seq::<Seq<char>>::empty());
        if line.len() > 0 {
            assert(nonempty_lines(lp) == seq![line] + nonempty_lines(
                lp.subrange(1, lp.len() as int),
            ));
            assert(nonempty_lines(lp) =~= nonempty_lines(lines).push(line));
        } else {
            assert(nonempty_lines(lp) =~= nonempty_lines(lines));
        }
    } else {
        assert(lp[0] == lines[0]);
        assert(lp.subrange(1, lp.len() as int) =~= lines.subrange(1, lines.len() as int).push(line));
        lemma_nonempty_lines_snoc(lines.subrange(1, lines.len() as int), line);
        if line.len() > 0 {
            assert(nonempty_lines(lp) =~= nonempty_lines(lines).push(line));
        } else {
            assert(nonempty_lines(lp) =~= nonempty_lines(lines));
        }
    }
}

/// A rustup-proxied binary bound to a toolchain: the binary name resolved
/// in the cargo home, and the `+name` argument that selects the toolchain.
#[derive(Debug, PartialEq, Clone)]
pub struct RustupProxy {
    /// The binary name, resolved in the workspace's cargo home.
    pub binary: String,
    /// The leading argument selecting the toolchain.
    pub toolchain_arg: String,
}

/// One entry of the rustup home's toolchain directory, with the facts the
/// classification reads: its name, whether it is a symlink, and whether a
/// matching update-hash file exists.
#[derive(Debug, PartialEq, Clone)]
pub struct ToolchainDirEntry {
    /// The directory entry's name.
    pub name: String,
    /// Whether the entry is a symbolic link.
    pub is_symlink: bool,
    /// Whether `update-hashes/<name>` exists.
    pub has_update_hash: bool,
}

/// How one directory entry is classified: a toolchain installed by rustup
/// has an update-hash file and a linked one is a symlink — both are dist
/// toolchains; anything else is a CI build, with a trailing `-alt` marking
/// the alternate kind.
pub open spec fn classified(t: Toolchain, e: ToolchainDirEntry) -> bool {
    if e.is_symlink || e.has_update_hash {
        t.inner matches ToolchainInner::Dist(d) && d.name@ == e.name@
    } else if text::ends_with_spec(e.name@, "-alt"@) {
        t.inner matches ToolchainInner::CI(c) && c.sha@ == e.name@.subrange(
            0,
            e.name@.len() - 4,
        ) && c.alt
    } else {
        t.inner matches ToolchainInner::CI(c) && c.sha@ == e.name@ && !c.alt
    }
}

/// Classify the entries of the rustup home's toolchain directory into the
/// installed toolchains, in order.
pub fn list_installed_toolchains(entries: &Vec<ToolchainDirEntry>) -> (r: Vec<Toolchain>)
    ensures
        r@.len() == entries@.len(),
        forall|i: int| 0 <= i < entries@.len() ==> classified(#[trigger] r@[i], entries@[i]),
{
    let mut out: Vec<Toolchain> = Vec::new();
    let mut i: usize = 0;
    while i < entries.len()
        invariant
            0 <= i <= entries@.len(),
            out@.len() == i,
            forall|j: int| 0 <= j < i ==> classified(#[trigger] out@[j], entries@[j]),
        decreases entries@.len() - i,
    {
        let e = vstd::std_specs::vec::vec_index(entries, i);
        let t: Toolchain = if e.is_symlink || e.has_update_hash {
            Toolchain::dist(e.name.as_str())
        } else if text::ends_with(e.name.as_str(), "-alt") {
            let n = e.name.as_str().unicode_len();
            proof {
                reveal_strlit("-alt");
            }
            let sha = e.name.as_str().substring_char(0, n - 4);
            Toolchain::ci(sha, true)
        } else {
            Toolchain::ci(e.name.as_str(), false)
        };
        out.push(t);
        i += 1;
    }
    out
}

} // verus!
