//! The preparation pipeline: copy the source, remove override files,
//! rewrite the manifest, validate it, generate the lockfile, and fetch the
//! dependencies — with every cargo invocation built here, and every failure
//! classified here by scanning the diagnostic output.

use vstd::prelude::*;
use vstd::string::*;
use crate::cmd::Command;
use crate::cmd::CommandError;
use crate::cmd::Binary;
use crate::cmd::ProcessOutput;
use crate::text;
use crate::toolchain::Toolchain;
use crate::workspace::Workspace;

verus! {

/// An error while preparing a crate for a build.
#[derive(Debug, PartialEq)]
pub enum PrepareError {
    /// The git repository is not publicly available.
    PrivateGitRepository,
    /// The crate has no `Cargo.toml` in its source.
    MissingCargoToml,
    /// The crate's `Cargo.toml` was rejected, by the parser or by cargo.
    InvalidCargoTomlSyntax,
    /// Something about the crate's dependencies is invalid; the captured
    /// standard error is attached.
    BrokenDependencies(String),
    /// The crate depends on yanked dependencies.
    YankedDependencies(String),
    /// The crate depends on dependencies that no longer exist.
    MissingDependencies(String),
    /// Cargo rejected the lock file.
    InvalidCargoLock(String),
}

/// An error from running one preparation command: a classified preparation
/// failure, or the command's own error left as it was.
#[derive(Debug, PartialEq)]
pub enum RunCommandError {
    /// The output classified the failure.
    Prepare(PrepareError),
    /// No classification applied; the command's error stands.
    Command(CommandError),
}

/// The diagnostic of a yanked dependency.
pub open spec fn yanked_diag(line: Seq<char>) -> bool {
    text::contains_spec(line, "failed to select a version for the requirement"@)
}

/// The diagnostic of a missing dependency.
pub open spec fn missing_diag(line: Seq<char>) -> bool {
    text::contains_spec(line, "failed to load source for dependency"@) || text::contains_spec(
        line,
        "no matching package named"@,
    )
}

/// The diagnostic of a broken dependency manifest.
pub open spec fn broken_deps_diag(line: Seq<char>) -> bool {
    text::contains_spec(line, "failed to parse manifest at"@) || text::contains_spec(
        line,
        "error: invalid table header"@,
    )
}

/// The diagnostic of a broken lock file.
pub open spec fn broken_lockfile_diag(line: Seq<char>) -> bool {
    text::contains_spec(line, "error: failed to parse lock file at"@)
}

/// The flags raised while scanning a preparation command's output. These
/// substrings are contracts with cargo's current diagnostic text.
#[derive(Debug, PartialEq, Copy, Clone)]
pub struct OutputFlags {
    /// A yanked-dependency diagnostic was seen.
    pub yanked: bool,
    /// A missing-dependency diagnostic was seen.
    pub missing: bool,
    /// A broken-dependencies diagnostic was seen.
    pub broken_deps: bool,
    /// A broken-lockfile diagnostic was seen.
    pub broken_lockfile: bool,
}

/// Scan one output line, raising the matching flags.
pub fn scan_line(flags: OutputFlags, line: &str) -> (r: OutputFlags)
    ensures
        r.yanked == (flags.yanked || yanked_diag(line@)),
        r.missing == (flags.missing || missing_diag(line@)),
        r.broken_deps == (flags.broken_deps || broken_deps_diag(line@)),
        r.broken_lockfile == (flags.broken_lockfile || broken_lockfile_diag(line@)),
{
    let mut r = flags;
    if text::contains(line, "failed to select a version for the requirement") {
        r.yanked = true;
    }
    if text::contains(line, "failed to load source for dependency") || text::contains(
        line,
        "no matching package named",
    ) {
        r.missing = true;
    }
    if text::contains(line, "failed to parse manifest at") || text::contains(
        line,
        "error: invalid table header",
    ) {
        r.broken_deps = true;
    }
    if text::contains(line, "error: failed to parse lock file at") {
        r.broken_lockfile = true;
    }
    r
}

/// Scan all output lines, raising the matching flags.
pub fn scan_lines(lines: &Vec<String>) -> (r: OutputFlags)
    ensures
        r.yanked == (exists|i: int| 0 <= i < lines@.len() && yanked_diag(#[trigger] lines@[i]@)),
        r.missing == (exists|i: int| 0 <= i < lines@.len() && missing_diag(#[trigger] lines@[i]@)),
        r.broken_deps == (exists|i: int|
            0 <= i < lines@.len() && broken_deps_diag(#[trigger] lines@[i]@)),
        r.broken_lockfile == (exists|i: int|
            0 <= i < lines@.len() && broken_lockfile_diag(#[trigger] lines@[i]@)),
{
    let mut flags = OutputFlags { yanked: false, missing: false, broken_deps: false, broken_lockfile: false };
    let mut i: usize = 0;
    while i < lines.len()
        invariant
            0 <= i <= lines@.len(),
            flags.yanked == (exists|j: int| 0 <= j < i && yanked_diag(#[trigger] lines@[j]@)),
            flags.missing == (exists|j: int| 0 <= j < i && missing_diag(#[trigger] lines@[j]@)),
            flags.broken_deps == (exists|j: int|
                0 <= j < i && broken_deps_diag(#[trigger] lines@[j]@)),
            flags.broken_lockfile == (exists|j: int|
                0 <= j < i && broken_lockfile_diag(#[trigger] lines@[j]@)),
        decreases lines@.len() - i,
    {
        flags = scan_line(flags, vstd::std_specs::vec::vec_index(lines, i).as_str());
        i += 1;
    }
    flags
}

/// The classification the flags give to a nonzero exit, in priority order;
/// nothing when no flag was raised.
pub open spec fn classify_spec(flags: OutputFlags, stderr: Seq<char>, r: Option<PrepareError>) -> bool {
    if flags.yanked {
        r matches Some(PrepareError::YankedDependencies(s)) && s@ == stderr
    } else if flags.missing {
        r matches Some(PrepareError::MissingDependencies(s)) && s@ == stderr
    } else if flags.broken_deps {
        r matches Some(PrepareError::BrokenDependencies(s)) && s@ == stderr
    } else if flags.broken_lockfile {
        r matches Some(PrepareError::InvalidCargoLock(s)) && s@ == stderr
    } else {
        r is None
    }
}

/// Classify a nonzero exit by the raised flags, in priority order.
pub fn classify_failure(flags: OutputFlags, stderr: String) -> (r: Option<PrepareError>)
    ensures
        classify_spec(flags, stderr@, r),
{
    if flags.yanked {
        Some(PrepareError::YankedDependencies(stderr))
    } else if flags.missing {
        Some(PrepareError::MissingDependencies(stderr))
    } else if flags.broken_deps {
        Some(PrepareError::BrokenDependencies(stderr))
    } else if flags.broken_lockfile {
        Some(PrepareError::InvalidCargoLock(stderr))
    } else {
        None
    }
}

/// Settle the outcome of one preparation command: success passes through;
/// a nonzero exit is classified by the flags its output raised, and stays a
/// command failure when no flag matched; any other error stands.
pub fn run_command_outcome(res: Result<ProcessOutput, CommandError>, flags: OutputFlags) -> (r:
    Result<ProcessOutput, RunCommandError>)
    ensures
        match res {
            Ok(out) => r == Ok::<ProcessOutput, RunCommandError>(out),
            Err(e) => match e {
                CommandError::ExecutionFailed { status: _, stderr: captured } => if flags.yanked
                    || flags.missing || flags.broken_deps || flags.broken_lockfile {
                    r matches Err(RunCommandError::Prepare(p)) && classify_spec(
                        flags,
                        captured@,
                        Some(p),
                    )
                } else {
                    r == Err::<ProcessOutput, RunCommandError>(RunCommandError::Command(e))
                },
                _ => r == Err::<ProcessOutput, RunCommandError>(RunCommandError::Command(e)),
            },
        },
{
    match res {
        Ok(out) => Ok(out),
        Err(e) => {
            let is_exec_failed = match &e {
                CommandError::ExecutionFailed { .. } => true,
                _ => false,
            };
            if is_exec_failed && (flags.yanked || flags.missing || flags.broken_deps
                || flags.broken_lockfile) {
                let stderr = match e {
                    CommandError::ExecutionFailed { status: _, stderr } => stderr,
                    _ => {
                        proof {
                            assert(false);
                        }
                        String::new()
                    },
                };
                match classify_failure(flags, stderr) {
                    Some(p) => Err(RunCommandError::Prepare(p)),
                    None => {
                        proof {
                            assert(false);
                        }
                        Err(RunCommandError::Prepare(PrepareError::MissingCargoToml))
                    },
                }
            } else {
                Err(RunCommandError::Command(e))
            }
        },
    }
}

/// The override files removed from a source tree before a build, relative
/// to it: cargo configuration and toolchain pins.
pub fn override_files() -> (r: Vec<String>)
    ensures
        text::strs(r@) =~= seq![
            ".cargo/config"@,
            ".cargo/config.toml"@,
            "rust-toolchain"@,
            "rust-toolchain.toml"@,
        ],
{
    let mut v: Vec<String> = Vec::new();
    v.push(".cargo/config".to_owned());
    v.push(".cargo/config.toml".to_owned());
    v.push("rust-toolchain".to_owned());
    v.push("rust-toolchain.toml".to_owned());
    v
}

/// Decide on the manifest's presence before anything is spawned: a source
/// tree without `Cargo.toml` fails, and no cargo runs for it.
pub fn validate_manifest_precheck(manifest_exists: bool) -> (r: Result<(), PrepareError>)
    ensures
        manifest_exists ==> r is Ok,
        !manifest_exists ==> r == Err::<(), PrepareError>(PrepareError::MissingCargoToml),
{
    if manifest_exists {
        Ok(())
    } else {
        Err(PrepareError::MissingCargoToml)
    }
}

/// Classify the metadata validation: any nonzero exit means the manifest
/// was rejected.
pub fn validate_manifest_outcome(metadata_succeeded: bool) -> (r: Result<(), PrepareError>)
    ensures
        metadata_succeeded ==> r is Ok,
        !metadata_succeeded ==> r == Err::<(), PrepareError>(PrepareError::InvalidCargoTomlSyntax),
{
    if metadata_succeeded {
        Ok(())
    } else {
        Err(PrepareError::InvalidCargoTomlSyntax)
    }
}

/// What to do when fetching the dependencies fails: regenerate the lockfile
/// and retry once when it was not generated in this run, and propagate the
/// failure otherwise.
#[derive(Debug, PartialEq, Copy, Clone)]
pub enum FetchFailureAction {
    /// Regenerate the lockfile and fetch again.
    RegenerateAndRetry,
    /// Report the failure as it stands.
    Propagate,
}

/// Decide how a fetch failure is handled.
pub fn fetch_failure_action(lockfile_just_generated: bool) -> (r: FetchFailureAction)
    ensures
        r == (if lockfile_just_generated {
            FetchFailureAction::Propagate
        } else {
            FetchFailureAction::RegenerateAndRetry
        }),
{
    if lockfile_just_generated {
        FetchFailureAction::Propagate
    } else {
        FetchFailureAction::RegenerateAndRetry
    }
}

/// A retried fetch never asks for a second regeneration: after the one
/// retry the lockfile counts as just generated, and a failure then
/// propagates. Preparation therefore never leaves the lockfile needing
/// regeneration twice in succession.
pub proof fn lemma_fetch_regenerates_at_most_once()
    ensures
        fetch_failure_action_spec(false) == FetchFailureAction::RegenerateAndRetry,
        fetch_failure_action_spec(true) == FetchFailureAction::Propagate,
{
}

/// The fetch-failure policy.
pub open spec fn fetch_failure_action_spec(lockfile_just_generated: bool) -> FetchFailureAction {
    if lockfile_just_generated {
        FetchFailureAction::Propagate
    } else {
        FetchFailureAction::RegenerateAndRetry
    }
}

/// The ordered stages of preparation.
#[derive(Debug, PartialEq, Copy, Clone)]
pub enum PrepareStage {
    /// Copy the package source into the build directory.
    CopySource,
    /// Remove the override files.
    RemoveOverrides,
    /// Rewrite the manifest.
    TweakManifest,
    /// Validate the manifest with cargo metadata.
    ValidateManifest,
    /// Generate the lockfile when none exists.
    CaptureLockfile,
    /// Fetch the dependencies.
    FetchDeps,
}

/// The preparation of one crate: the source directory it is prepared in and
/// the patches injected into its manifest. The pipeline's commands are
/// built here; running them and touching the filesystem happen outside.
pub struct Prepare {
    /// The scratch directory holding the source tree.
    pub source_dir: String,
    /// The patches injected into the manifest.
    pub patches: Vec<crate::manifest::CratePatch>,
}

impl Prepare {
    /// A preparation for the given source directory and patches.
    pub fn new(source_dir: &str, patches: Vec<crate::manifest::CratePatch>) -> (r: Self)
        ensures
            r.source_dir@ == source_dir@,
            r.patches == patches,
    {
        Prepare { source_dir: source_dir.to_owned(), patches }
    }

    /// The stages of preparation, in the order they run; each aborts the
    /// pipeline on failure.
    pub fn prepare(&self) -> (r: Vec<PrepareStage>)
        ensures
            r@ =~= seq![
                PrepareStage::CopySource,
                PrepareStage::RemoveOverrides,
                PrepareStage::TweakManifest,
                PrepareStage::ValidateManifest,
                PrepareStage::CaptureLockfile,
                PrepareStage::FetchDeps,
            ],
    {
        let mut v: Vec<PrepareStage> = Vec::new();
        v.push(PrepareStage::CopySource);
        v.push(PrepareStage::RemoveOverrides);
        v.push(PrepareStage::TweakManifest);
        v.push(PrepareStage::ValidateManifest);
        v.push(PrepareStage::CaptureLockfile);
        v.push(PrepareStage::FetchDeps);
        v
    }

    /// The override files to remove, as full paths under the source
    /// directory.
    pub fn remove_override_files(&self) -> (r: Vec<String>)
        ensures
            text::strs(r@) =~= seq![
                self.source_dir@ + "/.cargo/config"@,
                self.source_dir@ + "/.cargo/config.toml"@,
                self.source_dir@ + "/rust-toolchain"@,
                self.source_dir@ + "/rust-toolchain.toml"@,
            ],
    {
        let mut v: Vec<String> = Vec::new();
        v.push(text::concat2(self.source_dir.as_str(), "/.cargo/config"));
        v.push(text::concat2(self.source_dir.as_str(), "/.cargo/config.toml"));
        v.push(text::concat2(self.source_dir.as_str(), "/rust-toolchain"));
        v.push(text::concat2(self.source_dir.as_str(), "/rust-toolchain.toml"));
        v
    }

    /// The command that validates the manifest: `cargo metadata` on the
    /// source directory, without output logging.
    pub fn validate_manifest(&self, workspace: &Workspace, toolchain: &Toolchain) -> (r: Command)
        ensures
            (r.binary matches Binary::ManagedByRustwide(b) && b@ == "cargo"@),
            text::strs(r.args@) =~= seq![
                "+"@ + crate::toolchain::rustup_name_spec(*toolchain),
                "metadata"@,
                "--manifest-path"@,
                "Cargo.toml"@,
                "--no-deps"@,
            ],
            r.cd matches Some(d) && d@ == self.source_dir@,
            !r.log_output,
    {
        let proxy = toolchain.cargo();
        let mut args: Vec<String> = Vec::new();
        args.push(proxy.toolchain_arg);
        args.push("metadata".to_owned());
        args.push("--manifest-path".to_owned());
        args.push("Cargo.toml".to_owned());
        args.push("--no-deps".to_owned());
        Command::new(workspace, Binary::ManagedByRustwide(proxy.binary)).args(args).cd(
            self.source_dir.as_str(),
        ).log_output(false)
    }

    /// Rewrite the manifest: the tweaker for this preparation's patches,
    /// over the parsed manifest table and the paths existing under the
    /// source directory.
    pub fn tweak_toml(
        &self,
        table: Vec<(String, crate::manifest::TomlValue)>,
        existing: Vec<String>,
    ) -> (r: crate::manifest::TomlTweaker)
        ensures
            r.table == table,
            r.dir == Some(self.source_dir),
            r.existing == existing,
            r.patches@ == self.patches@,
    {
        crate::manifest::TomlTweaker {
            table,
            dir: Some(self.source_dir.clone()),
            existing,
            patches: clone_patches(&self.patches),
        }
    }

    /// The command that generates the lockfile, when none exists yet: with
    /// index updates disabled, the unstable no-index-update flag is passed
    /// under the nightly channel override.
    pub fn capture_lockfile(
        &self,
        workspace: &Workspace,
        toolchain: &Toolchain,
        lockfile_exists: bool,
    ) -> (r: Option<Command>)
        ensures
            lockfile_exists ==> r is None,
            !lockfile_exists ==> (r matches Some(cmd) && (cmd.binary
                matches Binary::ManagedByRustwide(b) && b@ == "cargo"@) && text::strs(cmd.args@)
                =~= (if workspace.fetch_registry_index_during_builds {
                seq![
                    "+"@ + crate::toolchain::rustup_name_spec(*toolchain),
                    "generate-lockfile"@,
                    "--manifest-path"@,
                    "Cargo.toml"@,
                ]
            } else {
                seq![
                    "+"@ + crate::toolchain::rustup_name_spec(*toolchain),
                    "generate-lockfile"@,
                    "--manifest-path"@,
                    "Cargo.toml"@,
                    "-Zno-index-update"@,
                ]
            }) && (cmd.cd matches Some(d) && d@ == self.source_dir@)),
    {
        if lockfile_exists {
            return None;
        }
        let proxy = toolchain.cargo();
        let mut args: Vec<String> = Vec::new();
        args.push(proxy.toolchain_arg);
        args.push("generate-lockfile".to_owned());
        args.push("--manifest-path".to_owned());
        args.push("Cargo.toml".to_owned());
        let mut cmd = Command::new(workspace, Binary::ManagedByRustwide(proxy.binary)).args(args);
        if !workspace.fetch_registry_index_during_builds {
            let mut extra: Vec<String> = Vec::new();
            extra.push("-Zno-index-update".to_owned());
            cmd = cmd.args(extra).env(
                "__CARGO_TEST_CHANNEL_OVERRIDE_DO_NOT_USE_THIS",
                "nightly",
            );
        }
        Some(cmd.cd(self.source_dir.as_str()))
    }

    /// The command that fetches the dependencies.
    pub fn fetch_deps(&self, workspace: &Workspace, toolchain: &Toolchain) -> (r: Command)
        ensures
            (r.binary matches Binary::ManagedByRustwide(b) && b@ == "cargo"@),
            text::strs(r.args@) =~= seq![
                "+"@ + crate::toolchain::rustup_name_spec(*toolchain),
                "fetch"@,
                "--manifest-path"@,
                "Cargo.toml"@,
            ],
            r.cd matches Some(d) && d@ == self.source_dir@,
    {
        fetch_deps(workspace, toolchain, self.source_dir.as_str())
    }
}

/// Clone a patch list.
fn clone_patches(patches: &Vec<crate::manifest::CratePatch>) -> (r: Vec<
    crate::manifest::CratePatch,
>)
    ensures
        r@ == patches@,
{
    let mut out: Vec<crate::manifest::CratePatch> = Vec::new();
    let mut i: usize = 0;
    while i < patches.len()
        invariant
            0 <= i <= patches@.len(),
            out@ =~= patches@.subrange(0, i as int),
        decreases patches@.len() - i,
    {
        let p = vstd::std_specs::vec::vec_index(patches, i);
        let c = match p {
            crate::manifest::CratePatch::Git(g) => crate::manifest::CratePatch::Git(
                crate::manifest::GitCratePatch {
                    name: g.name.clone(),
                    uri: g.uri.clone(),
                    branch: g.branch.clone(),
                },
            ),
            crate::manifest::CratePatch::Path(pp) => crate::manifest::CratePatch::Path(
                crate::manifest::PathCratePatch { name: pp.name.clone(), path: pp.path.clone() },
            ),
        };
        out.push(c);
        proof {
            assert(out@ =~= patches@.subrange(0, i + 1));
        }
        i += 1;
    }
    proof {
        assert(patches@.subrange(0, patches@.len() as int) =~= patches@);
        assert(out@ =~= patches@);
    }
    out
}

/// The command that fetches the dependencies of the manifest in
/// `source_dir` with the given toolchain.
pub fn fetch_deps(workspace: &Workspace, toolchain: &Toolchain, source_dir: &str) -> (r: Command)
    ensures
        (r.binary matches Binary::ManagedByRustwide(b) && b@ == "cargo"@),
        text::strs(r.args@) =~= seq![
            "+"@ + crate::toolchain::rustup_name_spec(*toolchain),
            "fetch"@,
            "--manifest-path"@,
            "Cargo.toml"@,
        ],
        r.cd matches Some(d) && d@ == source_dir@,
{
    let proxy = toolchain.cargo();
    let mut args: Vec<String> = Vec::new();
    args.push(proxy.toolchain_arg);
    args.push("fetch".to_owned());
    args.push("--manifest-path".to_owned());
    args.push("Cargo.toml".to_owned());
    Command::new(workspace, Binary::ManagedByRustwide(proxy.binary)).args(args).cd(source_dir)
}

/// The extra arguments of a build-std fetch: the unstable flag once, then
/// each target. The `rust-src` component must be installed and the nightly
/// bootstrap override set alongside.
pub fn build_std_fetch_args(targets: &Vec<String>) -> (r: Vec<String>)
    ensures
        targets@.len() == 0 ==> r@.len() == 0,
        targets@.len() > 0 ==> text::strs(r@) =~= seq!["-Zbuild-std"@] + target_args(
            text::strs(targets@),
        ),
{
    let mut out: Vec<String> = Vec::new();
    if targets.len() == 0 {
        return out;
    }
    out.push("-Zbuild-std".to_owned());
    let mut i: usize = 0;
    proof {
        assert(target_args(text::strs(targets@).subrange(0, 0)) =~= Seq::<Seq<char>>::empty());
        assert(text::strs(out@) =~= seq!["-Zbuild-std"@] + target_args(
            text::strs(targets@).subrange(0, 0),
        ));
    }
    while i < targets.len()
        invariant
            0 <= i <= targets@.len(),
            text::strs(out@) == seq!["-Zbuild-std"@] + target_args(
                text::strs(targets@).subrange(0, i as int),
            ),
        decreases targets@.len() - i,
    {
        let ghost before = out@;
        out.push("--target".to_owned());
        out.push(vstd::std_specs::vec::vec_index(targets, i).clone());
        proof {
            let all = text::strs(targets@);
            lemma_target_args_snoc(all.subrange(0, i as int), all[i as int]);
            assert(all.subrange(0, i + 1) =~= all.subrange(0, i as int).push(all[i as int]));
            assert(text::strs(out@) =~= text::strs(before) + seq!["--target"@, all[i as int]]);
            assert(text::strs(out@) =~= seq!["-Zbuild-std"@] + target_args(all.subrange(0, i + 1)));
        }
        i += 1;
    }
    proof {
        assert(text::strs(targets@).subrange(0, targets@.len() as int) =~= text::strs(targets@));
    }
    out
}

/// The `--target` pairs for the build-std targets.
pub open spec fn target_args(targets: Seq<Seq<char>>) -> Seq<Seq<char>>
    decreases targets.len(),
{
    if targets.len() == 0 {
        Seq::empty()
    } else {
        seq!["--target"@, targets[0]] + target_args(targets.subrange(1, targets.len() as int))
    }
}

/// Appending one target appends its two arguments.
proof fn lemma_target_args_snoc(targets: Seq<Seq<char>>, t: Seq<char>)
    ensures
        target_args(targets.push(t)) == target_args(targets) + seq!["--target"@, t],
    decreases targets.len(),
{
    let tp = targets.push(t);
    if targets.len() == 0 {
        assert(tp[0] == t);
        assert(tp.subrange(1, tp.len() as int) =~= Seq::<Seq<char>>::empty());
        assert(target_args(tp.subrange(1, tp.len() as int)) =~= Seq::<Seq<char>>::empty());
        assert(target_args(tp) =~= target_args(targets) + seq!["--target"@, t]);
    } else {
        assert(tp[0] == targets[0]);
        assert(tp.subrange(1, tp.len() as int) =~= targets.subrange(
            1,
            targets.len() as int,
        ).push(t));
        lemma_target_args_snoc(targets.subrange(1, targets.len() as int), t);
        assert(target_args(tp) =~= target_args(targets) + seq!["--target"@, t]);
    }
}

} // verus!
