//! Git package sources: a bare mirror kept in the cache, updated or cloned
//! with password prompts suppressed, and the classification of fetches
//! against repositories that require authentication.

use vstd::prelude::*;
use vstd::string::*;
use crate::cmd::Binary;
use crate::cmd::Command;
use crate::prepare::PrepareError;
use crate::text;
use crate::utils;
use crate::workspace::Workspace;

verus! {

/// A git repository used as a package source.
pub struct GitRepo {
    /// The clone URL.
    pub url: String,
}

/// Where the bare mirror of the repository lives:
/// `<cache>/git-repos/<escaped-url>/`.
pub open spec fn cached_path_spec(g: GitRepo, ws: &Workspace) -> Seq<char> {
    ws.root@ + "/cache"@ + "/git-repos/"@ + utils::escape_model(
        vstd::utf8::encode_utf8(g.url@),
    )
}

/// The arguments that disable every credential helper but the null helper,
/// so that authentication never prompts.
pub open spec fn suppress_args_spec(ws: &Workspace) -> Seq<Seq<char>> {
    seq![
        "-c"@,
        "credential.helper="@,
        "-c"@,
        "credential.helper="@ + ws.root@ + "/cargo-home"@ + "/bin/git-credential-null"@,
    ]
}

/// What the git invocation that fetches the mirror looks like: an update of
/// the cached mirror when one exists, a fresh bare clone otherwise, both
/// with prompts suppressed.
pub open spec fn fetch_command_spec(g: GitRepo, ws: &Workspace, cached: bool, cmd: Command) -> bool {
    (cmd.binary matches Binary::Global(b) && b@ == "git"@) && (if cached {
        text::strs(cmd.args@) == suppress_args_spec(ws) + seq![
            "-c"@,
            "remote.origin.fetch=refs/heads/*:refs/heads/*"@,
            "fetch"@,
            "origin"@,
            "--force"@,
            "--prune"@,
        ] && (cmd.cd matches Some(d) && d@ == cached_path_spec(g, ws))
    } else {
        text::strs(cmd.args@) == suppress_args_spec(ws) + seq![
            "clone"@,
            "--bare"@,
            g.url@,
            cached_path_spec(g, ws),
        ]
    })
}

/// What the git invocation that copies the source looks like: a plain clone
/// from the mirror to the destination.
pub open spec fn clone_command_spec(g: GitRepo, ws: &Workspace, dest: Seq<char>, cmd: Command) -> bool {
    (cmd.binary matches Binary::Global(b) && b@ == "git"@) && text::strs(cmd.args@) == seq![
        "clone"@,
        cached_path_spec(g, ws),
        dest,
    ]
}

impl GitRepo {
    /// A git source for the given clone URL.
    pub fn new(url: &str) -> (r: Self)
        ensures
            r.url@ == url@,
    {
        GitRepo { url: url.to_owned() }
    }

    /// Where the bare mirror of this repository lives.
    pub fn cached_path(&self, workspace: &Workspace) -> (r: String)
        ensures
            r@ == cached_path_spec(*self, workspace),
    {
        let mut p = workspace.cache_dir();
        p.append("/git-repos/");
        let escaped = utils::escape_path(self.url.as_str().as_bytes());
        p.append(escaped.as_str());
        p
    }

    /// The arguments that disable every credential helper but the null
    /// helper kept in the workspace's cargo home.
    pub fn suppress_password_prompt_args(&self, workspace: &Workspace) -> (r: Vec<String>)
        ensures
            text::strs(r@) =~= suppress_args_spec(workspace),
    {
        let mut v: Vec<String> = Vec::new();
        v.push("-c".to_owned());
        v.push("credential.helper=".to_owned());
        v.push("-c".to_owned());
        let mut helper = "credential.helper=".to_owned();
        let home = workspace.cargo_home();
        helper.append(home.as_str());
        helper.append("/bin/git-credential-null");
        proof {
            assert(helper@ =~= "credential.helper="@ + workspace.root@ + "/cargo-home"@
                + "/bin/git-credential-null"@);
        }
        v.push(helper);
        v
    }

    /// The command that fetches this repository into the cache: an update
    /// of the mirror when it already exists, a fresh bare clone otherwise.
    pub fn fetch(&self, workspace: &Workspace, cached: bool) -> (r: Command)
        ensures
            fetch_command_spec(*self, workspace, cached, r),
    {
        let suppress = self.suppress_password_prompt_args(workspace);
        if cached {
            let mut args = suppress;
            args.push("-c".to_owned());
            args.push("remote.origin.fetch=refs/heads/*:refs/heads/*".to_owned());
            args.push("fetch".to_owned());
            args.push("origin".to_owned());
            args.push("--force".to_owned());
            args.push("--prune".to_owned());
            let path = self.cached_path(workspace);
            proof {
                assert(text::strs(args@) =~= suppress_args_spec(workspace) + seq![
                    "-c"@,
                    "remote.origin.fetch=refs/heads/*:refs/heads/*"@,
                    "fetch"@,
                    "origin"@,
                    "--force"@,
                    "--prune"@,
                ]);
            }
            Command::new(workspace, Binary::Global("git".to_owned())).args(args).cd(path.as_str())
        } else {
            let mut args = suppress;
            args.push("clone".to_owned());
            args.push("--bare".to_owned());
            args.push(self.url.clone());
            args.push(self.cached_path(workspace));
            proof {
                assert(text::strs(args@) =~= suppress_args_spec(workspace) + seq![
                    "clone"@,
                    "--bare"@,
                    self.url@,
                    cached_path_spec(*self, workspace),
                ]);
            }
            Command::new(workspace, Binary::Global("git".to_owned())).args(args)
        }
    }

    /// The command that copies the source: a clone from the mirror to the
    /// destination.
    pub fn copy_source_to(&self, workspace: &Workspace, dest: &str) -> (r: Command)
        ensures
            clone_command_spec(*self, workspace, dest@, r),
    {
        let mut args: Vec<String> = Vec::new();
        args.push("clone".to_owned());
        args.push(self.cached_path(workspace));
        args.push(dest.to_owned());
        proof {
            assert(text::strs(args@) =~= seq![
                "clone"@,
                cached_path_spec(*self, workspace),
                dest@,
            ]);
        }
        Command::new(workspace, Binary::Global("git".to_owned())).args(args)
    }

    /// The repository's resolved commit, read from the captured output of
    /// `git rev-parse HEAD`: the first line when one was printed and is not
    /// empty.
    pub fn git_commit(&self, stdout_lines: &Vec<String>) -> (r: Option<String>)
        ensures
            match r {
                Some(sha) => stdout_lines@.len() > 0 && sha@ == stdout_lines@[0]@ && sha@.len() > 0,
                None => stdout_lines@.len() == 0 || stdout_lines@[0]@.len() == 0,
            },
    {
        if stdout_lines.len() > 0 {
            let first = vstd::std_specs::vec::vec_index(stdout_lines, 0);
            if !first.as_str().is_empty() {
                return Some(first.clone());
            }
        }
        None
    }
}

/// Whether a fetch line is the credential helper's refusal, shown when a
/// repository requires authentication.
pub open spec fn private_repo_diag(line: Seq<char>) -> bool {
    text::starts_with_spec(line, "fatal: credential helper"@) && text::ends_with_spec(
        line,
        "told us to quit"@,
    )
}

/// Recognize the credential helper's refusal on one fetch output line.
pub fn is_private_repo_diag(line: &str) -> (r: bool)
    ensures
        r == private_repo_diag(line@),
{
    text::starts_with(line, "fatal: credential helper") && text::ends_with(line, "told us to quit")
}

/// Classify a fetch: a failure on which the credential helper's refusal was
/// seen is a private repository; any other failure stands; a success is a
/// success whatever was printed.
pub fn fetch_outcome(run_failed: bool, private_seen: bool) -> (r: Result<(), Option<PrepareError>>)
    ensures
        !run_failed ==> r is Ok,
        run_failed && private_seen ==> r == Err::<(), Option<PrepareError>>(
            Some(PrepareError::PrivateGitRepository),
        ),
        run_failed && !private_seen ==> r == Err::<(), Option<PrepareError>>(
            None::<PrepareError>,
        ),
{
    if !run_failed {
        Ok(())
    } else if private_seen {
        Err(Some(PrepareError::PrivateGitRepository))
    } else {
        Err(None)
    }
}

} // verus!
