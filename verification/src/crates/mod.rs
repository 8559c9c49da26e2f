//! Package sources: a crate fetched from a registry, a git repository, or a
//! local directory. Each variant computes its cache location, the commands
//! or downloads that fetch it, and how its source is materialized; the
//! network and the filesystem are driven outside the library.

pub mod git;
pub mod local;
pub mod registry;

pub use git::GitRepo;
pub use local::Local;
pub use registry::AlternativeRegistry;
pub use registry::Registry;
pub use registry::RegistryCrate;

use vstd::prelude::*;
use crate::cmd::Command;
use crate::workspace::Workspace;

verus! {

/// The kind of a crate's source.
pub enum CrateType {
    /// A crate from a registry, cached as an archive.
    Registry(registry::RegistryCrate),
    /// A crate from a git repository, cached as a bare mirror.
    Git(git::GitRepo),
    /// A crate in a local directory; nothing is cached.
    Local(local::Local),
}

/// A Rust crate that can be fetched, purged from the cache, and copied into
/// a build directory.
pub struct Crate(pub CrateType);

/// What purging a crate from the cache removes.
#[derive(Debug, PartialEq)]
pub enum PurgePlan {
    /// Nothing is cached.
    Nothing,
    /// Remove this file, if it exists.
    RemoveFile(String),
    /// Remove this directory tree, if it exists.
    RemoveDir(String),
}

/// How a crate's source is materialized into a destination tree.
pub enum CopySourcePlan {
    /// Walk this directory and copy it, skipping a top-level `target/`.
    CopyTree(String),
    /// Run this clone command.
    GitClone(Command),
    /// Unpack this cached archive, stripping the first path component.
    Unpack(String),
}

impl Crate {
    /// A crate from the given registry.
    pub fn registry(registry: AlternativeRegistry, name: &str, version: &str) -> (r: Self)
        ensures
            r.0 matches CrateType::Registry(k) && (k.registry matches Registry::Alternative(a)
                && a.registry_index@ == registry.registry_index@) && k.name@ == name@
                && k.version@ == version@,
    {
        Crate(
            CrateType::Registry(
                registry::RegistryCrate::new(Registry::Alternative(registry), name, version, None),
            ),
        )
    }

    /// A crate from the public crates.io registry.
    pub fn crates_io(name: &str, version: &str) -> (r: Self)
        ensures
            r.0 matches CrateType::Registry(k) && k.registry is CratesIo && k.name@ == name@
                && k.version@ == version@,
    {
        Crate(CrateType::Registry(registry::RegistryCrate::new(Registry::CratesIo, name, version, None)))
    }

    /// A crate from a git repository, by its clone URL.
    pub fn git(url: &str) -> (r: Self)
        ensures
            r.0 matches CrateType::Git(g) && g.url@ == url@,
    {
        Crate(CrateType::Git(git::GitRepo::new(url)))
    }

    /// A crate in a local directory.
    pub fn local(path: &str) -> (r: Self)
        ensures
            r.0 matches CrateType::Local(l) && l.path@ == path@,
    {
        Crate(CrateType::Local(local::Local::new(path)))
    }

    /// What fetching this crate does: nothing for a local crate; a download
    /// into the cache for a registry crate not yet cached; a git update or
    /// clone for a repository. The caller reports whether the cache entry
    /// exists and, for an alternative registry, hands in the index
    /// configuration.
    pub fn fetch(
        &self,
        workspace: &Workspace,
        cached: bool,
        index_config_json: Option<&String>,
    ) -> (r: Result<FetchPlan, String>)
        requires
            (self.0 matches CrateType::Registry(k) && k.registry is Alternative)
                ==> index_config_json is Some,
        ensures
            match self.0 {
                CrateType::Local(_) => r == Ok::<FetchPlan, String>(FetchPlan::Nothing),
                CrateType::Registry(k) => if cached {
                    r == Ok::<FetchPlan, String>(FetchPlan::Nothing)
                } else {
                    match r {
                        Ok(p) => p matches FetchPlan::Download { url, dest }
                            && registry::fetch_url_ok(k, index_config_json, url@)
                            && dest@ == registry::cache_path_spec(k, workspace),
                        Err(_) => k.registry is Alternative,
                    }
                },
                CrateType::Git(g) => r matches Ok(p) && (p matches FetchPlan::RunGit(cmd)
                    && git::fetch_command_spec(g, workspace, cached, cmd)),
            },
    {
        match &self.0 {
            CrateType::Local(_) => Ok(FetchPlan::Nothing),
            CrateType::Registry(k) => {
                if cached {
                    Ok(FetchPlan::Nothing)
                } else {
                    let url = match k.fetch_url(index_config_json) {
                        Ok(u) => u,
                        Err(e) => {
                            return Err(e);
                        },
                    };
                    Ok(FetchPlan::Download { url, dest: k.cache_path(workspace) })
                }
            },
            CrateType::Git(g) => Ok(FetchPlan::RunGit(g.fetch(workspace, cached))),
        }
    }

    /// What purging this crate from the cache removes.
    pub fn purge_from_cache(&self, workspace: &Workspace) -> (r: PurgePlan)
        ensures
            match self.0 {
                CrateType::Local(_) => r == PurgePlan::Nothing,
                CrateType::Registry(k) => r matches PurgePlan::RemoveFile(p) && p@
                    == registry::cache_path_spec(k, workspace),
                CrateType::Git(g) => r matches PurgePlan::RemoveDir(p) && p@
                    == git::cached_path_spec(g, workspace),
            },
    {
        match &self.0 {
            CrateType::Local(_) => PurgePlan::Nothing,
            CrateType::Registry(k) => PurgePlan::RemoveFile(k.cache_path(workspace)),
            CrateType::Git(g) => PurgePlan::RemoveDir(g.cached_path(workspace)),
        }
    }

    /// This crate's resolved commit, read from the captured output of `git
    /// rev-parse HEAD` on its mirror: the first line when one was printed
    /// and is not empty. Only git crates have one.
    pub fn git_commit(&self, rev_parse_stdout: &Vec<String>) -> (r: Option<String>)
        ensures
            match self.0 {
                CrateType::Git(_) => match r {
                    Some(sha) => rev_parse_stdout@.len() > 0 && sha@ == rev_parse_stdout@[0]@
                        && sha@.len() > 0,
                    None => rev_parse_stdout@.len() == 0 || rev_parse_stdout@[0]@.len() == 0,
                },
                _ => r is None,
            },
    {
        match &self.0 {
            CrateType::Git(g) => g.git_commit(rev_parse_stdout),
            _ => None,
        }
    }

    /// How this crate's source is materialized into `dest`. An existing
    /// destination is removed first by the caller.
    pub fn copy_source_to(&self, workspace: &Workspace, dest: &str) -> (r: CopySourcePlan)
        ensures
            match self.0 {
                CrateType::Local(l) => r matches CopySourcePlan::CopyTree(p) && p@ == l.path@,
                CrateType::Git(g) => r matches CopySourcePlan::GitClone(cmd)
                    && git::clone_command_spec(g, workspace, dest@, cmd),
                CrateType::Registry(k) => r matches CopySourcePlan::Unpack(p) && p@
                    == registry::cache_path_spec(k, workspace),
            },
    {
        match &self.0 {
            CrateType::Local(l) => CopySourcePlan::CopyTree(l.path.clone()),
            CrateType::Git(g) => CopySourcePlan::GitClone(g.copy_source_to(workspace, dest)),
            CrateType::Registry(k) => CopySourcePlan::Unpack(k.cache_path(workspace)),
        }
    }
}

/// What fetching a crate does.
pub enum FetchPlan {
    /// Nothing: the crate is local or already cached.
    Nothing,
    /// Download the archive at `url` into the cache file `dest`.
    Download {
        /// Where the archive is downloaded from.
        url: String,
        /// The cache file it is written to.
        dest: String,
    },
    /// Run this git command, watching its output for the private-repository
    /// diagnostic.
    RunGit(Command),
}

} // verus!
