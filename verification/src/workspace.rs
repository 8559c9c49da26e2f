//! The persistent workspace: its directory layout and the defaults handed to
//! every command. Creating the directories, locking the workspace and
//! installing tools happen outside the library; the workspace value carries
//! the paths and settings the library computes with.

use vstd::prelude::*;
use crate::inside_docker::Mount;
use crate::text;

verus! {

/// The on-disk workspace: a root directory holding `cargo-home/`,
/// `rustup-home/`, `cache/`, `builds/` and the lock file.
pub struct Workspace {
    /// The workspace root directory.
    pub root: String,
    /// The user agent for outbound requests.
    pub user_agent: String,
    /// The default wall-clock timeout for commands, in seconds.
    pub default_command_timeout: Option<u64>,
    /// The default no-output timeout for commands, in seconds.
    pub default_no_output_timeout: Option<u64>,
    /// The sandbox image reference used when a sandbox names none.
    pub sandbox_image_name: String,
    /// The rustup profile used when installing toolchains.
    pub rustup_profile: String,
    /// Whether preparation may update the registry index.
    pub fetch_registry_index_during_builds: bool,
    /// The host mount table, when the process itself runs inside a
    /// container.
    pub current_container_mounts: Option<Vec<Mount>>,
}

impl Workspace {
    /// The `CARGO_HOME` used for every invocation.
    pub fn cargo_home(&self) -> (r: String)
        ensures
            r@ == self.root@ + "/cargo-home"@,
    {
        text::concat2(self.root.as_str(), "/cargo-home")
    }

    /// The `RUSTUP_HOME` used for every invocation.
    pub fn rustup_home(&self) -> (r: String)
        ensures
            r@ == self.root@ + "/rustup-home"@,
    {
        text::concat2(self.root.as_str(), "/rustup-home")
    }

    /// The cache directory.
    pub fn cache_dir(&self) -> (r: String)
        ensures
            r@ == self.root@ + "/cache"@,
    {
        text::concat2(self.root.as_str(), "/cache")
    }

    /// The directory holding the build directories.
    pub fn builds_dir(&self) -> (r: String)
        ensures
            r@ == self.root@ + "/builds"@,
    {
        text::concat2(self.root.as_str(), "/builds")
    }

    /// The workspace lock file, held exclusively across processes during
    /// initialization and global operations.
    pub fn lock_file_path(&self) -> (r: String)
        ensures
            r@ == self.root@ + "/.lock"@,
    {
        text::concat2(self.root.as_str(), "/.lock")
    }

    /// What purging every build directory clears: the builds directory's
    /// contents. The caller removes the tree under the workspace lock.
    pub fn purge_all_build_dirs(&self) -> (r: String)
        ensures
            r@ == self.root@ + "/builds"@,
    {
        self.builds_dir()
    }

    /// What purging every cache clears: the cache directory's contents,
    /// the registry index cache included. The caller removes the tree under
    /// the workspace lock.
    pub fn purge_all_caches(&self) -> (r: String)
        ensures
            r@ == self.root@ + "/cache"@,
    {
        self.cache_dir()
    }
}

} // verus!
