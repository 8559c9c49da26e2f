//! The sandbox controller's decisions: the container configuration, the
//! argument vector handed to the container runtime, image size checking, and
//! the out-of-memory classification after a run. Invoking the runtime
//! happens outside the library.

use vstd::prelude::*;
use vstd::string::*;
use crate::cmd::CommandError;
use crate::cmd::ProcessOutput;
use crate::inside_docker::Mount;
use crate::text;
use crate::workspace::Workspace;

verus! {

/// Whether a path is mounted into the sandbox writable or read-only.
#[derive(Debug, Copy, Clone, PartialEq, Eq, Structural)]
pub enum MountKind {
    /// The sandboxed code may change the mounted data.
    ReadWrite,
    /// The mounted data is protected from the sandboxed code.
    ReadOnly,
}

/// One mount of the sandbox: a host directory made visible inside.
#[derive(Debug, Clone)]
pub struct MountConfig {
    /// The directory on the host; handed to the library in normalized form.
    pub host_path: String,
    /// Where it appears inside the sandbox.
    pub sandbox_path: String,
    /// Whether the sandbox may write to it.
    pub perm: MountKind,
}

/// Strip `pre` as a leading path from `p`: the empty remainder when they are
/// equal, the part after `pre/` when `p` lies under it, nothing otherwise.
pub open spec fn path_strip_prefix(p: Seq<char>, pre: Seq<char>) -> Option<Seq<char>> {
    if p == pre {
        Some(Seq::empty())
    } else if text::starts_with_spec(p, pre + "/"@) {
        Some(p.subrange(pre.len() as int + 1, p.len() as int))
    } else {
        None
    }
}

/// A mount source joined with a remainder path.
pub open spec fn join_under(src: Seq<char>, shared: Seq<char>) -> Seq<char> {
    if shared.len() == 0 {
        src
    } else {
        src + "/"@ + shared
    }
}

/// Rebase a path from inside a container onto the host: the first mount
/// whose destination is a leading path of it gives the host source.
pub open spec fn remap_path(host: Seq<char>, mounts: Seq<Mount>) -> Option<Seq<char>>
    decreases mounts.len(),
{
    if mounts.len() == 0 {
        None
    } else {
        match path_strip_prefix(host, mounts[0].destination@) {
            Some(shared) => Some(join_under(mounts[0].source@, shared)),
            None => remap_path(host, mounts.subrange(1, mounts.len() as int)),
        }
    }
}

/// The mount table of the container this process runs in, if any.
pub open spec fn ws_mounts(ws: &Workspace) -> Option<Seq<Mount>> {
    match ws.current_container_mounts {
        Some(v) => Some(v@),
        None => None,
    }
}

/// Where a mount source lies on the host: the path itself outside a
/// container, the rebased path inside one, and nothing when no mount of the
/// container covers it.
pub open spec fn host_path_spec(host: Seq<char>, mounts: Option<Seq<Mount>>) -> Option<Seq<char>> {
    match mounts {
        None => Some(host),
        Some(ms) => remap_path(host, ms),
    }
}

/// Strip `pre` as a leading path from `p`.
pub fn strip_path_prefix(p: &str, pre: &str) -> (r: Option<String>)
    ensures
        match r {
            Some(s) => path_strip_prefix(p@, pre@) == Some(s@),
            None => path_strip_prefix(p@, pre@) is None,
        },
{
    if text::str_eq(p, pre) {
        return Some(String::new());
    }
    let with_sep = text::concat2(pre, "/");
    if text::starts_with(p, with_sep.as_str()) {
        let n = p.unicode_len();
        let k = pre.unicode_len();
        proof {
            reveal_strlit("/");
            assert(with_sep@.len() == k + 1);
            assert(k + 1 <= n);
        }
        let rest = p.substring_char(k + 1, n);
        Some(rest.to_owned())
    } else {
        None
    }
}

impl MountConfig {
    /// The host directory backing this mount, rebased when the process
    /// itself runs inside a container; fails when no mount of that
    /// container covers it.
    pub fn host_path(&self, workspace: &Workspace) -> (r: Result<String, CommandError>)
        ensures
            match r {
                Ok(p) => host_path_spec(self.host_path@, ws_mounts(workspace)) == Some(p@),
                Err(e) => e == CommandError::WorkspaceNotMountedCorrectly && host_path_spec(
                    self.host_path@,
                    ws_mounts(workspace),
                ) is None,
            },
    {
        match workspace.current_container_mounts.as_ref() {
            None => Ok(self.host_path.clone()),
            Some(ms) => {
                let ghost msv: Seq<Mount> = ms@;
                proof {
                    assert(workspace.current_container_mounts is Some);
                    assert(workspace.current_container_mounts->0 == *ms);
                    assert(ws_mounts(workspace) == Some(workspace.current_container_mounts->0@));
                    assert(msv == workspace.current_container_mounts->0@);
                    assert(ws_mounts(workspace) == Some(msv));
                    assert(msv.subrange(0, msv.len() as int) =~= msv);
                }
                let mut i: usize = 0;
                while i < ms.len()
                    invariant
                        0 <= i <= msv.len(),
                        msv == ms@,
                        ws_mounts(workspace) == Some(msv),
                        remap_path(self.host_path@, msv) == remap_path(
                            self.host_path@,
                            msv.subrange(i as int, msv.len() as int),
                        ),
                    decreases msv.len() - i,
                {
                    let m = vstd::std_specs::vec::vec_index(ms, i);
                    let ghost rest = msv.subrange(i as int, msv.len() as int);
                    proof {
                        assert(rest[0] == msv[i as int]);
                        assert(rest.subrange(1, rest.len() as int) =~= msv.subrange(
                            i + 1,
                            msv.len() as int,
                        ));
                    }
                    match strip_path_prefix(self.host_path.as_str(), m.destination.as_str()) {
                        Some(shared) => {
                            proof {
                                assert(path_strip_prefix(
                                    self.host_path@,
                                    rest[0].destination@,
                                ) == Some(shared@));
                                assert(remap_path(self.host_path@, rest) == Some(
                                    join_under(rest[0].source@, shared@),
                                ));
                            }
                            if shared.as_str().is_empty() {
                                return Ok(m.source.clone());
                            }
                            let joined = text::concat3(m.source.as_str(), "/", shared.as_str());
                            return Ok(joined);
                        },
                        None => {},
                    }
                    i += 1;
                }
                proof {
                    assert(msv.subrange(msv.len() as int, msv.len() as int) =~= Seq::<Mount>::empty());
                }
                Err(CommandError::WorkspaceNotMountedCorrectly)
            },
        }
    }

    /// The `rw` or `ro` flag of this mount.
    pub open spec fn perm_flag(self) -> Seq<char> {
        match self.perm {
            MountKind::ReadWrite => "rw"@,
            MountKind::ReadOnly => "ro"@,
        }
    }

    /// The volume argument handed to the runtime: `host:sandbox:perm,Z`,
    /// with `Z` requesting relabeling.
    pub open spec fn volume_arg_spec(self, host: Seq<char>) -> Seq<char> {
        host + ":"@ + self.sandbox_path@ + ":"@ + self.perm_flag() + ",Z"@
    }

    /// Render the volume argument for this mount.
    pub fn to_volume_arg(&self, workspace: &Workspace) -> (r: Result<String, CommandError>)
        ensures
            match r {
                Ok(s) => host_path_spec(self.host_path@, ws_mounts(workspace)) matches Some(h)
                    && s@ == self.volume_arg_spec(h),
                Err(e) => e == CommandError::WorkspaceNotMountedCorrectly && host_path_spec(
                    self.host_path@,
                    ws_mounts(workspace),
                ) is None,
            },
    {
        let host = match self.host_path(workspace) {
            Ok(h) => h,
            Err(e) => {
                return Err(e);
            },
        };
        let perm = match self.perm {
            MountKind::ReadWrite => "rw",
            MountKind::ReadOnly => "ro",
        };
        let mut out = host;
        out.append(":");
        out.append(self.sandbox_path.as_str());
        out.append(":");
        out.append(perm);
        out.append(",Z");
        Ok(out)
    }

    /// The bind-mount argument used where volume syntax cannot hold the
    /// path: `type=bind,src=…,dst=…`, with `,readonly` for read-only
    /// mounts.
    pub open spec fn mount_arg_spec(self, host: Seq<char>) -> Seq<char> {
        "type=bind,src="@ + host + ",dst="@ + self.sandbox_path@ + (
        if self.perm == MountKind::ReadOnly {
            ",readonly"@
        } else {
            Seq::<char>::empty()
        })
    }

    /// Render the bind-mount argument for this mount.
    pub fn to_mount_arg(&self, workspace: &Workspace) -> (r: Result<String, CommandError>)
        ensures
            match r {
                Ok(s) => host_path_spec(self.host_path@, ws_mounts(workspace)) matches Some(h)
                    && s@ == self.mount_arg_spec(h),
                Err(e) => e == CommandError::WorkspaceNotMountedCorrectly && host_path_spec(
                    self.host_path@,
                    ws_mounts(workspace),
                ) is None,
            },
    {
        let host = match self.host_path(workspace) {
            Ok(h) => h,
            Err(e) => {
                return Err(e);
            },
        };
        let mut out = "type=bind,src=".to_owned();
        out.append(host.as_str());
        out.append(",dst=");
        out.append(self.sandbox_path.as_str());
        if let MountKind::ReadOnly = self.perm {
            out.append(",readonly");
        }
        Ok(out)
    }
}

/// A Docker image used for sandboxing.
#[derive(Debug, Clone)]
pub struct SandboxImage {
    /// The image reference: a name, possibly pinned to a digest.
    pub name: String,
}

/// The configuration of a sandbox: mounts, environment, limits, networking,
/// the command to run, and the image.
#[derive(Debug, Clone)]
pub struct SandboxBuilder {
    /// The mounts, in order.
    pub mounts: Vec<MountConfig>,
    /// The environment pairs, in order.
    pub env: Vec<(String, String)>,
    /// The memory cap in bytes, when one is set.
    pub memory_limit: Option<u64>,
    /// The CPU cap in thousandths of a core, when one is set.
    pub cpu_limit_millis: Option<u64>,
    /// The working directory inside the sandbox, when one is set.
    pub workdir: Option<String>,
    /// The `user:group` mapping, when one is set.
    pub user: Option<String>,
    /// The command vector run inside the sandbox.
    pub cmd: Vec<String>,
    /// Whether the sandbox may reach the network.
    pub enable_networking: bool,
    /// The image override; the workspace default is used when absent.
    pub image: Option<String>,
}

impl SandboxBuilder {
    /// A sandbox with no mounts, no limits, and networking enabled.
    pub fn new() -> (r: Self)
        ensures
            r.mounts@.len() == 0,
            r.env@.len() == 0,
            r.memory_limit is None,
            r.cpu_limit_millis is None,
            r.workdir is None,
            r.user is None,
            r.cmd@.len() == 0,
            r.enable_networking,
            r.image is None,
    {
        SandboxBuilder {
            mounts: Vec::new(),
            env: Vec::new(),
            memory_limit: None,
            cpu_limit_millis: None,
            workdir: None,
            user: None,
            cmd: Vec::new(),
            enable_networking: true,
            image: None,
        }
    }

    /// Mount a host path inside the sandbox, writable or read-only.
    pub fn mount(self, host_path: &str, sandbox_path: &str, kind: MountKind) -> (r: Self)
        ensures
            r.mounts@.len() == self.mounts@.len() + 1,
            r.mounts@.subrange(0, self.mounts@.len() as int) == self.mounts@,
            r.mounts@[self.mounts@.len() as int].host_path@ == host_path@,
            r.mounts@[self.mounts@.len() as int].sandbox_path@ == sandbox_path@,
            r.mounts@[self.mounts@.len() as int].perm == kind,
            r.env == self.env,
            r.memory_limit == self.memory_limit,
            r.cpu_limit_millis == self.cpu_limit_millis,
            r.workdir == self.workdir,
            r.user == self.user,
            r.cmd == self.cmd,
            r.enable_networking == self.enable_networking,
            r.image == self.image,
    {
        let mut this = self;
        this.mounts.push(
            MountConfig {
                host_path: host_path.to_owned(),
                sandbox_path: sandbox_path.to_owned(),
                perm: kind,
            },
        );
        proof {
            assert(this.mounts@.subrange(0, this.mounts@.len() - 1) =~= self.mounts@);
        }
        this
    }

    /// Set or clear the memory cap, in bytes.
    pub fn memory_limit(self, limit: Option<u64>) -> (r: Self)
        ensures
            r == (SandboxBuilder { memory_limit: limit, ..self }),
    {
        let mut this = self;
        this.memory_limit = limit;
        this
    }

    /// Set or clear the CPU cap, in thousandths of a core.
    pub fn cpu_limit(self, millis: Option<u64>) -> (r: Self)
        ensures
            r == (SandboxBuilder { cpu_limit_millis: millis, ..self }),
    {
        let mut this = self;
        this.cpu_limit_millis = millis;
        this
    }

    /// Enable or disable networking inside the sandbox.
    pub fn enable_networking(self, enable: bool) -> (r: Self)
        ensures
            r == (SandboxBuilder { enable_networking: enable, ..self }),
    {
        let mut this = self;
        this.enable_networking = enable;
        this
    }

    /// Override the image used for this sandbox.
    pub fn image(self, image: SandboxImage) -> (r: Self)
        ensures
            r == (SandboxBuilder { image: Some(image.name), ..self }),
    {
        let mut this = self;
        this.image = Some(image.name);
        this
    }

    /// Add one environment pair.
    pub fn env(self, key: &str, value: &str) -> (r: Self)
        ensures
            r.env@.len() == self.env@.len() + 1,
            r.env@.subrange(0, self.env@.len() as int) == self.env@,
            r.env@[self.env@.len() as int].0@ == key@,
            r.env@[self.env@.len() as int].1@ == value@,
            r.mounts == self.mounts,
            r.memory_limit == self.memory_limit,
            r.cpu_limit_millis == self.cpu_limit_millis,
            r.workdir == self.workdir,
            r.user == self.user,
            r.cmd == self.cmd,
            r.enable_networking == self.enable_networking,
            r.image == self.image,
    {
        let mut this = self;
        this.env.push((key.to_owned(), value.to_owned()));
        proof {
            assert(this.env@.subrange(0, this.env@.len() - 1) =~= self.env@);
        }
        this
    }

    /// Set the command vector run inside the sandbox.
    pub fn cmd(self, cmd: Vec<String>) -> (r: Self)
        ensures
            r == (SandboxBuilder { cmd, ..self }),
    {
        let mut this = self;
        this.cmd = cmd;
        this
    }

    /// Set the working directory inside the sandbox.
    pub fn workdir(self, workdir: &str) -> (r: Self)
        ensures
            r.workdir matches Some(w) && w@ == workdir@,
            r == (SandboxBuilder { workdir: r.workdir, ..self }),
    {
        let mut this = self;
        this.workdir = Some(workdir.to_owned());
        this
    }

    /// Map the sandboxed process to this user and group.
    pub fn user(self, user: u32, group: u32) -> (r: Self)
        ensures
            r.user matches Some(u) && u@ == text::dec_rep(user as nat) + ":"@ + text::dec_rep(
                group as nat,
            ),
            r == (SandboxBuilder { user: r.user, ..self }),
    {
        let mut s = text::u32_to_string(user);
        s.append(":");
        let g = text::u32_to_string(group);
        s.append(g.as_str());
        let mut this = self;
        this.user = Some(s);
        this
    }
}

/// The `-v` pairs for the mounts, each rebased onto the host; nothing when a
/// mount cannot be rebased.
pub open spec fn mount_vol_args(mounts: Seq<MountConfig>, ms: Option<Seq<Mount>>) -> Option<
    Seq<Seq<char>>,
>
    decreases mounts.len(),
{
    if mounts.len() == 0 {
        Some(Seq::empty())
    } else {
        match host_path_spec(mounts[0].host_path@, ms) {
            None => None,
            Some(h) => match mount_vol_args(mounts.subrange(1, mounts.len() as int), ms) {
                None => None,
                Some(rest) => Some(seq!["-v"@, mounts[0].volume_arg_spec(h)] + rest),
            },
        }
    }
}

/// The `-e` pairs for the environment.
pub open spec fn env_args(env: Seq<(String, String)>) -> Seq<Seq<char>>
    decreases env.len(),
{
    if env.len() == 0 {
        Seq::empty()
    } else {
        seq!["-e"@, env[0].0@ + "="@ + env[0].1@] + env_args(env.subrange(1, env.len() as int))
    }
}

/// Appending one pair appends its two arguments.
proof fn lemma_env_args_snoc(env: Seq<(String, String)>, e: (String, String))
    ensures
        env_args(env.push(e)) == env_args(env) + seq!["-e"@, e.0@ + "="@ + e.1@],
    decreases env.len(),
{
    let ep = env.push(e);
    let earg = seq!["-e"@, e.0@ + "="@ + e.1@];
    if env.len() == 0 {
        assert(ep[0] == e);
        assert(ep.subrange(1, ep.len() as int) =~= Seq::<(String, String)>::empty());
        assert(env_args(ep.subrange(1, ep.len() as int)) =~= Seq::<Seq<char>>::empty());
        assert(env_args(ep) == earg + env_args(ep.subrange(1, ep.len() as int)));
        assert(env_args(env) =~= Seq::<Seq<char>>::empty());
        assert(env_args(ep) =~= env_args(env) + earg);
    } else {
        let tail = env.subrange(1, env.len() as int);
        assert(ep[0] == env[0]);
        assert(ep.subrange(1, ep.len() as int) =~= tail.push(e));
        lemma_env_args_snoc(tail, e);
        let harg = seq!["-e"@, env[0].0@ + "="@ + env[0].1@];
        assert(env_args(ep) == harg + env_args(tail.push(e)));
        assert(env_args(tail.push(e)) == env_args(tail) + earg);
        assert(env_args(env) == harg + env_args(tail));
        assert(harg + (env_args(tail) + earg) =~= (harg + env_args(tail)) + earg);
    }
}

/// A flag with its value, or nothing.
pub open spec fn opt_flag_arg(flag: Seq<char>, v: Option<Seq<char>>) -> Seq<Seq<char>> {
    match v {
        Some(x) => seq![flag, x],
        None => Seq::empty(),
    }
}

/// The CPU cap as the runtime reads it: whole cores, a point, and three
/// digits of thousandths.
pub open spec fn cpu_arg(m: u64) -> Seq<char> {
    text::dec_rep((m / 1000) as nat) + "."@ + text::dec_rep(((m % 1000) / 100) as nat)
        + text::dec_rep(((m % 100) / 10) as nat) + text::dec_rep((m % 10) as nat)
}

/// The view of an optional string.
pub open spec fn opt_view(v: Option<String>) -> Option<Seq<char>> {
    match v {
        Some(s) => Some(s@),
        None => None,
    }
}

/// The rendered memory cap.
pub open spec fn mem_arg(v: Option<u64>) -> Option<Seq<char>> {
    match v {
        Some(m) => Some(text::dec_rep(m as nat)),
        None => None,
    }
}

/// The rendered CPU cap.
pub open spec fn cpu_arg_opt(v: Option<u64>) -> Option<Seq<char>> {
    match v {
        Some(m) => Some(cpu_arg(m)),
        None => None,
    }
}

/// The networking arguments: none when networking is enabled, the `none`
/// network otherwise.
pub open spec fn net_args(enable: bool) -> Seq<Seq<char>> {
    if enable {
        Seq::empty()
    } else {
        seq!["--network"@, "none"@]
    }
}

/// The image reference used: the override, or the workspace default.
pub open spec fn image_ref(b: SandboxBuilder, ws: &Workspace) -> Seq<char> {
    match b.image {
        Some(i) => i@,
        None => ws.sandbox_image_name@,
    }
}

/// The whole `create` invocation of the container runtime, in order: the
/// mounts, the environment, the working directory, the memory and CPU caps,
/// the user mapping, the network policy, the image, and the command. Nothing
/// when a mount cannot be rebased onto the host.
pub open spec fn create_args_spec(b: SandboxBuilder, ws: &Workspace) -> Option<Seq<Seq<char>>> {
    match mount_vol_args(b.mounts@, ws_mounts(ws)) {
        None => None,
        Some(mv) => Some(
            seq!["create"@] + mv + env_args(b.env@) + opt_flag_arg("-w"@, opt_view(b.workdir))
                + opt_flag_arg("-m"@, mem_arg(b.memory_limit)) + opt_flag_arg(
                "--cpus"@,
                cpu_arg_opt(b.cpu_limit_millis),
            ) + opt_flag_arg("--user"@, opt_view(b.user)) + net_args(b.enable_networking) + seq![
                image_ref(b, ws),
            ] + text::strs(b.cmd@),
        ),
    }
}

/// Render the `-v` pairs for the mounts; fails when one cannot be rebased.
fn render_mount_args(mounts: &Vec<MountConfig>, workspace: &Workspace) -> (r: Result<
    Vec<String>,
    CommandError,
>)
    ensures
        match r {
            Ok(v) => mount_vol_args(mounts@, ws_mounts(workspace)) == Some(text::strs(v@)),
            Err(e) => e == CommandError::WorkspaceNotMountedCorrectly && mount_vol_args(
                mounts@,
                ws_mounts(workspace),
            ) is None,
        },
{
    let ghost ms = ws_mounts(workspace);
    let mut out: Vec<String> = Vec::new();
    proof {
        assert(mounts@.subrange(0, mounts@.len() as int) =~= mounts@);
        if !(mount_vol_args(mounts@, ms) is None) {
            assert(Seq::<Seq<char>>::empty() + mount_vol_args(mounts@, ms)->Some_0
                =~= mount_vol_args(mounts@, ms)->Some_0);
        }
        assert(text::strs(out@) =~= Seq::<Seq<char>>::empty());
    }
    let mut i: usize = 0;
    while i < mounts.len()
        invariant
            0 <= i <= mounts@.len(),
            ms == ws_mounts(workspace),
            match mount_vol_args(mounts@.subrange(i as int, mounts@.len() as int), ms) {
                Some(rest) => mount_vol_args(mounts@, ms) == Some(text::strs(out@) + rest),
                None => mount_vol_args(mounts@, ms) is None,
            },
        decreases mounts@.len() - i,
    {
        let mc = vstd::std_specs::vec::vec_index(mounts, i);
        let ghost rest = mounts@.subrange(i as int, mounts@.len() as int);
        proof {
            assert(rest[0] == mounts@[i as int]);
            assert(rest.subrange(1, rest.len() as int) =~= mounts@.subrange(
                i + 1,
                mounts@.len() as int,
            ));
        }
        match mc.to_volume_arg(workspace) {
            Ok(vol) => {
                let ghost before = out@;
                let ghost h = host_path_spec(mounts@[i as int].host_path@, ms)->Some_0;
                let ghost varg = mounts@[i as int].volume_arg_spec(h);
                out.push("-v".to_owned());
                out.push(vol);
                proof {
                    assert(text::strs(out@) =~= text::strs(before) + seq!["-v"@, varg]);
                    let tailrest = mounts@.subrange(i + 1, mounts@.len() as int);
                    assert(rest.subrange(1, rest.len() as int) == tailrest);
                    match mount_vol_args(tailrest, ms) {
                        Some(r2) => {
                            assert(mount_vol_args(rest, ms) == Some(seq!["-v"@, varg] + r2));
                            assert((text::strs(before) + (seq!["-v"@, varg] + r2)) =~= (text::strs(
                                before,
                            ) + seq!["-v"@, varg]) + r2);
                        },
                        None => {},
                    }
                }
            },
            Err(_e) => {
                proof {
                    assert(mount_vol_args(rest, ms) is None);
                }
                return Err(CommandError::WorkspaceNotMountedCorrectly);
            },
        }
        i += 1;
    }
    proof {
        assert(mounts@.subrange(mounts@.len() as int, mounts@.len() as int)
            =~= Seq::<MountConfig>::empty());
        if !(mount_vol_args(mounts@, ms) is None) {
            assert(text::strs(out@) + Seq::<Seq<char>>::empty() =~= text::strs(out@));
        }
    }
    Ok(out)
}

/// Render the `-e` pairs for the environment.
fn render_env_args(env: &Vec<(String, String)>) -> (r: Vec<String>)
    ensures
        text::strs(r@) == env_args(env@),
{
    let mut out: Vec<String> = Vec::new();
    proof {
        assert(env@.subrange(0, 0) =~= Seq::<(String, String)>::empty());
        assert(text::strs(out@) =~= env_args(env@.subrange(0, 0)));
    }
    let mut j: usize = 0;
    while j < env.len()
        invariant
            0 <= j <= env@.len(),
            text::strs(out@) == env_args(env@.subrange(0, j as int)),
        decreases env@.len() - j,
    {
        let e = vstd::std_specs::vec::vec_index(env, j);
        let mut kv = e.0.clone();
        kv.append("=");
        kv.append(e.1.as_str());
        let ghost before = out@;
        out.push("-e".to_owned());
        out.push(kv);
        proof {
            lemma_env_args_snoc(env@.subrange(0, j as int), env@[j as int]);
            assert(env@.subrange(0, j + 1) =~= env@.subrange(0, j as int).push(env@[j as int]));
            assert(text::strs(out@) =~= text::strs(before) + seq![
                "-e"@,
                env@[j as int].0@ + "="@ + env@[j as int].1@,
            ]);
        }
        j += 1;
    }
    proof {
        assert(env@.subrange(0, env@.len() as int) =~= env@);
    }
    out
}

impl SandboxBuilder {
    /// Render the `create` invocation of the container runtime; fails when a
    /// mount cannot be rebased onto the host. The mount sources must exist
    /// before the invocation runs.
    #[verifier::rlimit(30)]
    pub fn create_args(&self, workspace: &Workspace) -> (r: Result<Vec<String>, CommandError>)
        ensures
            match r {
                Ok(v) => create_args_spec(*self, workspace) == Some(text::strs(v@)),
                Err(e) => e == CommandError::WorkspaceNotMountedCorrectly && create_args_spec(
                    *self,
                    workspace,
                ) is None,
            },
    {
        let mut vols = match render_mount_args(&self.mounts, workspace) {
            Ok(v) => v,
            Err(e) => {
                return Err(e);
            },
        };
        let ghost mv = mount_vol_args(self.mounts@, ws_mounts(workspace))->Some_0;
        let mut args: Vec<String> = Vec::new();
        args.push("create".to_owned());
        args.append(&mut vols);
        let ghost base = seq!["create"@] + mv;
        proof {
            assert(text::strs(args@) =~= base);
        }
        let mut envs = render_env_args(&self.env);
        args.append(&mut envs);
        let ghost base2 = base + env_args(self.env@);
        proof {
            assert(text::strs(args@) =~= base2);
        }
        match &self.workdir {
            Some(w) => {
                args.push("-w".to_owned());
                args.push(w.clone());
            },
            None => {},
        }
        let ghost base3 = base2 + opt_flag_arg("-w"@, opt_view(self.workdir));
        proof {
            assert(text::strs(args@) =~= base3);
        }
        match self.memory_limit {
            Some(m) => {
                args.push("-m".to_owned());
                args.push(text::u64_to_string(m));
            },
            None => {},
        }
        let ghost base4 = base3 + opt_flag_arg("-m"@, mem_arg(self.memory_limit));
        proof {
            assert(text::strs(args@) =~= base4);
        }
        match self.cpu_limit_millis {
            Some(m) => {
                let mut s = text::u64_to_string(m / 1000);
                s.append(".");
                let d1 = text::u64_to_string((m % 1000) / 100);
                let d2 = text::u64_to_string((m % 100) / 10);
                let d3 = text::u64_to_string(m % 10);
                s.append(d1.as_str());
                s.append(d2.as_str());
                s.append(d3.as_str());
                args.push("--cpus".to_owned());
                args.push(s);
                proof {
                    assert(s@ == cpu_arg(m));
                }
            },
            None => {},
        }
        let ghost base5 = base4 + opt_flag_arg("--cpus"@, cpu_arg_opt(self.cpu_limit_millis));
        proof {
            assert(text::strs(args@) =~= base5);
        }
        match &self.user {
            Some(u) => {
                args.push("--user".to_owned());
                args.push(u.clone());
            },
            None => {},
        }
        let ghost base6 = base5 + opt_flag_arg("--user"@, opt_view(self.user));
        proof {
            assert(text::strs(args@) =~= base6);
        }
        if !self.enable_networking {
            args.push("--network".to_owned());
            args.push("none".to_owned());
        }
        let ghost base7 = base6 + net_args(self.enable_networking);
        proof {
            assert(text::strs(args@) =~= base7);
        }
        match &self.image {
            Some(i) => {
                args.push(i.clone());
            },
            None => {
                args.push(workspace.sandbox_image_name.clone());
            },
        }
        let ghost base8 = base7 + seq![image_ref(*self, workspace)];
        proof {
            assert(text::strs(args@) =~= base8);
        }
        let mut k: usize = 0;
        while k < self.cmd.len()
            invariant
                0 <= k <= self.cmd@.len(),
                text::strs(args@) == base8 + text::strs(self.cmd@).subrange(0, k as int),
                base8 == base7 + seq![image_ref(*self, workspace)],
            decreases self.cmd@.len() - k,
        {
            let ghost before = args@;
            args.push(vstd::std_specs::vec::vec_index(&self.cmd, k).clone());
            proof {
                assert(text::strs(args@) =~= text::strs(before).push(self.cmd@[k as int]@));
                assert(text::strs(self.cmd@).subrange(0, k + 1) =~= text::strs(
                    self.cmd@,
                ).subrange(0, k as int).push(self.cmd@[k as int]@));
                assert(text::strs(args@) =~= base8 + text::strs(self.cmd@).subrange(0, k + 1));
            }
            k += 1;
        }
        proof {
            assert(text::strs(self.cmd@).subrange(0, self.cmd@.len() as int) =~= text::strs(
                self.cmd@,
            ));
            assert(text::strs(args@) =~= create_args_spec(*self, workspace)->Some_0);
        }
        Ok(args)
    }
}

/// What `docker manifest inspect` reports of an image: its layer sizes and
/// its config digest, when the document can be understood.
pub uninterp spec fn docker_manifest_of(s: Seq<char>) -> Option<(Seq<u64>, Seq<char>)>;

/// Relies on serde_json::from_str and the Value accessors: reads the layer
/// sizes and the config digest out of a `docker manifest inspect` document.
#[verifier::external_body]
fn parse_docker_manifest(s: &str) -> (r: Option<(Vec<u64>, String)>)
    ensures
        match r {
            Some(p) => docker_manifest_of(s@) matches Some(q) && p.0@ == q.0 && p.1@ == q.1,
            None => docker_manifest_of(s@) is None,
        },
{
    let v: serde_json::Value = serde_json::from_str(s).ok()?;
    let digest = v.get("config")?.get("digest")?.as_str()?.to_string();
    let layers = v.get("layers")?.as_array()?;
    let sizes: Option<Vec<u64>> = layers.iter().map(|l| l.get("size").and_then(|x| x.as_u64())).collect();
    Some((sizes?, digest))
}

/// What `docker inspect` reports of a container: whether its `State` says it
/// was killed for exceeding its memory, when the document can be understood
/// and describes exactly one container.
pub uninterp spec fn inspect_oom_of(s: Seq<char>) -> Option<bool>;

/// Relies on serde_json::from_str and the Value accessors: reads the
/// `State.OOMKilled` flag out of a `docker inspect` document, an array
/// describing one container.
#[verifier::external_body]
fn parse_inspect_oom(s: &str) -> (r: Option<bool>)
    ensures
        r == inspect_oom_of(s@),
{
    let v: serde_json::Value = serde_json::from_str(s).ok()?;
    let arr = v.as_array()?;
    if arr.len() != 1 {
        return None;
    }
    arr[0].get("State")?.get("OOMKilled")?.as_bool()
}

/// The sum of an image's layer sizes, in bytes.
pub open spec fn sum_sizes(s: Seq<u64>) -> int
    decreases s.len(),
{
    if s.len() == 0 {
        0
    } else {
        sum_sizes(s.subrange(0, s.len() - 1)) + s[s.len() - 1]
    }
}

/// Sum the layer sizes, saturating at the largest representable size; the
/// flag reports saturation.
fn sum_layer_sizes(sizes: &Vec<u64>) -> (r: (u64, bool))
    ensures
        r.1 == (sum_sizes(sizes@) > u64::MAX),
        sum_sizes(sizes@) <= u64::MAX ==> r.0 == sum_sizes(sizes@),
        sum_sizes(sizes@) > u64::MAX ==> r.0 == u64::MAX,
{
    let mut total: u64 = 0;
    let mut i: usize = 0;
    let mut saturated = false;
    while i < sizes.len()
        invariant
            0 <= i <= sizes@.len(),
            !saturated ==> total == sum_sizes(sizes@.subrange(0, i as int)),
            saturated ==> total == u64::MAX && sum_sizes(sizes@.subrange(0, i as int)) > u64::MAX,
            sum_sizes(sizes@.subrange(0, i as int)) >= total,
        decreases sizes@.len() - i,
    {
        let x = *vstd::std_specs::vec::vec_index(sizes, i);
        proof {
            assert(sizes@.subrange(0, i + 1).subrange(0, i as int) =~= sizes@.subrange(0, i as int));
            assert(sizes@.subrange(0, i + 1)[i as int] == sizes@[i as int]);
        }
        if saturated {
        } else if total <= u64::MAX - x {
            total = total + x;
        } else {
            total = u64::MAX;
            saturated = true;
        }
        i += 1;
    }
    proof {
        assert(sizes@.subrange(0, sizes@.len() as int) =~= sizes@);
    }
    (total, saturated)
}

/// The image name up to its tag: the part before the first colon.
pub open spec fn until_colon(s: Seq<char>) -> int
    decreases s.len(),
{
    if s.len() == 0 {
        0
    } else if s[0] == ':' {
        0
    } else {
        1 + until_colon(s.subrange(1, s.len() as int))
    }
}

/// The reference an image is pulled by when pinned: the name without its
/// tag, an `@`, and the digest.
pub open spec fn pinned_reference(name: Seq<char>, digest: Seq<char>) -> Seq<char> {
    name.subrange(0, until_colon(name)) + "@"@ + digest
}

/// `until_colon` is the position of the first colon.
proof fn lemma_until_colon(s: Seq<char>, k: int)
    requires
        0 <= k <= s.len(),
        forall|j: int| 0 <= j < k ==> s[j] != ':',
        k < s.len() ==> s[k] == ':',
    ensures
        until_colon(s) == k,
    decreases k,
{
    if s.len() == 0 {
    } else if s[0] == ':' {
    } else {
        let tail = s.subrange(1, s.len() as int);
        assert(forall|j: int| 0 <= j < k - 1 ==> tail[j] == s[j + 1] && s[j + 1] != ':');
        lemma_until_colon(tail, k - 1);
    }
}

/// A plan to pull a remote image: the reference to pull, and the digest it
/// is pinned to when the manifest was inspected.
#[derive(Debug)]
pub struct RemotePlan {
    /// The reference handed to the runtime's pull.
    pub pull_reference: String,
    /// The digest the pull is pinned to, when one is known.
    pub digest: Option<String>,
}

impl SandboxImage {
    /// A local image, taken as it stands on this machine. Whether it exists
    /// locally is checked separately.
    pub fn local(name: &str) -> (r: Self)
        ensures
            r.name@ == name@,
    {
        SandboxImage { name: name.to_owned() }
    }

    /// Classify the outcome of checking that the image exists locally: a
    /// failed image inspection means the image is missing.
    pub fn ensure_exists_locally(&self, inspect_result: Result<(), CommandError>) -> (r: Result<
        (),
        CommandError,
    >)
        ensures
            match inspect_result {
                Ok(_) => r is Ok,
                Err(e) => r == Err::<(), CommandError>(
                    CommandError::SandboxImageMissing(Box::new(e)),
                ),
            },
    {
        match inspect_result {
            Ok(_) => Ok(()),
            Err(e) => Err(CommandError::SandboxImageMissing(Box::new(e))),
        }
    }

    /// The image's digest-pinned name, read from the first line the
    /// inspection printed, if it printed any.
    pub fn get_name_with_hash(&self, inspect_stdout: &Vec<String>) -> (r: Option<String>)
        ensures
            match r {
                Some(n) => inspect_stdout@.len() > 0 && n@ == inspect_stdout@[0]@,
                None => inspect_stdout@.len() == 0,
            },
    {
        if inspect_stdout.len() > 0 {
            Some(vstd::std_specs::vec::vec_index(inspect_stdout, 0).clone())
        } else {
            None
        }
    }

    /// Decide how a remote image is pulled. Without a size limit the image
    /// is pulled by name. With one, the manifest inspection output is read:
    /// an unreadable manifest fails, layers summing over the limit fail with
    /// the summed size before anything is downloaded, and otherwise the pull
    /// is pinned to the manifest's digest.
    pub fn remote(name: &str, size_limit: Option<u64>, manifest_json: Option<&String>) -> (r:
        Result<RemotePlan, CommandError>)
        requires
            size_limit is Some ==> manifest_json is Some,
        ensures
            size_limit is None ==> (r matches Ok(p) && p.pull_reference@ == name@
                && p.digest is None),
            size_limit matches Some(limit) ==> manifest_json matches Some(j) ==> match docker_manifest_of(
                j@,
            ) {
                None => r matches Err(e) && e is InvalidDockerManifestInspectOutput,
                Some(m) => {
                    let total = sum_sizes(m.0);
                    let reported: int = if total <= u64::MAX {
                        total
                    } else {
                        u64::MAX as int
                    };
                    if total > limit {
                        r == Err::<RemotePlan, CommandError>(
                            CommandError::SandboxImageTooLarge(reported as u64),
                        )
                    } else {
                        (r matches Ok(p) && p.pull_reference@ == pinned_reference(name@, m.1)
                            && (p.digest matches Some(d) && d@ == m.1))
                    }
                },
            },
    {
        match size_limit {
            None => Ok(RemotePlan { pull_reference: name.to_owned(), digest: None }),
            Some(limit) => {
                let j = match manifest_json {
                    Some(j) => j,
                    None => {
                        proof {
                            assert(false);
                        }
                        return Err(CommandError::WorkspaceNotMountedCorrectly);
                    },
                };
                match parse_docker_manifest(j.as_str()) {
                    None => Err(
                        CommandError::InvalidDockerManifestInspectOutput(
                            "the image manifest could not be understood".to_owned(),
                        ),
                    ),
                    Some((sizes, digest)) => {
                        let (total, saturated) = sum_layer_sizes(&sizes);
                        if saturated || total > limit {
                            Err(CommandError::SandboxImageTooLarge(total))
                        } else {
                            let n = name.unicode_len();
                            let mut k: usize = 0;
                            while k < n && name.get_char(k) != ':'
                                invariant
                                    n == name@.len(),
                                    0 <= k <= n,
                                    forall|j2: int| 0 <= j2 < k ==> name@[j2] != ':',
                                decreases n - k,
                            {
                                k += 1;
                            }
                            proof {
                                lemma_until_colon(name@, k as int);
                            }
                            let mut reference = name.substring_char(0, k).to_owned();
                            reference.append("@");
                            reference.append(digest.as_str());
                            Ok(RemotePlan { pull_reference: reference, digest: Some(digest) })
                        }
                    },
                }
            },
        }
    }
}

/// A container created from a sandbox configuration, identified by the id
/// the runtime printed.
#[derive(Debug, Clone)]
pub struct Container {
    /// The container id, the handle until deletion.
    pub id: String,
}

impl Container {
    /// The container the runtime's `create` printed: its id is the first
    /// line of the captured output, which must not be empty.
    pub fn from_create_output(stdout: &Vec<String>) -> (r: Container)
        requires
            stdout@.len() > 0,
        ensures
            r.id@ == stdout@[0]@,
    {
        Container { id: vstd::std_specs::vec::vec_index(stdout, 0).clone() }
    }

    /// The command that deletes this container, forcibly; it is issued on
    /// every exit path so the container never outlives the call.
    pub fn delete(&self, workspace: &Workspace) -> (r: crate::cmd::Command)
        ensures
            (r.binary matches crate::cmd::Binary::Global(b) && b@ == "docker"@),
            crate::text::strs(r.args@) =~= seq!["rm"@, "-f"@, self.id@],
    {
        let mut args: Vec<String> = Vec::new();
        args.push("rm".to_owned());
        args.push("-f".to_owned());
        args.push(self.id.clone());
        crate::cmd::Command::new(workspace, crate::cmd::Binary::Global("docker".to_owned())).args(
            args,
        )
    }

    /// Read the out-of-memory flag from the joined `docker inspect` output;
    /// an unreadable document is an inspection error.
    pub fn inspect_oom(&self, inspect_output: &str) -> (r: Result<bool, CommandError>)
        ensures
            match inspect_oom_of(inspect_output@) {
                Some(b) => r == Ok::<bool, CommandError>(b),
                None => r matches Err(e) && e is InvalidDockerInspectOutput,
            },
    {
        match parse_inspect_oom(inspect_output) {
            Some(b) => Ok(b),
            None => Err(
                CommandError::InvalidDockerInspectOutput(
                    "the container inspection could not be understood".to_owned(),
                ),
            ),
        }
    }
}

/// Rewrite a run's outcome after inspecting the container: when it was
/// killed for exceeding its memory, a success or a plain nonzero exit is
/// reported as the sandbox running out of memory, while any other error
/// stands.
pub fn oom_adjust(res: Result<ProcessOutput, CommandError>, oom_killed: bool) -> (r: Result<
    ProcessOutput,
    CommandError,
>)
    ensures
        !oom_killed ==> r == res,
        oom_killed ==> match res {
            Ok(_) => r == Err::<ProcessOutput, CommandError>(CommandError::SandboxOOM),
            Err(e) => if e is ExecutionFailed {
                r == Err::<ProcessOutput, CommandError>(CommandError::SandboxOOM)
            } else {
                r == Err::<ProcessOutput, CommandError>(e)
            },
        },
{
    if !oom_killed {
        return res;
    }
    match res {
        Ok(_) => Err(CommandError::SandboxOOM),
        Err(e) => {
            let is_exec_failed = match &e {
                CommandError::ExecutionFailed { .. } => true,
                _ => false,
            };
            if is_exec_failed {
                Err(CommandError::SandboxOOM)
            } else {
                Err(e)
            }
        },
    }
}

} // verus!
