//! Command execution: the command builder, the captured output, the errors
//! a command can fail with, and the executor's decisions — timeouts, line
//! transformation, capture and exit classification. Spawning the child and
//! waiting on it happen outside the library, which is handed the events.

use vstd::prelude::*;
use vstd::string::*;
use crate::text;
use crate::workspace::Workspace;

pub mod actions;
pub mod process_lines_actions;
pub mod sandbox;

pub use actions::Actions;
pub use process_lines_actions::InnerState;
pub use process_lines_actions::ProcessLinesActions;
pub use sandbox::oom_adjust;
pub use sandbox::Container;
pub use sandbox::MountKind;
pub use sandbox::SandboxBuilder;
pub use sandbox::SandboxImage;

verus! {

/// Killing a process failed.
#[derive(Debug, PartialEq)]
pub struct KillFailedError {
    /// The process that could not be killed.
    pub pid: u32,
    /// The error number the operating system reported, when one is known.
    pub errno: Option<i32>,
}

impl KillFailedError {
    /// The PID of the process that could not be killed.
    pub fn pid(&self) -> (r: u32)
        ensures
            r == self.pid,
    {
        self.pid
    }

    /// The underlying error number provided by the operating system.
    pub fn errno(&self) -> (r: Option<i32>)
        ensures
            r == self.errno,
    {
        self.errno
    }
}

/// An error while executing a command.
#[derive(Debug, PartialEq)]
pub enum CommandError {
    /// The command printed nothing for the given number of seconds and was
    /// killed.
    NoOutputFor(u64),
    /// The command ran longer than the given number of seconds and was
    /// killed.
    Timeout(u64),
    /// The command exited with a nonzero status; its captured standard
    /// error is attached.
    ExecutionFailed {
        /// The exit status of the command.
        status: i32,
        /// The joined standard error lines.
        stderr: String,
    },
    /// Killing the process after a timeout failed; this replaces the
    /// timeout as the reported cause.
    KillAfterTimeoutFailed(KillFailedError),
    /// The sandbox ran out of memory and was killed.
    SandboxOOM,
    /// Pulling the sandbox image from the registry failed.
    SandboxImagePullFailed(Box<CommandError>),
    /// The sandbox image is missing from the local system.
    SandboxImageMissing(Box<CommandError>),
    /// The sandbox image's layers sum to more bytes than the configured
    /// limit.
    SandboxImageTooLarge(u64),
    /// The sandbox container could not be created.
    SandboxContainerCreate(Box<CommandError>),
    /// The workspace is not mounted from outside the container this process
    /// runs in.
    WorkspaceNotMountedCorrectly,
    /// The container inspection output could not be understood.
    InvalidDockerInspectOutput(String),
    /// The image manifest inspection output could not be understood.
    InvalidDockerManifestInspectOutput(String),
    /// An input or output error, as its description.
    IO(String),
}

/// Name and kind of a binary executed by a command.
#[derive(Debug, PartialEq)]
pub enum Binary {
    /// A binary found on the global search path, untouched.
    Global(String),
    /// A binary managed in the workspace's cargo home; resolving it sets the
    /// local `CARGO_HOME` and `RUSTUP_HOME`.
    ManagedByRustwide(String),
}

/// Which stream a line arrived on.
#[derive(Debug, PartialEq, Copy, Clone)]
pub enum OutputKind {
    /// The standard output.
    Stdout,
    /// The standard error.
    Stderr,
}

/// The log prefix of a stream.
pub open spec fn prefix_spec(k: OutputKind) -> Seq<char> {
    match k {
        OutputKind::Stdout => "stdout"@,
        OutputKind::Stderr => "stderr"@,
    }
}

impl OutputKind {
    /// The log prefix of this stream.
    pub fn prefix(&self) -> (r: &'static str)
        ensures
            r@ == prefix_spec(*self),
    {
        match self {
            OutputKind::Stdout => "stdout",
            OutputKind::Stderr => "stderr",
        }
    }
}

/// The line as it is logged: the stream prefix in brackets, then the line.
pub open spec fn logged_line(k: OutputKind, line: Seq<char>) -> Seq<char> {
    "["@ + prefix_spec(k) + "] "@ + line
}

/// Render one emitted line the way the log shows it.
pub fn log_line(kind: OutputKind, line: &str) -> (r: String)
    ensures
        r@ == logged_line(kind, line@),
{
    let mut out = "[".to_owned();
    out.append(kind.prefix());
    out.append("] ");
    out.append(line);
    out
}

/// The output captured from a command that was run with capture enabled.
#[derive(Debug, PartialEq)]
pub struct ProcessOutput {
    /// The captured standard output lines.
    pub stdout: Vec<String>,
    /// The captured standard error lines.
    pub stderr: Vec<String>,
}

impl ProcessOutput {
    /// The lines the process printed on its standard output.
    pub fn stdout_lines(&self) -> (r: &Vec<String>)
        ensures
            r == self.stdout,
    {
        &self.stdout
    }

    /// The lines the process printed on its standard error.
    pub fn stderr_lines(&self) -> (r: &Vec<String>)
        ensures
            r == self.stderr,
    {
        &self.stderr
    }
}

/// A command specification: the binary, its arguments and environment, the
/// working directory, the timeouts, the logging flags, and the sandbox it
/// runs in, if any. Running it is the caller's task; the builder only
/// records the decisions.
#[derive(Debug)]
pub struct Command {
    /// The binary to execute.
    pub binary: Binary,
    /// The arguments, in order.
    pub args: Vec<String>,
    /// The environment overlay, in order; the caller's entries win last.
    pub env: Vec<(String, String)>,
    /// The working directory, when one is set.
    pub cd: Option<String>,
    /// The wall-clock timeout in seconds, when bounded.
    pub timeout: Option<u64>,
    /// The no-output timeout in seconds, when bounded.
    pub no_output_timeout: Option<u64>,
    /// Whether each emitted line is logged.
    pub log_output: bool,
    /// Whether the command itself is logged before running.
    pub log_command: bool,
    /// The sandbox to run in, if any.
    pub sandbox: Option<SandboxBuilder>,
    /// How the cargo home is mounted into the sandbox.
    pub cargo_home_mount_kind: MountKind,
    /// The workspace's cargo home, absent for workspaceless commands.
    pub cargo_home: Option<String>,
    /// The workspace's rustup home, absent for workspaceless commands.
    pub rustup_home: Option<String>,
}

impl Command {
    /// A new, unsandboxed command bound to the workspace's defaults.
    pub fn new(workspace: &Workspace, binary: Binary) -> (r: Self)
        ensures
            r.binary == binary,
            r.args@.len() == 0,
            r.env@.len() == 0,
            r.cd is None,
            r.timeout == workspace.default_command_timeout,
            r.no_output_timeout == workspace.default_no_output_timeout,
            r.log_output,
            r.log_command,
            r.sandbox is None,
            r.cargo_home_mount_kind == MountKind::ReadOnly,
            r.cargo_home matches Some(c) && c@ == workspace.root@ + "/cargo-home"@,
            r.rustup_home matches Some(c) && c@ == workspace.root@ + "/rustup-home"@,
    {
        Command {
            binary,
            args: Vec::new(),
            env: Vec::new(),
            cd: None,
            timeout: workspace.default_command_timeout,
            no_output_timeout: workspace.default_no_output_timeout,
            log_output: true,
            log_command: true,
            sandbox: None,
            cargo_home_mount_kind: MountKind::ReadOnly,
            cargo_home: Some(workspace.cargo_home()),
            rustup_home: Some(workspace.rustup_home()),
        }
    }

    /// A new sandboxed command bound to the workspace's defaults.
    pub fn new_sandboxed(workspace: &Workspace, sandbox: SandboxBuilder, binary: Binary) -> (r:
        Self)
        ensures
            r.binary == binary,
            r.args@.len() == 0,
            r.env@.len() == 0,
            r.cd is None,
            r.timeout == workspace.default_command_timeout,
            r.no_output_timeout == workspace.default_no_output_timeout,
            r.log_output,
            r.log_command,
            r.sandbox == Some(sandbox),
            r.cargo_home_mount_kind == MountKind::ReadOnly,
            r.cargo_home matches Some(c) && c@ == workspace.root@ + "/cargo-home"@,
            r.rustup_home matches Some(c) && c@ == workspace.root@ + "/rustup-home"@,
    {
        let mut cmd = Command::new(workspace, binary);
        cmd.sandbox = Some(sandbox);
        cmd
    }

    /// A new command outside any workspace: no defaults, no managed homes.
    pub fn new_workspaceless(binary: Binary) -> (r: Self)
        ensures
            r.binary == binary,
            r.args@.len() == 0,
            r.env@.len() == 0,
            r.cd is None,
            r.timeout is None,
            r.no_output_timeout is None,
            r.log_output,
            r.log_command,
            r.sandbox is None,
            r.cargo_home_mount_kind == MountKind::ReadOnly,
            r.cargo_home is None,
            r.rustup_home is None,
    {
        Command {
            binary,
            args: Vec::new(),
            env: Vec::new(),
            cd: None,
            timeout: None,
            no_output_timeout: None,
            log_output: true,
            log_command: true,
            sandbox: None,
            cargo_home_mount_kind: MountKind::ReadOnly,
            cargo_home: None,
            rustup_home: None,
        }
    }

    /// Append command-line arguments; earlier arguments stay in front.
    pub fn args(self, args: Vec<String>) -> (r: Self)
        ensures
            r.args@ == self.args@ + args@,
            r.binary == self.binary,
            r.env == self.env,
            r.cd == self.cd,
            r.timeout == self.timeout,
            r.no_output_timeout == self.no_output_timeout,
            r.log_output == self.log_output,
            r.log_command == self.log_command,
            r.sandbox == self.sandbox,
            r.cargo_home_mount_kind == self.cargo_home_mount_kind,
            r.cargo_home == self.cargo_home,
            r.rustup_home == self.rustup_home,
    {
        let mut this = self;
        let mut args = args;
        this.args.append(&mut args);
        this
    }

    /// Add one environment variable; later entries override earlier ones.
    pub fn env(self, key: &str, value: &str) -> (r: Self)
        ensures
            r.env@.len() == self.env@.len() + 1,
            r.env@.subrange(0, self.env@.len() as int) == self.env@,
            r.env@[self.env@.len() as int].0@ == key@,
            r.env@[self.env@.len() as int].1@ == value@,
            r.binary == self.binary,
            r.args == self.args,
            r.cd == self.cd,
            r.timeout == self.timeout,
            r.no_output_timeout == self.no_output_timeout,
            r.log_output == self.log_output,
            r.log_command == self.log_command,
            r.sandbox == self.sandbox,
            r.cargo_home_mount_kind == self.cargo_home_mount_kind,
            r.cargo_home == self.cargo_home,
            r.rustup_home == self.rustup_home,
    {
        let mut this = self;
        this.env.push((key.to_owned(), value.to_owned()));
        proof {
            assert(this.env@.subrange(0, this.env@.len() - 1) =~= self.env@);
        }
        this
    }

    /// Set the directory the command runs in.
    pub fn cd(self, path: &str) -> (r: Self)
        ensures
            r.cd matches Some(p) && p@ == path@,
            r.binary == self.binary,
            r.args == self.args,
            r.env == self.env,
            r.timeout == self.timeout,
            r.no_output_timeout == self.no_output_timeout,
            r.log_output == self.log_output,
            r.log_command == self.log_command,
            r.sandbox == self.sandbox,
            r.cargo_home_mount_kind == self.cargo_home_mount_kind,
            r.cargo_home == self.cargo_home,
            r.rustup_home == self.rustup_home,
    {
        let mut this = self;
        this.cd = Some(path.to_owned());
        this
    }

    /// Set the wall-clock timeout, in seconds; the process is killed when it
    /// runs longer.
    pub fn timeout(self, timeout: Option<u64>) -> (r: Self)
        ensures
            r == (Command { timeout, ..self }),
    {
        let mut this = self;
        this.timeout = timeout;
        this
    }

    /// Set the no-output timeout, in seconds; the process is killed when it
    /// prints nothing for that long.
    pub fn no_output_timeout(self, timeout: Option<u64>) -> (r: Self)
        ensures
            r == (Command { no_output_timeout: timeout, ..self }),
    {
        let mut this = self;
        this.no_output_timeout = timeout;
        this
    }

    /// Enable or disable logging of every emitted line.
    pub fn log_output(self, log_output: bool) -> (r: Self)
        ensures
            r == (Command { log_output, ..self }),
    {
        let mut this = self;
        this.log_output = log_output;
        this
    }

    /// Enable or disable logging the command before running it.
    pub fn log_command(self, log_command: bool) -> (r: Self)
        ensures
            r == (Command { log_command, ..self }),
    {
        let mut this = self;
        this.log_command = log_command;
        this
    }

    /// Mount the cargo home read-write in the sandbox instead of read-only.
    pub fn rw_cargo_home(self) -> (r: Self)
        ensures
            r == (Command { cargo_home_mount_kind: MountKind::ReadWrite, ..self }),
    {
        let mut this = self;
        this.cargo_home_mount_kind = MountKind::ReadWrite;
        this
    }
}

/// The canonical cargo home inside the sandbox.
pub fn container_cargo_home() -> (r: &'static str)
    ensures
        r@ == "/opt/rustwide/cargo-home"@,
{
    "/opt/rustwide/cargo-home"
}

/// The canonical rustup home inside the sandbox.
pub fn container_rustup_home() -> (r: &'static str)
    ensures
        r@ == "/opt/rustwide/rustup-home"@,
{
    "/opt/rustwide/rustup-home"
}

/// The binary name as it is invoked inside the sandbox: a global binary by
/// its own name, a managed one resolved in the sandbox's cargo home.
pub open spec fn sandboxed_binary(b: Binary) -> Seq<char> {
    match b {
        Binary::Global(p) => p@,
        Binary::ManagedByRustwide(p) => "/opt/rustwide/cargo-home/bin/"@ + p@,
    }
}

/// The sandbox work directory a command runs in: its working directory, or
/// the current directory when none is set.
pub open spec fn sandbox_source_dir(cd: Option<String>) -> Seq<char> {
    match cd {
        Some(d) => d@,
        None => "."@,
    }
}

impl Command {
    /// Populate this command's sandbox: the source directory mounted on the
    /// work directory, the command vector with the binary resolved inside
    /// the sandbox, the user mapping, the caller's environment, and the
    /// cargo and rustup homes mounted with their canonical paths exported.
    pub fn sandbox_plan(self, user: Option<(u32, u32)>) -> (r: SandboxBuilder)
        requires
            self.sandbox is Some,
            self.cargo_home is Some,
            self.rustup_home is Some,
        ensures
            r.mounts@.len() == self.sandbox->Some_0.mounts@.len() + 3,
            r.mounts@.subrange(0, self.sandbox->Some_0.mounts@.len() as int)
                == self.sandbox->Some_0.mounts@,
            ({
                let m = r.mounts@[self.sandbox->Some_0.mounts@.len() as int];
                m.host_path@ == sandbox_source_dir(self.cd) && m.sandbox_path@
                    == "/opt/rustwide/workdir"@ && m.perm == MountKind::ReadOnly
            }),
            ({
                let m = r.mounts@[self.sandbox->Some_0.mounts@.len() as int + 1];
                m.host_path@ == self.cargo_home->Some_0@ && m.sandbox_path@
                    == "/opt/rustwide/cargo-home"@ && m.perm == self.cargo_home_mount_kind
            }),
            ({
                let m = r.mounts@[self.sandbox->Some_0.mounts@.len() as int + 2];
                m.host_path@ == self.rustup_home->Some_0@ && m.sandbox_path@
                    == "/opt/rustwide/rustup-home"@ && m.perm == MountKind::ReadOnly
            }),
            env_pairs(r.env@) == env_pairs(self.sandbox->Some_0.env@) + seq![
                ("SOURCE_DIR"@, "/opt/rustwide/workdir"@),
            ] + env_pairs(self.env@) + seq![
                ("CARGO_HOME"@, "/opt/rustwide/cargo-home"@),
                ("RUSTUP_HOME"@, "/opt/rustwide/rustup-home"@),
            ],
            r.workdir matches Some(w) && w@ == "/opt/rustwide/workdir"@,
            text::strs(r.cmd@) == seq![sandboxed_binary(self.binary)] + text::strs(self.args@),
            match user {
                Some(ug) => r.user matches Some(u) && u@ == text::dec_rep(ug.0 as nat) + ":"@
                    + text::dec_rep(ug.1 as nat),
                None => r.user == self.sandbox->Some_0.user,
            },
            r.memory_limit == self.sandbox->Some_0.memory_limit,
            r.cpu_limit_millis == self.sandbox->Some_0.cpu_limit_millis,
            r.enable_networking == self.sandbox->Some_0.enable_networking,
            r.image == self.sandbox->Some_0.image,
    {
        let ghost sb0 = self.sandbox->Some_0;
        let ghost cd0 = self.cd;
        let ghost env0 = self.env@;
        let ghost args0 = self.args@;
        let ghost binary0 = self.binary;
        let Command {
            binary,
            args,
            env,
            cd,
            timeout: _,
            no_output_timeout: _,
            log_output: _,
            log_command: _,
            sandbox,
            cargo_home_mount_kind,
            cargo_home,
            rustup_home,
        } = self;
        let builder = match sandbox {
            Some(b) => b,
            None => {
                proof {
                    assert(false);
                }
                SandboxBuilder::new()
            },
        };
        let cargo_home = match cargo_home {
            Some(h) => h,
            None => {
                proof {
                    assert(false);
                }
                String::new()
            },
        };
        let rustup_home = match rustup_home {
            Some(h) => h,
            None => {
                proof {
                    assert(false);
                }
                String::new()
            },
        };
        let source_dir: String = match cd {
            Some(d) => d,
            None => ".".to_owned(),
        };
        proof {
            assert(source_dir@ == sandbox_source_dir(cd0));
        }

        let resolved: String = match binary {
            Binary::Global(p) => p,
            Binary::ManagedByRustwide(p) => text::concat2(
                "/opt/rustwide/cargo-home/bin/",
                p.as_str(),
            ),
        };
        proof {
            assert(resolved@ == sandboxed_binary(binary0));
        }
        let mut cmd_vec: Vec<String> = Vec::new();
        cmd_vec.push(resolved);
        let mut args = args;
        cmd_vec.append(&mut args);
        proof {
            assert(text::strs(cmd_vec@) =~= seq![sandboxed_binary(binary0)] + text::strs(args0));
        }

        let mut b = builder.mount(source_dir.as_str(), "/opt/rustwide/workdir", MountKind::ReadOnly)
            .env("SOURCE_DIR", "/opt/rustwide/workdir")
            .workdir("/opt/rustwide/workdir")
            .cmd(cmd_vec);
        match user {
            Some((uid, gid)) => {
                b = b.user(uid, gid);
            },
            None => {},
        }
        proof {
            assert(env_pairs(b.env@) =~= env_pairs(sb0.env@) + seq![
                ("SOURCE_DIR"@, "/opt/rustwide/workdir"@),
            ]);
        }
        let ghost env_before = b.env@;
        let mut i: usize = 0;
        proof {
            assert(env_pairs(env0.subrange(0, 0)) =~= Seq::<(Seq<char>, Seq<char>)>::empty());
            assert(env_pairs(b.env@) =~= env_pairs(env_before) + env_pairs(env0.subrange(0, 0)));
        }
        while i < env.len()
            invariant
                0 <= i <= env0.len(),
                env@ == env0,
                env_pairs(b.env@) == env_pairs(env_before) + env_pairs(env0.subrange(0, i as int)),
                env_pairs(env_before) == env_pairs(sb0.env@) + seq![
                    ("SOURCE_DIR"@, "/opt/rustwide/workdir"@),
                ],
                b.mounts@.len() == sb0.mounts@.len() + 1,
                b.mounts@.subrange(0, sb0.mounts@.len() as int) == sb0.mounts@,
                b.mounts@[sb0.mounts@.len() as int].host_path@ == sandbox_source_dir(cd0),
                b.mounts@[sb0.mounts@.len() as int].sandbox_path@ == "/opt/rustwide/workdir"@,
                b.mounts@[sb0.mounts@.len() as int].perm == MountKind::ReadOnly,
                b.workdir matches Some(w) && w@ == "/opt/rustwide/workdir"@,
                text::strs(b.cmd@) == seq![sandboxed_binary(binary0)] + text::strs(args0),
                match user {
                    Some(ug) => b.user matches Some(u) && u@ == text::dec_rep(ug.0 as nat) + ":"@
                        + text::dec_rep(ug.1 as nat),
                    None => b.user == sb0.user,
                },
                b.memory_limit == sb0.memory_limit,
                b.cpu_limit_millis == sb0.cpu_limit_millis,
                b.enable_networking == sb0.enable_networking,
                b.image == sb0.image,
            decreases env0.len() - i,
        {
            let e = vstd::std_specs::vec::vec_index(&env, i);
            let ghost prev = b.env@;
            b = b.env(e.0.as_str(), e.1.as_str());
            proof {
                assert(env_pairs(b.env@) =~= env_pairs(prev).push(
                    (env0[i as int].0@, env0[i as int].1@),
                ));
                assert(env_pairs(env0.subrange(0, i + 1)) =~= env_pairs(
                    env0.subrange(0, i as int),
                ).push((env0[i as int].0@, env0[i as int].1@)));
            }
            i += 1;
        }
        proof {
            assert(env0.subrange(0, env0.len() as int) =~= env0);
        }
        let b = b.mount(cargo_home.as_str(), "/opt/rustwide/cargo-home", cargo_home_mount_kind)
            .mount(rustup_home.as_str(), "/opt/rustwide/rustup-home", MountKind::ReadOnly)
            .env("CARGO_HOME", "/opt/rustwide/cargo-home")
            .env("RUSTUP_HOME", "/opt/rustwide/rustup-home");
        proof {
            assert(b.mounts@.subrange(0, sb0.mounts@.len() as int) =~= sb0.mounts@);
            assert(env_pairs(b.env@) =~= env_pairs(sb0.env@) + seq![
                ("SOURCE_DIR"@, "/opt/rustwide/workdir"@),
            ] + env_pairs(env0) + seq![
                ("CARGO_HOME"@, "/opt/rustwide/cargo-home"@),
                ("RUSTUP_HOME"@, "/opt/rustwide/rustup-home"@),
            ]);
        }
        b
    }
}

/// The views of environment pairs, in order.
pub open spec fn env_pairs(env: Seq<(String, String)>) -> Seq<(Seq<char>, Seq<char>)> {
    env.map_values(|e: (String, String)| (e.0@, e.1@))
}

impl Command {
    /// Resolve the binary for running outside a sandbox: a global binary by
    /// its own name with nothing added, a managed one under `bin/` in the
    /// workspace's cargo home, with the workspace's homes exported. The
    /// paths handed to the library are already normalized.
    pub fn resolve_binary(&self) -> (r: (String, Vec<(String, String)>))
        requires
            self.binary is ManagedByRustwide ==> self.cargo_home is Some && self.rustup_home
                is Some,
        ensures
            match self.binary {
                Binary::Global(p) => r.0@ == p@ && r.1@.len() == 0,
                Binary::ManagedByRustwide(p) => r.0@ == self.cargo_home->Some_0@ + "/bin/"@ + p@
                    && env_pairs(r.1@) =~= seq![
                    ("CARGO_HOME"@, self.cargo_home->Some_0@),
                    ("RUSTUP_HOME"@, self.rustup_home->Some_0@),
                ],
            },
    {
        match &self.binary {
            Binary::Global(p) => (p.clone(), Vec::new()),
            Binary::ManagedByRustwide(p) => {
                let cargo_home = match &self.cargo_home {
                    Some(h) => h.clone(),
                    None => {
                        proof {
                            assert(false);
                        }
                        String::new()
                    },
                };
                let rustup_home = match &self.rustup_home {
                    Some(h) => h.clone(),
                    None => {
                        proof {
                            assert(false);
                        }
                        String::new()
                    },
                };
                let program = text::concat3(cargo_home.as_str(), "/bin/", p.as_str());
                let mut env: Vec<(String, String)> = Vec::new();
                env.push(("CARGO_HOME".to_owned(), cargo_home));
                env.push(("RUSTUP_HOME".to_owned(), rustup_home));
                (program, env)
            },
        }
    }
}

/// The timer that cut a command off.
#[derive(Debug, PartialEq, Copy, Clone)]
pub enum TimeoutKind {
    /// The no-output timer: nothing was printed for too long.
    NoOutput,
    /// The wall-clock timer: the command ran for too long.
    WallClock,
}

/// Seven days, the wall-clock timeout used when none is configured.
pub const UNBOUNDED_TIMEOUT_SECS: u64 = 7 * 24 * 60 * 60;

/// The effective wall-clock timeout: the configured one, or seven days when
/// unbounded.
pub open spec fn effective_wall(t: Option<u64>) -> u64 {
    match t {
        Some(t) => t,
        None => UNBOUNDED_TIMEOUT_SECS,
    }
}

/// The effective no-output timeout: the configured one, or the effective
/// wall-clock timeout when unbounded.
pub open spec fn effective_idle(i: Option<u64>, t: Option<u64>) -> u64 {
    match i {
        Some(i) => i,
        None => effective_wall(t),
    }
}

/// Which timer, if any, cuts the command off when the next stream event
/// arrives `gap_secs` after the previous one, `elapsed_secs` after the
/// start: a silence longer than the no-output timeout fires first; otherwise
/// an arrival past the wall-clock timeout fires.
pub open spec fn cutoff_spec(idle: u64, wall: u64, gap_secs: u64, elapsed_secs: u64) -> Option<
    TimeoutKind,
> {
    if gap_secs > idle {
        Some(TimeoutKind::NoOutput)
    } else if elapsed_secs > wall {
        Some(TimeoutKind::WallClock)
    } else {
        None
    }
}

/// The error reported after a timeout: the kill failure when killing the
/// child failed, else the timeout itself.
pub open spec fn timeout_error_spec(
    idle: u64,
    wall: u64,
    kind: TimeoutKind,
    kill_result: Result<(), KillFailedError>,
) -> CommandError {
    match kill_result {
        Err(e) => CommandError::KillAfterTimeoutFailed(e),
        Ok(_) => match kind {
            TimeoutKind::NoOutput => CommandError::NoOutputFor(idle),
            TimeoutKind::WallClock => CommandError::Timeout(wall),
        },
    }
}

/// The lines emitted for one read line, after the callback's decision.
pub open spec fn emitted_lines(line: String, action: InnerState) -> Seq<String> {
    match action {
        InnerState::Removed => Seq::empty(),
        InnerState::Original => seq![line],
        InnerState::Replaced(v) => v@,
    }
}

/// What finishing an execution returns: the captured output on a zero exit
/// status, and the failure with the joined standard error otherwise.
pub open spec fn finish_post(
    stdout: Seq<String>,
    stderr: Seq<String>,
    success: bool,
    status: i32,
    r: Result<ProcessOutput, CommandError>,
) -> bool {
    if success {
        r matches Ok(out) && out.stdout@ == stdout && out.stderr@ == stderr
    } else {
        r matches Err(CommandError::ExecutionFailed { status: s, stderr: joined }) && s == status
            && joined@ == text::join_rep(text::strs(stderr), "\n"@)
    }
}

/// An error a timeout produces.
pub open spec fn is_timeout_error(e: CommandError) -> bool {
    e is NoOutputFor || e is Timeout || e is KillAfterTimeoutFailed
}

/// The executor's state while a command runs: the effective timeouts, the
/// capture flag, and the lines retained so far. The standard error is always
/// retained for error reporting; the standard output only under capture.
pub struct Executor {
    /// The effective wall-clock timeout, in seconds.
    pub wall_timeout: u64,
    /// The effective no-output timeout, in seconds.
    pub idle_timeout: u64,
    /// Whether standard output is captured.
    pub capture: bool,
    /// The standard output lines retained so far.
    pub stdout: Vec<String>,
    /// The standard error lines retained so far.
    pub stderr: Vec<String>,
}

impl Executor {
    /// Start an execution with the command's timeouts.
    pub fn new(timeout: Option<u64>, no_output_timeout: Option<u64>, capture: bool) -> (r: Self)
        ensures
            r.wall_timeout == effective_wall(timeout),
            r.idle_timeout == effective_idle(no_output_timeout, timeout),
            r.capture == capture,
            r.stdout@.len() == 0,
            r.stderr@.len() == 0,
    {
        let wall: u64 = match timeout {
            Some(t) => t,
            None => UNBOUNDED_TIMEOUT_SECS,
        };
        let idle: u64 = match no_output_timeout {
            Some(i) => i,
            None => wall,
        };
        Executor { wall_timeout: wall, idle_timeout: idle, capture, stdout: Vec::new(), stderr: Vec::new() }
    }

    /// Which timer, if any, cuts the command off at this event.
    pub fn cutoff(&self, gap_secs: u64, elapsed_secs: u64) -> (r: Option<TimeoutKind>)
        ensures
            r == cutoff_spec(self.idle_timeout, self.wall_timeout, gap_secs, elapsed_secs),
    {
        if gap_secs > self.idle_timeout {
            Some(TimeoutKind::NoOutput)
        } else if elapsed_secs > self.wall_timeout {
            Some(TimeoutKind::WallClock)
        } else {
            None
        }
    }

    /// The error reported for a timeout, given how killing the child went.
    pub fn timeout_error(&self, kind: TimeoutKind, kill_result: Result<(), KillFailedError>) -> (r:
        CommandError)
        ensures
            r == timeout_error_spec(self.idle_timeout, self.wall_timeout, kind, kill_result),
    {
        match kill_result {
            Err(e) => CommandError::KillAfterTimeoutFailed(e),
            Ok(_) => match kind {
                TimeoutKind::NoOutput => CommandError::NoOutputFor(self.idle_timeout),
                TimeoutKind::WallClock => CommandError::Timeout(self.wall_timeout),
            },
        }
    }

    /// Record one read line after the callback's decision, and return the
    /// lines to emit: the standard error is always retained, the standard
    /// output only under capture.
    pub fn process_line(&mut self, kind: OutputKind, line: String, action: InnerState) -> (emitted:
        Vec<String>)
        ensures
            emitted@ == emitted_lines(line, action),
            final(self).stdout@ == (if kind is Stdout && old(self).capture {
                old(self).stdout@ + emitted_lines(line, action)
            } else {
                old(self).stdout@
            }),
            final(self).stderr@ == (if kind is Stderr {
                old(self).stderr@ + emitted_lines(line, action)
            } else {
                old(self).stderr@
            }),
            final(self).capture == old(self).capture,
            final(self).wall_timeout == old(self).wall_timeout,
            final(self).idle_timeout == old(self).idle_timeout,
    {
        let lines: Vec<String> = match action {
            InnerState::Removed => Vec::new(),
            InnerState::Original => {
                let mut v: Vec<String> = Vec::new();
                v.push(line);
                proof {
                    assert(v@ =~= seq![line]);
                }
                v
            },
            InnerState::Replaced(v) => v,
        };
        let keep: bool = match kind {
            OutputKind::Stdout => self.capture,
            OutputKind::Stderr => true,
        };
        if keep {
            let mut copy: Vec<String> = Vec::new();
            let mut i: usize = 0;
            while i < lines.len()
                invariant
                    0 <= i <= lines@.len(),
                    copy@ =~= lines@.subrange(0, i as int),
                decreases lines@.len() - i,
            {
                copy.push(vstd::std_specs::vec::vec_index(&lines, i).clone());
                proof {
                    assert(copy@ =~= lines@.subrange(0, i + 1));
                }
                i += 1;
            }
            proof {
                assert(copy@ =~= lines@);
            }
            let mut copy = copy;
            match kind {
                OutputKind::Stdout => {
                    self.stdout.append(&mut copy);
                },
                OutputKind::Stderr => {
                    self.stderr.append(&mut copy);
                },
            }
        }
        lines
    }

    /// Finish the execution: the captured output on success, the failure
    /// with the joined standard error on a nonzero exit status.
    pub fn finish(self, success: bool, status: i32) -> (r: Result<ProcessOutput, CommandError>)
        ensures
            finish_post(self.stdout@, self.stderr@, success, status, r),
    {
        if success {
            Ok(ProcessOutput { stdout: self.stdout, stderr: self.stderr })
        } else {
            let joined = text::join(&self.stderr, "\n");
            Err(CommandError::ExecutionFailed { status, stderr: joined })
        }
    }
}

/// Killing on a timeout and reporting a nonzero exit are mutually exclusive
/// for one call: the error produced after a timeout-triggered kill is never
/// `ExecutionFailed`, and finishing on the child's own exit never produces
/// a timeout error.
pub proof fn lemma_timeout_kill_exclusive(
    idle: u64,
    wall: u64,
    kind: TimeoutKind,
    kill_result: Result<(), KillFailedError>,
    stdout: Seq<String>,
    stderr: Seq<String>,
    success: bool,
    status: i32,
    r: Result<ProcessOutput, CommandError>,
)
    requires
        finish_post(stdout, stderr, success, status, r),
    ensures
        is_timeout_error(timeout_error_spec(idle, wall, kind, kill_result)),
        !(timeout_error_spec(idle, wall, kind, kill_result) is ExecutionFailed),
        r matches Err(e) ==> !is_timeout_error(e),
{
}

/// A command that prints a line and then stays silent for longer than the
/// no-output timeout is cut off by the no-output timer, and — when the kill
/// succeeds — fails with `NoOutputFor` of that timeout, never with
/// `Timeout`.
pub proof fn lemma_silence_cut_as_no_output(idle: u64, wall: u64, gap_secs: u64, elapsed_secs: u64)
    requires
        gap_secs > idle,
    ensures
        cutoff_spec(idle, wall, gap_secs, elapsed_secs) == Some(TimeoutKind::NoOutput),
        timeout_error_spec(idle, wall, TimeoutKind::NoOutput, Ok(()))
            == CommandError::NoOutputFor(idle),
        !(timeout_error_spec(idle, wall, TimeoutKind::NoOutput, Ok(())) is Timeout),
{
}

/// A command that keeps printing within the no-output timeout but runs past
/// the wall-clock timeout is cut off by the wall-clock timer, and — when
/// the kill succeeds — fails with `Timeout` of that timeout.
pub proof fn lemma_steady_output_cut_as_timeout(
    idle: u64,
    wall: u64,
    gap_secs: u64,
    elapsed_secs: u64,
)
    requires
        gap_secs <= idle,
        elapsed_secs > wall,
    ensures
        cutoff_spec(idle, wall, gap_secs, elapsed_secs) == Some(TimeoutKind::WallClock),
        timeout_error_spec(idle, wall, TimeoutKind::WallClock, Ok(())) == CommandError::Timeout(
            wall,
        ),
        !(timeout_error_spec(idle, wall, TimeoutKind::WallClock, Ok(())) is NoOutputFor),
{
}

} // verus!
