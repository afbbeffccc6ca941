//! The frontend supervisor's decision logic: which artifact to extract and
//! how, which process to spawn with which environment, how child log lines
//! are ingested, and when the readiness wait succeeds or times out. The
//! embedder performs the filesystem, process and network work that these
//! plans and decisions call for.

use vstd::prelude::*;
use crate::ansi::{strip_ansi_codes, strip_spec};
use crate::environment::{DeliveryStrategy, Environment, strategy_of};
use crate::text::{contains_sub, copy_bytes, dec_rep, has_substr, u16_to_string};
use vstd::string::StrSliceExecFns;

verus! {

/// The readiness wait gives up after this many milliseconds.
pub const READY_TIMEOUT_MS: u64 = 30000;

/// The readiness wait polls at this interval.
pub const READY_POLL_MS: u64 = 100;

/// The file mode set on the extracted native executable off Windows:
/// read-write-execute for the owner, read-execute for group and other.
pub const UNIX_EXEC_MODE: u32 = 0o755;

/// The read-only blobs embedded into the host at build time: a native
/// executable image when the frontend was compiled, a script bundle when
/// it was not.
pub struct ArtifactStore {
    pub executable: Option<Vec<u8>>,
    pub script: Option<Vec<u8>>,
}

impl ArtifactStore {
    /// Embedding agrees with the compile-time flag: the artifact that the
    /// flag calls for is present.
    pub open spec fn agrees_with(self, compiled_frontend: bool) -> bool {
        if compiled_frontend {
            self.executable is Some
        } else {
            self.script is Some
        }
    }

    /// The embedded native executable image, when present.
    pub fn executable_image(&self) -> (r: Option<&Vec<u8>>)
        ensures
            match r {
                Some(b) => self.executable == Some(*b),
                None => self.executable is None,
            },
    {
        match &self.executable {
            Some(b) => Some(b),
            None => None,
        }
    }

    /// The embedded script bundle, when present.
    pub fn script_bundle(&self) -> (r: Option<&Vec<u8>>)
        ensures
            match r {
                Some(b) => self.script == Some(*b),
                None => self.script is None,
            },
    {
        match &self.script {
            Some(b) => Some(b),
            None => None,
        }
    }
}

/// Exactly one delivery strategy is selected for every configuration —
/// `strategy_of` is total — and on a store whose embedding agrees with the
/// compiled-frontend flag, the artifact that the selected strategy needs
/// is embedded.
pub proof fn lemma_strategy_artifacts(store: ArtifactStore, env: Environment, compiled: bool)
    requires
        store.agrees_with(compiled),
    ensures
        match strategy_of(env, compiled) {
            DeliveryStrategy::DevServer => env is Development,
            DeliveryStrategy::NativeBinary => store.executable is Some,
            DeliveryStrategy::HostedScript => store.script is Some,
        },
{
}

/// The errors that startup and supervision can end in.
#[derive(Clone, Copy, PartialEq, Eq, Structural, Debug)]
pub enum HostError {
    ClientDirectoryMissing,
    ChildSpawnFailed,
    ArtifactExtractionFailed,
    FrontendNotReady,
    ListenerBindFailed,
    ServeTerminated,
    LogStreamError,
    ChildKillFailed,
}

impl HostError {
    /// A short description of the error.
    pub fn describe(&self) -> (m: &'static str)
        ensures
            match self {
                HostError::ClientDirectoryMissing => m@ == "client directory not found"@,
                HostError::ChildSpawnFailed => m@ == "failed to spawn frontend child"@,
                HostError::ArtifactExtractionFailed => m@ == "failed to extract frontend artifact"@,
                HostError::FrontendNotReady => m@ == "frontend failed to become ready in time"@,
                HostError::ListenerBindFailed => m@ == "failed to bind server listener"@,
                HostError::ServeTerminated => m@ == "server terminated with an error"@,
                HostError::LogStreamError => m@ == "frontend log stream ended with an error"@,
                HostError::ChildKillFailed => m@ == "failed to kill frontend child"@,
            },
    {
        match self {
            HostError::ClientDirectoryMissing => "client directory not found",
            HostError::ChildSpawnFailed => "failed to spawn frontend child",
            HostError::ArtifactExtractionFailed => "failed to extract frontend artifact",
            HostError::FrontendNotReady => "frontend failed to become ready in time",
            HostError::ListenerBindFailed => "failed to bind server listener",
            HostError::ServeTerminated => "server terminated with an error",
            HostError::LogStreamError => "frontend log stream ended with an error",
            HostError::ChildKillFailed => "failed to kill frontend child",
        }
    }
}

/// How readiness of the spawned child is detected.
pub enum ReadinessPolicy {
    /// A stdout line containing the marker signals readiness; the dev
    /// server is waited on without a bound.
    LogMarker { marker: String },
    /// A stdout line containing the marker, or a successful TCP connect to
    /// the child's loopback port, signals readiness; the wait polls and
    /// gives up after the timeout.
    LogOrTcp { marker: String, port: u16, timeout_ms: u64, poll_ms: u64 },
}

/// Where the child runs.
#[derive(Clone, Copy, PartialEq, Eq, Structural, Debug)]
pub enum WorkDir {
    /// The per-project directory under the system temp dir.
    ProjectTempDir,
    /// The frontend source directory `apps/client` under the host's
    /// working directory.
    ClientSourceDir,
}

/// A file to write under the per-project temp directory before spawning.
pub struct ExtractStep {
    pub file_name: String,
    pub bytes: Vec<u8>,
    /// The file mode to set after writing, when the platform has modes.
    pub unix_mode: Option<u32>,
}

/// Everything the embedder needs to start one frontend child: what to
/// extract, what to spawn where and with which environment, how to detect
/// readiness, how to log its output, and whether to kill it on teardown.
pub struct LaunchPlan {
    /// The program to spawn: the extracted executable's file name
    /// (resolved under the temp directory) or a host runtime on PATH.
    pub program: String,
    pub args: Vec<String>,
    pub extract: Option<ExtractStep>,
    pub working_dir: WorkDir,
    pub env_vars: Vec<(String, String)>,
    pub readiness: ReadinessPolicy,
    pub kill_on_drop: bool,
    /// The log target under which the child's output is emitted.
    pub log_target: String,
}

/// The environment handed to a production child: its port, the loopback
/// host, and the production marker.
pub open spec fn child_env_ok(vs: Seq<(String, String)>, port: u16) -> bool {
    &&& vs.len() == 3
    &&& vs[0].0@ == "PORT"@
    &&& vs[0].1@ == dec_rep(port as nat)
    &&& vs[1].0@ == "HOST"@
    &&& vs[1].1@ == "127.0.0.1"@
    &&& vs[2].0@ == "NODE_ENV"@
    &&& vs[2].1@ == "production"@
}

/// The production readiness policy: the marker line or a TCP connect,
/// polled every 100 ms for up to 30 s.
pub open spec fn production_readiness_ok(r: ReadinessPolicy, port: u16) -> bool {
    r matches ReadinessPolicy::LogOrTcp { marker, port: p, timeout_ms, poll_ms }
        && marker@ == "Listening on"@ && p == port && timeout_ms == READY_TIMEOUT_MS && poll_ms
        == READY_POLL_MS
}

/// The plan for the Development strategy: run the dev command in the
/// client source directory, wait for its `Local:` line, own the child and
/// kill it on teardown.
pub open spec fn dev_plan_ok(plan: LaunchPlan) -> bool {
    &&& plan.program@ == "bun"@
    &&& plan.args.len() == 2
    &&& plan.args[0]@ == "run"@
    &&& plan.args[1]@ == "dev"@
    &&& plan.extract is None
    &&& plan.working_dir is ClientSourceDir
    &&& plan.env_vars.len() == 0
    &&& (plan.readiness matches ReadinessPolicy::LogMarker { marker } && marker@ == "Local:"@)
    &&& plan.kill_on_drop
    &&& plan.log_target@ == "dev-frontend"@
}

/// The plan for the NativeBinary strategy: extract the embedded executable
/// as `client` (`client.exe` on Windows, mode 0o755 elsewhere), run it in
/// the temp directory with the child environment, wait with the bounded
/// production policy, and detach after readiness.
pub open spec fn native_plan_ok(store: ArtifactStore, port: u16, windows: bool, plan: LaunchPlan) -> bool {
    &&& plan.program@ == (if windows {
        "client.exe"@
    } else {
        "client"@
    })
    &&& plan.args.len() == 0
    &&& (plan.extract matches Some(e) && {
        &&& e.file_name@ == plan.program@
        &&& (store.executable matches Some(b) && e.bytes@ == b@)
        &&& e.unix_mode == (if windows {
            None::<u32>
        } else {
            Some(UNIX_EXEC_MODE)
        })
    })
    &&& plan.working_dir is ProjectTempDir
    &&& child_env_ok(plan.env_vars@, port)
    &&& production_readiness_ok(plan.readiness, port)
    &&& !plan.kill_on_drop
    &&& plan.log_target@ == "frontend"@
}

/// The plan for the HostedScript strategy: extract the embedded bundle as
/// `bundle.js`, hand it to the host runtime in the temp directory with the
/// child environment, wait with the bounded production policy, and detach
/// after readiness.
pub open spec fn hosted_plan_ok(store: ArtifactStore, port: u16, plan: LaunchPlan) -> bool {
    &&& plan.program@ == "bun"@
    &&& plan.args.len() == 1
    &&& plan.args[0]@ == "bundle.js"@
    &&& (plan.extract matches Some(e) && {
        &&& e.file_name@ == "bundle.js"@
        &&& (store.script matches Some(b) && e.bytes@ == b@)
        &&& e.unix_mode is None
    })
    &&& plan.working_dir is ProjectTempDir
    &&& child_env_ok(plan.env_vars@, port)
    &&& production_readiness_ok(plan.readiness, port)
    &&& !plan.kill_on_drop
    &&& plan.log_target@ == "frontend"@
}

fn production_env_vars(port: u16) -> (vs: Vec<(String, String)>)
    ensures
        child_env_ok(vs@, port),
{
    let mut vs: Vec<(String, String)> = Vec::new();
    vs.push(("PORT".to_owned(), u16_to_string(port)));
    vs.push(("HOST".to_owned(), "127.0.0.1".to_owned()));
    vs.push(("NODE_ENV".to_owned(), "production".to_owned()));
    vs
}

fn production_readiness(port: u16) -> (r: ReadinessPolicy)
    ensures
        production_readiness_ok(r, port),
{
    ReadinessPolicy::LogOrTcp {
        marker: "Listening on".to_owned(),
        port,
        timeout_ms: READY_TIMEOUT_MS,
        poll_ms: READY_POLL_MS,
    }
}

/// Decides how the frontend is started for the given build mode and
/// embedding: the plan of the selected strategy, or
/// `ClientDirectoryMissing` when the dev strategy is selected and the
/// client source directory is absent.
pub fn launch_plan(
    env: &Environment,
    compiled_frontend: bool,
    store: &ArtifactStore,
    port: u16,
    windows: bool,
    client_dir_exists: bool,
) -> (r: Result<LaunchPlan, HostError>)
    requires
        store.agrees_with(compiled_frontend),
    ensures
        match r {
            Ok(plan) => match strategy_of(*env, compiled_frontend) {
                DeliveryStrategy::DevServer => dev_plan_ok(plan) && client_dir_exists,
                DeliveryStrategy::NativeBinary => native_plan_ok(*store, port, windows, plan),
                DeliveryStrategy::HostedScript => hosted_plan_ok(*store, port, plan),
            },
            Err(e) => e == HostError::ClientDirectoryMissing && strategy_of(
                *env,
                compiled_frontend,
            ) is DevServer && !client_dir_exists,
        },
{
    match env {
        Environment::Development => {
            if !client_dir_exists {
                return Err(HostError::ClientDirectoryMissing);
            }
            let mut args: Vec<String> = Vec::new();
            args.push("run".to_owned());
            args.push("dev".to_owned());
            Ok(LaunchPlan {
                program: "bun".to_owned(),
                args,
                extract: None,
                working_dir: WorkDir::ClientSourceDir,
                env_vars: Vec::new(),
                readiness: ReadinessPolicy::LogMarker { marker: "Local:".to_owned() },
                kill_on_drop: true,
                log_target: "dev-frontend".to_owned(),
            })
        },
        Environment::Production => {
            if compiled_frontend {
                let image = store.executable_image().unwrap();
                let file_name: String = if windows {
                    "client.exe".to_owned()
                } else {
                    "client".to_owned()
                };
                let unix_mode: Option<u32> = if windows {
                    None
                } else {
                    Some(UNIX_EXEC_MODE)
                };
                Ok(LaunchPlan {
                    program: if windows {
                        "client.exe".to_owned()
                    } else {
                        "client".to_owned()
                    },
                    args: Vec::new(),
                    extract: Some(ExtractStep { file_name, bytes: copy_bytes(image), unix_mode }),
                    working_dir: WorkDir::ProjectTempDir,
                    env_vars: production_env_vars(port),
                    readiness: production_readiness(port),
                    kill_on_drop: false,
                    log_target: "frontend".to_owned(),
                })
            } else {
                let bundle = store.script_bundle().unwrap();
                let mut args: Vec<String> = Vec::new();
                args.push("bundle.js".to_owned());
                Ok(LaunchPlan {
                    program: "bun".to_owned(),
                    args,
                    extract: Some(
                        ExtractStep {
                            file_name: "bundle.js".to_owned(),
                            bytes: copy_bytes(bundle),
                            unix_mode: None,
                        },
                    ),
                    working_dir: WorkDir::ProjectTempDir,
                    env_vars: production_env_vars(port),
                    readiness: production_readiness(port),
                    kill_on_drop: false,
                    log_target: "frontend".to_owned(),
                })
            }
        },
    }
}

/// The one-shot readiness signal: it starts unset and can only be set;
/// once observed set it stays set.
pub struct ReadySignal {
    pub ready: bool,
}

impl ReadySignal {
    /// A fresh, unset signal.
    pub fn new() -> (s: ReadySignal)
        ensures
            !s.ready,
    {
        ReadySignal { ready: false }
    }

    /// Marks the signal: the only transition, false to true.
    pub fn mark_ready(&mut self)
        ensures
            final(self).ready,
    {
        self.ready = true;
    }

    /// Observes the signal.
    pub fn is_ready(&self) -> (r: bool)
        ensures
            r == self.ready,
    {
        self.ready
    }
}

/// One step of the bounded readiness wait.
#[derive(Clone, Copy, PartialEq, Eq, Structural, Debug)]
pub enum WaitStep {
    /// The child is ready: serve.
    Ready,
    /// The wait has lasted the full timeout without readiness: fail with
    /// `FrontendNotReady`.
    TimedOut,
    /// Sleep one poll interval and look again.
    Poll,
}

/// Decides one round of the readiness wait from what has been observed: a
/// readiness log line, a successful TCP connect, and the elapsed time.
/// `FrontendNotReady` is only ever reached at or after the full 30 s
/// timeout.
pub fn readiness_decision(log_ready: bool, tcp_connected: bool, elapsed_ms: u64) -> (w: WaitStep)
    ensures
        w == (if log_ready || tcp_connected {
            WaitStep::Ready
        } else if elapsed_ms >= READY_TIMEOUT_MS {
            WaitStep::TimedOut
        } else {
            WaitStep::Poll
        }),
        w is TimedOut ==> elapsed_ms >= READY_TIMEOUT_MS && !log_ready && !tcp_connected,
{
    if log_ready || tcp_connected {
        WaitStep::Ready
    } else if elapsed_ms >= READY_TIMEOUT_MS {
        WaitStep::TimedOut
    } else {
        WaitStep::Poll
    }
}

/// Which child stream a line was read from.
#[derive(Clone, Copy, PartialEq, Eq, Structural, Debug)]
pub enum LogStream {
    Stdout,
    Stderr,
}

/// The level a line is emitted at.
#[derive(Clone, Copy, PartialEq, Eq, Structural, Debug)]
pub enum LogLevel {
    Info,
    Warn,
}

/// A character of the whitespace that makes a log line empty: the Unicode
/// characters with the White_Space property.
pub open spec fn is_space(c: char) -> bool {
    let u = c as u32;
    (9 <= u && u <= 13) || u == 32 || u == 133 || u == 160 || u == 5760 || (8192 <= u && u
        <= 8202) || u == 8232 || u == 8233 || u == 8239 || u == 8287 || u == 12288
}

/// Whether a line holds nothing but whitespace.
pub open spec fn whitespace_only(s: Seq<char>) -> bool {
    forall|i: int| 0 <= i < s.len() ==> is_space(s[i])
}

fn is_space_char(c: char) -> (r: bool)
    ensures
        r == is_space(c),
{
    let u = c as u32;
    (9 <= u && u <= 13) || u == 32 || u == 133 || u == 160 || u == 5760 || (8192 <= u && u
        <= 8202) || u == 8232 || u == 8233 || u == 8239 || u == 8287 || u == 12288
}

fn whitespace_only_exec(s: &str) -> (r: bool)
    ensures
        r == whitespace_only(s@),
{
    let len = s.unicode_len();
    let mut i: usize = 0;
    while i < len
        invariant
            len == s@.len(),
            i <= len,
            forall|j: int| 0 <= j < i ==> is_space(s@[j]),
        decreases len - i,
    {
        if !is_space_char(s.get_char(i)) {
            return false;
        }
        i = i + 1;
    }
    true
}

/// A child log line after ingestion: stripped text, its level, and whether
/// it signals readiness.
pub struct IngestedLine {
    pub text: String,
    pub level: LogLevel,
    pub ready_hit: bool,
}

/// Ingests one raw line from a child stream: strips ANSI escape sequences,
/// drops the line when what remains is whitespace only, emits stdout at
/// Info and stderr at Warn, and reports readiness when a stdout line
/// contains the readiness marker.
pub fn ingest_line(stream: LogStream, raw: &str, ready_marker: &str) -> (r: Option<IngestedLine>)
    ensures
        match r {
            None => whitespace_only(strip_spec(raw@)),
            Some(line) => {
                &&& !whitespace_only(strip_spec(raw@))
                &&& line.text@ == strip_spec(raw@)
                &&& line.level == (match stream {
                    LogStream::Stdout => LogLevel::Info,
                    LogStream::Stderr => LogLevel::Warn,
                })
                &&& line.ready_hit == (stream is Stdout && has_substr(
                    strip_spec(raw@),
                    ready_marker@,
                ))
            },
        },
{
    let cleaned = strip_ansi_codes(raw);
    if whitespace_only_exec(cleaned.as_str()) {
        return None;
    }
    let (level, ready_hit) = match stream {
        LogStream::Stdout => (LogLevel::Info, contains_sub(cleaned.as_str(), ready_marker)),
        LogStream::Stderr => (LogLevel::Warn, false),
    };
    Some(IngestedLine { text: cleaned, level, ready_hit })
}

} // verus!
