//! A virtual machine monitor process: how it is started, awaited and stopped.
use vstd::prelude::*;
use vstd::string::StringExecFns;

use crate::failure;
use crate::failure::Failure;
use crate::kernel_setting::KernelSetting;
use crate::launch_config::TimeSpan;
use crate::paths;
use crate::text;

verus! {

/// The largest size of a guest's metadata, in bytes.
pub const MMDS_SIZE_LIMIT: usize = 1048576;

/// The most of a process's error output that is quoted, in bytes.
pub const STDERR_TAIL_BYTES: u64 = 4096;

/// How readily the system ends the process when memory is short: before any other.
pub const OOM_SCORE_ADJ: &'static str = "1000";

/// A process that was started; it has no number any more once it has been waited
/// for.
#[derive(Debug, Clone, Copy, PartialEq, Eq)]
pub struct MonitorProcess {
    pub pid: Option<u32>,
}

/// The state of a virtual machine monitor.
#[derive(Debug, PartialEq, Eq)]
pub struct FirecrackerInstance {
    pub work_dir: String,
    pub socket_path: String,
    pub stderr_path: Option<String>,
    pub process: Option<MonitorProcess>,
}

/// What the error output of a process was found to be.
#[derive(Debug, PartialEq, Eq)]
pub enum StderrTail {
    Text(String),
    Unavailable(String),
}

/// What a failure says of the error output.
pub open spec fn stderr_words(captured: bool, tail: StderrTail) -> Seq<char> {
    if !captured {
        "not captured"@
    } else {
        match tail {
            StderrTail::Text(t) => if t@.len() == 0 {
                "empty"@
            } else {
                t@
            },
            StderrTail::Unavailable(why) => "unavailable ("@ + why@ + ")"@,
        }
    }
}

/// What follows a look at the process and its socket.
#[derive(Debug, PartialEq, Eq)]
pub enum ReadyNext {
    Ready,
    /// Look again after a while.
    Wait,
    Failed(Failure),
}

impl FirecrackerInstance {
    pub fn new(work_dir: String) -> (r: FirecrackerInstance)
        ensures
            r.work_dir == work_dir,
            r.socket_path@ == paths::join_of(work_dir@, "firecracker.socket"@),
            r.stderr_path is None,
            r.process is None,
    {
        let socket_path = paths::join(work_dir.as_str(), "firecracker.socket");
        FirecrackerInstance { work_dir, socket_path, stderr_path: None, process: None }
    }

    /// The number of the running process.
    pub fn pid(&self) -> (r: Result<i32, Failure>)
        ensures
            ({
                let raw = match self.process {
                    Some(p) => p.pid,
                    None => None,
                };
                &&& failure::reports(
                    r,
                    if raw is None {
                        Some("firecracker process is not running"@)
                    } else {
                        failure::fault_if(
                            raw->0 > i32::MAX,
                            "firecracker pid does not fit in i32"@,
                        )
                    },
                )
                &&& r matches Ok(pid) ==> raw is Some && pid == raw->0
            }),
    {
        match &self.process {
            Some(process) => match process.pid {
                Some(raw) => if raw > i32::MAX as u32 {
                    Err(Failure::because("firecracker pid does not fit in i32"))
                } else {
                    Ok(raw as i32)
                },
                None => Err(Failure::because("firecracker process is not running")),
            },
            None => Err(Failure::because("firecracker process is not running")),
        }
    }

    /// The arguments that the process is started with, unless it has been started
    /// already.
    pub fn spawn_with_netns(&self) -> (r: Result<Vec<String>, Failure>)
        ensures
            failure::reports(
                r,
                failure::fault_if(
                    self.process is Some,
                    "firecracker process already started"@,
                ),
            ),
            r matches Ok(args) ==> text::views(args@) == seq![
                "--api-sock"@,
                self.socket_path@,
                "--mmds-size-limit"@,
                text::decimal(MMDS_SIZE_LIMIT as nat),
                "--http-api-max-payload-size"@,
                text::decimal(MMDS_SIZE_LIMIT as nat),
            ],
    {
        if self.process.is_some() {
            return Err(Failure::because("firecracker process already started"));
        }
        let mut args: Vec<String> = Vec::new();
        args.push("--api-sock".to_owned());
        args.push(self.socket_path.clone());
        args.push("--mmds-size-limit".to_owned());
        args.push(text::decimal_of(MMDS_SIZE_LIMIT as u64));
        args.push("--http-api-max-payload-size".to_owned());
        args.push(text::decimal_of(MMDS_SIZE_LIMIT as u64));
        assert(text::views(args@) =~= seq![
            "--api-sock"@,
            self.socket_path@,
            "--mmds-size-limit"@,
            text::decimal(MMDS_SIZE_LIMIT as nat),
            "--http-api-max-payload-size"@,
            text::decimal(MMDS_SIZE_LIMIT as nat),
        ]);
        Ok(args)
    }

    /// Notes where the error output goes, before the process is started.
    pub fn note_stderr_path(&mut self, stderr_path: Option<String>)
        ensures
            *final(self) == (FirecrackerInstance { stderr_path, ..*old(self) }),
    {
        self.stderr_path = stderr_path;
    }

    /// Notes that the process runs, and gives the setting by which the system is told
    /// to end it first when memory is short.
    pub fn note_spawned(&mut self, pid: Option<u32>) -> (r: Option<KernelSetting>)
        ensures
            *final(self) == (FirecrackerInstance {
                process: Some(MonitorProcess { pid }),
                ..*old(self)
            }),
            r is Some == pid is Some,
            r matches Some(setting) ==> setting.gives(
                "/proc/"@ + text::decimal(pid->0 as nat) + "/oom_score_adj"@,
                "1000"@,
            ),
    {
        self.process = Some(MonitorProcess { pid });
        match pid {
            Some(number) => Some(
                KernelSetting {
                    path: text::concat3(
                        "/proc/",
                        text::decimal_of(number as u64).as_str(),
                        "/oom_score_adj",
                    ),
                    value: OOM_SCORE_ADJ,
                },
            ),
            None => None,
        }
    }

    /// What a failure says of the error output, of which `tail` was read.
    pub fn stderr_summary(&self, tail: &StderrTail) -> (r: String)
        ensures
            r@ == stderr_words(self.stderr_path is Some, *tail),
    {
        if self.stderr_path.is_none() {
            return "not captured".to_owned();
        }
        match tail {
            StderrTail::Text(t) => if t.as_str().is_empty() {
                "empty".to_owned()
            } else {
                t.clone()
            },
            StderrTail::Unavailable(why) => text::concat3("unavailable (", why.as_str(), ")"),
        }
    }

    /// Decides whether to go on waiting for the socket: it may be there, the
    /// process may have ended with some `status`, or the time may be up.
    pub fn wait_for_ready(
        &self,
        socket_exists: bool,
        status: Option<&str>,
        elapsed: TimeSpan,
        timeout: TimeSpan,
        tail: &StderrTail,
    ) -> (r: ReadyNext)
        ensures
            ({
                let stderr = stderr_words(self.stderr_path is Some, *tail);
                if socket_exists {
                    r == ReadyNext::Ready
                } else if self.process is Some && status is Some {
                    &&& r matches ReadyNext::Failed(e)
                    &&& e.message@ == "firecracker exited before its API socket appeared at "@
                        + self.socket_path@ + " (status: "@ + status->0@ + "); stderr: "@ + stderr
                } else if elapsed.total() > timeout.total() {
                    &&& r matches ReadyNext::Failed(e)
                    &&& e.message@ == "firecracker api socket did not appear at "@
                        + self.socket_path@ + " within "@ + text::decimal(
                        (timeout.total() / 1000000) as nat,
                    ) + " ms; stderr: "@ + stderr
                } else {
                    r == ReadyNext::Wait
                }
            }),
    {
        if socket_exists {
            return ReadyNext::Ready;
        }
        if self.process.is_some() {
            match status {
                Some(words) => {
                    let mut message = text::concat3(
                        "firecracker exited before its API socket appeared at ",
                        self.socket_path.as_str(),
                        " (status: ",
                    );
                    message.append(words);
                    message.append("); stderr: ");
                    message.append(self.stderr_summary(tail).as_str());
                    return ReadyNext::Failed(Failure::new(message));
                },
                None => {},
            }
        }
        if elapsed.is_longer_than(&timeout) {
            let mut message = text::concat3(
                "firecracker api socket did not appear at ",
                self.socket_path.as_str(),
                " within ",
            );
            message.append(text::decimal_of_u128(timeout.as_millis()).as_str());
            message.append(" ms; stderr: ");
            message.append(self.stderr_summary(tail).as_str());
            return ReadyNext::Failed(Failure::new(message));
        }
        ReadyNext::Wait
    }

    /// A path as the process sees it: a relative one lies in its directory.
    pub fn resolve_host_path(&self, path: &str) -> (r: String)
        ensures
            r@ == (if paths::absolute(path@) {
                path@
            } else {
                paths::join_of(self.work_dir@, path@)
            }),
    {
        if paths::is_absolute(path) {
            path.to_owned()
        } else {
            paths::join(self.work_dir.as_str(), path)
        }
    }
}

/// The part of an error output of `len` bytes that is quoted: its last bytes.
pub fn stderr_tail_length(len: u64) -> (r: u64)
    ensures
        r == (if len < STDERR_TAIL_BYTES {
            len
        } else {
            STDERR_TAIL_BYTES
        }),
{
    if len < STDERR_TAIL_BYTES {
        len
    } else {
        STDERR_TAIL_BYTES
    }
}

/// The text of the last bytes of an error output.
pub fn stderr_tail_text(bytes: &[u8]) -> (r: StderrTail)
    ensures
        r matches StderrTail::Text(t) && t@ == text::trimmed(text::lossy_text(bytes@)),
{
    StderrTail::Text(text::trim(text::from_utf8_lossy(bytes).as_str()))
}

/// The step by which a process is started.
#[derive(Debug, Clone, Copy, PartialEq, Eq, Structural)]
pub enum SpawnStep {
    /// Remove a socket that is left over, if there is one.
    RemoveStaleSocket,
    /// Open the network namespace that the process is to run in, if there is one.
    OpenNamespace,
    OpenStdout,
    OpenStderr,
    /// Start the process, in its own group and in its working directory.
    Spawn,
    /// Tell the system to end the process first when memory is short.
    OfferToOomKiller,
    Spawned,
    Failed,
}

pub open spec fn spawn_step_after(step: SpawnStep, done: bool) -> SpawnStep {
    match step {
        // What these two fail to do does no harm.
        SpawnStep::RemoveStaleSocket => SpawnStep::OpenNamespace,
        SpawnStep::OfferToOomKiller => SpawnStep::Spawned,
        SpawnStep::Spawned => SpawnStep::Spawned,
        _ => if !done {
            SpawnStep::Failed
        } else {
            match step {
                SpawnStep::OpenNamespace => SpawnStep::OpenStdout,
                SpawnStep::OpenStdout => SpawnStep::OpenStderr,
                SpawnStep::OpenStderr => SpawnStep::Spawn,
                SpawnStep::Spawn => SpawnStep::OfferToOomKiller,
                _ => SpawnStep::Failed,
            }
        },
    }
}

/// The step that follows `step`.
pub fn next_spawn_step(step: SpawnStep, done: bool) -> (r: SpawnStep)
    ensures
        r == spawn_step_after(step, done),
{
    match step {
        SpawnStep::RemoveStaleSocket => SpawnStep::OpenNamespace,
        SpawnStep::OfferToOomKiller => SpawnStep::Spawned,
        SpawnStep::Spawned => SpawnStep::Spawned,
        _ if !done => SpawnStep::Failed,
        SpawnStep::OpenNamespace => SpawnStep::OpenStdout,
        SpawnStep::OpenStdout => SpawnStep::OpenStderr,
        SpawnStep::OpenStderr => SpawnStep::Spawn,
        SpawnStep::Spawn => SpawnStep::OfferToOomKiller,
        SpawnStep::Failed => SpawnStep::Failed,
    }
}

/// What a failure of a step is called; empty where the cause speaks for itself.
pub fn spawn_step_context(step: SpawnStep, netns: Option<&str>) -> (r: String)
    ensures
        r@ == (match step {
            SpawnStep::OpenNamespace => match netns {
                Some(path) => "open Firecracker network namespace "@ + path@,
                None => Seq::empty(),
            },
            SpawnStep::Spawn => "failed to spawn firecracker"@,
            _ => Seq::empty(),
        }),
{
    match step {
        SpawnStep::OpenNamespace => match netns {
            Some(path) => text::concat("open Firecracker network namespace ", path),
            None => String::new(),
        },
        SpawnStep::Spawn => "failed to spawn firecracker".to_owned(),
        _ => String::new(),
    }
}

/// The process is started only after its namespace and its outputs have been
/// opened, and counts as started only after that.
pub proof fn nothing_is_started_before_its_outputs_are_open(step: SpawnStep, done: bool)
    ensures
        spawn_step_after(step, done) == SpawnStep::Spawn ==> step == SpawnStep::OpenStderr && done,
        spawn_step_after(step, done) == SpawnStep::OpenStderr ==> step == SpawnStep::OpenStdout
            && done,
        spawn_step_after(step, done) == SpawnStep::OpenStdout ==> step == SpawnStep::OpenNamespace
            && done,
        spawn_step_after(step, done) == SpawnStep::OfferToOomKiller ==> step == SpawnStep::Spawn
            && done,
{
}

/// The step by which a process is stopped.
#[derive(Debug, Clone, Copy, PartialEq, Eq, Structural)]
pub enum StopStep {
    /// Ask the process to end.
    Terminate(u32),
    /// Wait for its end, for a while only.
    AwaitExit,
    Kill,
    /// Wait for its end.
    AwaitKilled,
    /// Remove the socket, if it is there.
    RemoveSocket,
    Stopped,
}

pub open spec fn stop_step_after(step: StopStep, timed_out: bool) -> StopStep {
    match step {
        StopStep::Terminate(_) => StopStep::AwaitExit,
        StopStep::AwaitExit => if timed_out {
            StopStep::Kill
        } else {
            StopStep::RemoveSocket
        },
        StopStep::Kill => StopStep::AwaitKilled,
        StopStep::AwaitKilled => StopStep::RemoveSocket,
        StopStep::RemoveSocket => StopStep::Stopped,
        StopStep::Stopped => StopStep::Stopped,
    }
}

impl FirecrackerInstance {
    /// Begins to stop the process, which the instance gives up. Without a process
    /// a socket that is left over is removed all the same.
    pub fn stop(&mut self) -> (r: StopStep)
        ensures
            *final(self) == (FirecrackerInstance { process: None, ..*old(self) }),
            r == (match old(self).process {
                Some(p) => match p.pid {
                    Some(pid) => StopStep::Terminate(pid),
                    None => StopStep::AwaitExit,
                },
                None => StopStep::RemoveSocket,
            }),
    {
        let process = self.process;
        self.process = None;
        match process {
            Some(p) => match p.pid {
                Some(pid) => StopStep::Terminate(pid),
                None => StopStep::AwaitExit,
            },
            None => StopStep::RemoveSocket,
        }
    }

    /// Gives up the process for good. The process is killed and the socket removed
    /// where there was a process, and only there.
    pub fn abandon(&mut self) -> (owned: bool)
        ensures
            *final(self) == (FirecrackerInstance { process: None, ..*old(self) }),
            owned == (old(self).process is Some),
    {
        let owned = self.process.is_some();
        self.process = None;
        owned
    }
}

/// The step that follows `step`; only waiting can time out.
pub fn next_stop_step(step: StopStep, timed_out: bool) -> (r: StopStep)
    ensures
        r == stop_step_after(step, timed_out),
{
    match step {
        StopStep::Terminate(_) => StopStep::AwaitExit,
        StopStep::AwaitExit => if timed_out {
            StopStep::Kill
        } else {
            StopStep::RemoveSocket
        },
        StopStep::Kill => StopStep::AwaitKilled,
        StopStep::AwaitKilled => StopStep::RemoveSocket,
        StopStep::RemoveSocket => StopStep::Stopped,
        StopStep::Stopped => StopStep::Stopped,
    }
}

/// A process is killed only after it was given time to end, and the instance
/// counts as stopped only once its socket has been removed.
pub proof fn stopping_is_graceful_and_removes_the_socket(step: StopStep, timed_out: bool)
    ensures
        stop_step_after(step, timed_out) == StopStep::Kill ==> step == StopStep::AwaitExit
            && timed_out,
        stop_step_after(step, timed_out) == StopStep::Stopped ==> step == StopStep::RemoveSocket
            || step == StopStep::Stopped,
{
}

/// How much a monitor logs.
#[derive(Debug, Clone, Copy, PartialEq, Eq, Structural)]
pub enum LogLevel {
    Error,
    Warning,
    Info,
    Debug,
    Trace,
}

/// The level that a word in lower case names.
pub open spec fn level_named(word: Seq<char>) -> Option<LogLevel> {
    if word == "error"@ {
        Some(LogLevel::Error)
    } else if word == "warning"@ {
        Some(LogLevel::Warning)
    } else if word == "info"@ {
        Some(LogLevel::Info)
    } else if word == "debug"@ {
        Some(LogLevel::Debug)
    } else if word == "trace"@ {
        Some(LogLevel::Trace)
    } else {
        None
    }
}

/// The word that decides about a level: without surrounding whitespace and in
/// lower case.
pub open spec fn level_word(level: Seq<char>) -> Seq<char> {
    text::ascii_lower(text::trimmed(level))
}

/// Reads a log level, in upper or lower case. The five levels are the only words.
pub fn parse_log_level(level: &str) -> (r: Result<LogLevel, Failure>)
    ensures
        match level_named(level_word(level@)) {
            Some(l) => r == Ok::<LogLevel, Failure>(l),
            None => r is Err && r->Err_0.message@ == "invalid firecracker log level '"@
                + level_word(level@)
                + "'; expected one of Error, Warning, Info, Debug, Trace"@,
        },
{
    let word = text::to_ascii_lowercase(text::trim(level).as_str());
    let w = word.as_str();
    if text::same(w, "error") {
        Ok(LogLevel::Error)
    } else if text::same(w, "warning") {
        Ok(LogLevel::Warning)
    } else if text::same(w, "info") {
        Ok(LogLevel::Info)
    } else if text::same(w, "debug") {
        Ok(LogLevel::Debug)
    } else if text::same(w, "trace") {
        Ok(LogLevel::Trace)
    } else {
        Err(
            Failure::new(
                text::concat3(
                    "invalid firecracker log level '",
                    w,
                    "'; expected one of Error, Warning, Info, Debug, Trace",
                ),
            ),
        )
    }
}

/// Levels are read without regard to case: a level and the same level in lower
/// case are read alike.
pub proof fn levels_are_read_without_regard_to_case(level: Seq<char>)
    ensures
        level_named(level_word(text::ascii_lower(level))) == level_named(level_word(level)),
{
    text::lemma_lowering_and_trimming(level);
}

/// Checks the size of a guest's metadata.
pub fn check_mmds_size(payload_size: usize) -> (r: Result<(), Failure>)
    ensures
        failure::reports(
            r,
            failure::fault_if(
                payload_size > MMDS_SIZE_LIMIT,
                "MMDS metadata payload is "@ + text::decimal(payload_size as nat)
                    + " bytes, exceeds Firecracker MMDS size limit 1048576; imageConfigs may be too large"@,
            ),
        ),
{
    if payload_size > MMDS_SIZE_LIMIT {
        return Err(
            Failure::new(
                text::concat3(
                    "MMDS metadata payload is ",
                    text::decimal_of(payload_size as u64).as_str(),
                    " bytes, exceeds Firecracker MMDS size limit 1048576; imageConfigs may be too large",
                ),
            ),
        );
    }
    Ok(())
}

} // verus!
