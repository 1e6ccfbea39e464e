//! What speaking to the block-device daemon is for: it is started with all it was given,
//! asked only while it runs, and its refusals are passed on in its own words.
use vstd::prelude::*;

use crate::daemon_client;
use crate::daemon_client::DaemonError;
use crate::daemon_client::DaemonResponse;
use crate::daemon_client::RpcPlan;
use crate::daemon_client::StartStep;
use crate::daemon_client::UblkDaemonClient;
use crate::daemon_client::UblkDaemonSpawnConfig;
use crate::failure::Failure;
use crate::launch_config::TimeSpan;
use crate::text;

verus! {

/// A refusal carries the words of the daemon and names what was asked for; an answer of
/// another kind is handed on whole.
pub proof fn refusals_carry_the_words_of_the_daemon(
    e: DaemonError,
    subject: Seq<char>,
    name: Seq<char>,
    response: DaemonResponse,
)
    requires
        daemon_client::refused(e, subject, name, response),
    ensures
        response matches DaemonResponse::TerminalError { message } ==> {
            &&& e is Failed
            &&& e->Failed_0.message@ == "daemon: "@ + subject + " failed terminally: "@ + message@
        },
        response matches DaemonResponse::Error { message } ==> {
            &&& e is Failed
            &&& e->Failed_0.message@ == "daemon: "@ + subject + " failed: "@ + message@
        },
        !(response is TerminalError || response is Error) ==> {
            &&& e is Unexpected
            &&& e->response == response
            &&& e->prefix.message@ == "daemon: unexpected response for "@ + name + ": "@
        },
{
}

/// A plain failure and an unexpected answer are told by their words.
pub proof fn failures_are_told_by_their_words(
    e: DaemonError,
    subject: Seq<char>,
    words: Seq<char>,
    response: DaemonResponse,
)
    ensures
        daemon_client::failed(e, subject, words) ==> {
            &&& e is Failed
            &&& e->Failed_0.message@ == "daemon: "@ + subject + " failed: "@ + words
        },
        daemon_client::unexpected(e, subject, response) ==> {
            &&& e is Unexpected
            &&& e->response == response
            &&& e->prefix.message@ == "daemon: unexpected response for "@ + subject + ": "@
        },
{
}

/// A device is named by its number: requests of one kind for different devices have
/// different names.
pub proof fn devices_are_named_by_their_number(name: Seq<char>, a: u32, b: u32)
    ensures
        daemon_client::of_device(name, a) == name + " dev_id="@ + text::decimal(a as nat),
        daemon_client::of_device(name, a) == daemon_client::of_device(name, b) ==> a == b,
{
    let head = name + " dev_id="@;
    let x = daemon_client::of_device(name, a);
    let y = daemon_client::of_device(name, b);
    assert(x =~= head + text::decimal(a as nat));
    assert(y =~= head + text::decimal(b as nat));
    if x == y {
        let n = head.len() as int;
        assert(x.skip(n) =~= text::decimal(a as nat));
        assert(y.skip(n) =~= text::decimal(b as nat));
        text::decimal_stands_for_its_number(a as nat);
        text::decimal_stands_for_its_number(b as nat);
    }
}

/// A request is sent, just as it was planned, exactly while the daemon runs, whether or
/// not the daemon was told to end; else the refusal says how the daemon ended.
pub proof fn requests_are_sent_exactly_while_the_daemon_runs(
    client: UblkDaemonClient,
    plan: RpcPlan,
    r: Result<RpcPlan, Failure>,
)
    ensures
        client.dead_fault() is None <==> !client.daemon_dead,
        client.daemon_dead ==> client.dead_fault() == Some(
            "ublk daemon is not running: "@ + (if client.death_reason is Some {
                client.death_reason->0@
            } else {
                "unknown reason"@
            }),
        ),
        client.begun(plan, r) <==> {
            if client.daemon_dead {
                &&& r is Err
                &&& r->Err_0.message@ == client.dead_fault()->0
            } else {
                r == Ok::<RpcPlan, Failure>(plan)
            }
        },
        client.consistent() <==> !(client.daemon_dead && client.death_reason is None),
{
}

/// The number of words for an option.
pub open spec fn option_len(value: Option<String>) -> int {
    if value is Some {
        2
    } else {
        0
    }
}

/// `words` has an option, its name followed by its value, at place `at`.
pub open spec fn option_at(words: Seq<Seq<char>>, at: int, name: Seq<char>, value: Seq<char>) -> bool {
    &&& 0 <= at < words.len() - 1
    &&& words[at] == name
    &&& words[at + 1] == value
}

/// The daemon is told all that it is to be started with and nothing else, each option
/// behind the other; the pool of devices is described only where there is no file that
/// describes it.
pub proof fn daemons_are_told_all_they_need(c: UblkDaemonSpawnConfig)
    ensures
        ({
            let words = daemon_client::daemon_arg_words(c);
            let log = 6 + option_len(c.app_config);
            let metrics = log + option_len(c.log_file);
            let publish = metrics + 2;
            let pool = publish + option_len(c.p2p_publish_url);
            let described = c.pool_config is Some && c.app_config is None;
            &&& option_at(words, 0, "--socket-path"@, c.socket_path@)
            &&& option_at(words, 2, "--global-config"@, c.global_config@)
            &&& option_at(words, 4, "--resize-global-config"@, c.resize_global_config@)
            &&& c.app_config matches Some(file) ==> option_at(words, 6, "--config"@, file@)
            &&& c.log_file matches Some(file) ==> option_at(words, log, "--log-file"@, file@)
            &&& option_at(words, metrics, "--metrics-listen-addr"@, c.metrics_listen_addr@)
            &&& c.p2p_publish_url matches Some(url) ==> option_at(
                words,
                publish,
                "--p2p-publish-url"@,
                url@,
            )
            &&& described ==> {
                let p = c.pool_config->0;
                &&& words.len() == pool + 7
                &&& words[pool] == "--enable-pool"@
                &&& option_at(
                    words,
                    pool + 1,
                    "--pool-low-watermark"@,
                    text::decimal(p.low_watermark as nat),
                )
                &&& option_at(
                    words,
                    pool + 3,
                    "--pool-high-watermark"@,
                    text::decimal(p.high_watermark as nat),
                )
                &&& option_at(
                    words,
                    pool + 5,
                    "--pool-startup-prewarm"@,
                    text::decimal(p.startup_prewarm as nat),
                )
            }
            &&& !described ==> words.len() == pool
        }),
{
}

/// The number of steps that a start still takes where all goes well.
pub open spec fn start_steps_left(step: StartStep) -> int {
    match step {
        StartStep::AwaitSocket => 7,
        StartStep::CheckCapabilities => 6,
        StartStep::CreateLogDir => 5,
        StartStep::Spawn => 4,
        StartStep::TakeStdout => 3,
        StartStep::AwaitReady => 2,
        StartStep::Watch => 1,
        StartStep::Running | StartStep::Failed => 0,
    }
}

/// A start goes one step at a time and ends; it fails where a step does that comes before
/// the daemon is ready, and where it ended it stays.
pub proof fn daemons_are_started_step_by_step(step: StartStep, done: bool)
    ensures
        ({
            let next = daemon_client::start_step_after(step, done);
            let left = start_steps_left(step);
            &&& left == 0 ==> next == step
            &&& left > 0 && (done || left == 1) ==> start_steps_left(next) == left - 1 && next
                != StartStep::Failed
            &&& left > 1 && !done ==> next == StartStep::Failed
        }),
{
}

/// Two minutes are given to an ordinary request, six to a snapshot, and five seconds to
/// the end of the daemon.
pub proof fn requests_are_given_minutes()
    ensures
        TimeSpan::seconds(daemon_client::DEFAULT_TIMEOUT_SECS).total() == 2 * 60 * 1000000000,
        TimeSpan::seconds(daemon_client::SNAPSHOT_TIMEOUT_SECS).total() == 6 * 60 * 1000000000,
        TimeSpan::seconds(daemon_client::SHUTDOWN_TIMEOUT_SECS).total() == 5 * 1000000000,
        TimeSpan::seconds(daemon_client::READY_TIMEOUT_SECS).total() == 30 * 1000000000,
        TimeSpan::milliseconds(daemon_client::SOCKET_POLL_MS).total() == 100 * 1000000,
{
}

} // verus!
