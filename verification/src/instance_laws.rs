//! What running a virtual machine monitor is for: its process is started once, spoken to
//! as was asked, and leaves nothing behind; and rings keep the indices that are in use.
use vstd::prelude::*;

use crate::instance;
use crate::instance::FirecrackerInstance;
use crate::instance::LogLevel;
use crate::instance::SpawnStep;
use crate::instance::StderrTail;
use crate::instance::StopStep;
use crate::instance_api;
use crate::instance_api::ApiCall;
use crate::instance_api::HttpMethod;
use crate::instance_api::NetworkOverride;
use crate::io_ring;
use crate::io_ring::RingOperation;
use crate::io_ring::RingReply;
use crate::io_ring::RingRequest;
use crate::kernel_setting::KernelSetting;
use crate::paths;
use crate::text;

verus! {

/// The number of steps that a start still takes where all goes well.
pub open spec fn spawn_steps_left(step: SpawnStep) -> int {
    match step {
        SpawnStep::RemoveStaleSocket => 6,
        SpawnStep::OpenNamespace => 5,
        SpawnStep::OpenStdout => 4,
        SpawnStep::OpenStderr => 3,
        SpawnStep::Spawn => 2,
        SpawnStep::OfferToOomKiller => 1,
        SpawnStep::Spawned | SpawnStep::Failed => 0,
    }
}

/// A start goes one step at a time and ends; it fails exactly where the namespace or an
/// output cannot be opened or the process cannot be started, and where it ended it stays.
pub proof fn processes_are_started_step_by_step(step: SpawnStep, done: bool)
    ensures
        ({
            let next = instance::spawn_step_after(step, done);
            let left = spawn_steps_left(step);
            let vital = 2 <= left <= 5;
            &&& left == 0 ==> next == step
            &&& left > 0 && (done || !vital) ==> spawn_steps_left(next) == left - 1 && next
                != SpawnStep::Failed
            &&& vital && !done ==> next == SpawnStep::Failed
        }),
{
}

/// The number of steps that a stop takes where the process does not end of itself.
pub open spec fn stop_steps_left(step: StopStep) -> int {
    match step {
        StopStep::Terminate(_) => 5,
        StopStep::AwaitExit => 4,
        StopStep::Kill => 3,
        StopStep::AwaitKilled => 2,
        StopStep::RemoveSocket => 1,
        StopStep::Stopped => 0,
    }
}

/// A stop goes one step at a time and ends; only a process that ended in time is not
/// killed, and its socket is removed like any other.
pub proof fn processes_are_stopped_step_by_step(step: StopStep, timed_out: bool)
    ensures
        ({
            let next = instance::stop_step_after(step, timed_out);
            let left = stop_steps_left(step);
            &&& left == 0 ==> next == step
            &&& step == StopStep::AwaitExit && !timed_out ==> next == StopStep::RemoveSocket
            &&& left > 0 && (step != StopStep::AwaitExit || timed_out) ==> stop_steps_left(next)
                == left - 1
        }),
{
}

/// What a monitor leaves on the node: a process and a socket.
pub ghost struct Remains {
    pub process: bool,
    pub socket: bool,
}

/// What is left after a step: a process that was waited for is gone, unless the time was
/// up, and so is a socket that was removed.
pub open spec fn remains_after(step: StopStep, timed_out: bool, before: Remains) -> Remains {
    Remains {
        process: before.process && !(step == StopStep::AwaitKilled || (step == StopStep::AwaitExit
            && !timed_out)),
        socket: before.socket && step != StopStep::RemoveSocket,
    }
}

/// What is left once a stop, from a step on, has come to its end; the events say of each
/// step whether the time was up.
pub open spec fn remains_in_the_end(
    step: StopStep,
    timed_out: spec_fn(StopStep) -> bool,
    before: Remains,
    fuel: nat,
) -> (StopStep, Remains)
    decreases fuel,
{
    if fuel == 0 {
        (step, before)
    } else {
        let up = timed_out(step);
        remains_in_the_end(
            instance::stop_step_after(step, up),
            timed_out,
            remains_after(step, up, before),
            (fuel - 1) as nat,
        )
    }
}

/// A stop that began with a process leaves neither the process nor the socket, whether
/// or not the process ends in time.
pub proof fn stopped_monitors_leave_nothing(
    first: StopStep,
    timed_out: spec_fn(StopStep) -> bool,
    before: Remains,
)
    requires
        first is Terminate || first is AwaitExit || !before.process && first is RemoveSocket,
    ensures
        ({
            let (last, left) = remains_in_the_end(first, timed_out, before, 5);
            last == StopStep::Stopped && !left.process && !left.socket
        }),
{
    reveal_with_fuel(remains_in_the_end, 6);
}

/// The word for a log level.
pub open spec fn word_of(level: LogLevel) -> Seq<char> {
    match level {
        LogLevel::Error => seq!['e', 'r', 'r', 'o', 'r'],
        LogLevel::Warning => seq!['w', 'a', 'r', 'n', 'i', 'n', 'g'],
        LogLevel::Info => seq!['i', 'n', 'f', 'o'],
        LogLevel::Debug => seq!['d', 'e', 'b', 'u', 'g'],
        LogLevel::Trace => seq!['t', 'r', 'a', 'c', 'e'],
    }
}

/// A word names a level exactly where it is the word for it.
pub proof fn levels_are_named_by_their_words(word: Seq<char>, level: LogLevel)
    ensures
        instance::level_named(word) == Some(level) <==> word == word_of(level),
{
    reveal_strlit("error");
    reveal_strlit("warning");
    reveal_strlit("info");
    reveal_strlit("debug");
    reveal_strlit("trace");
    assert("error"@ =~= word_of(LogLevel::Error));
    assert("warning"@ =~= word_of(LogLevel::Warning));
    assert("info"@ =~= word_of(LogLevel::Info));
    assert("debug"@ =~= word_of(LogLevel::Debug));
    assert("trace"@ =~= word_of(LogLevel::Trace));
    assert(word_of(LogLevel::Error)[0] == 'e');
    assert(word_of(LogLevel::Warning)[0] == 'w');
    assert(word_of(LogLevel::Info)[0] == 'i');
    assert(word_of(LogLevel::Debug)[0] == 'd');
    assert(word_of(LogLevel::Trace)[0] == 't');
}

/// The word that decides about a level is the trimmed text with its letters of ASCII in
/// lower case, each in its place.
pub proof fn level_words_are_lowered_letter_by_letter(level: Seq<char>, i: int)
    ensures
        ({
            let t = text::trimmed(level);
            let w = instance::level_word(level);
            &&& w.len() == t.len()
            &&& 0 <= i < t.len() ==> {
                let n = t[i] as int;
                w[i] as int == if 65 <= n <= 90 {
                    n + 32
                } else {
                    n
                }
            }
        }),
{
}

/// What is said of the error output: the text that was read, unless there is none.
pub proof fn error_output_is_quoted(tail: StderrTail)
    ensures
        instance::stderr_words(false, tail) == "not captured"@,
        tail matches StderrTail::Text(t) ==> (t@.len() > 0 ==> instance::stderr_words(true, tail)
            == t@) && (t@.len() == 0 ==> instance::stderr_words(true, tail) == "empty"@),
        tail matches StderrTail::Unavailable(why) ==> instance::stderr_words(true, tail)
            == "unavailable ("@ + why@ + ")"@,
{
}

/// The limits are a mebibyte of metadata and four kibibytes of quoted error output.
pub proof fn limits_are_powers_of_two()
    ensures
        instance::MMDS_SIZE_LIMIT == 1024 * 1024,
        instance::STDERR_TAIL_BYTES == 4 * 1024,
{
}

/// A request goes where it goes, in one way, and its failure has one name.
pub proof fn requests_go_to_one_place<B>(
    call: ApiCall<B>,
    method: HttpMethod,
    path: Seq<char>,
    context: Seq<char>,
)
    ensures
        call.goes(method, path, context) <==> (call.method, call.path@, call.context@) == (
            method,
            path,
            context,
        ),
{
}

/// Each override of a request carries the two names that were asked for, in the order in
/// which they were, and there is a list of them exactly where one was asked for.
pub proof fn overrides_carry_the_names_asked_for(
    overrides: Option<Vec<NetworkOverride>>,
    pairs: Seq<(String, String)>,
)
    ensures
        instance_api::overrides_for(overrides, pairs) <==> {
            &&& overrides is None <==> pairs.len() == 0
            &&& overrides matches Some(v) ==> {
                &&& v@.len() == pairs.len()
                &&& forall|i: int|
                    0 <= i < pairs.len() ==> (#[trigger] v@[i]).iface_id@ == pairs[i].0@
                        && v@[i].host_dev_name@ == pairs[i].1@
            }
        },
{
    if overrides is Some {
        let v = overrides->0@;
        let a = instance_api::override_words(v);
        let b = instance_api::pair_words(pairs);
        if v.len() == pairs.len() && (forall|i: int|
            0 <= i < pairs.len() ==> (#[trigger] v[i]).iface_id@ == pairs[i].0@
                && v[i].host_dev_name@ == pairs[i].1@) {
            assert(a =~= b);
        }
        if a == b {
            assert(a.len() == v.len() && b.len() == pairs.len());
            assert forall|i: int| 0 <= i < pairs.len() implies (#[trigger] v[i]).iface_id@
                == pairs[i].0@ && v[i].host_dev_name@ == pairs[i].1@ by {
                assert(a[i] == (v[i].iface_id@, v[i].host_dev_name@));
                assert(b[i] == (pairs[i].0@, pairs[i].1@));
            }
        }
    }
}

/// A snapshot is looked for in the directory of the monitor, unless its path begins at
/// the root.
pub proof fn snapshots_are_looked_for_beside_the_monitor(
    instance: FirecrackerInstance,
    path: Seq<char>,
)
    ensures
        path.len() > 0 && path[0] == '/' ==> instance.host_path(path) == path,
        path.len() == 0 || path[0] != '/' ==> instance.host_path(path) == paths::join_of(
            instance.work_dir@,
            path,
        ),
{
}

/// A setting says what is written and where, and nothing less.
pub proof fn settings_say_what_is_written_and_where(
    setting: KernelSetting,
    path: Seq<char>,
    value: Seq<char>,
)
    ensures
        setting.gives(path, value) <==> (setting.path@, setting.value@) == (path, value),
{
}

/// The indices of a ring's table that are in use, and those that hold a buffer.
#[verifier::ext_equal]
pub ghost struct RingTable {
    pub occupied: Set<u32>,
    pub buffers: Set<u32>,
}

/// The table after an operation that went well and, where it takes an index, took `idx`.
pub open spec fn table_after(op: RingOperation, table: RingTable, idx: u32) -> RingTable {
    match op {
        RingOperation::SubmitAside => table,
        RingOperation::OccupyIndex => RingTable { occupied: table.occupied.insert(idx), ..table },
        RingOperation::ReleaseIndex(i) => RingTable {
            occupied: table.occupied.remove(i),
            ..table
        },
        RingOperation::RegisterBuffer => RingTable {
            buffers: table.buffers.insert(idx),
            ..table
        },
        RingOperation::UnregisterBuffer(i) => RingTable {
            buffers: table.buffers.remove(i),
            ..table
        },
    }
}

/// Giving an index back, in either way, undoes occupying it, unregistering a buffer
/// undoes registering it, and plain requests leave the table alone.
pub proof fn what_a_ring_gave_can_be_given_back(table: RingTable, idx: u32)
    requires
        !table.occupied.contains(idx),
        !table.buffers.contains(idx),
    ensures
        ({
            let after = |request: RingRequest, t: RingTable|
                table_after(io_ring::operation_of(request), t, idx);
            let taken = after(RingRequest::OccupySparseBuffer, table);
            let held = after(RingRequest::RegisterBuffer, table);
            &&& taken.occupied == table.occupied.insert(idx) && taken.buffers == table.buffers
            &&& held.buffers == table.buffers.insert(idx) && held.occupied == table.occupied
            &&& after(RingRequest::ReleaseSparseBuffer { idx }, taken) == table
            &&& after(RingRequest::ReleaseSparseBufferFire { idx }, taken) == table
            &&& after(RingRequest::UnregisterBuffer { idx }, held) == table
            &&& after(RingRequest::Io, table) == table
        }),
        io_ring::operation_of(RingRequest::Io) == RingOperation::SubmitAside,
{
    let taken = table_after(
        io_ring::operation_of(RingRequest::OccupySparseBuffer),
        table,
        idx,
    );
    let held = table_after(io_ring::operation_of(RingRequest::RegisterBuffer), table, idx);
    assert(taken.occupied.remove(idx) =~= table.occupied);
    assert(held.buffers.remove(idx) =~= table.buffers);
}

/// The sender learns of the outcome unless it gave something back without waiting, and
/// gets a buffer back exactly where it handed one over.
pub proof fn senders_learn_of_outcomes_they_wait_for(request: RingRequest)
    ensures
        io_ring::reply_of(request) == RingReply::Log <==> request is ReleaseSparseBufferFire
            || request is UnregisterBuffer,
        io_ring::reply_of(request) == RingReply::SenderWithBuffer <==> request is RegisterBuffer,
        io_ring::reply_of(request) == RingReply::Sender <==> request is Io
            || request is OccupySparseBuffer || request is ReleaseSparseBuffer,
{
}

} // verus!
