//! What capturing a live device is for: a layer is recorded only once it is sealed, in
//! the snapshot and of the described size, with what the daemon told of it.
use vstd::prelude::*;

use crate::overlaybd_config;
use crate::paths;
use crate::snapshot_capture;
use crate::snapshot_capture::CaptureEvent;
use crate::snapshot_capture::CaptureRun;
use crate::snapshot_capture::CaptureStep;
use crate::snapshot_capture::LinkEvent;
use crate::snapshot_capture::LinkStep;
use crate::snapshot_capture::PublishStep;
use crate::snapshot_capture::ReplaceStep;
use crate::snapshot_capture::SealedLayer;
use crate::snapshot_layers;
use crate::snapshot_layers::LayerDescriptor;
use crate::text;

verus! {

/// A capture from its beginning: `runs[i]` is the run before the event `events[i]`, and
/// the last of `runs` the run after all of them.
pub open spec fn capture(runs: Seq<CaptureRun>, events: Seq<CaptureEvent>) -> bool {
    &&& runs.len() == events.len() + 1
    &&& runs[0].step == CaptureStep::LoadConfig
    &&& !runs[0].terminal
    &&& forall|i: int|
        0 <= i < events.len() ==> runs[i + 1].advanced(runs[i], #[trigger] events[i])
}

proof fn lemma_shorter(runs: Seq<CaptureRun>, events: Seq<CaptureEvent>)
    requires
        capture(runs, events),
        events.len() > 0,
    ensures
        capture(runs.drop_last(), events.drop_last()),
        runs.last().advanced(runs.drop_last().last(), events.last()),
{
    let r = runs.drop_last();
    let e = events.drop_last();
    assert forall|i: int| 0 <= i < e.len() implies r[i + 1].advanced(r[i], #[trigger] e[i]) by {
        assert(runs[i + 1].advanced(runs[i], events[i]));
    }
    assert(runs[events.len() as int].advanced(runs[events.len() - 1], events[events.len() - 1]));
}

/// The daemon told, when it was asked to seal the layer, what the run holds now.
pub open spec fn told(runs: Seq<CaptureRun>, events: Seq<CaptureEvent>, run: CaptureRun) -> bool {
    exists|j: int|
        #![trigger runs[j]]
        0 <= j < events.len() && runs[j].step == CaptureStep::Restack && events[j]
            == CaptureEvent::Restacked(run.descriptor) && runs[j].live_layer == run.live_layer
}

/// The step was taken and done.
pub open spec fn done(runs: Seq<CaptureRun>, events: Seq<CaptureEvent>, step: CaptureStep) -> bool {
    exists|j: int|
        #![trigger runs[j]]
        0 <= j < events.len() && runs[j].step == step && events[j] == CaptureEvent::Done
}

/// The size of the layer in the snapshot was read, and was this.
pub open spec fn measured(runs: Seq<CaptureRun>, events: Seq<CaptureEvent>, size: u64) -> bool {
    exists|j: int|
        #![trigger runs[j]]
        0 <= j < events.len() && runs[j].step == CaptureStep::ReadSize && events[j]
            == CaptureEvent::Size(size)
}

proof fn lemma_told_before(
    runs: Seq<CaptureRun>,
    events: Seq<CaptureEvent>,
    a: CaptureRun,
    b: CaptureRun,
)
    requires
        capture(runs, events),
        events.len() > 0,
        told(runs.drop_last(), events.drop_last(), a),
        a.descriptor == b.descriptor,
        a.live_layer == b.live_layer,
    ensures
        told(runs, events, b),
{
    let r = runs.drop_last();
    let e = events.drop_last();
    let j = choose|j: int|
        #![trigger r[j]]
        0 <= j < e.len() && r[j].step == CaptureStep::Restack && e[j] == CaptureEvent::Restacked(
            a.descriptor,
        ) && r[j].live_layer == a.live_layer;
    assert(runs[j] == r[j]);
}

proof fn lemma_done_before(runs: Seq<CaptureRun>, events: Seq<CaptureEvent>, step: CaptureStep)
    requires
        capture(runs, events),
        events.len() > 0,
        done(runs.drop_last(), events.drop_last(), step),
    ensures
        done(runs, events, step),
{
    let r = runs.drop_last();
    let e = events.drop_last();
    let j = choose|j: int|
        #![trigger r[j]]
        0 <= j < e.len() && r[j].step == step && e[j] == CaptureEvent::Done;
    assert(runs[j] == r[j]);
}

proof fn lemma_measured_before(runs: Seq<CaptureRun>, events: Seq<CaptureEvent>, size: u64)
    requires
        capture(runs, events),
        events.len() > 0,
        measured(runs.drop_last(), events.drop_last(), size),
    ensures
        measured(runs, events, size),
{
    let r = runs.drop_last();
    let e = events.drop_last();
    let j = choose|j: int|
        #![trigger r[j]]
        0 <= j < e.len() && r[j].step == CaptureStep::ReadSize && e[j] == CaptureEvent::Size(size);
    assert(runs[j] == r[j]);
}

/// From sealing on, a capture holds what the daemon told of the layer: no later event
/// changes it, whether the layer had to be copied or not.
pub proof fn captures_keep_what_the_daemon_told(runs: Seq<CaptureRun>, events: Seq<CaptureEvent>)
    requires
        capture(runs, events),
    ensures
        ({
            let last = runs.last();
            matches!(
                last.step,
                CaptureStep::Copy | CaptureStep::ReadSize | CaptureStep::Discard
                    | CaptureStep::Rewrite | CaptureStep::Finished
            ) ==> told(runs, events, last)
        }),
    decreases events.len(),
{
    if events.len() > 0 {
        lemma_shorter(runs, events);
        let before = runs.drop_last().last();
        let last = runs.last();
        let n = events.len() - 1;
        captures_keep_what_the_daemon_told(runs.drop_last(), events.drop_last());
        assert(runs[n] == before);
        assert(events[n] == events.last());
        if told(runs.drop_last(), events.drop_last(), before) && before.descriptor
            == last.descriptor && before.live_layer == last.live_layer {
            lemma_told_before(runs, events, before, last);
        }
    }
}

/// A capture comes to recording the layer only after the layer has been brought into
/// the snapshot: where the daemon sealed it elsewhere, it has been copied.
pub proof fn layers_are_in_the_snapshot_before_they_are_recorded(
    runs: Seq<CaptureRun>,
    events: Seq<CaptureEvent>,
)
    requires
        capture(runs, events),
    ensures
        ({
            let last = runs.last();
            matches!(
                last.step,
                CaptureStep::ReadSize | CaptureStep::Discard | CaptureStep::Rewrite
                    | CaptureStep::Finished
            ) ==> done(runs, events, CaptureStep::Copy) || paths::components(last.live_layer@)
                == paths::components(last.snapshot_layer@)
        }),
    decreases events.len(),
{
    if events.len() > 0 {
        lemma_shorter(runs, events);
        layers_are_in_the_snapshot_before_they_are_recorded(runs.drop_last(), events.drop_last());
        let n = events.len() - 1;
        assert(runs[n] == runs.drop_last().last());
        assert(events[n] == events.last());
        if done(runs.drop_last(), events.drop_last(), CaptureStep::Copy) {
            lemma_done_before(runs, events, CaptureStep::Copy);
        }
    }
}

/// A layer that the daemon described is recorded only after its size in the snapshot
/// has been read and is the described one.
pub proof fn described_layers_are_measured_before_they_are_recorded(
    runs: Seq<CaptureRun>,
    events: Seq<CaptureEvent>,
)
    requires
        capture(runs, events),
    ensures
        ({
            let last = runs.last();
            (last.step == CaptureStep::Rewrite || last.step == CaptureStep::Finished)
                && last.descriptor is Some ==> measured(runs, events, last.descriptor->0.size)
        }),
    decreases events.len(),
{
    if events.len() > 0 {
        lemma_shorter(runs, events);
        described_layers_are_measured_before_they_are_recorded(
            runs.drop_last(),
            events.drop_last(),
        );
        let before = runs.drop_last().last();
        let last = runs.last();
        let n = events.len() - 1;
        assert(runs[n] == before);
        assert(events[n] == events.last());
        if last.descriptor is Some && measured(
            runs.drop_last(),
            events.drop_last(),
            last.descriptor->0.size,
        ) {
            lemma_measured_before(runs, events, last.descriptor->0.size);
        }
    }
}

/// A capture ends well only after the layer has been recorded for the live device, and
/// only ever has one target: the place of the layer in the snapshot.
pub proof fn captures_end_well_by_recording_the_layer(
    runs: Seq<CaptureRun>,
    events: Seq<CaptureEvent>,
)
    requires
        capture(runs, events),
    ensures
        runs.last().step == CaptureStep::Finished ==> done(runs, events, CaptureStep::Rewrite),
        runs.last().snapshot_layer == runs[0].snapshot_layer,
        runs.last().output_dir == runs[0].output_dir,
        runs.last().terminal ==> runs.last().step == CaptureStep::Failed,
    decreases events.len(),
{
    if events.len() > 0 {
        lemma_shorter(runs, events);
        captures_end_well_by_recording_the_layer(runs.drop_last(), events.drop_last());
        let n = events.len() - 1;
        assert(runs[n] == runs.drop_last().last());
        assert(events[n] == events.last());
        if done(runs.drop_last(), events.drop_last(), CaptureStep::Rewrite) {
            lemma_done_before(runs, events, CaptureStep::Rewrite);
        }
    }
}

/// The events of a capture in which nothing fails, of a device that writes to
/// `upper_data`, whose layer the daemon describes so.
pub open spec fn good_events(
    upper_data: String,
    same_filesystem: bool,
    descriptor: Option<LayerDescriptor>,
) -> Seq<CaptureEvent> {
    let sealing = seq![
        CaptureEvent::Loaded(upper_data),
        CaptureEvent::Done,
        CaptureEvent::SameFilesystem(same_filesystem),
    ];
    let beside = if same_filesystem {
        seq![]
    } else {
        seq![CaptureEvent::Done]
    };
    let copying = if same_filesystem {
        seq![]
    } else {
        seq![CaptureEvent::Done]
    };
    let measuring = match descriptor {
        Some(d) => seq![CaptureEvent::Size(d.size)],
        None => seq![],
    };
    sealing + beside + seq![CaptureEvent::Restacked(descriptor)] + copying + measuring + seq![
        CaptureEvent::Done,
    ]
}

/// A capture in which nothing fails ends well, whether the layer can be sealed right in
/// the snapshot or has to be copied, and whether the daemon describes it or not. On one
/// file system the layer is sealed in the snapshot, else beside the file that the device
/// writes to.
pub proof fn captures_without_failures_end_well(
    runs: Seq<CaptureRun>,
    upper_data: String,
    same_filesystem: bool,
    descriptor: Option<LayerDescriptor>,
)
    requires
        capture(runs, good_events(upper_data, same_filesystem, descriptor)),
        upper_data@.len() > 0,
        !same_filesystem ==> paths::parent_of(upper_data@) is Some && paths::components(
            paths::join_of(paths::parent_of(upper_data@)->0, "snapshot.commit"@),
        ) != paths::components(runs[0].snapshot_layer@),
    ensures
        runs.last().step == CaptureStep::Finished,
        runs.last().descriptor == descriptor,
        runs.last().upper_data == upper_data,
        runs.last().live_layer@ == (if same_filesystem {
            runs[0].snapshot_layer@
        } else {
            paths::join_of(paths::parent_of(upper_data@)->0, "snapshot.commit"@)
        }),
{
    let events = good_events(upper_data, same_filesystem, descriptor);
    let n = events.len();
    assert(runs[0].step == CaptureStep::LoadConfig);
    assert(runs[1].advanced(runs[0], events[0]));
    assert(runs[1].step == CaptureStep::RemoveStale);
    assert(runs[2].advanced(runs[1], events[1]));
    assert(runs[2].step == CaptureStep::CompareFilesystems);
    assert(runs[3].advanced(runs[2], events[2]));
    if same_filesystem {
        assert(runs[3].step == CaptureStep::Restack);
        assert(events[3] == CaptureEvent::Restacked(descriptor));
        assert(runs[4].advanced(runs[3], events[3]));
        assert(runs[5].advanced(runs[4], events[4]));
        if descriptor is Some {
            assert(runs[4].step == CaptureStep::ReadSize);
            assert(runs[6].advanced(runs[5], events[5]));
        }
    } else {
        assert(runs[3].step == CaptureStep::RemoveStaleLive);
        assert(runs[4].advanced(runs[3], events[3]));
        assert(runs[4].step == CaptureStep::Restack);
        assert(events[4] == CaptureEvent::Restacked(descriptor));
        assert(runs[5].advanced(runs[4], events[4]));
        assert(runs[5].step == CaptureStep::Copy);
        assert(runs[6].advanced(runs[5], events[5]));
        assert(runs[7].advanced(runs[6], events[6]));
        if descriptor is Some {
            assert(runs[6].step == CaptureStep::ReadSize);
            assert(runs[8].advanced(runs[7], events[7]));
        }
    }
}

/// A failure of any step ends the capture, and only a failure after the live device
/// was changed is terminal: while the sealed layer is copied or recorded, or where the
/// daemon says so. A layer of another size than the described one is a failure too, and
/// is discarded before it is reported.
pub proof fn failures_end_a_capture(before: CaptureRun, event: CaptureEvent, after: CaptureRun)
    requires
        before.consistent(),
        before.step != CaptureStep::Failed,
        before.step != CaptureStep::Finished,
        after.advanced(before, event),
    ensures
        event == CaptureEvent::Failed ==> after.step == CaptureStep::Failed,
        event is RestackFailed && before.step == CaptureStep::Restack ==> after.step
            == CaptureStep::Failed && after.terminal == event->terminal,
        event == CaptureEvent::Failed && before.step != CaptureStep::Discard ==> (after.terminal
            <==> before.step == CaptureStep::Copy || before.step == CaptureStep::Rewrite),
        before.step == CaptureStep::ReadSize && event is Size && event->Size_0
            != before.descriptor->0.size ==> after.step == CaptureStep::Discard,
        before.step == CaptureStep::Discard ==> after.step == CaptureStep::Failed
            && !after.terminal && after.message@
            == "restack snapshot descriptor size mismatch for "@ + before.snapshot_layer@
            + ": descriptor says "@ + text::decimal(before.descriptor->0.size as nat)
            + ", file has "@ + text::decimal(before.layer_size as nat),
        after.step == CaptureStep::Failed ==> event == CaptureEvent::Failed || event is RestackFailed
            || before.step == CaptureStep::Discard || (before.step == CaptureStep::LoadConfig
            && event is Loaded && event->Loaded_0@.len() == 0) || (before.step
            == CaptureStep::CompareFilesystems && event == CaptureEvent::SameFilesystem(false)
            && paths::parent_of(before.upper_data@) is None),
{
}

/// A sealed layer is copied exactly where it was sealed at another place than the
/// snapshot's, by the names of the two paths; a described layer is measured next, any
/// other recorded at once.
pub proof fn layers_sealed_elsewhere_are_copied(
    before: CaptureRun,
    event: CaptureEvent,
    after: CaptureRun,
)
    requires
        after.advanced(before, event),
        before.step == CaptureStep::Restack && event is Restacked || before.step
            == CaptureStep::Copy && event is Done,
    ensures
        ({
            let elsewhere = paths::components(before.live_layer@) != paths::components(
                before.snapshot_layer@,
            );
            &&& after.step == CaptureStep::Copy <==> before.step == CaptureStep::Restack
                && elsewhere
            &&& after.step != CaptureStep::Copy ==> after.step == if after.descriptor is Some {
                CaptureStep::ReadSize
            } else {
                CaptureStep::Rewrite
            }
        }),
{
}

/// An answer to the question that a step asks.
pub open spec fn answers(event: CaptureEvent, step: CaptureStep) -> bool {
    match step {
        CaptureStep::LoadConfig => event is Loaded || event is Failed,
        CaptureStep::RemoveStale | CaptureStep::RemoveStaleLive | CaptureStep::Copy
        | CaptureStep::Rewrite => event is Done || event is Failed,
        CaptureStep::CompareFilesystems => event is SameFilesystem || event is Failed,
        CaptureStep::Restack => event is Restacked || event is RestackFailed || event is Failed,
        CaptureStep::ReadSize => event is Size || event is Failed,
        CaptureStep::Discard => true,
        CaptureStep::Finished | CaptureStep::Failed => false,
    }
}

/// What is no answer changes nothing, and an answer changes the step and what it tells
/// of: where the upper layer is, where the layer is sealed, what the daemon says of it and
/// how large it is; a reason is given exactly where the capture fails.
pub proof fn answers_change_what_they_tell_of(
    before: CaptureRun,
    event: CaptureEvent,
    after: CaptureRun,
)
    requires
        after.advanced(before, event),
    ensures
        !answers(event, before.step) ==> after == before,
        answers(event, before.step) ==> after.step != before.step,
        after.output_dir == before.output_dir,
        after.snapshot_layer == before.snapshot_layer,
        !(before.step == CaptureStep::LoadConfig && event is Loaded) ==> after.upper_data
            == before.upper_data,
        before.step != CaptureStep::CompareFilesystems ==> after.live_layer == before.live_layer,
        !(before.step == CaptureStep::Restack && event is Restacked) ==> after.descriptor
            == before.descriptor,
        !(before.step == CaptureStep::ReadSize && event is Size) ==> after.layer_size
            == before.layer_size,
        after.step != CaptureStep::Failed ==> after.message == before.message && after.terminal
            == before.terminal,
        before.step == CaptureStep::LoadConfig && event is Loaded && event->Loaded_0@.len() > 0
            ==> after.upper_data == event->Loaded_0,
        before.step == CaptureStep::Restack && event is Restacked ==> after.descriptor
            == event->Restacked_0,
        before.step == CaptureStep::ReadSize && event is Size ==> after.layer_size == event->Size_0,
{
}

/// A capture that fails says what it was doing, and to which file where there is one.
pub proof fn failed_captures_say_what_they_were_doing(before: CaptureRun, after: CaptureRun)
    requires
        after.advanced(before, CaptureEvent::Failed),
    ensures
        before.step == CaptureStep::LoadConfig ==> after.message@
            == "resolve restack source upper path"@,
        before.step == CaptureStep::RemoveStale ==> after.message@
            == "remove stale overlaybd snapshot layer "@ + before.snapshot_layer@,
        before.step == CaptureStep::CompareFilesystems ==> after.message@
            == "validate restack snapshot filesystem precondition"@,
        before.step == CaptureStep::RemoveStaleLive ==> after.message@
            == "prepare same-filesystem restack snapshot layer "@ + before.live_layer@,
        before.step == CaptureStep::Restack ==> after.message@
            == "request overlaybd restack snapshot from ublk device"@,
        before.step == CaptureStep::Copy ==> after.message@
            == "copy restack snapshot layer into managed snapshot dir"@,
        before.step == CaptureStep::ReadSize ==> after.message@
            == "read restack snapshot layer metadata "@ + before.snapshot_layer@,
        before.step == CaptureStep::Rewrite ==> after.message@
            == "rewrite live runtime config after restack snapshot"@,
{
}

/// Failures that the answers themselves bring are named too: a device without an upper
/// layer, one whose upper layer lies in no directory, and a refusal of the daemon.
pub proof fn refused_captures_say_what_was_missing(
    before: CaptureRun,
    event: CaptureEvent,
    after: CaptureRun,
)
    requires
        after.advanced(before, event),
    ensures
        before.step == CaptureStep::LoadConfig && event is Loaded && event->Loaded_0@.len() == 0
            ==> after.step == CaptureStep::Failed && !after.terminal && after.message@
            == "resolve restack source upper path"@,
        before.step == CaptureStep::CompareFilesystems && event == CaptureEvent::SameFilesystem(
            false,
        ) && paths::parent_of(before.upper_data@) is None ==> after.step == CaptureStep::Failed
            && !after.terminal && after.message@
            == "restack source upper path has no parent directory"@,
        before.step == CaptureStep::Restack && event is RestackFailed ==> after.message@
            == "request overlaybd restack snapshot from ublk device"@,
{
}

/// Where the topmost layer is another than the sealed one, both are named, and where there
/// is none at all that is said.
pub proof fn refused_stagings_name_both_layers(
    c: overlaybd_config::ImageModel,
    expected: Seq<char>,
    actual: Seq<char>,
)
    ensures
        c.lowers.len() == 0 ==> snapshot_capture::latest_layer_fault(c, expected, actual) == Some(
            "restack snapshot expected latest lower to be the newly claimed sealed upper layer"@,
        ),
        c.lowers.len() > 0 && paths::components(actual) != paths::components(expected)
            ==> snapshot_capture::latest_layer_fault(c, expected, actual) == Some(
            "restack snapshot expected latest lower "@ + expected + " but found "@ + actual,
        ),
{
}

/// Where a layer was sealed, staging goes on exactly where it is the topmost one of the
/// image, by the resolved path of its file or else by the path as it is written.
pub proof fn staging_expects_the_sealed_layer_on_top(
    c: overlaybd_config::ImageModel,
    sealed: Option<SealedLayer>,
)
    ensures
        snapshot_capture::sealed_fault(c, sealed) is None <==> (sealed matches Some(layer) ==> {
            &&& c.lowers.len() > 0
            &&& paths::components(layer.expected@) == paths::components(
                match layer.actual {
                    Some(path) => path@,
                    None => c.lowers.last().file,
                },
            )
        }),
{
}

/// What a file system holds while a file is put at a second place.
pub struct LinkState {
    /// The directory of the destination is there.
    pub parent: bool,
    /// Something is at the destination.
    pub occupied: bool,
    /// The destination holds what the source holds.
    pub complete: bool,
}

/// The event tells truly what became of the step.
pub open spec fn true_link_report(
    step: LinkStep,
    event: LinkEvent,
    before: LinkState,
    after: LinkState,
) -> bool {
    match step {
        LinkStep::CreateParent => event == LinkEvent::Done ==> after.parent,
        LinkStep::RemoveDestination => event != LinkEvent::Failed ==> !after.occupied
            && !after.complete,
        LinkStep::HardLink => {
            &&& event == LinkEvent::Done ==> after.occupied && after.complete && !before.occupied
            &&& event != LinkEvent::Done ==> after == before
        },
        LinkStep::SparseCopy => event == LinkEvent::Done ==> after.occupied && after.complete,
        LinkStep::DiscardDestination => !after.occupied && !after.complete,
        LinkStep::Linked | LinkStep::Failed => after == before,
    }
}

/// Linking succeeds only by a link or a copy that was done, tries a copy exactly where a
/// link fails, and never leaves half a copy: a copy that fails is discarded. What is in
/// the way is removed before, and a file that is not there need not be.
pub proof fn linking_leaves_a_whole_file_or_none(
    step: LinkStep,
    event: LinkEvent,
    before: LinkState,
    after: LinkState,
)
    requires
        true_link_report(step, event, before, after),
        step != LinkStep::Linked,
        step != LinkStep::Failed,
    ensures
        ({
            let next = snapshot_capture::link_step_after(step, event);
            &&& next == LinkStep::Linked ==> after.occupied && after.complete
            &&& next == LinkStep::Linked <==> event == LinkEvent::Done && (step
                == LinkStep::HardLink || step == LinkStep::SparseCopy)
            &&& step == LinkStep::HardLink && event != LinkEvent::Done <==> next
                == LinkStep::SparseCopy
            &&& next == LinkStep::HardLink <==> step == LinkStep::RemoveDestination && event
                != LinkEvent::Failed
            &&& next == LinkStep::HardLink ==> !after.occupied
            &&& next == LinkStep::DiscardDestination <==> step == LinkStep::SparseCopy && event
                != LinkEvent::Done
            &&& next == LinkStep::RemoveDestination <==> step == LinkStep::CreateParent && event
                == LinkEvent::Done
            &&& next == LinkStep::Failed && step == LinkStep::DiscardDestination ==> !after.occupied
        }),
{
}

/// Publishing and replacing go through all their steps in order as long as each is done,
/// and stop at the first that is not.
pub proof fn files_are_published_step_by_step(done: bool)
    ensures
        snapshot_capture::publish_step_after(PublishStep::Build, true) == PublishStep::Rename,
        snapshot_capture::publish_step_after(PublishStep::Rename, true) == PublishStep::Published,
        snapshot_capture::publish_step_after(PublishStep::Build, false) == PublishStep::RemoveTemp,
        snapshot_capture::publish_step_after(PublishStep::Rename, false) == PublishStep::RemoveTemp,
        snapshot_capture::publish_step_after(PublishStep::RemoveTemp, done) == PublishStep::Failed,
        snapshot_capture::publish_step_after(PublishStep::Published, done)
            == PublishStep::Published,
        snapshot_capture::publish_step_after(PublishStep::Failed, done) == PublishStep::Failed,
{
}

/// The number of steps of a replacement that are still to be done.
pub open spec fn replace_steps_left(step: ReplaceStep) -> int {
    match step {
        ReplaceStep::CreateTemp => 4,
        ReplaceStep::Fill => 3,
        ReplaceStep::Sync => 2,
        ReplaceStep::Persist => 1,
        ReplaceStep::Replaced => 0,
        ReplaceStep::Failed => 5,
    }
}

/// A replacement gets one step closer with each step that is done, fails with the first
/// that is not, and stays where it ended.
pub proof fn replacements_go_one_step_at_a_time(step: ReplaceStep, done: bool)
    ensures
        ({
            let next = snapshot_capture::replace_step_after(step, done);
            &&& step == ReplaceStep::Replaced ==> next == step
            &&& step == ReplaceStep::Failed ==> next == step
            &&& step != ReplaceStep::Replaced && step != ReplaceStep::Failed && done
                ==> replace_steps_left(next) == replace_steps_left(step) - 1
            &&& step != ReplaceStep::Replaced && !done ==> next == ReplaceStep::Failed
        }),
{
}

/// Where the parts of a snapshot stand in any directory: the root image below a directory
/// of its own, its configuration, a sealed layer, a memory layer, and compacted layers
/// beside each other, each under a name of its own.
pub proof fn parts_of_a_snapshot_stand_under_their_names(dir: Seq<char>, layer: Seq<char>)
    ensures
        paths::join_of(dir, snapshot_capture::ROOTFS_DIR@) == paths::join_of(dir, "rootfs"@),
        paths::join_of(dir, snapshot_capture::IMAGE_CONFIG_FILE@) == paths::join_of(
            dir,
            "image.json"@,
        ),
        paths::join_of(dir, snapshot_capture::SNAPSHOT_LAYER_FILE@) == paths::join_of(
            dir,
            "snapshot.commit"@,
        ),
        paths::join_of(dir, snapshot_capture::MEMORY_LAYER_FILE@) == paths::join_of(
            dir,
            "overlaybd.commit"@,
        ),
        paths::join_of(dir, snapshot_layers::MANAGED_BASE_LAYER_FILE@) == paths::join_of(
            dir,
            "managed-base.commit"@,
        ),
        paths::join_of(dir, snapshot_layers::MEM_COMPACTED_FILE@) == paths::join_of(
            dir,
            "mem_compacted.commit"@,
        ),
        paths::extended(layer, snapshot_capture::TEMP_LAYER_EXTENSION@) == paths::extended(
            layer,
            "commit.tmp"@,
        ),
        snapshot_capture::DIRECT_MEMORY_SNAPSHOT_COMPACTION_CONCURRENCY == 32,
{
}

} // verus!
