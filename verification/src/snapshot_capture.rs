//! Capturing a snapshot of a live block device: the steps, their order, and
//! which failures leave the device unusable.
use vstd::prelude::*;
use vstd::string::StringExecFns;

use crate::dirty_memory;
use crate::dirty_memory::DirtyMemoryRanges;
use crate::dirty_memory::SegmentMapping;
use crate::failure;
use crate::failure::Failure;
use crate::overlaybd_config;
use crate::overlaybd_config::clone_layers;
use crate::overlaybd_config::ImageConfig;
use crate::overlaybd_config::LayerConfig;
use crate::overlaybd_config::UpperConfig;
use crate::paths;
use crate::snapshot_layers;
use crate::snapshot_layers::LayerDescriptor;
use crate::snapshot_layers::LowersPlan;
use crate::snapshot_layers::OverlaybdCompactOutput;
use crate::snapshot_layers::MANAGED_BASE_LAYER_FILE;
use crate::snapshot_layers::MEM_COMPACTED_FILE;
use crate::text;

verus! {

/// The file name of the layer that a snapshot seals.
pub const SNAPSHOT_LAYER_FILE: &'static str = "snapshot.commit";

/// The directory of a root file system in a snapshot.
pub const ROOTFS_DIR: &'static str = "rootfs";

/// The file name of the layer that holds dirty memory.
pub const MEMORY_LAYER_FILE: &'static str = "overlaybd.commit";

/// How many parts of the memory are packed at one time.
pub const DIRECT_MEMORY_SNAPSHOT_COMPACTION_CONCURRENCY: usize = 32;

/// The file name of an image configuration in a snapshot.
pub const IMAGE_CONFIG_FILE: &'static str = "image.json";

/// Why a capture failed. After a terminal failure the live device must not be
/// used any more.
#[derive(Debug, PartialEq, Eq)]
pub struct CaptureFailure {
    pub terminal: bool,
    pub message: String,
}

/// The same failure, but terminal.
pub fn into_terminal_snapshot_failure(e: CaptureFailure) -> (r: CaptureFailure)
    ensures
        r.terminal,
        r.message == e.message,
{
    CaptureFailure { terminal: true, message: e.message }
}

/// What a capture has made of the live device.
#[derive(Debug, PartialEq, Eq)]
pub enum LiveOverlaybdSnapshotState {
    /// The device is read-only: nothing had to be sealed.
    ReadOnly,
    /// The upper layer has been sealed into this file.
    Restacked(String),
}

impl LiveOverlaybdSnapshotState {
    pub fn snapshot_layer_path(&self) -> (r: Option<&str>)
        ensures
            match *self {
                LiveOverlaybdSnapshotState::ReadOnly => r is None,
                LiveOverlaybdSnapshotState::Restacked(path) => r is Some && r->0@ == path@,
            },
    {
        match self {
            LiveOverlaybdSnapshotState::ReadOnly => None,
            LiveOverlaybdSnapshotState::Restacked(path) => Some(path.as_str()),
        }
    }

    /// The outcome of staging after this capture: once the upper layer has been
    /// sealed, a failure to stage is terminal.
    pub fn finish_staging(self, staged_snapshot: Result<String, CaptureFailure>) -> (r: Result<
        String,
        CaptureFailure,
    >)
        ensures
            match staged_snapshot {
                Ok(path) => r == Ok::<String, CaptureFailure>(path),
                Err(e) => r is Err && r->Err_0.message == e.message && r->Err_0.terminal == (
                e.terminal || self is Restacked),
            },
    {
        match self {
            LiveOverlaybdSnapshotState::ReadOnly => staged_snapshot,
            LiveOverlaybdSnapshotState::Restacked(_) => match staged_snapshot {
                Ok(path) => Ok(path),
                Err(e) => Err(into_terminal_snapshot_failure(e)),
            },
        }
    }
}

/// The step that a capture waits for.
#[derive(Debug, Clone, Copy, PartialEq, Eq, Structural)]
pub enum CaptureStep {
    /// Load the configuration of the live device.
    LoadConfig,
    /// Remove what is left of an earlier layer at `snapshot_layer`.
    RemoveStale,
    /// Compare the file systems of `upper_data` and `output_dir`.
    CompareFilesystems,
    /// Remove what is left of an earlier layer at `live_layer`.
    RemoveStaleLive,
    /// Have the daemon seal the upper layer into `live_layer`.
    Restack,
    /// Copy `live_layer` to `snapshot_layer`.
    Copy,
    /// Read the size of `snapshot_layer`.
    ReadSize,
    /// Remove `snapshot_layer`, whose size is wrong.
    Discard,
    /// Append `snapshot_layer` to the lower layers of the live device.
    Rewrite,
    Finished,
    Failed,
}

/// What became of a step.
#[derive(Debug, PartialEq, Eq)]
pub enum CaptureEvent {
    /// The configuration has been loaded; its upper layer writes to this file.
    Loaded(String),
    /// Whether the two paths lie on one file system.
    SameFilesystem(bool),
    /// The daemon has sealed the layer and may have described it.
    Restacked(Option<LayerDescriptor>),
    Size(u64),
    Done,
    Failed,
    /// The daemon has failed to seal the layer, and says whether it had changed the
    /// live device by then.
    RestackFailed { terminal: bool },
}

/// A capture on its way.
#[derive(Debug, PartialEq, Eq)]
pub struct CaptureRun {
    pub output_dir: String,
    pub snapshot_layer: String,
    pub upper_data: String,
    pub live_layer: String,
    pub descriptor: Option<LayerDescriptor>,
    pub layer_size: u64,
    pub step: CaptureStep,
    pub terminal: bool,
    pub message: String,
}

/// The place that the daemon seals the layer into where the live device is on
/// another file system than the snapshot.
pub open spec fn layer_beside(upper_data: Seq<char>) -> Option<Seq<char>> {
    match paths::parent_of(upper_data) {
        Some(dir) => Some(paths::join_of(dir, SNAPSHOT_LAYER_FILE@)),
        None => None,
    }
}

/// What is left to do once the sealed layer is in the snapshot.
pub open spec fn after_layer_in_place(descriptor: Option<LayerDescriptor>) -> CaptureStep {
    if descriptor is Some {
        CaptureStep::ReadSize
    } else {
        CaptureStep::Rewrite
    }
}

pub open spec fn size_mismatch(path: Seq<char>, described: nat, found: nat) -> Seq<char> {
    "restack snapshot descriptor size mismatch for "@ + path + ": descriptor says "@
        + text::decimal(described) + ", file has "@ + text::decimal(found)
}

impl CaptureRun {
    /// All but the step and what it has found out stays as it was.
    pub open spec fn keeps_paths(self, before: CaptureRun) -> bool {
        self.output_dir == before.output_dir && self.snapshot_layer == before.snapshot_layer
    }

    /// The run has failed for this reason; nothing else has changed.
    pub open spec fn failed(self, before: CaptureRun, terminal: bool, message: Seq<char>) -> bool {
        &&& self == (CaptureRun {
            step: CaptureStep::Failed,
            terminal,
            message: self.message,
            ..before
        })
        &&& self.message@ == message
    }

    /// The run waits for this step; nothing else has changed.
    pub open spec fn at(self, before: CaptureRun, step: CaptureStep) -> bool {
        self == (CaptureRun { step, ..before })
    }

    /// The run after `event`. An event that the step does not wait for changes
    /// nothing.
    pub open spec fn advanced(self, before: CaptureRun, event: CaptureEvent) -> bool {
        match before.step {
            CaptureStep::LoadConfig => match event {
                CaptureEvent::Loaded(upper_data) => if upper_data@.len() == 0 {
                    self.failed(before, false, "resolve restack source upper path"@)
                } else {
                    self == (CaptureRun { step: CaptureStep::RemoveStale, upper_data, ..before })
                },
                CaptureEvent::Failed => self.failed(
                    before,
                    false,
                    "resolve restack source upper path"@,
                ),
                _ => self == before,
            },
            CaptureStep::RemoveStale => match event {
                CaptureEvent::Done => self.at(before, CaptureStep::CompareFilesystems),
                CaptureEvent::Failed => self.failed(
                    before,
                    false,
                    "remove stale overlaybd snapshot layer "@ + before.snapshot_layer@,
                ),
                _ => self == before,
            },
            CaptureStep::CompareFilesystems => match event {
                CaptureEvent::SameFilesystem(true) => {
                    &&& self == (CaptureRun {
                        step: CaptureStep::Restack,
                        live_layer: self.live_layer,
                        ..before
                    })
                    &&& self.live_layer@ == before.snapshot_layer@
                },
                CaptureEvent::SameFilesystem(false) => match layer_beside(before.upper_data@) {
                    Some(path) => {
                        &&& self == (CaptureRun {
                            step: CaptureStep::RemoveStaleLive,
                            live_layer: self.live_layer,
                            ..before
                        })
                        &&& self.live_layer@ == path
                    },
                    None => self.failed(
                        before,
                        false,
                        "restack source upper path has no parent directory"@,
                    ),
                },
                CaptureEvent::Failed => self.failed(
                    before,
                    false,
                    "validate restack snapshot filesystem precondition"@,
                ),
                _ => self == before,
            },
            CaptureStep::RemoveStaleLive => match event {
                CaptureEvent::Done => self.at(before, CaptureStep::Restack),
                CaptureEvent::Failed => self.failed(
                    before,
                    false,
                    "prepare same-filesystem restack snapshot layer "@ + before.live_layer@,
                ),
                _ => self == before,
            },
            CaptureStep::Restack => match event {
                CaptureEvent::Restacked(descriptor) => self == (CaptureRun {
                    step: if paths::components(before.live_layer@) != paths::components(
                        before.snapshot_layer@,
                    ) {
                        CaptureStep::Copy
                    } else {
                        after_layer_in_place(descriptor)
                    },
                    descriptor,
                    ..before
                }),
                CaptureEvent::Failed => self.failed(
                    before,
                    false,
                    "request overlaybd restack snapshot from ublk device"@,
                ),
                CaptureEvent::RestackFailed { terminal } => self.failed(
                    before,
                    terminal,
                    "request overlaybd restack snapshot from ublk device"@,
                ),
                _ => self == before,
            },
            CaptureStep::Copy => match event {
                CaptureEvent::Done => self.at(before, after_layer_in_place(before.descriptor)),
                CaptureEvent::Failed => self.failed(
                    before,
                    true,
                    "copy restack snapshot layer into managed snapshot dir"@,
                ),
                _ => self == before,
            },
            CaptureStep::ReadSize => match event {
                CaptureEvent::Size(size) => self == (CaptureRun {
                    step: if before.descriptor matches Some(d) && d.size != size {
                        CaptureStep::Discard
                    } else {
                        CaptureStep::Rewrite
                    },
                    layer_size: size,
                    ..before
                }),
                CaptureEvent::Failed => self.failed(
                    before,
                    false,
                    "read restack snapshot layer metadata "@ + before.snapshot_layer@,
                ),
                _ => self == before,
            },
            CaptureStep::Discard => self.failed(
                before,
                false,
                size_mismatch(
                    before.snapshot_layer@,
                    match before.descriptor {
                        Some(d) => d.size as nat,
                        None => 0,
                    },
                    before.layer_size as nat,
                ),
            ),
            CaptureStep::Rewrite => match event {
                CaptureEvent::Done => self.at(before, CaptureStep::Finished),
                CaptureEvent::Failed => self.failed(
                    before,
                    true,
                    "rewrite live runtime config after restack snapshot"@,
                ),
                _ => self == before,
            },
            CaptureStep::Finished | CaptureStep::Failed => self == before,
        }
    }

    /// Begins the capture of a writable device into `output_dir`.
    pub fn begin(output_dir: &str) -> (r: CaptureRun)
        ensures
            r.step == CaptureStep::LoadConfig,
            r.output_dir@ == output_dir@,
            r.snapshot_layer@ == paths::join_of(output_dir@, SNAPSHOT_LAYER_FILE@),
            r.descriptor is None,
            !r.terminal,
            r.consistent(),
    {
        CaptureRun {
            output_dir: output_dir.to_owned(),
            snapshot_layer: paths::join(output_dir, SNAPSHOT_LAYER_FILE),
            upper_data: String::new(),
            live_layer: String::new(),
            descriptor: None,
            layer_size: 0,
            step: CaptureStep::LoadConfig,
            terminal: false,
            message: String::new(),
        }
    }

    fn fail(self, terminal: bool, message: String) -> (r: CaptureRun)
        ensures
            r.failed(self, terminal, message@),
    {
        let mut run = self;
        run.step = CaptureStep::Failed;
        run.terminal = terminal;
        run.message = message;
        run
    }

    fn go(self, step: CaptureStep) -> (r: CaptureRun)
        ensures
            r.at(self, step),
    {
        let mut run = self;
        run.step = step;
        run
    }

    fn layer_in_place(self) -> (r: CaptureRun)
        ensures
            r.at(self, after_layer_in_place(self.descriptor)),
    {
        if self.descriptor.is_some() {
            self.go(CaptureStep::ReadSize)
        } else {
            self.go(CaptureStep::Rewrite)
        }
    }

    /// Takes what became of the current step and gives the run with the next.
    pub fn next(self, event: CaptureEvent) -> (r: CaptureRun)
        ensures
            r.advanced(self, event),
    {
        let mut run = self;
        match run.step {
            CaptureStep::LoadConfig => match event {
                CaptureEvent::Loaded(upper_data) => {
                    if upper_data.as_str().is_empty() {
                        run.fail(false, "resolve restack source upper path".to_owned())
                    } else {
                        run.upper_data = upper_data;
                        run.go(CaptureStep::RemoveStale)
                    }
                },
                CaptureEvent::Failed => run.fail(
                    false,
                    "resolve restack source upper path".to_owned(),
                ),
                _ => run,
            },
            CaptureStep::RemoveStale => match event {
                CaptureEvent::Done => run.go(CaptureStep::CompareFilesystems),
                CaptureEvent::Failed => {
                    let message = text::concat(
                        "remove stale overlaybd snapshot layer ",
                        run.snapshot_layer.as_str(),
                    );
                    run.fail(false, message)
                },
                _ => run,
            },
            CaptureStep::CompareFilesystems => match event {
                CaptureEvent::SameFilesystem(same) => {
                    if same {
                        run.live_layer = run.snapshot_layer.clone();
                        run.go(CaptureStep::Restack)
                    } else {
                        match paths::parent(run.upper_data.as_str()) {
                            Some(dir) => {
                                run.live_layer = paths::join(dir.as_str(), SNAPSHOT_LAYER_FILE);
                                run.go(CaptureStep::RemoveStaleLive)
                            },
                            None => run.fail(
                                false,
                                "restack source upper path has no parent directory".to_owned(),
                            ),
                        }
                    }
                },
                CaptureEvent::Failed => run.fail(
                    false,
                    "validate restack snapshot filesystem precondition".to_owned(),
                ),
                _ => run,
            },
            CaptureStep::RemoveStaleLive => match event {
                CaptureEvent::Done => run.go(CaptureStep::Restack),
                CaptureEvent::Failed => {
                    let message = text::concat(
                        "prepare same-filesystem restack snapshot layer ",
                        run.live_layer.as_str(),
                    );
                    run.fail(false, message)
                },
                _ => run,
            },
            CaptureStep::Restack => match event {
                CaptureEvent::Restacked(descriptor) => {
                    run.descriptor = descriptor;
                    if !paths::same_path(run.live_layer.as_str(), run.snapshot_layer.as_str()) {
                        run.go(CaptureStep::Copy)
                    } else {
                        run.layer_in_place()
                    }
                },
                CaptureEvent::Failed => run.fail(
                    false,
                    "request overlaybd restack snapshot from ublk device".to_owned(),
                ),
                CaptureEvent::RestackFailed { terminal } => run.fail(
                    terminal,
                    "request overlaybd restack snapshot from ublk device".to_owned(),
                ),
                _ => run,
            },
            CaptureStep::Copy => match event {
                CaptureEvent::Done => run.layer_in_place(),
                CaptureEvent::Failed => run.fail(
                    true,
                    "copy restack snapshot layer into managed snapshot dir".to_owned(),
                ),
                _ => run,
            },
            CaptureStep::ReadSize => match event {
                CaptureEvent::Size(size) => {
                    run.layer_size = size;
                    let wrong = match &run.descriptor {
                        Some(d) => d.size != size,
                        None => false,
                    };
                    if wrong {
                        run.go(CaptureStep::Discard)
                    } else {
                        run.go(CaptureStep::Rewrite)
                    }
                },
                CaptureEvent::Failed => {
                    let message = text::concat(
                        "read restack snapshot layer metadata ",
                        run.snapshot_layer.as_str(),
                    );
                    run.fail(false, message)
                },
                _ => run,
            },
            CaptureStep::Discard => {
                let described: u64 = match &run.descriptor {
                    Some(d) => d.size,
                    None => 0,
                };
                let mut message = text::concat3(
                    "restack snapshot descriptor size mismatch for ",
                    run.snapshot_layer.as_str(),
                    ": descriptor says ",
                );
                message.append(text::decimal_of(described).as_str());
                message.append(", file has ");
                message.append(text::decimal_of(run.layer_size).as_str());
                run.fail(false, message)
            },
            CaptureStep::Rewrite => match event {
                CaptureEvent::Done => run.go(CaptureStep::Finished),
                CaptureEvent::Failed => run.fail(
                    true,
                    "rewrite live runtime config after restack snapshot".to_owned(),
                ),
                _ => run,
            },
            CaptureStep::Finished | CaptureStep::Failed => run,
        }
    }

    /// The run after the daemon has failed to seal the layer. The failure is terminal
    /// where the daemon says that it had changed the live device.
    pub fn restack_failed(self, terminal: bool) -> (r: CaptureRun)
        ensures
            r.advanced(self, (CaptureEvent::RestackFailed { terminal })),
            self.step == CaptureStep::Restack ==> r.step == CaptureStep::Failed && r.terminal
                == terminal,
    {
        self.next(CaptureEvent::RestackFailed { terminal })
    }

    /// How the run has ended, once it has.
    pub fn outcome(self) -> (r: Option<Result<LiveOverlaybdSnapshotState, CaptureFailure>>)
        ensures
            match self.step {
                CaptureStep::Finished => r == Some(
                    Ok::<LiveOverlaybdSnapshotState, CaptureFailure>(
                        LiveOverlaybdSnapshotState::Restacked(self.snapshot_layer),
                    ),
                ),
                CaptureStep::Failed => r == Some(
                    Err::<LiveOverlaybdSnapshotState, CaptureFailure>(
                        CaptureFailure { terminal: self.terminal, message: self.message },
                    ),
                ),
                _ => r is None,
            },
    {
        match self.step {
            CaptureStep::Finished => Some(
                Ok(LiveOverlaybdSnapshotState::Restacked(self.snapshot_layer)),
            ),
            CaptureStep::Failed => Some(
                Err(CaptureFailure { terminal: self.terminal, message: self.message }),
            ),
            _ => None,
        }
    }

    /// The daemon has sealed the upper layer: the run is past that step.
    pub open spec fn sealed(self) -> bool {
        matches!(
            self.step,
            CaptureStep::Copy | CaptureStep::ReadSize | CaptureStep::Discard | CaptureStep::Rewrite
                | CaptureStep::Finished
        )
    }

    /// What holds at every step of a run.
    pub open spec fn consistent(self) -> bool {
        &&& self.terminal ==> self.step == CaptureStep::Failed
        &&& self.step == CaptureStep::ReadSize || self.step == CaptureStep::Discard
            ==> self.descriptor is Some
        &&& self.step == CaptureStep::Discard ==> self.descriptor->0.size != self.layer_size
        &&& self.step == CaptureStep::Rewrite && self.descriptor is Some
            ==> self.descriptor->0.size == self.layer_size
    }
}

/// How a capture begins.
#[derive(Debug, PartialEq, Eq)]
pub enum CaptureStart {
    /// There is nothing to seal.
    Captured(LiveOverlaybdSnapshotState),
    Running(CaptureRun),
}

/// Begins a capture; a read-only device is captured as it is.
pub fn start_capture(read_only: bool, output_dir: &str) -> (r: CaptureStart)
    ensures
        read_only ==> r == CaptureStart::Captured(LiveOverlaybdSnapshotState::ReadOnly),
        !read_only ==> {
            &&& r matches CaptureStart::Running(run)
            &&& run.step == CaptureStep::LoadConfig
            &&& run.output_dir@ == output_dir@
            &&& run.snapshot_layer@ == paths::join_of(output_dir@, SNAPSHOT_LAYER_FILE@)
            &&& run.consistent()
        },
{
    if read_only {
        CaptureStart::Captured(LiveOverlaybdSnapshotState::ReadOnly)
    } else {
        CaptureStart::Running(CaptureRun::begin(output_dir))
    }
}

/// The place of a step in the order of a run.
pub open spec fn rank(step: CaptureStep) -> int {
    match step {
        CaptureStep::LoadConfig => 0,
        CaptureStep::RemoveStale => 1,
        CaptureStep::CompareFilesystems => 2,
        CaptureStep::RemoveStaleLive => 3,
        CaptureStep::Restack => 4,
        CaptureStep::Copy => 5,
        CaptureStep::ReadSize => 6,
        CaptureStep::Discard => 7,
        CaptureStep::Rewrite => 7,
        CaptureStep::Finished => 8,
        CaptureStep::Failed => 8,
    }
}

/// A capture stays consistent, keeps its target, and goes forward only: each
/// event either changes nothing or brings it closer to its end.
pub proof fn capture_goes_forward(before: CaptureRun, event: CaptureEvent, after: CaptureRun)
    requires
        before.consistent(),
        after.advanced(before, event),
    ensures
        after.consistent(),
        after.keeps_paths(before),
        after == before || rank(after.step) > rank(before.step),
{
}

/// A failure is terminal exactly where the sealed layer could not be copied
/// into the snapshot or not be recorded for the live device, and where the daemon
/// says that it had changed the device when it failed to seal the layer. No failure
/// before that is.
pub proof fn terminal_failures_come_after_sealing(
    before: CaptureRun,
    event: CaptureEvent,
    after: CaptureRun,
)
    requires
        before.consistent(),
        before.step != CaptureStep::Failed,
        after.advanced(before, event),
    ensures
        after.terminal <==> {
            ||| event == CaptureEvent::Failed && (before.step == CaptureStep::Copy || before.step
                == CaptureStep::Rewrite)
            ||| event == (CaptureEvent::RestackFailed { terminal: true }) && before.step
                == CaptureStep::Restack
        },
        after.terminal ==> before.sealed() || before.step == CaptureStep::Restack,
{
}

/// A capture ends well only after the layer has been recorded for the live
/// device, and a layer with a description is recorded only if it has the
/// described size.
pub proof fn recorded_layers_have_their_described_size(
    before: CaptureRun,
    event: CaptureEvent,
    after: CaptureRun,
)
    requires
        before.consistent(),
        after.advanced(before, event),
        after.step == CaptureStep::Finished,
    ensures
        before.step == CaptureStep::Finished || (before.step == CaptureStep::Rewrite && event
            == CaptureEvent::Done && (before.descriptor matches Some(d) ==> d.size
            == before.layer_size)),
{
}

/// The configuration that a memory snapshot goes on from: `loaded`, or an empty
/// one where there is none to load.
pub fn load_existing_image_config(
    loaded: Option<Result<ImageConfig, Failure>>,
    image_config_path: &str,
    description: &str,
) -> (r: Result<ImageConfig, Failure>)
    ensures
        match loaded {
            None => r is Ok && r->Ok_0@ == overlaybd_config::empty_image(),
            Some(Ok(config)) => r == Ok::<ImageConfig, Failure>(config),
            Some(Err(_)) => r is Err && r->Err_0.message@ == "load "@ + description@
                + " image config "@ + image_config_path@,
        },
{
    match loaded {
        None => Ok(ImageConfig::default()),
        Some(Ok(config)) => Ok(config),
        Some(Err(_)) => {
            let mut message = text::concat3("load ", description, " image config ");
            message.append(image_config_path);
            Err(Failure::new(message))
        },
    }
}

/// The file that the live device writes to.
pub fn restack_target_upper_data_path(cfg: &ImageConfig, live_runtime_image_config_path: &str) -> (r:
    Result<String, Failure>)
    ensures
        failure::reports(
            r,
            failure::fault_if(
                cfg@.upper.data.len() == 0,
                "restack snapshot requires writable upper.data in live runtime config "@
                    + live_runtime_image_config_path@,
            ),
        ),
        r matches Ok(path) ==> path@ == cfg@.upper.data,
{
    if cfg.upper.data.as_str().is_empty() {
        return Err(
            Failure::new(
                text::concat(
                    "restack snapshot requires writable upper.data in live runtime config ",
                    live_runtime_image_config_path,
                ),
            ),
        );
    }
    Ok(cfg.upper.data.clone())
}

/// An image with one more lower layer on top.
pub open spec fn with_layer(
    c: overlaybd_config::ImageModel,
    l: overlaybd_config::LayerModel,
) -> overlaybd_config::ImageModel {
    overlaybd_config::ImageModel { lowers: c.lowers.push(l), ..c }
}

/// An image without its topmost lower layer.
pub open spec fn without_latest(c: overlaybd_config::ImageModel) -> overlaybd_config::ImageModel {
    overlaybd_config::ImageModel { lowers: c.lowers.drop_last(), ..c }
}

/// Appends the sealed layer to the lower layers of the live device.
pub fn append_restacked_layer(
    cfg: &mut ImageConfig,
    snapshot_layer_path: &str,
    descriptor: Option<&LayerDescriptor>,
)
    ensures
        final(cfg)@ == with_layer(
            old(cfg)@,
            snapshot_layers::described_layer(
                snapshot_layer_path@,
                match descriptor {
                    Some(d) => Some(*d),
                    None => None,
                },
            ),
        ),
{
    let ghost before = cfg@;
    let ghost lowers = cfg.lowers@;
    let layer = snapshot_layers::local_layer_config_with_descriptor(
        snapshot_layer_path,
        descriptor,
    );
    cfg.lowers.push(layer);
    assert(overlaybd_config::layers(cfg.lowers@) =~= overlaybd_config::layers(lowers).push(layer@));
    assert(cfg@ =~= with_layer(before, layer@));
}

/// The topmost lower layer is not the one that was sealed: why, if so.
pub open spec fn latest_layer_fault(
    c: overlaybd_config::ImageModel,
    expected: Seq<char>,
    actual: Seq<char>,
) -> Option<Seq<char>> {
    if c.lowers.len() == 0 {
        Some(
            "restack snapshot expected latest lower to be the newly claimed sealed upper layer"@,
        )
    } else if paths::components(actual) != paths::components(expected) {
        Some("restack snapshot expected latest lower "@ + expected + " but found "@ + actual)
    } else {
        None
    }
}

/// Takes the sealed layer off the lower layers of an image, where it must be
/// the topmost. `expected` is the resolved path of the sealed layer, and
/// `actual` that of the topmost layer's file where it could be resolved.
pub fn take_restacked_layer(cfg: &mut ImageConfig, expected: &str, actual: Option<&str>) -> (r:
    Result<LayerConfig, Failure>)
    ensures
        ({
            let found = match actual {
                Some(path) => path@,
                None => old(cfg)@.lowers.last().file,
            };
            failure::reports(r, latest_layer_fault(old(cfg)@, expected@, found))
        }),
        match r {
            Ok(layer) => layer@ == old(cfg)@.lowers.last() && final(cfg)@ == without_latest(
                old(cfg)@,
            ),
            Err(_) => final(cfg)@ == old(cfg)@,
        },
{
    let ghost before = cfg@;
    let ghost lowers = cfg.lowers@;
    assert(before.lowers.len() == lowers.len());
    let n: usize = cfg.lowers.len();
    if n == 0 {
        return Err(
            Failure::because(
                "restack snapshot expected latest lower to be the newly claimed sealed upper layer",
            ),
        );
    }
    assert(before.lowers.last() == lowers[n - 1]@);
    let found: String = match actual {
        Some(path) => path.to_owned(),
        None => cfg.lowers[n - 1].file.clone(),
    };
    if !paths::same_path(found.as_str(), expected) {
        let mut message = text::concat3(
            "restack snapshot expected latest lower ",
            expected,
            " but found ",
        );
        message.append(found.as_str());
        return Err(Failure::new(message));
    }
    let layer = cfg.lowers.remove(n - 1);
    assert(cfg.lowers@ =~= lowers.drop_last());
    assert(cfg@ =~= without_latest(before));
    Ok(layer)
}

/// Taking the sealed layer off again undoes appending it: the image and the
/// layer come back as they were.
pub proof fn taking_the_layer_undoes_appending_it(
    c: overlaybd_config::ImageModel,
    l: overlaybd_config::LayerModel,
)
    ensures
        without_latest(with_layer(c, l)) == c,
        with_layer(c, l).lowers.last() == l,
        latest_layer_fault(with_layer(c, l), l.file, l.file) is None,
{
    assert(c.lowers.push(l).drop_last() =~= c.lowers);
    assert(without_latest(with_layer(c, l)) =~= c);
}

/// The configuration that a snapshot keeps of an image: its layers, with
/// nothing to write to.
pub open spec fn staged(
    c: overlaybd_config::ImageModel,
    lowers: Seq<overlaybd_config::LayerModel>,
) -> overlaybd_config::ImageModel {
    overlaybd_config::ImageModel {
        lowers,
        upper: overlaybd_config::empty_upper(),
        result_file: "./result.txt"@,
        ..c
    }
}

pub fn staged_config(cfg: ImageConfig, lowers: Vec<LayerConfig>) -> (r: ImageConfig)
    ensures
        r@ == staged(cfg@, overlaybd_config::layers(lowers@)),
{
    let mut r = cfg;
    r.lowers = lowers;
    r.upper = UpperConfig::default();
    r.result_file = "./result.txt".to_owned();
    r
}

/// Where a snapshot keeps the configuration of an image.
pub fn staged_config_path(output_dir: &str) -> (r: String)
    ensures
        r@ == paths::join_of(output_dir@, IMAGE_CONFIG_FILE@),
{
    paths::join(output_dir, IMAGE_CONFIG_FILE)
}

/// The first half of staging: the configuration without its layers, and what is
/// to become of these.
#[derive(Debug, PartialEq, Eq)]
pub struct StagePlan {
    pub config: ImageConfig,
    pub lowers: LowersPlan,
}

/// The sealed layer of a capture, by its resolved path, and the resolved path of
/// the topmost lower layer where it could be resolved.
#[derive(Debug, PartialEq, Eq)]
pub struct SealedLayer {
    pub expected: String,
    pub actual: Option<String>,
}

/// What is wrong with the topmost layer, where a layer was sealed.
pub open spec fn sealed_fault(c: overlaybd_config::ImageModel, sealed: Option<SealedLayer>) -> Option<
    Seq<char>,
> {
    match sealed {
        Some(layer) => latest_layer_fault(
            c,
            layer.expected@,
            match layer.actual {
                Some(path) => path@,
                None => c.lowers.last().file,
            },
        ),
        None => None,
    }
}

/// Plans the configuration that a snapshot keeps of a live image: the sealed
/// layer, where there is one, is set apart, the other layers are adopted or
/// compacted, and the sealed layer comes on top again. The layers of a root file
/// system are never compressed.
pub fn stage_overlaybd_snapshot_from_live_runtime(
    image_config: ImageConfig,
    sealed: &Option<SealedLayer>,
    canonical: &Vec<Option<String>>,
    runtime_owned_roots: &Vec<String>,
    output_dir: &str,
) -> (r: Result<StagePlan, Failure>)
    ensures
        sealed_fault(image_config@, *sealed) is Some ==> failure::reports(
            r,
            sealed_fault(image_config@, *sealed),
        ),
        sealed_fault(image_config@, *sealed) is None ==> {
            let rest = if *sealed is Some {
                image_config@.lowers.drop_last()
            } else {
                image_config@.lowers
            };
            let top = if *sealed is Some {
                Some(image_config@.lowers.last())
            } else {
                None
            };
            let n = snapshot_layers::stable_len(
                rest,
                canonical@,
                text::views(runtime_owned_roots@),
            );
            let plan = match r {
                Ok(stage) => Ok::<LowersPlan, Failure>(stage.lowers),
                Err(e) => Err::<LowersPlan, Failure>(e),
            };
            &&& snapshot_layers::planned(
                plan,
                rest.take(n),
                rest.skip(n),
                top,
                output_dir@,
                MANAGED_BASE_LAYER_FILE@,
                OverlaybdCompactOutput::Raw,
            )
            &&& r matches Ok(stage) ==> stage.config@ == staged(image_config@, Seq::empty())
        },
{
    let mut config = image_config;
    let ghost before = config@;
    let appended = match sealed {
        Some(layer) => {
            let actual: Option<&str> = match &layer.actual {
                Some(path) => Some(path.as_str()),
                None => None,
            };
            match take_restacked_layer(&mut config, layer.expected.as_str(), actual) {
                Ok(layer) => Some(layer),
                Err(e) => {
                    return Err(e);
                },
            }
        },
        None => None,
    };
    let empty: Vec<LayerConfig> = Vec::new();
    let lowers = clone_layers(&config.lowers);
    let config = staged_config(config, empty);
    assert(overlaybd_config::layers(empty@) =~= Seq::empty());
    assert(config@ =~= staged(before, Seq::empty()));
    match snapshot_layers::plan_lowers(
        lowers,
        canonical,
        runtime_owned_roots,
        output_dir,
        appended,
        MANAGED_BASE_LAYER_FILE,
        OverlaybdCompactOutput::Raw,
    ) {
        Ok(plan) => Ok(StagePlan { config, lowers: plan }),
        Err(e) => Err(e),
    }
}

/// The second half of staging: the configuration with its layers, once these have
/// been adopted, or compacted into `compacted_path` unless nothing was left of
/// them.
pub fn finish_stage(stage: StagePlan, compacted_path: Option<&str>) -> (r: ImageConfig)
    ensures
        r@ == (overlaybd_config::ImageModel {
            lowers: match stage.lowers {
                LowersPlan::Adopt { lowers, .. } => overlaybd_config::layers(lowers@),
                LowersPlan::Compact { kept, .. } => snapshot_layers::compacted_layers(
                    overlaybd_config::layers(kept@),
                    text::str_of(compacted_path),
                ),
            },
            ..stage.config@
        }),
{
    let mut config = stage.config;
    config.lowers = match stage.lowers {
        LowersPlan::Adopt { links: _, lowers } => lowers,
        LowersPlan::Compact { kept, .. } => snapshot_layers::finish_compaction(
            kept,
            compacted_path,
        ),
    };
    config
}

/// The sealed layer keeps its description in the snapshot: unless it is compacted
/// together with others, it comes out on top, with its digest and its size.
pub proof fn sealed_layers_keep_their_description(
    plan: Result<LowersPlan, Failure>,
    kept: Seq<overlaybd_config::LayerModel>,
    suffix: Seq<overlaybd_config::LayerModel>,
    path: Seq<char>,
    descriptor: Option<LayerDescriptor>,
    output_dir: Seq<char>,
)
    requires
        snapshot_layers::planned(
            plan,
            kept,
            suffix,
            Some(snapshot_layers::described_layer(path, descriptor)),
            output_dir,
            MANAGED_BASE_LAYER_FILE@,
            OverlaybdCompactOutput::Raw,
        ),
        plan matches Ok(p) && p is Adopt,
    ensures
        ({
            let lowers = overlaybd_config::layers(plan->Ok_0->Adopt_lowers@);
            &&& lowers.len() == kept.len() + suffix.len() + 1
            &&& lowers.last() == snapshot_layers::described_layer(path, descriptor)
            &&& descriptor matches Some(d) ==> lowers.last().digest == d.digest@
                && lowers.last().size == d.size
        }),
{
}

/// Plans the layers of a memory image: those of the image that it goes on from,
/// and the new one on top.
pub fn plan_mem_lowers(
    inherited_lowers: Vec<LayerConfig>,
    new_layer_path: &str,
    canonical: &Vec<Option<String>>,
    runtime_owned_roots: &Vec<String>,
    output_dir: &str,
    memory_output: OverlaybdCompactOutput,
) -> (r: Result<LowersPlan, Failure>)
    ensures
        ({
            let all = overlaybd_config::layers(inherited_lowers@);
            let n = snapshot_layers::stable_len(all, canonical@, text::views(runtime_owned_roots@));
            snapshot_layers::planned(
                r,
                all.take(n),
                all.skip(n),
                Some(snapshot_layers::local_layer(new_layer_path@)),
                output_dir@,
                MEM_COMPACTED_FILE@,
                memory_output,
            )
        }),
{
    let new_layer = snapshot_layers::local_layer_config(new_layer_path);
    snapshot_layers::plan_lowers(
        inherited_lowers,
        canonical,
        runtime_owned_roots,
        output_dir,
        Some(new_layer),
        MEM_COMPACTED_FILE,
        memory_output,
    )
}

/// The configuration of a memory image: the repository of the inherited image
/// and the given layers, nothing else.
pub fn mem_snapshot_config(inherited: ImageConfig, lowers: Vec<LayerConfig>) -> (r: ImageConfig)
    ensures
        r@ == (overlaybd_config::ImageModel {
            repo_blob_url: inherited@.repo_blob_url,
            lowers: overlaybd_config::layers(lowers@),
            ..overlaybd_config::empty_image()
        }),
{
    let mut r = ImageConfig::default();
    r.repo_blob_url = inherited.repo_blob_url;
    r.lowers = lowers;
    r
}

/// The step by which a file appears at a second place.
#[derive(Debug, Clone, Copy, PartialEq, Eq, Structural)]
pub enum LinkStep {
    CreateParent,
    RemoveDestination,
    HardLink,
    SparseCopy,
    /// Remove what a failed copy has left.
    DiscardDestination,
    Linked,
    Failed,
}

/// What became of a step.
#[derive(Debug, Clone, Copy, PartialEq, Eq, Structural)]
pub enum LinkEvent {
    Done,
    NotFound,
    Failed,
}

/// The first step; a file that is there already needs none.
pub fn first_link_step(source: &str, destination: &str) -> (r: LinkStep)
    ensures
        r == (if paths::components(source@) == paths::components(destination@) {
            LinkStep::Linked
        } else if paths::parent_of(destination@) is Some {
            LinkStep::CreateParent
        } else {
            LinkStep::RemoveDestination
        }),
{
    if paths::same_path(source, destination) {
        return LinkStep::Linked;
    }
    match paths::parent(destination) {
        Some(_) => LinkStep::CreateParent,
        None => LinkStep::RemoveDestination,
    }
}

pub open spec fn link_step_after(step: LinkStep, event: LinkEvent) -> LinkStep {
    match step {
        LinkStep::CreateParent => if event == LinkEvent::Done {
            LinkStep::RemoveDestination
        } else {
            LinkStep::Failed
        },
        LinkStep::RemoveDestination => if event == LinkEvent::Failed {
            LinkStep::Failed
        } else {
            LinkStep::HardLink
        },
        LinkStep::HardLink => if event == LinkEvent::Done {
            LinkStep::Linked
        } else {
            LinkStep::SparseCopy
        },
        LinkStep::SparseCopy => if event == LinkEvent::Done {
            LinkStep::Linked
        } else {
            LinkStep::DiscardDestination
        },
        LinkStep::DiscardDestination => LinkStep::Failed,
        LinkStep::Linked => LinkStep::Linked,
        LinkStep::Failed => LinkStep::Failed,
    }
}

/// The step after `step`: a file that is missing need not be removed, and a
/// link that fails gives way to a copy.
pub fn next_link_step(step: LinkStep, event: LinkEvent) -> (r: LinkStep)
    ensures
        r == link_step_after(step, event),
{
    match step {
        LinkStep::CreateParent => match event {
            LinkEvent::Done => LinkStep::RemoveDestination,
            _ => LinkStep::Failed,
        },
        LinkStep::RemoveDestination => match event {
            LinkEvent::Failed => LinkStep::Failed,
            _ => LinkStep::HardLink,
        },
        LinkStep::HardLink => match event {
            LinkEvent::Done => LinkStep::Linked,
            _ => LinkStep::SparseCopy,
        },
        LinkStep::SparseCopy => match event {
            LinkEvent::Done => LinkStep::Linked,
            _ => LinkStep::DiscardDestination,
        },
        LinkStep::DiscardDestination => LinkStep::Failed,
        LinkStep::Linked => LinkStep::Linked,
        LinkStep::Failed => LinkStep::Failed,
    }
}

/// The arguments of the copy command.
pub fn sparse_copy_args(source: &str, destination: &str) -> (r: Vec<String>)
    ensures
        text::views(r@) == seq!["--reflink=auto"@, "--sparse=always"@, source@, destination@],
{
    let mut r: Vec<String> = Vec::new();
    r.push("--reflink=auto".to_owned());
    r.push("--sparse=always".to_owned());
    r.push(source.to_owned());
    r.push(destination.to_owned());
    assert(text::views(r@) =~= seq![
        "--reflink=auto"@,
        "--sparse=always"@,
        source@,
        destination@,
    ]);
    r
}

/// The step that comes after a list of events.
pub open spec fn link_steps(first: LinkStep, events: Seq<LinkEvent>) -> LinkStep
    decreases events.len(),
{
    if events.len() == 0 {
        first
    } else {
        link_step_after(link_steps(first, events.drop_last()), events.last())
    }
}

/// After at most five steps the file is in place or the attempt has failed.
pub proof fn linking_ends(first: LinkStep, events: Seq<LinkEvent>)
    requires
        events.len() >= 5,
    ensures
        link_steps(first, events) == LinkStep::Linked || link_steps(first, events)
            == LinkStep::Failed,
{
    let e4 = events.drop_last();
    let e3 = e4.drop_last();
    let e2 = e3.drop_last();
    let e1 = e2.drop_last();
    let s0 = link_steps(first, e1.drop_last());
    let s1 = link_steps(first, e1);
    let s2 = link_steps(first, e2);
    let s3 = link_steps(first, e3);
    let s4 = link_steps(first, e4);
    assert(s1 == link_step_after(s0, e1.last()));
    assert(s2 == link_step_after(s1, e2.last()));
    assert(s3 == link_step_after(s2, e3.last()));
    assert(s4 == link_step_after(s3, e4.last()));
}

/// A failed copy leaves nothing behind: the destination is removed before the
/// failure is reported.
pub proof fn failed_copies_are_discarded(step: LinkStep, event: LinkEvent)
    requires
        step == LinkStep::SparseCopy,
        event != LinkEvent::Done,
    ensures
        link_step_after(step, event) == LinkStep::DiscardDestination,
        link_step_after(LinkStep::DiscardDestination, event) == LinkStep::Failed,
{
}

/// The extension of a layer that is being written.
pub const TEMP_LAYER_EXTENSION: &'static str = "commit.tmp";

/// Where a layer is written before it is moved to `output_path`.
pub fn temp_layer_path(output_path: &str) -> (r: String)
    ensures
        r@ == paths::extended(output_path@, TEMP_LAYER_EXTENSION@),
{
    paths::with_extension(output_path, TEMP_LAYER_EXTENSION)
}

/// The step by which a memory layer is published.
#[derive(Debug, Clone, Copy, PartialEq, Eq, Structural)]
pub enum PublishStep {
    /// Write the layer to its temporary place.
    Build,
    /// Move the layer into place.
    Rename,
    /// Remove the temporary file of a failed attempt.
    RemoveTemp,
    Published,
    Failed,
}

pub open spec fn publish_step_after(step: PublishStep, done: bool) -> PublishStep {
    match step {
        PublishStep::Build => if done {
            PublishStep::Rename
        } else {
            PublishStep::RemoveTemp
        },
        PublishStep::Rename => if done {
            PublishStep::Published
        } else {
            PublishStep::RemoveTemp
        },
        PublishStep::RemoveTemp => PublishStep::Failed,
        PublishStep::Published => PublishStep::Published,
        PublishStep::Failed => PublishStep::Failed,
    }
}

/// The step after `step`; any failure removes the temporary file, and the layer
/// that was in place before is touched by the last step of all only.
pub fn next_publish_step(step: PublishStep, done: bool) -> (r: PublishStep)
    ensures
        r == publish_step_after(step, done),
{
    match step {
        PublishStep::Build => if done {
            PublishStep::Rename
        } else {
            PublishStep::RemoveTemp
        },
        PublishStep::Rename => if done {
            PublishStep::Published
        } else {
            PublishStep::RemoveTemp
        },
        PublishStep::RemoveTemp => PublishStep::Failed,
        PublishStep::Published => PublishStep::Published,
        PublishStep::Failed => PublishStep::Failed,
    }
}

/// A publication fails only by way of removing the temporary file, and
/// succeeds only by moving a built layer into place.
pub proof fn failed_publication_removes_its_temporary_file(step: PublishStep, done: bool)
    ensures
        publish_step_after(step, done) == PublishStep::Failed ==> step == PublishStep::RemoveTemp
            || step == PublishStep::Failed,
        publish_step_after(step, done) == PublishStep::Published ==> (step == PublishStep::Rename
            && done) || step == PublishStep::Published,
{
}

/// Where the root file system of a snapshot is staged.
pub fn rootfs_snapshot_dir(snapshot_root: &str) -> (r: String)
    ensures
        r@ == paths::join_of(snapshot_root@, ROOTFS_DIR@),
{
    paths::join(snapshot_root, ROOTFS_DIR)
}

/// How the dirty memory of a process is packed into a layer.
#[derive(Debug, PartialEq, Eq)]
pub struct MemoryLayerPlan {
    pub mappings: Vec<SegmentMapping>,
    /// The size of the memory in bytes.
    pub memory_size: u64,
    pub layer_path: String,
    pub concurrency: usize,
}

/// Plans the layer of dirty memory in `output_dir`.
pub fn convert_dirty_memory_to_overlaybd(dirty_ranges: &DirtyMemoryRanges, output_dir: &str) -> (r:
    Result<MemoryLayerPlan, Failure>)
    ensures
        dirty_memory::report_fault(*dirty_ranges) is Some ==> failure::reports(
            r,
            dirty_memory::report_fault(*dirty_ranges),
        ),
        dirty_memory::report_fault(*dirty_ranges) is None ==> (r is Ok
            <==> dirty_memory::all_disjoint(dirty_memory::all_chunks(dirty_ranges.ranges@))),
        dirty_memory::report_fault(*dirty_ranges) is None && r is Err
            ==> dirty_memory::overlap_reported(*dirty_ranges, r->Err_0.message@),
        r matches Ok(plan) ==> {
            &&& dirty_memory::segments_of(*dirty_ranges, plan.mappings@, plan.memory_size)
            &&& plan.layer_path@ == paths::join_of(output_dir@, MEMORY_LAYER_FILE@)
            &&& plan.concurrency == DIRECT_MEMORY_SNAPSHOT_COMPACTION_CONCURRENCY
        },
{
    match dirty_memory::dirty_ranges_to_segment_mappings(dirty_ranges) {
        Ok((mappings, memory_size)) => Ok(
            MemoryLayerPlan {
                mappings,
                memory_size,
                layer_path: paths::join(output_dir, MEMORY_LAYER_FILE),
                concurrency: DIRECT_MEMORY_SNAPSHOT_COMPACTION_CONCURRENCY,
            },
        ),
        Err(e) => Err(e),
    }
}

/// The step by which a file takes the place of another at once.
#[derive(Debug, Clone, Copy, PartialEq, Eq, Structural)]
pub enum ReplaceStep {
    /// Make a temporary file beside the target.
    CreateTemp,
    /// Put the contents into the temporary file.
    Fill,
    /// Have the contents of the temporary file written out.
    Sync,
    /// Move the temporary file to the target.
    Persist,
    Replaced,
    Failed,
}

/// The directory of a temporary file beside the target of a write.
pub fn temp_dir_for_write(path: &str, description: &str) -> (r: Result<String, Failure>)
    ensures
        match paths::parent_of(path@) {
            Some(parent) => r is Ok && r->Ok_0@ == parent,
            None => r is Err && r->Err_0.message@ == description@
                + " path has no parent directory: "@ + path@,
        },
{
    match paths::parent(path) {
        Some(parent) => Ok(parent),
        None => Err(
            Failure::new(text::concat3(description, " path has no parent directory: ", path)),
        ),
    }
}

/// The directory of a temporary file beside the target of a copy.
pub fn temp_dir_for_copy(dst: &str, description: &str) -> (r: Result<String, Failure>)
    ensures
        match paths::parent_of(dst@) {
            Some(parent) => r is Ok && r->Ok_0@ == parent,
            None => r is Err && r->Err_0.message@ == description@
                + " destination has no parent directory: "@ + dst@,
        },
{
    match paths::parent(dst) {
        Some(parent) => Ok(parent),
        None => Err(
            Failure::new(
                text::concat3(description, " destination has no parent directory: ", dst),
            ),
        ),
    }
}

pub open spec fn replace_step_after(step: ReplaceStep, done: bool) -> ReplaceStep {
    match step {
        ReplaceStep::Replaced => ReplaceStep::Replaced,
        _ => if !done {
            ReplaceStep::Failed
        } else {
            match step {
                ReplaceStep::CreateTemp => ReplaceStep::Fill,
                ReplaceStep::Fill => ReplaceStep::Sync,
                ReplaceStep::Sync => ReplaceStep::Persist,
                ReplaceStep::Persist => ReplaceStep::Replaced,
                _ => ReplaceStep::Failed,
            }
        },
    }
}

/// The step that follows `step`.
pub fn next_replace_step(step: ReplaceStep, done: bool) -> (r: ReplaceStep)
    ensures
        r == replace_step_after(step, done),
{
    match step {
        ReplaceStep::Replaced => ReplaceStep::Replaced,
        _ if !done => ReplaceStep::Failed,
        ReplaceStep::CreateTemp => ReplaceStep::Fill,
        ReplaceStep::Fill => ReplaceStep::Sync,
        ReplaceStep::Sync => ReplaceStep::Persist,
        ReplaceStep::Persist => ReplaceStep::Replaced,
        ReplaceStep::Failed => ReplaceStep::Failed,
    }
}

/// A file is put in place of another only after its contents are complete and
/// have been written out.
pub proof fn files_are_complete_before_they_replace_others(step: ReplaceStep, done: bool)
    ensures
        replace_step_after(step, done) == ReplaceStep::Persist ==> step == ReplaceStep::Sync
            && done,
        replace_step_after(step, done) == ReplaceStep::Sync ==> step == ReplaceStep::Fill && done,
        replace_step_after(step, done) == ReplaceStep::Replaced ==> (step == ReplaceStep::Persist
            && done) || step == ReplaceStep::Replaced,
{
}

} // verus!
