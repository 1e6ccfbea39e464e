//! The client of the block-device daemon: what it asks, how it reads the answers,
//! and how it behaves once the daemon is gone.
use vstd::prelude::*;
use vstd::string::StringExecFns;

use crate::failure;
use crate::failure::Failure;
use crate::launch_config::TimeSpan;
use crate::overlaybd_config::UpperMode;
use crate::snapshot_layers::LayerDescriptor;
use crate::text;

verus! {

/// How long an answer is awaited, in seconds.
pub const DEFAULT_TIMEOUT_SECS: u64 = 120;

/// How long the answer to a snapshot is awaited, in seconds.
pub const SNAPSHOT_TIMEOUT_SECS: u64 = 360;

/// How long the daemon may take to become ready, in seconds.
pub const READY_TIMEOUT_SECS: u64 = 30;

/// How long the answer to a shutdown is awaited, in seconds.
pub const SHUTDOWN_TIMEOUT_SECS: u64 = 5;

/// How long to wait before a socket in use is looked at again, in milliseconds.
pub const SOCKET_POLL_MS: u64 = 100;

/// A snapshot failed after the live device had been changed.
#[derive(Debug, PartialEq, Eq)]
pub struct RestackSnapshotTerminalFailure {
    message: String,
}

impl View for RestackSnapshotTerminalFailure {
    type V = Seq<char>;

    closed spec fn view(&self) -> Seq<char> {
        self.message@
    }
}

impl RestackSnapshotTerminalFailure {
    pub fn new(message: String) -> (r: RestackSnapshotTerminalFailure)
        ensures
            r@ == message@,
    {
        RestackSnapshotTerminalFailure { message }
    }

    pub fn message(&self) -> (r: &str)
        ensures
            r@ == self@,
    {
        self.message.as_str()
    }
}

/// The daemon refused a request for what it asked.
#[derive(Debug, PartialEq, Eq)]
pub struct InvalidRequestError {
    message: String,
}

impl View for InvalidRequestError {
    type V = Seq<char>;

    closed spec fn view(&self) -> Seq<char> {
        self.message@
    }
}

impl InvalidRequestError {
    pub fn new(message: String) -> (r: InvalidRequestError)
        ensures
            r@ == message@,
    {
        InvalidRequestError { message }
    }

    pub fn message(&self) -> (r: &str)
        ensures
            r@ == self@,
    {
        self.message.as_str()
    }
}

/// A block device with a configuration of its own.
#[derive(Debug, PartialEq, Eq)]
pub struct OverlaybdRuntimeDevice {
    pub dev_id: u32,
    pub device_path: String,
    pub actual_virtual_size: u64,
    pub runtime_image_config_path: String,
}

#[derive(Debug, Clone, Copy, PartialEq, Eq)]
pub struct CreateOverlaybdRuntimeDeviceRequest<'a> {
    pub source_image_config: &'a str,
    pub global_config: &'a str,
    pub runtime_dir: &'a str,
    pub read_only: bool,
    pub runtime_upper_mode: UpperMode,
    pub requested_virtual_size: Option<u64>,
    pub known_source_virtual_size: Option<u64>,
    pub allow_shrink: bool,
}

/// What the daemon tells of a snapshot; figures that are only handed on are kept
/// as text.
#[derive(Debug, PartialEq, Eq)]
pub struct RestackSnapshotStats {
    pub descriptor: Option<LayerDescriptor>,
    pub data_stat: String,
    pub ext4_used_bytes: String,
}

/// A request to the daemon.
#[derive(Debug, PartialEq, Eq)]
pub enum DaemonRequest {
    CreateOverlaybd { image_config: String, global_config: String },
    NotifySandboxReady { device_key: String },
    CreateOverlaybdRuntimeDevice {
        source_image_config: String,
        global_config: String,
        runtime_dir: String,
        read_only: bool,
        runtime_upper_mode: UpperMode,
        requested_virtual_size: Option<u64>,
        known_source_virtual_size: Option<u64>,
        allow_shrink: bool,
    },
    Delete { dev_id: u32 },
    RestackSnapshot { dev_id: u32, output_layer_path: String },
    Shutdown,
    GetFeatures,
    /// The access mode is kept as text.
    AcquireOverlaybd {
        image_config: String,
        global_config: String,
        virtual_size: u64,
        access_mode: String,
    },
    ReleaseOverlaybd { dev_id: u32 },
    UpdateSize { dev_id: u32, new_sectors: u64 },
}

/// An answer of the daemon.
#[derive(Debug, PartialEq, Eq)]
pub enum DaemonResponse {
    Acknowledged,
    DeviceCreated { dev_id: u32, device_path: String },
    OverlaybdRuntimeDeviceCreated {
        dev_id: u32,
        device_path: String,
        actual_virtual_size: u64,
        runtime_image_config_path: String,
    },
    DeviceAcquired { dev_id: u32, device_path: String },
    Deleted,
    Released,
    SizeUpdated,
    Features { flags: u64 },
    RestackSnapshotCreated {
        descriptor: Option<LayerDescriptor>,
        data_stat: String,
        ext4_used_bytes: String,
    },
    InvalidRequest { message: String },
    TerminalError { message: String },
    Error { message: String },
}

/// A request and how long its answer is awaited.
#[derive(Debug, PartialEq, Eq)]
pub struct RpcPlan {
    pub request: DaemonRequest,
    pub timeout: TimeSpan,
}

/// Why a request did not succeed.
#[derive(Debug, PartialEq, Eq)]
pub enum DaemonError {
    Failed(Failure),
    Invalid(InvalidRequestError),
    Terminal(RestackSnapshotTerminalFailure),
    /// The answer does not fit the request; the failure is named by `prefix`,
    /// followed by the answer.
    Unexpected { prefix: Failure, response: DaemonResponse },
}

/// The answer says no. `subject` is what was asked for, and `name` its kind.
pub open spec fn refused(
    e: DaemonError,
    subject: Seq<char>,
    name: Seq<char>,
    response: DaemonResponse,
) -> bool {
    match response {
        DaemonResponse::TerminalError { message } => {
            &&& e matches DaemonError::Failed(f)
            &&& f.message@ == "daemon: "@ + subject + " failed terminally: "@ + message@
        },
        DaemonResponse::Error { message } => failed(e, subject, message@),
        _ => unexpected(e, name, response),
    }
}

pub open spec fn failed(e: DaemonError, subject: Seq<char>, message: Seq<char>) -> bool {
    &&& e matches DaemonError::Failed(f)
    &&& f.message@ == "daemon: "@ + subject + " failed: "@ + message
}

pub open spec fn unexpected(e: DaemonError, name: Seq<char>, response: DaemonResponse) -> bool {
    &&& e matches DaemonError::Unexpected { prefix, response: r }
    &&& prefix.message@ == "daemon: unexpected response for "@ + name + ": "@
    &&& r == response
}

/// What was asked for, and of which device.
pub open spec fn of_device(name: Seq<char>, dev_id: u32) -> Seq<char> {
    name + " dev_id="@ + text::decimal(dev_id as nat)
}

fn device_subject(name: &str, dev_id: u32) -> (r: String)
    ensures
        r@ == of_device(name@, dev_id),
{
    text::concat3(name, " dev_id=", text::decimal_of(dev_id as u64).as_str())
}

fn failed_with(subject: &str, how: &str, message: &str) -> (r: DaemonError)
    ensures
        r is Failed,
        r->Failed_0.message@ == "daemon: "@ + subject@ + how@ + message@,
{
    let mut words = text::concat3("daemon: ", subject, how);
    words.append(message);
    DaemonError::Failed(Failure::new(words))
}

fn unexpected_response(name: &str, response: DaemonResponse) -> (r: DaemonError)
    ensures
        unexpected(r, name@, response),
{
    DaemonError::Unexpected {
        prefix: Failure::new(text::concat3("daemon: unexpected response for ", name, ": ")),
        response,
    }
}

fn refusal(subject: &str, name: &str, response: DaemonResponse) -> (r: DaemonError)
    ensures
        refused(r, subject@, name@, response),
{
    match response {
        DaemonResponse::TerminalError { message } => failed_with(
            subject,
            " failed terminally: ",
            message.as_str(),
        ),
        DaemonResponse::Error { message } => failed_with(subject, " failed: ", message.as_str()),
        other => unexpected_response(name, other),
    }
}

/// The state of the daemon's client.
#[derive(Debug, PartialEq, Eq)]
pub struct UblkDaemonClient {
    pub socket_path: String,
    /// The daemon has ended, whether that was expected or not.
    pub daemon_dead: bool,
    /// The daemon was told to end.
    pub shutting_down: bool,
    /// How the daemon ended.
    pub death_reason: Option<String>,
    pub runtime_device_timeout: TimeSpan,
}

impl UblkDaemonClient {
    /// The client of a daemon that has become ready.
    pub fn connected(socket_path: String, runtime_device_timeout: TimeSpan) -> (r: UblkDaemonClient)
        ensures
            r == (UblkDaemonClient {
                socket_path,
                daemon_dead: false,
                shutting_down: false,
                death_reason: None,
                runtime_device_timeout,
            }),
            r.consistent(),
    {
        UblkDaemonClient {
            socket_path,
            daemon_dead: false,
            shutting_down: false,
            death_reason: None,
            runtime_device_timeout,
        }
    }

    /// A client without a daemon of its own, for trying it out.
    pub fn new_for_test(socket_path: String, daemon_dead: bool) -> (r: UblkDaemonClient)
        ensures
            r == (UblkDaemonClient {
                socket_path,
                daemon_dead,
                shutting_down: false,
                death_reason: r.death_reason,
                runtime_device_timeout: TimeSpan::seconds(360),
            }),
            r.death_reason is Some <==> daemon_dead,
            daemon_dead ==> r.death_reason->0@ == "test: daemon marked dead"@,
            r.consistent(),
    {
        UblkDaemonClient {
            socket_path,
            daemon_dead,
            shutting_down: false,
            death_reason: if daemon_dead {
                Some("test: daemon marked dead".to_owned())
            } else {
                None
            },
            runtime_device_timeout: TimeSpan::from_secs(360),
        }
    }

    /// A daemon that has ended is known to have ended in some way.
    pub open spec fn consistent(self) -> bool {
        self.daemon_dead ==> self.death_reason is Some
    }

    pub fn socket_path(&self) -> (r: &str)
        ensures
            r@ == self.socket_path@,
    {
        self.socket_path.as_str()
    }

    /// What a request to a daemon that has ended is answered.
    pub open spec fn dead_fault(self) -> Option<Seq<char>> {
        failure::fault_if(
            self.daemon_dead,
            "ublk daemon is not running: "@ + (match self.death_reason {
                Some(reason) => reason@,
                None => "unknown reason"@,
            }),
        )
    }

    /// What becomes of a request: it is sent while the daemon runs, and refused
    /// once the daemon has ended.
    pub open spec fn begun(self, plan: RpcPlan, r: Result<RpcPlan, Failure>) -> bool {
        &&& failure::reports(r, self.dead_fault())
        &&& r matches Ok(p) ==> p == plan
    }

    /// Begins a request. Every request goes through here, and nothing is sent to
    /// a daemon that has ended.
    pub fn begin(&self, plan: RpcPlan) -> (r: Result<RpcPlan, Failure>)
        ensures
            self.begun(plan, r),
    {
        if !self.daemon_dead {
            return Ok(plan);
        }
        match &self.death_reason {
            Some(reason) => Err(
                Failure::new(text::concat("ublk daemon is not running: ", reason.as_str())),
            ),
            None => Err(
                Failure::new(text::concat("ublk daemon is not running: ", "unknown reason")),
            ),
        }
    }

    /// The failure of a request whose answer did not come in time; `timeout` is
    /// the time in words.
    pub fn timed_out(&self, timeout: &str) -> (r: Failure)
        ensures
            r.message@ == "daemon RPC timed out after "@ + timeout@ + " (socket="@
                + self.socket_path@ + ")"@,
    {
        let mut words = text::concat3("daemon RPC timed out after ", timeout, " (socket=");
        words.append(self.socket_path.as_str());
        words.append(")");
        Failure::new(words)
    }

    /// What a failure to reach the daemon is called.
    pub fn connect_context(&self) -> (r: String)
        ensures
            r@ == "connect to ublk daemon socket: "@ + self.socket_path@,
    {
        text::concat("connect to ublk daemon socket: ", self.socket_path.as_str())
    }

    /// Notes the end of the daemon: how it ended, or why that could not be
    /// learnt. Says whether the end was expected.
    pub fn note_exit(&mut self, exit: Result<&str, &str>) -> (expected: bool)
        ensures
            expected == old(self).shutting_down,
            *final(self) == (UblkDaemonClient {
                daemon_dead: true,
                death_reason: final(self).death_reason,
                ..*old(self)
            }),
            final(self).death_reason is Some,
            final(self).death_reason->0@ == (match exit {
                Ok(status) => "ublk daemon exited: "@ + status@,
                Err(why) => "ublk daemon wait failed: "@ + why@,
            }),
            final(self).consistent(),
    {
        let reason = match exit {
            Ok(status) => text::concat("ublk daemon exited: ", status),
            Err(why) => text::concat("ublk daemon wait failed: ", why),
        };
        self.death_reason = Some(reason);
        self.daemon_dead = true;
        self.shutting_down
    }

    /// Tells the daemon to end. Whatever becomes of the request, its end is
    /// expected from here on.
    pub fn shutdown(&mut self) -> (r: Result<RpcPlan, Failure>)
        ensures
            *final(self) == (UblkDaemonClient { shutting_down: true, ..*old(self) }),
            old(self).begun(
                (RpcPlan {
                    request: DaemonRequest::Shutdown,
                    timeout: TimeSpan::seconds(SHUTDOWN_TIMEOUT_SECS),
                }),
                r,
            ),
    {
        self.shutting_down = true;
        self.begin(
            RpcPlan {
                request: DaemonRequest::Shutdown,
                timeout: TimeSpan::from_secs(SHUTDOWN_TIMEOUT_SECS),
            },
        )
    }

    /// The request for a block device with an existing configuration, which is
    /// opened as it is.
    pub fn create_overlaybd(&self, image_config: &str, global_config: &str) -> (r: Result<
        RpcPlan,
        Failure,
    >)
        ensures
            failure::reports(r, self.dead_fault()),
            r matches Ok(plan) ==> {
                &&& plan.timeout == TimeSpan::seconds(DEFAULT_TIMEOUT_SECS)
                &&& plan.request matches DaemonRequest::CreateOverlaybd {
                    image_config: i,
                    global_config: g,
                } && i@ == image_config@ && g@ == global_config@
            },
    {
        self.begin(
            RpcPlan {
                request: DaemonRequest::CreateOverlaybd {
                    image_config: image_config.to_owned(),
                    global_config: global_config.to_owned(),
                },
                timeout: TimeSpan::from_secs(DEFAULT_TIMEOUT_SECS),
            },
        )
    }

    /// The number and the path of the device that was created.
    pub fn create_overlaybd_outcome(response: DaemonResponse) -> (r: Result<
        (u32, String),
        DaemonError,
    >)
        ensures
            match response {
                DaemonResponse::DeviceCreated { dev_id, device_path } => r == Ok::<
                    (u32, String),
                    DaemonError,
                >((dev_id, device_path)),
                _ => r is Err && refused(
                    r->Err_0,
                    "create overlaybd"@,
                    "create overlaybd"@,
                    response,
                ),
            },
    {
        match response {
            DaemonResponse::DeviceCreated { dev_id, device_path } => Ok((dev_id, device_path)),
            other => Err(refusal("create overlaybd", "create overlaybd", other)),
        }
    }

    /// The note that the sandbox of a device has booted.
    pub fn notify_sandbox_ready(&self, device_key: &str) -> (r: Result<RpcPlan, Failure>)
        ensures
            failure::reports(r, self.dead_fault()),
            r matches Ok(plan) ==> {
                &&& plan.timeout == TimeSpan::seconds(DEFAULT_TIMEOUT_SECS)
                &&& plan.request matches DaemonRequest::NotifySandboxReady { device_key: k } && k@
                    == device_key@
            },
    {
        self.begin(
            RpcPlan {
                request: DaemonRequest::NotifySandboxReady { device_key: device_key.to_owned() },
                timeout: TimeSpan::from_secs(DEFAULT_TIMEOUT_SECS),
            },
        )
    }

    pub fn notify_sandbox_ready_outcome(response: DaemonResponse) -> (r: Result<(), DaemonError>)
        ensures
            match response {
                DaemonResponse::Acknowledged => r is Ok,
                _ => r is Err && refused(
                    r->Err_0,
                    "notify sandbox ready"@,
                    "notify sandbox ready"@,
                    response,
                ),
            },
    {
        match response {
            DaemonResponse::Acknowledged => Ok(()),
            other => Err(refusal("notify sandbox ready", "notify sandbox ready", other)),
        }
    }

    /// The request for a block device whose configuration the daemon makes.
    pub fn create_overlaybd_runtime_device(
        &self,
        request: CreateOverlaybdRuntimeDeviceRequest<'_>,
    ) -> (r: Result<RpcPlan, Failure>)
        ensures
            failure::reports(r, self.dead_fault()),
            r matches Ok(plan) ==> {
                &&& plan.timeout == self.runtime_device_timeout
                &&& plan.request matches DaemonRequest::CreateOverlaybdRuntimeDevice {
                    source_image_config,
                    global_config,
                    runtime_dir,
                    read_only,
                    runtime_upper_mode,
                    requested_virtual_size,
                    known_source_virtual_size,
                    allow_shrink,
                } && source_image_config@ == request.source_image_config@ && global_config@
                    == request.global_config@ && runtime_dir@ == request.runtime_dir@ && read_only
                    == request.read_only && runtime_upper_mode == request.runtime_upper_mode
                    && requested_virtual_size == request.requested_virtual_size
                    && known_source_virtual_size == request.known_source_virtual_size && allow_shrink
                    == request.allow_shrink
            },
    {
        self.begin(
            RpcPlan {
                request: DaemonRequest::CreateOverlaybdRuntimeDevice {
                    source_image_config: request.source_image_config.to_owned(),
                    global_config: request.global_config.to_owned(),
                    runtime_dir: request.runtime_dir.to_owned(),
                    read_only: request.read_only,
                    runtime_upper_mode: request.runtime_upper_mode,
                    requested_virtual_size: request.requested_virtual_size,
                    known_source_virtual_size: request.known_source_virtual_size,
                    allow_shrink: request.allow_shrink,
                },
                timeout: self.runtime_device_timeout,
            },
        )
    }

    pub fn create_overlaybd_runtime_device_outcome(response: DaemonResponse) -> (r: Result<
        OverlaybdRuntimeDevice,
        DaemonError,
    >)
        ensures
            match response {
                DaemonResponse::OverlaybdRuntimeDeviceCreated {
                    dev_id,
                    device_path,
                    actual_virtual_size,
                    runtime_image_config_path,
                } => r == Ok::<OverlaybdRuntimeDevice, DaemonError>(
                    OverlaybdRuntimeDevice {
                        dev_id,
                        device_path,
                        actual_virtual_size,
                        runtime_image_config_path,
                    },
                ),
                DaemonResponse::InvalidRequest { message } => r is Err && (
                r->Err_0 matches DaemonError::Invalid(e) && e@ == message@),
                _ => r is Err && refused(
                    r->Err_0,
                    "create overlaybd runtime device"@,
                    "create overlaybd runtime device"@,
                    response,
                ),
            },
    {
        match response {
            DaemonResponse::OverlaybdRuntimeDeviceCreated {
                dev_id,
                device_path,
                actual_virtual_size,
                runtime_image_config_path,
            } => Ok(
                OverlaybdRuntimeDevice {
                    dev_id,
                    device_path,
                    actual_virtual_size,
                    runtime_image_config_path,
                },
            ),
            DaemonResponse::InvalidRequest { message } => Err(
                DaemonError::Invalid(InvalidRequestError::new(message)),
            ),
            other => Err(
                refusal(
                    "create overlaybd runtime device",
                    "create overlaybd runtime device",
                    other,
                ),
            ),
        }
    }

    /// The request to delete a device.
    pub fn delete(&self, dev_id: u32) -> (r: Result<RpcPlan, Failure>)
        ensures
            self.begun(
                (RpcPlan {
                    request: DaemonRequest::Delete { dev_id },
                    timeout: TimeSpan::seconds(DEFAULT_TIMEOUT_SECS),
                }),
                r,
            ),
    {
        self.begin(
            RpcPlan {
                request: DaemonRequest::Delete { dev_id },
                timeout: TimeSpan::from_secs(DEFAULT_TIMEOUT_SECS),
            },
        )
    }

    pub fn delete_outcome(dev_id: u32, response: DaemonResponse) -> (r: Result<(), DaemonError>)
        ensures
            match response {
                DaemonResponse::Deleted => r is Ok,
                _ => r is Err && refused(
                    r->Err_0,
                    of_device("delete"@, dev_id),
                    "delete"@,
                    response,
                ),
            },
    {
        match response {
            DaemonResponse::Deleted => Ok(()),
            other => Err(
                refusal(device_subject("delete", dev_id).as_str(), "delete", other),
            ),
        }
    }

    /// The request to seal the upper layer of a device.
    pub fn restack_snapshot(&self, dev_id: u32, output_layer_path: &str) -> (r: Result<
        RpcPlan,
        Failure,
    >)
        ensures
            failure::reports(r, self.dead_fault()),
            r matches Ok(plan) ==> {
                &&& plan.timeout == TimeSpan::seconds(SNAPSHOT_TIMEOUT_SECS)
                &&& plan.request matches DaemonRequest::RestackSnapshot {
                    dev_id: d,
                    output_layer_path: p,
                } && d == dev_id && p@ == output_layer_path@
            },
    {
        self.begin(
            RpcPlan {
                request: DaemonRequest::RestackSnapshot {
                    dev_id,
                    output_layer_path: output_layer_path.to_owned(),
                },
                timeout: TimeSpan::from_secs(SNAPSHOT_TIMEOUT_SECS),
            },
        )
    }

    /// What the daemon tells of the snapshot. A failure after the live device was
    /// changed is told apart from one before.
    pub fn restack_snapshot_outcome(dev_id: u32, response: DaemonResponse) -> (r: Result<
        RestackSnapshotStats,
        DaemonError,
    >)
        ensures
            match response {
                DaemonResponse::RestackSnapshotCreated { descriptor, data_stat, ext4_used_bytes } =>
                r == Ok::<RestackSnapshotStats, DaemonError>(
                    RestackSnapshotStats { descriptor, data_stat, ext4_used_bytes },
                ),
                DaemonResponse::TerminalError { message } => r is Err && (
                r->Err_0 matches DaemonError::Terminal(e) && e@ == "daemon: "@ + of_device(
                    "restack snapshot"@,
                    dev_id,
                ) + " failed after mutating live state: "@ + message@),
                DaemonResponse::Error { message } => r is Err && failed(
                    r->Err_0,
                    of_device("restack snapshot"@, dev_id),
                    message@,
                ),
                _ => r is Err && unexpected(r->Err_0, "restack snapshot"@, response),
            },
            r is Err ==> (r->Err_0 is Terminal <==> response is TerminalError),
    {
        let subject = device_subject("restack snapshot", dev_id);
        match response {
            DaemonResponse::RestackSnapshotCreated { descriptor, data_stat, ext4_used_bytes } => Ok(
                RestackSnapshotStats { descriptor, data_stat, ext4_used_bytes },
            ),
            DaemonResponse::TerminalError { message } => {
                let mut words = text::concat3(
                    "daemon: ",
                    subject.as_str(),
                    " failed after mutating live state: ",
                );
                words.append(message.as_str());
                Err(DaemonError::Terminal(RestackSnapshotTerminalFailure::new(words)))
            },
            DaemonResponse::Error { message } => Err(
                failed_with(subject.as_str(), " failed: ", message.as_str()),
            ),
            other => Err(unexpected_response("restack snapshot", other)),
        }
    }

    /// The question what the daemon can do.
    pub fn get_features(&self) -> (r: Result<RpcPlan, Failure>)
        ensures
            self.begun(
                (RpcPlan {
                    request: DaemonRequest::GetFeatures,
                    timeout: TimeSpan::seconds(DEFAULT_TIMEOUT_SECS),
                }),
                r,
            ),
    {
        self.begin(
            RpcPlan {
                request: DaemonRequest::GetFeatures,
                timeout: TimeSpan::from_secs(DEFAULT_TIMEOUT_SECS),
            },
        )
    }

    /// What the daemon can do, as a set of bits.
    pub fn get_features_outcome(response: DaemonResponse) -> (r: Result<u64, DaemonError>)
        ensures
            match response {
                DaemonResponse::Features { flags } => r == Ok::<u64, DaemonError>(flags),
                DaemonResponse::Error { message } => r is Err && failed(
                    r->Err_0,
                    "get features"@,
                    message@,
                ),
                _ => r is Err && unexpected(r->Err_0, "get features"@, response),
            },
    {
        match response {
            DaemonResponse::Features { flags } => Ok(flags),
            DaemonResponse::Error { message } => Err(
                failed_with("get features", " failed: ", message.as_str()),
            ),
            other => Err(unexpected_response("get features", other)),
        }
    }

    /// The request for a device that the daemon has kept ready.
    pub fn acquire_overlaybd(
        &self,
        image_config: &str,
        global_config: &str,
        virtual_size: u64,
        access_mode: &str,
    ) -> (r: Result<RpcPlan, Failure>)
        ensures
            failure::reports(r, self.dead_fault()),
            r matches Ok(plan) ==> {
                &&& plan.timeout == TimeSpan::seconds(DEFAULT_TIMEOUT_SECS)
                &&& plan.request matches DaemonRequest::AcquireOverlaybd {
                    image_config: i,
                    global_config: g,
                    virtual_size: v,
                    access_mode: a,
                } && i@ == image_config@ && g@ == global_config@ && v == virtual_size && a@
                    == access_mode@
            },
    {
        self.begin(
            RpcPlan {
                request: DaemonRequest::AcquireOverlaybd {
                    image_config: image_config.to_owned(),
                    global_config: global_config.to_owned(),
                    virtual_size,
                    access_mode: access_mode.to_owned(),
                },
                timeout: TimeSpan::from_secs(DEFAULT_TIMEOUT_SECS),
            },
        )
    }

    pub fn acquire_overlaybd_outcome(response: DaemonResponse) -> (r: Result<
        (u32, String),
        DaemonError,
    >)
        ensures
            match response {
                DaemonResponse::DeviceAcquired { dev_id, device_path } => r == Ok::<
                    (u32, String),
                    DaemonError,
                >((dev_id, device_path)),
                _ => r is Err && refused(
                    r->Err_0,
                    "acquire overlaybd"@,
                    "acquire overlaybd"@,
                    response,
                ),
            },
    {
        match response {
            DaemonResponse::DeviceAcquired { dev_id, device_path } => Ok((dev_id, device_path)),
            other => Err(refusal("acquire overlaybd", "acquire overlaybd", other)),
        }
    }

    /// The request to take a device back.
    pub fn release_overlaybd(&self, dev_id: u32) -> (r: Result<RpcPlan, Failure>)
        ensures
            self.begun(
                (RpcPlan {
                    request: DaemonRequest::ReleaseOverlaybd { dev_id },
                    timeout: TimeSpan::seconds(DEFAULT_TIMEOUT_SECS),
                }),
                r,
            ),
    {
        self.begin(
            RpcPlan {
                request: DaemonRequest::ReleaseOverlaybd { dev_id },
                timeout: TimeSpan::from_secs(DEFAULT_TIMEOUT_SECS),
            },
        )
    }

    pub fn release_overlaybd_outcome(dev_id: u32, response: DaemonResponse) -> (r: Result<
        (),
        DaemonError,
    >)
        ensures
            match response {
                DaemonResponse::Released => r is Ok,
                _ => r is Err && refused(
                    r->Err_0,
                    of_device("release overlaybd"@, dev_id),
                    "release overlaybd"@,
                    response,
                ),
            },
    {
        match response {
            DaemonResponse::Released => Ok(()),
            other => Err(
                refusal(
                    device_subject("release overlaybd", dev_id).as_str(),
                    "release overlaybd",
                    other,
                ),
            ),
        }
    }

    /// The request to change the size of a device.
    pub fn update_size(&self, dev_id: u32, new_sectors: u64) -> (r: Result<RpcPlan, Failure>)
        ensures
            self.begun(
                (RpcPlan {
                    request: DaemonRequest::UpdateSize { dev_id, new_sectors },
                    timeout: TimeSpan::seconds(DEFAULT_TIMEOUT_SECS),
                }),
                r,
            ),
    {
        self.begin(
            RpcPlan {
                request: DaemonRequest::UpdateSize { dev_id, new_sectors },
                timeout: TimeSpan::from_secs(DEFAULT_TIMEOUT_SECS),
            },
        )
    }

    pub fn update_size_outcome(dev_id: u32, response: DaemonResponse) -> (r: Result<
        (),
        DaemonError,
    >)
        ensures
            match response {
                DaemonResponse::SizeUpdated => r is Ok,
                _ => r is Err && refused(
                    r->Err_0,
                    of_device("update size"@, dev_id),
                    "update size"@,
                    response,
                ),
            },
    {
        match response {
            DaemonResponse::SizeUpdated => Ok(()),
            other => Err(
                refusal(device_subject("update size", dev_id).as_str(), "update size", other),
            ),
        }
    }
}

/// Once the daemon has ended, whatever request is begun is refused, and the refusal
/// says how the daemon ended.
pub proof fn requests_to_a_dead_daemon_are_refused(
    before: UblkDaemonClient,
    after: UblkDaemonClient,
    reason: String,
    r: Result<RpcPlan, Failure>,
)
    requires
        after == (UblkDaemonClient { daemon_dead: true, death_reason: Some(reason), ..before }),
        failure::reports(r, after.dead_fault()),
    ensures
        r is Err,
        r->Err_0.message@ == "ublk daemon is not running: "@ + reason@,
        after.consistent(),
{
}

/// Telling the daemon to end refuses no request by itself, and a daemon that has
/// ended stays so.
pub proof fn telling_the_daemon_to_end_changes_no_answer(
    before: UblkDaemonClient,
    after: UblkDaemonClient,
    plan: RpcPlan,
    r: Result<RpcPlan, Failure>,
)
    requires
        after == (UblkDaemonClient { shutting_down: true, ..before }),
    ensures
        after.begun(plan, r) == before.begun(plan, r),
        before.consistent() ==> after.consistent(),
{
}

/// How many devices the daemon keeps ready.
#[derive(Debug, Clone, Copy, PartialEq, Eq)]
pub struct PoolConfig {
    pub low_watermark: u64,
    pub high_watermark: u64,
    pub startup_prewarm: u64,
}

/// What the daemon is started with.
#[derive(Debug, PartialEq, Eq)]
pub struct UblkDaemonSpawnConfig {
    pub binary_path: String,
    pub socket_path: String,
    pub global_config: String,
    pub resize_global_config: String,
    pub app_config: Option<String>,
    pub log_file: Option<String>,
    pub metrics_listen_addr: String,
    pub pool_config: Option<PoolConfig>,
    pub p2p_publish_url: Option<String>,
    pub runtime_device_timeout: TimeSpan,
}

/// An option with its value, where there is one.
pub open spec fn option_args(name: Seq<char>, value: Option<String>) -> Seq<Seq<char>> {
    match value {
        Some(v) => seq![name, v@],
        None => Seq::empty(),
    }
}

/// The options of the pool of devices: where the daemon has a configuration file,
/// that file says them.
pub open spec fn pool_args(c: UblkDaemonSpawnConfig) -> Seq<Seq<char>> {
    match c.pool_config {
        Some(pool) => if c.app_config is None {
            seq![
                "--enable-pool"@,
                "--pool-low-watermark"@,
                text::decimal(pool.low_watermark as nat),
                "--pool-high-watermark"@,
                text::decimal(pool.high_watermark as nat),
                "--pool-startup-prewarm"@,
                text::decimal(pool.startup_prewarm as nat),
            ]
        } else {
            Seq::empty()
        },
        None => Seq::empty(),
    }
}

/// The arguments of the daemon.
pub open spec fn daemon_arg_words(c: UblkDaemonSpawnConfig) -> Seq<Seq<char>> {
    seq![
        "--socket-path"@,
        c.socket_path@,
        "--global-config"@,
        c.global_config@,
        "--resize-global-config"@,
        c.resize_global_config@,
    ] + option_args("--config"@, c.app_config) + option_args("--log-file"@, c.log_file) + seq![
        "--metrics-listen-addr"@,
        c.metrics_listen_addr@,
    ] + option_args("--p2p-publish-url"@, c.p2p_publish_url) + pool_args(c)
}

fn push_word(args: &mut Vec<String>, word: &str)
    ensures
        text::views(final(args)@) == text::views(old(args)@).push(word@),
{
    let ghost before = args@;
    args.push(word.to_owned());
    assert(text::views(args@) =~= text::views(before).push(word@));
}

fn push_option(args: &mut Vec<String>, name: &str, value: &Option<String>)
    ensures
        text::views(final(args)@) == text::views(old(args)@) + option_args(name@, *value),
{
    let ghost before = text::views(args@);
    match value {
        Some(v) => {
            push_word(args, name);
            push_word(args, v.as_str());
        },
        None => {},
    }
    assert(text::views(args@) =~= before + option_args(name@, *value));
}

/// The arguments that the daemon is started with.
pub fn daemon_args(config: &UblkDaemonSpawnConfig) -> (r: Vec<String>)
    ensures
        text::views(r@) == daemon_arg_words(*config),
{
    let mut args: Vec<String> = Vec::new();
    push_word(&mut args, "--socket-path");
    push_word(&mut args, config.socket_path.as_str());
    push_word(&mut args, "--global-config");
    push_word(&mut args, config.global_config.as_str());
    push_word(&mut args, "--resize-global-config");
    push_word(&mut args, config.resize_global_config.as_str());
    let ghost first = seq![
        "--socket-path"@,
        config.socket_path@,
        "--global-config"@,
        config.global_config@,
        "--resize-global-config"@,
        config.resize_global_config@,
    ];
    assert(text::views(args@) =~= first);
    push_option(&mut args, "--config", &config.app_config);
    push_option(&mut args, "--log-file", &config.log_file);
    let ghost before = text::views(args@);
    push_word(&mut args, "--metrics-listen-addr");
    push_word(&mut args, config.metrics_listen_addr.as_str());
    assert(text::views(args@) =~= before + seq![
        "--metrics-listen-addr"@,
        config.metrics_listen_addr@,
    ]);
    push_option(&mut args, "--p2p-publish-url", &config.p2p_publish_url);
    let ghost before_pool = text::views(args@);
    match config.pool_config {
        Some(pool) => {
            if config.app_config.is_none() {
                push_word(&mut args, "--enable-pool");
                push_word(&mut args, "--pool-low-watermark");
                push_word(&mut args, text::decimal_of(pool.low_watermark).as_str());
                push_word(&mut args, "--pool-high-watermark");
                push_word(&mut args, text::decimal_of(pool.high_watermark).as_str());
                push_word(&mut args, "--pool-startup-prewarm");
                push_word(&mut args, text::decimal_of(pool.startup_prewarm).as_str());
            }
        },
        None => {},
    }
    assert(text::views(args@) =~= before_pool + pool_args(*config));
    args
}

/// Decides whether the daemon may be started, from whether this process may hand
/// on the rights that the daemon needs, if that could be learnt.
pub fn configure_daemon_capabilities(can_delegate: Option<bool>) -> (r: Result<(), Failure>)
    ensures
        failure::reports(
            r,
            match can_delegate {
                None => Some("inspect process capabilities before spawning ublk daemon"@),
                Some(can) => failure::fault_if(
                    !can,
                    "cannot scope ublk daemon: CAP_SYS_ADMIN is not effective in the server process"@,
                ),
            },
        ),
{
    match can_delegate {
        None => Err(
            Failure::because("inspect process capabilities before spawning ublk daemon"),
        ),
        Some(can) => if can {
            Ok(())
        } else {
            Err(
                Failure::because(
                    "cannot scope ublk daemon: CAP_SYS_ADMIN is not effective in the server process",
                ),
            )
        },
    }
}

/// The step by which the daemon is started.
#[derive(Debug, Clone, Copy, PartialEq, Eq, Structural)]
pub enum StartStep {
    /// Wait until no earlier daemon uses the socket.
    AwaitSocket,
    /// Make sure that the daemon can be given the rights that it needs.
    CheckCapabilities,
    /// Make the directory of the log file, where there is one.
    CreateLogDir,
    Spawn,
    /// Take hold of the daemon's output.
    TakeStdout,
    /// Wait until the daemon says that it is ready.
    AwaitReady,
    /// Have its end watched.
    Watch,
    Running,
    Failed,
}

pub open spec fn start_step_after(step: StartStep, done: bool) -> StartStep {
    match step {
        StartStep::Running => StartStep::Running,
        StartStep::Watch => StartStep::Running,
        _ => if !done {
            StartStep::Failed
        } else {
            match step {
                StartStep::AwaitSocket => StartStep::CheckCapabilities,
                StartStep::CheckCapabilities => StartStep::CreateLogDir,
                StartStep::CreateLogDir => StartStep::Spawn,
                StartStep::Spawn => StartStep::TakeStdout,
                StartStep::TakeStdout => StartStep::AwaitReady,
                StartStep::AwaitReady => StartStep::Watch,
                _ => StartStep::Failed,
            }
        },
    }
}

/// The step that follows `step`.
pub fn next_start_step(step: StartStep, done: bool) -> (r: StartStep)
    ensures
        r == start_step_after(step, done),
{
    match step {
        StartStep::Running => StartStep::Running,
        StartStep::Watch => StartStep::Running,
        _ if !done => StartStep::Failed,
        StartStep::AwaitSocket => StartStep::CheckCapabilities,
        StartStep::CheckCapabilities => StartStep::CreateLogDir,
        StartStep::CreateLogDir => StartStep::Spawn,
        StartStep::Spawn => StartStep::TakeStdout,
        StartStep::TakeStdout => StartStep::AwaitReady,
        StartStep::AwaitReady => StartStep::Watch,
        StartStep::Failed => StartStep::Failed,
    }
}

/// What a failure of a step is called; empty where the cause speaks for itself.
pub fn start_step_context(config: &UblkDaemonSpawnConfig, step: StartStep) -> (r: String)
    ensures
        r@ == (match step {
            StartStep::CreateLogDir => "create parent dir for ublk daemon log"@,
            StartStep::Spawn => "spawn ublk daemon: "@ + config.binary_path@,
            StartStep::TakeStdout => "ublk daemon child process has no stdout"@,
            _ => Seq::empty(),
        }),
{
    match step {
        StartStep::CreateLogDir => "create parent dir for ublk daemon log".to_owned(),
        StartStep::Spawn => text::concat("spawn ublk daemon: ", config.binary_path.as_str()),
        StartStep::TakeStdout => "ublk daemon child process has no stdout".to_owned(),
        _ => String::new(),
    }
}

/// A daemon counts as running only after it has said that it is ready, and is
/// started only where the socket is free and its rights can be handed on.
pub proof fn running_daemons_have_become_ready(step: StartStep, done: bool)
    ensures
        start_step_after(step, done) == StartStep::Watch ==> step == StartStep::AwaitReady && done,
        start_step_after(step, done) == StartStep::Running ==> step == StartStep::Watch || step
            == StartStep::Running,
        start_step_after(step, done) == StartStep::Spawn ==> step == StartStep::CreateLogDir
            && done,
        start_step_after(step, done) == StartStep::CreateLogDir ==> step
            == StartStep::CheckCapabilities && done,
        start_step_after(step, done) == StartStep::CheckCapabilities ==> step
            == StartStep::AwaitSocket && done,
{
}

/// What follows a look at the daemon's socket before the daemon is started.
#[derive(Debug, PartialEq, Eq)]
pub enum SocketNext {
    Available,
    /// Nobody answers there: remove it.
    RemoveStale,
    /// An earlier daemon still answers: look again after a while.
    Wait,
    InUse(Failure),
}

/// Decides whether the place of the socket can be used.
pub fn wait_for_socket_available(
    socket_path: &str,
    present: bool,
    answers: bool,
    deadline_passed: bool,
) -> (r: SocketNext)
    ensures
        if !present {
            r == SocketNext::Available
        } else if !answers {
            r == SocketNext::RemoveStale
        } else if !deadline_passed {
            r == SocketNext::Wait
        } else {
            r matches SocketNext::InUse(e) && e.message@ == "daemon socket "@ + socket_path@
                + " is still in use after 30s"@
        },
{
    if !present {
        SocketNext::Available
    } else if !answers {
        SocketNext::RemoveStale
    } else if !deadline_passed {
        SocketNext::Wait
    } else {
        SocketNext::InUse(
            Failure::new(
                text::concat3("daemon socket ", socket_path, " is still in use after 30s"),
            ),
        )
    }
}

/// What was read from a daemon that is starting.
#[derive(Debug, PartialEq, Eq)]
pub enum StartupOutput {
    Line(String),
    /// The output has ended; the status of the daemon in words.
    Ended(String),
    /// Nothing more came in time.
    TimedOut,
}

/// What follows.
#[derive(Debug, PartialEq, Eq)]
pub enum StartupNext {
    Ready,
    ReadOn,
    Failed(Failure),
    /// The daemon has to be killed.
    Kill(Failure),
}

/// Decides whether a daemon is ready: it says so on a line of its own.
pub fn wait_for_ready(output: &StartupOutput) -> (r: StartupNext)
    ensures
        match *output {
            StartupOutput::Line(line) => r == (if text::trimmed(line@) == "ready"@ {
                StartupNext::Ready
            } else {
                StartupNext::ReadOn
            }),
            StartupOutput::Ended(status) => r matches StartupNext::Failed(e) && e.message@
                == "ublk daemon exited before ready (status="@ + status@ + ")"@,
            StartupOutput::TimedOut => r matches StartupNext::Kill(e) && e.message@
                == "ublk daemon did not become ready within 30s"@,
        },
{
    match output {
        StartupOutput::Line(line) => if text::same(text::trim(line.as_str()).as_str(), "ready") {
            StartupNext::Ready
        } else {
            StartupNext::ReadOn
        },
        StartupOutput::Ended(status) => StartupNext::Failed(
            Failure::new(
                text::concat3("ublk daemon exited before ready (status=", status.as_str(), ")"),
            ),
        ),
        StartupOutput::TimedOut => StartupNext::Kill(
            Failure::because("ublk daemon did not become ready within 30s"),
        ),
    }
}

} // verus!
