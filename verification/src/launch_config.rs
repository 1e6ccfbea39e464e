//! What a virtual machine is launched with: fresh, or from a snapshot.
use vstd::prelude::*;

use crate::env_vars::EnvVars;
use crate::failure;
use crate::failure::Failure;
use crate::overlaybd_config::UpperMode;
use crate::paths;
use crate::text;

verus! {

/// The kernel arguments of a virtual machine where the node configures none.
pub const DEFAULT_BOOT_ARGS: &'static str = "console=ttyS0 reboot=k panic=1 pci=off damon_reclaim.enabled=Y damon_reclaim.min_age=60000000 damon_reclaim.quota_ms=100 damon_reclaim.quota_sz=1073741824 damon_reclaim.quota_reset_interval_ms=1000 damon_reclaim.wmarks_high=900 damon_reclaim.wmarks_mid=700 damon_reclaim.wmarks_low=200 damon_reclaim.skip_anon=Y damon_reclaim.wmarks_interval=5000000";

/// The number of drives besides the first two, `/dev/vdc` to `/dev/vdz`.
pub const MAX_EXTRA_DRIVES: usize = 24;

/// A length of time.
#[derive(Debug, Clone, Copy, PartialEq, Eq)]
pub struct TimeSpan {
    pub secs: u64,
    pub nanos: u32,
}

impl TimeSpan {
    /// The length of time in nanoseconds.
    pub open spec fn total(self) -> int {
        self.secs * 1000000000 + self.nanos
    }

    /// The length of time in whole milliseconds.
    pub fn as_millis(&self) -> (r: u128)
        ensures
            r == self.total() / 1000000,
    {
        assert(self.secs * 1000000000 <= u64::MAX * 1000000000) by (nonlinear_arith)
            requires
                self.secs <= u64::MAX,
        ;
        (self.secs as u128 * 1000000000 + self.nanos as u128) / 1000000
    }

    pub fn is_longer_than(&self, other: &TimeSpan) -> (r: bool)
        ensures
            r == (self.total() > other.total()),
    {
        assert(self.secs * 1000000000 <= u64::MAX * 1000000000) by (nonlinear_arith)
            requires
                self.secs <= u64::MAX,
        ;
        assert(other.secs * 1000000000 <= u64::MAX * 1000000000) by (nonlinear_arith)
            requires
                other.secs <= u64::MAX,
        ;
        self.secs as u128 * 1000000000 + self.nanos as u128 > other.secs as u128 * 1000000000
            + other.nanos as u128
    }

    /// So many seconds.
    pub open spec fn seconds(secs: u64) -> TimeSpan {
        TimeSpan { secs, nanos: 0 }
    }

    /// So many milliseconds.
    pub open spec fn milliseconds(millis: u64) -> TimeSpan {
        TimeSpan { secs: millis / 1000, nanos: (millis % 1000 * 1000000) as u32 }
    }

    pub fn from_secs(secs: u64) -> (r: TimeSpan)
        ensures
            r == TimeSpan::seconds(secs),
            r.total() == secs * 1000000000,
    {
        TimeSpan { secs, nanos: 0 }
    }

    pub fn from_millis(millis: u64) -> (r: TimeSpan)
        ensures
            r == TimeSpan::milliseconds(millis),
            r.total() == millis * 1000000,
    {
        TimeSpan { secs: millis / 1000, nanos: (millis % 1000) as u32 * 1000000 }
    }
}

/// The settings of a node that a launch depends on, with their paths resolved.
/// Values that are only handed on are kept as text.
#[derive(Debug)]
pub struct AppConfig {
    pub socket_timeout_secs: u64,
    pub socket_poll_ms: u64,
    pub envd_init_timeout_secs: u64,
    pub envd_poll_ms: u64,
    pub firecracker_binary: String,
    pub kernel_image: String,
    pub tools_version: String,
    pub envd_version: String,
    pub disk_rate_limit: String,
    pub track_dirty_pages: bool,
    pub allow_shrink: bool,
    pub overlaybd_read_only: bool,
    pub runtime_upper_mode: UpperMode,
    pub control_plane_port: u16,
    pub work_dir: Option<String>,
    pub serial_dir: Option<String>,
    pub log_level: Option<String>,
    pub boot_args: Option<String>,
    pub vcpu_count: u32,
    pub mem_size_mib: u32,
    /// The name of the way in which the node runs virtual machines.
    pub virtualization_mode: String,
}

/// How long to wait for a virtual machine.
#[derive(Debug, Clone, Copy, PartialEq, Eq)]
pub struct FirecrackerRuntimePolicy {
    pub socket_timeout: TimeSpan,
    pub socket_poll_interval: TimeSpan,
    pub envd_timeout: TimeSpan,
    pub envd_poll_interval: TimeSpan,
}

impl FirecrackerRuntimePolicy {
    /// The policy that a node's settings give.
    pub open spec fn of(self, config: AppConfig) -> bool {
        &&& self.socket_timeout == TimeSpan::seconds(config.socket_timeout_secs)
        &&& self.socket_poll_interval == TimeSpan::milliseconds(config.socket_poll_ms)
        &&& self.envd_timeout == TimeSpan::seconds(config.envd_init_timeout_secs)
        &&& self.envd_poll_interval == TimeSpan::milliseconds(config.envd_poll_ms)
    }

    pub fn from_app_config(config: &AppConfig) -> (r: FirecrackerRuntimePolicy)
        ensures
            r.of(*config),
    {
        FirecrackerRuntimePolicy {
            socket_timeout: TimeSpan::from_secs(config.socket_timeout_secs),
            socket_poll_interval: TimeSpan::from_millis(config.socket_poll_ms),
            envd_timeout: TimeSpan::from_secs(config.envd_init_timeout_secs),
            envd_poll_interval: TimeSpan::from_millis(config.envd_poll_ms),
        }
    }
}

/// An image that a block device serves.
#[derive(Debug, PartialEq, Eq)]
pub struct OverlaybdConfig {
    pub image_config_path: String,
    pub read_only: bool,
    pub runtime_upper_mode: UpperMode,
}

impl Clone for OverlaybdConfig {
    fn clone(&self) -> (r: OverlaybdConfig)
        ensures
            r == *self,
    {
        OverlaybdConfig {
            image_config_path: self.image_config_path.clone(),
            read_only: self.read_only,
            runtime_upper_mode: self.runtime_upper_mode,
        }
    }
}

/// What serves a block device.
#[derive(Debug, PartialEq, Eq)]
pub enum UblkBackend {
    Overlaybd(OverlaybdConfig),
}

#[derive(Debug, PartialEq, Eq)]
pub struct UblkConfig {
    pub backend: UblkBackend,
}

impl UblkConfig {
    pub fn overlaybd_with_runtime_upper_mode(
        image_config_path: String,
        read_only: bool,
        runtime_upper_mode: UpperMode,
    ) -> (r: UblkConfig)
        ensures
            r.backend == UblkBackend::Overlaybd(
                OverlaybdConfig { image_config_path, read_only, runtime_upper_mode },
            ),
    {
        UblkConfig {
            backend: UblkBackend::Overlaybd(
                OverlaybdConfig { image_config_path, read_only, runtime_upper_mode },
            ),
        }
    }
}

/// A further drive of a virtual machine.
#[derive(Debug, PartialEq, Eq)]
pub enum ExtraDrive {
    Overlaybd {
        drive_id: String,
        image_config_path: String,
        read_only: bool,
        mount_path: String,
        virtual_size: Option<u64>,
        sub_path: Option<String>,
    },
}

impl ExtraDrive {
    pub fn drive_id(&self) -> (r: &str)
        ensures
            r@ == self->drive_id@,
    {
        match self {
            ExtraDrive::Overlaybd { drive_id, .. } => drive_id.as_str(),
        }
    }

    pub fn image_config_path(&self) -> (r: &str)
        ensures
            r@ == self->image_config_path@,
    {
        match self {
            ExtraDrive::Overlaybd { image_config_path, .. } => image_config_path.as_str(),
        }
    }

    pub fn mount_path(&self) -> (r: &str)
        ensures
            r@ == self->mount_path@,
    {
        match self {
            ExtraDrive::Overlaybd { mount_path, .. } => mount_path.as_str(),
        }
    }

    pub fn virtual_size(&self) -> (r: Option<u64>)
        ensures
            r == self->virtual_size,
    {
        match self {
            ExtraDrive::Overlaybd { virtual_size, .. } => *virtual_size,
        }
    }
}

/// What the guest can read about its sandbox.
#[derive(Debug, PartialEq, Eq)]
pub struct MmdsMetadata {
    pub sandbox_id: String,
    pub snapshot_id: Option<String>,
    pub access_token: Option<String>,
    pub extra: Option<String>,
}

/// A copy of an optional text.
pub fn clone_text(s: &Option<String>) -> (r: Option<String>)
    ensures
        r == *s,
{
    match s {
        Some(t) => Some(t.clone()),
        None => None,
    }
}

/// What fresh launches and launches from snapshots have in common. Values that
/// are only handed on are kept as text.
#[derive(Debug)]
pub struct FirecrackerCommonConfig {
    pub firecracker_binary: String,
    /// The release of the tools drive.
    pub tools_drive_version: String,
    /// Where the working directories of virtual machines are made; the system's
    /// directory for temporary files where there is none.
    pub firecracker_work_base_dir: Option<String>,
    /// Where the serial output is written, below a directory for each sandbox,
    /// unless `stdout_path` and `stderr_path` say otherwise.
    pub serial_output_base_dir: Option<String>,
    pub stdout_path: Option<String>,
    pub stderr_path: Option<String>,
    /// Where there is a level, the virtual machine monitor keeps a log.
    pub firecracker_log_level: Option<String>,
    pub runtime_policy: FirecrackerRuntimePolicy,
    pub track_dirty_pages: bool,
    pub envd_version: String,
    pub control_plane_port: u16,
    pub env_vars: Option<EnvVars>,
    pub default_workdir: Option<String>,
    pub default_user: Option<String>,
    pub mmds_metadata: Option<MmdsMetadata>,
    pub rootfs_image_config: Option<OverlaybdConfig>,
    pub rootfs_virtual_size: Option<u64>,
    pub rootfs_allow_shrink: bool,
    pub extra_drives: Vec<ExtraDrive>,
    pub ublk_config: Option<UblkConfig>,
    /// The processor features of a cluster, which a fresh virtual machine is
    /// restricted to.
    pub cpu_config_json: Option<String>,
    pub network_policy: Option<String>,
    pub custom_extension_params: Option<String>,
    pub disk_rate_limit: String,
    /// Not kept with a snapshot.
    pub envd_access_token: Option<String>,
}

/// Settings that hold where nothing else is said.
#[derive(Debug)]
pub struct CommonDefaults {
    pub envd_version: String,
    pub control_plane_port: u16,
    pub disk_rate_limit: String,
}

impl FirecrackerCommonConfig {
    pub fn new(
        firecracker_binary: String,
        tools_drive_version: String,
        runtime_policy: FirecrackerRuntimePolicy,
        defaults: &CommonDefaults,
    ) -> (r: FirecrackerCommonConfig)
        ensures
            r == (FirecrackerCommonConfig {
                firecracker_binary,
                tools_drive_version,
                firecracker_work_base_dir: None,
                serial_output_base_dir: None,
                stdout_path: None,
                stderr_path: None,
                firecracker_log_level: None,
                runtime_policy,
                track_dirty_pages: true,
                envd_version: defaults.envd_version,
                control_plane_port: defaults.control_plane_port,
                env_vars: None,
                default_workdir: None,
                default_user: None,
                mmds_metadata: None,
                rootfs_image_config: None,
                rootfs_virtual_size: None,
                rootfs_allow_shrink: false,
                extra_drives: r.extra_drives,
                ublk_config: None,
                cpu_config_json: None,
                network_policy: None,
                custom_extension_params: None,
                disk_rate_limit: defaults.disk_rate_limit,
                envd_access_token: None,
            }),
            r.extra_drives@.len() == 0,
    {
        FirecrackerCommonConfig {
            firecracker_binary,
            tools_drive_version,
            firecracker_work_base_dir: None,
            serial_output_base_dir: None,
            stdout_path: None,
            stderr_path: None,
            firecracker_log_level: None,
            runtime_policy,
            track_dirty_pages: true,
            envd_version: defaults.envd_version.clone(),
            control_plane_port: defaults.control_plane_port,
            env_vars: None,
            default_workdir: None,
            default_user: None,
            mmds_metadata: None,
            rootfs_image_config: None,
            rootfs_virtual_size: None,
            rootfs_allow_shrink: false,
            extra_drives: Vec::new(),
            ublk_config: None,
            cpu_config_json: None,
            network_policy: None,
            custom_extension_params: None,
            disk_rate_limit: defaults.disk_rate_limit.clone(),
            envd_access_token: None,
        }
    }
}

/// The directory of serial output: a relative one lies below the current
/// directory, which must be known then.
pub open spec fn serial_dir(dir: Option<Seq<char>>, cwd: Option<Seq<char>>) -> Option<Seq<char>> {
    match dir {
        Some(d) => if paths::absolute(d) {
            Some(d)
        } else if cwd is Some {
            Some(paths::join_of(cwd->0, d))
        } else {
            None
        },
        None => None,
    }
}

pub open spec fn serial_dir_fault(dir: Option<Seq<char>>, cwd: Option<Seq<char>>) -> Option<
    Seq<char>,
> {
    failure::fault_if(
        dir is Some && !paths::absolute(dir->0) && cwd is None,
        "resolve serial output dir"@,
    )
}

/// The log level in use: trimmed, and none where nothing is left.
pub open spec fn effective_log_level(level: Option<Seq<char>>) -> Option<Seq<char>> {
    match level {
        Some(l) => if text::blank(l) {
            None
        } else {
            Some(text::trimmed(l))
        },
        None => None,
    }
}

impl FirecrackerCommonConfig {
    /// Makes the directory of serial output absolute.
    pub fn resolve_serial_output_dir(serial_output_dir: Option<String>, cwd: Option<&str>) -> (r:
        Result<Option<String>, Failure>)
        ensures
            failure::reports(r, serial_dir_fault(text::text_of(serial_output_dir), text::str_of(cwd))),
            r matches Ok(dir) ==> text::text_of(dir) == serial_dir(
                text::text_of(serial_output_dir),
                text::str_of(cwd),
            ),
    {
        match serial_output_dir {
            None => Ok(None),
            Some(dir) => if paths::is_absolute(dir.as_str()) {
                Ok(Some(dir))
            } else {
                match cwd {
                    Some(base) => Ok(Some(paths::join(base, dir.as_str()))),
                    None => Err(Failure::because("resolve serial output dir")),
                }
            },
        }
    }

    /// The configuration that a node's settings give. `cwd` is the current
    /// directory, where it is known.
    pub fn from_app_config(
        config: &AppConfig,
        defaults: &CommonDefaults,
        cwd: Option<&str>,
    ) -> (r: Result<FirecrackerCommonConfig, Failure>)
        ensures
            failure::reports(r, serial_dir_fault(text::text_of(config.serial_dir), text::str_of(cwd))),
            r matches Ok(common) ==> {
                &&& common == (FirecrackerCommonConfig {
                    firecracker_binary: config.firecracker_binary,
                    tools_drive_version: config.tools_version,
                    firecracker_work_base_dir: config.work_dir,
                    serial_output_base_dir: common.serial_output_base_dir,
                    stdout_path: None,
                    stderr_path: None,
                    firecracker_log_level: common.firecracker_log_level,
                    runtime_policy: common.runtime_policy,
                    track_dirty_pages: config.track_dirty_pages,
                    envd_version: config.envd_version,
                    control_plane_port: config.control_plane_port,
                    env_vars: None,
                    default_workdir: None,
                    default_user: None,
                    mmds_metadata: None,
                    rootfs_image_config: None,
                    rootfs_virtual_size: None,
                    rootfs_allow_shrink: config.allow_shrink,
                    extra_drives: common.extra_drives,
                    ublk_config: None,
                    cpu_config_json: None,
                    network_policy: None,
                    custom_extension_params: None,
                    disk_rate_limit: config.disk_rate_limit,
                    envd_access_token: None,
                })
                &&& common.runtime_policy.of(*config)
                &&& common.extra_drives@.len() == 0
                &&& text::text_of(common.serial_output_base_dir) == serial_dir(
                    text::text_of(config.serial_dir),
                    text::str_of(cwd),
                )
                &&& text::text_of(common.firecracker_log_level) == effective_log_level(
                    text::text_of(config.log_level),
                )
            },
    {
        let mut common = FirecrackerCommonConfig::new(
            config.firecracker_binary.clone(),
            config.tools_version.clone(),
            FirecrackerRuntimePolicy::from_app_config(config),
            defaults,
        );
        common.envd_version = config.envd_version.clone();
        common.disk_rate_limit = config.disk_rate_limit.clone();
        common.track_dirty_pages = config.track_dirty_pages;
        common.rootfs_allow_shrink = config.allow_shrink;
        common.control_plane_port = config.control_plane_port;
        common.firecracker_work_base_dir = clone_text(&config.work_dir);
        match FirecrackerCommonConfig::resolve_serial_output_dir(
            clone_text(&config.serial_dir),
            cwd,
        ) {
            Ok(dir) => {
                common.serial_output_base_dir = dir;
            },
            Err(e) => {
                return Err(e);
            },
        }
        common.firecracker_log_level = match &config.log_level {
            Some(level) => {
                let trimmed = text::trim(level.as_str());
                if trimmed.as_str().is_empty() {
                    None
                } else {
                    Some(trimmed)
                }
            },
            None => None,
        };
        Ok(common)
    }
}

/// The configuration of a fresh virtual machine.
#[derive(Debug)]
pub struct FirecrackerSandboxConfig {
    pub common: FirecrackerCommonConfig,
    pub kernel_image: String,
    pub boot_args: Option<String>,
    pub vcpu_count: u32,
    pub mem_size_mib: u32,
}

/// What a sandbox is launched with beyond the node's settings.
#[derive(Debug)]
pub struct SandboxLaunchConfig {
    pub sandbox_id: String,
    pub snapshot_id: Option<String>,
    pub env_vars: Option<EnvVars>,
    pub extra_mmds: Option<String>,
    pub network: Option<String>,
    pub custom_extension_params: Option<String>,
    pub envd_access_token: Option<String>,
}

/// The variables of a sandbox with those of a launch on top.
pub open spec fn merged_env(
    base: Option<EnvVars>,
    launch: Option<EnvVars>,
) -> Option<Map<Seq<char>, Seq<char>>> {
    let none = Map::<Seq<char>, Seq<char>>::empty();
    if launch is Some && launch->0@ != none {
        Some(
            (match base {
                Some(env) => env@,
                None => none,
            }).union_prefer_right(launch->0@),
        )
    } else {
        match base {
            Some(env) => Some(env@),
            None => None,
        }
    }
}

pub open spec fn env_map(env: Option<EnvVars>) -> Option<Map<Seq<char>, Seq<char>>> {
    match env {
        Some(e) => Some(e@),
        None => None,
    }
}

impl FirecrackerSandboxConfig {
    /// A configuration for one image, with the settings of `config` for the rest.
    pub fn new(
        firecracker_binary: String,
        kernel_image: String,
        tools_drive_version: String,
        user_image_config_path: String,
        config: &AppConfig,
        defaults: &CommonDefaults,
    ) -> (r: FirecrackerSandboxConfig)
        ensures
            r.kernel_image == kernel_image,
            r.boot_args is None,
            r.vcpu_count == config.vcpu_count,
            r.mem_size_mib == config.mem_size_mib,
            r.common.runtime_policy.of(*config),
            r.common.extra_drives@.len() == 0,
            r.common == (FirecrackerCommonConfig {
                firecracker_binary,
                tools_drive_version,
                firecracker_work_base_dir: None,
                serial_output_base_dir: None,
                stdout_path: None,
                stderr_path: None,
                firecracker_log_level: None,
                runtime_policy: r.common.runtime_policy,
                track_dirty_pages: true,
                envd_version: defaults.envd_version,
                control_plane_port: defaults.control_plane_port,
                env_vars: None,
                default_workdir: None,
                default_user: None,
                mmds_metadata: None,
                rootfs_image_config: Some(
                    OverlaybdConfig {
                        image_config_path: user_image_config_path,
                        read_only: false,
                        runtime_upper_mode: UpperMode::LogStructured,
                    },
                ),
                rootfs_virtual_size: None,
                rootfs_allow_shrink: false,
                extra_drives: r.common.extra_drives,
                ublk_config: None,
                cpu_config_json: None,
                network_policy: None,
                custom_extension_params: None,
                disk_rate_limit: config.disk_rate_limit,
                envd_access_token: None,
            }),
    {
        let mut common = FirecrackerCommonConfig::new(
            firecracker_binary,
            tools_drive_version,
            FirecrackerRuntimePolicy::from_app_config(config),
            defaults,
        );
        common.rootfs_image_config = Some(
            OverlaybdConfig {
                image_config_path: user_image_config_path,
                read_only: false,
                runtime_upper_mode: UpperMode::LogStructured,
            },
        );
        common.disk_rate_limit = config.disk_rate_limit.clone();
        FirecrackerSandboxConfig {
            common,
            kernel_image,
            boot_args: None,
            vcpu_count: config.vcpu_count,
            mem_size_mib: config.mem_size_mib,
        }
    }

    /// The configuration of a virtual machine with the user's image, which is
    /// written to in the node's way.
    pub fn from_app_config_with_user_image(
        config: &AppConfig,
        defaults: &CommonDefaults,
        cwd: Option<&str>,
        user_image_config: OverlaybdConfig,
    ) -> (r: Result<FirecrackerSandboxConfig, Failure>)
        ensures
            failure::reports(r, serial_dir_fault(text::text_of(config.serial_dir), text::str_of(cwd))),
            r matches Ok(sandbox) ==> {
                let image = OverlaybdConfig {
                    runtime_upper_mode: config.runtime_upper_mode,
                    ..user_image_config
                };
                &&& sandbox.kernel_image == config.kernel_image
                &&& sandbox.vcpu_count == config.vcpu_count
                &&& sandbox.mem_size_mib == config.mem_size_mib
                &&& text::text_of(sandbox.boot_args) == Some(
                    match config.boot_args {
                        Some(args) => args@,
                        None => DEFAULT_BOOT_ARGS@,
                    },
                )
                &&& sandbox.common.rootfs_image_config == Some(image)
                &&& sandbox.common.ublk_config == Some(
                    UblkConfig { backend: UblkBackend::Overlaybd(image) },
                )
                &&& sandbox.common.runtime_policy.of(*config)
                &&& sandbox.common.extra_drives@.len() == 0
                &&& text::text_of(sandbox.common.serial_output_base_dir) == serial_dir(
                    text::text_of(config.serial_dir),
                    text::str_of(cwd),
                )
                &&& text::text_of(sandbox.common.firecracker_log_level) == effective_log_level(
                    text::text_of(config.log_level),
                )
                &&& sandbox.common == (FirecrackerCommonConfig {
                    firecracker_binary: config.firecracker_binary,
                    tools_drive_version: config.tools_version,
                    firecracker_work_base_dir: config.work_dir,
                    stdout_path: None,
                    stderr_path: None,
                    track_dirty_pages: config.track_dirty_pages,
                    envd_version: config.envd_version,
                    control_plane_port: config.control_plane_port,
                    env_vars: None,
                    default_workdir: None,
                    default_user: None,
                    mmds_metadata: None,
                    rootfs_virtual_size: None,
                    rootfs_allow_shrink: config.allow_shrink,
                    cpu_config_json: None,
                    network_policy: None,
                    custom_extension_params: None,
                    disk_rate_limit: config.disk_rate_limit,
                    envd_access_token: None,
                    ..sandbox.common
                })
            },
    {
        let mut image = user_image_config;
        image.runtime_upper_mode = config.runtime_upper_mode;
        let mut common = match FirecrackerCommonConfig::from_app_config(config, defaults, cwd) {
            Ok(common) => common,
            Err(e) => {
                return Err(e);
            },
        };
        common.ublk_config = Some(
            UblkConfig::overlaybd_with_runtime_upper_mode(
                image.image_config_path.clone(),
                image.read_only,
                image.runtime_upper_mode,
            ),
        );
        common.rootfs_image_config = Some(image);
        Ok(
            FirecrackerSandboxConfig {
                common,
                kernel_image: config.kernel_image.clone(),
                boot_args: match &config.boot_args {
                    Some(args) => Some(args.clone()),
                    None => Some(DEFAULT_BOOT_ARGS.to_owned()),
                },
                vcpu_count: config.vcpu_count,
                mem_size_mib: config.mem_size_mib,
            },
        )
    }

    /// Adds what a sandbox is launched with: its variables go before those that
    /// were there, and the rest takes the place of what was there.
    pub fn apply_launch_config(self, launch_config: &SandboxLaunchConfig) -> (r:
        FirecrackerSandboxConfig)
        ensures
            env_map(r.common.env_vars) == merged_env(self.common.env_vars, launch_config.env_vars),
            r == (FirecrackerSandboxConfig {
                common: FirecrackerCommonConfig {
                    env_vars: r.common.env_vars,
                    mmds_metadata: Some(
                        MmdsMetadata {
                            sandbox_id: launch_config.sandbox_id,
                            snapshot_id: launch_config.snapshot_id,
                            access_token: launch_config.envd_access_token,
                            extra: launch_config.extra_mmds,
                        },
                    ),
                    network_policy: launch_config.network,
                    custom_extension_params: launch_config.custom_extension_params,
                    envd_access_token: launch_config.envd_access_token,
                    ..self.common
                },
                ..self
            }),
    {
        let mut r = self;
        match &launch_config.env_vars {
            Some(launch_env) => {
                if !launch_env.is_empty() {
                    let mut env = match r.common.env_vars {
                        Some(env) => env,
                        None => EnvVars::new(),
                    };
                    env.extend(launch_env);
                    r.common.env_vars = Some(env);
                }
            },
            None => {},
        }
        r.common.mmds_metadata = Some(
            MmdsMetadata {
                sandbox_id: launch_config.sandbox_id.clone(),
                snapshot_id: clone_text(&launch_config.snapshot_id),
                access_token: clone_text(&launch_config.envd_access_token),
                extra: clone_text(&launch_config.extra_mmds),
            },
        );
        r.common.network_policy = clone_text(&launch_config.network);
        r.common.custom_extension_params = clone_text(&launch_config.custom_extension_params);
        r.common.envd_access_token = clone_text(&launch_config.envd_access_token);
        r
    }
}

/// The value of a variable, where it has one.
pub open spec fn variable(env: Option<Map<Seq<char>, Seq<char>>>, name: Seq<char>) -> Option<
    Seq<char>,
> {
    match env {
        Some(map) => if map.dom().contains(name) {
            Some(map[name])
        } else {
            None
        },
        None => None,
    }
}

/// A variable of the launch has its value after the launch, any other variable
/// keeps its own, and there are no others.
pub proof fn launch_variables_go_first(
    base: Option<EnvVars>,
    launch: Option<EnvVars>,
    name: Seq<char>,
)
    ensures
        variable(merged_env(base, launch), name) == (match variable(env_map(launch), name) {
            Some(value) => Some(value),
            None => variable(env_map(base), name),
        }),
{
}

} // verus!
