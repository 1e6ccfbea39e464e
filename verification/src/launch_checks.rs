//! What has to hold before a virtual machine is launched, given what was found
//! on the node's file systems; and the configuration that a snapshot gives.
use vstd::prelude::*;
use vstd::string::StringExecFns;

use crate::env_vars::EnvVars;
use crate::failure;
use crate::failure::Failure;
use crate::launch_config;
use crate::launch_config::AppConfig;
use crate::launch_config::CommonDefaults;
use crate::launch_config::ExtraDrive;
use crate::launch_config::FirecrackerCommonConfig;
use crate::launch_config::FirecrackerSandboxConfig;
use crate::launch_config::OverlaybdConfig;
use crate::launch_config::UblkBackend;
use crate::launch_config::UblkConfig;
use crate::launch_config::MAX_EXTRA_DRIVES;
use crate::overlaybd_config::UpperMode;
use crate::paths;
use crate::text;

verus! {

/// What was found at a path.
#[derive(Debug, Clone, Copy, PartialEq, Eq)]
pub struct PathFacts {
    pub exists: bool,
    pub is_file: bool,
}

/// What was found out about an extra drive: what is wrong with its name and
/// with its mount path, if anything, and whether its image configuration is
/// there.
#[derive(Debug, PartialEq, Eq)]
pub struct DriveFacts {
    pub id_fault: Option<String>,
    pub mount_fault: Option<String>,
    pub image_exists: bool,
}

pub open spec fn id_of(d: ExtraDrive) -> Seq<char> {
    d->drive_id@
}

pub open spec fn mount_of(d: ExtraDrive) -> Seq<char> {
    d->mount_path@
}

pub open spec fn image_of(d: ExtraDrive) -> Seq<char> {
    d->image_config_path@
}

/// One of the first `n` drives has this name.
pub open spec fn id_taken(drives: Seq<ExtraDrive>, n: int, id: Seq<char>) -> bool {
    exists|k: int| 0 <= k < n && id_of(#[trigger] drives[k]) == id
}

/// One of the first `n` drives is mounted at this path.
pub open spec fn mount_taken(drives: Seq<ExtraDrive>, n: int, mount: Seq<char>) -> bool {
    exists|k: int|
        0 <= k < n && paths::components(mount_of(#[trigger] drives[k])) == paths::components(mount)
}

/// The first thing wrong with drive number `i`.
pub open spec fn drive_fault(drives: Seq<ExtraDrive>, facts: Seq<DriveFacts>, i: int) -> Option<
    Seq<char>,
> {
    let d = drives[i];
    let f = facts[i];
    if f.id_fault is Some {
        Some(f.id_fault->0@)
    } else if id_taken(drives, i, id_of(d)) {
        Some("duplicate extra drive id: "@ + id_of(d))
    } else if f.mount_fault is Some {
        Some(f.mount_fault->0@)
    } else if mount_taken(drives, i, mount_of(d)) {
        Some("duplicate extra drive mount path: "@ + mount_of(d))
    } else if d->virtual_size == Some(0u64) {
        Some("extra drive virtual size must be non-zero: "@ + id_of(d))
    } else if !f.image_exists {
        Some("overlaybd image config not found at "@ + image_of(d))
    } else {
        None
    }
}

/// The first thing wrong with the first `n` drives.
pub open spec fn first_drive_fault(
    drives: Seq<ExtraDrive>,
    facts: Seq<DriveFacts>,
    n: int,
) -> Option<Seq<char>>
    decreases n,
{
    if n <= 0 {
        None
    } else {
        failure::earliest(
            first_drive_fault(drives, facts, n - 1),
            drive_fault(drives, facts, n - 1),
        )
    }
}

/// The first thing wrong with a set of drives.
pub open spec fn drives_fault(drives: Seq<ExtraDrive>, facts: Seq<DriveFacts>) -> Option<
    Seq<char>,
> {
    failure::earliest(
        failure::fault_if(
            drives.len() > MAX_EXTRA_DRIVES,
            "too many extra drives: "@ + text::decimal(drives.len())
                + " configured, but at most 24 are supported (/dev/vdc..=/dev/vdz)"@,
        ),
        first_drive_fault(drives, facts, drives.len() as int),
    )
}

proof fn lemma_first_drive_fault(
    drives: Seq<ExtraDrive>,
    facts: Seq<DriveFacts>,
    m: int,
    n: int,
)
    requires
        0 <= m <= n,
        first_drive_fault(drives, facts, m) is Some,
    ensures
        first_drive_fault(drives, facts, n) == first_drive_fault(drives, facts, m),
    decreases n,
{
    if m < n {
        lemma_first_drive_fault(drives, facts, m, n - 1);
    }
}

fn is_id_taken(drives: &Vec<ExtraDrive>, n: usize, id: &str) -> (r: bool)
    requires
        n <= drives@.len(),
    ensures
        r == id_taken(drives@, n as int, id@),
{
    let mut k: usize = 0;
    while k < n
        invariant
            k <= n <= drives@.len(),
            forall|j: int| 0 <= j < k ==> id_of(#[trigger] drives@[j]) != id@,
        decreases n - k,
    {
        if text::same(drives[k].drive_id(), id) {
            assert(id_of(drives@[k as int]) == id@);
            return true;
        }
        k += 1;
    }
    false
}

fn is_mount_taken(drives: &Vec<ExtraDrive>, n: usize, mount: &str) -> (r: bool)
    requires
        n <= drives@.len(),
    ensures
        r == mount_taken(drives@, n as int, mount@),
{
    let mut k: usize = 0;
    while k < n
        invariant
            k <= n <= drives@.len(),
            forall|j: int|
                0 <= j < k ==> paths::components(mount_of(#[trigger] drives@[j]))
                    != paths::components(mount@),
        decreases n - k,
    {
        if paths::same_path(drives[k].mount_path(), mount) {
            assert(paths::components(mount_of(drives@[k as int])) == paths::components(mount@));
            return true;
        }
        k += 1;
    }
    false
}

fn validate_overlaybd_extra_drive(drives: &Vec<ExtraDrive>, facts: &Vec<DriveFacts>, i: usize) -> (r:
    Result<(), Failure>)
    requires
        i < drives@.len() == facts@.len(),
    ensures
        failure::reports(r, drive_fault(drives@, facts@, i as int)),
{
    let drive = &drives[i];
    match &facts[i].id_fault {
        Some(message) => {
            return Err(Failure::new(message.clone()));
        },
        None => {},
    }
    if is_id_taken(drives, i, drive.drive_id()) {
        return Err(Failure::new(text::concat("duplicate extra drive id: ", drive.drive_id())));
    }
    match &facts[i].mount_fault {
        Some(message) => {
            return Err(Failure::new(message.clone()));
        },
        None => {},
    }
    if is_mount_taken(drives, i, drive.mount_path()) {
        return Err(
            Failure::new(text::concat("duplicate extra drive mount path: ", drive.mount_path())),
        );
    }
    match drive.virtual_size() {
        Some(size) => {
            if size == 0 {
                return Err(
                    Failure::new(
                        text::concat(
                            "extra drive virtual size must be non-zero: ",
                            drive.drive_id(),
                        ),
                    ),
                );
            }
        },
        None => {},
    }
    if !facts[i].image_exists {
        return Err(
            Failure::new(
                text::concat("overlaybd image config not found at ", drive.image_config_path()),
            ),
        );
    }
    Ok(())
}

/// Checks the extra drives of a virtual machine; `facts` says of each drive what
/// was found out about it.
pub fn validate_overlaybd_extra_drive_set(
    extra_drives: &Vec<ExtraDrive>,
    facts: &Vec<DriveFacts>,
) -> (r: Result<(), Failure>)
    requires
        facts@.len() == extra_drives@.len(),
    ensures
        failure::reports(r, drives_fault(extra_drives@, facts@)),
{
    if extra_drives.len() > MAX_EXTRA_DRIVES {
        let count = text::decimal_of(extra_drives.len() as u64);
        return Err(
            Failure::new(
                text::concat3(
                    "too many extra drives: ",
                    count.as_str(),
                    " configured, but at most 24 are supported (/dev/vdc..=/dev/vdz)",
                ),
            ),
        );
    }
    let mut i: usize = 0;
    while i < extra_drives.len()
        invariant
            i <= extra_drives@.len() == facts@.len(),
            extra_drives@.len() <= MAX_EXTRA_DRIVES,
            first_drive_fault(extra_drives@, facts@, i as int) is None,
        decreases extra_drives.len() - i,
    {
        match validate_overlaybd_extra_drive(extra_drives, facts, i) {
            Err(e) => {
                proof {
                    lemma_first_drive_fault(
                        extra_drives@,
                        facts@,
                        i + 1,
                        extra_drives@.len() as int,
                    );
                }
                return Err(e);
            },
            Ok(_) => {},
        }
        i += 1;
    }
    Ok(())
}

proof fn lemma_no_drive_fault(drives: Seq<ExtraDrive>, facts: Seq<DriveFacts>, i: int, n: int)
    requires
        0 <= i < n,
        first_drive_fault(drives, facts, n) is None,
    ensures
        drive_fault(drives, facts, i) is None,
    decreases n,
{
    if i < n - 1 {
        lemma_no_drive_fault(drives, facts, i, n - 1);
    }
}

/// Accepted drives are at most 24, and no two have the same name or are mounted
/// at the same place.
pub proof fn accepted_drives_do_not_clash(drives: Seq<ExtraDrive>, facts: Seq<DriveFacts>)
    requires
        drives_fault(drives, facts) is None,
    ensures
        drives.len() <= MAX_EXTRA_DRIVES,
        forall|i: int, j: int|
            0 <= i < j < drives.len() ==> id_of(#[trigger] drives[i]) != id_of(
                #[trigger] drives[j],
            ) && paths::components(mount_of(drives[i])) != paths::components(mount_of(drives[j])),
{
    assert forall|i: int, j: int| 0 <= i < j < drives.len() implies id_of(#[trigger] drives[i])
        != id_of(#[trigger] drives[j]) && paths::components(mount_of(drives[i]))
        != paths::components(mount_of(drives[j])) by {
        lemma_no_drive_fault(drives, facts, j, drives.len() as int);
        assert(!id_taken(drives, j, id_of(drives[j])));
        assert(!mount_taken(drives, j, mount_of(drives[j])));
    }
}

/// What was found out about the stored parts of a configuration.
#[derive(Debug)]
pub struct ArtifactFacts {
    pub drives: Vec<DriveFacts>,
    /// The image configuration of the block device is there.
    pub ublk_image_exists: bool,
}

/// The first thing wrong with the stored parts of a configuration.
pub open spec fn artifacts_fault(c: FirecrackerCommonConfig, facts: ArtifactFacts) -> Option<
    Seq<char>,
> {
    failure::earliest(
        drives_fault(c.extra_drives@, facts.drives@),
        failure::earliest(
            failure::fault_if(
                c.rootfs_virtual_size == Some(0u64),
                "rootfs virtual size must be non-zero"@,
            ),
            match c.ublk_config {
                Some(ublk) => failure::fault_if(
                    !facts.ublk_image_exists,
                    "overlaybd image config not found at "@
                        + ublk.backend->Overlaybd_0.image_config_path@,
                ),
                None => None,
            },
        ),
    )
}

/// What was found out about the node that a virtual machine is to run on.
#[derive(Debug)]
pub struct NodeFacts {
    /// Where the node keeps the release of the tools drive, if it could tell.
    pub tools_drive_path: Option<String>,
    pub tools_drive: PathFacts,
    pub deps_path: String,
    pub linux: bool,
    pub firecracker_binary_exists: bool,
    pub artifacts: ArtifactFacts,
}

/// What is wrong with the tools drive that a configuration names.
pub open spec fn tools_path_fault(
    version: Seq<char>,
    resolved: Option<Seq<char>>,
    deps_path: Seq<char>,
) -> Option<Seq<char>> {
    if text::blank(version) {
        Some(
            "sandbox state does not record a tools drive version; migrate its persisted metadata before resuming it"@,
        )
    } else if resolved is None {
        Some(
            "resolve tools drive version '"@ + version + "' under dependency root "@ + deps_path,
        )
    } else {
        None
    }
}

/// The first thing that keeps a configuration from being launched on a node.
pub open spec fn node_fault(c: FirecrackerCommonConfig, facts: NodeFacts) -> Option<Seq<char>> {
    let version = c.tools_drive_version@;
    let path = text::text_of(facts.tools_drive_path);
    if tools_path_fault(version, path, facts.deps_path@) is Some {
        tools_path_fault(version, path, facts.deps_path@)
    } else if !facts.linux {
        Some("Firecracker requires a Linux host"@)
    } else if !facts.firecracker_binary_exists {
        Some("firecracker binary not found at "@ + c.firecracker_binary@)
    } else if !facts.tools_drive.exists {
        Some(
            "tools drive version '"@ + version
                + "' is not installed on this node; resolved path: "@ + path->0
                + "; dependency root: "@ + facts.deps_path@
                + "; install this immutable release before launching the sandbox"@,
        )
    } else if !facts.tools_drive.is_file {
        Some("tools drive version '"@ + version + "' resolved to a non-file path: "@ + path->0)
    } else {
        artifacts_fault(c, facts.artifacts)
    }
}

impl FirecrackerCommonConfig {
    /// Where the tools drive is, from where the node keeps its release.
    pub fn resolved_tools_drive_path(&self, resolved: &Option<String>, deps_path: &str) -> (r:
        Result<String, Failure>)
        ensures
            failure::reports(
                r,
                tools_path_fault(
                    self.tools_drive_version@,
                    text::text_of(*resolved),
                    deps_path@,
                ),
            ),
            r matches Ok(path) ==> Some(path) == *resolved,
    {
        if text::trim(self.tools_drive_version.as_str()).as_str().is_empty() {
            return Err(
                Failure::because(
                    "sandbox state does not record a tools drive version; migrate its persisted metadata before resuming it",
                ),
            );
        }
        match resolved {
            Some(path) => Ok(path.clone()),
            None => {
                let mut message = text::concat3(
                    "resolve tools drive version '",
                    self.tools_drive_version.as_str(),
                    "' under dependency root ",
                );
                message.append(deps_path);
                Err(Failure::new(message))
            },
        }
    }

    /// Checks the stored parts of a configuration.
    pub fn validate_persisted_artifacts(&self, facts: &ArtifactFacts) -> (r: Result<(), Failure>)
        requires
            facts.drives@.len() == self.extra_drives@.len(),
        ensures
            failure::reports(r, artifacts_fault(*self, *facts)),
    {
        match validate_overlaybd_extra_drive_set(&self.extra_drives, &facts.drives) {
            Err(e) => {
                return Err(e);
            },
            Ok(_) => {},
        }
        match self.rootfs_virtual_size {
            Some(size) => {
                if size == 0 {
                    return Err(Failure::because("rootfs virtual size must be non-zero"));
                }
            },
            None => {},
        }
        match &self.ublk_config {
            Some(ublk) => match &ublk.backend {
                UblkBackend::Overlaybd(image) => {
                    if !facts.ublk_image_exists {
                        return Err(
                            Failure::new(
                                text::concat(
                                    "overlaybd image config not found at ",
                                    image.image_config_path.as_str(),
                                ),
                            ),
                        );
                    }
                },
            },
            None => {},
        }
        Ok(())
    }

    /// Checks that a configuration can be launched on a node.
    pub fn validate(&self, facts: &NodeFacts) -> (r: Result<(), Failure>)
        requires
            facts.artifacts.drives@.len() == self.extra_drives@.len(),
        ensures
            failure::reports(r, node_fault(*self, *facts)),
    {
        let path = match self.resolved_tools_drive_path(
            &facts.tools_drive_path,
            facts.deps_path.as_str(),
        ) {
            Err(e) => {
                return Err(e);
            },
            Ok(path) => path,
        };
        if !facts.linux {
            return Err(Failure::because("Firecracker requires a Linux host"));
        }
        if !facts.firecracker_binary_exists {
            return Err(
                Failure::new(
                    text::concat(
                        "firecracker binary not found at ",
                        self.firecracker_binary.as_str(),
                    ),
                ),
            );
        }
        if !facts.tools_drive.exists {
            let mut message = text::concat3(
                "tools drive version '",
                self.tools_drive_version.as_str(),
                "' is not installed on this node; resolved path: ",
            );
            message.append(path.as_str());
            message.append("; dependency root: ");
            message.append(facts.deps_path.as_str());
            message.append("; install this immutable release before launching the sandbox");
            return Err(Failure::new(message));
        }
        if !facts.tools_drive.is_file {
            let mut message = text::concat3(
                "tools drive version '",
                self.tools_drive_version.as_str(),
                "' resolved to a non-file path: ",
            );
            message.append(path.as_str());
            return Err(Failure::new(message));
        }
        self.validate_persisted_artifacts(&facts.artifacts)
    }
}

/// What was found out about a fresh virtual machine's files.
#[derive(Debug)]
pub struct SandboxFacts {
    pub node: NodeFacts,
    pub kernel_image_exists: bool,
    pub user_image: PathFacts,
}

/// The first thing that keeps a fresh virtual machine from being launched.
pub open spec fn sandbox_fault(c: FirecrackerSandboxConfig, facts: SandboxFacts) -> Option<
    Seq<char>,
> {
    failure::earliest(
        node_fault(c.common, facts.node),
        if !facts.kernel_image_exists {
            Some("kernel image not found at "@ + c.kernel_image@)
        } else if c.common.rootfs_image_config is None {
            Some("user image overlaybd config is missing"@)
        } else if !facts.user_image.exists {
            Some(
                "user image overlaybd config not found at "@
                    + c.common.rootfs_image_config->0.image_config_path@,
            )
        } else if !facts.user_image.is_file {
            Some(
                "user image overlaybd config path is not a file: "@
                    + c.common.rootfs_image_config->0.image_config_path@,
            )
        } else {
            None
        },
    )
}

impl FirecrackerSandboxConfig {
    /// Checks that a fresh virtual machine can be launched.
    pub fn validate(&self, facts: &SandboxFacts) -> (r: Result<(), Failure>)
        requires
            facts.node.artifacts.drives@.len() == self.common.extra_drives@.len(),
        ensures
            failure::reports(r, sandbox_fault(*self, *facts)),
    {
        match self.common.validate(&facts.node) {
            Err(e) => {
                return Err(e);
            },
            Ok(_) => {},
        }
        if !facts.kernel_image_exists {
            return Err(
                Failure::new(
                    text::concat("kernel image not found at ", self.kernel_image.as_str()),
                ),
            );
        }
        match &self.common.rootfs_image_config {
            None => Err(Failure::because("user image overlaybd config is missing")),
            Some(image) => {
                if !facts.user_image.exists {
                    return Err(
                        Failure::new(
                            text::concat(
                                "user image overlaybd config not found at ",
                                image.image_config_path.as_str(),
                            ),
                        ),
                    );
                }
                if !facts.user_image.is_file {
                    return Err(
                        Failure::new(
                            text::concat(
                                "user image overlaybd config path is not a file: ",
                                image.image_config_path.as_str(),
                            ),
                        ),
                    );
                }
                Ok(())
            },
        }
    }
}

/// The configuration of a virtual machine that goes on from a snapshot.
#[derive(Debug)]
pub struct FirecrackerSnapshotConfig {
    pub common: FirecrackerCommonConfig,
    pub vm_state_path: String,
    pub mem_overlaybd_config: OverlaybdConfig,
    /// The size of the memory image in bytes.
    pub mem_virtual_size: u64,
    /// The image of the base template whose memory is shared, where there is one.
    pub base_mem_image_config_path: Option<String>,
}

/// A snapshot that is complete.
#[derive(Debug)]
pub struct RunnableSnapshot {
    pub id: String,
    pub virtualization_mode: String,
    pub tools_drive_version: String,
    pub envd_version: String,
    pub env_vars: EnvVars,
    pub workdir: String,
    pub user: Option<String>,
    pub rootfs_image_config_path: String,
    pub rootfs_virtual_size: u64,
    pub extra_drives: Vec<ExtraDrive>,
    pub mem_image_config_path: String,
    pub mem_virtual_size: u64,
    pub vm_state_path: String,
}

/// What keeps a snapshot from being launched on a node.
pub open spec fn snapshot_fault(snapshot: RunnableSnapshot, config: AppConfig) -> Option<
    Seq<char>,
> {
    if snapshot.virtualization_mode@ != config.virtualization_mode@ {
        Some(
            "snapshot '"@ + snapshot.id@ + "' uses virtualization mode '"@
                + snapshot.virtualization_mode@ + "', but this node runs in mode '"@
                + config.virtualization_mode@ + "'"@,
        )
    } else if text::blank(snapshot.tools_drive_version@) {
        Some(
            "snapshot does not record a tools drive version; migrate its metadata before launching it"@,
        )
    } else {
        None
    }
}

impl FirecrackerSnapshotConfig {
    /// The configuration that goes on from a snapshot: the snapshot's own tools,
    /// variables, images and drives, and `base_common` for the rest.
    pub fn from_snapshot_and_base(
        base_common: FirecrackerCommonConfig,
        config: &AppConfig,
        snapshot: RunnableSnapshot,
    ) -> (r: Result<FirecrackerSnapshotConfig, Failure>)
        ensures
            failure::reports(r, snapshot_fault(snapshot, *config)),
            r matches Ok(s) ==> {
                let image = OverlaybdConfig {
                    image_config_path: snapshot.rootfs_image_config_path,
                    read_only: config.overlaybd_read_only,
                    runtime_upper_mode: config.runtime_upper_mode,
                };
                s == (FirecrackerSnapshotConfig {
                    common: FirecrackerCommonConfig {
                        tools_drive_version: snapshot.tools_drive_version,
                        ublk_config: Some(UblkConfig { backend: UblkBackend::Overlaybd(image) }),
                        envd_version: snapshot.envd_version,
                        env_vars: if snapshot.env_vars@ == Map::<Seq<char>, Seq<char>>::empty() {
                            None
                        } else {
                            Some(snapshot.env_vars)
                        },
                        default_workdir: Some(snapshot.workdir),
                        default_user: snapshot.user,
                        rootfs_image_config: Some(image),
                        rootfs_virtual_size: Some(snapshot.rootfs_virtual_size),
                        extra_drives: snapshot.extra_drives,
                        ..base_common
                    },
                    vm_state_path: snapshot.vm_state_path,
                    mem_overlaybd_config: OverlaybdConfig {
                        image_config_path: snapshot.mem_image_config_path,
                        read_only: true,
                        runtime_upper_mode: UpperMode::LogStructured,
                    },
                    mem_virtual_size: snapshot.mem_virtual_size,
                    base_mem_image_config_path: None,
                })
            },
    {
        if !text::same(
            snapshot.virtualization_mode.as_str(),
            config.virtualization_mode.as_str(),
        ) {
            let mut message = text::concat3(
                "snapshot '",
                snapshot.id.as_str(),
                "' uses virtualization mode '",
            );
            message.append(snapshot.virtualization_mode.as_str());
            message.append("', but this node runs in mode '");
            message.append(config.virtualization_mode.as_str());
            message.append("'");
            return Err(Failure::new(message));
        }
        if text::trim(snapshot.tools_drive_version.as_str()).as_str().is_empty() {
            return Err(
                Failure::because(
                    "snapshot does not record a tools drive version; migrate its metadata before launching it",
                ),
            );
        }
        let image = OverlaybdConfig {
            image_config_path: snapshot.rootfs_image_config_path,
            read_only: config.overlaybd_read_only,
            runtime_upper_mode: config.runtime_upper_mode,
        };
        let mut common = base_common;
        common.tools_drive_version = snapshot.tools_drive_version;
        common.ublk_config = Some(
            UblkConfig::overlaybd_with_runtime_upper_mode(
                image.image_config_path.clone(),
                image.read_only,
                image.runtime_upper_mode,
            ),
        );
        common.envd_version = snapshot.envd_version;
        let no_variables = snapshot.env_vars.is_empty();
        common.env_vars = if no_variables {
            None
        } else {
            Some(snapshot.env_vars)
        };
        common.default_workdir = Some(snapshot.workdir);
        common.default_user = snapshot.user;
        common.rootfs_image_config = Some(image);
        common.rootfs_virtual_size = Some(snapshot.rootfs_virtual_size);
        common.extra_drives = snapshot.extra_drives;
        Ok(
            FirecrackerSnapshotConfig {
                common,
                vm_state_path: snapshot.vm_state_path,
                mem_overlaybd_config: OverlaybdConfig {
                    image_config_path: snapshot.mem_image_config_path,
                    read_only: true,
                    runtime_upper_mode: UpperMode::LogStructured,
                },
                mem_virtual_size: snapshot.mem_virtual_size,
                base_mem_image_config_path: None,
            },
        )
    }
}

impl FirecrackerSnapshotConfig {
    /// The configuration that goes on from a snapshot on a node with the given
    /// settings. The processor is not configured again, since its state is part
    /// of the snapshot.
    pub fn from_runnable_snapshot(
        config: &AppConfig,
        defaults: &CommonDefaults,
        cwd: Option<&str>,
        snapshot: RunnableSnapshot,
    ) -> (r: Result<FirecrackerSnapshotConfig, Failure>)
        ensures
            failure::reports(
                r,
                failure::earliest(
                    failure::fault_if(
                        launch_config::serial_dir_fault(
                            text::text_of(config.serial_dir),
                            text::str_of(cwd),
                        ) is Some,
                        "load sandbox common config"@,
                    ),
                    snapshot_fault(snapshot, *config),
                ),
            ),
            r matches Ok(s) ==> {
                let image = OverlaybdConfig {
                    image_config_path: snapshot.rootfs_image_config_path,
                    read_only: config.overlaybd_read_only,
                    runtime_upper_mode: config.runtime_upper_mode,
                };
                &&& s.common == (FirecrackerCommonConfig {
                    firecracker_binary: config.firecracker_binary,
                    tools_drive_version: snapshot.tools_drive_version,
                    firecracker_work_base_dir: config.work_dir,
                    serial_output_base_dir: s.common.serial_output_base_dir,
                    stdout_path: None,
                    stderr_path: None,
                    firecracker_log_level: s.common.firecracker_log_level,
                    runtime_policy: s.common.runtime_policy,
                    track_dirty_pages: config.track_dirty_pages,
                    envd_version: snapshot.envd_version,
                    control_plane_port: config.control_plane_port,
                    env_vars: if snapshot.env_vars@ == Map::<Seq<char>, Seq<char>>::empty() {
                        None
                    } else {
                        Some(snapshot.env_vars)
                    },
                    default_workdir: Some(snapshot.workdir),
                    default_user: snapshot.user,
                    mmds_metadata: None,
                    rootfs_image_config: Some(image),
                    rootfs_virtual_size: Some(snapshot.rootfs_virtual_size),
                    rootfs_allow_shrink: config.allow_shrink,
                    extra_drives: snapshot.extra_drives,
                    ublk_config: Some(UblkConfig { backend: UblkBackend::Overlaybd(image) }),
                    cpu_config_json: None,
                    network_policy: None,
                    custom_extension_params: None,
                    disk_rate_limit: config.disk_rate_limit,
                    envd_access_token: None,
                })
                &&& s.common.runtime_policy.of(*config)
                &&& text::text_of(s.common.serial_output_base_dir)
                    == launch_config::serial_dir(
                    text::text_of(config.serial_dir),
                    text::str_of(cwd),
                )
                &&& text::text_of(s.common.firecracker_log_level)
                    == launch_config::effective_log_level(text::text_of(config.log_level))
                &&& s.vm_state_path == snapshot.vm_state_path
                &&& s.mem_overlaybd_config == (OverlaybdConfig {
                    image_config_path: snapshot.mem_image_config_path,
                    read_only: true,
                    runtime_upper_mode: UpperMode::LogStructured,
                })
                &&& s.mem_virtual_size == snapshot.mem_virtual_size
                &&& s.base_mem_image_config_path is None
            },
    {
        let base = match FirecrackerCommonConfig::from_app_config(config, defaults, cwd) {
            Ok(common) => common,
            Err(_) => {
                return Err(Failure::because("load sandbox common config"));
            },
        };
        FirecrackerSnapshotConfig::from_snapshot_and_base(base, config, snapshot)
    }
}

/// What was found out about a snapshot's files.
#[derive(Debug, Clone, Copy, PartialEq, Eq)]
pub struct SnapshotFacts {
    pub vm_state_exists: bool,
    pub mem_image: PathFacts,
    pub rootfs: PathFacts,
}

/// The first thing wrong with the files of a snapshot.
pub open spec fn snapshot_files_fault(c: FirecrackerSnapshotConfig, facts: SnapshotFacts) -> Option<
    Seq<char>,
> {
    let mem = c.mem_overlaybd_config.image_config_path@;
    if c.common.rootfs_virtual_size is None {
        Some("rootfs virtual size must be non-zero"@)
    } else if c.common.rootfs_image_config is None {
        Some("base rootfs image config is missing"@)
    } else {
        let rootfs = c.common.rootfs_image_config->0.image_config_path@;
        if c.common.rootfs_virtual_size == Some(0u64) {
            Some("rootfs virtual size must be non-zero"@)
        } else if !facts.vm_state_exists {
            Some("vm state snapshot not found at "@ + c.vm_state_path@)
        } else if !facts.mem_image.exists {
            Some("mem overlaybd image config not found at "@ + mem)
        } else if !facts.rootfs.exists {
            Some("base rootfs not found at "@ + rootfs)
        } else if !facts.mem_image.is_file {
            Some("mem overlaybd image config path is not a file: "@ + mem)
        } else if !facts.rootfs.is_file {
            Some("base rootfs path is not a file: "@ + rootfs)
        } else {
            None
        }
    }
}

impl FirecrackerSnapshotConfig {
    /// Checks the files of a snapshot.
    pub fn validate_persisted_artifacts(&self, facts: &SnapshotFacts) -> (r: Result<(), Failure>)
        ensures
            failure::reports(r, snapshot_files_fault(*self, *facts)),
    {
        let size: u64 = match self.common.rootfs_virtual_size {
            Some(size) => size,
            None => {
                return Err(Failure::because("rootfs virtual size must be non-zero"));
            },
        };
        let rootfs = match &self.common.rootfs_image_config {
            Some(image) => image.image_config_path.as_str(),
            None => {
                return Err(Failure::because("base rootfs image config is missing"));
            },
        };
        let mem = self.mem_overlaybd_config.image_config_path.as_str();
        if size == 0 {
            return Err(Failure::because("rootfs virtual size must be non-zero"));
        }
        if !facts.vm_state_exists {
            return Err(
                Failure::new(
                    text::concat("vm state snapshot not found at ", self.vm_state_path.as_str()),
                ),
            );
        }
        if !facts.mem_image.exists {
            return Err(
                Failure::new(text::concat("mem overlaybd image config not found at ", mem)),
            );
        }
        if !facts.rootfs.exists {
            return Err(Failure::new(text::concat("base rootfs not found at ", rootfs)));
        }
        if !facts.mem_image.is_file {
            return Err(
                Failure::new(text::concat("mem overlaybd image config path is not a file: ", mem)),
            );
        }
        if !facts.rootfs.is_file {
            return Err(Failure::new(text::concat("base rootfs path is not a file: ", rootfs)));
        }
        Ok(())
    }

    /// Checks that a snapshot can be launched on a node.
    pub fn validate(&self, node: &NodeFacts, facts: &SnapshotFacts) -> (r: Result<(), Failure>)
        requires
            node.artifacts.drives@.len() == self.common.extra_drives@.len(),
        ensures
            failure::reports(
                r,
                failure::earliest(
                    node_fault(self.common, *node),
                    snapshot_files_fault(*self, *facts),
                ),
            ),
    {
        match self.common.validate(node) {
            Err(e) => Err(e),
            Ok(_) => self.validate_persisted_artifacts(facts),
        }
    }

    /// Checks the stored parts of a snapshot, and nothing of the node.
    pub fn validate_persisted(&self, artifacts: &ArtifactFacts, facts: &SnapshotFacts) -> (r: Result<
        (),
        Failure,
    >)
        requires
            artifacts.drives@.len() == self.common.extra_drives@.len(),
        ensures
            failure::reports(
                r,
                failure::earliest(
                    artifacts_fault(self.common, *artifacts),
                    snapshot_files_fault(*self, *facts),
                ),
            ),
    {
        match self.common.validate_persisted_artifacts(artifacts) {
            Err(e) => Err(e),
            Ok(_) => self.validate_persisted_artifacts(facts),
        }
    }
}

/// A snapshot that can be launched on a node has all its stored parts.
pub proof fn launchable_snapshots_are_complete(
    c: FirecrackerSnapshotConfig,
    node: NodeFacts,
    facts: SnapshotFacts,
)
    requires
        failure::earliest(node_fault(c.common, node), snapshot_files_fault(c, facts)) is None,
    ensures
        failure::earliest(
            artifacts_fault(c.common, node.artifacts),
            snapshot_files_fault(c, facts),
        ) is None,
{
}

} // verus!
