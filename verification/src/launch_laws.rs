//! What a launch rests on: everything that a virtual machine needs was found, and the
//! settings reach it as they were given.
use vstd::prelude::*;

use crate::env_vars::EnvVars;
use crate::launch_checks;
use crate::launch_checks::ArtifactFacts;
use crate::launch_checks::DriveFacts;
use crate::launch_checks::FirecrackerSnapshotConfig;
use crate::launch_checks::NodeFacts;
use crate::launch_checks::RunnableSnapshot;
use crate::launch_checks::SandboxFacts;
use crate::launch_checks::SnapshotFacts;
use crate::launch_config;
use crate::launch_config::AppConfig;
use crate::launch_config::ExtraDrive;
use crate::launch_config::FirecrackerCommonConfig;
use crate::launch_config::FirecrackerRuntimePolicy;
use crate::launch_config::FirecrackerSandboxConfig;
use crate::launch_config::TimeSpan;
use crate::paths;
use crate::text;
use crate::text_laws;

verus! {

/// Seconds are a thousand million nanoseconds and milliseconds a million, and what is
/// left of a second is less than one.
pub proof fn spans_last_as_long_as_they_say(secs: u64, millis: u64, span: TimeSpan)
    ensures
        TimeSpan::seconds(secs).total() == secs * 1000 * 1000 * 1000,
        TimeSpan::milliseconds(millis).total() == millis * 1000 * 1000,
        TimeSpan::seconds(secs).nanos < 1000000000,
        TimeSpan::milliseconds(millis).nanos < 1000000000,
        span.total() - span.nanos == span.secs * 1000 * 1000 * 1000,
{
}

/// A policy waits as long as the settings say: for the socket and for the guest's daemon
/// so many seconds, and between two attempts so many milliseconds.
pub proof fn policies_wait_as_long_as_the_settings_say(
    policy: FirecrackerRuntimePolicy,
    config: AppConfig,
)
    requires
        policy.of(config),
    ensures
        policy.socket_timeout.total() == config.socket_timeout_secs * 1000000000,
        policy.socket_poll_interval.total() == config.socket_poll_ms * 1000000,
        policy.envd_timeout.total() == config.envd_init_timeout_secs * 1000000000,
        policy.envd_poll_interval.total() == config.envd_poll_ms * 1000000,
        policy.socket_timeout.nanos < 1000000000,
        policy.socket_poll_interval.nanos < 1000000000,
        policy.envd_timeout.nanos < 1000000000,
        policy.envd_poll_interval.nanos < 1000000000,
{
}

/// Serial output goes to the directory that was set, seen from the current directory,
/// which has to be known exactly where the set one is relative.
pub proof fn serial_output_goes_to_the_directory_that_was_set(
    dir: Option<Seq<char>>,
    cwd: Option<Seq<char>>,
)
    ensures
        ({
            let relative = dir is Some && !(dir->0.len() > 0 && dir->0[0] == '/');
            let fault = launch_config::serial_dir_fault(dir, cwd);
            let found = launch_config::serial_dir(dir, cwd);
            &&& fault is Some <==> relative && cwd is None
            &&& fault is Some ==> fault->0 == "resolve serial output dir"@
            &&& fault is None ==> (found is Some <==> dir is Some)
            &&& found is Some && !relative ==> found == dir
            &&& found is Some && relative ==> found->0 == paths::join_of(cwd->0, dir->0)
        }),
{
}

/// A log level is what stands between whitespace, and there is none where nothing does.
pub proof fn log_levels_stand_between_whitespace(
    before: Seq<char>,
    level: Seq<char>,
    behind: Seq<char>,
)
    requires
        text_laws::all_white(before),
        text_laws::all_white(behind),
        level.len() > 0 ==> !text::white(level[0]) && !text::white(level[level.len() - 1]),
    ensures
        launch_config::effective_log_level(Some(before + level + behind)) == if level.len() > 0 {
            Some(level)
        } else {
            None
        },
        launch_config::effective_log_level(None) is None,
{
    let whole = before + level + behind;
    let cut = text_laws::trimming_takes_whitespace_off_both_ends(whole);
    let a = before.len() as int;
    let b = a + level.len();
    assert forall|i: int| 0 <= i < a implies text::white(#[trigger] whole[i]) by {
        assert(whole[i] == before[i]);
    }
    assert forall|i: int| b <= i < whole.len() implies text::white(#[trigger] whole[i]) by {
        assert(whole[i] == behind[i - b]);
    }
    if level.len() > 0 {
        assert(whole[a] == level[0]);
        assert(whole[b - 1] == level[level.len() - 1]);
        assert(cut.0 < cut.1);
        if a < cut.0 {
            assert(whole.take(cut.0)[a] == whole[a]);
        }
        if cut.1 < b {
            assert(whole.skip(cut.1)[b - 1 - cut.1] == whole[b - 1]);
        }
        assert(cut.0 == a && cut.1 == b);
        assert(text::trimmed(whole) =~= level);
    } else if cut.0 < cut.1 {
        assert(text::white(whole[cut.0]));
    }
}

/// After a launch a variable has the value that the launch gives it, else the one that
/// it had, and a launch without variables changes nothing.
pub proof fn variables_come_from_the_launch_first(
    base: Option<EnvVars>,
    launch: Option<EnvVars>,
    name: Seq<char>,
)
    ensures
        ({
            let after = launch_config::merged_env(base, launch);
            let given = launch is Some && launch->0@.dom().contains(name);
            let there = base is Some && base->0@.dom().contains(name);
            &&& after is Some && after->0.dom().contains(name) <==> given || there
            &&& given ==> after->0[name] == launch->0@[name]
            &&& there && !given ==> after->0[name] == base->0@[name]
            &&& launch is None ==> after == launch_config::env_map(base)
            &&& launch is Some && launch->0@.dom() == Set::<Seq<char>>::empty() ==> after
                == launch_config::env_map(base)
        }),
        launch_config::env_map(base) == (match base {
            Some(env) => Some(env@),
            None => None,
        }),
{
    if launch is Some && launch->0@.dom() == Set::<Seq<char>>::empty() {
        assert(launch->0@ =~= Map::<Seq<char>, Seq<char>>::empty());
    }
}

/// A drive whose name and mount path are in order and not those of an earlier drive,
/// which has room, and whose image is there.
pub open spec fn mountable(drives: Seq<ExtraDrive>, facts: Seq<DriveFacts>, i: int) -> bool {
    &&& facts[i].id_fault is None
    &&& facts[i].mount_fault is None
    &&& facts[i].image_exists
    &&& drives[i]->virtual_size matches Some(size) ==> size > 0
    &&& forall|j: int|
        0 <= j < i ==> (#[trigger] drives[j])->drive_id@ != drives[i]->drive_id@
            && paths::components(drives[j]->mount_path@) != paths::components(
            drives[i]->mount_path@,
        )
}

/// Drives are accepted exactly where they are at most 24 and each can be mounted.
pub proof fn drives_are_accepted_where_they_can_be_mounted(
    drives: Seq<ExtraDrive>,
    facts: Seq<DriveFacts>,
)
    ensures
        launch_checks::drives_fault(drives, facts) is None <==> {
            &&& drives.len() <= 24
            &&& forall|i: int| 0 <= i < drives.len() ==> #[trigger] mountable(drives, facts, i)
        },
{
    let n = drives.len() as int;
    let at = lemma_first_bad_drive(drives, facts, n);
    if launch_checks::first_drive_fault(drives, facts, n) is Some {
        lemma_mountable(drives, facts, at);
        assert(!mountable(drives, facts, at));
    } else {
        assert forall|i: int| 0 <= i < n implies #[trigger] mountable(drives, facts, i) by {
            lemma_mountable(drives, facts, i);
        }
    }
}

proof fn lemma_mountable(drives: Seq<ExtraDrive>, facts: Seq<DriveFacts>, i: int)
    requires
        0 <= i < drives.len(),
    ensures
        mountable(drives, facts, i) <==> launch_checks::drive_fault(drives, facts, i) is None,
{
    let d = drives[i];
    if launch_checks::id_taken(drives, i, d->drive_id@) {
        let k = choose|k: int|
            0 <= k < i && launch_checks::id_of(#[trigger] drives[k]) == d->drive_id@;
        assert(drives[k]->drive_id@ == d->drive_id@);
    }
    if launch_checks::mount_taken(drives, i, d->mount_path@) {
        let k = choose|k: int|
            0 <= k < i && paths::components(launch_checks::mount_of(#[trigger] drives[k]))
                == paths::components(d->mount_path@);
        assert(paths::components(drives[k]->mount_path@) == paths::components(d->mount_path@));
    }
    if launch_checks::drive_fault(drives, facts, i) is None {
        assert forall|j: int| 0 <= j < i implies (#[trigger] drives[j])->drive_id@ != d->drive_id@
            && paths::components(drives[j]->mount_path@) != paths::components(d->mount_path@) by {
            assert(launch_checks::id_of(drives[j]) == drives[j]->drive_id@);
            assert(launch_checks::mount_of(drives[j]) == drives[j]->mount_path@);
        }
    }
}

proof fn lemma_first_bad_drive(drives: Seq<ExtraDrive>, facts: Seq<DriveFacts>, n: int) -> (at: int)
    requires
        0 <= n <= drives.len(),
    ensures
        0 <= at <= n,
        forall|i: int|
            0 <= i < at ==> #[trigger] launch_checks::drive_fault(drives, facts, i) is None,
        at < n ==> launch_checks::drive_fault(drives, facts, at) is Some
            && launch_checks::first_drive_fault(drives, facts, n) == launch_checks::drive_fault(
            drives,
            facts,
            at,
        ),
        at == n ==> launch_checks::first_drive_fault(drives, facts, n) is None,
    decreases n,
{
    if n == 0 {
        0
    } else {
        let at = lemma_first_bad_drive(drives, facts, n - 1);
        if at < n - 1 {
            at
        } else if launch_checks::drive_fault(drives, facts, n - 1) is Some {
            at
        } else {
            n
        }
    }
}

/// A refusal of drives is about the first that cannot be mounted, and says what was
/// found wrong with it or names what is wrong with it.
pub proof fn refusals_of_drives_are_about_the_first_bad_one(
    drives: Seq<ExtraDrive>,
    facts: Seq<DriveFacts>,
    at: int,
)
    requires
        drives.len() <= 24,
        0 <= at < drives.len(),
        forall|i: int| 0 <= i < at ==> #[trigger] mountable(drives, facts, i),
        !mountable(drives, facts, at),
    ensures
        ({
            let said = launch_checks::drives_fault(drives, facts)->0;
            let d = drives[at];
            let f = facts[at];
            let again = exists|j: int|
                0 <= j < at && (#[trigger] drives[j])->drive_id@ == d->drive_id@;
            &&& launch_checks::drives_fault(drives, facts) is Some
            &&& f.id_fault matches Some(words) ==> said == words@
            &&& f.id_fault is None && again ==> said == "duplicate extra drive id: "@
                + d->drive_id@
            &&& f.id_fault is None && !again ==> {
                ||| f.mount_fault is Some && said == f.mount_fault->0@
                ||| f.mount_fault is None && said == "duplicate extra drive mount path: "@
                    + d->mount_path@
                ||| f.mount_fault is None && d->virtual_size == Some(0u64) && said
                    == "extra drive virtual size must be non-zero: "@ + d->drive_id@
                ||| f.mount_fault is None && !f.image_exists && !(d->virtual_size == Some(0u64))
                    && said == "overlaybd image config not found at "@ + d->image_config_path@
            }
        }),
{
    let n = drives.len() as int;
    let bad = lemma_first_bad_drive(drives, facts, n);
    lemma_mountable(drives, facts, at);
    if bad < at {
        lemma_mountable(drives, facts, bad);
        assert(mountable(drives, facts, bad));
    }
    if at < bad {
        assert(launch_checks::drive_fault(drives, facts, at) is None);
    }
    let d = drives[at];
    let again = exists|j: int| 0 <= j < at && (#[trigger] drives[j])->drive_id@ == d->drive_id@;
    if again {
        let j = choose|j: int| 0 <= j < at && (#[trigger] drives[j])->drive_id@ == d->drive_id@;
        assert(launch_checks::id_of(drives[j]) == d->drive_id@);
        assert(launch_checks::id_taken(drives, at, d->drive_id@));
    } else if launch_checks::id_taken(drives, at, d->drive_id@) {
        let k = choose|k: int|
            0 <= k < at && launch_checks::id_of(#[trigger] drives[k]) == d->drive_id@;
        assert(drives[k]->drive_id@ == d->drive_id@);
    }
}

/// More than 24 drives are refused, whatever is found out about them, with their number.
pub proof fn too_many_drives_are_refused(drives: Seq<ExtraDrive>, facts: Seq<DriveFacts>)
    requires
        drives.len() > 24,
    ensures
        launch_checks::drives_fault(drives, facts) == Some(
            "too many extra drives: "@ + text::decimal(drives.len())
                + " configured, but at most 24 are supported (/dev/vdc..=/dev/vdz)"@,
        ),
{
}

/// The stored parts of a configuration are all there.
pub open spec fn stored(c: FirecrackerCommonConfig, facts: ArtifactFacts) -> bool {
    &&& launch_checks::drives_fault(c.extra_drives@, facts.drives@) is None
    &&& c.rootfs_virtual_size matches Some(size) ==> size > 0
    &&& c.ublk_config is Some ==> facts.ublk_image_exists
}

/// A node that can run a configuration: it runs Linux, has the monitor, and keeps the
/// release of the tools drive, which the configuration names, as a file.
pub open spec fn equipped(c: FirecrackerCommonConfig, facts: NodeFacts) -> bool {
    &&& !text_laws::all_white(c.tools_drive_version@)
    &&& facts.tools_drive_path is Some
    &&& facts.linux
    &&& facts.firecracker_binary_exists
    &&& facts.tools_drive.exists
    &&& facts.tools_drive.is_file
}

proof fn lemma_blank(s: Seq<char>)
    ensures
        text::blank(s) <==> text_laws::all_white(s),
{
    let cut = text_laws::trimming_takes_whitespace_off_both_ends(s);
    if cut.0 < cut.1 {
        assert(!text::white(s[cut.0]));
        assert(text::trimmed(s).len() > 0);
    } else {
        assert(text::trimmed(s).len() == 0);
    }
}

/// A fresh virtual machine can be launched exactly where the node is equipped, all stored
/// parts are there, and so are the kernel and, as a file, the user's image.
pub proof fn fresh_machines_are_launched_where_all_is_there(
    c: FirecrackerSandboxConfig,
    facts: SandboxFacts,
)
    ensures
        launch_checks::artifacts_fault(c.common, facts.node.artifacts) is None <==> stored(
            c.common,
            facts.node.artifacts,
        ),
        launch_checks::node_fault(c.common, facts.node) is None <==> {
            &&& equipped(c.common, facts.node)
            &&& stored(c.common, facts.node.artifacts)
        },
        launch_checks::sandbox_fault(c, facts) is None <==> {
            &&& equipped(c.common, facts.node)
            &&& stored(c.common, facts.node.artifacts)
            &&& facts.kernel_image_exists
            &&& c.common.rootfs_image_config is Some
            &&& facts.user_image.exists
            &&& facts.user_image.is_file
        },
{
    lemma_blank(c.common.tools_drive_version@);
}

/// The files of a snapshot: its state is there, its memory and its root image are files,
/// and the root image has a size.
pub open spec fn kept(c: FirecrackerSnapshotConfig, facts: SnapshotFacts) -> bool {
    &&& facts.vm_state_exists
    &&& facts.mem_image.exists && facts.mem_image.is_file
    &&& facts.rootfs.exists && facts.rootfs.is_file
    &&& c.common.rootfs_image_config is Some
    &&& c.common.rootfs_virtual_size matches Some(size) && size > 0
}

/// A snapshot's files are in order exactly where all of them were kept, and a snapshot
/// fits a node exactly where it was made in the node's mode and names its tools drive.
pub proof fn snapshots_are_launched_where_all_was_kept(
    c: FirecrackerSnapshotConfig,
    facts: SnapshotFacts,
    snapshot: RunnableSnapshot,
    config: AppConfig,
)
    ensures
        launch_checks::snapshot_files_fault(c, facts) is None <==> kept(c, facts),
        launch_checks::snapshot_fault(snapshot, config) is None <==> {
            &&& snapshot.virtualization_mode@ == config.virtualization_mode@
            &&& !text_laws::all_white(snapshot.tools_drive_version@)
        },
{
    lemma_blank(snapshot.tools_drive_version@);
}

/// A configuration that lacks one thing only is refused with the name of that thing.
pub proof fn refused_launches_name_what_is_missing(
    c: FirecrackerSandboxConfig,
    facts: SandboxFacts,
)
    requires
        !text_laws::all_white(c.common.tools_drive_version@),
        facts.node.tools_drive_path is Some,
    ensures
        ({
            let version = c.common.tools_drive_version@;
            let path = facts.node.tools_drive_path->0@;
            let image = c.common.rootfs_image_config->0.image_config_path@;
            let said = launch_checks::sandbox_fault(c, facts);
            let fit = equipped(c.common, facts.node) && stored(c.common, facts.node.artifacts);
            &&& !facts.node.linux ==> said == Some("Firecracker requires a Linux host"@)
            &&& facts.node.linux && !facts.node.firecracker_binary_exists ==> said == Some(
                "firecracker binary not found at "@ + c.common.firecracker_binary@,
            )
            &&& facts.node.linux && facts.node.firecracker_binary_exists
                && !facts.node.tools_drive.exists ==> said == Some(
                "tools drive version '"@ + version
                    + "' is not installed on this node; resolved path: "@ + path
                    + "; dependency root: "@ + facts.node.deps_path@
                    + "; install this immutable release before launching the sandbox"@,
            )
            &&& facts.node.linux && facts.node.firecracker_binary_exists
                && facts.node.tools_drive.exists && !facts.node.tools_drive.is_file ==> said
                == Some(
                "tools drive version '"@ + version + "' resolved to a non-file path: "@ + path,
            )
            &&& equipped(c.common, facts.node) && !stored(c.common, facts.node.artifacts) ==> said
                == launch_checks::artifacts_fault(c.common, facts.node.artifacts)
            &&& fit && !facts.kernel_image_exists ==> said == Some(
                "kernel image not found at "@ + c.kernel_image@,
            )
            &&& fit && facts.kernel_image_exists && c.common.rootfs_image_config is None ==> said
                == Some("user image overlaybd config is missing"@)
            &&& fit && facts.kernel_image_exists && c.common.rootfs_image_config is Some
                && !facts.user_image.exists ==> said == Some(
                "user image overlaybd config not found at "@ + image,
            )
            &&& fit && facts.kernel_image_exists && c.common.rootfs_image_config is Some
                && facts.user_image.exists && !facts.user_image.is_file ==> said == Some(
                "user image overlaybd config path is not a file: "@ + image,
            )
        }),
{
    lemma_blank(c.common.tools_drive_version@);
    fresh_machines_are_launched_where_all_is_there(c, facts);
}

/// What is said of stored parts that are not in order: of the drives first, of the size
/// of the root image next, and then of the image of the block device, by its path.
pub proof fn refused_parts_are_named(c: FirecrackerCommonConfig, facts: ArtifactFacts)
    ensures
        ({
            let drives = launch_checks::drives_fault(c.extra_drives@, facts.drives@);
            let said = launch_checks::artifacts_fault(c, facts);
            let empty = c.rootfs_virtual_size == Some(0u64);
            &&& drives is Some ==> said == drives
            &&& drives is None && empty ==> said == Some("rootfs virtual size must be non-zero"@)
            &&& drives is None && !empty && c.ublk_config is Some && !facts.ublk_image_exists
                ==> said == Some(
                "overlaybd image config not found at "@
                    + c.ublk_config->0.backend->Overlaybd_0.image_config_path@,
            )
        }),
{
}

/// The release of the tools drive has to be named and known to the node, and where it is
/// not the words say which.
pub proof fn tools_drives_are_named_and_known(
    version: Seq<char>,
    resolved: Option<Seq<char>>,
    deps_path: Seq<char>,
)
    ensures
        ({
            let said = launch_checks::tools_path_fault(version, resolved, deps_path);
            let named = !text_laws::all_white(version);
            &&& said is None <==> named && resolved is Some
            &&& !named ==> said == Some(
                "sandbox state does not record a tools drive version; migrate its persisted metadata before resuming it"@,
            )
            &&& named && resolved is None ==> said == Some(
                "resolve tools drive version '"@ + version + "' under dependency root "@
                    + deps_path,
            )
        }),
{
    lemma_blank(version);
}

/// A snapshot that lacks one thing only is refused with the name of that thing.
pub proof fn refused_snapshots_name_what_is_missing(
    c: FirecrackerSnapshotConfig,
    facts: SnapshotFacts,
)
    requires
        c.common.rootfs_image_config is Some,
        c.common.rootfs_virtual_size matches Some(size) && size > 0,
    ensures
        ({
            let said = launch_checks::snapshot_files_fault(c, facts);
            let mem = c.mem_overlaybd_config.image_config_path@;
            let rootfs = c.common.rootfs_image_config->0.image_config_path@;
            let there = facts.vm_state_exists && facts.mem_image.exists && facts.rootfs.exists;
            &&& !facts.vm_state_exists ==> said == Some(
                "vm state snapshot not found at "@ + c.vm_state_path@,
            )
            &&& facts.vm_state_exists && !facts.mem_image.exists ==> said == Some(
                "mem overlaybd image config not found at "@ + mem,
            )
            &&& facts.vm_state_exists && facts.mem_image.exists && !facts.rootfs.exists ==> said
                == Some("base rootfs not found at "@ + rootfs)
            &&& there && !facts.mem_image.is_file ==> said == Some(
                "mem overlaybd image config path is not a file: "@ + mem,
            )
            &&& there && facts.mem_image.is_file && !facts.rootfs.is_file ==> said == Some(
                "base rootfs path is not a file: "@ + rootfs,
            )
        }),
{
}

/// A snapshot of another mode is refused with both modes, and one that names no tools
/// drive with words of its own.
pub proof fn snapshots_of_another_mode_are_named(snapshot: RunnableSnapshot, config: AppConfig)
    ensures
        snapshot.virtualization_mode@ != config.virtualization_mode@
            ==> launch_checks::snapshot_fault(snapshot, config) == Some(
            "snapshot '"@ + snapshot.id@ + "' uses virtualization mode '"@
                + snapshot.virtualization_mode@ + "', but this node runs in mode '"@
                + config.virtualization_mode@ + "'"@,
        ),
        snapshot.virtualization_mode@ == config.virtualization_mode@
            && text_laws::all_white(snapshot.tools_drive_version@)
            ==> launch_checks::snapshot_fault(snapshot, config) == Some(
            "snapshot does not record a tools drive version; migrate its metadata before launching it"@,
        ),
{
    lemma_blank(snapshot.tools_drive_version@);
}

} // verus!
