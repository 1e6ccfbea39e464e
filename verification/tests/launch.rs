use agentenv::env_vars::EnvVars;
use agentenv::failure::Failure;
use agentenv::launch_checks::validate_overlaybd_extra_drive_set;
use agentenv::launch_checks::ArtifactFacts;
use agentenv::launch_checks::DriveFacts;
use agentenv::launch_checks::FirecrackerSnapshotConfig;
use agentenv::launch_checks::NodeFacts;
use agentenv::launch_checks::PathFacts;
use agentenv::launch_checks::RunnableSnapshot;
use agentenv::launch_checks::SandboxFacts;
use agentenv::launch_checks::SnapshotFacts;
use agentenv::launch_config::AppConfig;
use agentenv::launch_config::CommonDefaults;
use agentenv::launch_config::ExtraDrive;
use agentenv::launch_config::FirecrackerCommonConfig;
use agentenv::launch_config::FirecrackerRuntimePolicy;
use agentenv::launch_config::FirecrackerSandboxConfig;
use agentenv::launch_config::MmdsMetadata;
use agentenv::launch_config::OverlaybdConfig;
use agentenv::launch_config::SandboxLaunchConfig;
use agentenv::launch_config::TimeSpan;
use agentenv::launch_config::UblkBackend;
use agentenv::launch_config::DEFAULT_BOOT_ARGS;
use agentenv::launch_config::MAX_EXTRA_DRIVES;
use agentenv::overlaybd_config::UpperMode;

fn s(text: &str) -> String {
    text.to_string()
}

const THERE: PathFacts = PathFacts {
    exists: true,
    is_file: true,
};

const GONE: PathFacts = PathFacts {
    exists: false,
    is_file: false,
};

const DIRECTORY: PathFacts = PathFacts {
    exists: true,
    is_file: false,
};

fn base_app_config() -> AppConfig {
    AppConfig {
        socket_timeout_secs: 5,
        socket_poll_ms: 1500,
        envd_init_timeout_secs: 60,
        envd_poll_ms: 50,
        firecracker_binary: s("firecracker"),
        kernel_image: s("vmlinux.bin"),
        tools_version: s("0.1.0"),
        envd_version: s("0.2.0"),
        disk_rate_limit: s("{}"),
        track_dirty_pages: false,
        allow_shrink: true,
        overlaybd_read_only: false,
        runtime_upper_mode: UpperMode::LogStructured,
        control_plane_port: 49983,
        work_dir: None,
        serial_dir: None,
        log_level: None,
        boot_args: None,
        vcpu_count: 2,
        mem_size_mib: 512,
        virtualization_mode: s("kvm"),
    }
}

fn defaults() -> CommonDefaults {
    CommonDefaults {
        envd_version: s("0.0.1"),
        control_plane_port: 1,
        disk_rate_limit: s("none"),
    }
}

fn common() -> FirecrackerCommonConfig {
    FirecrackerCommonConfig::new(
        s("firecracker"),
        s("0.1.0"),
        FirecrackerRuntimePolicy::from_app_config(&base_app_config()),
        &defaults(),
    )
}

fn drive(id: &str, mount: &str) -> ExtraDrive {
    ExtraDrive::Overlaybd {
        drive_id: s(id),
        image_config_path: format!("/img/{id}.json"),
        read_only: true,
        mount_path: s(mount),
        virtual_size: None,
        sub_path: None,
    }
}

fn fine() -> DriveFacts {
    DriveFacts {
        id_fault: None,
        mount_fault: None,
        image_exists: true,
    }
}

fn stored(drives: usize) -> ArtifactFacts {
    ArtifactFacts {
        drives: (0..drives).map(|_| fine()).collect(),
        ublk_image_exists: true,
    }
}

fn node() -> NodeFacts {
    NodeFacts {
        tools_drive_path: Some(s("/deps/tools/0.1.0.ext4")),
        tools_drive: THERE,
        deps_path: s("/deps"),
        linux: true,
        firecracker_binary_exists: true,
        artifacts: stored(0),
    }
}

fn snapshot(tools_drive_version: &str, mode: &str) -> RunnableSnapshot {
    RunnableSnapshot {
        id: s("snap-1"),
        virtualization_mode: s(mode),
        tools_drive_version: s(tools_drive_version),
        envd_version: s("0.3.0"),
        env_vars: EnvVars::new(),
        workdir: s("/work"),
        user: Some(s("root")),
        rootfs_image_config_path: s("/snap/rootfs/image.json"),
        rootfs_virtual_size: 4096,
        extra_drives: vec![drive("data", "/mnt/data")],
        mem_image_config_path: s("/snap/mem_image.json"),
        mem_virtual_size: 8192,
        vm_state_path: s("/snap/vm_state.bin"),
    }
}

#[test]
fn resolve_serial_output_path_resolves_relative_directory() {
    let output = FirecrackerCommonConfig::resolve_serial_output_dir(
        Some(s("serial-output")),
        Some("/tmp/here"),
    )
    .expect("current directory is known")
    .expect("serial path should be present");
    assert_eq!(output, "/tmp/here/serial-output");

    assert_eq!(
        FirecrackerCommonConfig::resolve_serial_output_dir(Some(s("/abs")), None),
        Ok(Some(s("/abs")))
    );
    assert_eq!(
        FirecrackerCommonConfig::resolve_serial_output_dir(None, None),
        Ok(None)
    );
    assert_eq!(
        FirecrackerCommonConfig::resolve_serial_output_dir(Some(s("rel")), None),
        Err(Failure::because("resolve serial output dir"))
    );
}

#[test]
fn from_app_config_does_not_bind_ublk_without_user_image() {
    let mut config = base_app_config();
    config.overlaybd_read_only = true;
    let common_config =
        FirecrackerCommonConfig::from_app_config(&config, &defaults(), None).expect("valid");
    assert!(common_config.ublk_config.is_none());
}

#[test]
fn settings_of_the_node_reach_the_configuration() {
    let mut config = base_app_config();
    config.log_level = Some(s("  Debug \n"));
    config.serial_dir = Some(s("serial"));
    config.work_dir = Some(s("/work"));
    let common =
        FirecrackerCommonConfig::from_app_config(&config, &defaults(), Some("/cwd")).expect("ok");
    assert_eq!(common.firecracker_log_level, Some(s("Debug")));
    assert_eq!(common.serial_output_base_dir, Some(s("/cwd/serial")));
    assert_eq!(common.firecracker_work_base_dir, Some(s("/work")));
    assert_eq!(common.envd_version, "0.2.0");
    assert_eq!(common.control_plane_port, 49983);
    assert_eq!(common.disk_rate_limit, "{}");
    assert!(!common.track_dirty_pages);
    assert!(common.rootfs_allow_shrink);
    assert_eq!(common.runtime_policy.socket_timeout, TimeSpan::from_secs(5));
    assert_eq!(
        common.runtime_policy.socket_poll_interval,
        TimeSpan {
            secs: 1,
            nanos: 500_000_000
        }
    );
    assert_eq!(
        common.runtime_policy.envd_poll_interval,
        TimeSpan::from_millis(50)
    );
    config.log_level = Some(s(" \t"));
    let common =
        FirecrackerCommonConfig::from_app_config(&config, &defaults(), Some("/cwd")).expect("ok");
    assert_eq!(common.firecracker_log_level, None);
    assert!(FirecrackerCommonConfig::from_app_config(&config, &defaults(), None).is_err());
    let plain = FirecrackerCommonConfig::new(
        s("f"),
        s("v"),
        FirecrackerRuntimePolicy::from_app_config(&config),
        &defaults(),
    );
    assert!(plain.track_dirty_pages);
    assert_eq!(plain.envd_version, "0.0.1");
    assert_eq!(plain.disk_rate_limit, "none");
}

#[test]
fn lengths_of_time() {
    assert_eq!(TimeSpan::from_millis(1234).as_millis(), 1234);
    assert_eq!(
        TimeSpan {
            secs: 2,
            nanos: 999_999
        }
        .as_millis(),
        2000
    );
    assert!(TimeSpan::from_millis(31).is_longer_than(&TimeSpan::from_millis(30)));
    assert!(!TimeSpan::from_millis(30).is_longer_than(&TimeSpan::from_millis(30)));
}

#[test]
fn sandbox_config_binds_overlaybd_to_user_image() {
    let mut config = base_app_config();
    config.overlaybd_read_only = false;
    config.runtime_upper_mode = UpperMode::Sparse;

    let sandbox_config = FirecrackerSandboxConfig::from_app_config_with_user_image(
        &config,
        &defaults(),
        None,
        OverlaybdConfig {
            image_config_path: s("custom-image.json"),
            read_only: false,
            runtime_upper_mode: UpperMode::LogStructured,
        },
    )
    .expect("valid");
    match sandbox_config
        .common
        .ublk_config
        .as_ref()
        .map(|cfg| &cfg.backend)
    {
        Some(UblkBackend::Overlaybd(overlaybd)) => {
            assert_eq!(overlaybd.image_config_path, "custom-image.json");
            assert!(!overlaybd.read_only);
            assert_eq!(overlaybd.runtime_upper_mode, UpperMode::Sparse);
        }
        other => panic!("expected overlaybd backend, got {other:?}"),
    }
    assert_eq!(sandbox_config.boot_args.as_deref(), Some(DEFAULT_BOOT_ARGS));
    assert_eq!(sandbox_config.kernel_image, "vmlinux.bin");
    assert_eq!(sandbox_config.vcpu_count, 2);
    assert_eq!(sandbox_config.mem_size_mib, 512);
}

#[test]
fn boot_arguments_where_none_are_configured() {
    assert_eq!(
        DEFAULT_BOOT_ARGS,
        "\
    console=ttyS0 reboot=k panic=1 pci=off \
    damon_reclaim.enabled=Y \
    damon_reclaim.min_age=60000000 \
    damon_reclaim.quota_ms=100 \
    damon_reclaim.quota_sz=1073741824 \
    damon_reclaim.quota_reset_interval_ms=1000 \
    damon_reclaim.wmarks_high=900 \
    damon_reclaim.wmarks_mid=700 \
    damon_reclaim.wmarks_low=200 \
    damon_reclaim.skip_anon=Y \
    damon_reclaim.wmarks_interval=5000000"
    );
    assert_eq!(MAX_EXTRA_DRIVES, (b'z' - b'c' + 1) as usize);
}

#[test]
fn validate_rejects_duplicate_extra_drive_ids() {
    let mut config = common();
    config.extra_drives = vec![drive("data", "/mnt/data"), drive("data", "/mnt/data")];
    let err = config
        .validate_persisted_artifacts(&stored(2))
        .expect_err("duplicate extra drive ids should fail");
    assert!(err.message.contains("duplicate extra drive id"));
    assert_eq!(err.message, "duplicate extra drive id: data");
}

#[test]
fn validate_rejects_too_many_extra_drives() {
    let mut config = common();
    config.extra_drives = (0..=MAX_EXTRA_DRIVES)
        .map(|i| drive(&format!("data-{i}"), &format!("/mnt/data-{i}")))
        .collect();
    let err = config
        .validate_persisted_artifacts(&stored(MAX_EXTRA_DRIVES + 1))
        .expect_err("too many extra drives should fail");
    assert!(err.message.contains("too many extra drives"));
    assert_eq!(
        err.message,
        "too many extra drives: 25 configured, but at most 24 are supported (/dev/vdc..=/dev/vdz)"
    );
    config.extra_drives.pop();
    assert!(config
        .validate_persisted_artifacts(&stored(MAX_EXTRA_DRIVES))
        .is_ok());
}

#[test]
fn every_fault_of_a_drive_has_its_message() {
    let check = |drives: Vec<ExtraDrive>, facts: Vec<DriveFacts>| {
        validate_overlaybd_extra_drive_set(&drives, &facts)
            .unwrap_err()
            .message
    };
    let mut bad_id = fine();
    bad_id.id_fault = Some(s("bad id"));
    assert_eq!(check(vec![drive("a", "/a")], vec![bad_id]), "bad id");
    let mut bad_mount = fine();
    bad_mount.mount_fault = Some(s("bad mount"));
    assert_eq!(check(vec![drive("a", "a")], vec![bad_mount]), "bad mount");
    assert_eq!(
        check(
            vec![drive("a", "/m"), drive("b", "/m/.")],
            vec![fine(), fine()]
        ),
        "duplicate extra drive mount path: /m/."
    );
    let mut missing = fine();
    missing.image_exists = false;
    assert_eq!(
        check(vec![drive("a", "/a")], vec![missing]),
        "overlaybd image config not found at /img/a.json"
    );
    let empty = ExtraDrive::Overlaybd {
        drive_id: s("a"),
        image_config_path: s("/i"),
        read_only: false,
        mount_path: s("/a"),
        virtual_size: Some(0),
        sub_path: None,
    };
    assert_eq!(
        check(vec![empty], vec![fine()]),
        "extra drive virtual size must be non-zero: a"
    );
}

#[test]
fn every_fault_of_a_node_has_its_message() {
    let check = |change: fn(&mut FirecrackerCommonConfig, &mut NodeFacts)| {
        let mut config = common();
        let mut facts = node();
        change(&mut config, &mut facts);
        config.validate(&facts).unwrap_err().message
    };
    assert_eq!(
        check(|c, _| c.tools_drive_version = " ".to_string()),
        "sandbox state does not record a tools drive version; migrate its persisted metadata before resuming it"
    );
    assert_eq!(
        check(|_, f| f.tools_drive_path = None),
        "resolve tools drive version '0.1.0' under dependency root /deps"
    );
    assert_eq!(
        check(|_, f| f.linux = false),
        "Firecracker requires a Linux host"
    );
    assert_eq!(
        check(|_, f| f.firecracker_binary_exists = false),
        "firecracker binary not found at firecracker"
    );
    assert_eq!(
        check(|_, f| f.tools_drive = GONE),
        "tools drive version '0.1.0' is not installed on this node; resolved path: /deps/tools/0.1.0.ext4; dependency root: /deps; install this immutable release before launching the sandbox"
    );
    assert_eq!(
        check(|_, f| f.tools_drive = DIRECTORY),
        "tools drive version '0.1.0' resolved to a non-file path: /deps/tools/0.1.0.ext4"
    );
    assert_eq!(
        check(|c, _| c.rootfs_virtual_size = Some(0)),
        "rootfs virtual size must be non-zero"
    );
    assert!(common().validate(&node()).is_ok());
    assert_eq!(
        common().resolved_tools_drive_path(&Some(s("/t")), "/deps"),
        Ok(s("/t"))
    );
}

#[test]
fn every_fault_of_a_sandbox_has_its_message() {
    let config = FirecrackerSandboxConfig::new(
        s("firecracker"),
        s("vmlinux"),
        s("0.1.0"),
        s("/img/user.json"),
        &base_app_config(),
        &defaults(),
    );
    let facts = |kernel: bool, image: PathFacts| SandboxFacts {
        node: node(),
        kernel_image_exists: kernel,
        user_image: image,
    };
    assert!(config.validate(&facts(true, THERE)).is_ok());
    assert_eq!(
        config.validate(&facts(false, THERE)).unwrap_err().message,
        "kernel image not found at vmlinux"
    );
    assert_eq!(
        config.validate(&facts(true, GONE)).unwrap_err().message,
        "user image overlaybd config not found at /img/user.json"
    );
    assert_eq!(
        config
            .validate(&facts(true, DIRECTORY))
            .unwrap_err()
            .message,
        "user image overlaybd config path is not a file: /img/user.json"
    );
    let mut bound = config;
    bound.common.rootfs_image_config = None;
    assert_eq!(
        bound.validate(&facts(true, THERE)).unwrap_err().message,
        "user image overlaybd config is missing"
    );
    let sandbox = FirecrackerSandboxConfig::from_app_config_with_user_image(
        &base_app_config(),
        &defaults(),
        None,
        OverlaybdConfig {
            image_config_path: s("/img/u.json"),
            read_only: true,
            runtime_upper_mode: UpperMode::LogStructured,
        },
    )
    .expect("valid");
    let mut lost = facts(true, THERE);
    lost.node.artifacts.ublk_image_exists = false;
    assert_eq!(
        sandbox.validate(&lost).unwrap_err().message,
        "overlaybd image config not found at /img/u.json"
    );
}

#[test]
fn snapshot_persisted_validation_checks_each_required_artifact() {
    let mut common = FirecrackerSandboxConfig::new(
        s("firecracker"),
        s("vmlinux"),
        s("0.1.0"),
        s("/t/rootfs.ext4"),
        &base_app_config(),
        &defaults(),
    )
    .common;
    common.rootfs_virtual_size = Some(0);
    let mut snapshot = FirecrackerSnapshotConfig {
        common,
        vm_state_path: s("/t/vm_state.bin"),
        mem_overlaybd_config: OverlaybdConfig {
            image_config_path: s("/t/mem_image.json"),
            read_only: true,
            runtime_upper_mode: UpperMode::LogStructured,
        },
        mem_virtual_size: 4096,
        base_mem_image_config_path: None,
    };
    let mut facts = SnapshotFacts {
        vm_state_exists: false,
        mem_image: GONE,
        rootfs: GONE,
    };
    let none = stored(0);

    let err = snapshot
        .validate_persisted(&none, &facts)
        .expect_err("rootfs virtual size must be non-zero");
    assert!(err.message.contains("rootfs virtual size must be non-zero"));

    snapshot.common.rootfs_virtual_size = Some(4096);
    let err = snapshot
        .validate_persisted(&none, &facts)
        .expect_err("missing vm state snapshot");
    assert!(err.message.contains("vm state snapshot not found"));

    facts.vm_state_exists = true;
    let err = snapshot
        .validate_persisted(&none, &facts)
        .expect_err("missing mem image config");
    assert!(err.message.contains("mem overlaybd image config not found"));

    facts.mem_image = THERE;
    let err = snapshot
        .validate_persisted(&none, &facts)
        .expect_err("missing rootfs");
    assert!(err.message.contains("base rootfs not found"));

    facts.rootfs = THERE;
    snapshot.validate_persisted(&none, &facts).expect("complete");
    snapshot.validate(&node(), &facts).expect("launchable");

    facts.mem_image = DIRECTORY;
    assert_eq!(
        snapshot
            .validate_persisted_artifacts(&facts)
            .unwrap_err()
            .message,
        "mem overlaybd image config path is not a file: /t/mem_image.json"
    );
    facts.mem_image = THERE;
    facts.rootfs = DIRECTORY;
    assert_eq!(
        snapshot
            .validate_persisted_artifacts(&facts)
            .unwrap_err()
            .message,
        "base rootfs path is not a file: /t/rootfs.ext4"
    );
    snapshot.common.rootfs_image_config = None;
    assert_eq!(
        snapshot
            .validate_persisted_artifacts(&facts)
            .unwrap_err()
            .message,
        "base rootfs image config is missing"
    );
    snapshot.common.rootfs_virtual_size = None;
    assert_eq!(
        snapshot
            .validate_persisted_artifacts(&facts)
            .unwrap_err()
            .message,
        "rootfs virtual size must be non-zero"
    );
}

#[test]
fn runnable_snapshot_uses_its_tools_drive_version() {
    let snapshot_version = "9.9.9";
    let config = FirecrackerSnapshotConfig::from_runnable_snapshot(
        &base_app_config(),
        &defaults(),
        None,
        snapshot(snapshot_version, "kvm"),
    )
    .expect("launchable");
    assert_eq!(config.common.tools_drive_version, snapshot_version);
    assert_eq!(config.common.envd_version, "0.3.0");
    assert!(config.common.env_vars.is_none());
    assert!(config.common.cpu_config_json.is_none());
    assert_eq!(config.common.default_workdir, Some(s("/work")));
    assert_eq!(config.common.rootfs_virtual_size, Some(4096));
    assert_eq!(config.common.extra_drives, vec![drive("data", "/mnt/data")]);
    assert!(config.mem_overlaybd_config.read_only);
    assert_eq!(config.mem_virtual_size, 8192);
    assert_eq!(config.vm_state_path, "/snap/vm_state.bin");
}

#[test]
fn runnable_snapshot_without_tools_drive_version_is_not_launchable() {
    let err = FirecrackerSnapshotConfig::from_runnable_snapshot(
        &base_app_config(),
        &defaults(),
        None,
        snapshot("", "kvm"),
    )
    .expect_err("legacy snapshot must not launch without a tools drive version");
    assert!(err
        .message
        .contains("snapshot does not record a tools drive version"));
}

#[test]
fn runnable_snapshot_rejects_cross_virtualization_mode() {
    let err = FirecrackerSnapshotConfig::from_runnable_snapshot(
        &base_app_config(),
        &defaults(),
        None,
        snapshot("0.1.0", "pvm"),
    )
    .expect_err("node must reject a snapshot from the other virtualization mode");
    assert!(err.message.contains("uses virtualization mode 'pvm'"));
    assert_eq!(
        err.message,
        "snapshot 'snap-1' uses virtualization mode 'pvm', but this node runs in mode 'kvm'"
    );
    let mut config = base_app_config();
    config.serial_dir = Some(s("rel"));
    assert_eq!(
        FirecrackerSnapshotConfig::from_runnable_snapshot(
            &config,
            &defaults(),
            None,
            snapshot("", "pvm")
        )
        .unwrap_err()
        .message,
        "load sandbox common config"
    );
}

#[test]
fn launch_variables_go_before_those_of_the_snapshot() {
    let mut config = FirecrackerSandboxConfig::new(
        s("firecracker"),
        s("vmlinux"),
        s("0.1.0"),
        s("/img/user.json"),
        &base_app_config(),
        &defaults(),
    );
    let mut base = EnvVars::new();
    base.insert(s("A"), s("base"));
    base.insert(s("B"), s("base"));
    config.common.env_vars = Some(base);
    let mut env = EnvVars::new();
    env.insert(s("B"), s("launch"));
    let launch = SandboxLaunchConfig {
        sandbox_id: s("sb"),
        snapshot_id: Some(s("sn")),
        env_vars: Some(env),
        extra_mmds: Some(s("{}")),
        network: Some(s("deny")),
        custom_extension_params: Some(s("p")),
        envd_access_token: Some(s("SECRET-REDACTED")),
    };
    let config = config.apply_launch_config(&launch);
    let env = config.common.env_vars.as_ref().expect("variables");
    assert_eq!(env.get("A"), Some("base"));
    assert_eq!(env.get("B"), Some("launch"));
    assert_eq!(
        config.common.mmds_metadata,
        Some(MmdsMetadata {
            sandbox_id: s("sb"),
            snapshot_id: Some(s("sn")),
            access_token: Some(s("SECRET-REDACTED")),
            extra: Some(s("{}")),
        })
    );
    assert_eq!(config.common.network_policy, Some(s("deny")));
    assert_eq!(config.common.custom_extension_params, Some(s("p")));

    let mut bare = config;
    bare.common.env_vars = None;
    let empty = SandboxLaunchConfig {
        sandbox_id: s("sb"),
        snapshot_id: None,
        env_vars: Some(EnvVars::new()),
        extra_mmds: None,
        network: None,
        custom_extension_params: None,
        envd_access_token: None,
    };
    let bare = bare.apply_launch_config(&empty);
    assert!(bare.common.env_vars.is_none());
    assert_eq!(bare.common.network_policy, None);
}
