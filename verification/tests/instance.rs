use agentenv::instance::next_spawn_step;
use agentenv::instance::next_stop_step;
use agentenv::instance::parse_log_level;
use agentenv::instance::spawn_step_context;
use agentenv::instance::stderr_tail_length;
use agentenv::instance::stderr_tail_text;
use agentenv::instance::FirecrackerInstance;
use agentenv::instance::LogLevel;
use agentenv::instance::MonitorProcess;
use agentenv::instance::ReadyNext;
use agentenv::instance::SpawnStep;
use agentenv::instance::StderrTail;
use agentenv::instance::StopStep;
use agentenv::instance::MMDS_SIZE_LIMIT;
use agentenv::instance_api::cpu_config_call;
use agentenv::instance_api::ActionType;
use agentenv::instance_api::BackendType;
use agentenv::instance_api::Balloon;
use agentenv::instance_api::HttpMethod;
use agentenv::instance_api::IoEngine;
use agentenv::instance_api::MachineConfiguration;
use agentenv::instance_api::MmdsVersion;
use agentenv::instance_api::NetworkOverride;
use agentenv::instance_api::SnapshotType;
use agentenv::instance_api::VmState;
use agentenv::kernel_setting::KernelSetting;
use agentenv::launch_config::TimeSpan;

fn s(text: &str) -> String {
    text.to_string()
}

fn instance() -> FirecrackerInstance {
    FirecrackerInstance::new(s("/tmp/vm"))
}

fn nothing() -> StderrTail {
    StderrTail::Text(String::new())
}

fn ready(
    instance: &FirecrackerInstance,
    socket_exists: bool,
    status: Option<&str>,
    elapsed_ms: u64,
    tail: &StderrTail,
) -> ReadyNext {
    instance.wait_for_ready(
        socket_exists,
        status,
        TimeSpan::from_millis(elapsed_ms),
        TimeSpan::from_millis(30),
        tail,
    )
}

#[test]
fn wait_for_ready_times_out_when_socket_never_appears() {
    let instance = instance();
    assert_eq!(
        ready(&instance, false, None, 30, &nothing()),
        ReadyNext::Wait
    );
    let ReadyNext::Failed(err) = ready(&instance, false, None, 31, &nothing()) else {
        panic!("missing socket should time out")
    };
    assert!(err.message.contains("did not appear"));
    assert_eq!(
        err.message,
        "firecracker api socket did not appear at /tmp/vm/firecracker.socket within 30 ms; stderr: not captured"
    );
}

#[test]
fn wait_for_ready_succeeds_when_socket_file_appears() {
    let instance = instance();
    assert_eq!(
        ready(&instance, false, None, 20, &nothing()),
        ReadyNext::Wait
    );
    assert_eq!(
        ready(&instance, true, None, 1000, &nothing()),
        ReadyNext::Ready
    );
}

#[test]
fn an_early_end_is_reported_with_its_error_output() {
    let mut instance = instance();
    instance.note_stderr_path(Some(s("/tmp/vm/stderr.log")));
    instance.note_spawned(Some(7));
    let fail = |tail: &StderrTail| match ready(&instance, false, Some("exit status: 1"), 0, tail) {
        ReadyNext::Failed(e) => e.message,
        other => panic!("unexpected {other:?}"),
    };
    let head = "firecracker exited before its API socket appeared at /tmp/vm/firecracker.socket (status: exit status: 1); stderr: ";
    assert_eq!(
        fail(&stderr_tail_text(b" no kvm\xff \n")),
        format!("{head}no kvm\u{fffd}")
    );
    assert_eq!(fail(&stderr_tail_text(b" \n")), format!("{head}empty"));
    assert_eq!(
        fail(&StderrTail::Unavailable(s("gone"))),
        format!("{head}unavailable (gone)")
    );
    assert_eq!(
        stderr_tail_text("größe".as_bytes()),
        StderrTail::Text(s("größe"))
    );
    assert_eq!(stderr_tail_length(10), 10);
    assert_eq!(stderr_tail_length(4096), 4096);
    assert_eq!(stderr_tail_length(u64::MAX), 4096);
}

#[test]
fn stop_without_process_removes_stale_socket_file() {
    let mut instance = instance();
    let step = instance.stop();
    assert_eq!(step, StopStep::RemoveSocket);
    assert_eq!(next_stop_step(step, false), StopStep::Stopped);
}

#[test]
fn stopping_gives_the_process_time_to_end() {
    let mut instance = instance();
    instance.note_spawned(Some(42));
    let mut step = instance.stop();
    assert_eq!(instance.process, None);
    let mut steps = vec![step];
    while step != StopStep::Stopped {
        step = next_stop_step(step, step == StopStep::AwaitExit);
        steps.push(step);
    }
    assert_eq!(
        steps,
        vec![
            StopStep::Terminate(42),
            StopStep::AwaitExit,
            StopStep::Kill,
            StopStep::AwaitKilled,
            StopStep::RemoveSocket,
            StopStep::Stopped,
        ]
    );
    assert_eq!(
        next_stop_step(StopStep::AwaitExit, false),
        StopStep::RemoveSocket
    );
    instance.note_spawned(None);
    assert_eq!(instance.stop(), StopStep::AwaitExit);
}

#[test]
fn spawn_with_netns_rejects_duplicate_start() {
    let mut instance = instance();
    assert_eq!(
        instance.spawn_with_netns().expect("first start"),
        vec![
            "--api-sock",
            "/tmp/vm/firecracker.socket",
            "--mmds-size-limit",
            "1048576",
            "--http-api-max-payload-size",
            "1048576",
        ]
    );
    assert_eq!(
        instance.note_spawned(Some(9)),
        Some(KernelSetting {
            path: s("/proc/9/oom_score_adj"),
            value: "1000",
        })
    );
    let err = instance
        .spawn_with_netns()
        .expect_err("second spawn should fail");
    assert!(err.message.contains("already started"));
    instance.stop();
    assert!(instance.spawn_with_netns().is_ok());
}

#[test]
fn drop_after_spawn_removes_owned_socket_file() {
    let mut instance = instance();
    instance.note_spawned(Some(9));
    assert!(instance.abandon());
    assert_eq!(instance.process, None);
}

#[test]
fn drop_without_child_keeps_unowned_socket_file() {
    assert!(!instance().abandon());
}

#[test]
fn resolve_host_path_uses_firecracker_work_dir_for_relative_paths() {
    let instance = instance();
    assert_eq!(
        instance.resolve_host_path("vm_state.bin"),
        "/tmp/vm/vm_state.bin"
    );
    assert_eq!(
        instance.resolve_host_path("/tmp/vm_state.bin"),
        "/tmp/vm_state.bin"
    );
}

#[test]
fn the_number_of_the_process() {
    let mut instance = instance();
    assert_eq!(
        instance.pid().unwrap_err().message,
        "firecracker process is not running"
    );
    instance.process = Some(MonitorProcess { pid: None });
    assert_eq!(
        instance.pid().unwrap_err().message,
        "firecracker process is not running"
    );
    instance.note_spawned(Some(u32::MAX));
    assert_eq!(
        instance.pid().unwrap_err().message,
        "firecracker pid does not fit in i32"
    );
    instance.note_spawned(Some(123));
    assert_eq!(instance.pid(), Ok(123));
}

#[test]
fn starting_goes_step_by_step() {
    let mut step = SpawnStep::RemoveStaleSocket;
    let mut steps = vec![step];
    while step != SpawnStep::Spawned {
        // What these two fail to do does no harm.
        let done = !matches!(
            step,
            SpawnStep::RemoveStaleSocket | SpawnStep::OfferToOomKiller
        );
        step = next_spawn_step(step, done);
        steps.push(step);
    }
    assert_eq!(
        steps,
        vec![
            SpawnStep::RemoveStaleSocket,
            SpawnStep::OpenNamespace,
            SpawnStep::OpenStdout,
            SpawnStep::OpenStderr,
            SpawnStep::Spawn,
            SpawnStep::OfferToOomKiller,
            SpawnStep::Spawned,
        ]
    );
    assert_eq!(next_spawn_step(SpawnStep::Spawn, false), SpawnStep::Failed);
    assert_eq!(
        spawn_step_context(SpawnStep::OpenNamespace, Some("/ns/a")),
        "open Firecracker network namespace /ns/a"
    );
    assert_eq!(
        spawn_step_context(SpawnStep::Spawn, None),
        "failed to spawn firecracker"
    );
    assert_eq!(spawn_step_context(SpawnStep::OpenStdout, None), "");
}

#[test]
fn log_levels_are_read_in_any_case() {
    for (words, level) in [
        (["error", "Error", " ERROR "], LogLevel::Error),
        (["warning", "Warning", "WARNING\n"], LogLevel::Warning),
        (["info", "Info", "INFO"], LogLevel::Info),
        (["debug", "Debug", "dEBUG"], LogLevel::Debug),
        (["trace", "Trace", "TRACE"], LogLevel::Trace),
    ] {
        for word in words {
            assert_eq!(parse_log_level(word), Ok(level));
        }
    }
    assert_eq!(
        parse_log_level(" Loud ").unwrap_err().message,
        "invalid firecracker log level 'loud'; expected one of Error, Warning, Info, Debug, Trace"
    );
    for word in ["warn", "Warn", "WARN"] {
        assert_eq!(
            parse_log_level(word).unwrap_err().message,
            "invalid firecracker log level 'warn'; expected one of Error, Warning, Info, Debug, Trace"
        );
    }
    let call = FirecrackerInstance::set_logger("/l", "WARNING").expect("a level");
    assert_eq!((call.method, call.path.as_str()), (HttpMethod::Put, "/logger"));
    assert_eq!(call.body.level, LogLevel::Warning);
    assert_eq!(call.body.log_path, "/l");
    assert!(FirecrackerInstance::set_logger("/l", "x").is_err());
    assert!(FirecrackerInstance::set_logger("/l", "WARN").is_err());
}

#[test]
fn processor_configurations_are_json() {
    let call = FirecrackerInstance::set_cpu_config(" {\"kvm_capabilities\": [ \"1\" ]}\n\t")
        .expect("a document");
    assert_eq!(call.body, "{\"kvm_capabilities\": [ \"1\" ]}");
    assert_eq!(
        (call.method, call.path.as_str(), call.context.as_str()),
        (
            HttpMethod::Put,
            "/cpu-config",
            "Failed to set CPU configuration"
        )
    );
    for bad in ["", "{", "{} {}", "\u{a0}{}", "nul"] {
        assert_eq!(
            FirecrackerInstance::set_cpu_config(bad).unwrap_err().message,
            "Failed to parse cpu_config_json",
            "{bad:?}"
        );
    }
    for good in ["1", " \"x y\" ", "[]", "null\r\n", "-1.5e3"] {
        let call = FirecrackerInstance::set_cpu_config(good).expect("a document");
        assert_eq!(call.body, good.trim());
    }
    assert!(cpu_config_call(None).is_err());
    assert_eq!(cpu_config_call(Some(s("7"))).map(|c| c.body), Ok(s("7")));
}

#[test]
fn metadata_has_a_limit() {
    let call = FirecrackerInstance::set_mmds(vec![b'x'; MMDS_SIZE_LIMIT]).expect("fits");
    assert_eq!((call.method, call.path.as_str()), (HttpMethod::Put, "/mmds"));
    assert_eq!(call.body.len(), MMDS_SIZE_LIMIT);
    assert_eq!(
        FirecrackerInstance::set_mmds(vec![b'x'; MMDS_SIZE_LIMIT + 1])
            .unwrap_err()
            .message,
        "MMDS metadata payload is 1048577 bytes, exceeds Firecracker MMDS size limit 1048576; imageConfigs may be too large"
    );
}

#[test]
fn requests_before_the_start() {
    let call = FirecrackerInstance::set_machine_config(512, 2, false, true);
    assert_eq!(
        call.body,
        MachineConfiguration {
            mem_size_mib: 512,
            vcpu_count: 2,
            smt: false,
            track_dirty_pages: true
        }
    );
    assert_eq!(call.path, "/machine-config");
    assert_eq!(
        FirecrackerInstance::set_machine_config(u32::MAX, 1, true, true)
            .body
            .mem_size_mib,
        -1
    );
    let call = FirecrackerInstance::set_boot_source("vmlinux", None, Some(s("ro")));
    assert_eq!(call.path, "/boot-source");
    assert_eq!(call.body.kernel_image_path, "vmlinux");
    assert_eq!(call.body.boot_args, Some(s("ro")));
    assert_eq!(call.body.initrd_path, None);
    let call = FirecrackerInstance::add_drive(
        "rootfs",
        "/dev/ublkb0",
        true,
        false,
        true,
        IoEngine::Async,
        Some(s("{}")),
    );
    assert_eq!(call.path, "/drives/rootfs");
    assert_eq!(call.context, "Failed to add/update drive rootfs");
    assert!(call.body.is_root_device && !call.body.is_read_only && call.body.direct);
    assert_eq!(call.body.rate_limiter, Some(s("{}")));
    let call = FirecrackerInstance::patch_drive_rate_limiter("d", s("{}"));
    assert_eq!(call.method, HttpMethod::Patch);
    assert_eq!(call.context, "Failed to patch rate limiter on drive d");
    let call =
        FirecrackerInstance::add_network_interface("eth0", None, s("tap0"), None, Some(s("t")));
    assert_eq!(call.path, "/network-interfaces/eth0");
    assert_eq!(call.context, "Failed to add network interface eth0");
    assert_eq!(call.body.host_dev_name, "tap0");
    assert_eq!(call.body.tx_rate_limiter, Some(s("t")));
    let call = FirecrackerInstance::set_mmds_config("eth0");
    assert_eq!(call.body.network_interfaces, vec!["eth0"]);
    assert_eq!(call.body.version.name(), "V2");
    assert_eq!(MmdsVersion::V1.name(), "V1");
    assert_eq!(call.path, "/mmds/config");
    assert_eq!(
        FirecrackerInstance::set_balloon().body,
        Balloon {
            amount_mib: 0,
            deflate_on_oom: true,
            free_page_reporting: true
        }
    );
}

#[test]
fn requests_to_a_machine() {
    assert_eq!(
        FirecrackerInstance::start().body,
        ActionType::InstanceStart
    );
    assert_eq!(FirecrackerInstance::start().path, "/actions");
    assert_eq!(FirecrackerInstance::pause().body, VmState::Paused);
    assert_eq!(FirecrackerInstance::resume().body, VmState::Resumed);
    assert_eq!(FirecrackerInstance::pause().method, HttpMethod::Patch);
    let call = FirecrackerInstance::create_state_only_snapshot("vm_state.bin");
    assert_eq!(call.body.snapshot_path, "vm_state.bin");
    assert_eq!(call.body.snapshot_type, SnapshotType::Diff);
    let call = FirecrackerInstance::get_dirty_memory_ranges();
    assert_eq!(
        (call.method, call.path.as_str()),
        (HttpMethod::Get, "/vm/dirty-memory-ranges")
    );
}

#[test]
fn snapshots_are_loaded_from_each_backend() {
    let instance = instance();
    let overrides = vec![(s("eth0"), s("tap0"))];
    let call = instance.load_snapshot_uffd("vm_state.bin", "/u.sock", &vec![]);
    assert_eq!(call.body.snapshot_path, "/tmp/vm/vm_state.bin");
    assert_eq!(call.body.mem_backend.backend_type, BackendType::Uffd);
    assert_eq!(call.body.network_overrides, None);
    assert_eq!(call.body.track_dirty_pages, None);
    assert!(call.body.resume_vm);
    let call = instance.load_snapshot_file("/s/vm", "/dev/ublkb1", &overrides, false, true);
    assert_eq!(call.context, "Failed to load snapshot with file backend");
    assert_eq!(call.body.snapshot_path, "/s/vm");
    assert_eq!(call.body.mem_backend.backend_path, "/dev/ublkb1");
    assert_eq!(
        call.body.network_overrides,
        Some(vec![NetworkOverride {
            iface_id: s("eth0"),
            host_dev_name: s("tap0")
        }])
    );
    assert!(!call.body.resume_vm);
    let call = instance.load_snapshot_multi_backend(
        "/s/vm",
        vec![s("r1"), s("r2")],
        "/dev/ublkb2",
        &overrides,
        true,
        false,
    );
    assert_eq!(
        call.body.mem_backend.region_backends,
        Some(vec![s("r1"), s("r2")])
    );
    assert_eq!(call.body.mem_backend.backend_type, BackendType::File);
    assert_eq!(call.body.track_dirty_pages, Some(false));
    assert_eq!(call.context, "Failed to load snapshot with multi-backend");
}
