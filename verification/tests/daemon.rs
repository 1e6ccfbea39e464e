use agentenv::daemon_client::configure_daemon_capabilities;
use agentenv::daemon_client::daemon_args;
use agentenv::daemon_client::next_start_step;
use agentenv::daemon_client::start_step_context;
use agentenv::daemon_client::wait_for_ready;
use agentenv::daemon_client::wait_for_socket_available;
use agentenv::daemon_client::CreateOverlaybdRuntimeDeviceRequest;
use agentenv::daemon_client::DaemonError;
use agentenv::daemon_client::DaemonRequest;
use agentenv::daemon_client::DaemonResponse;
use agentenv::daemon_client::InvalidRequestError;
use agentenv::daemon_client::PoolConfig;
use agentenv::daemon_client::RestackSnapshotTerminalFailure;
use agentenv::daemon_client::RpcPlan;
use agentenv::daemon_client::SocketNext;
use agentenv::daemon_client::StartStep;
use agentenv::daemon_client::StartupNext;
use agentenv::daemon_client::StartupOutput;
use agentenv::daemon_client::UblkDaemonClient;
use agentenv::daemon_client::UblkDaemonSpawnConfig;
use agentenv::failure::Failure;
use agentenv::io_ring::completion_restart_delay;
use agentenv::io_ring::dispatch;
use agentenv::io_ring::log_message;
use agentenv::io_ring::registered;
use agentenv::io_ring::response_context;
use agentenv::io_ring::worker_ring_outcome;
use agentenv::io_ring::RingOperation;
use agentenv::io_ring::RingReply;
use agentenv::io_ring::RingRequest;
use agentenv::launch_config::TimeSpan;
use agentenv::overlaybd_config::UpperMode;
use agentenv::snapshot_layers::LayerDescriptor;

fn s(text: &str) -> String {
    text.to_string()
}

fn error(message: &str) -> DaemonResponse {
    DaemonResponse::Error {
        message: s(message),
    }
}

fn terminal(message: &str) -> DaemonResponse {
    DaemonResponse::TerminalError {
        message: s(message),
    }
}

fn failed<T: std::fmt::Debug>(outcome: Result<T, DaemonError>) -> String {
    match outcome {
        Err(DaemonError::Failed(e)) => e.message,
        other => panic!("unexpected {other:?}"),
    }
}

fn unexpected<T: std::fmt::Debug>(outcome: Result<T, DaemonError>) -> String {
    match outcome {
        Err(DaemonError::Unexpected { prefix, response }) => {
            assert_eq!(response, DaemonResponse::Deleted);
            prefix.message
        }
        other => panic!("unexpected {other:?}"),
    }
}

#[test]
fn daemon_dead_fails_immediately() {
    let client = UblkDaemonClient::new_for_test(s("/nonexistent/test.sock"), true);
    let err = client.create_overlaybd("/img.json", "/global.json");
    assert!(err.is_err());
    let msg = err.unwrap_err().message;
    assert!(
        msg.contains("not running"),
        "expected 'not running' in error: {msg}"
    );

    let err = client.delete(0);
    assert!(err.is_err());

    let err = client.restack_snapshot(0, "/out");
    assert!(err.is_err());
}

#[test]
fn every_request_to_a_dead_daemon_is_refused() {
    let mut client = UblkDaemonClient::new_for_test(s("/nonexistent/test.sock"), true);
    let device = CreateOverlaybdRuntimeDeviceRequest {
        source_image_config: "/src.json",
        global_config: "/g.json",
        runtime_dir: "/run",
        read_only: false,
        runtime_upper_mode: UpperMode::Sparse,
        requested_virtual_size: None,
        known_source_virtual_size: None,
        allow_shrink: false,
    };
    for refused in [
        client.shutdown(),
        client.create_overlaybd("/img.json", "/global.json"),
        client.create_overlaybd_runtime_device(device),
        client.notify_sandbox_ready("k"),
        client.delete(1),
        client.restack_snapshot(1, "/out"),
        client.get_features(),
        client.acquire_overlaybd("/i", "/g", 9, "ro"),
        client.release_overlaybd(1),
        client.update_size(1, 2),
    ] {
        assert_eq!(
            refused.unwrap_err().message,
            "ublk daemon is not running: test: daemon marked dead"
        );
    }
    assert!(client.shutting_down);
    client.death_reason = None;
    assert_eq!(
        client.delete(1).unwrap_err().message,
        "ublk daemon is not running: unknown reason"
    );
}

#[test]
fn debug_format_shows_socket_and_status() {
    let client = UblkDaemonClient::new_for_test(s("/tmp/test.sock"), false);
    let debug = format!("{:?}", client);
    assert!(
        debug.contains("UblkDaemonClient"),
        "debug should contain struct name"
    );
    assert!(
        debug.contains("/tmp/test.sock"),
        "debug should contain socket path"
    );
    assert!(
        debug.contains("false"),
        "debug should contain daemon_dead status"
    );
    assert_eq!(client.socket_path(), "/tmp/test.sock");
}

#[test]
fn shutdown_sets_shutting_down_flag() {
    let mut client = UblkDaemonClient::new_for_test(s("/tmp/shutdown.sock"), false);
    let plan = client.shutdown().expect("begun");
    assert_eq!(plan.request, DaemonRequest::Shutdown);
    assert_eq!(plan.timeout, TimeSpan::from_secs(5));
    assert!(client.shutting_down);
    assert!(client.note_exit(Ok("exit status: 0")));
    assert!(client.daemon_dead);
}

#[test]
fn telling_the_daemon_to_end_refuses_nothing_by_itself() {
    let mut alive = UblkDaemonClient::new_for_test(s("/tmp/shutdown.sock"), false);
    assert!(alive.shutdown().is_ok());
    assert!(alive.delete(3).is_ok());
    let mut dead = UblkDaemonClient::new_for_test(s("/tmp/shutdown.sock"), true);
    let before = dead.delete(3);
    assert!(dead.shutdown().is_err());
    assert_eq!(dead.delete(3), before);
    assert!(before.is_err());
}

#[test]
fn the_end_of_the_daemon_is_remembered() {
    let mut client = UblkDaemonClient::connected(s("/d.sock"), TimeSpan::from_secs(7));
    let plan = RpcPlan {
        request: DaemonRequest::GetFeatures,
        timeout: TimeSpan::from_secs(1),
    };
    let begun = client.begin(plan).expect("the daemon runs");
    assert_eq!(begun.request, DaemonRequest::GetFeatures);
    assert_eq!(begun.timeout, TimeSpan::from_secs(1));
    assert!(client.begin(begun).is_ok());
    assert!(!client.note_exit(Ok("signal: 9 (SIGKILL)")));
    assert_eq!(
        client.get_features().unwrap_err().message,
        "ublk daemon is not running: ublk daemon exited: signal: 9 (SIGKILL)"
    );
    client.note_exit(Err("no child"));
    assert_eq!(
        client.get_features().unwrap_err().message,
        "ublk daemon is not running: ublk daemon wait failed: no child"
    );
    assert_eq!(
        client.timed_out("120s").message,
        "daemon RPC timed out after 120s (socket=/d.sock)"
    );
    assert_eq!(
        client.connect_context(),
        "connect to ublk daemon socket: /d.sock"
    );
}

#[test]
fn requests_say_how_long_they_wait() {
    let minutes = TimeSpan::from_secs(120);
    let client = UblkDaemonClient::connected(s("/d.sock"), TimeSpan::from_secs(7));
    let plan = client.create_overlaybd("/img.json", "/global.json").expect("begun");
    assert_eq!(
        plan.request,
        DaemonRequest::CreateOverlaybd {
            image_config: s("/img.json"),
            global_config: s("/global.json")
        }
    );
    assert_eq!(plan.timeout, minutes);
    let plan = client.restack_snapshot(3, "/out").expect("begun");
    assert_eq!(
        plan.request,
        DaemonRequest::RestackSnapshot {
            dev_id: 3,
            output_layer_path: s("/out")
        }
    );
    assert_eq!(plan.timeout, TimeSpan::from_secs(360));
    let plan = client.create_overlaybd_runtime_device(CreateOverlaybdRuntimeDeviceRequest {
        source_image_config: "/src.json",
        global_config: "/g.json",
        runtime_dir: "/run",
        read_only: true,
        runtime_upper_mode: UpperMode::Sparse,
        requested_virtual_size: Some(1),
        known_source_virtual_size: None,
        allow_shrink: true,
    });
    let plan = plan.expect("begun");
    assert_eq!(plan.timeout, TimeSpan::from_secs(7));
    assert_eq!(
        plan.request,
        DaemonRequest::CreateOverlaybdRuntimeDevice {
            source_image_config: s("/src.json"),
            global_config: s("/g.json"),
            runtime_dir: s("/run"),
            read_only: true,
            runtime_upper_mode: UpperMode::Sparse,
            requested_virtual_size: Some(1),
            known_source_virtual_size: None,
            allow_shrink: true,
        }
    );
    assert_eq!(
        client.notify_sandbox_ready("k").expect("begun").request,
        DaemonRequest::NotifySandboxReady { device_key: s("k") }
    );
    assert_eq!(
        client.delete(4).expect("begun").request,
        DaemonRequest::Delete { dev_id: 4 }
    );
    assert_eq!(
        client.get_features().expect("begun").request,
        DaemonRequest::GetFeatures
    );
    assert_eq!(
        client.acquire_overlaybd("/i", "/g", 9, "ro").expect("begun").request,
        DaemonRequest::AcquireOverlaybd {
            image_config: s("/i"),
            global_config: s("/g"),
            virtual_size: 9,
            access_mode: s("ro")
        }
    );
    assert_eq!(
        client.release_overlaybd(5).expect("begun").request,
        DaemonRequest::ReleaseOverlaybd { dev_id: 5 }
    );
    assert_eq!(
        client.update_size(6, 7).expect("begun").request,
        DaemonRequest::UpdateSize {
            dev_id: 6,
            new_sectors: 7
        }
    );
}

#[test]
fn answers_to_device_requests() {
    assert_eq!(
        UblkDaemonClient::create_overlaybd_outcome(DaemonResponse::DeviceCreated {
            dev_id: 1,
            device_path: s("/dev/ublkb1")
        }),
        Ok((1, s("/dev/ublkb1")))
    );
    assert_eq!(
        failed(UblkDaemonClient::create_overlaybd_outcome(terminal("x"))),
        "daemon: create overlaybd failed terminally: x"
    );
    assert_eq!(
        failed(UblkDaemonClient::create_overlaybd_outcome(error("x"))),
        "daemon: create overlaybd failed: x"
    );
    assert_eq!(
        unexpected(UblkDaemonClient::create_overlaybd_outcome(
            DaemonResponse::Deleted
        )),
        "daemon: unexpected response for create overlaybd: "
    );
    assert_eq!(
        UblkDaemonClient::acquire_overlaybd_outcome(DaemonResponse::DeviceAcquired {
            dev_id: 2,
            device_path: s("/dev/ublkb2")
        }),
        Ok((2, s("/dev/ublkb2")))
    );
    assert_eq!(
        failed(UblkDaemonClient::acquire_overlaybd_outcome(error("y"))),
        "daemon: acquire overlaybd failed: y"
    );
    let device = UblkDaemonClient::create_overlaybd_runtime_device_outcome(
        DaemonResponse::OverlaybdRuntimeDeviceCreated {
            dev_id: 3,
            device_path: s("/dev/ublkb3"),
            actual_virtual_size: 10,
            runtime_image_config_path: s("/run/image.json"),
        },
    )
    .expect("created");
    assert_eq!((device.dev_id, device.actual_virtual_size), (3, 10));
    assert_eq!(device.runtime_image_config_path, "/run/image.json");
    assert_eq!(
        UblkDaemonClient::create_overlaybd_runtime_device_outcome(
            DaemonResponse::InvalidRequest { message: s("bad") }
        ),
        Err(DaemonError::Invalid(InvalidRequestError::new(s("bad"))))
    );
    assert_eq!(
        failed(UblkDaemonClient::create_overlaybd_runtime_device_outcome(
            terminal("z")
        )),
        "daemon: create overlaybd runtime device failed terminally: z"
    );
}

#[test]
fn answers_about_one_device_name_it() {
    assert!(UblkDaemonClient::delete_outcome(1, DaemonResponse::Deleted).is_ok());
    assert_eq!(
        failed(UblkDaemonClient::delete_outcome(12, error("x"))),
        "daemon: delete dev_id=12 failed: x"
    );
    assert_eq!(
        failed(UblkDaemonClient::release_overlaybd_outcome(3, terminal("x"))),
        "daemon: release overlaybd dev_id=3 failed terminally: x"
    );
    assert!(UblkDaemonClient::release_overlaybd_outcome(3, DaemonResponse::Released).is_ok());
    assert_eq!(
        unexpected(UblkDaemonClient::release_overlaybd_outcome(
            3,
            DaemonResponse::Deleted
        )),
        "daemon: unexpected response for release overlaybd: "
    );
    assert!(UblkDaemonClient::update_size_outcome(3, DaemonResponse::SizeUpdated).is_ok());
    assert_eq!(
        failed(UblkDaemonClient::update_size_outcome(3, error("x"))),
        "daemon: update size dev_id=3 failed: x"
    );
    assert!(
        UblkDaemonClient::notify_sandbox_ready_outcome(DaemonResponse::Acknowledged).is_ok()
    );
    assert_eq!(
        failed(UblkDaemonClient::notify_sandbox_ready_outcome(error("x"))),
        "daemon: notify sandbox ready failed: x"
    );
    assert_eq!(
        UblkDaemonClient::get_features_outcome(DaemonResponse::Features { flags: 5 }),
        Ok(5)
    );
    assert_eq!(
        failed(UblkDaemonClient::get_features_outcome(error("x"))),
        "daemon: get features failed: x"
    );
    // What cannot be terminal is unexpected.
    assert!(matches!(
        UblkDaemonClient::get_features_outcome(terminal("x")),
        Err(DaemonError::Unexpected { .. })
    ));
}

#[test]
fn a_snapshot_that_fails_late_is_told_apart() {
    let stats = UblkDaemonClient::restack_snapshot_outcome(
        1,
        DaemonResponse::RestackSnapshotCreated {
            descriptor: Some(LayerDescriptor {
                digest: s("d"),
                size: 3,
            }),
            data_stat: s("stat"),
            ext4_used_bytes: s("4"),
        },
    )
    .expect("created");
    assert_eq!(stats.descriptor.map(|d| d.size), Some(3));
    assert_eq!(stats.data_stat, "stat");
    let late = UblkDaemonClient::restack_snapshot_outcome(1, terminal("x"));
    let words = "daemon: restack snapshot dev_id=1 failed after mutating live state: x";
    assert_eq!(
        late,
        Err(DaemonError::Terminal(RestackSnapshotTerminalFailure::new(
            s(words)
        )))
    );
    assert_eq!(
        RestackSnapshotTerminalFailure::new(s(words)).message(),
        words
    );
    assert_eq!(InvalidRequestError::new(s("m")).message(), "m");
    assert_eq!(
        failed(UblkDaemonClient::restack_snapshot_outcome(1, error("x"))),
        "daemon: restack snapshot dev_id=1 failed: x"
    );
    assert_eq!(
        unexpected(UblkDaemonClient::restack_snapshot_outcome(
            1,
            DaemonResponse::Deleted
        )),
        "daemon: unexpected response for restack snapshot: "
    );
}

fn spawn_config() -> UblkDaemonSpawnConfig {
    UblkDaemonSpawnConfig {
        binary_path: s("/bin/daemon"),
        socket_path: s("/d.sock"),
        global_config: s("/g.json"),
        resize_global_config: s("/r.json"),
        app_config: None,
        log_file: None,
        metrics_listen_addr: s("127.0.0.1:1"),
        pool_config: None,
        p2p_publish_url: None,
        runtime_device_timeout: TimeSpan::from_secs(360),
    }
}

#[test]
fn arguments_of_the_daemon() {
    let mut config = spawn_config();
    let base = vec![
        "--socket-path",
        "/d.sock",
        "--global-config",
        "/g.json",
        "--resize-global-config",
        "/r.json",
        "--metrics-listen-addr",
        "127.0.0.1:1",
    ];
    assert_eq!(daemon_args(&config), base);
    config.pool_config = Some(PoolConfig {
        low_watermark: 1,
        high_watermark: 20,
        startup_prewarm: 3,
    });
    config.p2p_publish_url = Some(s("http://p"));
    let mut pooled = base.clone();
    pooled.extend([
        "--p2p-publish-url",
        "http://p",
        "--enable-pool",
        "--pool-low-watermark",
        "1",
        "--pool-high-watermark",
        "20",
        "--pool-startup-prewarm",
        "3",
    ]);
    assert_eq!(daemon_args(&config), pooled);
    config.app_config = Some(s("/app.toml"));
    config.log_file = Some(s("/log/d.log"));
    assert_eq!(
        daemon_args(&config),
        vec![
            "--socket-path",
            "/d.sock",
            "--global-config",
            "/g.json",
            "--resize-global-config",
            "/r.json",
            "--config",
            "/app.toml",
            "--log-file",
            "/log/d.log",
            "--metrics-listen-addr",
            "127.0.0.1:1",
            "--p2p-publish-url",
            "http://p",
        ]
    );
}

#[test]
fn a_daemon_is_started_step_by_step() {
    let mut step = StartStep::AwaitSocket;
    let mut steps = vec![step];
    while step != StartStep::Running {
        step = next_start_step(step, true);
        steps.push(step);
    }
    assert_eq!(
        steps,
        vec![
            StartStep::AwaitSocket,
            StartStep::CheckCapabilities,
            StartStep::CreateLogDir,
            StartStep::Spawn,
            StartStep::TakeStdout,
            StartStep::AwaitReady,
            StartStep::Watch,
            StartStep::Running,
        ]
    );
    assert_eq!(
        next_start_step(StartStep::AwaitReady, false),
        StartStep::Failed
    );
    let config = spawn_config();
    assert_eq!(
        start_step_context(&config, StartStep::Spawn),
        "spawn ublk daemon: /bin/daemon"
    );
    assert_eq!(
        start_step_context(&config, StartStep::CreateLogDir),
        "create parent dir for ublk daemon log"
    );
    assert_eq!(
        start_step_context(&config, StartStep::TakeStdout),
        "ublk daemon child process has no stdout"
    );
    assert_eq!(configure_daemon_capabilities(Some(true)), Ok(()));
    assert_eq!(
        configure_daemon_capabilities(Some(false)).unwrap_err().message,
        "cannot scope ublk daemon: CAP_SYS_ADMIN is not effective in the server process"
    );
    assert_eq!(
        configure_daemon_capabilities(None).unwrap_err().message,
        "inspect process capabilities before spawning ublk daemon"
    );
}

#[test]
fn a_socket_in_use_is_awaited() {
    let look = |present, answers, late| wait_for_socket_available("/d.sock", present, answers, late);
    assert_eq!(look(false, false, false), SocketNext::Available);
    assert_eq!(look(true, false, true), SocketNext::RemoveStale);
    assert_eq!(look(true, true, false), SocketNext::Wait);
    assert_eq!(
        look(true, true, true),
        SocketNext::InUse(Failure::because(
            "daemon socket /d.sock is still in use after 30s"
        ))
    );
}

#[test]
fn a_daemon_says_that_it_is_ready() {
    let line = |text: &str| wait_for_ready(&StartupOutput::Line(s(text)));
    assert_eq!(line("ready\n"), StartupNext::Ready);
    assert_eq!(line("  ready \r\n"), StartupNext::Ready);
    assert_eq!(line("not ready\n"), StartupNext::ReadOn);
    assert_eq!(line(""), StartupNext::ReadOn);
    assert_eq!(
        wait_for_ready(&StartupOutput::Ended(s("None"))),
        StartupNext::Failed(Failure::because(
            "ublk daemon exited before ready (status=None)"
        ))
    );
    assert_eq!(
        wait_for_ready(&StartupOutput::TimedOut),
        StartupNext::Kill(Failure::because(
            "ublk daemon did not become ready within 30s"
        ))
    );
}

#[test]
fn requests_to_a_ring() {
    assert_eq!(
        dispatch(RingRequest::Io),
        (RingOperation::SubmitAside, RingReply::Sender)
    );
    assert_eq!(
        dispatch(RingRequest::OccupySparseBuffer),
        (RingOperation::OccupyIndex, RingReply::Sender)
    );
    let awaited = dispatch(RingRequest::ReleaseSparseBuffer { idx: 4 });
    let fired = dispatch(RingRequest::ReleaseSparseBufferFire { idx: 4 });
    assert_eq!(awaited, (RingOperation::ReleaseIndex(4), RingReply::Sender));
    assert_eq!(fired, (RingOperation::ReleaseIndex(4), RingReply::Log));
    assert_eq!(
        dispatch(RingRequest::RegisterBuffer),
        (RingOperation::RegisterBuffer, RingReply::SenderWithBuffer)
    );
    assert_eq!(
        dispatch(RingRequest::UnregisterBuffer { idx: 5 }),
        (RingOperation::UnregisterBuffer(5), RingReply::Log)
    );
    assert_eq!(
        response_context(RingRequest::OccupySparseBuffer),
        Some("wait for occupy_sparse_buffer_index response")
    );
    assert_eq!(
        response_context(RingRequest::ReleaseSparseBuffer { idx: 1 }),
        Some("wait for release_sparse_buffer_index response")
    );
    assert_eq!(
        response_context(RingRequest::RegisterBuffer),
        Some("wait for register_buffer response")
    );
    assert_eq!(response_context(RingRequest::Io), None);
    assert_eq!(
        log_message(RingRequest::UnregisterBuffer { idx: 1 }),
        Some("unregister_buffer failed")
    );
    assert_eq!(
        log_message(RingRequest::ReleaseSparseBufferFire { idx: 1 }),
        Some("release_sparse_buffer_index failed")
    );
    assert_eq!(log_message(RingRequest::Io), None);
}

#[test]
fn a_worker_has_one_ring() {
    assert!(worker_ring_outcome(3, true, false).is_ok());
    assert_eq!(
        worker_ring_outcome(3, false, false).unwrap_err().message,
        "create io uring for worker 3"
    );
    assert_eq!(
        worker_ring_outcome(3, true, true).unwrap_err().message,
        "uring for worker 3 has already been initialized"
    );
    let ok: Result<u32, String> = Ok(7);
    assert_eq!(registered(ok, "buf"), Ok((7, "buf")));
    assert_eq!(registered(Err::<u32, &str>("no"), "buf"), Err("no"));
    assert_eq!(completion_restart_delay(true), Some(TimeSpan::from_secs(1)));
    assert_eq!(completion_restart_delay(false), None);
}
