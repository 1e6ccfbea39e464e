use agentenv::overlaybd_config::validate_upper_config;
use agentenv::overlaybd_config::CacheConfig;
use agentenv::overlaybd_config::CertConfig;
use agentenv::overlaybd_config::CredentialConfig;
use agentenv::overlaybd_config::DownloadConfig;
use agentenv::overlaybd_config::ExporterConfig;
use agentenv::overlaybd_config::GlobalConfig;
use agentenv::overlaybd_config::GzipCacheConfig;
use agentenv::overlaybd_config::ImageConfig;
use agentenv::overlaybd_config::LayerConfig;
use agentenv::overlaybd_config::LogConfig;
use agentenv::overlaybd_config::OssConfig;
use agentenv::overlaybd_config::P2PConfig;
use agentenv::overlaybd_config::PrefetchConfig;
use agentenv::overlaybd_config::UpperConfig;
use agentenv::overlaybd_config::UpperMode;
use agentenv::overlaybd_config::MAX_LAYER_CNT;
use agentenv::overlaybd_config::PACKAGE_VERSION;
use agentenv::overlaybd_rules::load_global_config;
use agentenv::overlaybd_rules::load_image_config;
use agentenv::overlaybd_rules::resolve_image_config_local_paths;
use agentenv::overlaybd_rules::resolve_path_field;
use agentenv::overlaybd_rules::validate_global_config;
use agentenv::overlaybd_rules::validate_image_config;
use agentenv::overlaybd_rules::ConfigFile;

fn s(text: &str) -> String {
    text.to_string()
}

/// A valid image with one remote layer and the given upper layer.
fn remote_image(upper: UpperConfig) -> ImageConfig {
    ImageConfig {
        repo_blob_url: s("https://example.io/v2/repo/blobs"),
        lowers: vec![LayerConfig {
            digest: s("sha256:abc"),
            size: 1234,
            ..LayerConfig::default()
        }],
        upper,
        ..ImageConfig::default()
    }
}

fn oss(default_region: &str) -> GlobalConfig {
    GlobalConfig {
        oss_config: OssConfig {
            enable: true,
            default_endpoint: s("https://oss-cn-hangzhou.aliyuncs.com"),
            default_region: s(default_region),
            ..OssConfig::default()
        },
        ..GlobalConfig::default()
    }
}

fn global_error(mut cfg: GlobalConfig) -> String {
    cfg.normalize_compat_fields();
    validate_global_config(&cfg).expect_err("should fail").message
}

fn image_error(cfg: &ImageConfig) -> String {
    validate_image_config(cfg).expect_err("should fail").message
}

#[test]
fn test_image_config_download_enabled_remote_lower_needs_no_layer_dir() {
    let mut cfg = remote_image(UpperConfig::default());
    cfg.download_override = Some(DownloadConfig {
        enable: true,
        max_mbps: 40,
        try_cnt: 2,
        block_size: 65536,
        concurrency: 2,
        ..DownloadConfig::default()
    });
    let download = cfg.download_override.as_ref().expect("download override");
    assert!(download.enable);
    assert_eq!(download.max_mbps, 40);
    assert_eq!(download.try_cnt, 2);
    assert_eq!(download.block_size, 65536);
    assert_eq!(download.concurrency, 2);
    assert!(cfg.lowers[0].dir.is_empty());
    assert!(cfg.lowers[0].file.is_empty());
    validate_image_config(&cfg).expect("download-enabled remote lower needs no layer dir");
}

#[test]
fn test_global_download_rejects_zero_concurrency() {
    let cfg = GlobalConfig {
        download: DownloadConfig {
            concurrency: 0,
            ..DownloadConfig::default()
        },
        registry_fs_version: s("v2"),
        io_engine: 0,
        ..GlobalConfig::default()
    };
    let err = global_error(cfg);
    assert!(
        err.contains("download.concurrency must be > 0"),
        "unexpected error: {err}"
    );
}

#[test]
fn test_global_cache_compat_fallback() {
    let mut cfg = GlobalConfig {
        cache_type: s("file"),
        registry_cache_dir: s("/tmp/cache"),
        registry_cache_size_gb: 8,
        credential_file_path: s("/tmp/cred.json"),
        registry_fs_version: s("v2"),
        io_engine: 0,
        ..GlobalConfig::default()
    };
    cfg.normalize_compat_fields();
    assert_eq!(cfg.cache_config.cache_type, "file");
    assert_eq!(cfg.cache_config.cache_dir, "/tmp/cache");
    assert_eq!(cfg.cache_config.cache_size_gb, 8);
    assert_eq!(cfg.credential_config.mode, "file");
    assert_eq!(cfg.credential_config.path, "/tmp/cred.json");
    validate_global_config(&cfg).expect("validate");
}

#[test]
fn test_global_cache_nested_precedence() {
    let mut cfg = GlobalConfig {
        cache_type: s("file"),
        registry_cache_dir: s("/tmp/cache-legacy"),
        registry_cache_size_gb: 8,
        cache_config: CacheConfig {
            cache_type: s("ocf"),
            cache_dir: s("/tmp/cache-new"),
            cache_size_gb: 16,
            refill_size: 131072,
        },
        registry_fs_version: s("v2"),
        io_engine: 0,
        ..GlobalConfig::default()
    };
    cfg.normalize_compat_fields();
    assert_eq!(cfg.cache_config.cache_type, "ocf");
    assert_eq!(cfg.cache_config.cache_dir, "/tmp/cache-new");
    assert_eq!(cfg.cache_config.cache_size_gb, 16);
}

#[test]
fn test_log_legacy_fallback() {
    let mut cfg = GlobalConfig {
        log_level: 2,
        log_path: s("/tmp/overlaybd.log"),
        registry_fs_version: s("v2"),
        io_engine: 0,
        ..GlobalConfig::default()
    };
    cfg.normalize_compat_fields();
    assert_eq!(cfg.log_config.log_level, 2);
    assert_eq!(cfg.log_config.log_path, "/tmp/overlaybd.log");
}

#[test]
fn test_oss_config_requires_region_when_enabled() {
    assert!(global_error(oss("")).contains("defaultRegion"));
}

#[test]
fn test_oss_config_missing_region_when_enabled_fails() {
    let cfg = GlobalConfig {
        oss_config: OssConfig {
            enable: true,
            default_endpoint: s("https://oss-cn-hangzhou.aliyuncs.com"),
            ..OssConfig::default()
        },
        ..GlobalConfig::default()
    };
    assert!(global_error(cfg).contains("defaultRegion"));
}

#[test]
fn test_oss_config_allows_credential_process_without_static_credentials() {
    let mut cfg = oss("cn-hangzhou");
    cfg.oss_config.credential_process = s("echo '{}'");
    cfg.normalize_compat_fields();
    validate_global_config(&cfg).expect("credential_process-only config should validate");
}

#[test]
fn test_oss_config_rejects_credential_process_with_static_credentials() {
    let mut cfg = oss("cn-hangzhou");
    cfg.oss_config.credential_process = s("echo '{}'");
    cfg.oss_config.access_key_id = s("ak");
    cfg.oss_config.secret_access_key = s("sk");
    assert!(global_error(cfg).contains("credentialProcess"));
}

#[test]
fn test_oss_config_rejects_security_token_without_static_credentials() {
    let mut cfg = oss("cn-hangzhou");
    cfg.oss_config.security_token = s("token");
    assert!(global_error(cfg).contains("securityToken"));
}

#[test]
fn test_image_config_validate_remote_require_repo() {
    let mut cfg = remote_image(UpperConfig::default());
    cfg.repo_blob_url = String::new();
    assert!(image_error(&cfg).contains("repoBlobUrl"));
}

#[test]
fn test_image_config_validate_remote_allows_layer_repo_blob_url() {
    let mut cfg = remote_image(UpperConfig::default());
    cfg.repo_blob_url = String::new();
    cfg.lowers[0].repo_blob_url = s("https://example.io/v2/repo/blobs");
    validate_image_config(&cfg).expect("layer repoBlobUrl should satisfy remote lower");
}

#[test]
fn layer_repository_goes_before_that_of_the_image() {
    let mut cfg = LayerConfig {
        digest: s("sha256:abc"),
        size: 1234,
        ..LayerConfig::default()
    };
    assert_eq!(cfg.repo_blob_url, "");
    assert_eq!(
        cfg.effective_repo_blob_url("https://example.io/v2/repo/blobs"),
        "https://example.io/v2/repo/blobs"
    );
    cfg.repo_blob_url = s("https://layer.example/v2/repo/blobs");
    assert_eq!(
        cfg.effective_repo_blob_url("https://image.example/v2/repo/blobs"),
        "https://layer.example/v2/repo/blobs"
    );
}

#[test]
fn test_image_config_validate_upper_partial() {
    let cfg = remote_image(UpperConfig {
        index: s("/tmp/upper.idx"),
        data: String::new(),
        ..UpperConfig::default()
    });
    assert!(image_error(&cfg).contains("set together"));
}

#[test]
fn test_image_config_validate_legacy_log_structured_upper_without_mode() {
    let cfg = remote_image(UpperConfig {
        index: s("/tmp/upper.idx"),
        data: s("/tmp/upper.data"),
        ..UpperConfig::default()
    });
    validate_image_config(&cfg).expect("legacy log upper should validate");
    assert_eq!(cfg.upper.mode, None);
    assert_eq!(cfg.upper.writable_mode(), UpperMode::LogStructured);
}

#[test]
fn test_image_config_validate_legacy_data_only_upper_without_mode_fails() {
    let cfg = remote_image(UpperConfig {
        data: s("/tmp/upper.data"),
        ..UpperConfig::default()
    });
    assert!(image_error(&cfg).contains("set together"));
}

#[test]
fn test_image_config_validate_sparse_upper_without_index() {
    let cfg = remote_image(UpperConfig {
        mode: Some(UpperMode::Sparse),
        data: s("/tmp/upper.data"),
        ..UpperConfig::default()
    });
    validate_image_config(&cfg).expect("sparse upper without index should validate");
    assert_eq!(cfg.upper.writable_mode(), UpperMode::Sparse);
}

#[test]
fn test_image_config_validate_log_structured_upper_requires_index() {
    let cfg = remote_image(UpperConfig {
        mode: Some(UpperMode::LogStructured),
        data: s("/tmp/upper.data"),
        ..UpperConfig::default()
    });
    assert!(image_error(&cfg).contains("set together"));
}

#[test]
fn test_image_config_validate_hybrid_log_structured_upper_requires_index() {
    let cfg = remote_image(UpperConfig {
        mode: Some(UpperMode::HybridLogStructured),
        data: s("/tmp/upper.data"),
        ..UpperConfig::default()
    });
    assert!(image_error(&cfg).contains("set together"));

    let cfg = remote_image(UpperConfig {
        mode: Some(UpperMode::HybridLogStructured),
        index: s("/tmp/upper.idx"),
        data: s("/tmp/upper.data"),
        ..UpperConfig::default()
    });
    validate_image_config(&cfg).expect("hybrid upper should validate");
    assert_eq!(cfg.upper.writable_mode(), UpperMode::HybridLogStructured);
}

#[test]
fn test_image_config_validate_upper_target_requires_complete_data_index() {
    let cfg = remote_image(UpperConfig {
        mode: Some(UpperMode::Sparse),
        data: s("/tmp/upper.data"),
        target: s("/tmp/upper.target"),
        ..UpperConfig::default()
    });
    assert!(image_error(&cfg).contains("require complete upper.data/index"));
}

#[test]
fn test_image_config_validate_upper_gzip_index_requires_target() {
    let cfg = remote_image(UpperConfig {
        index: s("/tmp/upper.idx"),
        data: s("/tmp/upper.data"),
        gzip_index: s("/tmp/upper.gzi"),
        ..UpperConfig::default()
    });
    assert!(image_error(&cfg).contains("requires upper.target"));
}

#[test]
fn test_image_config_resolves_relative_local_paths_against_config_dir() {
    let image_path = "/tmp/agentenv/overlaybd/overlaybd-image.json";
    let mut cfg = ImageConfig {
        repo_blob_url: String::new(),
        lowers: vec![LayerConfig {
            gzip_index: "../gzip/base.index".to_string(),
            file: "../rootfs/base.commit".to_string(),
            target_file: "./target.commit".to_string(),
            dir: "./download/layer-1".to_string(),
            repo_blob_url: String::new(),
            digest: String::new(),
            uuid: String::new(),
            target_digest: String::new(),
            size: 0,
        }],
        upper: UpperConfig {
            mode: Some(UpperMode::LogStructured),
            index: "./upper.index".to_string(),
            data: "./upper.data".to_string(),
            target: String::new(),
            gzip_index: String::new(),
        },
        result_file: "./result.txt".to_string(),
        download_override: Some(DownloadConfig::default()),
        acceleration_layer: false,
        record_trace_path: "./trace.log".to_string(),
        base_template: None,
    };

    resolve_image_config_local_paths(image_path, &mut cfg);

    assert_eq!(cfg.lowers[0].gzip_index, "/tmp/agentenv/gzip/base.index");
    assert_eq!(cfg.lowers[0].file, "/tmp/agentenv/rootfs/base.commit");
    assert_eq!(
        cfg.lowers[0].target_file,
        "/tmp/agentenv/overlaybd/target.commit"
    );
    assert_eq!(
        cfg.lowers[0].dir,
        "/tmp/agentenv/overlaybd/download/layer-1"
    );
    assert_eq!(cfg.upper.index, "/tmp/agentenv/overlaybd/upper.index");
    assert_eq!(cfg.upper.data, "/tmp/agentenv/overlaybd/upper.data");
    assert_eq!(cfg.upper.mode, Some(UpperMode::LogStructured));
    assert_eq!(cfg.result_file, "/tmp/agentenv/overlaybd/result.txt");
    assert_eq!(cfg.record_trace_path, "/tmp/agentenv/overlaybd/trace.log");

    // Empty fields stay empty, and once more changes nothing.
    assert_eq!(cfg.upper.target, "");
    let once = cfg.clone();
    resolve_image_config_local_paths(image_path, &mut cfg);
    assert_eq!(cfg, once);
}

#[test]
fn addresses_and_absolute_paths_keep_their_place() {
    let mut cfg = ImageConfig {
        lowers: vec![LayerConfig {
            file: s("s3://bucket/../layer"),
            dir: s("/var//lib/./x/../y/"),
            target_file: s("a.commit"),
            ..LayerConfig::default()
        }],
        ..ImageConfig::default()
    };
    resolve_image_config_local_paths("image.json", &mut cfg);
    assert_eq!(cfg.lowers[0].file, "s3://bucket/../layer");
    assert_eq!(cfg.lowers[0].dir, "/var/lib/y");
    assert_eq!(cfg.lowers[0].target_file, "a.commit");
    cfg.lowers[0].target_file = s("b.commit");
    resolve_image_config_local_paths("conf/./image.json", &mut cfg);
    assert_eq!(cfg.lowers[0].target_file, "conf/b.commit");
    cfg.lowers[0].target_file = s("b.commit");
    resolve_image_config_local_paths("/", &mut cfg);
    assert_eq!(cfg.lowers[0].target_file, "b.commit");
    cfg.lowers[0].target_file = s("../../b.commit");
    resolve_image_config_local_paths("/image.json", &mut cfg);
    assert_eq!(cfg.lowers[0].target_file, "/b.commit");
}

#[test]
fn defaults_of_every_section() {
    let g = GlobalConfig::default();
    assert_eq!(g.registry_cache_dir, "/opt/overlaybd/registry_cache");
    assert_eq!(g.credential_file_path, "/opt/overlaybd/cred.json");
    assert_eq!(g.registry_cache_size_gb, 4);
    assert_eq!(g.io_engine, 0);
    assert_eq!(g.cache_type, "file");
    assert_eq!(g.log_level, 1);
    assert_eq!(g.log_path, "/var/log/overlaybd.log");
    assert!(g.enable_audit);
    assert!(!g.enable_thread);
    assert_eq!(g.audit_path, "/var/log/overlaybd-audit.log");
    assert_eq!(g.registry_fs_version, "v2");
    assert_eq!(g.user_agent, PACKAGE_VERSION);
    assert_eq!(g.nr_io_rings, 4);
    assert_eq!(
        g.download,
        DownloadConfig {
            enable: false,
            delay: 300,
            delay_extra: 30,
            max_mbps: 100,
            try_cnt: 5,
            block_size: 16 * 1024 * 1024,
            concurrency: 1,
            max_inflight_blocks: 16,
            max_concurrent_files: 8,
        }
    );
    assert_eq!(
        g.p2p_config,
        P2PConfig {
            enable: false,
            address: s("http://localhost:9731/accelerator")
        }
    );
    assert_eq!(
        g.exporter_config,
        ExporterConfig {
            enable: false,
            uri_prefix: s("/metrics"),
            port: 9863,
            update_interval: 60 * 1000 * 1000
        }
    );
    assert_eq!(
        g.cache_config,
        CacheConfig {
            cache_type: String::new(),
            cache_dir: s("/opt/overlaybd/registry_cache"),
            cache_size_gb: 4,
            refill_size: 262_144
        }
    );
    assert_eq!(
        g.gzip_cache_config,
        GzipCacheConfig {
            enable: false,
            cache_dir: s("/opt/overlaybd/gzip_cache"),
            cache_size_gb: 4,
            refill_size: 1024 * 1024
        }
    );
    assert_eq!(g.oss_config.timeout_secs, 30);
    assert_eq!(g.oss_config.retry_count, 3);
    assert_eq!(
        g.log_config,
        LogConfig {
            log_level: 1,
            log_path: String::new(),
            log_size_mb: 10,
            log_rotate_num: 3
        }
    );
    assert_eq!(g.prefetch_config, PrefetchConfig { concurrency: 16 });
    assert_eq!(
        g.cert_config,
        CertConfig {
            cert_file: String::new(),
            key_file: String::new()
        }
    );
    assert_eq!(
        g.credential_config,
        CredentialConfig {
            mode: String::new(),
            path: String::new(),
            timeout: 1
        }
    );
    assert_eq!(g.clone(), g);
    let ready = load_global_config(ConfigFile::Parsed(g)).expect("the defaults are accepted");
    assert_eq!(ready.credential_config.path, "/opt/overlaybd/cred.json");
    let mut twice = ready.clone();
    twice.normalize_compat_fields();
    assert_eq!(twice, ready);
}

#[test]
fn merging_fills_log_limits_and_user_agent() {
    let mut cfg = GlobalConfig {
        cache_type: String::new(),
        user_agent: String::new(),
        credential_file_path: String::new(),
        log_config: LogConfig {
            log_level: 7,
            log_path: String::new(),
            log_size_mb: 0,
            log_rotate_num: -1,
        },
        ..GlobalConfig::default()
    };
    cfg.normalize_compat_fields();
    assert_eq!(cfg.cache_config.cache_type, "file");
    assert_eq!(cfg.user_agent, "0.1.0");
    assert_eq!(cfg.credential_config.mode, "");
    assert_eq!(cfg.log_config.log_level, 1);
    assert_eq!(cfg.log_config.log_size_mb, 10);
    assert_eq!(cfg.log_config.log_rotate_num, 3);
    let mut kept = GlobalConfig {
        log_config: LogConfig {
            log_level: 7,
            log_path: s("/x"),
            log_size_mb: 0,
            log_rotate_num: -1,
        },
        credential_config: CredentialConfig {
            mode: s("http"),
            path: s("http://c"),
            timeout: 9,
        },
        user_agent: s("me"),
        ..GlobalConfig::default()
    };
    kept.normalize_compat_fields();
    assert_eq!(kept.log_config.log_level, 7);
    assert_eq!(kept.log_config.log_size_mb, 0);
    assert_eq!(kept.credential_config.mode, "http");
    assert_eq!(kept.user_agent, "me");
}

fn download_error(change: fn(&mut DownloadConfig)) -> String {
    let mut cfg = GlobalConfig::default();
    change(&mut cfg.download);
    global_error(cfg)
}

#[test]
fn every_download_limit_has_its_message() {
    assert_eq!(
        download_error(|d| d.concurrency = 17),
        "download.concurrency must be <= 16 (in download.concurrency)"
    );
    assert_eq!(
        download_error(|d| d.block_size = 0),
        "download.blockSize must be > 0 (in download.concurrency)"
    );
    assert_eq!(
        download_error(|d| d.block_size = 64 * 1024 * 1024 + 1),
        "download.blockSize must be <= 67108864 bytes (in download.concurrency)"
    );
    assert_eq!(
        download_error(|d| {
            d.block_size = 64 * 1024 * 1024;
            d.concurrency = 5
        }),
        "download.blockSize * concurrency must be <= 268435456 bytes (in download.concurrency)"
    );
    assert_eq!(
        download_error(|d| d.max_inflight_blocks = 0),
        "download.maxInflightBlocks must be > 0 (in download)"
    );
    assert_eq!(
        download_error(|d| d.max_inflight_blocks = 129),
        "download.maxInflightBlocks must be <= 128 (in download)"
    );
    assert_eq!(
        download_error(|d| d.max_concurrent_files = 0),
        "download.maxConcurrentFiles must be > 0 (in download)"
    );
    assert_eq!(
        download_error(|d| d.max_concurrent_files = 129),
        "download.maxConcurrentFiles must be <= 128 (in download)"
    );
    assert_eq!(
        download_error(|d| {
            d.block_size = 16 * 1024 * 1024 + 1;
            d.max_inflight_blocks = 128
        }),
        "download.blockSize * maxInflightBlocks must be <= 2147483648 bytes (in download)"
    );
    let mut edge = GlobalConfig::default();
    edge.download.block_size = 16 * 1024 * 1024;
    edge.download.concurrency = 16;
    edge.download.max_inflight_blocks = 128;
    edge.download.max_concurrent_files = 128;
    edge.normalize_compat_fields();
    assert!(validate_global_config(&edge).is_ok());
}

#[test]
fn every_global_fault_has_its_message() {
    let with = |change: fn(&mut GlobalConfig)| {
        let mut cfg = GlobalConfig::default();
        change(&mut cfg);
        global_error(cfg)
    };
    assert_eq!(with(|g| g.io_engine = 3), "unknown ioEngine 3");
    assert_eq!(
        with(|g| g.cache_type = "ram".to_string()),
        "unknown cache type: ram"
    );
    assert_eq!(
        with(|g| g.enable_thread = true),
        "enableThread=true is invalid when cache type is file"
    );
    assert_eq!(
        with(|g| g.credential_config.mode = "http".to_string()),
        "credentialConfig.path cannot be empty when mode is set"
    );
    assert_eq!(
        with(|g| g.credential_config.mode = "ftp".to_string()),
        "invalid credential mode ftp"
    );
    assert_eq!(
        with(|g| {
            g.p2p_config.enable = true;
            g.p2p_config.address = String::new()
        }),
        "p2pConfig.address cannot be empty when p2p is enabled"
    );
    assert_eq!(
        with(|g| g.registry_fs_version = "v3".to_string()),
        "unsupported registryFsVersion v3"
    );
    assert_eq!(
        with(|g| g.oss_config.enable = true),
        "ossConfig.defaultEndpoint cannot be empty when oss is enabled"
    );
    assert_eq!(
        with(|g| g.nr_io_rings = 0),
        "nr_io_rings cannot be zero"
    );
    let mut one_key = oss("r");
    one_key.oss_config.access_key_id = s("ak");
    assert_eq!(
        global_error(one_key),
        "ossConfig.accessKeyId and ossConfig.secretAccessKey must be set together"
    );
    let mut style = oss(" r ");
    style.oss_config.default_addressing_style = s(" dns ");
    assert_eq!(
        global_error(style),
        "ossConfig.defaultAddressingStyle must be 'virtual', 'path', or empty for auto-detection, got ' dns '"
    );
    let mut fine = oss("r");
    fine.oss_config.default_addressing_style = s("\tvirtual\n");
    assert!(load_global_config(ConfigFile::Parsed(fine)).is_ok());
    assert!(global_error(oss(" \t ")).contains("defaultRegion"));
}

#[test]
fn every_image_fault_has_its_message() {
    let mut many = remote_image(UpperConfig::default());
    while many.lowers.len() <= MAX_LAYER_CNT {
        let layer = many.lowers[0].clone();
        many.lowers.push(layer);
    }
    assert_eq!(image_error(&many), "too many lowers: 257, max 256");
    many.lowers.pop();
    assert!(validate_image_config(&many).is_ok());
    assert_eq!(
        image_error(&ImageConfig::default()),
        "image config has no lowers and no writable upper"
    );
    let mut blank = remote_image(UpperConfig::default());
    blank.lowers.push(LayerConfig::default());
    assert_eq!(
        image_error(&blank),
        "each lower must provide at least one of file/dir/digest"
    );
    let mut traced = remote_image(UpperConfig::default());
    traced.acceleration_layer = true;
    traced.record_trace_path = s("/t");
    assert_eq!(
        image_error(&traced),
        "accelerationLayer and recordTracePath cannot be enabled together"
    );
    let mut slow = remote_image(UpperConfig::default());
    slow.download_override = Some(DownloadConfig {
        concurrency: 0,
        ..DownloadConfig::default()
    });
    assert_eq!(
        image_error(&slow),
        "download override concurrency must be > 0"
    );
    let no_data = UpperConfig {
        mode: Some(UpperMode::Sparse),
        ..UpperConfig::default()
    };
    assert_eq!(
        validate_upper_config(&no_data).unwrap_err().message,
        "upper.data is required when upper.mode is sparse"
    );
    assert_eq!(validate_upper_config(&UpperConfig::default()), Ok(false));
}

#[test]
fn scheduler_caps_of_an_image_have_no_effect() {
    let mut cfg = remote_image(UpperConfig::default());
    for caps in [(0, 0), (1, 1), (usize::MAX, usize::MAX)] {
        cfg.download_override = Some(DownloadConfig {
            max_inflight_blocks: caps.0,
            max_concurrent_files: caps.1,
            ..DownloadConfig::default()
        });
        assert_eq!(validate_image_config(&cfg), Ok(()));
    }
}

#[test]
fn own_download_settings_go_before_shared_ones() {
    let global = GlobalConfig::default();
    let mut image = ImageConfig::default();
    assert_eq!(*image.effective_download(&global), global.download);
    let own = DownloadConfig {
        delay: 1,
        ..DownloadConfig::default()
    };
    image.download_override = Some(own);
    assert_eq!(*image.effective_download(&global), own);
}

#[test]
fn loading_resolves_before_checking() {
    let cfg = ImageConfig {
        lowers: vec![LayerConfig {
            file: s("base.commit"),
            ..LayerConfig::default()
        }],
        ..ImageConfig::default()
    };
    let ready = load_image_config("/img/image.json", ConfigFile::Parsed(cfg)).expect("accepted");
    assert_eq!(ready.lowers[0].file, "/img/base.commit");
    // A file that resolves to nothing is no file.
    let gone = ImageConfig {
        lowers: vec![LayerConfig {
            file: s(".."),
            ..LayerConfig::default()
        }],
        ..ImageConfig::default()
    };
    assert!(load_image_config("image.json", ConfigFile::Parsed(gone)).is_err());
}

#[test]
fn what_cannot_be_read_is_not_loaded() {
    let message = |file| load_image_config("/i.json", file).unwrap_err().message;
    assert_eq!(message(ConfigFile::Unreadable), "reading image config file");
    assert_eq!(
        message(ConfigFile::Unparsable),
        "parse image config json failed"
    );
    let message = |file| load_global_config(file).unwrap_err().message;
    assert_eq!(message(ConfigFile::Unreadable), "reading global config file");
    assert_eq!(
        message(ConfigFile::Unparsable),
        "parse global config json failed"
    );
}

#[test]
fn what_is_loaded_passes_the_checks() {
    let cfg = remote_image(UpperConfig::default());
    let ready = load_image_config("/img/image.json", ConfigFile::Parsed(cfg)).expect("accepted");
    assert_eq!(validate_image_config(&ready), Ok(()));
    let ready =
        load_global_config(ConfigFile::Parsed(GlobalConfig::default())).expect("accepted");
    assert_eq!(validate_global_config(&ready), Ok(()));
}

#[test]
fn path_fields_are_resolved_once_and_for_all() {
    for (value, expected) in [
        ("", ""),
        ("https://host/a/../b", "https://host/a/../b"),
        ("layer.commit", "/img/conf/layer.commit"),
        ("../x/./y", "/img/x/y"),
        ("/abs/../z//w", "/z/w"),
        ("../../../..", "/"),
    ] {
        let mut field = s(value);
        resolve_path_field("/img/conf", &mut field);
        assert_eq!(field, expected);
        resolve_path_field("/img/conf", &mut field);
        assert_eq!(field, expected);
    }
    let mut relative = s("../a/b");
    resolve_path_field(".", &mut relative);
    assert_eq!(relative, "a/b");
}
