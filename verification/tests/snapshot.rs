use agentenv::dirty_memory::checked_i64_to_u64;
use agentenv::dirty_memory::dirty_ranges_to_segment_mappings;
use agentenv::dirty_memory::DirtyMemoryRange;
use agentenv::dirty_memory::DirtyMemoryRanges;
use agentenv::dirty_memory::Segment;
use agentenv::dirty_memory::SegmentMapping;
use agentenv::dirty_memory::FIRECRACKER_DIRTY_PAGE_SIZE;
use agentenv::dirty_memory::OVERLAYBD_ALIGNMENT;
use agentenv::failure::Failure;
use agentenv::overlaybd_config::DownloadConfig;
use agentenv::overlaybd_config::ImageConfig;
use agentenv::overlaybd_config::LayerConfig;
use agentenv::overlaybd_config::UpperConfig;
use agentenv::snapshot_capture::append_restacked_layer;
use agentenv::snapshot_capture::convert_dirty_memory_to_overlaybd;
use agentenv::snapshot_capture::finish_stage;
use agentenv::snapshot_capture::first_link_step;
use agentenv::snapshot_capture::into_terminal_snapshot_failure;
use agentenv::snapshot_capture::load_existing_image_config;
use agentenv::snapshot_capture::mem_snapshot_config;
use agentenv::snapshot_capture::next_link_step;
use agentenv::snapshot_capture::next_publish_step;
use agentenv::snapshot_capture::next_replace_step;
use agentenv::snapshot_capture::plan_mem_lowers;
use agentenv::snapshot_capture::restack_target_upper_data_path;
use agentenv::snapshot_capture::rootfs_snapshot_dir;
use agentenv::snapshot_capture::sparse_copy_args;
use agentenv::snapshot_capture::stage_overlaybd_snapshot_from_live_runtime;
use agentenv::snapshot_capture::staged_config_path;
use agentenv::snapshot_capture::start_capture;
use agentenv::snapshot_capture::take_restacked_layer;
use agentenv::snapshot_capture::temp_dir_for_copy;
use agentenv::snapshot_capture::temp_dir_for_write;
use agentenv::snapshot_capture::temp_layer_path;
use agentenv::snapshot_capture::CaptureEvent;
use agentenv::snapshot_capture::CaptureFailure;
use agentenv::snapshot_capture::CaptureRun;
use agentenv::snapshot_capture::CaptureStart;
use agentenv::snapshot_capture::CaptureStep;
use agentenv::snapshot_capture::LinkEvent;
use agentenv::snapshot_capture::LinkStep;
use agentenv::snapshot_capture::LiveOverlaybdSnapshotState;
use agentenv::snapshot_capture::PublishStep;
use agentenv::snapshot_capture::ReplaceStep;
use agentenv::snapshot_capture::SealedLayer;
use agentenv::snapshot_layers::finish_compaction;
use agentenv::snapshot_layers::local_layer_config;
use agentenv::snapshot_layers::local_layer_config_with_descriptor;
use agentenv::snapshot_layers::plan_lowers;
use agentenv::snapshot_layers::split_runtime_suffix;
use agentenv::snapshot_layers::LayerDescriptor;
use agentenv::snapshot_layers::LowersPlan;
use agentenv::snapshot_layers::OverlaybdCompactOutput;
use agentenv::snapshot_layers::DEFAULT_MAX_OVERLAYBD_SNAPSHOT_LAYERS;
use agentenv::snapshot_layers::INHERITED_LAYERS_DIR;
use agentenv::snapshot_layers::MANAGED_BASE_LAYER_FILE;
use std::path::Path;
use std::path::PathBuf;

fn s(text: &str) -> String {
    text.to_string()
}

fn range(base: i64, offset: i64, length: i64) -> DirtyMemoryRange {
    DirtyMemoryRange {
        base_host_virt_addr: base,
        image_offset: offset,
        length,
    }
}

fn pages(memory_pages: i64, ranges: Vec<DirtyMemoryRange>) -> DirtyMemoryRanges {
    DirtyMemoryRanges {
        page_size: 4096,
        memory_size: memory_pages * 4096,
        ranges,
    }
}

fn dirty_error(ranges: &DirtyMemoryRanges) -> String {
    dirty_ranges_to_segment_mappings(ranges)
        .unwrap_err()
        .message
}

/// One sector more than a segment holds makes whole pages.
#[test]
fn dirty_ranges_to_segment_mappings_splits_large_ranges() {
    let first_chunk = Segment::MAX_LENGTH as i64 * OVERLAYBD_ALIGNMENT as i64;
    let dirty_ranges = DirtyMemoryRanges {
        page_size: 4096,
        memory_size: first_chunk + OVERLAYBD_ALIGNMENT as i64,
        ranges: vec![DirtyMemoryRange {
            base_host_virt_addr: 0x1000_0000,
            image_offset: 0,
            length: first_chunk + OVERLAYBD_ALIGNMENT as i64,
        }],
    };

    let (mappings, memory_size) =
        dirty_ranges_to_segment_mappings(&dirty_ranges).expect("convert mappings");

    assert_eq!(memory_size, dirty_ranges.memory_size as u64);
    assert_eq!(mappings.len(), 2);
    assert_eq!(mappings[0].offset(), 0);
    assert_eq!(mappings[0].length(), Segment::MAX_LENGTH);
    assert_eq!(mappings[0].moffset, 0x1000_0000 / OVERLAYBD_ALIGNMENT);
    assert_eq!(mappings[1].offset(), Segment::MAX_LENGTH as u64);
    assert_eq!(mappings[1].length(), 1);
    assert_eq!(
        mappings[1].moffset,
        0x1000_0000 / OVERLAYBD_ALIGNMENT + Segment::MAX_LENGTH as u64
    );
}

#[test]
fn dirty_ranges_to_segment_mappings_rejects_non_4k_page_size() {
    let dirty_ranges = DirtyMemoryRanges {
        page_size: 2048,
        memory_size: FIRECRACKER_DIRTY_PAGE_SIZE as i64,
        ranges: Vec::new(),
    };
    let err = dirty_error(&dirty_ranges);
    assert!(
        err.contains("dirty memory page_size must be 4096"),
        "{err}"
    );
}

#[test]
fn dirty_ranges_to_segment_mappings_rejects_non_page_aligned_range() {
    let dirty_ranges = DirtyMemoryRanges {
        page_size: FIRECRACKER_DIRTY_PAGE_SIZE as i32,
        memory_size: FIRECRACKER_DIRTY_PAGE_SIZE as i64,
        ranges: vec![DirtyMemoryRange {
            base_host_virt_addr: 0x1000_0000,
            image_offset: 0,
            length: OVERLAYBD_ALIGNMENT as i64,
        }],
    };
    let err = dirty_error(&dirty_ranges);
    assert!(
        err.contains("dirty range length 512 is not 4096-byte aligned"),
        "{err}"
    );
}

#[test]
fn dirty_ranges_to_segment_mappings_rejects_overlaps() {
    let dirty_ranges = DirtyMemoryRanges {
        page_size: FIRECRACKER_DIRTY_PAGE_SIZE as i32,
        memory_size: (FIRECRACKER_DIRTY_PAGE_SIZE * 3) as i64,
        ranges: vec![
            DirtyMemoryRange {
                base_host_virt_addr: 0x1000_0000,
                image_offset: 0,
                length: (FIRECRACKER_DIRTY_PAGE_SIZE * 2) as i64,
            },
            DirtyMemoryRange {
                base_host_virt_addr: 0x2000_0000,
                image_offset: FIRECRACKER_DIRTY_PAGE_SIZE as i64,
                length: FIRECRACKER_DIRTY_PAGE_SIZE as i64,
            },
        ],
    };
    let err = dirty_error(&dirty_ranges);
    assert!(
        err.contains("overlapping dirty memory destination ranges detected"),
        "{err}"
    );
    assert!(err.ends_with("at image sectors 0 and 8"), "{err}");
}

#[test]
fn mappings_come_in_the_order_of_the_image() {
    let (mappings, _) = dirty_ranges_to_segment_mappings(&pages(
        4,
        vec![
            range(0x4000, 3 * 4096, 4096),
            range(0x9000, 0, 4096),
            range(0x1000, 4096, 8192),
        ],
    ))
    .expect("disjoint ranges");
    assert_eq!(
        mappings,
        vec![
            SegmentMapping::new(0, 8, 0x9000 / 512, false, 0),
            SegmentMapping::new(8, 16, 0x1000 / 512, false, 0),
            SegmentMapping::new(24, 8, 0x4000 / 512, false, 0),
        ]
    );
    let (none, size) = dirty_ranges_to_segment_mappings(&pages(0, vec![])).expect("empty memory");
    assert!(none.is_empty());
    assert_eq!(size, 0);
    // Sources may overlap.
    assert!(dirty_ranges_to_segment_mappings(&pages(
        2,
        vec![range(0x1000, 0, 4096), range(0x1000, 4096, 4096)]
    ))
    .is_ok());
}

#[test]
fn the_segments_do_not_depend_on_the_order_of_the_report() {
    let (a, b, c) = (
        range(0x9000, 0, 4096),
        range(0x1000, 4096, 16384 * 512),
        range(0x80_0000, 16384 * 512 + 4096, 4096),
    );
    let expected = dirty_ranges_to_segment_mappings(&pages(3000, vec![a, b, c])).expect("sound");
    assert_eq!(expected.0.len(), 4);
    for order in [[a, c, b], [b, a, c], [b, c, a], [c, a, b], [c, b, a]] {
        assert_eq!(
            dirty_ranges_to_segment_mappings(&pages(3000, order.to_vec())),
            Ok((expected.0.clone(), expected.1))
        );
    }
}

#[test]
fn the_message_of_an_overlap_does_not_depend_on_the_order_of_the_report() {
    let first = range(0x10_000, 8192, 8192);
    let same_place = range(0x40_000, 8192, 4096);
    let later = range(0x80_000, 12288, 4096);
    let message =
        "overlapping dirty memory destination ranges detected at image sectors 16 and 16";
    for ranges in [
        vec![first, same_place, later],
        vec![same_place, first, later],
        vec![later, first, same_place],
        vec![later, same_place, first],
    ] {
        assert_eq!(dirty_error(&pages(8, ranges)), message);
    }
}

#[test]
fn every_fault_of_dirty_ranges_has_its_message() {
    let mut negative = pages(1, vec![]);
    negative.memory_size = -1;
    assert_eq!(
        dirty_error(&negative),
        "memory_size must be non-negative, got -1"
    );
    negative.memory_size = 5000;
    assert_eq!(
        dirty_error(&negative),
        "dirty memory_size 5000 is not 4096-byte aligned"
    );
    assert_eq!(
        dirty_error(&pages(1, vec![range(-4096, 0, 4096)])),
        "base_host_virt_addr must be non-negative, got -4096"
    );
    assert_eq!(
        dirty_error(&pages(1, vec![range(0, -4096, 4096)])),
        "image_offset must be non-negative, got -4096"
    );
    assert_eq!(
        dirty_error(&pages(1, vec![range(0, 0, i64::MIN)])),
        "length must be non-negative, got -9223372036854775808"
    );
    assert_eq!(
        dirty_error(&pages(1, vec![range(0, 0, 0)])),
        "dirty memory range length must be positive"
    );
    assert_eq!(
        dirty_error(&pages(1, vec![range(0x1000_0010, 0, 4096)])),
        "dirty range base_host_virt_addr 0x10000010 is not 4096-byte aligned"
    );
    assert_eq!(
        dirty_error(&pages(1, vec![range(0, 512, 4096)])),
        "dirty range image_offset 512 is not 4096-byte aligned"
    );
    assert_eq!(
        dirty_error(&pages(2, vec![range(0, 4096, 8192)])),
        "dirty range [4096, 12288) exceeds memory_size 8192"
    );
    assert_eq!(checked_i64_to_u64(7, "x"), Ok(7));
}

#[test]
fn split_runtime_suffix_preserves_stable_lowers() {
    let roots = vec![s("/var/lib/managed"), s("/var/lib/persisted")];
    let snapshot_store_lower = "/srv/store/managed-layers/sha256_base.overlaybd.commit";
    let persisted_store_lower =
        "/var/lib/persisted/artifacts/sandbox-parent/1700000000000/rootfs/snapshot.commit";
    let managed_base_lower = "/var/lib/managed/sandbox/1700000000001/mem.commit";
    let lowers = vec![
        LayerConfig {
            file: String::new(),
            digest: "sha256:remote".to_string(),
            size: 42,
            ..LayerConfig::default()
        },
        local_layer_config(snapshot_store_lower),
        local_layer_config(persisted_store_lower),
        local_layer_config(managed_base_lower),
    ];

    let (preserved, managed) = split_runtime_suffix(lowers, &vec![], &roots);

    assert_eq!(preserved.len(), 2);
    assert_eq!(preserved[0].file, "");
    assert_eq!(preserved[0].digest, "sha256:remote");
    assert_eq!(preserved[1].file, snapshot_store_lower);
    assert_eq!(managed.len(), 2);
    assert_eq!(managed[0].file, persisted_store_lower);
    assert_eq!(managed[1].file, managed_base_lower);
}

#[test]
fn resolved_paths_decide_who_owns_a_layer() {
    let roots = vec![s("/real/root")];
    let layers = vec![local_layer_config("/link/a"), local_layer_config("/link/b")];
    let (kept, owned) = split_runtime_suffix(
        layers,
        &vec![None, Some(s("/real/root/b"))],
        &roots,
    );
    assert_eq!((kept.len(), owned.len()), (1, 1));
    // A name that only begins like the root is another directory.
    let (kept, owned) =
        split_runtime_suffix(vec![local_layer_config("/real/rootfs/a")], &vec![], &roots);
    assert_eq!((kept.len(), owned.len()), (1, 0));
    // What follows an owned layer is part of the suffix, whoever owns it.
    let (kept, owned) = split_runtime_suffix(
        vec![local_layer_config("/real/root/a"), local_layer_config("/x")],
        &vec![],
        &roots,
    );
    assert_eq!((kept.len(), owned.len()), (0, 2));
}

#[test]
fn snapshot_adopts_persisted_runtime_suffix_by_link() {
    let artifacts_root = "/tmp/t/persisted-sandboxes/artifacts";
    let output_dir = format!("{artifacts_root}/sandbox-c/gen1/rootfs");
    let parent_root = format!("{artifacts_root}/sandbox-b/gen1/rootfs");
    let parent_base = format!("{parent_root}/managed-base.commit");
    let parent_snapshot = format!("{parent_root}/snapshot.commit");
    let cache_layer = "/tmp/t/image-cache/commits/sha256-base/overlaybd.commit";
    let lowers = vec![
        LayerConfig {
            file: s(cache_layer),
            digest: "sha256:base".to_string(),
            size: 10,
            ..LayerConfig::default()
        },
        local_layer_config(&parent_base),
        local_layer_config(&parent_snapshot),
    ];

    let plan = plan_lowers(
        lowers,
        &vec![],
        &vec![s(artifacts_root)],
        &output_dir,
        None,
        MANAGED_BASE_LAYER_FILE,
        OverlaybdCompactOutput::Raw,
    )
    .expect("rewrite inherited runtime layers");
    let LowersPlan::Adopt { links, lowers: rewritten } = plan else {
        panic!("nothing is compacted")
    };

    assert_eq!(rewritten.len(), 3);
    assert_eq!(rewritten[0].file, cache_layer);
    assert_eq!(rewritten[0].digest, "sha256:base");
    assert_eq!(rewritten[0].size, 10);
    assert_eq!(links.len(), 2);

    for (index, (rewritten_lower, source)) in rewritten[1..]
        .iter()
        .zip([parent_base, parent_snapshot])
        .enumerate()
    {
        let adopted = PathBuf::from(&rewritten_lower.file);
        let expected_parent = Path::new(&output_dir)
            .join(INHERITED_LAYERS_DIR)
            .join(format!("{index:04}"));
        assert!(adopted.starts_with(expected_parent));
        assert!(!adopted.starts_with(&parent_root));
        assert_eq!(adopted.file_name(), Path::new(&source).file_name());
        assert!(rewritten_lower.digest.is_empty());
        assert_eq!(rewritten_lower.size, 0);
        assert_eq!(links[index].source, source);
        assert_eq!(links[index].destination, rewritten_lower.file);
    }
}

#[test]
fn an_adopted_layer_without_a_name_gets_one() {
    let plan = plan_lowers(
        vec![local_layer_config("/own/..")],
        &vec![],
        &vec![s("/own")],
        "/out",
        None,
        "x.commit",
        OverlaybdCompactOutput::Raw,
    )
    .expect("planned");
    let LowersPlan::Adopt { links, .. } = plan else {
        panic!("nothing is compacted")
    };
    assert_eq!(
        links[0].destination,
        "/out/inherited-layers/0000/runtime-layer.commit"
    );
}

fn owned(n: usize) -> Vec<LayerConfig> {
    (0..n)
        .map(|i| local_layer_config(&format!("/own/{i}.commit")))
        .collect()
}

#[test]
fn many_layers_are_compacted_with_the_new_one() {
    let roots = vec![s("/own")];
    let max = DEFAULT_MAX_OVERLAYBD_SNAPSHOT_LAYERS;
    let top = local_layer_config("/out/snapshot.commit");
    let plan = plan_lowers(
        owned(max),
        &vec![],
        &roots,
        "/out",
        Some(top),
        "base.commit",
        OverlaybdCompactOutput::Compressed(s("zstd")),
    );
    let Ok(LowersPlan::Compact {
        kept,
        suffix,
        output,
        mode,
    }) = plan
    else {
        panic!("one layer too many")
    };
    assert!(kept.is_empty());
    assert_eq!(suffix.len(), max + 1);
    assert_eq!(suffix[max].file, "/out/snapshot.commit");
    assert_eq!(output, "/out/base.commit");
    assert_eq!(mode, OverlaybdCompactOutput::Compressed(s("zstd")));
    let done = finish_compaction(kept, Some("/out/base.commit"));
    assert_eq!(done, vec![local_layer_config("/out/base.commit")]);
    assert!(finish_compaction(vec![], None).is_empty());

    let raw = OverlaybdCompactOutput::Raw;
    let plan = plan_lowers(owned(max), &vec![], &roots, "/out", None, "base.commit", raw);
    assert!(matches!(plan, Ok(LowersPlan::Adopt { .. })));

    let mut remote = owned(max);
    remote[3].file = String::new();
    let top = Some(local_layer_config("/out/snapshot.commit"));
    assert_eq!(
        plan_lowers(
            remote,
            &vec![],
            &roots,
            "/out",
            top,
            "base.commit",
            OverlaybdCompactOutput::Raw
        )
            .unwrap_err()
            .message,
        "cannot compact runtime-owned overlaybd suffix with remote lowers"
    );
}

#[test]
fn stage_live_runtime_preserves_restacked_layer_descriptor() {
    let snapshot_lower = "/tmp/t/out/snapshot.commit";
    let live = ImageConfig {
        lowers: vec![LayerConfig {
            file: s(snapshot_lower),
            digest: "sha256:descriptor".to_string(),
            size: 8,
            ..LayerConfig::default()
        }],
        upper: UpperConfig {
            data: s("/tmp/t/live/upper.data"),
            index: s("/tmp/t/live/upper.index"),
            ..UpperConfig::default()
        },
        result_file: s("/tmp/t/live/result.txt"),
        ..ImageConfig::default()
    };
    let sealed = Some(SealedLayer {
        expected: s(snapshot_lower),
        actual: None,
    });
    let stage = stage_overlaybd_snapshot_from_live_runtime(
        live,
        &sealed,
        &vec![],
        &vec![s("/managed")],
        "/tmp/t/out",
    )
    .expect("stage snapshot");
    let staged = finish_stage(stage, None);
    let latest = staged.lowers.last().expect("latest lower");
    assert_eq!(latest.file, snapshot_lower);
    assert_eq!(latest.digest, "sha256:descriptor");
    assert_eq!(latest.size, 8);
    assert_eq!(staged.upper, UpperConfig::default());
    assert_eq!(staged.result_file, "./result.txt");
    assert_eq!(staged_config_path("/tmp/t/out"), "/tmp/t/out/image.json");
}

#[test]
fn staging_a_compacted_image_uses_the_compacted_layer() {
    let mut live = ImageConfig::default();
    live.lowers = vec![local_layer_config("/img/base")];
    live.lowers.extend(owned(40));
    let stage = stage_overlaybd_snapshot_from_live_runtime(
        live,
        &None,
        &vec![],
        &vec![s("/own")],
        "/out",
    )
    .expect("planned");
    let LowersPlan::Compact { output, mode, .. } = &stage.lowers else {
        panic!("too many layers")
    };
    assert_eq!(output, "/out/managed-base.commit");
    assert_eq!(*mode, OverlaybdCompactOutput::Raw);
    let output = output.clone();
    let staged = finish_stage(stage, Some(&output));
    assert_eq!(staged.lowers.len(), 2);
    assert_eq!(staged.lowers[1], local_layer_config("/out/managed-base.commit"));
}

#[test]
fn build_mem_snapshot_image_config_skips_compaction_for_remote_lowers() {
    let repo_blob_url = "s3://agentenv-oss-validation/validation/managed-layers";
    let inherited = ImageConfig {
        repo_blob_url: s(repo_blob_url),
        lowers: (0..DEFAULT_MAX_OVERLAYBD_SNAPSHOT_LAYERS)
            .map(|index| LayerConfig {
                digest: format!("sha256:parent-{index}"),
                size: 4096,
                ..LayerConfig::default()
            })
            .collect(),
        download_override: Some(DownloadConfig::default()),
        ..ImageConfig::default()
    };
    let new_layer = "/tmp/t/mem_overlaybd/overlaybd.commit";
    let inherited = load_existing_image_config(
        Some(Ok(inherited)),
        "/tmp/t/parent-mem-image.json",
        "memory snapshot",
    )
    .expect("loaded");
    let plan = plan_mem_lowers(
        inherited.lowers.clone(),
        new_layer,
        &vec![],
        &vec![s("/managed")],
        "/tmp/t",
        OverlaybdCompactOutput::Raw,
    )
    .expect("build memory image config");
    let LowersPlan::Adopt { links, lowers } = plan else {
        panic!("remote layers are not compacted")
    };
    assert!(links.is_empty());
    let image_config = mem_snapshot_config(inherited, lowers);

    assert_eq!(image_config.repo_blob_url, repo_blob_url);
    assert_eq!(
        image_config.lowers.len(),
        DEFAULT_MAX_OVERLAYBD_SNAPSHOT_LAYERS + 1
    );
    assert_eq!(image_config.lowers[0].digest, "sha256:parent-0");
    assert!(image_config.lowers[..DEFAULT_MAX_OVERLAYBD_SNAPSHOT_LAYERS]
        .iter()
        .all(|lower| lower.file.is_empty()));
    let latest = image_config.lowers.last().expect("latest mem lower");
    assert_eq!(latest.file, new_layer);
    assert!(latest.digest.is_empty());
    assert_eq!(latest.size, 0);
    assert!(image_config.download_override.is_none());
}

#[test]
fn memory_layers_of_the_runtime_are_compacted() {
    let plan = plan_mem_lowers(
        owned(40),
        "/mem/overlaybd.commit",
        &vec![],
        &vec![s("/own")],
        "/snap",
        OverlaybdCompactOutput::Compressed(s("lz4")),
    );
    let Ok(LowersPlan::Compact {
        output,
        suffix,
        mode,
        ..
    }) = plan
    else {
        panic!("too many layers")
    };
    assert_eq!(mode, OverlaybdCompactOutput::Compressed(s("lz4")));
    assert_eq!(output, "/snap/mem_compacted.commit");
    assert_eq!(suffix.len(), 41);
}

#[test]
fn a_missing_image_to_go_on_from_is_an_empty_one() {
    assert_eq!(
        load_existing_image_config(None, "", "memory snapshot"),
        Ok(ImageConfig::default())
    );
    assert_eq!(
        load_existing_image_config(
            Some(Err(Failure::because("gone"))),
            "/m.json",
            "memory snapshot"
        )
        .unwrap_err()
        .message,
        "load memory snapshot image config /m.json"
    );
}

#[test]
fn publish_memory_layer_failure_removes_temp_and_preserves_final() {
    assert_eq!(
        temp_layer_path("/tmp/t/memory.commit"),
        "/tmp/t/memory.commit.tmp"
    );
    // Building fails: the temporary file goes, and the rename, which is all that
    // touches the final file, is never reached.
    let step = next_publish_step(PublishStep::Build, false);
    assert_eq!(step, PublishStep::RemoveTemp);
    assert_eq!(next_publish_step(step, true), PublishStep::Failed);
    assert_eq!(
        next_publish_step(PublishStep::Build, true),
        PublishStep::Rename
    );
    assert_eq!(
        next_publish_step(PublishStep::Rename, true),
        PublishStep::Published
    );
    assert_eq!(
        next_publish_step(PublishStep::Rename, false),
        PublishStep::RemoveTemp
    );
}

#[test]
fn layers_carry_their_description() {
    let descriptor = LayerDescriptor {
        digest: s("sha256:d"),
        size: 9,
    };
    let layer = local_layer_config_with_descriptor("/l", Some(&descriptor));
    assert_eq!((layer.digest.as_str(), layer.size), ("sha256:d", 9));
    assert_eq!(layer.file, "/l");
}

#[test]
fn the_sealed_layer_comes_off_as_it_was_put_on() {
    let mut cfg = ImageConfig {
        lowers: owned(2),
        ..ImageConfig::default()
    };
    let before = cfg.clone();
    let descriptor = LayerDescriptor {
        digest: s("sha256:d"),
        size: 9,
    };
    append_restacked_layer(&mut cfg, "/out/snapshot.commit", Some(&descriptor));
    assert_eq!(cfg.lowers.len(), 3);
    let layer = take_restacked_layer(&mut cfg, "/out//snapshot.commit", None).expect("on top");
    assert_eq!(
        layer,
        local_layer_config_with_descriptor("/out/snapshot.commit", Some(&descriptor))
    );
    assert_eq!(cfg, before);

    assert_eq!(
        take_restacked_layer(&mut cfg, "/other", Some("/own/real"))
            .unwrap_err()
            .message,
        "restack snapshot expected latest lower /other but found /own/real"
    );
    assert_eq!(cfg, before);
    let mut empty = ImageConfig::default();
    assert_eq!(
        take_restacked_layer(&mut empty, "/x", None)
            .unwrap_err()
            .message,
        "restack snapshot expected latest lower to be the newly claimed sealed upper layer"
    );
    assert_eq!(
        restack_target_upper_data_path(&empty, "/live.json")
            .unwrap_err()
            .message,
        "restack snapshot requires writable upper.data in live runtime config /live.json"
    );
    empty.upper.data = s("/u");
    assert_eq!(
        restack_target_upper_data_path(&empty, "/live.json"),
        Ok(s("/u"))
    );
}

fn running(output_dir: &str) -> CaptureRun {
    match start_capture(false, output_dir) {
        CaptureStart::Running(run) => run,
        CaptureStart::Captured(_) => panic!("a writable device has to be sealed"),
    }
}

fn after(events: Vec<CaptureEvent>) -> CaptureRun {
    let mut run = running("/snap/rootfs");
    for event in events {
        run = run.next(event);
    }
    run
}

fn described(size: u64) -> Option<LayerDescriptor> {
    Some(LayerDescriptor {
        digest: s("sha256:x"),
        size,
    })
}

fn failure(terminal: bool, message: &str) -> CaptureFailure {
    CaptureFailure {
        terminal,
        message: s(message),
    }
}

#[test]
fn a_read_only_device_is_captured_as_it_is() {
    let CaptureStart::Captured(state) = start_capture(true, "/snap") else {
        panic!("there is nothing to seal")
    };
    assert_eq!(state, LiveOverlaybdSnapshotState::ReadOnly);
    assert_eq!(state.snapshot_layer_path(), None);
    assert_eq!(
        state.finish_staging(Err(failure(false, "x"))),
        Err(failure(false, "x"))
    );
}

#[test]
fn a_capture_on_one_file_system_needs_no_copy() {
    let mut run = after(vec![
        CaptureEvent::Loaded(s("/live/upper.data")),
        CaptureEvent::Done,
        CaptureEvent::SameFilesystem(true),
    ]);
    assert_eq!(run.step, CaptureStep::Restack);
    assert_eq!(run.live_layer, "/snap/rootfs/snapshot.commit");
    run = run.next(CaptureEvent::Restacked(described(10)));
    assert_eq!(run.step, CaptureStep::ReadSize);
    run = run.next(CaptureEvent::Size(10));
    assert_eq!(run.step, CaptureStep::Rewrite);
    run = run.next(CaptureEvent::Done);
    let state = run.outcome().expect("ended").expect("captured");
    assert_eq!(
        state.snapshot_layer_path(),
        Some("/snap/rootfs/snapshot.commit")
    );
    assert_eq!(
        state.finish_staging(Err(failure(false, "x"))),
        Err(failure(true, "x"))
    );
    assert_eq!(
        LiveOverlaybdSnapshotState::Restacked(s("/l")).finish_staging(Ok(s("/i"))),
        Ok(s("/i"))
    );
}

#[test]
fn a_capture_across_file_systems_copies_the_layer() {
    let mut run = after(vec![
        CaptureEvent::Loaded(s("/live/upper.data")),
        CaptureEvent::Done,
        CaptureEvent::SameFilesystem(false),
    ]);
    assert_eq!(run.step, CaptureStep::RemoveStaleLive);
    assert_eq!(run.live_layer, "/live/snapshot.commit");
    run = run.next(CaptureEvent::Done);
    run = run.next(CaptureEvent::Restacked(None));
    assert_eq!(run.step, CaptureStep::Copy);
    run = run.next(CaptureEvent::Failed);
    assert_eq!(
        run.outcome(),
        Some(Err(failure(
            true,
            "copy restack snapshot layer into managed snapshot dir"
        )))
    );
    // Without a description the size is not read.
    let run = after(vec![
        CaptureEvent::Loaded(s("/live/upper.data")),
        CaptureEvent::Done,
        CaptureEvent::SameFilesystem(false),
        CaptureEvent::Done,
        CaptureEvent::Restacked(None),
        CaptureEvent::Done,
    ]);
    assert_eq!(run.step, CaptureStep::Rewrite);
    assert_eq!(
        run.next(CaptureEvent::Failed).outcome(),
        Some(Err(failure(
            true,
            "rewrite live runtime config after restack snapshot"
        )))
    );
}

#[test]
fn the_daemon_says_whether_a_failed_restack_is_terminal() {
    for terminal in [false, true] {
        let run = after(vec![
            CaptureEvent::Loaded(s("/live/upper.data")),
            CaptureEvent::Done,
            CaptureEvent::SameFilesystem(true),
        ]);
        assert_eq!(
            run.restack_failed(terminal).outcome(),
            Some(Err(failure(
                terminal,
                "request overlaybd restack snapshot from ublk device"
            )))
        );
    }
    // Before the daemon is asked there is no such failure.
    assert_eq!(
        running("/snap/rootfs").restack_failed(true),
        running("/snap/rootfs")
    );
}

#[test]
fn a_layer_of_the_wrong_size_is_discarded() {
    let mut run = after(vec![
        CaptureEvent::Loaded(s("/live/upper.data")),
        CaptureEvent::Done,
        CaptureEvent::SameFilesystem(true),
        CaptureEvent::Restacked(described(10)),
        CaptureEvent::Size(11),
    ]);
    assert_eq!(run.step, CaptureStep::Discard);
    run = run.next(CaptureEvent::Done);
    assert_eq!(
        run.outcome(),
        Some(Err(failure(
            false,
            "restack snapshot descriptor size mismatch for /snap/rootfs/snapshot.commit: descriptor says 10, file has 11"
        )))
    );
}

#[test]
fn early_failures_of_a_capture_are_not_terminal() {
    let upper = "/live/upper.data";
    let cases: Vec<(Vec<CaptureEvent>, &str)> = vec![
        (
            vec![CaptureEvent::Loaded(String::new())],
            "resolve restack source upper path",
        ),
        (vec![CaptureEvent::Failed], "resolve restack source upper path"),
        (
            vec![CaptureEvent::Loaded(s(upper)), CaptureEvent::Failed],
            "remove stale overlaybd snapshot layer /snap/rootfs/snapshot.commit",
        ),
        (
            vec![
                CaptureEvent::Loaded(s(upper)),
                CaptureEvent::Done,
                CaptureEvent::Failed,
            ],
            "validate restack snapshot filesystem precondition",
        ),
        (
            vec![
                CaptureEvent::Loaded(s("/")),
                CaptureEvent::Done,
                CaptureEvent::SameFilesystem(false),
            ],
            "restack source upper path has no parent directory",
        ),
        (
            vec![
                CaptureEvent::Loaded(s(upper)),
                CaptureEvent::Done,
                CaptureEvent::SameFilesystem(false),
                CaptureEvent::Failed,
            ],
            "prepare same-filesystem restack snapshot layer /live/snapshot.commit",
        ),
        (
            vec![
                CaptureEvent::Loaded(s(upper)),
                CaptureEvent::Done,
                CaptureEvent::SameFilesystem(true),
                CaptureEvent::Failed,
            ],
            "request overlaybd restack snapshot from ublk device",
        ),
        (
            vec![
                CaptureEvent::Loaded(s(upper)),
                CaptureEvent::Done,
                CaptureEvent::SameFilesystem(true),
                CaptureEvent::Restacked(described(1)),
                CaptureEvent::Failed,
            ],
            "read restack snapshot layer metadata /snap/rootfs/snapshot.commit",
        ),
    ];
    for (events, message) in cases {
        assert_eq!(after(events).outcome(), Some(Err(failure(false, message))));
    }
    // An event that a step does not wait for changes nothing.
    let run = running("/snap").next(CaptureEvent::Size(3));
    assert_eq!(run, running("/snap"));
    assert_eq!(run.outcome(), None);
    assert!(into_terminal_snapshot_failure(failure(false, "x")).terminal);
}

#[test]
fn linking_falls_back_to_a_copy() {
    assert_eq!(first_link_step("/a/b", "/a/./b/"), LinkStep::Linked);
    assert_eq!(first_link_step("/a", "/b/c"), LinkStep::CreateParent);
    assert_eq!(first_link_step("/a", "/"), LinkStep::RemoveDestination);
    let mut step = first_link_step("/a", "/b/c");
    for event in [LinkEvent::Done, LinkEvent::NotFound, LinkEvent::Failed] {
        step = next_link_step(step, event);
    }
    assert_eq!(step, LinkStep::SparseCopy);
    assert_eq!(next_link_step(step, LinkEvent::Done), LinkStep::Linked);
    step = next_link_step(step, LinkEvent::Failed);
    assert_eq!(step, LinkStep::DiscardDestination);
    assert_eq!(next_link_step(step, LinkEvent::Done), LinkStep::Failed);
    assert_eq!(
        next_link_step(LinkStep::RemoveDestination, LinkEvent::Failed),
        LinkStep::Failed
    );
    assert_eq!(
        next_link_step(LinkStep::CreateParent, LinkEvent::Failed),
        LinkStep::Failed
    );
    assert_eq!(
        next_link_step(LinkStep::HardLink, LinkEvent::Done),
        LinkStep::Linked
    );
    assert_eq!(
        sparse_copy_args("/a", "/b"),
        vec!["--reflink=auto", "--sparse=always", "/a", "/b"]
    );
}

#[test]
fn dirty_memory_is_packed_into_one_layer() {
    let plan = convert_dirty_memory_to_overlaybd(
        &pages(2, vec![range(0x5000, 4096, 4096)]),
        "/snap/mem",
    )
    .expect("a valid report");
    assert_eq!(plan.layer_path, "/snap/mem/overlaybd.commit");
    assert_eq!(plan.memory_size, 8192);
    assert_eq!(plan.concurrency, 32);
    assert_eq!(
        plan.mappings,
        vec![SegmentMapping::new(8, 8, 0x5000 / 512, false, 0)]
    );
    assert!(convert_dirty_memory_to_overlaybd(
        &pages(2, vec![range(0x5000, 0, 4096), range(0x9000, 0, 4096)]),
        "/snap/mem"
    )
    .is_err());
    assert_eq!(rootfs_snapshot_dir("/snap"), "/snap/rootfs");
}

#[test]
fn a_file_is_replaced_once_it_is_complete() {
    assert_eq!(temp_dir_for_write("/a/b", "config"), Ok(s("/a")));
    assert_eq!(
        temp_dir_for_write("/", "config").unwrap_err().message,
        "config path has no parent directory: /"
    );
    assert_eq!(temp_dir_for_copy("b", "layer"), Ok(s("")));
    assert_eq!(
        temp_dir_for_copy("", "layer").unwrap_err().message,
        "layer destination has no parent directory: "
    );
    let mut step = ReplaceStep::CreateTemp;
    let mut steps = vec![step];
    while step != ReplaceStep::Replaced {
        step = next_replace_step(step, true);
        steps.push(step);
    }
    assert_eq!(
        steps,
        vec![
            ReplaceStep::CreateTemp,
            ReplaceStep::Fill,
            ReplaceStep::Sync,
            ReplaceStep::Persist,
            ReplaceStep::Replaced,
        ]
    );
    for step in steps {
        let after = next_replace_step(step, false);
        assert_eq!(after == ReplaceStep::Replaced, step == ReplaceStep::Replaced);
    }
}
