//! What refusing a configuration is for: the words name the setting that has to be
//! mended, the first in the order in which settings are read.
use vstd::prelude::*;

use crate::config_laws;
use crate::dirty_memory;
use crate::overlaybd_config;
use crate::overlaybd_config::DownloadConfig;
use crate::overlaybd_config::UpperMode;
use crate::overlaybd_rules;
use crate::text;

verus! {

/// A download that is out of bounds is refused for its number of chunks first, then for
/// their size, then for both together, with the limit and the field where it stands.
pub proof fn refused_downloads_name_the_limit(d: DownloadConfig, field: Seq<char>)
    ensures
        ({
            let said = overlaybd_rules::chunk_fault(d, field);
            let mib = 1024 * 1024;
            let few = 1 <= d.concurrency <= 16;
            let small = 1 <= d.block_size <= 64 * mib;
            &&& said is None <==> config_laws::bounded_chunks(d)
            &&& d.concurrency == 0 ==> said == Some(field + " must be > 0"@)
            &&& d.concurrency > 16 ==> said == Some(
                "download.concurrency must be <= 16"@ + " (in "@ + field + ")"@,
            )
            &&& few && d.block_size == 0 ==> said == Some(
                "download.blockSize must be > 0"@ + " (in "@ + field + ")"@,
            )
            &&& few && d.block_size > 64 * mib ==> said == Some(
                "download.blockSize must be <= 67108864 bytes"@ + " (in "@ + field + ")"@,
            )
            &&& few && small && said is Some ==> said == Some(
                "download.blockSize * concurrency must be <= 268435456 bytes"@ + " (in "@ + field
                    + ")"@,
            )
        }),
{
}

/// Limits of all downloads together are refused by name as well: blocks in flight first,
/// then files, then the memory for the blocks.
pub proof fn refused_schedules_name_the_limit(d: DownloadConfig, field: Seq<char>)
    ensures
        ({
            let said = overlaybd_rules::scheduler_fault(d, field);
            let blocks = 1 <= d.max_inflight_blocks <= 128;
            let files = 1 <= d.max_concurrent_files <= 128;
            let place = " (in "@ + field + ")"@;
            &&& said is None <==> blocks && files && d.block_size * d.max_inflight_blocks <= 2048
                * 1024 * 1024
            &&& d.max_inflight_blocks == 0 ==> said == Some(
                "download.maxInflightBlocks must be > 0"@ + place,
            )
            &&& d.max_inflight_blocks > 128 ==> said == Some(
                "download.maxInflightBlocks must be <= 128"@ + place,
            )
            &&& blocks && d.max_concurrent_files == 0 ==> said == Some(
                "download.maxConcurrentFiles must be > 0"@ + place,
            )
            &&& blocks && d.max_concurrent_files > 128 ==> said == Some(
                "download.maxConcurrentFiles must be <= 128"@ + place,
            )
            &&& blocks && files && said is Some ==> said == Some(
                "download.blockSize * maxInflightBlocks must be <= 2147483648 bytes"@ + place,
            )
        }),
{
    let said = overlaybd_rules::scheduler_fault(d, field);
    let place = " (in "@ + field + ")"@;
    assert("download.maxInflightBlocks must be > 0"@ + place =~= overlaybd_rules::in_field(
        "download.maxInflightBlocks must be > 0"@,
        field,
    ));
    assert("download.maxInflightBlocks must be <= 128"@ + place =~= overlaybd_rules::in_field(
        "download.maxInflightBlocks must be <= 128"@,
        field,
    ));
    assert("download.maxConcurrentFiles must be > 0"@ + place =~= overlaybd_rules::in_field(
        "download.maxConcurrentFiles must be > 0"@,
        field,
    ));
    assert("download.maxConcurrentFiles must be <= 128"@ + place =~= overlaybd_rules::in_field(
        "download.maxConcurrentFiles must be <= 128"@,
        field,
    ));
    assert("download.blockSize * maxInflightBlocks must be <= 2147483648 bytes"@ + place
        =~= overlaybd_rules::in_field(
        "download.blockSize * maxInflightBlocks must be <= 2147483648 bytes"@,
        field,
    ));
}

/// Credentials of an unknown kind are refused by the kind, and known ones without a place
/// for it.
pub proof fn refused_credentials_name_the_mode(c: overlaybd_config::CredentialModel)
    ensures
        ({
            let said = overlaybd_rules::credential_fault(c);
            let known = c.mode == "file"@ || c.mode == "http"@;
            &&& c.mode.len() == 0 ==> said is None
            &&& c.mode.len() > 0 && !known ==> said == Some("invalid credential mode "@ + c.mode)
            &&& known && c.path.len() > 0 ==> said is None
            &&& known && c.path.len() == 0 ==> said == Some(
                "credentialConfig.path cannot be empty when mode is set"@,
            )
        }),
{
    reveal_strlit("file");
    reveal_strlit("http");
}

/// A store that cannot be used is refused for the first thing wrong with it: where it is,
/// its region, half a pair of keys, two kinds of credentials at once, a token without
/// keys, and a style of addresses that is not known, which is quoted as it was written.
pub proof fn refused_stores_name_the_setting(o: overlaybd_config::OssModel)
    requires
        o.enable,
    ensures
        ({
            let said = overlaybd_rules::oss_fault(o);
            let placed = o.default_endpoint.len() > 0;
            let located = placed && text::trimmed(o.default_region).len() > 0;
            let paired = located && (o.access_key_id.len() > 0 <==> o.secret_access_key.len() > 0);
            let process = text::trimmed(o.credential_process).len() > 0;
            let given = o.access_key_id.len() > 0 || o.secret_access_key.len() > 0
                || o.security_token.len() > 0;
            let single = paired && !(process && given);
            let keyed = single && (o.security_token.len() > 0 ==> o.access_key_id.len() > 0);
            &&& !placed ==> said == Some(
                "ossConfig.defaultEndpoint cannot be empty when oss is enabled"@,
            )
            &&& placed && !located ==> said == Some(
                "ossConfig.defaultRegion cannot be empty when oss is enabled"@,
            )
            &&& located && !paired ==> said == Some(
                "ossConfig.accessKeyId and ossConfig.secretAccessKey must be set together"@,
            )
            &&& paired && !single ==> said == Some(
                "ossConfig.credentialProcess cannot be combined with accessKeyId/secretAccessKey/securityToken"@,
            )
            &&& single && !keyed ==> said == Some(
                "ossConfig.securityToken requires accessKeyId and secretAccessKey"@,
            )
            &&& keyed ==> said is None || said == Some(
                "ossConfig.defaultAddressingStyle must be 'virtual', 'path', or empty for auto-detection, got '"@
                    + o.default_addressing_style + "'"@,
            )
            &&& said is None <==> config_laws::usable_store(o)
        }),
{
}

/// Shared settings are refused for the first subject that is not in order: the engine,
/// downloads, the cache, threads, credentials, peers, the protocol, the store, the rings.
pub proof fn refused_settings_name_the_first_subject(g: overlaybd_config::GlobalModel)
    ensures
        ({
            let said = overlaybd_rules::global_fault(g);
            let cache = g.cache_config.cache_type;
            let chunks = overlaybd_rules::chunk_fault(g.download, "download.concurrency"@);
            let schedule = overlaybd_rules::scheduler_fault(g.download, "download"@);
            let credentials = overlaybd_rules::credential_fault(g.credential_config);
            let store = overlaybd_rules::oss_fault(g.oss_config);
            let engine = g.io_engine <= 2;
            let downloads = engine && chunks is None && schedule is None;
            let cached = downloads && (cache == "file"@ || cache == "ocf"@ || cache
                == "download"@);
            let threaded = cached && !(g.enable_thread && cache == "file"@);
            let trusted = threaded && credentials is None;
            let shared = trusted && !(g.p2p_config.enable && g.p2p_config.address.len() == 0);
            let spoken = shared && (g.registry_fs_version == "v1"@ || g.registry_fs_version
                == "v2"@);
            let stored = spoken && store is None;
            &&& !engine ==> said == Some("unknown ioEngine "@ + text::decimal(g.io_engine as nat))
            &&& engine && chunks is Some ==> said == chunks
            &&& engine && chunks is None && schedule is Some ==> said == schedule
            &&& downloads && !cached ==> said == Some("unknown cache type: "@ + cache)
            &&& cached && !threaded ==> said == Some(
                "enableThread=true is invalid when cache type is file"@,
            )
            &&& threaded && !trusted ==> said == credentials
            &&& trusted && !shared ==> said == Some(
                "p2pConfig.address cannot be empty when p2p is enabled"@,
            )
            &&& shared && !spoken ==> said == Some(
                "unsupported registryFsVersion "@ + g.registry_fs_version,
            )
            &&& spoken && !stored ==> said == store
            &&& stored && g.nr_io_rings == 0 ==> said == Some("nr_io_rings cannot be zero"@)
        }),
{
}

/// An upper layer is refused for a missing data file first, then for half a pair of
/// files, then for what is built on files that are not there.
pub proof fn refused_upper_layers_name_the_files(u: overlaybd_config::UpperModel)
    ensures
        ({
            let said = overlaybd_config::upper_fault(u);
            let sparse = u.mode == Some(UpperMode::Sparse);
            let data = u.data.len() > 0;
            let index = u.index.len() > 0;
            let based = if sparse {
                data
            } else {
                data == index
            };
            let more = u.target.len() > 0 || u.gzip_index.len() > 0;
            &&& sparse && !data ==> said == Some(
                "upper.data is required when upper.mode is sparse"@,
            )
            &&& !sparse && data != index ==> said == Some(
                "upper.index and upper.data must be set together"@,
            )
            &&& based && more && !(data && index) ==> said == Some(
                "upper.target and upper.gzipIndex require complete upper.data/index"@,
            )
            &&& data && index && u.gzip_index.len() > 0 && u.target.len() == 0 ==> said == Some(
                "upper.gzipIndex requires upper.target"@,
            )
            &&& overlaybd_config::complete_upper(u) <==> data && index
            &&& overlaybd_config::writable_upper(u) <==> data && (index || sparse)
        }),
{
}

/// Lower layers are refused for the first that cannot be found.
pub proof fn refused_layers_are_the_first_that_cannot_be_found(
    ls: Seq<overlaybd_config::LayerModel>,
    repo: Seq<char>,
    at: int,
)
    requires
        0 <= at < ls.len(),
        forall|i: int| 0 <= i < at ==> config_laws::findable(#[trigger] ls[i], repo),
        !config_laws::findable(ls[at], repo),
    ensures
        ({
            let l = ls[at];
            let nowhere = l.file.len() == 0 && l.dir.len() == 0 && l.digest.len() == 0;
            overlaybd_rules::layers_fault(ls, repo) == Some(
                if nowhere {
                    "each lower must provide at least one of file/dir/digest"@
                } else {
                    "repoBlobUrl is required for remote lower layers"@
                },
            )
        }),
    decreases ls.len(),
{
    let init = ls.drop_last();
    if at < init.len() {
        assert forall|i: int| 0 <= i < at implies config_laws::findable(
            #[trigger] init[i],
            repo,
        ) by {
            assert(config_laws::findable(ls[i], repo));
        }
        assert(init[at] == ls[at]);
        refused_layers_are_the_first_that_cannot_be_found(init, repo, at);
    } else {
        assert forall|i: int| 0 <= i < init.len() implies config_laws::findable(
            #[trigger] init[i],
            repo,
        ) by {
            assert(config_laws::findable(ls[i], repo));
        }
        config_laws::lemma_findable(init, repo);
    }
}

/// An image is refused for the first subject that is not in order: its downloads, the
/// number of its layers, its upper layer, having no layer at all, a lower layer, and
/// replaying a trace while recording one.
pub proof fn refused_images_name_the_first_subject(c: overlaybd_config::ImageModel)
    ensures
        ({
            let said = overlaybd_rules::image_fault(c);
            let chunks = if c.download_override is Some {
                overlaybd_rules::chunk_fault(
                    c.download_override->0,
                    "download override concurrency"@,
                )
            } else {
                None
            };
            let upper = overlaybd_config::upper_fault(c.upper);
            let lowers = overlaybd_rules::layers_fault(c.lowers, c.repo_blob_url);
            let counted = chunks is None && c.lowers.len() <= 256;
            let whole = counted && upper is None;
            let based = whole && (c.lowers.len() > 0 || c.upper.data.len() > 0);
            let found = based && lowers is None;
            &&& chunks is Some ==> said == chunks
            &&& chunks is None && c.lowers.len() > 256 ==> said == Some(
                "too many lowers: "@ + text::decimal(c.lowers.len()) + ", max 256"@,
            )
            &&& counted && upper is Some ==> said == upper
            &&& whole && !based ==> said == Some(
                "image config has no lowers and no writable upper"@,
            )
            &&& based && lowers is Some ==> said == lowers
            &&& found && said is Some ==> said == Some(
                "accelerationLayer and recordTracePath cannot be enabled together"@,
            )
        }),
{
}

/// A report of dirty memory is refused for its head before its ranges: for the size of a
/// page, for a negative size of the memory, and for one that is no number of pages; and
/// of its ranges for the first that is not in order.
pub proof fn refused_reports_name_the_first_number(d: dirty_memory::DirtyMemoryRanges, at: int)
    ensures
        ({
            let said = dirty_memory::report_fault(d);
            let paged = d.page_size == 4096;
            let sized = paged && d.memory_size >= 0;
            let head = sized && d.memory_size as int % 4096 == 0;
            &&& !paged ==> said == Some(
                "dirty memory page_size must be 4096, got "@ + text::signed_decimal(
                    d.page_size as int,
                ),
            )
            &&& paged && d.memory_size < 0 ==> said == Some(
                "memory_size"@ + " must be non-negative, got "@ + text::signed_decimal(
                    d.memory_size as int,
                ),
            )
            &&& sized && !head ==> said == Some(
                "dirty memory_size "@ + text::decimal(d.memory_size as nat)
                    + " is not 4096-byte aligned"@,
            )
            &&& head && 0 <= at < d.ranges@.len() && (forall|i: int|
                0 <= i < at ==> dirty_memory::range_fault(
                    #[trigger] d.ranges@[i],
                    d.memory_size as int,
                ) is None) && dirty_memory::range_fault(
                d.ranges@[at],
                d.memory_size as int,
            ) is Some ==> said == dirty_memory::range_fault(d.ranges@[at], d.memory_size as int)
        }),
{
    let size = d.memory_size as int;
    if 0 <= at < d.ranges@.len() && (forall|i: int|
        0 <= i < at ==> dirty_memory::range_fault(#[trigger] d.ranges@[i], size) is None)
        && dirty_memory::range_fault(d.ranges@[at], size) is Some {
        lemma_first_bad_range(d.ranges@, size, at);
    }
}

proof fn lemma_first_bad_range(rs: Seq<dirty_memory::DirtyMemoryRange>, size: int, at: int)
    requires
        0 <= at <= rs.len(),
        forall|i: int| 0 <= i < at ==> dirty_memory::range_fault(#[trigger] rs[i], size) is None,
        at < rs.len() ==> dirty_memory::range_fault(rs[at], size) is Some,
    ensures
        at < rs.len() ==> dirty_memory::ranges_fault(rs, size) == dirty_memory::range_fault(
            rs[at],
            size,
        ),
        at == rs.len() ==> dirty_memory::ranges_fault(rs, size) is None,
    decreases rs.len(),
{
    if rs.len() > 0 {
        let init = rs.drop_last();
        let cut = if at < init.len() {
            at
        } else {
            init.len() as int
        };
        assert forall|i: int| 0 <= i < cut implies dirty_memory::range_fault(
            #[trigger] init[i],
            size,
        ) is None by {
            assert(init[i] == rs[i]);
        }
        if cut < init.len() {
            assert(init[cut] == rs[at]);
        }
        lemma_first_bad_range(init, size, cut);
        assert(rs.last() == rs[rs.len() - 1]);
    }
}

} // verus!
