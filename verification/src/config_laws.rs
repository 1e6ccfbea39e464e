//! What loading a configuration is for: every path of an image is resolved, older
//! settings count where newer ones are missing, and what is accepted can be used.
use vstd::prelude::*;

use crate::failure;
use crate::failure::Failure;
use crate::overlaybd_config;
use crate::overlaybd_config::DownloadConfig;
use crate::overlaybd_config::GlobalConfig;
use crate::overlaybd_config::ImageConfig;
use crate::overlaybd_config::LayerConfig;
use crate::overlaybd_config::UpperConfig;
use crate::overlaybd_config::UpperMode;
use crate::overlaybd_rules;
use crate::path_laws;
use crate::paths;
use crate::text;

verus! {

/// A field says a path, not nothing and not an address.
pub open spec fn says_a_path(value: Seq<char>) -> bool {
    value.len() > 0 && forall|i: int|
        0 <= i <= value.len() - 3 ==> !(#[trigger] value[i] == ':' && value[i + 1] == '/' && value[i
            + 2] == '/')
}

/// A field that says no path stays as it is; a path becomes the normal form of the path
/// as seen from the directory, which a path from the root does not depend on.
pub proof fn fields_are_seen_from_the_directory(dir: Seq<char>, value: Seq<char>)
    ensures
        !says_a_path(value) ==> overlaybd_rules::resolved_in(dir, value) == value,
        says_a_path(value) && value[0] != '/' && dir.len() > 0 && dir.last() != '/'
            ==> overlaybd_rules::resolved_in(dir, value) == paths::normalized(
            path_laws::below(dir, value),
        ),
        says_a_path(value) && value[0] == '/' ==> overlaybd_rules::resolved_in(dir, value)
            == paths::normalized(value),
        says_a_path(value) && dir.len() > 0 && dir[0] == '/' ==> paths::absolute(
            overlaybd_rules::resolved_in(dir, value),
        ),
{
    reveal_strlit("://");
    lemma_addresses(value);
    if says_a_path(value) {
        paths::normalized_path_is_plain(paths::join_of(dir, value));
        path_laws::joining_writes_a_path_behind_a_directory(dir, value);
        if dir.len() > 0 && dir[0] == '/' {
            assert(paths::join_of(dir, value)[0] == '/');
        }
    }
}

proof fn lemma_addresses(value: Seq<char>)
    ensures
        says_a_path(value) <==> value.len() > 0 && !text::contains_text(value, "://"@),
{
    reveal_strlit("://");
    let mark = "://"@;
    assert(mark.len() == 3 && mark[0] == ':' && mark[1] == '/' && mark[2] == '/');
    if text::contains_text(value, mark) {
        let i = choose|i: int| text::occurs_at(value, mark, i);
        let part = value.subrange(i, i + 3);
        assert(part[0] == value[i] && part[1] == value[i + 1] && part[2] == value[i + 2]);
        assert(value[i] == ':');
    }
    if value.len() > 0 && !says_a_path(value) {
        let i = choose|i: int|
            0 <= i <= value.len() - 3 && (#[trigger] value[i] == ':' && value[i + 1] == '/'
                && value[i + 2] == '/');
        assert(value.subrange(i, i + 3) =~= mark);
        assert(text::occurs_at(value, mark, i));
    }
}

/// Every path of an image is resolved against the directory of its configuration: four
/// fields of each lower layer, whatever its number, four of the upper layer, and the two
/// of the image. Nothing else changes.
pub proof fn every_path_of_an_image_is_resolved(
    config_path: Seq<char>,
    c: overlaybd_config::ImageModel,
    dir: Seq<char>,
)
    requires
        dir == (match paths::parent_of(config_path) {
            Some(parent) => parent,
            None => "."@,
        }),
    ensures
        ({
            let r = overlaybd_rules::resolved_image(config_path, c);
            &&& r.lowers.len() == c.lowers.len()
            &&& forall|i: int|
                0 <= i < c.lowers.len() ==> {
                    let l = #[trigger] r.lowers[i];
                    let old = c.lowers[i];
                    &&& l.gzip_index == overlaybd_rules::resolved_in(dir, old.gzip_index)
                    &&& l.file == overlaybd_rules::resolved_in(dir, old.file)
                    &&& l.target_file == overlaybd_rules::resolved_in(dir, old.target_file)
                    &&& l.dir == overlaybd_rules::resolved_in(dir, old.dir)
                    &&& l.repo_blob_url == old.repo_blob_url
                    &&& l.digest == old.digest
                    &&& l.uuid == old.uuid
                    &&& l.target_digest == old.target_digest
                    &&& l.size == old.size
                }
            &&& r.upper.mode == c.upper.mode
            &&& r.upper.index == overlaybd_rules::resolved_in(dir, c.upper.index)
            &&& r.upper.data == overlaybd_rules::resolved_in(dir, c.upper.data)
            &&& r.upper.target == overlaybd_rules::resolved_in(dir, c.upper.target)
            &&& r.upper.gzip_index == overlaybd_rules::resolved_in(dir, c.upper.gzip_index)
            &&& r.result_file == overlaybd_rules::resolved_in(dir, c.result_file)
            &&& r.record_trace_path == overlaybd_rules::resolved_in(dir, c.record_trace_path)
            &&& r.repo_blob_url == c.repo_blob_url
            &&& r.download_override == c.download_override
            &&& r.acceleration_layer == c.acceleration_layer
            &&& r.base_template == c.base_template
        }),
{
    reveal_strlit(".");
    assert("."@ =~= seq!['.']);
}

/// Against a configuration at an absolute path, every path field of every lower layer
/// becomes absolute.
pub proof fn paths_of_all_layers_become_absolute(
    config_path: Seq<char>,
    c: overlaybd_config::ImageModel,
    i: int,
)
    requires
        config_path.len() > 0,
        config_path[0] == '/',
        paths::names(config_path).len() > 0,
        0 <= i < c.lowers.len(),
    ensures
        ({
            let l = overlaybd_rules::resolved_image(config_path, c).lowers[i];
            let old = c.lowers[i];
            &&& says_a_path(old.file) ==> l.file.len() > 0 && l.file[0] == '/'
            &&& says_a_path(old.gzip_index) ==> l.gzip_index.len() > 0 && l.gzip_index[0] == '/'
            &&& says_a_path(old.target_file) ==> l.target_file.len() > 0 && l.target_file[0] == '/'
            &&& says_a_path(old.dir) ==> l.dir.len() > 0 && l.dir[0] == '/'
        }),
{
    paths::parents_of_absolute_paths_are_absolute(config_path);
    let dir = overlaybd_rules::base_dir_of(config_path);
    let old = c.lowers[i];
    fields_are_seen_from_the_directory(dir, old.file);
    fields_are_seen_from_the_directory(dir, old.gzip_index);
    fields_are_seen_from_the_directory(dir, old.target_file);
    fields_are_seen_from_the_directory(dir, old.dir);
}

/// The chunks of a download are of a bounded size and number, and so is the memory that
/// they take together.
pub open spec fn bounded_chunks(d: DownloadConfig) -> bool {
    &&& 1 <= d.concurrency <= 16
    &&& 1 <= d.block_size <= 64 * 1024 * 1024
    &&& d.block_size * d.concurrency <= 256 * 1024 * 1024
}

/// An upper layer is whole: in sparse mode it has a data file, else it has both a data
/// and an index file or neither; what is written elsewhere needs both, and an index of
/// compressed data needs a target.
pub open spec fn whole_upper(u: overlaybd_config::UpperModel) -> bool {
    let both = u.data.len() > 0 && u.index.len() > 0;
    &&& u.mode == Some(UpperMode::Sparse) ==> u.data.len() > 0
    &&& u.mode != Some(UpperMode::Sparse) ==> (u.data.len() > 0 <==> u.index.len() > 0)
    &&& u.target.len() > 0 || u.gzip_index.len() > 0 ==> both
    &&& u.gzip_index.len() > 0 ==> u.target.len() > 0
}

/// A lower layer can be found: in a file, in a directory, or by its digest in a
/// repository of its own or of the image.
pub open spec fn findable(l: overlaybd_config::LayerModel, image_repo: Seq<char>) -> bool {
    &&& l.file.len() > 0 || l.dir.len() > 0 || l.digest.len() > 0
    &&& l.file.len() > 0 || l.digest.len() == 0 || l.repo_blob_url.len() > 0 || image_repo.len()
        > 0
}

/// An image is accepted exactly where its own download settings are bounded, it has at
/// most 256 lower layers, its upper layer is whole, it has a lower layer or something to
/// write to, each lower layer can be found, and it does not both replay and record a
/// trace.
pub proof fn images_are_accepted_where_they_can_be_used(c: overlaybd_config::ImageModel)
    ensures
        overlaybd_rules::image_fault(c) is None <==> {
            &&& c.download_override matches Some(d) ==> bounded_chunks(d)
            &&& c.lowers.len() <= 256
            &&& whole_upper(c.upper)
            &&& c.lowers.len() > 0 || c.upper.data.len() > 0
            &&& forall|i: int|
                0 <= i < c.lowers.len() ==> findable(#[trigger] c.lowers[i], c.repo_blob_url)
            &&& !(c.acceleration_layer && c.record_trace_path.len() > 0)
        },
{
    lemma_findable(c.lowers, c.repo_blob_url);
}

/// An upper layer passes exactly where it is whole, and can be written to exactly where
/// it has a data file then; a layer is served by its own repository, or else by that of
/// its image.
pub proof fn upper_layers_pass_where_they_are_whole(
    u: overlaybd_config::UpperModel,
    l: overlaybd_config::LayerModel,
    image_repo: Seq<char>,
)
    ensures
        overlaybd_config::upper_fault(u) is None <==> whole_upper(u),
        whole_upper(u) ==> (overlaybd_config::writable_upper(u) <==> u.data.len() > 0),
        l.repo_blob_url.len() > 0 ==> overlaybd_config::repo_of(l, image_repo) == l.repo_blob_url,
        l.repo_blob_url.len() == 0 ==> overlaybd_config::repo_of(l, image_repo) == image_repo,
{
}

pub(crate) proof fn lemma_findable(ls: Seq<overlaybd_config::LayerModel>, repo: Seq<char>)
    ensures
        overlaybd_rules::layers_fault(ls, repo) is None <==> forall|i: int|
            0 <= i < ls.len() ==> findable(#[trigger] ls[i], repo),
    decreases ls.len(),
{
    if ls.len() > 0 {
        let init = ls.drop_last();
        lemma_findable(init, repo);
        assert(overlaybd_rules::layer_fault(ls.last(), repo) is None <==> findable(
            ls.last(),
            repo,
        ));
        if forall|i: int| 0 <= i < init.len() ==> findable(#[trigger] init[i], repo) {
            assert forall|i: int| 0 <= i < ls.len() - 1 implies findable(
                #[trigger] ls[i],
                repo,
            ) by {
                assert(findable(init[i], repo));
            }
        }
        if forall|i: int| 0 <= i < ls.len() ==> findable(#[trigger] ls[i], repo) {
            assert forall|i: int| 0 <= i < init.len() implies findable(
                #[trigger] init[i],
                repo,
            ) by {
                assert(findable(ls[i], repo));
            }
            assert(findable(ls[ls.len() - 1], repo));
        }
    }
}

/// Object store settings that can be used, where the store is used at all.
pub open spec fn usable_store(o: overlaybd_config::OssModel) -> bool {
    o.enable ==> {
        let style = text::trimmed(o.default_addressing_style);
        let keys = o.access_key_id.len() > 0;
        &&& o.default_endpoint.len() > 0
        &&& text::trimmed(o.default_region).len() > 0
        &&& keys <==> o.secret_access_key.len() > 0
        &&& text::trimmed(o.credential_process).len() > 0 ==> !keys && o.security_token.len() == 0
        &&& o.security_token.len() > 0 ==> keys
        &&& style.len() == 0 || style == "virtual"@ || style == "path"@
    }
}

/// Shared settings are accepted exactly where the I/O engine is a known one, downloads
/// are bounded, the cache type is a known one and fits the threading, credentials have a
/// place, peers an address, the registry protocol is a known one, the object store can
/// be used, and there is an I/O ring.
pub proof fn settings_are_accepted_where_they_can_be_used(g: overlaybd_config::GlobalModel)
    ensures
        overlaybd_rules::global_fault(g) is None <==> {
            let cache = g.cache_config.cache_type;
            let credentials = g.credential_config;
            &&& g.io_engine <= 2
            &&& bounded_chunks(g.download)
            &&& 1 <= g.download.max_inflight_blocks <= 128
            &&& 1 <= g.download.max_concurrent_files <= 128
            &&& g.download.block_size * g.download.max_inflight_blocks <= 2048 * 1024 * 1024
            &&& cache == "file"@ || cache == "ocf"@ || cache == "download"@
            &&& g.enable_thread ==> cache != "file"@
            &&& credentials.mode.len() > 0 ==> (credentials.mode == "file"@ || credentials.mode
                == "http"@) && credentials.path.len() > 0
            &&& g.p2p_config.enable ==> g.p2p_config.address.len() > 0
            &&& g.registry_fs_version == "v1"@ || g.registry_fs_version == "v2"@
            &&& usable_store(g.oss_config)
            &&& g.nr_io_rings > 0
        },
{
    reveal_strlit("file");
    reveal_strlit("http");
}

/// Older settings count exactly where the newer ones are missing, each for its own
/// subject, and everything else stays as it is.
pub proof fn older_settings_count_where_newer_ones_are_missing(g: overlaybd_config::GlobalModel)
    ensures
        ({
            let m = overlaybd_rules::merged(g);
            let old_cache = g.cache_config.cache_type.len() == 0;
            let old_credentials = g.credential_config.mode.len() == 0
                && g.credential_file_path.len() > 0;
            let old_log = g.log_config.log_path.len() == 0;
            &&& !old_cache ==> m.cache_config == g.cache_config
            &&& old_cache ==> {
                &&& m.cache_config.cache_type == (if g.cache_type.len() > 0 {
                    g.cache_type
                } else {
                    "file"@
                })
                &&& m.cache_config.cache_dir == g.registry_cache_dir
                &&& m.cache_config.cache_size_gb == g.registry_cache_size_gb
                &&& m.cache_config.refill_size == g.cache_config.refill_size
            }
            &&& !old_credentials ==> m.credential_config == g.credential_config
            &&& old_credentials ==> {
                &&& m.credential_config.mode == "file"@
                &&& m.credential_config.path == g.credential_file_path
                &&& m.credential_config.timeout == g.credential_config.timeout
            }
            &&& !old_log ==> m.log_config == g.log_config
            &&& old_log ==> {
                &&& m.log_config.log_level == g.log_level
                &&& m.log_config.log_path == g.log_path
                &&& g.log_config.log_size_mb > 0 ==> m.log_config.log_size_mb
                    == g.log_config.log_size_mb
                &&& g.log_config.log_size_mb == 0 ==> m.log_config.log_size_mb == 10
                &&& g.log_config.log_rotate_num > 0 ==> m.log_config.log_rotate_num
                    == g.log_config.log_rotate_num
                &&& g.log_config.log_rotate_num <= 0 ==> m.log_config.log_rotate_num == 3
            }
            &&& g.user_agent.len() > 0 ==> m.user_agent == g.user_agent
            &&& g.user_agent.len() == 0 ==> m.user_agent == "0.1.0"@
            &&& m.registry_cache_dir == g.registry_cache_dir
            &&& m.credential_file_path == g.credential_file_path
            &&& m.registry_cache_size_gb == g.registry_cache_size_gb
            &&& m.io_engine == g.io_engine
            &&& m.cache_type == g.cache_type
            &&& m.log_level == g.log_level
            &&& m.log_path == g.log_path
            &&& m.download == g.download
            &&& m.enable_audit == g.enable_audit
            &&& m.enable_thread == g.enable_thread
            &&& m.p2p_config == g.p2p_config
            &&& m.exporter_config == g.exporter_config
            &&& m.audit_path == g.audit_path
            &&& m.registry_fs_version == g.registry_fs_version
            &&& m.gzip_cache_config == g.gzip_cache_config
            &&& m.oss_config == g.oss_config
            &&& m.prefetch_config == g.prefetch_config
            &&& m.cert_config == g.cert_config
            &&& m.nr_io_rings == g.nr_io_rings
        }),
{
}

/// A checked thing is passed exactly where it has no fault, and else refused with the
/// fault; of two faults the first one counts.
pub proof fn faults_are_refusals<T>(
    r: Result<T, Failure>,
    a: Option<Seq<char>>,
    b: Option<Seq<char>>,
    bad: bool,
    message: Seq<char>,
)
    ensures
        failure::reports(r, a) <==> {
            &&& r is Ok <==> a is None
            &&& r matches Err(e) ==> a is Some && e.message@ == a->0
        },
        a is Some ==> failure::earliest(a, b) == a,
        a is None ==> failure::earliest(a, b) == b,
        failure::fault_if(true, message) == Some(message),
        failure::fault_if(false, message) is None,
{
}

/// The model of an image configuration says all that the configuration does.
pub proof fn models_of_images_leave_nothing_out(c: ImageConfig, l: LayerConfig, u: UpperConfig)
    ensures
        l@.gzip_index == l.gzip_index@,
        l@.file == l.file@,
        l@.target_file == l.target_file@,
        l@.dir == l.dir@,
        l@.repo_blob_url == l.repo_blob_url@,
        l@.digest == l.digest@,
        l@.uuid == l.uuid@,
        l@.target_digest == l.target_digest@,
        l@.size == l.size,
        u@.mode == u.mode,
        u@.index == u.index@,
        u@.data == u.data@,
        u@.target == u.target@,
        u@.gzip_index == u.gzip_index@,
        c@.repo_blob_url == c.repo_blob_url@,
        c@.lowers.len() == c.lowers@.len(),
        forall|i: int| 0 <= i < c.lowers@.len() ==> #[trigger] c@.lowers[i] == c.lowers@[i]@,
        c@.upper == c.upper@,
        c@.result_file == c.result_file@,
        c@.download_override == c.download_override,
        c@.acceleration_layer == c.acceleration_layer,
        c@.record_trace_path == c.record_trace_path@,
        c@.base_template is Some <==> c.base_template is Some,
        c.base_template matches Some(t) ==> c@.base_template == Some(t@),
{
}

/// The model of the shared settings says all that the settings do.
pub proof fn models_of_settings_leave_nothing_out(g: GlobalConfig)
    ensures
        g@.registry_cache_dir == g.registry_cache_dir@,
        g@.credential_file_path == g.credential_file_path@,
        g@.registry_cache_size_gb == g.registry_cache_size_gb,
        g@.io_engine == g.io_engine,
        g@.cache_type == g.cache_type@,
        g@.log_level == g.log_level,
        g@.log_path == g.log_path@,
        g@.download == g.download,
        g@.enable_audit == g.enable_audit,
        g@.enable_thread == g.enable_thread,
        g@.p2p_config.enable == g.p2p_config.enable,
        g@.p2p_config.address == g.p2p_config.address@,
        g@.exporter_config.enable == g.exporter_config.enable,
        g@.exporter_config.uri_prefix == g.exporter_config.uri_prefix@,
        g@.exporter_config.port == g.exporter_config.port,
        g@.exporter_config.update_interval == g.exporter_config.update_interval,
        g@.audit_path == g.audit_path@,
        g@.registry_fs_version == g.registry_fs_version@,
        g@.cache_config.cache_type == g.cache_config.cache_type@,
        g@.cache_config.cache_dir == g.cache_config.cache_dir@,
        g@.cache_config.cache_size_gb == g.cache_config.cache_size_gb,
        g@.cache_config.refill_size == g.cache_config.refill_size,
        g@.gzip_cache_config.enable == g.gzip_cache_config.enable,
        g@.gzip_cache_config.cache_dir == g.gzip_cache_config.cache_dir@,
        g@.gzip_cache_config.cache_size_gb == g.gzip_cache_config.cache_size_gb,
        g@.gzip_cache_config.refill_size == g.gzip_cache_config.refill_size,
        g@.oss_config.enable == g.oss_config.enable,
        g@.oss_config.access_key_id == g.oss_config.access_key_id@,
        g@.oss_config.secret_access_key == g.oss_config.secret_access_key@,
        g@.oss_config.security_token == g.oss_config.security_token@,
        g@.oss_config.credential_process == g.oss_config.credential_process@,
        g@.oss_config.default_region == g.oss_config.default_region@,
        g@.oss_config.default_endpoint == g.oss_config.default_endpoint@,
        g@.oss_config.default_addressing_style == g.oss_config.default_addressing_style@,
        g@.oss_config.timeout_secs == g.oss_config.timeout_secs,
        g@.oss_config.retry_count == g.oss_config.retry_count,
        g@.log_config.log_level == g.log_config.log_level,
        g@.log_config.log_path == g.log_config.log_path@,
        g@.log_config.log_size_mb == g.log_config.log_size_mb,
        g@.log_config.log_rotate_num == g.log_config.log_rotate_num,
        g@.prefetch_config == g.prefetch_config,
        g@.cert_config.cert_file == g.cert_config.cert_file@,
        g@.cert_config.key_file == g.cert_config.key_file@,
        g@.user_agent == g.user_agent@,
        g@.credential_config.mode == g.credential_config.mode@,
        g@.credential_config.path == g.credential_config.path@,
        g@.credential_config.timeout == g.credential_config.timeout,
        g@.nr_io_rings == g.nr_io_rings,
{
}

} // verus!
