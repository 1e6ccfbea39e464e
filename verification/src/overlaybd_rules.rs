//! The rules of image configurations: how older settings give way to newer
//! ones, how paths are resolved, and what is refused.
use vstd::prelude::*;

use crate::failure;
use crate::failure::Failure;
use crate::overlaybd_config;
use crate::overlaybd_config::DownloadConfig;
use crate::overlaybd_config::GlobalConfig;
use crate::overlaybd_config::ImageConfig;
use crate::overlaybd_config::LayerConfig;
use crate::overlaybd_config::DEFAULT_LOG_ROTATE_NUM;
use crate::overlaybd_config::DEFAULT_LOG_SIZE_MB;
use crate::overlaybd_config::MAX_LAYER_CNT;
use crate::overlaybd_config::PACKAGE_VERSION;
use crate::paths;
use crate::text;

verus! {

impl ImageConfig {
    /// The download settings of this image: its own, or else the shared ones.
    pub fn effective_download<'a>(&'a self, global_config: &'a GlobalConfig) -> (r:
        &'a DownloadConfig)
        ensures
            *r == (match self.download_override {
                Some(own) => own,
                None => global_config.download,
            }),
    {
        match &self.download_override {
            Some(own) => own,
            None => &global_config.download,
        }
    }
}

/// The cache settings in use: the nested ones where they name a cache type,
/// else the older ones, with a file cache where those name none either.
pub open spec fn cache_in_use(g: overlaybd_config::GlobalModel) -> overlaybd_config::CacheModel {
    if g.cache_config.cache_type.len() > 0 {
        g.cache_config
    } else {
        overlaybd_config::CacheModel {
            cache_type: if g.cache_type.len() == 0 {
                "file"@
            } else {
                g.cache_type
            },
            cache_dir: g.registry_cache_dir,
            cache_size_gb: g.registry_cache_size_gb,
            ..g.cache_config
        }
    }
}

/// The credential settings in use: the nested ones where they name a mode, else
/// the older credential file where there is one.
pub open spec fn credentials_in_use(
    g: overlaybd_config::GlobalModel,
) -> overlaybd_config::CredentialModel {
    if g.credential_config.mode.len() == 0 && g.credential_file_path.len() > 0 {
        overlaybd_config::CredentialModel {
            mode: "file"@,
            path: g.credential_file_path,
            ..g.credential_config
        }
    } else {
        g.credential_config
    }
}

/// The log settings in use: the nested ones where they name a file, else the
/// older level and file, with the default size and rotation where none is set.
pub open spec fn log_in_use(g: overlaybd_config::GlobalModel) -> overlaybd_config::LogModel {
    if g.log_config.log_path.len() > 0 {
        g.log_config
    } else {
        overlaybd_config::LogModel {
            log_level: g.log_level,
            log_path: g.log_path,
            log_size_mb: if g.log_config.log_size_mb == 0 {
                DEFAULT_LOG_SIZE_MB
            } else {
                g.log_config.log_size_mb
            },
            log_rotate_num: if g.log_config.log_rotate_num <= 0 {
                DEFAULT_LOG_ROTATE_NUM
            } else {
                g.log_config.log_rotate_num
            },
        }
    }
}

/// The settings with the older ones merged into the nested ones.
pub open spec fn merged(g: overlaybd_config::GlobalModel) -> overlaybd_config::GlobalModel {
    overlaybd_config::GlobalModel {
        cache_config: cache_in_use(g),
        credential_config: credentials_in_use(g),
        log_config: log_in_use(g),
        user_agent: if g.user_agent.len() == 0 {
            PACKAGE_VERSION@
        } else {
            g.user_agent
        },
        ..g
    }
}

impl GlobalConfig {
    /// Fills the nested settings from the older ones where they are not set.
    pub fn normalize_compat_fields(&mut self)
        ensures
            final(self)@ == merged(old(self)@),
    {
        if self.cache_config.cache_type.as_str().is_empty() {
            self.cache_config.cache_type = if self.cache_type.as_str().is_empty() {
                "file".to_owned()
            } else {
                self.cache_type.clone()
            };
            self.cache_config.cache_dir = self.registry_cache_dir.clone();
            self.cache_config.cache_size_gb = self.registry_cache_size_gb;
        }
        if self.credential_config.mode.as_str().is_empty()
            && !self.credential_file_path.as_str().is_empty() {
            self.credential_config.mode = "file".to_owned();
            self.credential_config.path = self.credential_file_path.clone();
        }
        if self.log_config.log_path.as_str().is_empty() {
            self.log_config.log_level = self.log_level;
            self.log_config.log_path = self.log_path.clone();
            if self.log_config.log_size_mb == 0 {
                self.log_config.log_size_mb = DEFAULT_LOG_SIZE_MB;
            }
            if self.log_config.log_rotate_num <= 0 {
                self.log_config.log_rotate_num = DEFAULT_LOG_ROTATE_NUM;
            }
        }
        if self.user_agent.as_str().is_empty() {
            self.user_agent = PACKAGE_VERSION.to_owned();
        }
        assert(self@ =~= merged(old(self)@));
    }
}

/// Merging the older settings a second time changes nothing.
pub proof fn merging_twice_is_merging_once(g: overlaybd_config::GlobalModel)
    ensures
        merged(merged(g)) == merged(g),
{
    reveal_strlit("file");
    reveal_strlit("0.1.0");
    assert(merged(merged(g)) =~= merged(g));
}

/// After merging, the settings name a cache type and a user agent, and nested
/// settings that were there have been kept.
pub proof fn merged_settings_are_complete(g: overlaybd_config::GlobalModel)
    ensures
        merged(g).cache_config.cache_type.len() > 0,
        merged(g).user_agent.len() > 0,
        g.cache_config.cache_type.len() > 0 ==> merged(g).cache_config == g.cache_config,
        g.credential_config.mode.len() > 0 ==> merged(g).credential_config == g.credential_config,
        g.log_config.log_path.len() > 0 ==> merged(g).log_config == g.log_config,
{
    reveal_strlit("file");
    reveal_strlit("0.1.0");
}

/// The largest download chunk, in bytes.
pub const MAX_BLOCK_SIZE: u64 = 67108864;

/// The largest number of chunks of one layer that download at one time.
pub const MAX_CONCURRENCY: usize = 16;

/// The most memory that the chunks of one layer may take, in bytes.
pub const MAX_LAYER_SCRATCH_BYTES: u64 = 268435456;

pub const MAX_INFLIGHT_BLOCKS: usize = 128;

pub const MAX_CONCURRENT_FILES: usize = 128;

/// The most memory that all chunks may take, in bytes.
pub const MAX_GLOBAL_SCRATCH_BYTES: u64 = 2147483648;

/// `what`, then the place `field` in brackets.
pub open spec fn in_field(what: Seq<char>, field: Seq<char>) -> Seq<char> {
    what + " (in "@ + field + ")"@
}

/// The first thing wrong with the chunk settings of a download.
pub open spec fn chunk_fault(d: DownloadConfig, field: Seq<char>) -> Option<Seq<char>> {
    if d.concurrency == 0 {
        Some(field + " must be > 0"@)
    } else if d.concurrency > MAX_CONCURRENCY {
        Some(in_field("download.concurrency must be <= 16"@, field))
    } else if d.block_size == 0 {
        Some(in_field("download.blockSize must be > 0"@, field))
    } else if d.block_size > MAX_BLOCK_SIZE {
        Some(in_field("download.blockSize must be <= 67108864 bytes"@, field))
    } else if d.block_size * d.concurrency > MAX_LAYER_SCRATCH_BYTES {
        Some(in_field("download.blockSize * concurrency must be <= 268435456 bytes"@, field))
    } else {
        None
    }
}

fn failure_in(what: &str, field: &str) -> (r: Failure)
    ensures
        r.message@ == in_field(what@, field@),
{
    Failure::new(text::concat3(text::concat(what, " (in ").as_str(), field, ")"))
}

/// Checks the settings that hold for every download, also that of one image.
fn validate_download_chunk_knobs(cfg: &DownloadConfig, field: &str) -> (r: Result<(), Failure>)
    ensures
        failure::reports(r, chunk_fault(*cfg, field@)),
{
    if cfg.concurrency == 0 {
        return Err(Failure::new(text::concat(field, " must be > 0")));
    }
    if cfg.concurrency > MAX_CONCURRENCY {
        return Err(failure_in("download.concurrency must be <= 16", field));
    }
    if cfg.block_size == 0 {
        return Err(failure_in("download.blockSize must be > 0", field));
    }
    if cfg.block_size as u64 > MAX_BLOCK_SIZE {
        return Err(failure_in("download.blockSize must be <= 67108864 bytes", field));
    }
    assert(cfg.block_size * cfg.concurrency <= 67108864 * 16) by (nonlinear_arith)
        requires
            cfg.block_size <= 67108864,
            cfg.concurrency <= 16,
    ;
    if cfg.block_size as u64 * cfg.concurrency as u64 > MAX_LAYER_SCRATCH_BYTES {
        return Err(
            failure_in("download.blockSize * concurrency must be <= 268435456 bytes", field),
        );
    }
    Ok(())
}

/// The first thing wrong with the caps of the download scheduler.
pub open spec fn scheduler_fault(d: DownloadConfig, field: Seq<char>) -> Option<Seq<char>> {
    if d.max_inflight_blocks == 0 {
        Some(in_field("download.maxInflightBlocks must be > 0"@, field))
    } else if d.max_inflight_blocks > MAX_INFLIGHT_BLOCKS {
        Some(in_field("download.maxInflightBlocks must be <= 128"@, field))
    } else if d.max_concurrent_files == 0 {
        Some(in_field("download.maxConcurrentFiles must be > 0"@, field))
    } else if d.max_concurrent_files > MAX_CONCURRENT_FILES {
        Some(in_field("download.maxConcurrentFiles must be <= 128"@, field))
    } else if d.block_size * d.max_inflight_blocks > MAX_GLOBAL_SCRATCH_BYTES {
        Some(
            in_field("download.blockSize * maxInflightBlocks must be <= 2147483648 bytes"@, field),
        )
    } else {
        None
    }
}

/// Checks the settings that hold for the shared download scheduler only.
fn validate_download_scheduler_caps(cfg: &DownloadConfig, field: &str) -> (r: Result<(), Failure>)
    ensures
        failure::reports(r, scheduler_fault(*cfg, field@)),
{
    if cfg.max_inflight_blocks == 0 {
        return Err(failure_in("download.maxInflightBlocks must be > 0", field));
    }
    if cfg.max_inflight_blocks > MAX_INFLIGHT_BLOCKS {
        return Err(failure_in("download.maxInflightBlocks must be <= 128", field));
    }
    if cfg.max_concurrent_files == 0 {
        return Err(failure_in("download.maxConcurrentFiles must be > 0", field));
    }
    if cfg.max_concurrent_files > MAX_CONCURRENT_FILES {
        return Err(failure_in("download.maxConcurrentFiles must be <= 128", field));
    }
    assert(cfg.block_size * cfg.max_inflight_blocks <= u32::MAX * 128) by (nonlinear_arith)
        requires
            cfg.block_size <= u32::MAX,
            cfg.max_inflight_blocks <= 128,
    ;
    let global_scratch: u64 = cfg.block_size as u64 * cfg.max_inflight_blocks as u64;
    if global_scratch > MAX_GLOBAL_SCRATCH_BYTES {
        return Err(
            failure_in(
                "download.blockSize * maxInflightBlocks must be <= 2147483648 bytes",
                field,
            ),
        );
    }
    Ok(())
}

pub open spec fn known_cache_type(t: Seq<char>) -> bool {
    t == "file"@ || t == "ocf"@ || t == "download"@
}

pub open spec fn known_addressing_style(s: Seq<char>) -> bool {
    s.len() == 0 || s == "virtual"@ || s == "path"@
}

pub open spec fn credential_fault(c: overlaybd_config::CredentialModel) -> Option<Seq<char>> {
    if c.mode.len() == 0 {
        None
    } else if c.mode == "file"@ || c.mode == "http"@ {
        failure::fault_if(
            c.path.len() == 0,
            "credentialConfig.path cannot be empty when mode is set"@,
        )
    } else {
        Some("invalid credential mode "@ + c.mode)
    }
}

/// The first thing wrong with the object store settings.
pub open spec fn oss_fault(o: overlaybd_config::OssModel) -> Option<Seq<char>> {
    if !o.enable {
        None
    } else if o.default_endpoint.len() == 0 {
        Some("ossConfig.defaultEndpoint cannot be empty when oss is enabled"@)
    } else if text::blank(o.default_region) {
        Some("ossConfig.defaultRegion cannot be empty when oss is enabled"@)
    } else if (o.access_key_id.len() == 0) != (o.secret_access_key.len() == 0) {
        Some("ossConfig.accessKeyId and ossConfig.secretAccessKey must be set together"@)
    } else if !text::blank(o.credential_process) && !(o.access_key_id.len() == 0
        && o.secret_access_key.len() == 0 && o.security_token.len() == 0) {
        Some(
            "ossConfig.credentialProcess cannot be combined with accessKeyId/secretAccessKey/securityToken"@,
        )
    } else if o.security_token.len() > 0 && !(o.access_key_id.len() > 0
        && o.secret_access_key.len() > 0) {
        Some("ossConfig.securityToken requires accessKeyId and secretAccessKey"@)
    } else if !known_addressing_style(text::trimmed(o.default_addressing_style)) {
        Some(
            "ossConfig.defaultAddressingStyle must be 'virtual', 'path', or empty for auto-detection, got '"@
                + o.default_addressing_style + "'"@,
        )
    } else {
        None
    }
}

/// The first thing wrong with the shared settings after merging.
pub open spec fn global_fault(g: overlaybd_config::GlobalModel) -> Option<Seq<char>> {
    failure::earliest(
        failure::fault_if(
            g.io_engine > 2,
            "unknown ioEngine "@ + text::decimal(g.io_engine as nat),
        ),
        failure::earliest(
            chunk_fault(g.download, "download.concurrency"@),
            failure::earliest(
                scheduler_fault(g.download, "download"@),
                failure::earliest(
                    failure::fault_if(
                        !known_cache_type(g.cache_config.cache_type),
                        "unknown cache type: "@ + g.cache_config.cache_type,
                    ),
                    failure::earliest(
                        failure::fault_if(
                            g.enable_thread && g.cache_config.cache_type == "file"@,
                            "enableThread=true is invalid when cache type is file"@,
                        ),
                        failure::earliest(
                            credential_fault(g.credential_config),
                            failure::earliest(
                                failure::fault_if(
                                    g.p2p_config.enable && g.p2p_config.address.len() == 0,
                                    "p2pConfig.address cannot be empty when p2p is enabled"@,
                                ),
                                failure::earliest(
                                    failure::fault_if(
                                        !(g.registry_fs_version == "v1"@ || g.registry_fs_version
                                            == "v2"@),
                                        "unsupported registryFsVersion "@ + g.registry_fs_version,
                                    ),
                                    failure::earliest(
                                        oss_fault(g.oss_config),
                                        failure::fault_if(
                                            g.nr_io_rings == 0,
                                            "nr_io_rings cannot be zero"@,
                                        ),
                                    ),
                                ),
                            ),
                        ),
                    ),
                ),
            ),
        ),
    )
}

fn validate_credentials(cfg: &overlaybd_config::CredentialConfig) -> (r: Result<(), Failure>)
    ensures
        failure::reports(r, credential_fault(cfg@)),
{
    let mode = cfg.mode.as_str();
    if mode.is_empty() {
        return Ok(());
    }
    if text::same(mode, "file") || text::same(mode, "http") {
        if cfg.path.as_str().is_empty() {
            return Err(
                Failure::because("credentialConfig.path cannot be empty when mode is set"),
            );
        }
        return Ok(());
    }
    Err(Failure::new(text::concat("invalid credential mode ", mode)))
}

fn validate_oss(cfg: &overlaybd_config::OssConfig) -> (r: Result<(), Failure>)
    ensures
        failure::reports(r, oss_fault(cfg@)),
{
    if !cfg.enable {
        return Ok(());
    }
    if cfg.default_endpoint.as_str().is_empty() {
        return Err(
            Failure::because("ossConfig.defaultEndpoint cannot be empty when oss is enabled"),
        );
    }
    if text::trim(cfg.default_region.as_str()).as_str().is_empty() {
        return Err(
            Failure::because("ossConfig.defaultRegion cannot be empty when oss is enabled"),
        );
    }
    let no_key = cfg.access_key_id.as_str().is_empty();
    let no_secret = cfg.secret_access_key.as_str().is_empty();
    let no_token = cfg.security_token.as_str().is_empty();
    if no_key != no_secret {
        return Err(
            Failure::because(
                "ossConfig.accessKeyId and ossConfig.secretAccessKey must be set together",
            ),
        );
    }
    if !text::trim(cfg.credential_process.as_str()).as_str().is_empty() && !(no_key && no_secret
        && no_token) {
        return Err(
            Failure::because(
                "ossConfig.credentialProcess cannot be combined with accessKeyId/secretAccessKey/securityToken",
            ),
        );
    }
    if !no_token && !(!no_key && !no_secret) {
        return Err(
            Failure::because("ossConfig.securityToken requires accessKeyId and secretAccessKey"),
        );
    }
    let style = text::trim(cfg.default_addressing_style.as_str());
    if !(style.as_str().is_empty() || text::same(style.as_str(), "virtual") || text::same(
        style.as_str(),
        "path",
    )) {
        return Err(
            Failure::new(
                text::concat3(
                    "ossConfig.defaultAddressingStyle must be 'virtual', 'path', or empty for auto-detection, got '",
                    cfg.default_addressing_style.as_str(),
                    "'",
                ),
            ),
        );
    }
    Ok(())
}

/// Checks the shared settings, which have been merged before.
pub fn validate_global_config(cfg: &GlobalConfig) -> (r: Result<(), Failure>)
    ensures
        failure::reports(r, global_fault(cfg@)),
{
    if cfg.io_engine > 2 {
        let number = text::decimal_of(cfg.io_engine as u64);
        return Err(Failure::new(text::concat("unknown ioEngine ", number.as_str())));
    }
    match validate_download_chunk_knobs(&cfg.download, "download.concurrency") {
        Err(e) => {
            return Err(e);
        },
        Ok(_) => {},
    }
    match validate_download_scheduler_caps(&cfg.download, "download") {
        Err(e) => {
            return Err(e);
        },
        Ok(_) => {},
    }
    let cache_type = cfg.cache_config.cache_type.as_str();
    let file_cache = text::same(cache_type, "file");
    if !(file_cache || text::same(cache_type, "ocf") || text::same(cache_type, "download")) {
        return Err(Failure::new(text::concat("unknown cache type: ", cache_type)));
    }
    if cfg.enable_thread && file_cache {
        return Err(Failure::because("enableThread=true is invalid when cache type is file"));
    }
    match validate_credentials(&cfg.credential_config) {
        Err(e) => {
            return Err(e);
        },
        Ok(_) => {},
    }
    if cfg.p2p_config.enable && cfg.p2p_config.address.as_str().is_empty() {
        return Err(Failure::because("p2pConfig.address cannot be empty when p2p is enabled"));
    }
    let version = cfg.registry_fs_version.as_str();
    if !(text::same(version, "v1") || text::same(version, "v2")) {
        return Err(Failure::new(text::concat("unsupported registryFsVersion ", version)));
    }
    match validate_oss(&cfg.oss_config) {
        Err(e) => {
            return Err(e);
        },
        Ok(_) => {},
    }
    if cfg.nr_io_rings == 0 {
        return Err(Failure::because("nr_io_rings cannot be zero"));
    }
    Ok(())
}

/// What reading a configuration file gave.
#[derive(Debug, PartialEq, Eq)]
pub enum ConfigFile<C> {
    Unreadable,
    /// The file holds no configuration in JSON.
    Unparsable,
    Parsed(C),
}

/// The settings of a file, with the older settings merged. What is loaded has been
/// checked.
pub fn load_global_config(file: ConfigFile<GlobalConfig>) -> (r: Result<GlobalConfig, Failure>)
    ensures
        match file {
            ConfigFile::Unreadable => r is Err && r->Err_0.message@
                == "reading global config file"@,
            ConfigFile::Unparsable => r is Err && r->Err_0.message@
                == "parse global config json failed"@,
            ConfigFile::Parsed(cfg) => {
                &&& failure::reports(r, global_fault(merged(cfg@)))
                &&& r matches Ok(ready) ==> ready@ == merged(cfg@)
            },
        },
        r matches Ok(ready) ==> global_fault(ready@) is None,
{
    let mut ready = match file {
        ConfigFile::Unreadable => {
            return Err(Failure::because("reading global config file"));
        },
        ConfigFile::Unparsable => {
            return Err(Failure::because("parse global config json failed"));
        },
        ConfigFile::Parsed(cfg) => cfg,
    };
    ready.normalize_compat_fields();
    match validate_global_config(&ready) {
        Ok(_) => Ok(ready),
        Err(e) => Err(e),
    }
}

/// The default settings are accepted.
pub proof fn default_settings_are_accepted()
    ensures
        global_fault(merged(overlaybd_config::default_global())) is None,
{
    reveal_strlit("file");
    reveal_strlit("/opt/overlaybd/cred.json");
    let g = merged(overlaybd_config::default_global());
    assert(g.cache_config.cache_type == "file"@);
    assert(g.credential_config.mode == "file"@);
    assert(g.credential_config.path.len() > 0);
    assert(g.download.block_size * g.download.concurrency <= MAX_LAYER_SCRATCH_BYTES);
    assert(g.download.block_size * g.download.max_inflight_blocks <= MAX_GLOBAL_SCRATCH_BYTES);
}

/// Accepted settings bound the memory of downloads: of one layer, and of all
/// layers together.
pub proof fn accepted_downloads_fit_their_scratch_budget(g: overlaybd_config::GlobalModel)
    requires
        global_fault(g) is None,
    ensures
        0 < g.download.block_size * g.download.concurrency <= MAX_LAYER_SCRATCH_BYTES,
        0 < g.download.block_size * g.download.max_inflight_blocks <= MAX_GLOBAL_SCRATCH_BYTES,
{
    assert(chunk_fault(g.download, "download.concurrency"@) is None);
    assert(scheduler_fault(g.download, "download"@) is None);
    assert(0 < g.download.block_size * g.download.concurrency) by (nonlinear_arith)
        requires
            g.download.block_size > 0,
            g.download.concurrency > 0,
    ;
    assert(0 < g.download.block_size * g.download.max_inflight_blocks) by (nonlinear_arith)
        requires
            g.download.block_size > 0,
            g.download.max_inflight_blocks > 0,
    ;
}

/// The first thing wrong with one lower layer of an image.
pub open spec fn layer_fault(l: overlaybd_config::LayerModel, image_repo: Seq<char>) -> Option<
    Seq<char>,
> {
    if l.file.len() == 0 && l.digest.len() == 0 && l.dir.len() == 0 {
        Some("each lower must provide at least one of file/dir/digest"@)
    } else if l.file.len() == 0 && l.digest.len() > 0 && overlaybd_config::repo_of(
        l,
        image_repo,
    ).len() == 0 {
        Some("repoBlobUrl is required for remote lower layers"@)
    } else {
        None
    }
}

/// The first thing wrong with the lower layers of an image.
pub open spec fn layers_fault(
    ls: Seq<overlaybd_config::LayerModel>,
    image_repo: Seq<char>,
) -> Option<Seq<char>>
    decreases ls.len(),
{
    if ls.len() == 0 {
        None
    } else {
        failure::earliest(
            layers_fault(ls.drop_last(), image_repo),
            layer_fault(ls.last(), image_repo),
        )
    }
}

/// The first thing wrong with an image configuration.
pub open spec fn image_fault(c: overlaybd_config::ImageModel) -> Option<Seq<char>> {
    failure::earliest(
        match c.download_override {
            Some(d) => chunk_fault(d, "download override concurrency"@),
            None => None,
        },
        failure::earliest(
            failure::fault_if(
                c.lowers.len() > MAX_LAYER_CNT,
                "too many lowers: "@ + text::decimal(c.lowers.len()) + ", max 256"@,
            ),
            failure::earliest(
                overlaybd_config::upper_fault(c.upper),
                failure::earliest(
                    failure::fault_if(
                        c.lowers.len() == 0 && !overlaybd_config::writable_upper(c.upper),
                        "image config has no lowers and no writable upper"@,
                    ),
                    failure::earliest(
                        layers_fault(c.lowers, c.repo_blob_url),
                        failure::fault_if(
                            c.acceleration_layer && c.record_trace_path.len() > 0,
                            "accelerationLayer and recordTracePath cannot be enabled together"@,
                        ),
                    ),
                ),
            ),
        ),
    )
}

proof fn lemma_layers_fault_prefix(
    ls: Seq<overlaybd_config::LayerModel>,
    image_repo: Seq<char>,
    n: int,
)
    requires
        0 <= n <= ls.len(),
        layers_fault(ls.take(n), image_repo) is Some,
    ensures
        layers_fault(ls, image_repo) == layers_fault(ls.take(n), image_repo),
    decreases ls.len(),
{
    if n == ls.len() {
        assert(ls.take(n) =~= ls);
    } else {
        assert(ls.drop_last().take(n) =~= ls.take(n));
        lemma_layers_fault_prefix(ls.drop_last(), image_repo, n);
    }
}

fn validate_layer(layer: &LayerConfig, image_repo: &str) -> (r: Result<(), Failure>)
    ensures
        failure::reports(r, layer_fault(layer@, image_repo@)),
{
    let no_file = layer.file.as_str().is_empty();
    let no_digest = layer.digest.as_str().is_empty();
    if no_file && no_digest && layer.dir.as_str().is_empty() {
        return Err(Failure::because("each lower must provide at least one of file/dir/digest"));
    }
    let is_remote = no_file && !no_digest;
    if is_remote && layer.effective_repo_blob_url(image_repo).is_empty() {
        return Err(Failure::because("repoBlobUrl is required for remote lower layers"));
    }
    Ok(())
}

/// Checks an image configuration whose paths have been resolved before.
pub fn validate_image_config(cfg: &ImageConfig) -> (r: Result<(), Failure>)
    ensures
        failure::reports(r, image_fault(cfg@)),
{
    match &cfg.download_override {
        Some(download) => {
            match validate_download_chunk_knobs(download, "download override concurrency") {
                Err(e) => {
                    return Err(e);
                },
                Ok(_) => {},
            }
        },
        None => {},
    }
    assert(cfg@.lowers.len() == cfg.lowers@.len());
    if cfg.lowers.len() > MAX_LAYER_CNT {
        let count = text::decimal_of(cfg.lowers.len() as u64);
        return Err(
            Failure::new(text::concat3("too many lowers: ", count.as_str(), ", max 256")),
        );
    }
    let has_writable_upper = match overlaybd_config::validate_upper_config(&cfg.upper) {
        Err(e) => {
            return Err(e);
        },
        Ok(writable) => writable,
    };
    if cfg.lowers.len() == 0 && !has_writable_upper {
        return Err(Failure::because("image config has no lowers and no writable upper"));
    }
    let ghost all = cfg@.lowers;
    let mut i: usize = 0;
    assert(all.take(0) =~= Seq::empty());
    while i < cfg.lowers.len()
        invariant
            i <= cfg.lowers.len(),
            all == cfg@.lowers,
            all.len() == cfg.lowers@.len() <= MAX_LAYER_CNT,
            cfg.download_override matches Some(d) ==> chunk_fault(
                d,
                "download override concurrency"@,
            ) is None,
            overlaybd_config::upper_fault(cfg.upper@) is None,
            cfg.lowers@.len() > 0 || overlaybd_config::writable_upper(cfg.upper@),
            layers_fault(all.take(i as int), cfg.repo_blob_url@) is None,
        decreases cfg.lowers.len() - i,
    {
        assert(all.take(i + 1).drop_last() =~= all.take(i as int));
        assert(all.take(i + 1).last() == cfg.lowers@[i as int]@);
        match validate_layer(&cfg.lowers[i], cfg.repo_blob_url.as_str()) {
            Err(e) => {
                proof {
                    lemma_layers_fault_prefix(all, cfg.repo_blob_url@, i + 1);
                }
                return Err(e);
            },
            Ok(_) => {},
        }
        i += 1;
    }
    assert(all.take(all.len() as int) =~= all);
    if cfg.acceleration_layer && !cfg.record_trace_path.as_str().is_empty() {
        return Err(
            Failure::because("accelerationLayer and recordTracePath cannot be enabled together"),
        );
    }
    Ok(())
}

proof fn lemma_no_layer_fault(ls: Seq<overlaybd_config::LayerModel>, repo: Seq<char>, i: int)
    requires
        layers_fault(ls, repo) is None,
        0 <= i < ls.len(),
    ensures
        layer_fault(ls[i], repo) is None,
    decreases ls.len(),
{
    if i < ls.len() - 1 {
        lemma_no_layer_fault(ls.drop_last(), repo, i);
    }
}

/// An accepted image has something to read or a place to write; each of its
/// lower layers, at most 256, says where it is, and a remote one which
/// repository serves it; and the image does not both replay and record a trace.
pub proof fn accepted_image_is_usable(c: overlaybd_config::ImageModel)
    requires
        image_fault(c) is None,
    ensures
        c.lowers.len() > 0 || overlaybd_config::writable_upper(c.upper),
        c.lowers.len() <= MAX_LAYER_CNT,
        forall|i: int|
            0 <= i < c.lowers.len() ==> {
                let l = #[trigger] c.lowers[i];
                &&& l.file.len() > 0 || l.dir.len() > 0 || l.digest.len() > 0
                &&& l.file.len() == 0 && l.digest.len() > 0 ==> overlaybd_config::repo_of(
                    l,
                    c.repo_blob_url,
                ).len() > 0
            },
        !c.acceleration_layer || c.record_trace_path.len() == 0,
{
    assert forall|i: int| 0 <= i < c.lowers.len() implies {
        let l = #[trigger] c.lowers[i];
        &&& l.file.len() > 0 || l.dir.len() > 0 || l.digest.len() > 0
        &&& l.file.len() == 0 && l.digest.len() > 0 ==> overlaybd_config::repo_of(
            l,
            c.repo_blob_url,
        ).len() > 0
    } by {
        lemma_no_layer_fault(c.lowers, c.repo_blob_url, i);
    }
}

/// The caps of the shared download scheduler make no difference to an image: an
/// image is accepted or refused whatever its own download settings say of them.
pub proof fn scheduler_caps_of_an_image_are_ignored(
    c: overlaybd_config::ImageModel,
    d: DownloadConfig,
    max_inflight_blocks: usize,
    max_concurrent_files: usize,
)
    ensures
        image_fault(
            overlaybd_config::ImageModel {
                download_override: Some(
                    DownloadConfig { max_inflight_blocks, max_concurrent_files, ..d },
                ),
                ..c
            },
        ) == image_fault(overlaybd_config::ImageModel { download_override: Some(d), ..c }),
{
}

/// The directory against which the configuration at `config_path` is read: the one
/// that holds it, or the current directory.
pub open spec fn base_dir_of(config_path: Seq<char>) -> Seq<char> {
    match paths::parent_of(config_path) {
        Some(dir) => dir,
        None => seq!['.'],
    }
}

/// The text of a path field after resolving it against a directory. Empty fields
/// and addresses stay as they are.
pub open spec fn resolved_in(base_dir: Seq<char>, value: Seq<char>) -> Seq<char> {
    if value.len() == 0 || text::contains_text(value, "://"@) {
        value
    } else {
        paths::normalized(paths::join_of(base_dir, value))
    }
}

pub open spec fn resolved_layer(
    base_dir: Seq<char>,
    l: overlaybd_config::LayerModel,
) -> overlaybd_config::LayerModel {
    overlaybd_config::LayerModel {
        gzip_index: resolved_in(base_dir, l.gzip_index),
        file: resolved_in(base_dir, l.file),
        target_file: resolved_in(base_dir, l.target_file),
        dir: resolved_in(base_dir, l.dir),
        ..l
    }
}

pub open spec fn resolved_upper(
    base_dir: Seq<char>,
    u: overlaybd_config::UpperModel,
) -> overlaybd_config::UpperModel {
    overlaybd_config::UpperModel {
        index: resolved_in(base_dir, u.index),
        data: resolved_in(base_dir, u.data),
        target: resolved_in(base_dir, u.target),
        gzip_index: resolved_in(base_dir, u.gzip_index),
        ..u
    }
}

/// An image configuration with its path fields resolved against the directory of
/// the file at `config_path`.
pub open spec fn resolved_image(
    config_path: Seq<char>,
    c: overlaybd_config::ImageModel,
) -> overlaybd_config::ImageModel {
    let base_dir = base_dir_of(config_path);
    overlaybd_config::ImageModel {
        lowers: c.lowers.map_values(
            |l: overlaybd_config::LayerModel| resolved_layer(base_dir, l),
        ),
        upper: resolved_upper(base_dir, c.upper),
        result_file: resolved_in(base_dir, c.result_file),
        record_trace_path: resolved_in(base_dir, c.record_trace_path),
        ..c
    }
}

/// Resolves a path field against a directory.
pub fn resolve_path_field(base_dir: &str, value: &mut String)
    ensures
        final(value)@ == resolved_in(base_dir@, old(value)@),
{
    if value.as_str().is_empty() || text::contains(value.as_str(), "://") {
        return;
    }
    let path = paths::join(base_dir, value.as_str());
    *value = paths::lexically_normalize_path(path.as_str());
}

fn resolve_layer(base_dir: &str, layer: &mut LayerConfig)
    ensures
        final(layer)@ == resolved_layer(base_dir@, old(layer)@),
{
    resolve_path_field(base_dir, &mut layer.gzip_index);
    resolve_path_field(base_dir, &mut layer.file);
    resolve_path_field(base_dir, &mut layer.target_file);
    resolve_path_field(base_dir, &mut layer.dir);
}

/// Resolves the path fields of an image configuration against the directory
/// that holds the configuration file.
pub fn resolve_image_config_local_paths(image_config_path: &str, cfg: &mut ImageConfig)
    ensures
        final(cfg)@ == resolved_image(image_config_path@, old(cfg)@),
{
    proof {
        reveal_strlit(".");
    }
    assert("."@ =~= seq!['.']);
    let base_dir = match paths::parent(image_config_path) {
        Some(dir) => dir,
        None => ".".to_owned(),
    };
    let ghost path = image_config_path@;
    let ghost before = old(cfg)@;
    let mut i: usize = 0;
    while i < cfg.lowers.len()
        invariant
            i <= cfg.lowers@.len() == before.lowers.len(),
            cfg@ == (overlaybd_config::ImageModel { lowers: cfg@.lowers, ..before }),
            forall|k: int|
                0 <= k < i ==> (#[trigger] cfg.lowers@[k])@ == resolved_layer(
                    base_dir@,
                    before.lowers[k],
                ),
            forall|k: int|
                i <= k < before.lowers.len() ==> (#[trigger] cfg.lowers@[k])@ == before.lowers[k],
        decreases cfg.lowers.len() - i,
    {
        resolve_layer(base_dir.as_str(), &mut cfg.lowers[i]);
        i += 1;
    }
    assert(cfg@.lowers =~= resolved_image(path, before).lowers);
    resolve_path_field(base_dir.as_str(), &mut cfg.upper.index);
    resolve_path_field(base_dir.as_str(), &mut cfg.upper.data);
    resolve_path_field(base_dir.as_str(), &mut cfg.upper.target);
    resolve_path_field(base_dir.as_str(), &mut cfg.upper.gzip_index);
    resolve_path_field(base_dir.as_str(), &mut cfg.result_file);
    resolve_path_field(base_dir.as_str(), &mut cfg.record_trace_path);
    assert(cfg@ =~= resolved_image(path, before));
}

/// The image configuration of the file at `path`, with its paths resolved. What is
/// loaded has been checked.
pub fn load_image_config(path: &str, file: ConfigFile<ImageConfig>) -> (r: Result<
    ImageConfig,
    Failure,
>)
    ensures
        match file {
            ConfigFile::Unreadable => r is Err && r->Err_0.message@
                == "reading image config file"@,
            ConfigFile::Unparsable => r is Err && r->Err_0.message@
                == "parse image config json failed"@,
            ConfigFile::Parsed(cfg) => {
                &&& failure::reports(r, image_fault(resolved_image(path@, cfg@)))
                &&& r matches Ok(ready) ==> ready@ == resolved_image(path@, cfg@)
            },
        },
        r matches Ok(ready) ==> image_fault(ready@) is None,
{
    let mut ready = match file {
        ConfigFile::Unreadable => {
            return Err(Failure::because("reading image config file"));
        },
        ConfigFile::Unparsable => {
            return Err(Failure::because("parse image config json failed"));
        },
        ConfigFile::Parsed(cfg) => cfg,
    };
    resolve_image_config_local_paths(path, &mut ready);
    match validate_image_config(&ready) {
        Ok(_) => Ok(ready),
        Err(e) => Err(e),
    }
}

/// A configuration file that lies at an absolute path.
pub open spec fn absolute_file(config_path: Seq<char>) -> bool {
    paths::absolute(config_path) && paths::names(config_path).len() > 0
}

/// Against an absolute directory every path field that is neither empty nor an
/// address becomes absolute and free of `.` and `..`, and resolving it again changes
/// nothing.
pub proof fn resolving_a_field_twice_is_resolving_it_once(base_dir: Seq<char>, value: Seq<char>)
    requires
        paths::absolute(base_dir),
    ensures
        resolved_in(base_dir, resolved_in(base_dir, value)) == resolved_in(base_dir, value),
        value.len() == 0 || text::contains_text(value, "://"@) || (paths::absolute(
            resolved_in(base_dir, value),
        ) && paths::all_plain(paths::names(resolved_in(base_dir, value)))),
{
    if value.len() > 0 && !text::contains_text(value, "://"@) {
        let path = paths::join_of(base_dir, value);
        assert(path[0] == '/');
        paths::normalizing_twice_is_normalizing_once(path);
        paths::normalized_path_is_plain(path);
    }
}

/// Resolving the paths of a configuration twice against an absolute
/// configuration path is the same as resolving them once.
pub proof fn resolving_twice_is_resolving_once(
    config_path: Seq<char>,
    c: overlaybd_config::ImageModel,
)
    requires
        absolute_file(config_path),
    ensures
        resolved_image(config_path, resolved_image(config_path, c)) == resolved_image(
            config_path,
            c,
        ),
{
    paths::parents_of_absolute_paths_are_absolute(config_path);
    let once = resolved_image(config_path, c);
    let twice = resolved_image(config_path, once);
    let base_dir = base_dir_of(config_path);
    assert forall|v: Seq<char>|
        resolved_in(base_dir, #[trigger] resolved_in(base_dir, v)) == resolved_in(base_dir, v) by {
        resolving_a_field_twice_is_resolving_it_once(base_dir, v);
    }
    assert forall|i: int| 0 <= i < once.lowers.len() implies #[trigger] twice.lowers[i]
        == once.lowers[i] by {
        assert(once.lowers[i] == resolved_layer(base_dir, c.lowers[i]));
        assert(twice.lowers[i] == resolved_layer(base_dir, once.lowers[i]));
        assert(twice.lowers[i] =~= once.lowers[i]);
    }
    assert(twice.lowers =~= once.lowers);
    assert(twice.upper =~= once.upper);
    assert(twice =~= once);
}

} // verus!
