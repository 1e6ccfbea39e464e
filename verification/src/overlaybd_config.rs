//! Layered block-device images: their configuration, the defaults and the
//! checks that a configuration passes before it is used.
use vstd::prelude::*;

use crate::failure;
use crate::failure::Failure;
use crate::text;

verus! {

/// The largest number of lower layers of one image.
pub const MAX_LAYER_CNT: usize = 256;

pub const DEFAULT_LOG_SIZE_MB: u32 = 10;

pub const DEFAULT_LOG_ROTATE_NUM: i32 = 3;

/// The version of this package, which registries see as the user agent.
pub const PACKAGE_VERSION: &'static str = "0.1.0";

#[derive(Debug, PartialEq, Eq)]
pub struct LayerConfig {
    pub gzip_index: String,
    pub file: String,
    pub target_file: String,
    pub dir: String,
    pub repo_blob_url: String,
    pub digest: String,
    pub uuid: String,
    pub target_digest: String,
    pub size: u64,
}

/// What a layer configuration says.
#[verifier::ext_equal]
pub ghost struct LayerModel {
    pub gzip_index: Seq<char>,
    pub file: Seq<char>,
    pub target_file: Seq<char>,
    pub dir: Seq<char>,
    pub repo_blob_url: Seq<char>,
    pub digest: Seq<char>,
    pub uuid: Seq<char>,
    pub target_digest: Seq<char>,
    pub size: u64,
}

impl View for LayerConfig {
    type V = LayerModel;

    open spec fn view(&self) -> LayerModel {
        LayerModel {
            gzip_index: self.gzip_index@,
            file: self.file@,
            target_file: self.target_file@,
            dir: self.dir@,
            repo_blob_url: self.repo_blob_url@,
            digest: self.digest@,
            uuid: self.uuid@,
            target_digest: self.target_digest@,
            size: self.size,
        }
    }
}

/// A layer configuration that says nothing.
pub open spec fn empty_layer() -> LayerModel {
    LayerModel {
        gzip_index: Seq::empty(),
        file: Seq::empty(),
        target_file: Seq::empty(),
        dir: Seq::empty(),
        repo_blob_url: Seq::empty(),
        digest: Seq::empty(),
        uuid: Seq::empty(),
        target_digest: Seq::empty(),
        size: 0,
    }
}

impl Default for LayerConfig {
    fn default() -> (r: LayerConfig)
        ensures
            r@ == empty_layer(),
    {
        LayerConfig {
            gzip_index: String::new(),
            file: String::new(),
            target_file: String::new(),
            dir: String::new(),
            repo_blob_url: String::new(),
            digest: String::new(),
            uuid: String::new(),
            target_digest: String::new(),
            size: 0,
        }
    }
}

impl Clone for LayerConfig {
    fn clone(&self) -> (r: LayerConfig)
        ensures
            r == *self,
    {
        LayerConfig {
            gzip_index: self.gzip_index.clone(),
            file: self.file.clone(),
            target_file: self.target_file.clone(),
            dir: self.dir.clone(),
            repo_blob_url: self.repo_blob_url.clone(),
            digest: self.digest.clone(),
            uuid: self.uuid.clone(),
            target_digest: self.target_digest.clone(),
            size: self.size,
        }
    }
}

impl LayerConfig {
    /// The repository that serves this layer: its own, or else the image's.
    pub fn effective_repo_blob_url<'a>(&'a self, image_repo_blob_url: &'a str) -> (r: &'a str)
        ensures
            r@ == repo_of(self@, image_repo_blob_url@),
    {
        if self.repo_blob_url.as_str().is_empty() {
            image_repo_blob_url
        } else {
            self.repo_blob_url.as_str()
        }
    }
}

pub open spec fn repo_of(layer: LayerModel, image_repo: Seq<char>) -> Seq<char> {
    if layer.repo_blob_url.len() == 0 {
        image_repo
    } else {
        layer.repo_blob_url
    }
}

#[derive(Debug, Clone, Copy, PartialEq, Eq, Structural)]
pub enum UpperMode {
    Sparse,
    LogStructured,
    HybridLogStructured,
}

#[derive(Debug, PartialEq, Eq)]
pub struct UpperConfig {
    pub mode: Option<UpperMode>,
    pub index: String,
    pub data: String,
    pub target: String,
    pub gzip_index: String,
}

/// What an upper configuration says.
#[verifier::ext_equal]
pub ghost struct UpperModel {
    pub mode: Option<UpperMode>,
    pub index: Seq<char>,
    pub data: Seq<char>,
    pub target: Seq<char>,
    pub gzip_index: Seq<char>,
}

impl View for UpperConfig {
    type V = UpperModel;

    open spec fn view(&self) -> UpperModel {
        UpperModel {
            mode: self.mode,
            index: self.index@,
            data: self.data@,
            target: self.target@,
            gzip_index: self.gzip_index@,
        }
    }
}

/// No upper layer at all.
pub open spec fn empty_upper() -> UpperModel {
    UpperModel {
        mode: None,
        index: Seq::empty(),
        data: Seq::empty(),
        target: Seq::empty(),
        gzip_index: Seq::empty(),
    }
}

impl Default for UpperConfig {
    fn default() -> (r: UpperConfig)
        ensures
            r@ == empty_upper(),
    {
        UpperConfig {
            mode: None,
            index: String::new(),
            data: String::new(),
            target: String::new(),
            gzip_index: String::new(),
        }
    }
}

impl Clone for UpperConfig {
    fn clone(&self) -> (r: UpperConfig)
        ensures
            r == *self,
    {
        UpperConfig {
            mode: self.mode,
            index: self.index.clone(),
            data: self.data.clone(),
            target: self.target.clone(),
            gzip_index: self.gzip_index.clone(),
        }
    }
}

impl UpperConfig {
    /// How the upper layer is written; a log where nothing is said.
    pub fn writable_mode(&self) -> (r: UpperMode)
        ensures
            r == (match self.mode {
                Some(mode) => mode,
                None => UpperMode::LogStructured,
            }),
    {
        match self.mode {
            Some(mode) => mode,
            None => UpperMode::LogStructured,
        }
    }
}

pub open spec fn complete_upper(u: UpperModel) -> bool {
    u.data.len() > 0 && u.index.len() > 0
}

/// The upper layer can be written to.
pub open spec fn writable_upper(u: UpperModel) -> bool {
    if u.mode == Some(UpperMode::Sparse) {
        u.data.len() > 0
    } else {
        complete_upper(u)
    }
}

/// The first thing wrong with an upper configuration.
pub open spec fn upper_fault(u: UpperModel) -> Option<Seq<char>> {
    if u.mode == Some(UpperMode::Sparse) && u.data.len() == 0 {
        Some("upper.data is required when upper.mode is sparse"@)
    } else if u.mode != Some(UpperMode::Sparse) && (u.data.len() > 0) != (u.index.len() > 0) {
        Some("upper.index and upper.data must be set together"@)
    } else if (u.target.len() > 0 || u.gzip_index.len() > 0) && !complete_upper(u) {
        Some("upper.target and upper.gzipIndex require complete upper.data/index"@)
    } else if u.gzip_index.len() > 0 && u.target.len() == 0 {
        Some("upper.gzipIndex requires upper.target"@)
    } else {
        None
    }
}

/// Checks an upper configuration and says whether it can be written to.
pub fn validate_upper_config(upper: &UpperConfig) -> (r: Result<bool, Failure>)
    ensures
        failure::reports(r, upper_fault(upper@)),
        r matches Ok(writable) ==> writable == writable_upper(upper@),
{
    let has_upper_data = !upper.data.as_str().is_empty();
    let has_upper_index = !upper.index.as_str().is_empty();
    let has_complete_upper = has_upper_data && has_upper_index;
    let has_target = !upper.target.as_str().is_empty();
    let has_gzip_index = !upper.gzip_index.as_str().is_empty();

    let has_writable_upper = match upper.mode {
        Some(UpperMode::Sparse) => {
            if !has_upper_data {
                return Err(Failure::because("upper.data is required when upper.mode is sparse"));
            }
            true
        },
        Some(UpperMode::LogStructured) | Some(UpperMode::HybridLogStructured) | None => {
            if has_upper_data != has_upper_index {
                return Err(Failure::because("upper.index and upper.data must be set together"));
            }
            has_complete_upper
        },
    };

    if (has_target || has_gzip_index) && !has_complete_upper {
        return Err(
            Failure::because("upper.target and upper.gzipIndex require complete upper.data/index"),
        );
    }
    if has_gzip_index && !has_target {
        return Err(Failure::because("upper.gzipIndex requires upper.target"));
    }
    Ok(has_writable_upper)
}

/// How layers are downloaded in the background.
#[derive(Debug, Clone, Copy, PartialEq, Eq)]
pub struct DownloadConfig {
    pub enable: bool,
    pub delay: i32,
    pub delay_extra: i32,
    /// Rate limit of the concurrent chunk downloads of one layer, in MiB/s; 0
    /// disables throttling.
    pub max_mbps: i32,
    pub try_cnt: i32,
    /// Chunk size in bytes: one source request fetches a chunk of this size.
    pub block_size: u32,
    pub concurrency: usize,
    /// Cap on the chunks that download at one time in one cache backend; a
    /// per-image override of it has no effect.
    pub max_inflight_blocks: usize,
    /// Cap on the layer tasks that run at one time in one cache backend; a
    /// per-image override of it has no effect.
    pub max_concurrent_files: usize,
}

pub open spec fn default_download() -> DownloadConfig {
    DownloadConfig {
        enable: false,
        delay: 300,
        delay_extra: 30,
        max_mbps: 100,
        try_cnt: 5,
        block_size: 16777216,
        concurrency: 1,
        max_inflight_blocks: 16,
        max_concurrent_files: 8,
    }
}

impl Default for DownloadConfig {
    fn default() -> (r: DownloadConfig)
        ensures
            r == default_download(),
    {
        DownloadConfig {
            enable: false,
            delay: 300,
            delay_extra: 30,
            max_mbps: 100,
            try_cnt: 5,
            block_size: 16 * 1024 * 1024,
            concurrency: 1,
            max_inflight_blocks: 16,
            max_concurrent_files: 8,
        }
    }
}

/// One image: lower layers, the upper layer and how they are served.
#[derive(Debug, PartialEq, Eq)]
pub struct ImageConfig {
    pub repo_blob_url: String,
    pub lowers: Vec<LayerConfig>,
    pub upper: UpperConfig,
    pub result_file: String,
    pub download_override: Option<DownloadConfig>,
    pub acceleration_layer: bool,
    pub record_trace_path: String,
    /// The base template whose block device this template shares; a template
    /// without one is a base template itself.
    pub base_template: Option<String>,
}

/// What an image configuration says.
#[verifier::ext_equal]
pub ghost struct ImageModel {
    pub repo_blob_url: Seq<char>,
    pub lowers: Seq<LayerModel>,
    pub upper: UpperModel,
    pub result_file: Seq<char>,
    pub download_override: Option<DownloadConfig>,
    pub acceleration_layer: bool,
    pub record_trace_path: Seq<char>,
    pub base_template: Option<Seq<char>>,
}

/// What a list of layer configurations says.
pub open spec fn layers(v: Seq<LayerConfig>) -> Seq<LayerModel> {
    v.map_values(|l: LayerConfig| l@)
}

impl View for ImageConfig {
    type V = ImageModel;

    open spec fn view(&self) -> ImageModel {
        ImageModel {
            repo_blob_url: self.repo_blob_url@,
            lowers: layers(self.lowers@),
            upper: self.upper@,
            result_file: self.result_file@,
            download_override: self.download_override,
            acceleration_layer: self.acceleration_layer,
            record_trace_path: self.record_trace_path@,
            base_template: text::text_of(self.base_template),
        }
    }
}

pub open spec fn empty_image() -> ImageModel {
    ImageModel {
        repo_blob_url: Seq::empty(),
        lowers: Seq::empty(),
        upper: empty_upper(),
        result_file: Seq::empty(),
        download_override: None,
        acceleration_layer: false,
        record_trace_path: Seq::empty(),
        base_template: None,
    }
}

impl Default for ImageConfig {
    fn default() -> (r: ImageConfig)
        ensures
            r@ == empty_image(),
    {
        let r = ImageConfig {
            repo_blob_url: String::new(),
            lowers: Vec::new(),
            upper: UpperConfig::default(),
            result_file: String::new(),
            download_override: None,
            acceleration_layer: false,
            record_trace_path: String::new(),
            base_template: None,
        };
        assert(r@ =~= empty_image());
        r
    }
}

/// A copy of a list of layers.
pub fn clone_layers(v: &Vec<LayerConfig>) -> (r: Vec<LayerConfig>)
    ensures
        layers(r@) == layers(v@),
{
    let r = v.clone();
    assert forall|i: int| 0 <= i < v@.len() implies #[trigger] r@[i] == v@[i] by {
        assert(cloned::<LayerConfig>(v@[i], r@[i]));
    }
    assert(layers(r@) =~= layers(v@));
    r
}

impl Clone for ImageConfig {
    fn clone(&self) -> (r: ImageConfig)
        ensures
            r@ == self@,
    {
        ImageConfig {
            repo_blob_url: self.repo_blob_url.clone(),
            lowers: clone_layers(&self.lowers),
            upper: self.upper.clone(),
            result_file: self.result_file.clone(),
            download_override: self.download_override,
            acceleration_layer: self.acceleration_layer,
            record_trace_path: self.record_trace_path.clone(),
            base_template: match &self.base_template {
                Some(t) => Some(t.clone()),
                None => None,
            },
        }
    }
}

/// How layers are fetched from peers.
#[derive(Debug, PartialEq, Eq)]
pub struct P2PConfig {
    pub enable: bool,
    pub address: String,
}

/// What a value of [`P2PConfig`] says.
#[verifier::ext_equal]
pub ghost struct P2PModel {
    pub enable: bool,
    pub address: Seq<char>,
}

impl View for P2PConfig {
    type V = P2PModel;

    open spec fn view(&self) -> P2PModel {
        P2PModel {
            enable: self.enable,
            address: self.address@,
        }
    }
}

pub open spec fn default_p2p() -> P2PModel {
    P2PModel {
        enable: false,
        address: "http://localhost:9731/accelerator"@,
    }
}

impl Default for P2PConfig {
    fn default() -> (r: P2PConfig)
        ensures
            r@ == default_p2p(),
    {
        P2PConfig {
            enable: false,
            address: "http://localhost:9731/accelerator".to_owned(),
        }
    }
}

impl Clone for P2PConfig {
    fn clone(&self) -> (r: P2PConfig)
        ensures
            r == *self,
    {
        P2PConfig {
            enable: self.enable,
            address: self.address.clone(),
        }
    }
}

/// The cache of decompressed layers.
#[derive(Debug, PartialEq, Eq)]
pub struct GzipCacheConfig {
    pub enable: bool,
    pub cache_dir: String,
    pub cache_size_gb: u32,
    pub refill_size: u32,
}

/// What a value of [`GzipCacheConfig`] says.
#[verifier::ext_equal]
pub ghost struct GzipCacheModel {
    pub enable: bool,
    pub cache_dir: Seq<char>,
    pub cache_size_gb: u32,
    pub refill_size: u32,
}

impl View for GzipCacheConfig {
    type V = GzipCacheModel;

    open spec fn view(&self) -> GzipCacheModel {
        GzipCacheModel {
            enable: self.enable,
            cache_dir: self.cache_dir@,
            cache_size_gb: self.cache_size_gb,
            refill_size: self.refill_size,
        }
    }
}

pub open spec fn default_gzip_cache() -> GzipCacheModel {
    GzipCacheModel {
        enable: false,
        cache_dir: "/opt/overlaybd/gzip_cache"@,
        cache_size_gb: 4,
        refill_size: 1048576,
    }
}

impl Default for GzipCacheConfig {
    fn default() -> (r: GzipCacheConfig)
        ensures
            r@ == default_gzip_cache(),
    {
        GzipCacheConfig {
            enable: false,
            cache_dir: "/opt/overlaybd/gzip_cache".to_owned(),
            cache_size_gb: 4,
            refill_size: 1048576,
        }
    }
}

impl Clone for GzipCacheConfig {
    fn clone(&self) -> (r: GzipCacheConfig)
        ensures
            r == *self,
    {
        GzipCacheConfig {
            enable: self.enable,
            cache_dir: self.cache_dir.clone(),
            cache_size_gb: self.cache_size_gb,
            refill_size: self.refill_size,
        }
    }
}

/// Access to an object store.
#[derive(Debug, PartialEq, Eq)]
pub struct OssConfig {
    pub enable: bool,
    pub access_key_id: String,
    pub secret_access_key: String,
    pub security_token: String,
    pub credential_process: String,
    pub default_region: String,
    pub default_endpoint: String,
    /// `virtual`, `path`, or empty to go by the endpoint.
    pub default_addressing_style: String,
    /// Timeout of one request in seconds.
    pub timeout_secs: u64,
    /// Number of retries of a request.
    pub retry_count: u32,
}

/// What a value of [`OssConfig`] says.
#[verifier::ext_equal]
pub ghost struct OssModel {
    pub enable: bool,
    pub access_key_id: Seq<char>,
    pub secret_access_key: Seq<char>,
    pub security_token: Seq<char>,
    pub credential_process: Seq<char>,
    pub default_region: Seq<char>,
    pub default_endpoint: Seq<char>,
    pub default_addressing_style: Seq<char>,
    pub timeout_secs: u64,
    pub retry_count: u32,
}

impl View for OssConfig {
    type V = OssModel;

    open spec fn view(&self) -> OssModel {
        OssModel {
            enable: self.enable,
            access_key_id: self.access_key_id@,
            secret_access_key: self.secret_access_key@,
            security_token: self.security_token@,
            credential_process: self.credential_process@,
            default_region: self.default_region@,
            default_endpoint: self.default_endpoint@,
            default_addressing_style: self.default_addressing_style@,
            timeout_secs: self.timeout_secs,
            retry_count: self.retry_count,
        }
    }
}

pub open spec fn default_oss() -> OssModel {
    OssModel {
        enable: false,
        access_key_id: Seq::empty(),
        secret_access_key: Seq::empty(),
        security_token: Seq::empty(),
        credential_process: Seq::empty(),
        default_region: Seq::empty(),
        default_endpoint: Seq::empty(),
        default_addressing_style: Seq::empty(),
        timeout_secs: 30,
        retry_count: 3,
    }
}

impl Default for OssConfig {
    fn default() -> (r: OssConfig)
        ensures
            r@ == default_oss(),
    {
        OssConfig {
            enable: false,
            access_key_id: String::new(),
            secret_access_key: String::new(),
            security_token: String::new(),
            credential_process: String::new(),
            default_region: String::new(),
            default_endpoint: String::new(),
            default_addressing_style: String::new(),
            timeout_secs: 30,
            retry_count: 3,
        }
    }
}

impl Clone for OssConfig {
    fn clone(&self) -> (r: OssConfig)
        ensures
            r == *self,
    {
        OssConfig {
            enable: self.enable,
            access_key_id: self.access_key_id.clone(),
            secret_access_key: self.secret_access_key.clone(),
            security_token: self.security_token.clone(),
            credential_process: self.credential_process.clone(),
            default_region: self.default_region.clone(),
            default_endpoint: self.default_endpoint.clone(),
            default_addressing_style: self.default_addressing_style.clone(),
            timeout_secs: self.timeout_secs,
            retry_count: self.retry_count,
        }
    }
}

/// The metrics endpoint.
#[derive(Debug, PartialEq, Eq)]
pub struct ExporterConfig {
    pub enable: bool,
    pub uri_prefix: String,
    pub port: i32,
    pub update_interval: u64,
}

/// What a value of [`ExporterConfig`] says.
#[verifier::ext_equal]
pub ghost struct ExporterModel {
    pub enable: bool,
    pub uri_prefix: Seq<char>,
    pub port: i32,
    pub update_interval: u64,
}

impl View for ExporterConfig {
    type V = ExporterModel;

    open spec fn view(&self) -> ExporterModel {
        ExporterModel {
            enable: self.enable,
            uri_prefix: self.uri_prefix@,
            port: self.port,
            update_interval: self.update_interval,
        }
    }
}

pub open spec fn default_exporter() -> ExporterModel {
    ExporterModel {
        enable: false,
        uri_prefix: "/metrics"@,
        port: 9863,
        update_interval: 60000000,
    }
}

impl Default for ExporterConfig {
    fn default() -> (r: ExporterConfig)
        ensures
            r@ == default_exporter(),
    {
        ExporterConfig {
            enable: false,
            uri_prefix: "/metrics".to_owned(),
            port: 9863,
            update_interval: 60000000,
        }
    }
}

impl Clone for ExporterConfig {
    fn clone(&self) -> (r: ExporterConfig)
        ensures
            r == *self,
    {
        ExporterConfig {
            enable: self.enable,
            uri_prefix: self.uri_prefix.clone(),
            port: self.port,
            update_interval: self.update_interval,
        }
    }
}

/// Where registry credentials come from.
#[derive(Debug, PartialEq, Eq)]
pub struct CredentialConfig {
    pub mode: String,
    pub path: String,
    pub timeout: i32,
}

/// What a value of [`CredentialConfig`] says.
#[verifier::ext_equal]
pub ghost struct CredentialModel {
    pub mode: Seq<char>,
    pub path: Seq<char>,
    pub timeout: i32,
}

impl View for CredentialConfig {
    type V = CredentialModel;

    open spec fn view(&self) -> CredentialModel {
        CredentialModel {
            mode: self.mode@,
            path: self.path@,
            timeout: self.timeout,
        }
    }
}

pub open spec fn default_credential() -> CredentialModel {
    CredentialModel {
        mode: Seq::empty(),
        path: Seq::empty(),
        timeout: 1,
    }
}

impl Default for CredentialConfig {
    fn default() -> (r: CredentialConfig)
        ensures
            r@ == default_credential(),
    {
        CredentialConfig {
            mode: String::new(),
            path: String::new(),
            timeout: 1,
        }
    }
}

impl Clone for CredentialConfig {
    fn clone(&self) -> (r: CredentialConfig)
        ensures
            r == *self,
    {
        CredentialConfig {
            mode: self.mode.clone(),
            path: self.path.clone(),
            timeout: self.timeout,
        }
    }
}

/// The cache of layer blocks.
#[derive(Debug, PartialEq, Eq)]
pub struct CacheConfig {
    pub cache_type: String,
    pub cache_dir: String,
    pub cache_size_gb: u32,
    /// The unit of input and output, and of the bitmap.
    pub refill_size: u32,
}

/// What a value of [`CacheConfig`] says.
#[verifier::ext_equal]
pub ghost struct CacheModel {
    pub cache_type: Seq<char>,
    pub cache_dir: Seq<char>,
    pub cache_size_gb: u32,
    pub refill_size: u32,
}

impl View for CacheConfig {
    type V = CacheModel;

    open spec fn view(&self) -> CacheModel {
        CacheModel {
            cache_type: self.cache_type@,
            cache_dir: self.cache_dir@,
            cache_size_gb: self.cache_size_gb,
            refill_size: self.refill_size,
        }
    }
}

pub open spec fn default_cache() -> CacheModel {
    CacheModel {
        cache_type: Seq::empty(),
        cache_dir: "/opt/overlaybd/registry_cache"@,
        cache_size_gb: 4,
        refill_size: 262144,
    }
}

impl Default for CacheConfig {
    fn default() -> (r: CacheConfig)
        ensures
            r@ == default_cache(),
    {
        CacheConfig {
            cache_type: String::new(),
            cache_dir: "/opt/overlaybd/registry_cache".to_owned(),
            cache_size_gb: 4,
            refill_size: 262144,
        }
    }
}

impl Clone for CacheConfig {
    fn clone(&self) -> (r: CacheConfig)
        ensures
            r == *self,
    {
        CacheConfig {
            cache_type: self.cache_type.clone(),
            cache_dir: self.cache_dir.clone(),
            cache_size_gb: self.cache_size_gb,
            refill_size: self.refill_size,
        }
    }
}

/// The log file.
#[derive(Debug, PartialEq, Eq)]
pub struct LogConfig {
    pub log_level: u32,
    pub log_path: String,
    pub log_size_mb: u32,
    pub log_rotate_num: i32,
}

/// What a value of [`LogConfig`] says.
#[verifier::ext_equal]
pub ghost struct LogModel {
    pub log_level: u32,
    pub log_path: Seq<char>,
    pub log_size_mb: u32,
    pub log_rotate_num: i32,
}

impl View for LogConfig {
    type V = LogModel;

    open spec fn view(&self) -> LogModel {
        LogModel {
            log_level: self.log_level,
            log_path: self.log_path@,
            log_size_mb: self.log_size_mb,
            log_rotate_num: self.log_rotate_num,
        }
    }
}

pub open spec fn default_log() -> LogModel {
    LogModel {
        log_level: 1,
        log_path: Seq::empty(),
        log_size_mb: DEFAULT_LOG_SIZE_MB,
        log_rotate_num: DEFAULT_LOG_ROTATE_NUM,
    }
}

impl Default for LogConfig {
    fn default() -> (r: LogConfig)
        ensures
            r@ == default_log(),
    {
        LogConfig {
            log_level: 1,
            log_path: String::new(),
            log_size_mb: DEFAULT_LOG_SIZE_MB,
            log_rotate_num: DEFAULT_LOG_ROTATE_NUM,
        }
    }
}

impl Clone for LogConfig {
    fn clone(&self) -> (r: LogConfig)
        ensures
            r == *self,
    {
        LogConfig {
            log_level: self.log_level,
            log_path: self.log_path.clone(),
            log_size_mb: self.log_size_mb,
            log_rotate_num: self.log_rotate_num,
        }
    }
}

/// A client certificate.
#[derive(Debug, PartialEq, Eq)]
pub struct CertConfig {
    pub cert_file: String,
    pub key_file: String,
}

/// What a value of [`CertConfig`] says.
#[verifier::ext_equal]
pub ghost struct CertModel {
    pub cert_file: Seq<char>,
    pub key_file: Seq<char>,
}

impl View for CertConfig {
    type V = CertModel;

    open spec fn view(&self) -> CertModel {
        CertModel {
            cert_file: self.cert_file@,
            key_file: self.key_file@,
        }
    }
}

pub open spec fn default_cert() -> CertModel {
    CertModel {
        cert_file: Seq::empty(),
        key_file: Seq::empty(),
    }
}

impl Default for CertConfig {
    fn default() -> (r: CertConfig)
        ensures
            r@ == default_cert(),
    {
        CertConfig {
            cert_file: String::new(),
            key_file: String::new(),
        }
    }
}

impl Clone for CertConfig {
    fn clone(&self) -> (r: CertConfig)
        ensures
            r == *self,
    {
        CertConfig {
            cert_file: self.cert_file.clone(),
            key_file: self.key_file.clone(),
        }
    }
}

/// How many blocks are read ahead at one time.
#[derive(Debug, Clone, Copy, PartialEq, Eq)]
pub struct PrefetchConfig {
    pub concurrency: i32,
}

pub open spec fn default_prefetch() -> PrefetchConfig {
    PrefetchConfig { concurrency: 16 }
}

impl Default for PrefetchConfig {
    fn default() -> (r: PrefetchConfig)
        ensures
            r == default_prefetch(),
    {
        PrefetchConfig { concurrency: 16 }
    }
}

/// The settings that all images of one process share.
#[derive(Debug, PartialEq, Eq)]
pub struct GlobalConfig {
    // Older settings, which the nested ones replace.
    pub registry_cache_dir: String,
    pub credential_file_path: String,
    pub registry_cache_size_gb: u32,
    pub io_engine: u32,
    pub cache_type: String,
    pub log_level: u32,
    pub log_path: String,
    // Settings in use.
    pub download: DownloadConfig,
    pub enable_audit: bool,
    pub enable_thread: bool,
    pub p2p_config: P2PConfig,
    pub exporter_config: ExporterConfig,
    pub audit_path: String,
    pub registry_fs_version: String,
    pub cache_config: CacheConfig,
    pub gzip_cache_config: GzipCacheConfig,
    pub oss_config: OssConfig,
    pub log_config: LogConfig,
    pub prefetch_config: PrefetchConfig,
    pub cert_config: CertConfig,
    pub user_agent: String,
    pub credential_config: CredentialConfig,
    /// The number of I/O rings.
    pub nr_io_rings: usize,
}

/// What a value of [`GlobalConfig`] says.
#[verifier::ext_equal]
pub ghost struct GlobalModel {
    pub registry_cache_dir: Seq<char>,
    pub credential_file_path: Seq<char>,
    pub registry_cache_size_gb: u32,
    pub io_engine: u32,
    pub cache_type: Seq<char>,
    pub log_level: u32,
    pub log_path: Seq<char>,
    pub download: DownloadConfig,
    pub enable_audit: bool,
    pub enable_thread: bool,
    pub p2p_config: P2PModel,
    pub exporter_config: ExporterModel,
    pub audit_path: Seq<char>,
    pub registry_fs_version: Seq<char>,
    pub cache_config: CacheModel,
    pub gzip_cache_config: GzipCacheModel,
    pub oss_config: OssModel,
    pub log_config: LogModel,
    pub prefetch_config: PrefetchConfig,
    pub cert_config: CertModel,
    pub user_agent: Seq<char>,
    pub credential_config: CredentialModel,
    pub nr_io_rings: usize,
}

impl View for GlobalConfig {
    type V = GlobalModel;

    open spec fn view(&self) -> GlobalModel {
        GlobalModel {
            registry_cache_dir: self.registry_cache_dir@,
            credential_file_path: self.credential_file_path@,
            registry_cache_size_gb: self.registry_cache_size_gb,
            io_engine: self.io_engine,
            cache_type: self.cache_type@,
            log_level: self.log_level,
            log_path: self.log_path@,
            download: self.download,
            enable_audit: self.enable_audit,
            enable_thread: self.enable_thread,
            p2p_config: self.p2p_config@,
            exporter_config: self.exporter_config@,
            audit_path: self.audit_path@,
            registry_fs_version: self.registry_fs_version@,
            cache_config: self.cache_config@,
            gzip_cache_config: self.gzip_cache_config@,
            oss_config: self.oss_config@,
            log_config: self.log_config@,
            prefetch_config: self.prefetch_config,
            cert_config: self.cert_config@,
            user_agent: self.user_agent@,
            credential_config: self.credential_config@,
            nr_io_rings: self.nr_io_rings,
        }
    }
}

pub open spec fn default_global() -> GlobalModel {
    GlobalModel {
        registry_cache_dir: "/opt/overlaybd/registry_cache"@,
        credential_file_path: "/opt/overlaybd/cred.json"@,
        registry_cache_size_gb: 4,
        io_engine: 0,
        cache_type: "file"@,
        log_level: 1,
        log_path: "/var/log/overlaybd.log"@,
        download: default_download(),
        enable_audit: true,
        enable_thread: false,
        p2p_config: default_p2p(),
        exporter_config: default_exporter(),
        audit_path: "/var/log/overlaybd-audit.log"@,
        registry_fs_version: "v2"@,
        cache_config: default_cache(),
        gzip_cache_config: default_gzip_cache(),
        oss_config: default_oss(),
        log_config: default_log(),
        prefetch_config: default_prefetch(),
        cert_config: default_cert(),
        user_agent: PACKAGE_VERSION@,
        credential_config: default_credential(),
        nr_io_rings: 4,
    }
}

impl Default for GlobalConfig {
    fn default() -> (r: GlobalConfig)
        ensures
            r@ == default_global(),
    {
        GlobalConfig {
            registry_cache_dir: "/opt/overlaybd/registry_cache".to_owned(),
            credential_file_path: "/opt/overlaybd/cred.json".to_owned(),
            registry_cache_size_gb: 4,
            io_engine: 0,
            cache_type: "file".to_owned(),
            log_level: 1,
            log_path: "/var/log/overlaybd.log".to_owned(),
            download: DownloadConfig::default(),
            enable_audit: true,
            enable_thread: false,
            p2p_config: P2PConfig::default(),
            exporter_config: ExporterConfig::default(),
            audit_path: "/var/log/overlaybd-audit.log".to_owned(),
            registry_fs_version: "v2".to_owned(),
            cache_config: CacheConfig::default(),
            gzip_cache_config: GzipCacheConfig::default(),
            oss_config: OssConfig::default(),
            log_config: LogConfig::default(),
            prefetch_config: PrefetchConfig::default(),
            cert_config: CertConfig::default(),
            user_agent: PACKAGE_VERSION.to_owned(),
            credential_config: CredentialConfig::default(),
            nr_io_rings: 4,
        }
    }
}

impl Clone for GlobalConfig {
    fn clone(&self) -> (r: GlobalConfig)
        ensures
            r == *self,
    {
        GlobalConfig {
            registry_cache_dir: self.registry_cache_dir.clone(),
            credential_file_path: self.credential_file_path.clone(),
            registry_cache_size_gb: self.registry_cache_size_gb,
            io_engine: self.io_engine,
            cache_type: self.cache_type.clone(),
            log_level: self.log_level,
            log_path: self.log_path.clone(),
            download: self.download,
            enable_audit: self.enable_audit,
            enable_thread: self.enable_thread,
            p2p_config: self.p2p_config.clone(),
            exporter_config: self.exporter_config.clone(),
            audit_path: self.audit_path.clone(),
            registry_fs_version: self.registry_fs_version.clone(),
            cache_config: self.cache_config.clone(),
            gzip_cache_config: self.gzip_cache_config.clone(),
            oss_config: self.oss_config.clone(),
            log_config: self.log_config.clone(),
            prefetch_config: self.prefetch_config,
            cert_config: self.cert_config.clone(),
            user_agent: self.user_agent.clone(),
            credential_config: self.credential_config.clone(),
            nr_io_rings: self.nr_io_rings,
        }
    }
}

} // verus!
