//! The requests to a virtual machine monitor: where each goes, what it carries,
//! and what its failure is called.
use vstd::prelude::*;

use crate::failure::Failure;
use crate::instance;
use crate::instance::FirecrackerInstance;
use crate::instance::LogLevel;
use crate::paths;
use crate::text;

verus! {

#[derive(Debug, Clone, Copy, PartialEq, Eq, Structural)]
pub enum HttpMethod {
    Get,
    Put,
    Patch,
}

/// A request.
#[derive(Debug, PartialEq, Eq)]
pub struct ApiCall<B> {
    pub method: HttpMethod,
    pub path: String,
    pub body: B,
    /// What a failure of the request is called.
    pub context: String,
}

impl<B> ApiCall<B> {
    /// The request goes there, in this way, and its failure is called so.
    pub open spec fn goes(self, method: HttpMethod, path: Seq<char>, context: Seq<char>) -> bool {
        self.method == method && self.path@ == path && self.context@ == context
    }
}

fn call<B>(method: HttpMethod, path: &str, body: B, context: &str) -> (r: ApiCall<B>)
    ensures
        r.goes(method, path@, context@),
        r.body == body,
{
    ApiCall { method, path: path.to_owned(), body, context: context.to_owned() }
}

#[derive(Debug, PartialEq, Eq)]
pub struct Logger {
    pub level: LogLevel,
    pub log_path: String,
    pub show_level: bool,
    pub show_log_origin: bool,
}

#[derive(Debug, Clone, Copy, PartialEq, Eq)]
pub struct MachineConfiguration {
    pub mem_size_mib: i32,
    pub vcpu_count: i32,
    pub smt: bool,
    pub track_dirty_pages: bool,
}

#[derive(Debug, PartialEq, Eq)]
pub struct BootSource {
    pub kernel_image_path: String,
    pub boot_args: Option<String>,
    pub initrd_path: Option<String>,
}

#[derive(Debug, Clone, Copy, PartialEq, Eq, Structural)]
pub enum IoEngine {
    Sync,
    Async,
}

/// A drive; its rate limiter is kept as text.
#[derive(Debug, PartialEq, Eq)]
pub struct Drive {
    pub drive_id: String,
    pub is_root_device: bool,
    pub path_on_host: String,
    pub is_read_only: bool,
    pub direct: bool,
    pub io_engine: IoEngine,
    pub rate_limiter: Option<String>,
}

#[derive(Debug, PartialEq, Eq)]
pub struct PartialDrive {
    pub drive_id: String,
    pub rate_limiter: String,
}

#[derive(Debug, PartialEq, Eq)]
pub struct NetworkInterface {
    pub guest_mac: Option<String>,
    pub host_dev_name: String,
    pub iface_id: String,
    pub rx_rate_limiter: Option<String>,
    pub tx_rate_limiter: Option<String>,
}

/// The version of the protocol by which a guest reads its metadata.
#[derive(Debug, Clone, Copy, PartialEq, Eq, Structural)]
pub enum MmdsVersion {
    V1,
    V2,
}

impl MmdsVersion {
    /// The name of the version in a request.
    pub fn name(&self) -> (r: &'static str)
        ensures
            r@ == (match self {
                MmdsVersion::V1 => "V1"@,
                MmdsVersion::V2 => "V2"@,
            }),
    {
        match self {
            MmdsVersion::V1 => "V1",
            MmdsVersion::V2 => "V2",
        }
    }
}

/// The interfaces through which a guest reads its metadata, and how.
#[derive(Debug, PartialEq, Eq)]
pub struct MmdsConfig {
    pub version: MmdsVersion,
    pub network_interfaces: Vec<String>,
}

#[derive(Debug, Clone, Copy, PartialEq, Eq)]
pub struct Balloon {
    pub amount_mib: i32,
    pub deflate_on_oom: bool,
    pub free_page_reporting: bool,
}

#[derive(Debug, Clone, Copy, PartialEq, Eq, Structural)]
pub enum ActionType {
    InstanceStart,
}

#[derive(Debug, Clone, Copy, PartialEq, Eq, Structural)]
pub enum VmState {
    Paused,
    Resumed,
}

#[derive(Debug, Clone, Copy, PartialEq, Eq, Structural)]
pub enum SnapshotType {
    Diff,
}

#[derive(Debug, PartialEq, Eq)]
pub struct SnapshotCreateParams {
    pub snapshot_path: String,
    pub snapshot_type: SnapshotType,
}

#[derive(Debug, Clone, Copy, PartialEq, Eq, Structural)]
pub enum BackendType {
    File,
    Uffd,
}

/// Where memory comes from; the descriptions of its regions are kept as text.
#[derive(Debug, PartialEq, Eq)]
pub struct MemoryBackend {
    pub backend_type: BackendType,
    pub backend_path: String,
    pub region_backends: Option<Vec<String>>,
}

#[derive(Debug, PartialEq, Eq)]
pub struct NetworkOverride {
    pub iface_id: String,
    pub host_dev_name: String,
}

#[derive(Debug, PartialEq, Eq)]
pub struct SnapshotLoadParams {
    pub snapshot_path: String,
    pub mem_backend: MemoryBackend,
    pub resume_vm: bool,
    pub track_dirty_pages: Option<bool>,
    pub network_overrides: Option<Vec<NetworkOverride>>,
}

/// The text is a JSON document.
pub uninterp spec fn valid_json(s: Seq<char>) -> bool;

/// Checks that a text is a JSON document and gives it without the whitespace
/// around it.
///
/// `serde_json::from_str` into `Box<RawValue>`: whether it succeeds is a function
/// of the text alone, and is called `valid_json` here; the raw value holds the
/// text of the document, from its first to its last character, which are no
/// whitespace, and nothing but whitespace may stand around it.
#[verifier::external_body]
fn raw_json(json: &str) -> (r: Option<String>)
    ensures
        r is Some <==> valid_json(json@),
        r matches Some(t) ==> t@ == text::trimmed(json@),
{
    serde_json::from_str::<Box<serde_json::value::RawValue>>(json).ok().map(
        |raw| raw.get().to_owned(),
    )
}

/// The request for a processor configuration, from what reading it gave.
pub fn cpu_config_call(parsed: Option<String>) -> (r: Result<ApiCall<String>, Failure>)
    ensures
        match parsed {
            Some(body) => r is Ok && r->Ok_0.goes(
                HttpMethod::Put,
                "/cpu-config"@,
                "Failed to set CPU configuration"@,
            ) && r->Ok_0.body == body,
            None => r is Err && r->Err_0.message@ == "Failed to parse cpu_config_json"@,
        },
{
    match parsed {
        Some(body) => Ok(
            call(HttpMethod::Put, "/cpu-config", body, "Failed to set CPU configuration"),
        ),
        None => Err(Failure::because("Failed to parse cpu_config_json")),
    }
}

/// The names of the overridden interfaces and of their devices, in order.
pub open spec fn override_words(v: Seq<NetworkOverride>) -> Seq<(Seq<char>, Seq<char>)> {
    v.map_values(|o: NetworkOverride| (o.iface_id@, o.host_dev_name@))
}

pub open spec fn pair_words(v: Seq<(String, String)>) -> Seq<(Seq<char>, Seq<char>)> {
    v.map_values(|p: (String, String)| (p.0@, p.1@))
}

/// The overrides of a request: none where the list is empty.
pub open spec fn overrides_for(
    r: Option<Vec<NetworkOverride>>,
    pairs: Seq<(String, String)>,
) -> bool {
    if pairs.len() == 0 {
        r is None
    } else {
        r is Some && override_words(r->0@) == pair_words(pairs)
    }
}

fn network_overrides(pairs: &Vec<(String, String)>) -> (r: Option<Vec<NetworkOverride>>)
    ensures
        overrides_for(r, pairs@),
{
    if pairs.len() == 0 {
        return None;
    }
    let mut v: Vec<NetworkOverride> = Vec::new();
    let mut i: usize = 0;
    assert(override_words(v@) =~= pair_words(pairs@).take(0));
    while i < pairs.len()
        invariant
            i <= pairs@.len(),
            override_words(v@) == pair_words(pairs@).take(i as int),
        decreases pairs.len() - i,
    {
        let ghost before = v@;
        v.push(
            NetworkOverride {
                iface_id: pairs[i].0.clone(),
                host_dev_name: pairs[i].1.clone(),
            },
        );
        assert(override_words(v@) =~= override_words(before).push(pair_words(pairs@)[i as int]));
        i += 1;
        assert(override_words(v@) =~= pair_words(pairs@).take(i as int));
    }
    assert(pair_words(pairs@).take(i as int) =~= pair_words(pairs@));
    Some(v)
}

impl FirecrackerInstance {
    /// Restricts the processor, before the start only.
    pub fn set_cpu_config(json: &str) -> (r: Result<ApiCall<String>, Failure>)
        ensures
            valid_json(json@) ==> r is Ok && r->Ok_0.goes(
                HttpMethod::Put,
                "/cpu-config"@,
                "Failed to set CPU configuration"@,
            ) && r->Ok_0.body@ == text::trimmed(json@),
            !valid_json(json@) ==> r is Err && r->Err_0.message@
                == "Failed to parse cpu_config_json"@,
    {
        cpu_config_call(raw_json(json))
    }

    /// Has the monitor keep a log, before the start and once only.
    pub fn set_logger(log_path: &str, level: &str) -> (r: Result<ApiCall<Logger>, Failure>)
        ensures
            match instance::level_named(instance::level_word(level@)) {
                Some(l) => r is Ok && r->Ok_0.goes(
                    HttpMethod::Put,
                    "/logger"@,
                    "Failed to configure Firecracker logger"@,
                ) && r->Ok_0.body.level == l && r->Ok_0.body.log_path@ == log_path@
                    && r->Ok_0.body.show_level && r->Ok_0.body.show_log_origin,
                None => r is Err && r->Err_0.message@ == "invalid firecracker log level '"@
                    + instance::level_word(level@)
                    + "'; expected one of Error, Warning, Info, Debug, Trace"@,
            },
    {
        match instance::parse_log_level(level) {
            Ok(level) => Ok(
                call(
                    HttpMethod::Put,
                    "/logger",
                    Logger {
                        level,
                        log_path: log_path.to_owned(),
                        show_level: true,
                        show_log_origin: true,
                    },
                    "Failed to configure Firecracker logger",
                ),
            ),
            Err(e) => Err(e),
        }
    }

    /// Sets the size of the machine, before the start only.
    pub fn set_machine_config(
        mem_size_mib: u32,
        vcpu_count: u32,
        smt: bool,
        track_dirty_pages: bool,
    ) -> (r: ApiCall<MachineConfiguration>)
        ensures
            r.goes(
                HttpMethod::Put,
                "/machine-config"@,
                "Failed to set machine configuration"@,
            ),
            r.body == (MachineConfiguration {
                mem_size_mib: mem_size_mib as i32,
                vcpu_count: vcpu_count as i32,
                smt,
                track_dirty_pages,
            }),
    {
        call(
            HttpMethod::Put,
            "/machine-config",
            MachineConfiguration {
                mem_size_mib: #[verifier::truncate] (mem_size_mib as i32),
                vcpu_count: #[verifier::truncate] (vcpu_count as i32),
                smt,
                track_dirty_pages,
            },
            "Failed to set machine configuration",
        )
    }

    /// Sets what the machine boots, before the start only.
    pub fn set_boot_source(
        kernel_image: &str,
        initrd_path: Option<String>,
        boot_args: Option<String>,
    ) -> (r: ApiCall<BootSource>)
        ensures
            r.goes(HttpMethod::Put, "/boot-source"@, "Failed to set boot source"@),
            r.body.kernel_image_path@ == kernel_image@,
            r.body.initrd_path == initrd_path,
            r.body.boot_args == boot_args,
    {
        call(
            HttpMethod::Put,
            "/boot-source",
            BootSource { kernel_image_path: kernel_image.to_owned(), boot_args, initrd_path },
            "Failed to set boot source",
        )
    }

    /// Adds a drive, before the start only; its rate limiter then holds from the
    /// guest's first access on.
    pub fn add_drive(
        drive_id: &str,
        path_on_host: &str,
        is_root_device: bool,
        read_only: bool,
        direct: bool,
        io_engine: IoEngine,
        rate_limiter: Option<String>,
    ) -> (r: ApiCall<Drive>)
        ensures
            r.goes(
                HttpMethod::Put,
                "/drives/"@ + drive_id@,
                "Failed to add/update drive "@ + drive_id@,
            ),
            r.body.drive_id@ == drive_id@,
            r.body.path_on_host@ == path_on_host@,
            r.body == (Drive {
                drive_id: r.body.drive_id,
                path_on_host: r.body.path_on_host,
                is_root_device,
                is_read_only: read_only,
                direct,
                io_engine,
                rate_limiter,
            }),
    {
        call(
            HttpMethod::Put,
            text::concat("/drives/", drive_id).as_str(),
            Drive {
                drive_id: drive_id.to_owned(),
                is_root_device,
                path_on_host: path_on_host.to_owned(),
                is_read_only: read_only,
                direct,
                io_engine,
                rate_limiter,
            },
            text::concat("Failed to add/update drive ", drive_id).as_str(),
        )
    }

    /// Changes the rate limiter of a drive of a running machine.
    pub fn patch_drive_rate_limiter(drive_id: &str, rate_limiter: String) -> (r: ApiCall<
        PartialDrive,
    >)
        ensures
            r.goes(
                HttpMethod::Patch,
                "/drives/"@ + drive_id@,
                "Failed to patch rate limiter on drive "@ + drive_id@,
            ),
            r.body.drive_id@ == drive_id@,
            r.body.rate_limiter == rate_limiter,
    {
        call(
            HttpMethod::Patch,
            text::concat("/drives/", drive_id).as_str(),
            PartialDrive { drive_id: drive_id.to_owned(), rate_limiter },
            text::concat("Failed to patch rate limiter on drive ", drive_id).as_str(),
        )
    }

    /// Adds a network interface, before the start only.
    pub fn add_network_interface(
        iface_id: &str,
        guest_mac: Option<String>,
        host_dev_name: String,
        rx_rate_limiter: Option<String>,
        tx_rate_limiter: Option<String>,
    ) -> (r: ApiCall<NetworkInterface>)
        ensures
            r.goes(
                HttpMethod::Put,
                "/network-interfaces/"@ + iface_id@,
                "Failed to add network interface "@ + iface_id@,
            ),
            r.body.iface_id@ == iface_id@,
            r.body == (NetworkInterface {
                iface_id: r.body.iface_id,
                guest_mac,
                host_dev_name,
                rx_rate_limiter,
                tx_rate_limiter,
            }),
    {
        call(
            HttpMethod::Put,
            text::concat("/network-interfaces/", iface_id).as_str(),
            NetworkInterface {
                guest_mac,
                host_dev_name,
                iface_id: iface_id.to_owned(),
                rx_rate_limiter,
                tx_rate_limiter,
            },
            text::concat("Failed to add network interface ", iface_id).as_str(),
        )
    }

    /// Lets the guest read its metadata through an interface by version 2 of the
    /// protocol, before the start only.
    pub fn set_mmds_config(iface_id: &str) -> (r: ApiCall<MmdsConfig>)
        ensures
            r.goes(HttpMethod::Put, "/mmds/config"@, "Failed to set MMDS configuration"@),
            r.body.version == MmdsVersion::V2,
            text::views(r.body.network_interfaces@) == seq![iface_id@],
    {
        let mut network_interfaces: Vec<String> = Vec::new();
        network_interfaces.push(iface_id.to_owned());
        assert(text::views(network_interfaces@) =~= seq![iface_id@]);
        call(
            HttpMethod::Put,
            "/mmds/config",
            MmdsConfig { version: MmdsVersion::V2, network_interfaces },
            "Failed to set MMDS configuration",
        )
    }

    /// Sets the guest's metadata, given as a document, which must not be too
    /// large.
    pub fn set_mmds(document: Vec<u8>) -> (r: Result<ApiCall<Vec<u8>>, Failure>)
        ensures
            match r {
                Ok(c) => document@.len() <= instance::MMDS_SIZE_LIMIT && c.goes(
                    HttpMethod::Put,
                    "/mmds"@,
                    "Failed to set MMDS data"@,
                ) && c.body == document,
                Err(e) => document@.len() > instance::MMDS_SIZE_LIMIT && e.message@
                    == "MMDS metadata payload is "@ + text::decimal(document@.len())
                    + " bytes, exceeds Firecracker MMDS size limit 1048576; imageConfigs may be too large"@,
            },
    {
        match instance::check_mmds_size(document.len()) {
            Ok(_) => Ok(call(HttpMethod::Put, "/mmds", document, "Failed to set MMDS data")),
            Err(e) => Err(e),
        }
    }

    /// Adds a device by which the guest gives unused memory back, before the
    /// start only.
    pub fn set_balloon() -> (r: ApiCall<Balloon>)
        ensures
            r.goes(HttpMethod::Put, "/balloon"@, "Failed to set balloon configuration"@),
            r.body == (Balloon { amount_mib: 0, deflate_on_oom: true, free_page_reporting: true }),
    {
        call(
            HttpMethod::Put,
            "/balloon",
            Balloon { amount_mib: 0, deflate_on_oom: true, free_page_reporting: true },
            "Failed to set balloon configuration",
        )
    }

    /// Starts the machine.
    pub fn start() -> (r: ApiCall<ActionType>)
        ensures
            r.goes(HttpMethod::Put, "/actions"@, "Failed to start microVM"@),
            r.body == ActionType::InstanceStart,
    {
        call(HttpMethod::Put, "/actions", ActionType::InstanceStart, "Failed to start microVM")
    }

    pub fn pause() -> (r: ApiCall<VmState>)
        ensures
            r.goes(HttpMethod::Patch, "/vm"@, "Failed to pause microVM"@),
            r.body == VmState::Paused,
    {
        call(HttpMethod::Patch, "/vm", VmState::Paused, "Failed to pause microVM")
    }

    pub fn resume() -> (r: ApiCall<VmState>)
        ensures
            r.goes(HttpMethod::Patch, "/vm"@, "Failed to resume microVM"@),
            r.body == VmState::Resumed,
    {
        call(HttpMethod::Patch, "/vm", VmState::Resumed, "Failed to resume microVM")
    }

    /// Saves the state of the machine without its memory.
    pub fn create_state_only_snapshot(snapshot_path: &str) -> (r: ApiCall<SnapshotCreateParams>)
        ensures
            r.goes(
                HttpMethod::Put,
                "/snapshot/create"@,
                "Failed to create state-only snapshot"@,
            ),
            r.body.snapshot_path@ == snapshot_path@,
            r.body.snapshot_type == SnapshotType::Diff,
    {
        call(
            HttpMethod::Put,
            "/snapshot/create",
            SnapshotCreateParams {
                snapshot_path: snapshot_path.to_owned(),
                snapshot_type: SnapshotType::Diff,
            },
            "Failed to create state-only snapshot",
        )
    }

    /// Asks which memory has been written to.
    pub fn get_dirty_memory_ranges() -> (r: ApiCall<()>)
        ensures
            r.goes(
                HttpMethod::Get,
                "/vm/dirty-memory-ranges"@,
                "Failed to get dirty memory ranges"@,
            ),
    {
        call(
            HttpMethod::Get,
            "/vm/dirty-memory-ranges",
            (),
            "Failed to get dirty memory ranges",
        )
    }

    /// The place of a snapshot as the monitor sees it.
    pub open spec fn host_path(self, path: Seq<char>) -> Seq<char> {
        if paths::absolute(path) {
            path
        } else {
            paths::join_of(self.work_dir@, path)
        }
    }

    /// Loads a snapshot whose memory another process serves, and resumes it.
    pub fn load_snapshot_uffd(
        &self,
        snapshot_path: &str,
        uffd_uds_path: &str,
        overrides: &Vec<(String, String)>,
    ) -> (r: ApiCall<SnapshotLoadParams>)
        ensures
            r.goes(
                HttpMethod::Put,
                "/snapshot/load"@,
                "Failed to load snapshot with uffd backend"@,
            ),
            r.body.snapshot_path@ == self.host_path(snapshot_path@),
            r.body.mem_backend.backend_type == BackendType::Uffd,
            r.body.mem_backend.backend_path@ == uffd_uds_path@,
            r.body.mem_backend.region_backends is None,
            r.body.resume_vm,
            r.body.track_dirty_pages is None,
            overrides_for(r.body.network_overrides, overrides@),
    {
        call(
            HttpMethod::Put,
            "/snapshot/load",
            SnapshotLoadParams {
                snapshot_path: self.resolve_host_path(snapshot_path),
                mem_backend: MemoryBackend {
                    backend_type: BackendType::Uffd,
                    backend_path: uffd_uds_path.to_owned(),
                    region_backends: None,
                },
                resume_vm: true,
                track_dirty_pages: None,
                network_overrides: network_overrides(overrides),
            },
            "Failed to load snapshot with uffd backend",
        )
    }

    /// Loads a snapshot whose memory is a file.
    pub fn load_snapshot_file(
        &self,
        snapshot_path: &str,
        mem_backend_path: &str,
        overrides: &Vec<(String, String)>,
        resume_vm: bool,
        track_dirty_pages: bool,
    ) -> (r: ApiCall<SnapshotLoadParams>)
        ensures
            r.goes(
                HttpMethod::Put,
                "/snapshot/load"@,
                "Failed to load snapshot with file backend"@,
            ),
            r.body.snapshot_path@ == self.host_path(snapshot_path@),
            r.body.mem_backend.backend_type == BackendType::File,
            r.body.mem_backend.backend_path@ == mem_backend_path@,
            r.body.mem_backend.region_backends is None,
            r.body.resume_vm == resume_vm,
            r.body.track_dirty_pages == Some(track_dirty_pages),
            overrides_for(r.body.network_overrides, overrides@),
    {
        call(
            HttpMethod::Put,
            "/snapshot/load",
            SnapshotLoadParams {
                snapshot_path: self.resolve_host_path(snapshot_path),
                mem_backend: MemoryBackend {
                    backend_type: BackendType::File,
                    backend_path: mem_backend_path.to_owned(),
                    region_backends: None,
                },
                resume_vm,
                track_dirty_pages: Some(track_dirty_pages),
                network_overrides: network_overrides(overrides),
            },
            "Failed to load snapshot with file backend",
        )
    }

    /// Loads a snapshot whose memory regions come from several files, with
    /// changes to them in `delta_backend_path`.
    pub fn load_snapshot_multi_backend(
        &self,
        snapshot_path: &str,
        region_backends: Vec<String>,
        delta_backend_path: &str,
        overrides: &Vec<(String, String)>,
        resume_vm: bool,
        track_dirty_pages: bool,
    ) -> (r: ApiCall<SnapshotLoadParams>)
        ensures
            r.goes(
                HttpMethod::Put,
                "/snapshot/load"@,
                "Failed to load snapshot with multi-backend"@,
            ),
            r.body.snapshot_path@ == self.host_path(snapshot_path@),
            r.body.mem_backend.backend_type == BackendType::File,
            r.body.mem_backend.backend_path@ == delta_backend_path@,
            r.body.mem_backend.region_backends == Some(region_backends),
            r.body.resume_vm == resume_vm,
            r.body.track_dirty_pages == Some(track_dirty_pages),
            overrides_for(r.body.network_overrides, overrides@),
    {
        call(
            HttpMethod::Put,
            "/snapshot/load",
            SnapshotLoadParams {
                snapshot_path: self.resolve_host_path(snapshot_path),
                mem_backend: MemoryBackend {
                    backend_type: BackendType::File,
                    backend_path: delta_backend_path.to_owned(),
                    region_backends: Some(region_backends),
                },
                resume_vm,
                track_dirty_pages: Some(track_dirty_pages),
                network_overrides: network_overrides(overrides),
            },
            "Failed to load snapshot with multi-backend",
        )
    }
}

} // verus!
