//! Setting up and tearing down the network of a slot, step by step.
use vstd::prelude::*;
use vstd::string::StringExecFns;

use crate::failure::Failure;
use crate::ipv4;
use crate::ipv4::Ipv4Addr;
use crate::kernel_setting::KernelSetting;
use crate::network_slot;
use crate::network_slot::Slot;
use crate::text;

verus! {

/// The interfaces of a slot.
#[derive(Debug, Clone, Copy, PartialEq, Eq, Structural)]
pub enum LinkName {
    /// The host's end of the link between host and namespace.
    HostVeth,
    /// The namespace's end of that link.
    Peer,
    Loopback,
    /// The interface of the virtual machine.
    Tap,
}

/// One request to the kernel. Requests about a link concern the link that was
/// looked up last.
#[derive(Debug, Clone, Copy, PartialEq, Eq, Structural)]
pub enum InterfaceOp {
    CreateVethPair,
    LookUp(LinkName),
    MoveToHostNamespace,
    SetUp,
    /// Without a broadcast address, as on a link with two addresses only.
    AddPointToPointAddress(Ipv4Addr),
    AddAddress { ip: Ipv4Addr, prefix_len: u8 },
    /// `ip tuntap add tap0 mode tap`.
    AddTap,
    AddDefaultRoute(Ipv4Addr),
    /// `ip route add`, from the host to the slot's address.
    AddHostRoute,
}

/// What follows where a link that was looked up is not there.
#[derive(Debug, Clone, Copy, PartialEq, Eq, Structural)]
pub enum IfMissing {
    /// The link that was just created has to be there.
    CreatedVethLost,
    /// The link that was moved to the host has to be there.
    HostVethLost,
    /// The given number of steps, which concern the link, are left out.
    Skip(usize),
}

/// A request, and what a failure of it is called.
#[derive(Debug, Clone, Copy, PartialEq, Eq)]
pub struct InterfaceStep {
    pub op: InterfaceOp,
    /// Where it cannot be made; empty where the cause speaks for itself.
    pub context: &'static str,
    /// Where a command that it runs reports failure.
    pub refused: &'static str,
    pub if_missing: IfMissing,
}

pub open spec fn request(op: InterfaceOp, context: &'static str) -> InterfaceStep {
    InterfaceStep { op, context, refused: "", if_missing: IfMissing::Skip(0) }
}

pub open spec fn look_up(name: LinkName, if_missing: IfMissing) -> InterfaceStep {
    InterfaceStep { op: InterfaceOp::LookUp(name), context: "", refused: "", if_missing }
}

/// The requests that set up the interfaces of a namespace.
pub open spec fn namespace_steps(
    veth_vm_ip: Ipv4Addr,
    veth_host_ip: Ipv4Addr,
    tap_ip: Ipv4Addr,
    vm_link_prefix: u8,
) -> Seq<InterfaceStep> {
    seq![
        request(InterfaceOp::CreateVethPair, "Failed to create veth pair"),
        look_up(LinkName::HostVeth, IfMissing::CreatedVethLost),
        request(InterfaceOp::MoveToHostNamespace, "Failed to move veth to host ns"),
        look_up(LinkName::Loopback, IfMissing::Skip(1)),
        request(InterfaceOp::SetUp, "Failed to set lo up"),
        look_up(LinkName::Peer, IfMissing::Skip(2)),
        request(
            InterfaceOp::AddPointToPointAddress(veth_vm_ip),
            "Failed to add address to vpeer",
        ),
        request(InterfaceOp::SetUp, "Failed to set vpeer up"),
        InterfaceStep {
            op: InterfaceOp::AddTap,
            context: "Failed to execute ip tuntap",
            refused: "ip tuntap add failed",
            if_missing: IfMissing::Skip(0),
        },
        look_up(LinkName::Tap, IfMissing::Skip(2)),
        request(
            InterfaceOp::AddAddress { ip: tap_ip, prefix_len: vm_link_prefix },
            "Failed to add address to tap0",
        ),
        request(InterfaceOp::SetUp, "Failed to set tap0 up"),
        request(InterfaceOp::AddDefaultRoute(veth_host_ip), "Failed to add default route"),
    ]
}

/// The requests that set up the host's end of a slot's link.
pub open spec fn host_steps(veth_host_ip: Ipv4Addr) -> Seq<InterfaceStep> {
    seq![
        look_up(LinkName::HostVeth, IfMissing::HostVethLost),
        request(
            InterfaceOp::AddPointToPointAddress(veth_host_ip),
            "Failed to add IP to host veth",
        ),
        request(InterfaceOp::SetUp, "Failed to set host veth up"),
        request(InterfaceOp::AddHostRoute, "Failed to execute ip route add"),
    ]
}

fn make_request(op: InterfaceOp, context: &'static str) -> (r: InterfaceStep)
    ensures
        r == request(op, context),
{
    InterfaceStep { op, context, refused: "", if_missing: IfMissing::Skip(0) }
}

fn make_look_up(name: LinkName, if_missing: IfMissing) -> (r: InterfaceStep)
    ensures
        r == look_up(name, if_missing),
{
    InterfaceStep { op: InterfaceOp::LookUp(name), context: "", refused: "", if_missing }
}

/// The requests that set up the interfaces inside a namespace: the link to the
/// host is created and its one end moved there, then the loopback interface, the
/// other end and the interface of the virtual machine are brought up, and last
/// the default route is set.
pub fn configure_namespace_interfaces(
    veth_vm_ip: Ipv4Addr,
    veth_host_ip: Ipv4Addr,
    tap_ip: Ipv4Addr,
    vm_link_prefix: u8,
) -> (r: Vec<InterfaceStep>)
    ensures
        r@ == namespace_steps(veth_vm_ip, veth_host_ip, tap_ip, vm_link_prefix),
{
    let mut r: Vec<InterfaceStep> = Vec::new();
    r.push(make_request(InterfaceOp::CreateVethPair, "Failed to create veth pair"));
    r.push(make_look_up(LinkName::HostVeth, IfMissing::CreatedVethLost));
    r.push(make_request(InterfaceOp::MoveToHostNamespace, "Failed to move veth to host ns"));
    r.push(make_look_up(LinkName::Loopback, IfMissing::Skip(1)));
    r.push(make_request(InterfaceOp::SetUp, "Failed to set lo up"));
    r.push(make_look_up(LinkName::Peer, IfMissing::Skip(2)));
    r.push(
        make_request(
            InterfaceOp::AddPointToPointAddress(veth_vm_ip),
            "Failed to add address to vpeer",
        ),
    );
    r.push(make_request(InterfaceOp::SetUp, "Failed to set vpeer up"));
    r.push(
        InterfaceStep {
            op: InterfaceOp::AddTap,
            context: "Failed to execute ip tuntap",
            refused: "ip tuntap add failed",
            if_missing: IfMissing::Skip(0),
        },
    );
    r.push(make_look_up(LinkName::Tap, IfMissing::Skip(2)));
    r.push(
        make_request(
            InterfaceOp::AddAddress { ip: tap_ip, prefix_len: vm_link_prefix },
            "Failed to add address to tap0",
        ),
    );
    r.push(make_request(InterfaceOp::SetUp, "Failed to set tap0 up"));
    r.push(
        make_request(InterfaceOp::AddDefaultRoute(veth_host_ip), "Failed to add default route"),
    );
    assert(r@ =~= namespace_steps(veth_vm_ip, veth_host_ip, tap_ip, vm_link_prefix));
    r
}

/// The requests that set up the host's end of the link.
pub fn configure_host_interface(veth_host_ip: Ipv4Addr) -> (r: Vec<InterfaceStep>)
    ensures
        r@ == host_steps(veth_host_ip),
{
    let mut r: Vec<InterfaceStep> = Vec::new();
    r.push(make_look_up(LinkName::HostVeth, IfMissing::HostVethLost));
    r.push(
        make_request(
            InterfaceOp::AddPointToPointAddress(veth_host_ip),
            "Failed to add IP to host veth",
        ),
    );
    r.push(make_request(InterfaceOp::SetUp, "Failed to set host veth up"));
    r.push(make_request(InterfaceOp::AddHostRoute, "Failed to execute ip route add"));
    assert(r@ =~= host_steps(veth_host_ip));
    r
}

/// What became of a request.
#[derive(Debug, Clone, Copy, PartialEq, Eq, Structural)]
pub enum InterfaceEvent {
    Done,
    /// The link that was looked up is not there.
    Missing,
    /// A command that was run reported failure.
    Refused,
    Failed,
}

/// What follows a request.
#[derive(Debug, Clone, Copy, PartialEq, Eq)]
pub enum InterfaceProgress {
    /// Make the request with this number.
    At(usize),
    Finished,
    LinkMissing(IfMissing),
    /// The command of request number `at` reported failure.
    Refused(usize),
    /// Request number `at` could not be made.
    Failed(usize),
}

pub open spec fn interface_progress(
    steps: Seq<InterfaceStep>,
    at: int,
    event: InterfaceEvent,
) -> InterfaceProgress {
    let next = |n: int| -> InterfaceProgress {
        if n < steps.len() {
            InterfaceProgress::At(n as usize)
        } else {
            InterfaceProgress::Finished
        }
    };
    match event {
        InterfaceEvent::Done => next(at + 1),
        InterfaceEvent::Missing => if steps[at].op is LookUp {
            match steps[at].if_missing {
                IfMissing::Skip(n) => next(at + 1 + n),
                lost => InterfaceProgress::LinkMissing(lost),
            }
        } else {
            InterfaceProgress::Failed(at as usize)
        },
        InterfaceEvent::Refused => InterfaceProgress::Refused(at as usize),
        InterfaceEvent::Failed => InterfaceProgress::Failed(at as usize),
    }
}

/// Decides what follows request number `at`.
pub fn next_interface_step(steps: &Vec<InterfaceStep>, at: usize, event: InterfaceEvent) -> (r:
    InterfaceProgress)
    requires
        at < steps@.len(),
    ensures
        r == interface_progress(steps@, at as int, event),
{
    let left: usize = steps.len() - at - 1;
    match event {
        InterfaceEvent::Done => if left > 0 {
            InterfaceProgress::At(at + 1)
        } else {
            InterfaceProgress::Finished
        },
        InterfaceEvent::Missing => {
            if !matches!(steps[at].op, InterfaceOp::LookUp(_)) {
                return InterfaceProgress::Failed(at);
            }
            match steps[at].if_missing {
                IfMissing::Skip(n) => if n < left {
                    InterfaceProgress::At(at + 1 + n)
                } else {
                    InterfaceProgress::Finished
                },
                IfMissing::CreatedVethLost => InterfaceProgress::LinkMissing(
                    IfMissing::CreatedVethLost,
                ),
                IfMissing::HostVethLost => InterfaceProgress::LinkMissing(
                    IfMissing::HostVethLost,
                ),
            }
        },
        InterfaceEvent::Refused => InterfaceProgress::Refused(at),
        InterfaceEvent::Failed => InterfaceProgress::Failed(at),
    }
}

/// A list of requests ends: each decision goes to a later request or stops.
pub proof fn interface_setup_goes_forward(
    steps: Seq<InterfaceStep>,
    at: int,
    event: InterfaceEvent,
)
    requires
        0 <= at < steps.len() <= usize::MAX,
    ensures
        interface_progress(steps, at, event) matches InterfaceProgress::At(n) ==> at < n
            < steps.len(),
{
}

/// In a namespace no missing link leaves out more than its own steps: the
/// interface of the virtual machine is always created, and the setup counts as
/// finished only once the default route has been set.
pub proof fn missing_links_leave_out_their_own_steps(
    veth_vm_ip: Ipv4Addr,
    veth_host_ip: Ipv4Addr,
    tap_ip: Ipv4Addr,
    vm_link_prefix: u8,
    at: int,
    event: InterfaceEvent,
)
    requires
        0 <= at < namespace_steps(veth_vm_ip, veth_host_ip, tap_ip, vm_link_prefix).len(),
    ensures
        ({
            let steps = namespace_steps(veth_vm_ip, veth_host_ip, tap_ip, vm_link_prefix);
            let next = interface_progress(steps, at, event);
            &&& next == InterfaceProgress::Finished ==> steps[at].op
                == InterfaceOp::AddDefaultRoute(veth_host_ip) && event == InterfaceEvent::Done
            &&& steps[8].op == InterfaceOp::AddTap
            &&& at < 8 && next is At ==> next->At_0 <= 8
        }),
{
}

/// What is said of a missing link.
pub open spec fn missing_message(lost: IfMissing, host_veth: Seq<char>) -> Seq<char> {
    match lost {
        IfMissing::HostVethLost => "Host veth interface "@ + host_veth + " not found after move"@,
        _ => "Created veth interface not found"@,
    }
}

/// What is said of a route that could not be added.
pub open spec fn route_message(
    host_interaction_ip: Ipv4Addr,
    veth_vm_ip: Ipv4Addr,
    host_veth: Seq<char>,
    stderr: Seq<char>,
) -> Seq<char> {
    "Failed to add route to "@ + ipv4::dotted(host_interaction_ip) + "/32 via "@ + ipv4::dotted(
        veth_vm_ip,
    ) + " dev "@ + host_veth + ": "@ + stderr
}

/// What is said of a route that could not be added; `stderr` is what the command
/// wrote.
pub fn route_failure(slot: &Slot, stderr: &str) -> (r: Failure)
    ensures
        r.message@ == route_message(
            slot.host_interaction_ip,
            slot.veth_vm_ip,
            network_slot::veth_name(slot.host_veth_prefix@, slot.idx as nat),
            stderr@,
        ),
{
    let mut message = text::concat3(
        "Failed to add route to ",
        slot.host_interaction_ip.to_text().as_str(),
        "/32 via ",
    );
    message.append(slot.veth_vm_ip.to_text().as_str());
    message.append(" dev ");
    message.append(slot.host_veth_name().as_str());
    message.append(": ");
    message.append(stderr);
    Failure::new(message)
}

/// The failure that a stopped setup of a slot's interfaces reports; `stderr` is
/// what a command that reported failure wrote.
pub fn interface_failure(
    slot: &Slot,
    steps: &Vec<InterfaceStep>,
    progress: InterfaceProgress,
    stderr: &[u8],
) -> (r: Option<Failure>)
    ensures
        match progress {
            InterfaceProgress::At(_) | InterfaceProgress::Finished => r is None,
            InterfaceProgress::LinkMissing(lost) => r is Some && r->0.message@ == missing_message(
                lost,
                network_slot::veth_name(slot.host_veth_prefix@, slot.idx as nat),
            ),
            InterfaceProgress::Refused(at) => if at >= steps@.len() {
                r is None
            } else if steps@[at as int].op == InterfaceOp::AddHostRoute {
                r is Some && r->0.message@ == route_message(
                    slot.host_interaction_ip,
                    slot.veth_vm_ip,
                    network_slot::veth_name(slot.host_veth_prefix@, slot.idx as nat),
                    text::lossy_text(stderr@),
                )
            } else {
                r is Some && r->0.message@ == steps@[at as int].refused@
            },
            InterfaceProgress::Failed(at) => if at >= steps@.len() {
                r is None
            } else {
                r is Some && r->0.message@ == steps@[at as int].context@
            },
        },
{
    match progress {
        InterfaceProgress::At(_) => None,
        InterfaceProgress::Finished => None,
        InterfaceProgress::LinkMissing(lost) => match lost {
            IfMissing::HostVethLost => Some(
                Failure::new(
                    text::concat3(
                        "Host veth interface ",
                        slot.host_veth_name().as_str(),
                        " not found after move",
                    ),
                ),
            ),
            _ => Some(Failure::because("Created veth interface not found")),
        },
        InterfaceProgress::Refused(at) => {
            if at >= steps.len() {
                return None;
            }
            if steps[at].op == InterfaceOp::AddHostRoute {
                Some(route_failure(slot, text::from_utf8_lossy(stderr).as_str()))
            } else {
                Some(Failure::because(steps[at].refused))
            }
        },
        InterfaceProgress::Failed(at) => {
            if at >= steps.len() {
                return None;
            }
            Some(Failure::because(steps[at].context))
        },
    }
}

/// The name of a link.
pub fn link_name(slot: &Slot, link: LinkName) -> (r: String)
    ensures
        r@ == (match link {
            LinkName::HostVeth => network_slot::veth_name(slot.host_veth_prefix@, slot.idx as nat),
            LinkName::Peer => "vpeer"@,
            LinkName::Loopback => "lo"@,
            LinkName::Tap => "tap0"@,
        }),
{
    match link {
        LinkName::HostVeth => slot.host_veth_name(),
        LinkName::Peer => "vpeer".to_owned(),
        LinkName::Loopback => "lo".to_owned(),
        LinkName::Tap => "tap0".to_owned(),
    }
}

/// The prefix length of the link between host and namespace.
pub const POINT_TO_POINT_PREFIX: u8 = 31;

/// The arguments of the command that creates the interface of the virtual
/// machine.
pub fn tap_args() -> (r: Vec<String>)
    ensures
        text::views(r@) == seq!["tuntap"@, "add"@, "tap0"@, "mode"@, "tap"@],
{
    let mut r: Vec<String> = Vec::new();
    r.push("tuntap".to_owned());
    r.push("add".to_owned());
    r.push("tap0".to_owned());
    r.push("mode".to_owned());
    r.push("tap".to_owned());
    assert(text::views(r@) =~= seq!["tuntap"@, "add"@, "tap0"@, "mode"@, "tap"@]);
    r
}

/// The arguments of the command that adds the route from the host to a slot.
pub fn host_route_args(slot: &Slot) -> (r: Vec<String>)
    ensures
        text::views(r@) == seq![
            "route"@,
            "add"@,
            ipv4::dotted(slot.host_interaction_ip) + "/32"@,
            "via"@,
            ipv4::dotted(slot.veth_vm_ip),
            "dev"@,
            network_slot::veth_name(slot.host_veth_prefix@, slot.idx as nat),
        ],
{
    let mut r: Vec<String> = Vec::new();
    r.push("route".to_owned());
    r.push("add".to_owned());
    r.push(text::concat(slot.host_interaction_ip.to_text().as_str(), "/32"));
    r.push("via".to_owned());
    r.push(slot.veth_vm_ip.to_text());
    r.push("dev".to_owned());
    r.push(slot.host_veth_name());
    assert(text::views(r@) =~= seq![
        "route"@,
        "add"@,
        ipv4::dotted(slot.host_interaction_ip) + "/32"@,
        "via"@,
        ipv4::dotted(slot.veth_vm_ip),
        "dev"@,
        network_slot::veth_name(slot.host_veth_prefix@, slot.idx as nat),
    ]);
    r
}

/// What the egress chain of a namespace is written from.
#[derive(Debug, PartialEq, Eq)]
pub struct EgressChain {
    /// The name server of the guest, which it may reach.
    pub dns: Ipv4Addr,
    /// The networks that no guest may reach, as address and prefix length.
    pub denied: Vec<String>,
}

/// The egress chain of a namespace, from the contents of the host's two resolver
/// configurations and from the networks that the address plan keeps from guests.
pub fn egress_chain(first: Option<&str>, second: Option<&str>, denied: Vec<String>) -> (r:
    EgressChain)
    ensures
        r == (EgressChain {
            dns: ipv4::guest_dns(text::str_of(first), text::str_of(second)),
            denied,
        }),
{
    EgressChain { dns: ipv4::resolve_guest_dns_server(first, second), denied }
}

/// The file by which a thread names the network namespace that it is in.
pub const CURRENT_NETNS: &'static str = "/proc/thread-self/ns/net";

/// The step by which the network of a slot is created.
#[derive(Debug, Clone, Copy, PartialEq, Eq, Structural)]
pub enum NetworkStep {
    /// Make sure that the directory of namespaces is there.
    EnsureDirectory,
    /// Make sure that the file to mount the namespace on is there.
    EnsureFile,
    /// Enter a new network namespace.
    Unshare,
    /// Mount the namespace, by `CURRENT_NETNS`, on its file.
    BindMount,
    /// Set up the interfaces of the namespace.
    NamespaceInterfaces,
    /// Let the namespace pass packets on, by `forwarding_setting`.
    EnableForwarding,
    TuneTap,
    TunePeer,
    /// Write the rules of the namespace.
    NamespaceRules,
    /// Write the egress chain of the namespace.
    EgressChain,
    /// Back in the host's namespace, set up its end of the link.
    HostInterface,
    TuneHostVeth,
    Created,
    Failed,
}

pub open spec fn network_step_after(step: NetworkStep, done: bool) -> NetworkStep {
    match step {
        // A link whose timing could not be tuned works all the same.
        NetworkStep::TuneTap => NetworkStep::TunePeer,
        NetworkStep::TunePeer => NetworkStep::NamespaceRules,
        NetworkStep::TuneHostVeth => NetworkStep::Created,
        NetworkStep::Created => NetworkStep::Created,
        NetworkStep::Failed => NetworkStep::Failed,
        _ => if !done {
            NetworkStep::Failed
        } else {
            match step {
                NetworkStep::EnsureDirectory => NetworkStep::EnsureFile,
                NetworkStep::EnsureFile => NetworkStep::Unshare,
                NetworkStep::Unshare => NetworkStep::BindMount,
                NetworkStep::BindMount => NetworkStep::NamespaceInterfaces,
                NetworkStep::NamespaceInterfaces => NetworkStep::EnableForwarding,
                NetworkStep::EnableForwarding => NetworkStep::TuneTap,
                NetworkStep::NamespaceRules => NetworkStep::EgressChain,
                NetworkStep::EgressChain => NetworkStep::HostInterface,
                _ => NetworkStep::TuneHostVeth,
            }
        },
    }
}

/// The step that follows `step`.
pub fn next_network_step(step: NetworkStep, done: bool) -> (r: NetworkStep)
    ensures
        r == network_step_after(step, done),
{
    match step {
        NetworkStep::TuneTap => NetworkStep::TunePeer,
        NetworkStep::TunePeer => NetworkStep::NamespaceRules,
        NetworkStep::TuneHostVeth => NetworkStep::Created,
        NetworkStep::Created => NetworkStep::Created,
        _ if !done => NetworkStep::Failed,
        NetworkStep::EnsureDirectory => NetworkStep::EnsureFile,
        NetworkStep::EnsureFile => NetworkStep::Unshare,
        NetworkStep::Unshare => NetworkStep::BindMount,
        NetworkStep::BindMount => NetworkStep::NamespaceInterfaces,
        NetworkStep::NamespaceInterfaces => NetworkStep::EnableForwarding,
        NetworkStep::EnableForwarding => NetworkStep::TuneTap,
        NetworkStep::NamespaceRules => NetworkStep::EgressChain,
        NetworkStep::EgressChain => NetworkStep::HostInterface,
        NetworkStep::HostInterface => NetworkStep::TuneHostVeth,
        NetworkStep::Failed => NetworkStep::Failed,
    }
}

/// What a failure of a step is called; empty where the cause speaks for itself.
pub fn network_step_context(slot: &Slot, step: NetworkStep) -> (r: String)
    ensures
        r@ == (match step {
            NetworkStep::EnsureDirectory => "Failed to create AENV network namespace directory "@
                + slot.netns_dir@,
            NetworkStep::EnsureFile => "Failed to create netns file"@,
            NetworkStep::Unshare => "Failed to unshare(CLONE_NEWNET)"@,
            NetworkStep::BindMount => "Failed to bind mount new namespace"@,
            NetworkStep::EnableForwarding => "Failed to enable IP forwarding in namespace"@,
            _ => Seq::empty(),
        }),
{
    match step {
        NetworkStep::EnsureDirectory => text::concat(
            "Failed to create AENV network namespace directory ",
            slot.netns_dir.as_str(),
        ),
        NetworkStep::EnsureFile => "Failed to create netns file".to_owned(),
        NetworkStep::Unshare => "Failed to unshare(CLONE_NEWNET)".to_owned(),
        NetworkStep::BindMount => "Failed to bind mount new namespace".to_owned(),
        NetworkStep::EnableForwarding => "Failed to enable IP forwarding in namespace".to_owned(),
        _ => String::new(),
    }
}

/// The thread that takes a step of the creation.
#[derive(Debug, Clone, Copy, PartialEq, Eq, Structural)]
pub enum StepThread {
    /// A thread that enters the new namespace and ends in it.
    Setup,
    /// The thread that creates the network, which stays in the host's namespace.
    Caller,
}

pub open spec fn thread_of(step: NetworkStep) -> StepThread {
    if network_step_rank(step) < network_step_rank(NetworkStep::HostInterface) {
        StepThread::Setup
    } else {
        StepThread::Caller
    }
}

/// The thread that takes a step: all up to the egress chain are the setup thread's.
pub fn step_thread(step: NetworkStep) -> (r: StepThread)
    ensures
        r == thread_of(step),
{
    match step {
        NetworkStep::HostInterface
        | NetworkStep::TuneHostVeth
        | NetworkStep::Created
        | NetworkStep::Failed => StepThread::Caller,
        _ => StepThread::Setup,
    }
}

impl Slot {
    /// Begins the creation of the slot's network. From here on there may be
    /// something to tear down, also where the creation fails.
    pub fn create_network(&mut self) -> (r: NetworkStep)
        ensures
            r == NetworkStep::EnsureDirectory,
            *final(self) == (Slot { cleanup_armed: true, ..*old(self) }),
    {
        self.cleanup_armed = true;
        NetworkStep::EnsureDirectory
    }
}

/// The value that the neighbour timing of a link is set to, in milliseconds.
pub const ARP_RETRANS_TIME_MS: &'static str = "100";

pub const NEIGH_SYSCTL_RETRIES: usize = 5;

pub const NEIGH_SYSCTL_RETRY_DELAY_MS: u64 = 20;

/// The kernel setting of a link's neighbour timing.
pub fn neigh_retrans_setting(interface: &str) -> (r: KernelSetting)
    ensures
        r.gives("/proc/sys/net/ipv4/neigh/"@ + interface@ + "/retrans_time_ms"@, "100"@),
{
    KernelSetting {
        path: text::concat3("/proc/sys/net/ipv4/neigh/", interface, "/retrans_time_ms"),
        value: ARP_RETRANS_TIME_MS,
    }
}

/// The kernel setting by which a namespace passes packets on, written inside it.
pub fn forwarding_setting() -> (r: KernelSetting)
    ensures
        r.gives("/proc/sys/net/ipv4/ip_forward"@, "1"@),
{
    KernelSetting { path: "/proc/sys/net/ipv4/ip_forward".to_owned(), value: "1" }
}

/// What became of writing the setting.
#[derive(Debug, Clone, Copy, PartialEq, Eq, Structural)]
pub enum TuneEvent {
    Written,
    NotFound,
    Failed,
}

/// What follows an attempt to write the setting.
#[derive(Debug, Clone, Copy, PartialEq, Eq, Structural)]
pub enum TuneNext {
    Stop,
    /// Try again after this many milliseconds.
    RetryAfter(u64),
    /// Leave the setting as it is.
    GiveUp,
}

/// Decides after attempt number `attempt`, counted from 0: a setting that is not
/// there yet may still appear.
pub fn tune_neigh_retrans_time_ms(attempt: usize, event: TuneEvent) -> (r: TuneNext)
    ensures
        r == (match event {
            TuneEvent::Written => TuneNext::Stop,
            TuneEvent::NotFound => if attempt < NEIGH_SYSCTL_RETRIES {
                TuneNext::RetryAfter(NEIGH_SYSCTL_RETRY_DELAY_MS)
            } else {
                TuneNext::GiveUp
            },
            TuneEvent::Failed => TuneNext::GiveUp,
        }),
        attempt >= NEIGH_SYSCTL_RETRIES ==> !(r is RetryAfter),
{
    match event {
        TuneEvent::Written => TuneNext::Stop,
        TuneEvent::NotFound => if attempt < NEIGH_SYSCTL_RETRIES {
            TuneNext::RetryAfter(NEIGH_SYSCTL_RETRY_DELAY_MS)
        } else {
            TuneNext::GiveUp
        },
        TuneEvent::Failed => TuneNext::GiveUp,
    }
}

/// The kernel's answer says that the link is not there.
pub open spec fn says_no_device(message: Seq<char>) -> bool {
    text::contains_text(message, "No such device"@) || text::contains_text(message, "ENODEV"@)
}

/// Whether a failure to delete a link means that there is nothing to delete.
pub fn is_no_device(message: &str) -> (r: bool)
    ensures
        r == says_no_device(message@),
{
    text::contains(message, "No such device") || text::contains(message, "ENODEV")
}

/// A text in lower case.
pub uninterp spec fn unicode_lowercase(s: Seq<char>) -> Seq<char>;

/// `str::to_lowercase` of the standard library: the lower-case text is a
/// function of the text alone, and is called `unicode_lowercase` here.
#[verifier::external_body]
fn to_lowercase(s: &str) -> (r: String)
    ensures
        r@ == unicode_lowercase(s@),
{
    s.to_lowercase()
}

/// A complaint of the command, in lower case, says that the link is not there.
pub open spec fn complains_of_no_device(lowered: Seq<char>) -> bool {
    text::contains_text(lowered, "cannot find device"@) || text::contains_text(
        lowered,
        "no such device"@,
    ) || text::contains_text(lowered, "not found"@)
}

/// Whether a complaint in lower case means that there is nothing to delete.
pub fn is_missing_device_complaint(lowered: &str) -> (r: bool)
    ensures
        r == complains_of_no_device(lowered@),
{
    text::contains(lowered, "cannot find device") || text::contains(lowered, "no such device")
        || text::contains(lowered, "not found")
}

/// The outcome of `ip link del`, from whether it succeeded, what it wrote, and
/// that in lower case: a link that is not there is as good as deleted.
pub fn link_deletion_outcome(slot: &Slot, success: bool, stderr: &str, lowered: &str) -> (r: Result<
    (),
    Failure,
>)
    ensures
        r is Ok <==> success || complains_of_no_device(lowered@),
        r matches Err(e) ==> e.message@ == "Failed to delete veth interface "@
            + network_slot::veth_name(slot.host_veth_prefix@, slot.idx as nat) + ": "@
            + text::trimmed(stderr@),
{
    if success || is_missing_device_complaint(lowered) {
        return Ok(());
    }
    let mut message = text::concat3(
        "Failed to delete veth interface ",
        slot.host_veth_name().as_str(),
        ": ",
    );
    message.append(text::trim(stderr).as_str());
    Err(Failure::new(message))
}

/// The outcome of `ip link del`, from whether it succeeded and the bytes that it
/// wrote.
pub fn delete_host_veth_interface_sync(slot: &Slot, success: bool, stderr: &[u8]) -> (r: Result<
    (),
    Failure,
>)
    ensures
        r is Ok <==> success || complains_of_no_device(
            unicode_lowercase(text::lossy_text(stderr@)),
        ),
        r matches Err(e) ==> e.message@ == "Failed to delete veth interface "@
            + network_slot::veth_name(slot.host_veth_prefix@, slot.idx as nat) + ": "@
            + text::trimmed(text::lossy_text(stderr@)),
{
    let words = text::from_utf8_lossy(stderr);
    let lowered = to_lowercase(words.as_str());
    link_deletion_outcome(slot, success, words.as_str(), lowered.as_str())
}

/// The arguments of the command that deletes the host's end of the link.
pub fn delete_veth_args(slot: &Slot) -> (r: Vec<String>)
    ensures
        text::views(r@) == seq![
            "link"@,
            "del"@,
            network_slot::veth_name(slot.host_veth_prefix@, slot.idx as nat),
        ],
{
    let mut r: Vec<String> = Vec::new();
    r.push("link".to_owned());
    r.push("del".to_owned());
    r.push(slot.host_veth_name());
    assert(text::views(r@) =~= seq![
        "link"@,
        "del"@,
        network_slot::veth_name(slot.host_veth_prefix@, slot.idx as nat),
    ]);
    r
}

/// The step by which the network of a slot is torn down.
#[derive(Debug, Clone, Copy, PartialEq, Eq, Structural)]
pub enum CleanupStep {
    /// Delete the host's end of the link through the kernel interface.
    DeleteByNetlink,
    /// Delete the host's end of the link by a command.
    DeleteByCommand,
    /// See whether the namespace's file is there.
    LookForFile,
    /// Unmount the namespace once.
    Unmount,
    RemoveFile,
    Cleaned,
    Failed,
}

/// What became of a step.
#[derive(Debug, Clone, Copy, PartialEq, Eq, Structural)]
pub enum CleanupEvent {
    Done,
    /// The file is not there, or nothing is mounted on it any more.
    Absent,
    Failed,
}

pub open spec fn cleanup_step_after(step: CleanupStep, event: CleanupEvent) -> CleanupStep {
    match step {
        CleanupStep::DeleteByNetlink => if event == CleanupEvent::Failed {
            CleanupStep::DeleteByCommand
        } else {
            CleanupStep::LookForFile
        },
        CleanupStep::DeleteByCommand => if event == CleanupEvent::Failed {
            CleanupStep::Failed
        } else {
            CleanupStep::LookForFile
        },
        CleanupStep::LookForFile => if event == CleanupEvent::Done {
            CleanupStep::Unmount
        } else {
            CleanupStep::Cleaned
        },
        CleanupStep::Unmount => match event {
            // It may be mounted more than once.
            CleanupEvent::Done => CleanupStep::Unmount,
            CleanupEvent::Absent => CleanupStep::RemoveFile,
            CleanupEvent::Failed => CleanupStep::Failed,
        },
        CleanupStep::RemoveFile => if event == CleanupEvent::Failed {
            CleanupStep::Failed
        } else {
            CleanupStep::Cleaned
        },
        CleanupStep::Cleaned => CleanupStep::Cleaned,
        CleanupStep::Failed => CleanupStep::Failed,
    }
}

/// The first step of tearing down: none where the slot is not marked.
pub open spec fn first_cleanup_step(armed: bool, force_sync: bool) -> CleanupStep {
    if !armed {
        CleanupStep::Cleaned
    } else if force_sync {
        CleanupStep::DeleteByCommand
    } else {
        CleanupStep::DeleteByNetlink
    }
}

impl Slot {
    /// Begins to tear down the slot's network. Where nothing was set up, or it
    /// has been torn down before, there is nothing to do. `force_sync` leaves
    /// out the kernel interface, which may not be there at the end of a process.
    pub fn cleanup(&mut self, force_sync: bool) -> (r: CleanupStep)
        ensures
            *final(self) == (Slot { cleanup_armed: false, ..*old(self) }),
            r == first_cleanup_step(old(self).cleanup_armed, force_sync),
    {
        if !self.cleanup_armed {
            return CleanupStep::Cleaned;
        }
        self.cleanup_armed = false;
        if force_sync {
            CleanupStep::DeleteByCommand
        } else {
            CleanupStep::DeleteByNetlink
        }
    }

    /// Takes what became of a step and gives the next. A failure leaves the slot
    /// marked, so that tearing it down can be tried again.
    pub fn next_cleanup_step(&mut self, step: CleanupStep, event: CleanupEvent) -> (r: CleanupStep)
        ensures
            r == cleanup_step_after(step, event),
            *final(self) == (Slot {
                cleanup_armed: old(self).cleanup_armed || r == CleanupStep::Failed,
                ..*old(self)
            }),
    {
        let next = match step {
            CleanupStep::DeleteByNetlink => match event {
                CleanupEvent::Failed => CleanupStep::DeleteByCommand,
                _ => CleanupStep::LookForFile,
            },
            CleanupStep::DeleteByCommand => match event {
                CleanupEvent::Failed => CleanupStep::Failed,
                _ => CleanupStep::LookForFile,
            },
            CleanupStep::LookForFile => match event {
                CleanupEvent::Done => CleanupStep::Unmount,
                _ => CleanupStep::Cleaned,
            },
            CleanupStep::Unmount => match event {
                CleanupEvent::Done => CleanupStep::Unmount,
                CleanupEvent::Absent => CleanupStep::RemoveFile,
                CleanupEvent::Failed => CleanupStep::Failed,
            },
            CleanupStep::RemoveFile => match event {
                CleanupEvent::Failed => CleanupStep::Failed,
                _ => CleanupStep::Cleaned,
            },
            CleanupStep::Cleaned => CleanupStep::Cleaned,
            CleanupStep::Failed => CleanupStep::Failed,
        };
        if next == CleanupStep::Failed {
            self.cleanup_armed = true;
        }
        next
    }
}

/// The step after a list of events.
pub open spec fn cleanup_steps(first: CleanupStep, events: Seq<CleanupEvent>) -> CleanupStep
    decreases events.len(),
{
    if events.len() == 0 {
        first
    } else {
        cleanup_step_after(cleanup_steps(first, events.drop_last()), events.last())
    }
}

/// The mark of the slot after a list of events.
pub open spec fn armed_after(first: CleanupStep, events: Seq<CleanupEvent>) -> bool
    decreases events.len(),
{
    if events.len() == 0 {
        false
    } else {
        armed_after(first, events.drop_last()) || cleanup_steps(first, events)
            == CleanupStep::Failed
    }
}

/// After tearing down, the slot is marked again exactly where a step failed for
/// good; so a second attempt does nothing after a success, and tries again after
/// a failure.
pub proof fn slot_is_marked_again_exactly_after_a_failure(
    first: CleanupStep,
    events: Seq<CleanupEvent>,
)
    requires
        first != CleanupStep::Failed,
    ensures
        armed_after(first, events) <==> cleanup_steps(first, events) == CleanupStep::Failed,
    decreases events.len(),
{
    if events.len() > 0 {
        slot_is_marked_again_exactly_after_a_failure(first, events.drop_last());
    }
}

/// A link that could not be deleted through the kernel interface is deleted by a
/// command before the attempt counts as failed, and the namespace's file is
/// removed only once nothing is mounted on it.
pub proof fn cleanup_falls_back_and_keeps_order(step: CleanupStep, event: CleanupEvent)
    ensures
        step == CleanupStep::DeleteByNetlink ==> cleanup_step_after(step, event)
            != CleanupStep::Failed,
        cleanup_step_after(step, event) == CleanupStep::RemoveFile ==> step == CleanupStep::Unmount
            && event == CleanupEvent::Absent,
{
}

/// What the host still holds of a slot's network.
pub struct SlotRemains {
    /// The host's end of the link, and with it the link.
    pub link: bool,
    /// How often the namespace is mounted on its file.
    pub mounts: nat,
    /// The namespace's file.
    pub file: bool,
    /// The packet rules of the slot in the host's own tables, such as one that
    /// masquerades its address. Rules inside the namespace go away with it.
    pub host_rules: nat,
}

impl SlotRemains {
    /// The host holds nothing of the network.
    pub open spec fn gone(self) -> bool {
        !self.link && self.mounts == 0 && !self.file && self.host_rules == 0
    }
}

/// The step of a creation after a list of outcomes.
pub open spec fn network_steps(outcomes: Seq<bool>) -> NetworkStep
    decreases outcomes.len(),
{
    if outcomes.len() == 0 {
        NetworkStep::EnsureDirectory
    } else {
        network_step_after(network_steps(outcomes.drop_last()), outcomes.last())
    }
}

/// The setup thread has entered the new namespace.
pub open spec fn entered(outcomes: Seq<bool>) -> bool
    decreases outcomes.len(),
{
    outcomes.len() > 0 && (entered(outcomes.drop_last()) || (network_steps(outcomes.drop_last())
        == NetworkStep::Unshare && outcomes.last()))
}

/// The step that follows these outcomes is taken inside the new namespace.
pub open spec fn taken_inside(outcomes: Seq<bool>) -> bool {
    thread_of(network_steps(outcomes)) == StepThread::Setup && entered(outcomes)
}

/// The step writes packet rules, in the namespace in which it is taken.
pub open spec fn writes_rules(step: NetworkStep) -> bool {
    step == NetworkStep::NamespaceRules || step == NetworkStep::EgressChain
}

/// What a creation does to the host, as far as rules go: `host` holds what the host
/// held before each step and at the end, and a step changes the host's rules only
/// where it writes rules and is taken in the host's namespace.
pub open spec fn true_creation(outcomes: Seq<bool>, host: Seq<SlotRemains>) -> bool {
    &&& host.len() == outcomes.len() + 1
    &&& forall|i: int|
        0 <= i < outcomes.len() && (!writes_rules(network_steps(#[trigger] outcomes.take(i)))
            || taken_inside(outcomes.take(i))) ==> host[i + 1].host_rules == host[i].host_rules
}

/// A creation past the entry has entered.
proof fn lemma_entered(outcomes: Seq<bool>)
    ensures
        network_steps(outcomes) != NetworkStep::Failed && network_step_rank(network_steps(outcomes))
            > network_step_rank(NetworkStep::Unshare) ==> entered(outcomes),
    decreases outcomes.len(),
{
    if outcomes.len() > 0 {
        lemma_entered(outcomes.drop_last());
    }
}

/// A creation writes rules inside the namespace only, however far it comes: each step
/// that writes rules is taken inside, and the host has as many rules of the slot
/// afterwards as before.
pub proof fn creation_writes_rules_inside_the_namespace_only(
    outcomes: Seq<bool>,
    host: Seq<SlotRemains>,
)
    requires
        true_creation(outcomes, host),
    ensures
        writes_rules(network_steps(outcomes)) ==> taken_inside(outcomes),
        host.last().host_rules == host[0].host_rules,
    decreases outcomes.len(),
{
    lemma_entered(outcomes);
    if outcomes.len() > 0 {
        let n = outcomes.len() - 1;
        let init = outcomes.drop_last();
        let before = host.drop_last();
        assert(outcomes.take(n) =~= init);
        assert forall|i: int|
            0 <= i < init.len() && (!writes_rules(network_steps(#[trigger] init.take(i)))
                || taken_inside(init.take(i))) implies before[i + 1].host_rules
            == before[i].host_rules by {
            assert(init.take(i) =~= outcomes.take(i));
        }
        creation_writes_rules_inside_the_namespace_only(init, before);
        assert(before.last() == host[n]);
        assert(before[0] == host[0]);
    }
}

/// `event` tells truly what became of `step`, which was taken while the host held
/// `before` and left `after`. Others may remove things as well, but nothing comes
/// back, and nothing is mounted without its file.
pub open spec fn true_report(
    step: CleanupStep,
    event: CleanupEvent,
    before: SlotRemains,
    after: SlotRemains,
) -> bool {
    &&& after.link ==> before.link
    &&& after.file ==> before.file
    &&& after.mounts <= before.mounts
    &&& after.host_rules <= before.host_rules
    &&& after.mounts > 0 ==> after.file
    &&& match step {
        CleanupStep::DeleteByNetlink | CleanupStep::DeleteByCommand => event
            != CleanupEvent::Failed ==> !after.link,
        CleanupStep::LookForFile => event == CleanupEvent::Done || (event == CleanupEvent::Absent
            && !after.file),
        CleanupStep::Unmount => match event {
            CleanupEvent::Done => after.mounts < before.mounts,
            CleanupEvent::Absent => after.mounts == 0,
            CleanupEvent::Failed => true,
        },
        CleanupStep::RemoveFile => event != CleanupEvent::Failed ==> !after.file,
        CleanupStep::Cleaned | CleanupStep::Failed => true,
    }
}

/// A teardown with true reports; `host` holds what the host held before each event
/// and at the end.
pub open spec fn true_teardown(
    first: CleanupStep,
    events: Seq<CleanupEvent>,
    host: Seq<SlotRemains>,
) -> bool {
    &&& host.len() == events.len() + 1
    &&& forall|i: int|
        0 <= i < events.len() ==> true_report(
            cleanup_steps(first, events.take(i)),
            #[trigger] events[i],
            host[i],
            host[i + 1],
        )
}

/// How far a teardown has come shows in what the host still holds.
proof fn lemma_teardown(first: CleanupStep, events: Seq<CleanupEvent>, host: Seq<SlotRemains>)
    requires
        first == CleanupStep::DeleteByNetlink || first == CleanupStep::DeleteByCommand,
        true_teardown(first, events, host),
    ensures
        match cleanup_steps(first, events) {
            CleanupStep::LookForFile | CleanupStep::Unmount | CleanupStep::RemoveFile =>
                !host.last().link,
            CleanupStep::Cleaned => !host.last().link && host.last().mounts == 0
                && !host.last().file,
            _ => true,
        },
        host.last().host_rules <= host[0].host_rules,
    decreases events.len(),
{
    if events.len() > 0 {
        let n = events.len() - 1;
        let init = events.drop_last();
        assert(init =~= events.take(n));
        assert forall|i: int| 0 <= i < init.len() implies true_report(
            cleanup_steps(first, init.take(i)),
            #[trigger] init[i],
            host.drop_last()[i],
            host.drop_last()[i + 1],
        ) by {
            assert(init.take(i) =~= events.take(i));
            assert(init[i] == events[i]);
        }
        lemma_teardown(first, init, host.drop_last());
        assert(events[n] == events.last());
        assert(host.drop_last().last() == host[n]);
    }
}

/// A slot is marked from the beginning of its creation, whatever comes of it. A
/// teardown of a marked slot that ends well leaves nothing: the link, the mounts and
/// the namespace's file are gone, and the host has no rule of the slot, since it had
/// none before the creation and the creation writes its rules inside the namespace.
/// The slot is then not marked, and a further teardown is finished at once; after a
/// failure it is marked, and a further teardown begins from the start.
pub proof fn a_finished_teardown_leaves_nothing(
    outcomes: Seq<bool>,
    creation: Seq<SlotRemains>,
    force_sync: bool,
    events: Seq<CleanupEvent>,
    host: Seq<SlotRemains>,
    again: bool,
)
    requires
        true_creation(outcomes, creation),
        creation[0].host_rules == 0,
        host[0].host_rules == creation.last().host_rules,
        true_teardown(first_cleanup_step(true, force_sync), events, host),
    ensures
        ({
            let first = first_cleanup_step(true, force_sync);
            let last = cleanup_steps(first, events);
            let next = first_cleanup_step(armed_after(first, events), again);
            &&& last == CleanupStep::Cleaned ==> host.last().gone() && next == CleanupStep::Cleaned
            &&& last == CleanupStep::Failed ==> next == first_cleanup_step(true, again)
        }),
{
    let first = first_cleanup_step(true, force_sync);
    creation_writes_rules_inside_the_namespace_only(outcomes, creation);
    lemma_teardown(first, events, host);
    slot_is_marked_again_exactly_after_a_failure(first, events);
}

/// The place of a step in the order of creation.
pub open spec fn network_step_rank(step: NetworkStep) -> int {
    match step {
        NetworkStep::EnsureDirectory => 0,
        NetworkStep::EnsureFile => 1,
        NetworkStep::Unshare => 2,
        NetworkStep::BindMount => 3,
        NetworkStep::NamespaceInterfaces => 4,
        NetworkStep::EnableForwarding => 5,
        NetworkStep::TuneTap => 6,
        NetworkStep::TunePeer => 7,
        NetworkStep::NamespaceRules => 8,
        NetworkStep::EgressChain => 9,
        NetworkStep::HostInterface => 10,
        NetworkStep::TuneHostVeth => 11,
        NetworkStep::Created => 12,
        NetworkStep::Failed => 13,
    }
}

/// No step of the creation of a network is left out: each is followed by the
/// next one in order, or by failure.
pub proof fn network_creation_leaves_no_step_out(step: NetworkStep, done: bool)
    ensures
        ({
            let next = network_step_after(step, done);
            next == NetworkStep::Failed || network_step_rank(next) == network_step_rank(step) + 1
                || (step == NetworkStep::Created && next == step)
        }),
{
}

} // verus!
