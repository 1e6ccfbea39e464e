//! What setting up a network is for: after the requests are made the links are there,
//! are up and have their addresses and routes, whatever links were missing.
use vstd::prelude::*;

use crate::ipv4;
use crate::ipv4::Ipv4Addr;
use crate::network_setup;
use crate::network_setup::CleanupEvent;
use crate::network_setup::CleanupStep;
use crate::network_setup::IfMissing;
use crate::network_setup::InterfaceEvent;
use crate::network_setup::InterfaceOp;
use crate::network_setup::InterfaceProgress;
use crate::network_setup::InterfaceStep;
use crate::network_setup::LinkName;
use crate::network_setup::NetworkStep;
use crate::network_setup::StepThread;
use crate::network_slot;
use crate::network_slot::IptablesAppend;
use crate::network_slot::NetworkAddressPlan;
use crate::network_slot::Slot;
use crate::network_slot::SlotIps;
use crate::text;

verus! {

/// What the kernel knows of the links of a slot.
#[verifier::ext_equal]
pub ghost struct Links {
    /// The link that was looked up last.
    pub current: Option<LinkName>,
    pub veth_created: bool,
    pub tap_created: bool,
    /// The links that have been moved to the host's namespace.
    pub moved: Set<LinkName>,
    pub up: Set<LinkName>,
    /// The addresses of links, with the length of their prefix.
    pub addresses: Set<(LinkName, Ipv4Addr, int)>,
    pub default_route: Option<Ipv4Addr>,
    /// The host has a route through its end of the link, which was up when it was made.
    pub host_route: bool,
}

/// Nothing has been done yet.
pub open spec fn no_links() -> Links {
    Links {
        current: None,
        veth_created: false,
        tap_created: false,
        moved: Set::empty(),
        up: Set::empty(),
        addresses: Set::empty(),
        default_route: None,
        host_route: false,
    }
}

/// What a request does that the kernel grants.
pub open spec fn granted(op: InterfaceOp, links: Links) -> Links {
    match op {
        InterfaceOp::CreateVethPair => Links { veth_created: true, ..links },
        InterfaceOp::LookUp(name) => Links { current: Some(name), ..links },
        InterfaceOp::MoveToHostNamespace => match links.current {
            Some(name) => Links { moved: links.moved.insert(name), ..links },
            None => links,
        },
        InterfaceOp::SetUp => match links.current {
            Some(name) => Links { up: links.up.insert(name), ..links },
            None => links,
        },
        InterfaceOp::AddPointToPointAddress(ip) => match links.current {
            Some(name) => Links { addresses: links.addresses.insert((name, ip, 31)), ..links },
            None => links,
        },
        InterfaceOp::AddAddress { ip, prefix_len } => match links.current {
            Some(name) => Links {
                addresses: links.addresses.insert((name, ip, prefix_len as int)),
                ..links
            },
            None => links,
        },
        InterfaceOp::AddTap => Links { tap_created: true, ..links },
        InterfaceOp::AddDefaultRoute(ip) => Links { default_route: Some(ip), ..links },
        InterfaceOp::AddHostRoute => Links {
            host_route: links.up.contains(LinkName::HostVeth),
            ..links
        },
    }
}

/// Makes the requests of a list from number `at` on, where the links `missing` are not
/// there and the kernel grants every request.
pub open spec fn made(
    steps: Seq<InterfaceStep>,
    at: int,
    missing: Set<LinkName>,
    links: Links,
) -> (Links, InterfaceProgress)
    decreases steps.len() - at,
{
    let op = steps[at].op;
    let absent = match op {
        InterfaceOp::LookUp(name) => missing.contains(name),
        _ => false,
    };
    let event = if absent {
        InterfaceEvent::Missing
    } else {
        InterfaceEvent::Done
    };
    let after = if absent {
        links
    } else {
        granted(op, links)
    };
    let next = network_setup::interface_progress(steps, at, event);
    match next {
        InterfaceProgress::At(n) => if at < n < steps.len() {
            made(steps, n as int, missing, after)
        } else {
            (after, next)
        },
        _ => (after, next),
    }
}

/// The requests inside a namespace create the link to the host and move its one end
/// there, create the interface of the virtual machine, and leave up, with exactly its
/// own address, every interface that was found; the default route goes to the host's end
/// of the link. Only the host's end of the link has to be found.
pub proof fn namespaces_are_connected(
    veth_vm_ip: Ipv4Addr,
    veth_host_ip: Ipv4Addr,
    tap_ip: Ipv4Addr,
    vm_link_prefix: u8,
    missing: Set<LinkName>,
)
    ensures
        ({
            let steps = network_setup::namespace_steps(
                veth_vm_ip,
                veth_host_ip,
                tap_ip,
                vm_link_prefix,
            );
            let (links, end) = made(steps, 0, missing, no_links());
            let peer = !missing.contains(LinkName::Peer);
            let tap = !missing.contains(LinkName::Tap);
            &&& missing.contains(LinkName::HostVeth) ==> end == InterfaceProgress::LinkMissing(
                IfMissing::CreatedVethLost,
            )
            &&& !missing.contains(LinkName::HostVeth) ==> {
                &&& end == InterfaceProgress::Finished
                &&& links.veth_created
                &&& links.tap_created
                &&& forall|l: LinkName| links.moved.contains(l) <==> l == LinkName::HostVeth
                &&& forall|l: LinkName|
                    links.up.contains(l) <==> l != LinkName::HostVeth && !missing.contains(l)
                &&& forall|l: LinkName, ip: Ipv4Addr, n: int|
                    links.addresses.contains((l, ip, n)) <==> {
                        ||| peer && l == LinkName::Peer && ip == veth_vm_ip && n == 31
                        ||| tap && l == LinkName::Tap && ip == tap_ip && n == vm_link_prefix
                    }
                &&& links.default_route == Some(veth_host_ip)
                &&& !links.host_route
            }
        }),
{
    let steps = network_setup::namespace_steps(veth_vm_ip, veth_host_ip, tap_ip, vm_link_prefix);
    assert(steps.len() == 13);
    let s1 = granted(InterfaceOp::CreateVethPair, no_links());
    assert(made(steps, 0, missing, no_links()) == made(steps, 1, missing, s1));
    if !missing.contains(LinkName::HostVeth) {
        let s2 = granted(InterfaceOp::LookUp(LinkName::HostVeth), s1);
        assert(made(steps, 1, missing, s1) == made(steps, 2, missing, s2));
        let s3 = granted(InterfaceOp::MoveToHostNamespace, s2);
        assert(made(steps, 2, missing, s2) == made(steps, 3, missing, s3));
        let s4 = if missing.contains(LinkName::Loopback) {
            s3
        } else {
            granted(InterfaceOp::SetUp, granted(InterfaceOp::LookUp(LinkName::Loopback), s3))
        };
        if !missing.contains(LinkName::Loopback) {
            let t = granted(InterfaceOp::LookUp(LinkName::Loopback), s3);
            assert(made(steps, 3, missing, s3) == made(steps, 4, missing, t));
            assert(made(steps, 4, missing, t) == made(steps, 5, missing, s4));
        } else {
            assert(made(steps, 3, missing, s3) == made(steps, 5, missing, s4));
        }
        let s5 = lemma_peer(steps, missing, s4, veth_vm_ip, veth_host_ip, tap_ip, vm_link_prefix);
        let s6 = granted(InterfaceOp::AddTap, s5);
        assert(made(steps, 8, missing, s5) == made(steps, 9, missing, s6));
        let s7 = lemma_tap(steps, missing, s6, veth_vm_ip, veth_host_ip, tap_ip, vm_link_prefix);
        assert(made(steps, 12, missing, s7) == (
            granted(InterfaceOp::AddDefaultRoute(veth_host_ip), s7),
            InterfaceProgress::Finished,
        ));
    }
}

proof fn lemma_peer(
    steps: Seq<InterfaceStep>,
    missing: Set<LinkName>,
    before: Links,
    veth_vm_ip: Ipv4Addr,
    veth_host_ip: Ipv4Addr,
    tap_ip: Ipv4Addr,
    vm_link_prefix: u8,
) -> (after: Links)
    requires
        steps == network_setup::namespace_steps(veth_vm_ip, veth_host_ip, tap_ip, vm_link_prefix),
    ensures
        made(steps, 5, missing, before) == made(steps, 8, missing, after),
        missing.contains(LinkName::Peer) ==> after == before,
        !missing.contains(LinkName::Peer) ==> after == (Links {
            current: Some(LinkName::Peer),
            up: before.up.insert(LinkName::Peer),
            addresses: before.addresses.insert((LinkName::Peer, veth_vm_ip, 31)),
            ..before
        }),
{
    if missing.contains(LinkName::Peer) {
        assert(made(steps, 5, missing, before) == made(steps, 8, missing, before));
        before
    } else {
        let a = granted(InterfaceOp::LookUp(LinkName::Peer), before);
        assert(made(steps, 5, missing, before) == made(steps, 6, missing, a));
        let b = granted(InterfaceOp::AddPointToPointAddress(veth_vm_ip), a);
        assert(made(steps, 6, missing, a) == made(steps, 7, missing, b));
        let c = granted(InterfaceOp::SetUp, b);
        assert(made(steps, 7, missing, b) == made(steps, 8, missing, c));
        c
    }
}

proof fn lemma_tap(
    steps: Seq<InterfaceStep>,
    missing: Set<LinkName>,
    before: Links,
    veth_vm_ip: Ipv4Addr,
    veth_host_ip: Ipv4Addr,
    tap_ip: Ipv4Addr,
    vm_link_prefix: u8,
) -> (after: Links)
    requires
        steps == network_setup::namespace_steps(veth_vm_ip, veth_host_ip, tap_ip, vm_link_prefix),
    ensures
        made(steps, 9, missing, before) == made(steps, 12, missing, after),
        missing.contains(LinkName::Tap) ==> after == before,
        !missing.contains(LinkName::Tap) ==> after == (Links {
            current: Some(LinkName::Tap),
            up: before.up.insert(LinkName::Tap),
            addresses: before.addresses.insert((LinkName::Tap, tap_ip, vm_link_prefix as int)),
            ..before
        }),
{
    if missing.contains(LinkName::Tap) {
        assert(made(steps, 9, missing, before) == made(steps, 12, missing, before));
        before
    } else {
        let a = granted(InterfaceOp::LookUp(LinkName::Tap), before);
        assert(made(steps, 9, missing, before) == made(steps, 10, missing, a));
        let b = granted(InterfaceOp::AddAddress { ip: tap_ip, prefix_len: vm_link_prefix }, a);
        assert(made(steps, 10, missing, a) == made(steps, 11, missing, b));
        let c = granted(InterfaceOp::SetUp, b);
        assert(made(steps, 11, missing, b) == made(steps, 12, missing, c));
        c
    }
}

/// The requests on the host give its end of the link exactly its address, bring it up,
/// and then make the route to the slot through it. The link has to be there.
pub proof fn the_host_is_connected(veth_host_ip: Ipv4Addr, missing: Set<LinkName>)
    ensures
        ({
            let steps = network_setup::host_steps(veth_host_ip);
            let (links, end) = made(steps, 0, missing, no_links());
            &&& missing.contains(LinkName::HostVeth) ==> end == InterfaceProgress::LinkMissing(
                IfMissing::HostVethLost,
            )
            &&& !missing.contains(LinkName::HostVeth) ==> {
                &&& end == InterfaceProgress::Finished
                &&& forall|l: LinkName| links.up.contains(l) <==> l == LinkName::HostVeth
                &&& forall|l: LinkName, ip: Ipv4Addr, n: int|
                    links.addresses.contains((l, ip, n)) <==> l == LinkName::HostVeth && ip
                        == veth_host_ip && n == 31
                &&& links.host_route
                &&& !links.veth_created
                &&& !links.tap_created
                &&& forall|l: LinkName| !links.moved.contains(l)
                &&& links.default_route is None
            }
        }),
{
    let steps = network_setup::host_steps(veth_host_ip);
    assert(steps.len() == 4);
    if !missing.contains(LinkName::HostVeth) {
        let a = granted(InterfaceOp::LookUp(LinkName::HostVeth), no_links());
        assert(made(steps, 0, missing, no_links()) == made(steps, 1, missing, a));
        let b = granted(InterfaceOp::AddPointToPointAddress(veth_host_ip), a);
        assert(made(steps, 1, missing, a) == made(steps, 2, missing, b));
        let c = granted(InterfaceOp::SetUp, b);
        assert(made(steps, 2, missing, b) == made(steps, 3, missing, c));
        assert(made(steps, 3, missing, c) == (
            granted(InterfaceOp::AddHostRoute, c),
            InterfaceProgress::Finished,
        ));
    }
}

/// The link that a request concerns: the one looked up last before it.
pub open spec fn link_of(steps: Seq<InterfaceStep>, at: int) -> Option<LinkName>
    decreases at,
{
    if at <= 0 {
        None
    } else {
        match steps[at - 1].op {
            InterfaceOp::LookUp(name) => Some(name),
            _ => link_of(steps, at - 1),
        }
    }
}

/// What a request that cannot be made is called, by what it asks and of which link.
pub open spec fn called(op: InterfaceOp, link: Option<LinkName>) -> Seq<char> {
    match op {
        InterfaceOp::CreateVethPair => "Failed to create veth pair"@,
        InterfaceOp::LookUp(_) => ""@,
        InterfaceOp::MoveToHostNamespace => "Failed to move veth to host ns"@,
        InterfaceOp::SetUp => match link {
            Some(LinkName::Loopback) => "Failed to set lo up"@,
            Some(LinkName::Peer) => "Failed to set vpeer up"@,
            Some(LinkName::Tap) => "Failed to set tap0 up"@,
            _ => "Failed to set host veth up"@,
        },
        InterfaceOp::AddPointToPointAddress(_) => match link {
            Some(LinkName::Peer) => "Failed to add address to vpeer"@,
            _ => "Failed to add IP to host veth"@,
        },
        InterfaceOp::AddAddress { .. } => "Failed to add address to tap0"@,
        InterfaceOp::AddTap => "Failed to execute ip tuntap"@,
        InterfaceOp::AddDefaultRoute(_) => "Failed to add default route"@,
        InterfaceOp::AddHostRoute => "Failed to execute ip route add"@,
    }
}

/// A request that fails stops the setup, and the failure is called by what was asked of
/// which link.
pub proof fn failed_requests_are_called_by_their_link(
    veth_vm_ip: Ipv4Addr,
    veth_host_ip: Ipv4Addr,
    tap_ip: Ipv4Addr,
    vm_link_prefix: u8,
    at: int,
)
    ensures
        ({
            let steps = network_setup::namespace_steps(
                veth_vm_ip,
                veth_host_ip,
                tap_ip,
                vm_link_prefix,
            );
            0 <= at < steps.len() ==> steps[at].context@ == called(
                steps[at].op,
                link_of(steps, at),
            ) && (steps[at].op == InterfaceOp::AddTap ==> steps[at].refused@
                == "ip tuntap add failed"@)
        }),
        ({
            let steps = network_setup::host_steps(veth_host_ip);
            0 <= at < steps.len() ==> steps[at].context@ == called(
                steps[at].op,
                link_of(steps, at),
            )
        }),
{
    reveal_with_fuel(link_of, 4);
}

/// What follows a request depends on what became of it alone: the next one after it was
/// made, none after a failure, and after a link that was not found the next one that does
/// not concern the link, or none where the link is needed.
pub proof fn requests_are_made_one_after_the_other(steps: Seq<InterfaceStep>, at: int)
    requires
        0 <= at < steps.len() <= usize::MAX,
    ensures
        ({
            let next = |event: InterfaceEvent| network_setup::interface_progress(steps, at, event);
            &&& at + 1 < steps.len() ==> next(InterfaceEvent::Done) == InterfaceProgress::At(
                (at + 1) as usize,
            )
            &&& at + 1 == steps.len() ==> next(InterfaceEvent::Done)
                == InterfaceProgress::Finished
            &&& next(InterfaceEvent::Failed) == InterfaceProgress::Failed(at as usize)
            &&& next(InterfaceEvent::Refused) == InterfaceProgress::Refused(at as usize)
            &&& !(steps[at].op is LookUp) ==> next(InterfaceEvent::Missing)
                == InterfaceProgress::Failed(at as usize)
            &&& steps[at].op is LookUp && !(steps[at].if_missing is Skip) ==> next(
                InterfaceEvent::Missing,
            ) == InterfaceProgress::LinkMissing(steps[at].if_missing)
            &&& steps[at].op is LookUp && (steps[at].if_missing matches IfMissing::Skip(n) && at + 1
                + n < steps.len()) ==> next(InterfaceEvent::Missing) == InterfaceProgress::At(
                (at + 1 + steps[at].if_missing->Skip_0) as usize,
            )
        }),
{
}

/// Creating a network stops at the first step that is not done, but for the timing of
/// links, and else takes the steps one by one: the namespace is entered and mounted,
/// then its interfaces, forwarding, rules and egress chain are set up, all on the thread
/// that entered it, and last the host's end of the link.
pub proof fn networks_are_created_step_by_step(step: NetworkStep, done: bool)
    ensures
        ({
            let next = network_setup::network_step_after(step, done);
            let tuning = step == NetworkStep::TuneTap || step == NetworkStep::TunePeer || step
                == NetworkStep::TuneHostVeth;
            let over = step == NetworkStep::Created || step == NetworkStep::Failed;
            &&& over ==> next == step
            &&& !over && !done && !tuning ==> next == NetworkStep::Failed
            &&& done || tuning ==> (next == NetworkStep::Failed <==> step == NetworkStep::Failed)
            &&& next == NetworkStep::BindMount ==> step == NetworkStep::Unshare && done
            &&& next == NetworkStep::NamespaceInterfaces ==> step == NetworkStep::BindMount && done
            &&& next == NetworkStep::EnableForwarding ==> step == NetworkStep::NamespaceInterfaces
                && done
            &&& next == NetworkStep::NamespaceRules ==> step == NetworkStep::TunePeer
            &&& next == NetworkStep::TunePeer ==> step == NetworkStep::TuneTap
            &&& next == NetworkStep::TuneTap ==> step == NetworkStep::EnableForwarding && done
            &&& next == NetworkStep::EgressChain ==> step == NetworkStep::NamespaceRules && done
            &&& next == NetworkStep::HostInterface ==> step == NetworkStep::EgressChain && done
            &&& next == NetworkStep::TuneHostVeth ==> step == NetworkStep::HostInterface && done
            &&& next == NetworkStep::Created ==> step == NetworkStep::TuneHostVeth || step
                == NetworkStep::Created
            &&& next == NetworkStep::Unshare ==> step == NetworkStep::EnsureFile && done
            &&& next == NetworkStep::EnsureFile ==> step == NetworkStep::EnsureDirectory && done
            &&& next != NetworkStep::EnsureDirectory
        }),
        network_setup::thread_of(step) == StepThread::Caller <==> step == NetworkStep::HostInterface
            || step == NetworkStep::TuneHostVeth || step == NetworkStep::Created || step
            == NetworkStep::Failed,
{
}

/// A teardown that meets no failure gets on: a deleted link is followed by looking for
/// the namespace's file, a file that is there by unmounting it until nothing is mounted
/// and then removing it, and the file that is gone by the end. Failures are not passed
/// over, but for one of the kernel interface, for which the command stands in.
pub proof fn teardowns_get_on(step: CleanupStep, event: CleanupEvent)
    ensures
        ({
            let next = network_setup::cleanup_step_after(step, event);
            let deleting = step == CleanupStep::DeleteByNetlink || step
                == CleanupStep::DeleteByCommand;
            let failed = event == CleanupEvent::Failed;
            &&& deleting && !failed ==> next == CleanupStep::LookForFile
            &&& step == CleanupStep::DeleteByNetlink && failed ==> next
                == CleanupStep::DeleteByCommand
            &&& (step == CleanupStep::DeleteByCommand || step == CleanupStep::Unmount || step
                == CleanupStep::RemoveFile) && failed ==> next == CleanupStep::Failed
            &&& step == CleanupStep::LookForFile ==> next == (if event == CleanupEvent::Done {
                CleanupStep::Unmount
            } else {
                CleanupStep::Cleaned
            })
            &&& step == CleanupStep::Unmount && event == CleanupEvent::Done ==> next == step
            &&& step == CleanupStep::Unmount && event == CleanupEvent::Absent ==> next
                == CleanupStep::RemoveFile
            &&& step == CleanupStep::RemoveFile && !failed ==> next == CleanupStep::Cleaned
            &&& step == CleanupStep::Cleaned || step == CleanupStep::Failed ==> next == step
        }),
        network_setup::first_cleanup_step(false, true) == CleanupStep::Cleaned,
        network_setup::first_cleanup_step(false, false) == CleanupStep::Cleaned,
        network_setup::first_cleanup_step(true, true) == CleanupStep::DeleteByCommand,
        network_setup::first_cleanup_step(true, false) == CleanupStep::DeleteByNetlink,
{
}

/// The addresses of a slot: its own lies as many addresses above the first base as the
/// slot has a number, the ends of its link twice as many above the second, side by side.
/// A slot has addresses exactly where all three are within 32 bits.
pub proof fn slots_are_addressed_by_their_number(plan: NetworkAddressPlan, idx: int, ips: SlotIps)
    ensures
        ({
            let value = |ip: Ipv4Addr|
                ip.a * 256 * 256 * 256 + ip.b * 256 * 256 + ip.c * 256 + ip.d;
            &&& plan.fits(idx) <==> value(plan.host_interaction_base) + idx < 0x1_0000_0000
                && value(plan.veth_base) + 2 * idx + 1 < 0x1_0000_0000
            &&& plan.assigns(idx, ips) <==> {
                &&& value(ips.host_interaction_ip) == value(plan.host_interaction_base) + idx
                &&& value(ips.veth_host_ip) == value(plan.veth_base) + 2 * idx
                &&& value(ips.veth_vm_ip) == value(ips.veth_host_ip) + 1
            }
        }),
{
}

/// A slot is addressed where its number is one of 32767, from 1 on, and its own addresses
/// are those that the plan gives to its number.
pub proof fn addressed_slots_have_the_addresses_of_their_number(slot: Slot)
    ensures
        ({
            let value = |ip: Ipv4Addr|
                ip.a * 256 * 256 * 256 + ip.b * 256 * 256 + ip.c * 256 + ip.d;
            let plan = slot.address_plan;
            slot.addressed() <==> {
                &&& 1 <= slot.idx <= 32767
                &&& value(slot.host_interaction_ip) == value(plan.host_interaction_base) + slot.idx
                &&& value(slot.veth_host_ip) == value(plan.veth_base) + 2 * slot.idx
                &&& value(slot.veth_vm_ip) == value(plan.veth_base) + 2 * slot.idx + 1
            }
        }),
{
}

/// The words of a rule say all of it: its table, its chain and what it matches and does.
pub proof fn words_of_rules_leave_nothing_out(
    r: IptablesAppend,
    table: Seq<char>,
    chain: Seq<char>,
    rule: Seq<char>,
)
    ensures
        network_slot::rule_words(r) == (table, chain, rule) <==> {
            &&& r.table@ == table
            &&& r.chain@ == chain
            &&& r.rule@ == rule
        },
{
}

/// The name of a slot's link begins with the prefix and ends with the slot's number, so
/// that slots have links of their own.
pub proof fn links_are_named_by_their_slot(prefix: Seq<char>, i: nat, j: nat)
    ensures
        network_slot::veth_name(prefix, i) == prefix + text::decimal(i),
        network_slot::veth_name(prefix, i) == network_slot::veth_name(prefix, j) ==> i == j,
{
    if network_slot::veth_name(prefix, i) == network_slot::veth_name(prefix, j) {
        assert((prefix + text::decimal(i)).skip(prefix.len() as int) =~= text::decimal(i));
        assert((prefix + text::decimal(j)).skip(prefix.len() as int) =~= text::decimal(j));
        text::decimal_is_injective(i, j);
    }
}

/// What is said where a link is missing or a route is refused names the link, and the
/// route with both its ends.
pub proof fn missing_links_and_routes_are_named(
    host_veth: Seq<char>,
    to: Ipv4Addr,
    via: Ipv4Addr,
    stderr: Seq<char>,
)
    ensures
        network_setup::missing_message(IfMissing::HostVethLost, host_veth)
            == "Host veth interface "@ + host_veth + " not found after move"@,
        network_setup::missing_message(IfMissing::CreatedVethLost, host_veth)
            == "Created veth interface not found"@,
        network_setup::route_message(to, via, host_veth, stderr) == "Failed to add route to "@
            + ipv4::dotted(to) + "/32 via "@ + ipv4::dotted(via) + " dev "@ + host_veth + ": "@
            + stderr,
{
}

/// A link is as good as deleted exactly where one of the known complaints occurs in what
/// was said.
pub proof fn known_complaints_mean_that_a_link_is_gone(said: Seq<char>)
    ensures
        network_setup::says_no_device(said) <==> text::contains_text(said, "No such device"@)
            || text::contains_text(said, "ENODEV"@),
        network_setup::complains_of_no_device(said) <==> text::contains_text(
            said,
            "cannot find device"@,
        ) || text::contains_text(said, "no such device"@) || text::contains_text(
            said,
            "not found"@,
        ),
{
}

/// A setting that has not appeared yet is waited for a tenth of a second in all.
pub proof fn settings_are_waited_for_a_tenth_of_a_second()
    ensures
        network_setup::NEIGH_SYSCTL_RETRIES * network_setup::NEIGH_SYSCTL_RETRY_DELAY_MS == 100,
        network_setup::NEIGH_SYSCTL_RETRIES == 5,
        network_slot::MAX_SLOTS == 32 * 1024,
{
}

} // verus!
