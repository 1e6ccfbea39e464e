use agentenv::failure::Failure;
use agentenv::ipv4::parse_nameserver_ipv4;
use agentenv::ipv4::resolve_guest_dns_server;
use agentenv::ipv4::Ipv4Addr;
use agentenv::kernel_setting::KernelSetting;
use agentenv::network_setup::configure_host_interface;
use agentenv::network_setup::configure_namespace_interfaces;
use agentenv::network_setup::delete_host_veth_interface_sync;
use agentenv::network_setup::delete_veth_args;
use agentenv::network_setup::egress_chain;
use agentenv::network_setup::forwarding_setting;
use agentenv::network_setup::host_route_args;
use agentenv::network_setup::interface_failure;
use agentenv::network_setup::is_missing_device_complaint;
use agentenv::network_setup::is_no_device;
use agentenv::network_setup::link_deletion_outcome;
use agentenv::network_setup::link_name;
use agentenv::network_setup::neigh_retrans_setting;
use agentenv::network_setup::network_step_context;
use agentenv::network_setup::next_interface_step;
use agentenv::network_setup::next_network_step;
use agentenv::network_setup::route_failure;
use agentenv::network_setup::step_thread;
use agentenv::network_setup::tap_args;
use agentenv::network_setup::tune_neigh_retrans_time_ms;
use agentenv::network_setup::CleanupEvent;
use agentenv::network_setup::CleanupStep;
use agentenv::network_setup::EgressChain;
use agentenv::network_setup::IfMissing;
use agentenv::network_setup::InterfaceEvent;
use agentenv::network_setup::InterfaceOp;
use agentenv::network_setup::InterfaceProgress;
use agentenv::network_setup::LinkName;
use agentenv::network_setup::NetworkStep;
use agentenv::network_setup::StepThread;
use agentenv::network_setup::TuneEvent;
use agentenv::network_setup::TuneNext;
use agentenv::network_slot::namespace_iptables_rules;
use agentenv::network_slot::wants_egress_rules;
use agentenv::network_slot::NetworkAddressPlan;
use agentenv::network_slot::NetworkError;
use agentenv::network_slot::NetworkNames;
use agentenv::network_slot::Slot;

fn test_slot(idx: u32, address_plan: NetworkAddressPlan) -> Result<Slot, NetworkError> {
    let names = NetworkNames {
        host_veth_prefix: "veth-".to_string(),
        netns_prefix: "aenv-".to_string(),
    };
    Slot::new(idx, address_plan, "/tmp/aenv-network-tests/netns", &names)
}

fn slot(idx: u32) -> Slot {
    test_slot(idx, NetworkAddressPlan::default()).expect("valid slot")
}

#[test]
fn test_slot_ip_calculation() {
    let address_plan = NetworkAddressPlan::default();

    let slot1 = test_slot(1, address_plan).expect("Slot 1 should be valid");
    assert_eq!(slot1.idx, 1);
    assert_eq!(slot1.host_interaction_ip.to_text(), "10.11.0.1");
    assert_eq!(slot1.veth_host_ip.to_text(), "10.12.0.2");
    assert_eq!(slot1.veth_vm_ip.to_text(), "10.12.0.3");

    let slot2 = test_slot(2, address_plan).expect("Slot 2 should be valid");
    assert_eq!(slot2.host_interaction_ip.to_text(), "10.11.0.2");
    assert_eq!(slot2.veth_host_ip.to_text(), "10.12.0.4");
    assert_eq!(slot2.veth_vm_ip.to_text(), "10.12.0.5");
}

#[test]
fn custom_address_plan_calculates_slot_ips_and_boot_arg() {
    let address_plan = NetworkAddressPlan {
        host_interaction_base: Ipv4Addr::new(100, 64, 0, 0),
        veth_base: Ipv4Addr::new(100, 65, 0, 0),
    };
    let slot = test_slot(2, address_plan).expect("slot should be valid");

    assert_eq!(slot.host_interaction_ip.to_text(), "100.64.0.2");
    assert_eq!(slot.veth_host_ip.to_text(), "100.65.0.4");
    assert_eq!(slot.veth_vm_ip.to_text(), "100.65.0.5");
    let arg = slot.build_ip_boot_arg(Ipv4Addr::new(8, 8, 8, 8));
    assert!(arg.starts_with("ip=169.254.0.21::169.254.0.22:255.255.255.252:"));
    assert_eq!(
        arg,
        "ip=169.254.0.21::169.254.0.22:255.255.255.252:instance:eth0:off:8.8.8.8"
    );
}

#[test]
fn test_slot_overflow() {
    let address_plan = NetworkAddressPlan::default();

    let max_valid = 32767;
    let slot = test_slot(max_valid, address_plan);
    assert!(slot.is_ok());

    let overflow = test_slot(32768, address_plan);
    assert!(overflow.is_err());
    match overflow {
        Err(NetworkError::SlotOutOfRange { idx, max }) => {
            assert_eq!(idx, 32768);
            assert_eq!(max, 32767);
        }
        _ => panic!("Expected SlotOutOfRange error"),
    }
    assert_eq!(
        test_slot(0, address_plan),
        Err(NetworkError::SlotOutOfRange { idx: 0, max: 32767 })
    );
    let high = NetworkAddressPlan {
        host_interaction_base: Ipv4Addr::new(255, 255, 255, 254),
        veth_base: Ipv4Addr::new(10, 0, 0, 0),
    };
    assert_eq!(
        test_slot(2, high),
        Err(NetworkError::NamespaceError(Failure::because(
            "slot address is out of range"
        )))
    );
}

#[test]
fn namespaces_are_named_after_a_fresh_identifier() {
    let a = slot(3);
    let id = a.namespace_id.strip_prefix("aenv-").expect("prefix");
    assert_eq!(id.len(), 36);
    for (i, c) in id.chars().enumerate() {
        if [8, 13, 18, 23].contains(&i) {
            assert_eq!(c, '-');
        } else {
            assert!(c.is_ascii_hexdigit() && !c.is_ascii_uppercase());
        }
    }
    assert_eq!(&id[14..15], "7");
    assert!("89ab".contains(&id[19..20]));
    assert_ne!(a.namespace_id, slot(3).namespace_id);
    assert_eq!(
        a.namespace_path(),
        format!("/tmp/aenv-network-tests/netns/{}", a.namespace_id)
    );
    assert_eq!(a.host_veth_name(), "veth-3");
    assert!(!a.cleanup_armed);
}

#[test]
fn slots_do_not_share_addresses() {
    let mut seen: Vec<Ipv4Addr> = Vec::new();
    for idx in 1..200 {
        let slot = slot(idx);
        for ip in [slot.host_interaction_ip, slot.veth_host_ip, slot.veth_vm_ip] {
            assert!(!seen.contains(&ip));
            seen.push(ip);
        }
    }
    let last = slot(32767);
    assert_eq!(last.host_interaction_ip.to_text(), "10.11.127.255");
    assert_eq!(last.veth_host_ip.to_text(), "10.12.255.254");
    assert_eq!(last.veth_vm_ip.to_text(), "10.12.255.255");
}

#[test]
fn parse_nameserver_ipv4_prefers_non_loopback_ipv4() {
    let conf = r#"
            # generated by systemd-resolved
            nameserver 127.0.0.53
            nameserver 10.0.0.2
            nameserver 8.8.8.8
        "#;
    assert_eq!(
        parse_nameserver_ipv4(conf),
        Some(Ipv4Addr::new(10, 0, 0, 2))
    );
}

#[test]
fn parse_nameserver_ipv4_ignores_non_ipv4_entries() {
    let conf = r#"
            nameserver ::1
            nameserver not_an_ip
            search example.com
        "#;
    assert_eq!(parse_nameserver_ipv4(conf), None);
}

#[test]
fn parse_nameserver_ipv4_accepts_link_local_dns() {
    let conf = "nameserver 169.254.169.253\n";
    assert_eq!(
        parse_nameserver_ipv4(conf),
        Some(Ipv4Addr::new(169, 254, 169, 253))
    );
}

#[test]
fn parse_nameserver_ipv4_skips_malformed_nameserver_lines() {
    let conf = r#"
            nameserver
            nameserver 10.1.2.1
        "#;
    assert_eq!(
        parse_nameserver_ipv4(conf),
        Some(Ipv4Addr::new(10, 1, 2, 1))
    );
}

#[test]
fn guest_name_server_falls_back_to_a_public_one() {
    let public = Ipv4Addr::new(8, 8, 8, 8);
    assert_eq!(resolve_guest_dns_server(None, None), public);
    assert_eq!(
        resolve_guest_dns_server(Some("nameserver 127.0.0.1"), Some("nameserver 0.0.0.0\r\n")),
        public
    );
    assert_eq!(
        resolve_guest_dns_server(Some("# none"), Some("nameserver 1.1.1.1 # one")),
        Ipv4Addr::new(1, 1, 1, 1)
    );
    assert_eq!(
        resolve_guest_dns_server(Some("nameserver 9.9.9.9"), Some("nameserver 1.1.1.1")),
        Ipv4Addr::new(9, 9, 9, 9)
    );
}

#[test]
fn egress_chains_name_the_guest_dns_and_what_is_denied() {
    let denied = vec!["10.0.0.0/8".to_string(), "169.254.0.0/16".to_string()];
    assert_eq!(
        egress_chain(None, Some("nameserver 1.1.1.1"), denied.clone()),
        EgressChain {
            dns: Ipv4Addr::new(1, 1, 1, 1),
            denied: denied.clone(),
        }
    );
    let unresolved = egress_chain(None, None, vec![]);
    assert_eq!(unresolved.dns, Ipv4Addr::new(8, 8, 8, 8));
    assert!(unresolved.denied.is_empty());
}

#[test]
fn empty_egress_policy_skips_known_clean_slot() {
    let slot = slot(1);
    assert!(!slot.egress_rules_need_writing(wants_egress_rules(None)));
    assert!(!slot.egress_rules_need_writing(wants_egress_rules(Some(false))));
    assert!(!slot.user_egress_rules_present);
}

#[test]
fn failed_egress_cleanup_keeps_slot_marked_dirty() {
    let mut slot = slot(1);
    slot.user_egress_rules_present = true;
    let wants = wants_egress_rules(None);
    assert!(slot.egress_rules_need_writing(wants));
    slot.note_egress_rules(wants, false);
    assert!(slot.user_egress_rules_present);
    slot.note_egress_rules(wants, true);
    assert!(!slot.user_egress_rules_present);
}

#[test]
fn failed_egress_apply_keeps_clean_slot_marked_clean() {
    let mut slot = slot(1);
    let wants = wants_egress_rules(Some(true));
    assert!(slot.egress_rules_need_writing(wants));
    slot.note_egress_rules(wants, false);
    assert!(!slot.user_egress_rules_present);
    slot.note_egress_rules(wants, true);
    assert!(slot.user_egress_rules_present);
}

#[test]
fn rules_of_a_namespace() {
    let rules = namespace_iptables_rules(
        Ipv4Addr::new(10, 11, 0, 1),
        NetworkAddressPlan::default().vm_ip(),
    );
    let words: Vec<(&str, &str, &str)> = rules
        .iter()
        .map(|r| (r.table, r.chain, r.rule.as_str()))
        .collect();
    assert_eq!(
        words,
        vec![
            ("filter", "FORWARD", "-i tap0 -o vpeer -j ACCEPT"),
            (
                "filter",
                "FORWARD",
                "-i vpeer -o tap0 -m state --state RELATED,ESTABLISHED -j ACCEPT"
            ),
            (
                "nat",
                "POSTROUTING",
                "-o vpeer -s 169.254.0.21 -j SNAT --to 10.11.0.1"
            ),
            (
                "nat",
                "PREROUTING",
                "-i vpeer -d 10.11.0.1 -j DNAT --to 169.254.0.21"
            ),
        ]
    );
    assert_eq!(NetworkAddressPlan::default().vm_link_prefix(), 30);
}

fn namespace_ops(missing: &[LinkName]) -> (Vec<InterfaceOp>, InterfaceProgress) {
    let s = slot(1);
    let steps = configure_namespace_interfaces(
        s.veth_vm_ip,
        s.veth_host_ip,
        s.address_plan.tap_ip(),
        s.address_plan.vm_link_prefix(),
    );
    let mut done = Vec::new();
    let mut progress = InterfaceProgress::At(0);
    while let InterfaceProgress::At(at) = progress {
        let op = steps[at].op;
        done.push(op);
        let event = match op {
            InterfaceOp::LookUp(name) if missing.contains(&name) => InterfaceEvent::Missing,
            _ => InterfaceEvent::Done,
        };
        progress = next_interface_step(&steps, at, event);
    }
    (done, progress)
}

#[test]
fn interfaces_of_a_namespace_are_set_up_in_order() {
    let (ops, progress) = namespace_ops(&[]);
    assert_eq!(progress, InterfaceProgress::Finished);
    assert_eq!(
        ops,
        vec![
            InterfaceOp::CreateVethPair,
            InterfaceOp::LookUp(LinkName::HostVeth),
            InterfaceOp::MoveToHostNamespace,
            InterfaceOp::LookUp(LinkName::Loopback),
            InterfaceOp::SetUp,
            InterfaceOp::LookUp(LinkName::Peer),
            InterfaceOp::AddPointToPointAddress(Ipv4Addr::new(10, 12, 0, 3)),
            InterfaceOp::SetUp,
            InterfaceOp::AddTap,
            InterfaceOp::LookUp(LinkName::Tap),
            InterfaceOp::AddAddress {
                ip: Ipv4Addr::new(169, 254, 0, 22),
                prefix_len: 30
            },
            InterfaceOp::SetUp,
            InterfaceOp::AddDefaultRoute(Ipv4Addr::new(10, 12, 0, 2)),
        ]
    );
    let (ops, progress) = namespace_ops(&[LinkName::Loopback, LinkName::Peer, LinkName::Tap]);
    assert_eq!(progress, InterfaceProgress::Finished);
    assert_eq!(ops.len(), 8);
    assert!(ops.contains(&InterfaceOp::AddTap));
    let (_, progress) = namespace_ops(&[LinkName::HostVeth]);
    assert_eq!(
        progress,
        InterfaceProgress::LinkMissing(IfMissing::CreatedVethLost)
    );
}

fn interface_message(
    steps: &Vec<agentenv::network_setup::InterfaceStep>,
    progress: InterfaceProgress,
    stderr: &[u8],
) -> String {
    interface_failure(&slot(1), steps, progress, stderr)
        .expect("a failure")
        .message
}

#[test]
fn failures_of_interfaces_have_their_messages() {
    let host = configure_host_interface(Ipv4Addr::new(10, 12, 0, 2));
    let lost = next_interface_step(&host, 0, InterfaceEvent::Missing);
    assert_eq!(
        interface_message(&host, lost, b""),
        "Host veth interface veth-1 not found after move"
    );
    let refused = next_interface_step(&host, 3, InterfaceEvent::Refused);
    assert_eq!(
        interface_message(&host, refused, b"RTNETLINK answers: \xff\n"),
        "Failed to add route to 10.11.0.1/32 via 10.12.0.3 dev veth-1: RTNETLINK answers: \u{fffd}\n"
    );
    assert_eq!(
        route_failure(&slot(1), "no").message,
        "Failed to add route to 10.11.0.1/32 via 10.12.0.3 dev veth-1: no"
    );
    let failed = next_interface_step(&host, 1, InterfaceEvent::Failed);
    assert_eq!(
        interface_message(&host, failed, b""),
        "Failed to add IP to host veth"
    );
    // Only a link can be missing.
    assert_eq!(
        next_interface_step(&host, 1, InterfaceEvent::Missing),
        InterfaceProgress::Failed(1)
    );
    let s = slot(1);
    let inside = configure_namespace_interfaces(s.veth_vm_ip, s.veth_host_ip, s.veth_vm_ip, 30);
    assert_eq!(
        interface_message(
            &inside,
            InterfaceProgress::LinkMissing(IfMissing::CreatedVethLost),
            b""
        ),
        "Created veth interface not found"
    );
    assert_eq!(
        interface_message(&inside, InterfaceProgress::Refused(8), b""),
        "ip tuntap add failed"
    );
    assert_eq!(
        interface_message(&inside, InterfaceProgress::Failed(8), b""),
        "Failed to execute ip tuntap"
    );
    assert_eq!(
        interface_failure(&s, &inside, InterfaceProgress::Finished, b""),
        None
    );
    assert_eq!(link_name(&s, LinkName::HostVeth), "veth-1");
    assert_eq!(link_name(&s, LinkName::Peer), "vpeer");
    assert_eq!(link_name(&s, LinkName::Loopback), "lo");
    assert_eq!(link_name(&s, LinkName::Tap), "tap0");
    assert_eq!(tap_args(), vec!["tuntap", "add", "tap0", "mode", "tap"]);
    assert_eq!(
        host_route_args(&s),
        vec![
            "route",
            "add",
            "10.11.0.1/32",
            "via",
            "10.12.0.3",
            "dev",
            "veth-1"
        ]
    );
    assert_eq!(delete_veth_args(&s), vec!["link", "del", "veth-1"]);
}

#[test]
fn a_network_is_created_step_by_step() {
    let mut s = slot(1);
    let mut step = s.create_network();
    assert!(s.cleanup_armed);
    let mut steps = vec![step];
    while step != NetworkStep::Created {
        // Tuning may fail.
        let done = !matches!(
            step,
            NetworkStep::TuneTap | NetworkStep::TunePeer | NetworkStep::TuneHostVeth
        );
        step = next_network_step(step, done);
        steps.push(step);
    }
    assert_eq!(
        steps,
        vec![
            NetworkStep::EnsureDirectory,
            NetworkStep::EnsureFile,
            NetworkStep::Unshare,
            NetworkStep::BindMount,
            NetworkStep::NamespaceInterfaces,
            NetworkStep::EnableForwarding,
            NetworkStep::TuneTap,
            NetworkStep::TunePeer,
            NetworkStep::NamespaceRules,
            NetworkStep::EgressChain,
            NetworkStep::HostInterface,
            NetworkStep::TuneHostVeth,
            NetworkStep::Created,
        ]
    );
    assert_eq!(
        next_network_step(NetworkStep::Unshare, false),
        NetworkStep::Failed
    );
    assert_eq!(
        network_step_context(&s, NetworkStep::EnsureDirectory),
        "Failed to create AENV network namespace directory /tmp/aenv-network-tests/netns"
    );
    assert_eq!(
        network_step_context(&s, NetworkStep::EnsureFile),
        "Failed to create netns file"
    );
    assert_eq!(
        network_step_context(&s, NetworkStep::Unshare),
        "Failed to unshare(CLONE_NEWNET)"
    );
    assert_eq!(
        network_step_context(&s, NetworkStep::BindMount),
        "Failed to bind mount new namespace"
    );
    assert_eq!(
        network_step_context(&s, NetworkStep::EnableForwarding),
        "Failed to enable IP forwarding in namespace"
    );
    assert_eq!(network_step_context(&s, NetworkStep::HostInterface), "");
}

#[test]
fn namespaces_pass_packets_on() {
    assert_eq!(
        forwarding_setting(),
        KernelSetting {
            path: "/proc/sys/net/ipv4/ip_forward".to_string(),
            value: "1",
        }
    );
}

#[test]
fn rules_are_written_on_the_thread_that_enters_the_namespace() {
    let mut step = slot(1).create_network();
    let mut entered = false;
    let mut order = vec![];
    while step != NetworkStep::Created {
        let thread = step_thread(step);
        if matches!(step, NetworkStep::NamespaceRules | NetworkStep::EgressChain) {
            assert!(entered);
            assert_eq!(thread, StepThread::Setup);
        }
        entered = entered || step == NetworkStep::Unshare;
        order.push(thread);
        step = next_network_step(step, true);
    }
    // The setup thread is done before the caller goes on.
    let setup = order.iter().filter(|t| **t == StepThread::Setup).count();
    assert_eq!((setup, order.len()), (10, 12));
    assert!(order[..setup].iter().all(|t| *t == StepThread::Setup));
}

#[test]
fn a_setting_may_appear_late() {
    assert_eq!(
        neigh_retrans_setting("tap0"),
        KernelSetting {
            path: "/proc/sys/net/ipv4/neigh/tap0/retrans_time_ms".to_string(),
            value: "100",
        }
    );
    for attempt in 0..5 {
        assert_eq!(
            tune_neigh_retrans_time_ms(attempt, TuneEvent::NotFound),
            TuneNext::RetryAfter(20)
        );
    }
    assert_eq!(
        tune_neigh_retrans_time_ms(5, TuneEvent::NotFound),
        TuneNext::GiveUp
    );
    assert_eq!(
        tune_neigh_retrans_time_ms(0, TuneEvent::Failed),
        TuneNext::GiveUp
    );
    assert_eq!(
        tune_neigh_retrans_time_ms(0, TuneEvent::Written),
        TuneNext::Stop
    );
}

#[test]
fn a_missing_link_is_as_good_as_deleted() {
    let s = slot(7);
    assert!(is_no_device("Received a netlink error message No such device (os error 19)"));
    assert!(is_no_device("ENODEV: x"));
    assert!(!is_no_device("no such device"));
    assert!(delete_host_veth_interface_sync(&s, true, b"whatever").is_ok());
    assert!(delete_host_veth_interface_sync(&s, false, b"CANNOT FIND DEVICE \"veth-7\"\n").is_ok());
    assert!(delete_host_veth_interface_sync(&s, false, b"No Such Device").is_ok());
    assert!(delete_host_veth_interface_sync(&s, false, b"link Not Found").is_ok());
    assert_eq!(
        delete_host_veth_interface_sync(&s, false, b" Operation NOT permitted \n")
            .unwrap_err()
            .message,
        "Failed to delete veth interface veth-7: Operation NOT permitted"
    );
    assert!(is_missing_device_complaint("x: cannot find device"));
    assert!(!is_missing_device_complaint("Cannot find device"));
    assert!(link_deletion_outcome(&s, false, "X", "not found").is_ok());
}

fn tear_down(s: &mut Slot, force_sync: bool, events: &[CleanupEvent]) -> CleanupStep {
    let mut step = s.cleanup(force_sync);
    for event in events {
        step = s.next_cleanup_step(step, *event);
    }
    step
}

#[test]
fn tearing_down_can_be_repeated() {
    let mut s = slot(1);
    assert_eq!(s.cleanup(true), CleanupStep::Cleaned);
    s.create_network();
    let step = tear_down(
        &mut s,
        false,
        &[
            CleanupEvent::Failed,
            CleanupEvent::Done,
            CleanupEvent::Done,
            CleanupEvent::Done,
            CleanupEvent::Failed,
        ],
    );
    assert_eq!(step, CleanupStep::Failed);
    assert!(s.cleanup_armed);
    let step = tear_down(
        &mut s,
        true,
        &[
            CleanupEvent::Done,
            CleanupEvent::Done,
            CleanupEvent::Done,
            CleanupEvent::Absent,
            CleanupEvent::Absent,
        ],
    );
    assert_eq!(step, CleanupStep::Cleaned);
    assert!(!s.cleanup_armed);
    assert_eq!(s.cleanup(false), CleanupStep::Cleaned);
    s.create_network();
    assert_eq!(s.cleanup(false), CleanupStep::DeleteByNetlink);
    assert_eq!(
        s.next_cleanup_step(CleanupStep::DeleteByCommand, CleanupEvent::Failed),
        CleanupStep::Failed
    );
    assert!(s.cleanup_armed);
    // Without a file there is nothing to unmount.
    assert_eq!(
        s.next_cleanup_step(CleanupStep::LookForFile, CleanupEvent::Absent),
        CleanupStep::Cleaned
    );
    assert_eq!(
        s.next_cleanup_step(CleanupStep::RemoveFile, CleanupEvent::Failed),
        CleanupStep::Failed
    );
}

#[test]
fn a_teardown_that_ends_well_leaves_nothing_on_the_host() {
    for (force_sync, netlink_works) in [(false, true), (false, false), (true, true)] {
        let (mut link, mut mounts, mut file) = (true, 2u32, true);
        let mut slot = slot(3);
        slot.create_network();
        let mut step = slot.cleanup(force_sync);
        while step != CleanupStep::Cleaned {
            let event = match step {
                CleanupStep::DeleteByNetlink if !netlink_works => CleanupEvent::Failed,
                CleanupStep::DeleteByNetlink | CleanupStep::DeleteByCommand => {
                    link = false;
                    CleanupEvent::Done
                }
                CleanupStep::LookForFile if file => CleanupEvent::Done,
                CleanupStep::Unmount if mounts > 0 => {
                    mounts -= 1;
                    CleanupEvent::Done
                }
                CleanupStep::LookForFile | CleanupStep::Unmount => CleanupEvent::Absent,
                CleanupStep::RemoveFile => {
                    file = false;
                    CleanupEvent::Done
                }
                CleanupStep::Cleaned | CleanupStep::Failed => panic!("unexpected {step:?}"),
            };
            step = slot.next_cleanup_step(step, event);
        }
        assert_eq!((link, mounts, file), (false, 0, false));
        assert_eq!(slot.cleanup(force_sync), CleanupStep::Cleaned);
    }
}
