//! Network slots: the addresses, names and rules of a sandbox network, and the
//! order in which it is set up and torn down.
use vstd::prelude::*;
use vstd::string::StringExecFns;

use crate::failure::Failure;
use crate::ipv4;
use crate::ipv4::Ipv4Addr;
use crate::paths;
use crate::text;

verus! {

/// The number of slots; slot 0 is not used.
pub const MAX_SLOTS: usize = 32768;

/// Which addresses the slots have: blocks that grow from two base addresses,
/// and one fixed link between each virtual machine and its namespace.
#[derive(Debug, Clone, Copy, PartialEq, Eq)]
pub struct NetworkAddressPlan {
    pub host_interaction_base: Ipv4Addr,
    pub veth_base: Ipv4Addr,
}

impl Default for NetworkAddressPlan {
    fn default() -> (r: NetworkAddressPlan)
        ensures
            r.host_interaction_base == (Ipv4Addr { a: 10, b: 11, c: 0, d: 0 }),
            r.veth_base == (Ipv4Addr { a: 10, b: 12, c: 0, d: 0 }),
    {
        NetworkAddressPlan {
            host_interaction_base: Ipv4Addr::new(10, 11, 0, 0),
            veth_base: Ipv4Addr::new(10, 12, 0, 0),
        }
    }
}

/// The addresses of one slot.
#[derive(Debug, Clone, Copy, PartialEq, Eq)]
pub struct SlotIps {
    pub host_interaction_ip: Ipv4Addr,
    /// The address of the link's end on the host.
    pub veth_host_ip: Ipv4Addr,
    /// The address of the link's end in the namespace.
    pub veth_vm_ip: Ipv4Addr,
}

impl NetworkAddressPlan {
    /// All addresses of slot `idx` are IPv4 addresses.
    pub open spec fn fits(self, idx: int) -> bool {
        &&& ipv4::number(self.host_interaction_base) + idx <= u32::MAX
        &&& ipv4::number(self.veth_base) + 2 * idx + 1 <= u32::MAX
    }

    /// `ips` are the addresses of slot `idx`.
    pub open spec fn assigns(self, idx: int, ips: SlotIps) -> bool {
        &&& ipv4::number(ips.host_interaction_ip) == ipv4::number(self.host_interaction_base) + idx
        &&& ipv4::number(ips.veth_host_ip) == ipv4::number(self.veth_base) + 2 * idx
        &&& ipv4::number(ips.veth_vm_ip) == ipv4::number(self.veth_base) + 2 * idx + 1
    }

    /// The address of every virtual machine on its link.
    pub fn vm_ip(&self) -> (r: Ipv4Addr)
        ensures
            r == (Ipv4Addr { a: 169, b: 254, c: 0, d: 21 }),
    {
        Ipv4Addr::new(169, 254, 0, 21)
    }

    /// The address of every namespace on the link to its virtual machine.
    pub fn tap_ip(&self) -> (r: Ipv4Addr)
        ensures
            r == (Ipv4Addr { a: 169, b: 254, c: 0, d: 22 }),
    {
        Ipv4Addr::new(169, 254, 0, 22)
    }

    pub fn vm_link_prefix(&self) -> (r: u8)
        ensures
            r == 30,
    {
        30
    }

    pub fn vm_link_mask(&self) -> (r: Ipv4Addr)
        ensures
            r == (Ipv4Addr { a: 255, b: 255, c: 255, d: 252 }),
    {
        Ipv4Addr::new(255, 255, 255, 252)
    }

    /// The addresses of slot `idx`.
    pub fn slot_ips(&self, idx: u32) -> (r: Result<SlotIps, Failure>)
        ensures
            r is Ok <==> self.fits(idx as int),
            r matches Ok(ips) ==> self.assigns(idx as int, ips),
            r matches Err(e) ==> e.message@ == "slot address is out of range"@,
    {
        if idx > 0x7fff_ffff {
            return Err(Failure::because("slot address is out of range"));
        }
        let host = self.host_interaction_base.checked_offset(idx);
        let veth_host = self.veth_base.checked_offset(2 * idx);
        let veth_vm = self.veth_base.checked_offset(2 * idx + 1);
        match (host, veth_host, veth_vm) {
            (Some(host_interaction_ip), Some(veth_host_ip), Some(veth_vm_ip)) => Ok(
                SlotIps { host_interaction_ip, veth_host_ip, veth_vm_ip },
            ),
            _ => Err(Failure::because("slot address is out of range")),
        }
    }
}

/// Different slots share no address, and the two ends of a slot's link are
/// neighbours.
pub proof fn slots_have_addresses_of_their_own(
    plan: NetworkAddressPlan,
    i: int,
    j: int,
    x: SlotIps,
    y: SlotIps,
)
    requires
        i != j,
        plan.assigns(i, x),
        plan.assigns(j, y),
    ensures
        x.host_interaction_ip != y.host_interaction_ip,
        x.veth_host_ip != y.veth_host_ip,
        x.veth_vm_ip != y.veth_vm_ip,
        x.veth_host_ip != y.veth_vm_ip,
        ipv4::number(x.veth_vm_ip) == ipv4::number(x.veth_host_ip) + 1,
{
}

/// Every slot of the default plan has addresses.
pub proof fn default_plan_fits_every_slot(plan: NetworkAddressPlan, idx: int)
    requires
        plan.host_interaction_base == (Ipv4Addr { a: 10, b: 11, c: 0, d: 0 }),
        plan.veth_base == (Ipv4Addr { a: 10, b: 12, c: 0, d: 0 }),
        0 <= idx < MAX_SLOTS,
    ensures
        plan.fits(idx),
{
}

/// In the default plan no slot's own address is an address of any link.
pub proof fn default_plan_keeps_its_blocks_apart(
    plan: NetworkAddressPlan,
    i: int,
    j: int,
    x: SlotIps,
    y: SlotIps,
)
    requires
        plan.host_interaction_base == (Ipv4Addr { a: 10, b: 11, c: 0, d: 0 }),
        plan.veth_base == (Ipv4Addr { a: 10, b: 12, c: 0, d: 0 }),
        0 <= i < MAX_SLOTS,
        0 <= j < MAX_SLOTS,
        plan.assigns(i, x),
        plan.assigns(j, y),
    ensures
        x.host_interaction_ip != y.veth_host_ip,
        x.host_interaction_ip != y.veth_vm_ip,
{
}

/// Why a network operation failed.
#[derive(Debug, PartialEq, Eq)]
pub enum NetworkError {
    SlotOutOfRange { idx: u32, max: u32 },
    NamespaceError(Failure),
    IoError(Failure),
}

/// What the names of interfaces and namespaces begin with.
#[derive(Debug, PartialEq, Eq)]
pub struct NetworkNames {
    pub host_veth_prefix: String,
    pub netns_prefix: String,
}

/// The shape of a version 7 UUID in text: lower-case hexadecimal digits in five
/// groups.
pub open spec fn uuid_v7_text(s: Seq<char>) -> bool {
    &&& s.len() == 36
    &&& forall|i: int|
        0 <= i < 36 ==> if i == 8 || i == 13 || i == 18 || i == 23 {
            #[trigger] s[i] == '-'
        } else {
            ('0' <= s[i] && s[i] <= '9') || ('a' <= s[i] && s[i] <= 'f')
        }
    &&& s[14] == '7'
    &&& s[19] == '8' || s[19] == '9' || s[19] == 'a' || s[19] == 'b'
}

/// A fresh identifier in text.
///
/// `uuid::Uuid::now_v7`, written by its `Display`: the result depends on the
/// clock and on chance, so only the shape that every such UUID has is claimed:
/// hyphens in four places, lower-case hexadecimal digits elsewhere, the version
/// digit 7 and the variant bits `10`. That two results differ is not claimed.
/// The call panics where the system clock stands before 1970, and where the system
/// has no random bytes to give.
#[verifier::external_body]
fn fresh_uuid() -> (r: String)
    ensures
        uuid_v7_text(r@),
{
    uuid::Uuid::now_v7().to_string()
}

/// The network of one sandbox.
#[derive(Debug, PartialEq, Eq)]
pub struct Slot {
    pub idx: u32,
    pub namespace_id: String,
    pub host_interaction_ip: Ipv4Addr,
    pub veth_host_ip: Ipv4Addr,
    pub veth_vm_ip: Ipv4Addr,
    pub address_plan: NetworkAddressPlan,
    pub netns_dir: String,
    pub host_veth_prefix: String,
    /// There is something to tear down.
    pub cleanup_armed: bool,
    /// The namespace's egress chain holds rules of its user. The namespace
    /// outlives a sandbox, so the next user may have to clear them.
    pub user_egress_rules_present: bool,
}

/// The name of the host's end of a slot's link.
pub open spec fn veth_name(prefix: Seq<char>, idx: nat) -> Seq<char> {
    prefix + text::decimal(idx)
}

impl Slot {
    /// The slot's addresses are those that the plan gives.
    pub open spec fn addressed(self) -> bool {
        &&& 0 < self.idx < MAX_SLOTS
        &&& self.address_plan.assigns(
            self.idx as int,
            SlotIps {
                host_interaction_ip: self.host_interaction_ip,
                veth_host_ip: self.veth_host_ip,
                veth_vm_ip: self.veth_vm_ip,
            },
        )
    }

    /// A slot with a fresh namespace name.
    pub fn new(
        idx: u32,
        address_plan: NetworkAddressPlan,
        netns_dir: &str,
        names: &NetworkNames,
    ) -> (r: Result<Slot, NetworkError>)
        ensures
            r is Ok <==> 0 < idx < MAX_SLOTS && address_plan.fits(idx as int),
            !(0 < idx < MAX_SLOTS) ==> r == Err::<Slot, NetworkError>(
                NetworkError::SlotOutOfRange { idx, max: 32767 },
            ),
            0 < idx < MAX_SLOTS && r is Err ==> (r->Err_0 matches NetworkError::NamespaceError(e)
                && e.message@ == "slot address is out of range"@),
            r matches Ok(slot) ==> {
                &&& slot.addressed()
                &&& slot.idx == idx
                &&& slot.address_plan == address_plan
                &&& slot.netns_dir@ == netns_dir@
                &&& slot.host_veth_prefix@ == names.host_veth_prefix@
                &&& !slot.cleanup_armed
                &&& !slot.user_egress_rules_present
                &&& exists|id: Seq<char>|
                    #[trigger] uuid_v7_text(id) && slot.namespace_id@ == names.netns_prefix@ + id
            },
    {
        if idx == 0 || idx >= MAX_SLOTS as u32 {
            return Err(NetworkError::SlotOutOfRange { idx, max: MAX_SLOTS as u32 - 1 });
        }
        let id = fresh_uuid();
        Slot::with_namespace_uuid(idx, address_plan, netns_dir, names, id.as_str())
    }

    /// A slot whose namespace is named after the given identifier.
    pub fn with_namespace_uuid(
        idx: u32,
        address_plan: NetworkAddressPlan,
        netns_dir: &str,
        names: &NetworkNames,
        uuid: &str,
    ) -> (r: Result<Slot, NetworkError>)
        ensures
            r is Ok <==> 0 < idx < MAX_SLOTS && address_plan.fits(idx as int),
            !(0 < idx < MAX_SLOTS) ==> r == Err::<Slot, NetworkError>(
                NetworkError::SlotOutOfRange { idx, max: 32767 },
            ),
            0 < idx < MAX_SLOTS && r is Err ==> (r->Err_0 matches NetworkError::NamespaceError(e)
                && e.message@ == "slot address is out of range"@),
            r matches Ok(slot) ==> {
                &&& slot.addressed()
                &&& slot.idx == idx
                &&& slot.address_plan == address_plan
                &&& slot.netns_dir@ == netns_dir@
                &&& slot.host_veth_prefix@ == names.host_veth_prefix@
                &&& !slot.cleanup_armed
                &&& !slot.user_egress_rules_present
                &&& slot.namespace_id@ == names.netns_prefix@ + uuid@
            },
    {
        if idx == 0 || idx >= MAX_SLOTS as u32 {
            return Err(NetworkError::SlotOutOfRange { idx, max: MAX_SLOTS as u32 - 1 });
        }
        match address_plan.slot_ips(idx) {
            Ok(ips) => Ok(
                Slot {
                    idx,
                    namespace_id: text::concat(names.netns_prefix.as_str(), uuid),
                    host_interaction_ip: ips.host_interaction_ip,
                    veth_host_ip: ips.veth_host_ip,
                    veth_vm_ip: ips.veth_vm_ip,
                    address_plan,
                    netns_dir: netns_dir.to_owned(),
                    host_veth_prefix: names.host_veth_prefix.clone(),
                    cleanup_armed: false,
                    user_egress_rules_present: false,
                },
            ),
            Err(e) => Err(NetworkError::NamespaceError(e)),
        }
    }

    /// The name of the host's end of the link.
    pub fn host_veth_name(&self) -> (r: String)
        ensures
            r@ == veth_name(self.host_veth_prefix@, self.idx as nat),
    {
        text::concat(self.host_veth_prefix.as_str(), text::decimal_of(self.idx as u64).as_str())
    }

    /// The file that the namespace is mounted on.
    pub fn namespace_path(&self) -> (r: String)
        ensures
            r@ == paths::join_of(self.netns_dir@, self.namespace_id@),
    {
        paths::join(self.netns_dir.as_str(), self.namespace_id.as_str())
    }

    /// The kernel argument that configures the virtual machine's network:
    /// `ip=<vm_ip>::<tap_ip>:<netmask>:<hostname>:<iface>:<autoconf>:<dns>`.
    pub fn build_ip_boot_arg(&self, dns_ip: Ipv4Addr) -> (r: String)
        ensures
            r@ == "ip="@ + ipv4::dotted(Ipv4Addr { a: 169, b: 254, c: 0, d: 21 }) + "::"@
                + ipv4::dotted(Ipv4Addr { a: 169, b: 254, c: 0, d: 22 }) + ":"@ + ipv4::dotted(
                Ipv4Addr { a: 255, b: 255, c: 255, d: 252 },
            ) + ":instance:eth0:off:"@ + ipv4::dotted(dns_ip),
    {
        let mut r = text::concat3("ip=", self.address_plan.vm_ip().to_text().as_str(), "::");
        r.append(self.address_plan.tap_ip().to_text().as_str());
        r.append(":");
        r.append(self.address_plan.vm_link_mask().to_text().as_str());
        r.append(":instance:eth0:off:");
        r.append(dns_ip.to_text().as_str());
        r
    }

    /// Whether the egress rules of the namespace have to be written: not where
    /// none are wanted and none are there.
    pub fn egress_rules_need_writing(&self, wants_rules: bool) -> (r: bool)
        ensures
            r == (wants_rules || self.user_egress_rules_present),
    {
        wants_rules || self.user_egress_rules_present
    }

    /// Notes the outcome of writing the egress rules: after a failure nothing is
    /// known to have changed.
    pub fn note_egress_rules(&mut self, wants_rules: bool, written: bool)
        ensures
            *final(self) == (Slot {
                user_egress_rules_present: if written {
                    wants_rules
                } else {
                    old(self).user_egress_rules_present
                },
                ..*old(self)
            }),
    {
        if written {
            self.user_egress_rules_present = wants_rules;
        }
    }
}

/// Whether a sandbox wants egress rules, from whether its policy has rules, if
/// it has a policy.
pub fn wants_egress_rules(policy_has_rules: Option<bool>) -> (r: bool)
    ensures
        r == (policy_has_rules == Some(true)),
{
    match policy_has_rules {
        Some(has) => has,
        None => false,
    }
}

/// A rule to append to a chain.
#[derive(Debug, PartialEq, Eq)]
pub struct IptablesAppend {
    pub table: &'static str,
    pub chain: &'static str,
    pub rule: String,
}

/// The rule's parts in words.
pub open spec fn rule_words(r: IptablesAppend) -> (Seq<char>, Seq<char>, Seq<char>) {
    (r.table@, r.chain@, r.rule@)
}

/// The rules of a namespace: traffic may pass from the virtual machine to the
/// host, answers may pass back, and the virtual machine appears to the host
/// under the slot's own address.
pub fn namespace_iptables_rules(host_interaction_ip: Ipv4Addr, vm_ip: Ipv4Addr) -> (r: Vec<
    IptablesAppend,
>)
    ensures
        r@.len() == 4,
        rule_words(r@[0]) == ("filter"@, "FORWARD"@, "-i tap0 -o vpeer -j ACCEPT"@),
        rule_words(r@[1]) == (
            "filter"@,
            "FORWARD"@,
            "-i vpeer -o tap0 -m state --state RELATED,ESTABLISHED -j ACCEPT"@,
        ),
        rule_words(r@[2]) == (
            "nat"@,
            "POSTROUTING"@,
            "-o vpeer -s "@ + ipv4::dotted(vm_ip) + " -j SNAT --to "@ + ipv4::dotted(
                host_interaction_ip,
            ),
        ),
        rule_words(r@[3]) == (
            "nat"@,
            "PREROUTING"@,
            "-i vpeer -d "@ + ipv4::dotted(host_interaction_ip) + " -j DNAT --to "@ + ipv4::dotted(
                vm_ip,
            ),
        ),
{
    let vm = vm_ip.to_text();
    let host = host_interaction_ip.to_text();
    let mut snat = text::concat3("-o vpeer -s ", vm.as_str(), " -j SNAT --to ");
    snat.append(host.as_str());
    let mut dnat = text::concat3("-i vpeer -d ", host.as_str(), " -j DNAT --to ");
    dnat.append(vm.as_str());
    let mut r: Vec<IptablesAppend> = Vec::new();
    r.push(
        IptablesAppend {
            table: "filter",
            chain: "FORWARD",
            rule: "-i tap0 -o vpeer -j ACCEPT".to_owned(),
        },
    );
    r.push(
        IptablesAppend {
            table: "filter",
            chain: "FORWARD",
            rule: "-i vpeer -o tap0 -m state --state RELATED,ESTABLISHED -j ACCEPT".to_owned(),
        },
    );
    r.push(IptablesAppend { table: "nat", chain: "POSTROUTING", rule: snat });
    r.push(IptablesAppend { table: "nat", chain: "PREROUTING", rule: dnat });
    r
}

} // verus!
