//! In-guest network bring-up: find the provisioned interface by its magic
//! MAC prefix, recover the guest's own address from it, and compute the
//! addressing, route and DNS configuration. The shell enumerates interfaces
//! (and hands them over as plain values) and executes the computed commands.

use vstd::prelude::*;

use crate::command::{Cmd, CommandExecutionError};
use crate::config::NETWORK_MASK_SHORT;
use crate::fs::cmd_is;
use crate::network::{mac_to_ip, spec_ipv4, spec_mac_to_ip, Ipv4Address, MacToIpError};
use crate::strutil::{spec_dec_nat, spec_starts_with, str_starts_with, u8_to_string};

verus! {

/// Why the guest's network bring-up failed; the string payloads carry the
/// rendered underlying messages.
#[derive(Debug)]
pub enum NetworkError {
    /// A file could not be written.
    Io(String),
    /// Captured output was not valid UTF-8.
    Utf8(String),
    /// A networking command failed.
    Command(CommandExecutionError),
    /// The interface enumeration's output could not be decoded.
    Json(String),
    /// No interface carries the magic MAC prefix.
    NoInterfaceFound,
    /// The magic interface's MAC carries no valid IPv4 address.
    MacToIpError(MacToIpError),
}

/// One enumerated interface: its name and its MAC address.
pub struct NetworkAddress {
    pub ifname: String,
    pub mac: String,
}

/// The configured uplink: the interface, its MAC, the guest's own address
/// recovered from it, and the host's address on the shared subnet.
pub struct NetworkInterface {
    pub ifname: String,
    pub mac: String,
    pub own_address: Ipv4Address,
    pub host_address: Ipv4Address,
}

/// Whether an interface carries the magic MAC prefix.
pub open spec fn spec_is_magic(a: NetworkAddress) -> bool {
    spec_starts_with(a.mac@, "06:00"@)
}

/// Whether position `i` holds the first magic interface.
pub open spec fn spec_first_magic_at(interfaces: Seq<NetworkAddress>, i: int) -> bool {
    &&& 0 <= i < interfaces.len()
    &&& spec_is_magic(interfaces[i])
    &&& forall|j: int| 0 <= j < i ==> !spec_is_magic(#[trigger] interfaces[j])
}

/// Whether no interface is magic.
pub open spec fn spec_no_magic(interfaces: Seq<NetworkAddress>) -> bool {
    forall|j: int| 0 <= j < interfaces.len() ==> !spec_is_magic(#[trigger] interfaces[j])
}

/// The command that enumerates the guest's interfaces as JSON; the shell
/// decodes its output into `NetworkAddress` values.
pub fn get_interfaces_command() -> (c: Cmd)
    ensures
        cmd_is(c, "ip"@, seq!["-j"@, "address"@]),
{
    let mut c = Cmd::new(String::from_str("ip"));
    c.arg(String::from_str("-j"));
    c.arg(String::from_str("address"));
    proof {
        assert(c.args.deep_view() =~= seq!["-j"@, "address"@]);
    }
    c
}

/// The first interface whose MAC starts with the magic prefix, or
/// `NoInterfaceFound` exactly when there is none.
pub fn get_magic_address(interfaces: &Vec<NetworkAddress>) -> (r: Result<
    NetworkAddress,
    NetworkError,
>)
    ensures
        match r {
            Ok(a) => exists|i: int|
                {
                    &&& #[trigger] spec_first_magic_at(interfaces@, i)
                    &&& a.ifname@ == interfaces@[i].ifname@
                    &&& a.mac@ == interfaces@[i].mac@
                },
            Err(e) => e is NoInterfaceFound && spec_no_magic(interfaces@),
        },
{
    let mut i: usize = 0;
    while i < interfaces.len()
        invariant
            i <= interfaces@.len(),
            forall|j: int| 0 <= j < i ==> !spec_is_magic(#[trigger] interfaces@[j]),
        decreases interfaces@.len() - i,
    {
        if str_starts_with(interfaces[i].mac.as_str(), "06:00") {
            let found = NetworkAddress {
                ifname: String::from_str(interfaces[i].ifname.as_str()),
                mac: String::from_str(interfaces[i].mac.as_str()),
            };
            proof {
                assert(spec_first_magic_at(interfaces@, i as int));
            }
            return Ok(found);
        }
        i += 1;
    }
    Err(NetworkError::NoInterfaceFound)
}

/// The computed bring-up of the guest's uplink: the configured interface and
/// the commands that address it, bring it up, and route through the host.
pub struct NetworkSetupPlan {
    pub interface: NetworkInterface,
    pub commands: Vec<Cmd>,
}

/// Whether `plan` is the bring-up that the interface list determines: the
/// first magic interface, the address its MAC encodes, the host at the
/// subnet's first address, and the three commands in order.
pub open spec fn spec_network_plan(interfaces: Seq<NetworkAddress>, plan: NetworkSetupPlan) -> bool {
    exists|i: int|
        {
            &&& #[trigger] spec_first_magic_at(interfaces, i)
            &&& plan.interface.ifname@ == interfaces[i].ifname@
            &&& plan.interface.mac@ == interfaces[i].mac@
            &&& spec_mac_to_ip(interfaces[i].mac@) == Some(plan.interface.own_address)
            &&& plan.interface.host_address == (Ipv4Address {
                oct0: plan.interface.own_address.oct0,
                oct1: plan.interface.own_address.oct1,
                oct2: plan.interface.own_address.oct2,
                oct3: 1,
            })
            &&& plan.commands@.len() == 3
            &&& cmd_is(plan.commands@[0], "ip"@, seq![
                "addr"@,
                "add"@,
                spec_ipv4(plan.interface.own_address) + "/"@ + spec_dec_nat(
                    NETWORK_MASK_SHORT as nat,
                ),
                "dev"@,
                interfaces[i].ifname@,
            ])
            &&& cmd_is(plan.commands@[1], "ip"@, seq![
                "link"@,
                "set"@,
                interfaces[i].ifname@,
                "up"@,
            ])
            &&& cmd_is(plan.commands@[2], "ip"@, seq![
                "route"@,
                "add"@,
                "default"@,
                "via"@,
                spec_ipv4(plan.interface.host_address),
            ])
        }
}

/// Whether the interface list has a first magic interface whose MAC does not
/// decode: the one fatal outcome of network bring-up.
pub open spec fn spec_network_undecodable(interfaces: Seq<NetworkAddress>) -> bool {
    exists|i: int|
        #[trigger] spec_first_magic_at(interfaces, i) && spec_mac_to_ip(interfaces[i].mac@)
            is None
}

/// Compute the guest's network bring-up. No magic interface is not an
/// error: the guest skips network setup, which permits degraded boots. A
/// magic interface whose MAC does not decode is fatal.
pub fn setup_network(interfaces: &Vec<NetworkAddress>) -> (r: Result<
    Option<NetworkSetupPlan>,
    NetworkError,
>)
    ensures
        match r {
            Ok(Some(plan)) => spec_network_plan(interfaces@, plan),
            Ok(None) => spec_no_magic(interfaces@),
            Err(e) => e is MacToIpError && spec_network_undecodable(interfaces@),
        },
{
    let magic = match get_magic_address(interfaces) {
        Ok(magic) => magic,
        Err(_) => {
            return Ok(None);
        },
    };
    let own_address = match mac_to_ip(magic.mac.as_str()) {
        Ok(own_address) => own_address,
        Err(e) => {
            return Err(NetworkError::MacToIpError(e));
        },
    };
    let host_address = Ipv4Address::new(
        own_address.oct0,
        own_address.oct1,
        own_address.oct2,
        1,
    );

    let mut commands: Vec<Cmd> = Vec::new();

    let mut addr = Cmd::new(String::from_str("ip"));
    addr.arg(String::from_str("addr"));
    addr.arg(String::from_str("add"));
    let mut cidr = own_address.dotted();
    cidr.append("/");
    let mask = u8_to_string(NETWORK_MASK_SHORT);
    cidr.append(mask.as_str());
    addr.arg(cidr);
    addr.arg(String::from_str("dev"));
    addr.arg(String::from_str(magic.ifname.as_str()));
    proof {
        reveal_strlit("/");
        assert("/"@ =~= seq!['/']);
        assert(addr.args.deep_view() =~= seq![
            "addr"@,
            "add"@,
            spec_ipv4(own_address) + "/"@ + spec_dec_nat(NETWORK_MASK_SHORT as nat),
            "dev"@,
            magic.ifname@,
        ]);
    }
    commands.push(addr);

    let mut up = Cmd::new(String::from_str("ip"));
    up.arg(String::from_str("link"));
    up.arg(String::from_str("set"));
    up.arg(String::from_str(magic.ifname.as_str()));
    up.arg(String::from_str("up"));
    proof {
        assert(up.args.deep_view() =~= seq!["link"@, "set"@, magic.ifname@, "up"@]);
    }
    commands.push(up);

    let mut route = Cmd::new(String::from_str("ip"));
    route.arg(String::from_str("route"));
    route.arg(String::from_str("add"));
    route.arg(String::from_str("default"));
    route.arg(String::from_str("via"));
    route.arg(host_address.dotted());
    proof {
        assert(route.args.deep_view() =~= seq![
            "route"@,
            "add"@,
            "default"@,
            "via"@,
            spec_ipv4(host_address),
        ]);
    }
    commands.push(route);

    let interface = NetworkInterface {
        ifname: String::from_str(magic.ifname.as_str()),
        mac: String::from_str(magic.mac.as_str()),
        own_address,
        host_address,
    };
    let plan = NetworkSetupPlan { interface, commands };
    proof {
        assert(spec_network_plan(interfaces@, plan));
    }
    Ok(Some(plan))
}

/// The guest's DNS configuration: the resolver file's path and contents.
/// Name resolution is forced over TCP to sidestep UDP packet-size limits in
/// constrained guests.
pub fn setup_dns() -> (r: (String, String))
    ensures
        r.0@ == "/etc/resolv.conf"@,
        r.1@ == "nameserver 1.1.1.1\noptions use-vc\n"@,
{
    (
        String::from_str("/etc/resolv.conf"),
        String::from_str("nameserver 1.1.1.1\noptions use-vc\n"),
    )
}

} // verus!
