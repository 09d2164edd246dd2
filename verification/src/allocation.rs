//! The per-slot network allocation: a slot index below the allocation bound
//! determines the host and guest addresses of a /30 subnet, the guest MAC
//! that encodes the guest address, and the host tap-device name; and the
//! commands that plumb the tap device into the host.

use vstd::prelude::*;

use crate::command::Cmd;
use crate::config::NETWORK_MASK_SHORT;
use crate::fs::cmd_is;
use crate::network::{ip_to_mac, spec_ip_to_mac, spec_ipv4, Ipv4Address};
use crate::strutil::{spec_dec_nat, u8_to_string};

verus! {

/// The network identity of one instance slot.
pub struct NetworkAllocation {
    pub interface: String,
    pub host_ip: Ipv4Address,
    pub guest_mac: String,
    pub client_ip: Ipv4Address,
    pub tap_name: String,
}

/// The host address of a slot: `172.16.<slot>.1`.
pub open spec fn spec_host_ip(idx: u8) -> Ipv4Address {
    Ipv4Address { oct0: 172, oct1: 16, oct2: idx, oct3: 1 }
}

/// The guest address of a slot: `172.16.<slot>.2`.
pub open spec fn spec_client_ip(idx: u8) -> Ipv4Address {
    Ipv4Address { oct0: 172, oct1: 16, oct2: idx, oct3: 2 }
}

/// The tap-device name of a slot: `tap<slot>`.
pub open spec fn spec_tap_name(idx: u8) -> Seq<char> {
    "tap"@ + spec_dec_nat(idx as nat)
}

/// Whether an allocation is exactly the tuple that `interface` and `idx`
/// determine.
pub open spec fn spec_allocation(a: NetworkAllocation, interface: Seq<char>, idx: u8) -> bool {
    &&& a.interface@ == interface
    &&& a.host_ip == spec_host_ip(idx)
    &&& a.client_ip == spec_client_ip(idx)
    &&& a.guest_mac@ == spec_ip_to_mac(spec_client_ip(idx))
    &&& a.tap_name@ == spec_tap_name(idx)
}

/// The tap-plumbing command sequence of an allocation: delete any leftover
/// tap device, create the tap, address it, bring it up, and accept
/// forwarding from it to the host interface.
pub open spec fn spec_allocation_setup_cmds(a: NetworkAllocation, cmds: Seq<Cmd>) -> bool {
    &&& cmds.len() == 5
    &&& cmd_is(cmds[0], "ip"@, seq!["link"@, "del"@, a.tap_name@])
    &&& cmd_is(cmds[1], "ip"@, seq!["tuntap"@, "add"@, "dev"@, a.tap_name@, "mode"@, "tap"@])
    &&& cmd_is(cmds[2], "ip"@, seq![
        "addr"@,
        "add"@,
        spec_ipv4(a.host_ip) + "/"@ + spec_dec_nat(NETWORK_MASK_SHORT as nat),
        "dev"@,
        a.tap_name@,
    ])
    &&& cmd_is(cmds[3], "ip"@, seq!["link"@, "set"@, "dev"@, a.tap_name@, "up"@])
    &&& cmd_is(cmds[4], "iptables"@, seq![
        "-I"@, "FORWARD"@, "1"@, "-i"@, a.tap_name@, "-o"@, a.interface@, "-j"@, "ACCEPT"@,
    ])
}

impl NetworkAllocation {
    /// The allocation of slot `idx` on the given host interface.
    pub fn new(interface: &str, idx: u8) -> (a: NetworkAllocation)
        ensures
            spec_allocation(a, interface@, idx),
    {
        let host_ip = Ipv4Address::new(172, 16, idx, 1);
        let client_ip = Ipv4Address::new(172, 16, idx, 2);
        let guest_mac = ip_to_mac(&client_ip);
        let mut tap_name = String::from_str("tap");
        let idx_str = u8_to_string(idx);
        tap_name.append(idx_str.as_str());
        NetworkAllocation {
            interface: String::from_str(interface),
            host_ip,
            guest_mac,
            client_ip,
            tap_name,
        }
    }

    /// The commands that plumb this allocation into the host, in order:
    /// delete any leftover tap device, create the tap, address it, bring it
    /// up, and accept forwarding from it to the host interface. The shell
    /// that executes them ignores failures: a previously terminated
    /// supervisor may have left rules behind, and re-application is benign.
    pub fn setup(&self) -> (cmds: Vec<Cmd>)
        ensures
            spec_allocation_setup_cmds(*self, cmds@),
    {
        let mut cmds: Vec<Cmd> = Vec::new();

        let mut del = Cmd::new(String::from_str("ip"));
        del.arg(String::from_str("link"));
        del.arg(String::from_str("del"));
        del.arg(String::from_str(self.tap_name.as_str()));
        proof {
            assert(del.args.deep_view() =~= seq!["link"@, "del"@, self.tap_name@]);
        }
        cmds.push(del);

        let mut add = Cmd::new(String::from_str("ip"));
        add.arg(String::from_str("tuntap"));
        add.arg(String::from_str("add"));
        add.arg(String::from_str("dev"));
        add.arg(String::from_str(self.tap_name.as_str()));
        add.arg(String::from_str("mode"));
        add.arg(String::from_str("tap"));
        proof {
            assert(add.args.deep_view() =~= seq![
                "tuntap"@, "add"@, "dev"@, self.tap_name@, "mode"@, "tap"@,
            ]);
        }
        cmds.push(add);

        let mut addr = Cmd::new(String::from_str("ip"));
        addr.arg(String::from_str("addr"));
        addr.arg(String::from_str("add"));
        let mut cidr = self.host_ip.dotted();
        cidr.append("/");
        let mask = u8_to_string(NETWORK_MASK_SHORT);
        cidr.append(mask.as_str());
        proof {
            reveal_strlit("/");
            assert("/"@ =~= seq!['/']);
        }
        addr.arg(cidr);
        addr.arg(String::from_str("dev"));
        addr.arg(String::from_str(self.tap_name.as_str()));
        proof {
            assert(addr.args.deep_view() =~= seq![
                "addr"@,
                "add"@,
                spec_ipv4(self.host_ip) + "/"@ + spec_dec_nat(NETWORK_MASK_SHORT as nat),
                "dev"@,
                self.tap_name@,
            ]);
        }
        cmds.push(addr);

        let mut up = Cmd::new(String::from_str("ip"));
        up.arg(String::from_str("link"));
        up.arg(String::from_str("set"));
        up.arg(String::from_str("dev"));
        up.arg(String::from_str(self.tap_name.as_str()));
        up.arg(String::from_str("up"));
        proof {
            assert(up.args.deep_view() =~= seq![
                "link"@, "set"@, "dev"@, self.tap_name@, "up"@,
            ]);
        }
        cmds.push(up);

        let mut fwd = Cmd::new(String::from_str("iptables"));
        fwd.arg(String::from_str("-I"));
        fwd.arg(String::from_str("FORWARD"));
        fwd.arg(String::from_str("1"));
        fwd.arg(String::from_str("-i"));
        fwd.arg(String::from_str(self.tap_name.as_str()));
        fwd.arg(String::from_str("-o"));
        fwd.arg(String::from_str(self.interface.as_str()));
        fwd.arg(String::from_str("-j"));
        fwd.arg(String::from_str("ACCEPT"));
        proof {
            assert(fwd.args.deep_view() =~= seq![
                "-I"@, "FORWARD"@, "1"@, "-i"@, self.tap_name@, "-o"@, self.interface@, "-j"@,
                "ACCEPT"@,
            ]);
        }
        cmds.push(fwd);

        cmds
    }
}

} // verus!
