//! Host-level forwarding: IPv4 forwarding in the kernel, masquerading for
//! outbound traffic, and acceptance of established flows. Re-applying these
//! rules is treated as benign, so the shell that executes them ignores
//! failures.

use vstd::prelude::*;

use crate::command::Cmd;
use crate::fs::cmd_is;

verus! {

/// The host interface that guest traffic leaves through.
pub struct Forwarding {
    pub interface: String,
}

impl Forwarding {
    /// Forwarding through the named host interface.
    pub fn new(interface: &str) -> (f: Forwarding)
        ensures
            f.interface@ == interface@,
    {
        Forwarding { interface: String::from_str(interface) }
    }

    /// The commands that enable IPv4 forwarding, masquerade outbound guest
    /// traffic on the host interface, and accept established flows, in order.
    pub fn setup(&self) -> (cmds: Vec<Cmd>)
        ensures
            cmds@.len() == 3,
            cmd_is(cmds@[0], "sh"@, seq![
                "-c"@,
                "echo 1 > /proc/sys/net/ipv4/ip_forward"@,
            ]),
            cmd_is(cmds@[1], "iptables"@, seq![
                "-t"@, "nat"@, "-A"@, "POSTROUTING"@, "-o"@, self.interface@, "-j"@,
                "MASQUERADE"@,
            ]),
            cmd_is(cmds@[2], "iptables"@, seq![
                "-I"@, "FORWARD"@, "1"@, "-m"@, "conntrack"@, "--ctstate"@,
                "RELATED,ESTABLISHED"@, "-j"@, "ACCEPT"@,
            ]),
    {
        let mut cmds: Vec<Cmd> = Vec::new();

        let mut enable = Cmd::new(String::from_str("sh"));
        enable.arg(String::from_str("-c"));
        enable.arg(String::from_str("echo 1 > /proc/sys/net/ipv4/ip_forward"));
        proof {
            assert(enable.args.deep_view() =~= seq![
                "-c"@,
                "echo 1 > /proc/sys/net/ipv4/ip_forward"@,
            ]);
        }
        cmds.push(enable);

        let mut masq = Cmd::new(String::from_str("iptables"));
        masq.arg(String::from_str("-t"));
        masq.arg(String::from_str("nat"));
        masq.arg(String::from_str("-A"));
        masq.arg(String::from_str("POSTROUTING"));
        masq.arg(String::from_str("-o"));
        masq.arg(String::from_str(self.interface.as_str()));
        masq.arg(String::from_str("-j"));
        masq.arg(String::from_str("MASQUERADE"));
        proof {
            assert(masq.args.deep_view() =~= seq![
                "-t"@, "nat"@, "-A"@, "POSTROUTING"@, "-o"@, self.interface@, "-j"@,
                "MASQUERADE"@,
            ]);
        }
        cmds.push(masq);

        let mut fwd = Cmd::new(String::from_str("iptables"));
        fwd.arg(String::from_str("-I"));
        fwd.arg(String::from_str("FORWARD"));
        fwd.arg(String::from_str("1"));
        fwd.arg(String::from_str("-m"));
        fwd.arg(String::from_str("conntrack"));
        fwd.arg(String::from_str("--ctstate"));
        fwd.arg(String::from_str("RELATED,ESTABLISHED"));
        fwd.arg(String::from_str("-j"));
        fwd.arg(String::from_str("ACCEPT"));
        proof {
            assert(fwd.args.deep_view() =~= seq![
                "-I"@, "FORWARD"@, "1"@, "-m"@, "conntrack"@, "--ctstate"@,
                "RELATED,ESTABLISHED"@, "-j"@, "ACCEPT"@,
            ]);
        }
        cmds.push(fwd);

        cmds
    }
}

} // verus!
