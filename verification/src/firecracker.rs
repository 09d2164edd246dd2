//! The hypervisor launch document. The supervisor writes it to `config.json`
//! in each instance's work directory; its exact serialized form — kebab-cased
//! top-level keys, snake-cased inner keys, drives and network interfaces in
//! declaration order — is rendered by the library and proved character for
//! character.

use vstd::prelude::*;

use crate::json::{json_string, spec_json_string};
use crate::strutil::{lemma_join_push, spec_dec_nat, spec_join, u32_to_string};

verus! {

/// Where the guest kernel comes from and what command line it boots with.
pub struct BootSource {
    pub kernel_image_path: String,
    pub boot_args: String,
}

/// One block device handed to the guest.
pub struct Drive {
    pub drive_id: String,
    pub path_on_host: String,
    pub is_root_device: bool,
    pub is_read_only: bool,
    pub cache_type: Option<String>,
}

/// One guest network interface, bound to a host tap device.
pub struct NetworkInterface {
    pub iface_id: String,
    pub guest_mac: String,
    pub host_dev_name: String,
}

/// The guest machine's dimensions.
pub struct MachineConfig {
    pub vcpu_count: u32,
    pub mem_size_mib: u32,
}

/// The whole launch document.
pub struct FirecrackerConfig {
    pub boot_source: BootSource,
    pub drives: Vec<Drive>,
    pub network_interfaces: Vec<NetworkInterface>,
    pub machine_config: MachineConfig,
}

/// A boolean as a JSON value.
pub open spec fn spec_json_bool(b: bool) -> Seq<char> {
    if b {
        "true"@
    } else {
        "false"@
    }
}

/// The JSON form of the boot source.
pub open spec fn spec_boot_source_json(b: BootSource) -> Seq<char> {
    "{\"kernel_image_path\":"@ + spec_json_string(b.kernel_image_path@) + ",\"boot_args\":"@
        + spec_json_string(b.boot_args@) + "}"@
}

/// The JSON form of one drive; an absent cache type is omitted.
pub open spec fn spec_drive_json(d: Drive) -> Seq<char> {
    "{\"drive_id\":"@ + spec_json_string(d.drive_id@) + ",\"path_on_host\":"@ + spec_json_string(
        d.path_on_host@,
    ) + ",\"is_root_device\":"@ + spec_json_bool(d.is_root_device) + ",\"is_read_only\":"@
        + spec_json_bool(d.is_read_only) + (match d.cache_type {
        Some(ct) => ",\"cache_type\":"@ + spec_json_string(ct@),
        None => Seq::<char>::empty(),
    }) + "}"@
}

/// The JSON form of one network interface.
pub open spec fn spec_network_interface_json(n: NetworkInterface) -> Seq<char> {
    "{\"iface_id\":"@ + spec_json_string(n.iface_id@) + ",\"guest_mac\":"@ + spec_json_string(
        n.guest_mac@,
    ) + ",\"host_dev_name\":"@ + spec_json_string(n.host_dev_name@) + "}"@
}

/// The JSON form of the machine dimensions.
pub open spec fn spec_machine_config_json(m: MachineConfig) -> Seq<char> {
    "{\"vcpu_count\":"@ + spec_dec_nat(m.vcpu_count as nat) + ",\"mem_size_mib\":"@ + spec_dec_nat(
        m.mem_size_mib as nat,
    ) + "}"@
}

/// The JSON form of the whole document.
pub open spec fn spec_firecracker_json(c: FirecrackerConfig) -> Seq<char> {
    "{\"boot-source\":"@ + spec_boot_source_json(c.boot_source) + ",\"drives\":["@ + spec_join(
        c.drives@.map_values(|d: Drive| spec_drive_json(d)),
        seq![','],
    ) + "],\"network-interfaces\":["@ + spec_join(
        c.network_interfaces@.map_values(|n: NetworkInterface| spec_network_interface_json(n)),
        seq![','],
    ) + "],\"machine-config\":"@ + spec_machine_config_json(c.machine_config) + "}"@
}

fn json_bool_str(b: bool) -> (r: &'static str)
    ensures
        r@ == spec_json_bool(b),
{
    if b {
        "true"
    } else {
        "false"
    }
}

impl BootSource {
    /// Render the boot source as JSON.
    pub fn to_json(&self) -> (r: String)
        ensures
            r@ == spec_boot_source_json(*self),
    {
        let mut r = String::from_str("{\"kernel_image_path\":");
        let kernel = json_string(self.kernel_image_path.as_str());
        r.append(kernel.as_str());
        r.append(",\"boot_args\":");
        let args = json_string(self.boot_args.as_str());
        r.append(args.as_str());
        r.append("}");
        r
    }
}

impl Drive {
    /// Render one drive as JSON.
    pub fn to_json(&self) -> (r: String)
        ensures
            r@ == spec_drive_json(*self),
    {
        let mut r = String::from_str("{\"drive_id\":");
        let id = json_string(self.drive_id.as_str());
        r.append(id.as_str());
        r.append(",\"path_on_host\":");
        let path = json_string(self.path_on_host.as_str());
        r.append(path.as_str());
        r.append(",\"is_root_device\":");
        r.append(json_bool_str(self.is_root_device));
        r.append(",\"is_read_only\":");
        r.append(json_bool_str(self.is_read_only));
        match &self.cache_type {
            Some(ct) => {
                r.append(",\"cache_type\":");
                let ct_json = json_string(ct.as_str());
                r.append(ct_json.as_str());
            },
            None => {},
        }
        r.append("}");
        proof {
            assert(r@ =~= spec_drive_json(*self));
        }
        r
    }
}

impl NetworkInterface {
    /// Render one network interface as JSON.
    pub fn to_json(&self) -> (r: String)
        ensures
            r@ == spec_network_interface_json(*self),
    {
        let mut r = String::from_str("{\"iface_id\":");
        let id = json_string(self.iface_id.as_str());
        r.append(id.as_str());
        r.append(",\"guest_mac\":");
        let mac = json_string(self.guest_mac.as_str());
        r.append(mac.as_str());
        r.append(",\"host_dev_name\":");
        let dev = json_string(self.host_dev_name.as_str());
        r.append(dev.as_str());
        r.append("}");
        r
    }
}

impl MachineConfig {
    /// Render the machine dimensions as JSON.
    pub fn to_json(&self) -> (r: String)
        ensures
            r@ == spec_machine_config_json(*self),
    {
        let mut r = String::from_str("{\"vcpu_count\":");
        let vcpus = u32_to_string(self.vcpu_count);
        r.append(vcpus.as_str());
        r.append(",\"mem_size_mib\":");
        let mem = u32_to_string(self.mem_size_mib);
        r.append(mem.as_str());
        r.append("}");
        r
    }
}

fn join_rendered(items: Vec<String>, expected: Ghost<Seq<Seq<char>>>) -> (r: String)
    requires
        items.deep_view() == expected@,
    ensures
        r@ == spec_join(expected@, seq![',']),
{
    let mut r = String::new();
    let mut i: usize = 0;
    if items.len() == 0 {
        return r;
    }
    r.append(items[0].as_str());
    i = 1;
    proof {
        assert(r@ =~= spec_join(items.deep_view().take(1), seq![',']));
    }
    while i < items.len()
        invariant
            1 <= i <= items@.len(),
            items.deep_view() == expected@,
            r@ == spec_join(items.deep_view().take(i as int), seq![',']),
        decreases items@.len() - i,
    {
        r.append(",");
        proof {
            reveal_strlit(",");
            assert(","@ =~= seq![',']);
        }
        r.append(items[i].as_str());
        proof {
            let views = items.deep_view();
            lemma_join_push(views.take(i as int), views[i as int], seq![',']);
            assert(views.take(i + 1) =~= views.take(i as int).push(views[i as int]));
        }
        i += 1;
    }
    proof {
        assert(items.deep_view().take(items@.len() as int) =~= items.deep_view());
    }
    r
}

impl FirecrackerConfig {
    /// Render the whole document as JSON, exactly as it is written to
    /// `config.json`.
    pub fn to_json(&self) -> (r: String)
        ensures
            r@ == spec_firecracker_json(*self),
    {
        let mut r = String::from_str("{\"boot-source\":");
        let boot = self.boot_source.to_json();
        r.append(boot.as_str());
        r.append(",\"drives\":[");

        let mut drive_parts: Vec<String> = Vec::new();
        let mut i: usize = 0;
        while i < self.drives.len()
            invariant
                i <= self.drives@.len(),
                drive_parts.deep_view() =~= self.drives@.take(i as int).map_values(
                    |d: Drive| spec_drive_json(d),
                ),
            decreases self.drives@.len() - i,
        {
            let part = self.drives[i].to_json();
            let ghost pre = drive_parts.deep_view();
            drive_parts.push(part);
            proof {
                assert(drive_parts.deep_view() =~= pre.push(part@));
                assert(drive_parts.deep_view() =~= self.drives@.take(i + 1).map_values(
                    |d: Drive| spec_drive_json(d),
                ));
            }
            i += 1;
        }
        proof {
            assert(self.drives@.take(self.drives@.len() as int) =~= self.drives@);
        }
        let drives_json = join_rendered(
            drive_parts,
            Ghost(self.drives@.map_values(|d: Drive| spec_drive_json(d))),
        );
        r.append(drives_json.as_str());
        r.append("],\"network-interfaces\":[");

        let mut nic_parts: Vec<String> = Vec::new();
        let mut j: usize = 0;
        while j < self.network_interfaces.len()
            invariant
                j <= self.network_interfaces@.len(),
                nic_parts.deep_view() =~= self.network_interfaces@.take(j as int).map_values(
                    |n: NetworkInterface| spec_network_interface_json(n),
                ),
            decreases self.network_interfaces@.len() - j,
        {
            let part = self.network_interfaces[j].to_json();
            let ghost pre = nic_parts.deep_view();
            nic_parts.push(part);
            proof {
                assert(nic_parts.deep_view() =~= pre.push(part@));
                assert(nic_parts.deep_view() =~= self.network_interfaces@.take(j + 1).map_values(
                    |n: NetworkInterface| spec_network_interface_json(n),
                ));
            }
            j += 1;
        }
        proof {
            assert(self.network_interfaces@.take(self.network_interfaces@.len() as int)
                =~= self.network_interfaces@);
        }
        let nics_json = join_rendered(
            nic_parts,
            Ghost(
                self.network_interfaces@.map_values(
                    |n: NetworkInterface| spec_network_interface_json(n),
                ),
            ),
        );
        r.append(nics_json.as_str());
        r.append("],\"machine-config\":");
        let machine = self.machine_config.to_json();
        r.append(machine.as_str());
        r.append("}");
        r
    }
}

} // verus!
