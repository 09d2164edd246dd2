//! One managed instance: its identity, the artifacts staged for each start
//! (rootfs clone, scratch disk, hypervisor config document), the assembled
//! boot arguments, and the lifecycle state machine. Process handles live in
//! the shell; the library's state machine consumes the shell's poll results
//! as plain values.

use vstd::prelude::*;

use crate::allocation::{spec_allocation_setup_cmds, NetworkAllocation};
use crate::command::Cmd;
use crate::config::DEFAULT_BOOT_ARGS;
use crate::disk::{spec_disk_setup_cmds, Disk, DiskFormat};
use crate::firecracker::{
    spec_firecracker_json, BootSource, Drive, FirecrackerConfig, MachineConfig, NetworkInterface,
};
use crate::fs::{cmd_is, copy_sparse, mkdir_p, rm_rf};
use crate::github::GitHub;
use crate::json::spec_json_string;
use crate::manager_config::{lower_of, Role};
use crate::strutil::{
    clone_strings, join_strings, lemma_contains_sub_prefix, lemma_join_contains_part,
    lemma_join_starts_with_first, path_join, spec_contains_sub, spec_dec_nat, spec_join,
    spec_path_join, spec_starts_with, u8_to_string,
};

use rand::distr::{Alphanumeric, SampleString};

verus! {

/// The lifecycle state of one instance, as the fleet loop observes it.
#[derive(Clone, Copy, PartialEq, Eq, Structural, Debug)]
pub enum InstanceState {
    NotStarted,
    Running,
    NotRunning,
    Errorred,
}

/// What polling the hypervisor child process reported: no child exists, the
/// child still runs, the child exited with a status code, or the poll itself
/// failed.
#[derive(Clone, Copy, PartialEq, Eq, Structural, Debug)]
pub enum ChildPoll {
    NoChild,
    StillRunning,
    Exited(i32),
    PollError,
}

/// One running or restartable instance. The child-process handle is owned by
/// the shell that spawns the hypervisor; everything here is plain data.
pub struct Instance {
    pub network_allocation: NetworkAllocation,
    pub work_dir: String,
    pub kernel_image: String,
    pub kernel_cmdline: Option<String>,
    pub rootfs_image: String,
    pub cpus: u32,
    pub memory_size: u32,
    pub cache_paths: Vec<String>,
    pub cache: Disk,
    pub idx: u8,
    pub role: String,
    pub github: GitHub,
    pub labels: Vec<String>,
}

/// An ASCII alphanumeric character.
pub open spec fn spec_is_alphanumeric(c: char) -> bool {
    ('0' <= c <= '9') || ('a' <= c <= 'z') || ('A' <= c <= 'Z')
}

/// A valid runner-name suffix: four alphanumeric characters.
pub open spec fn spec_is_suffix(s: Seq<char>) -> bool {
    s.len() == 4 && (forall|i: int| 0 <= i < s.len() ==> spec_is_alphanumeric(#[trigger] s[i]))
}

/// Relies on rand's `Alphanumeric` distribution through `SampleString`:
/// sampling a string of length four appends exactly four bytes drawn from
/// the ASCII alphanumeric alphabet.
#[verifier::external_body]
fn random_suffix() -> (s: String)
    ensures
        spec_is_suffix(s@),
{
    Alphanumeric.sample_string(&mut rand::rng(), 4)
}

/// The runner name of an instance under a given suffix:
/// `<role>-<slot>-<suffix>`.
pub open spec fn spec_name(inst: Instance, suffix: Seq<char>) -> Seq<char> {
    inst.role@ + "-"@ + spec_dec_nat(inst.idx as nat) + "-"@ + suffix
}

/// The labels an instance advertises: the user-declared labels, in order,
/// with the role slug appended.
pub open spec fn spec_emitted_labels(inst: Instance) -> Seq<Seq<char>> {
    inst.labels.deep_view().push(inst.role@)
}

/// The advertised labels joined by commas.
pub open spec fn spec_labels(inst: Instance) -> Seq<char> {
    spec_join(spec_emitted_labels(inst), seq![','])
}

/// The ordered parts of the boot-argument line: the default arguments, the
/// freshly minted registration token, the organisation, the cache paths when
/// any are declared, the role's override when present, then the runner name
/// and labels.
pub open spec fn spec_boot_arg_parts(
    inst: Instance,
    token: Seq<char>,
    runner_name: Seq<char>,
) -> Seq<Seq<char>> {
    let base = seq![
        DEFAULT_BOOT_ARGS@,
        "github_token="@ + token,
        "github_org="@ + inst.github.org@,
    ];
    let with_cache = if inst.cache_paths@.len() > 0 {
        base.push(
            "cache_paths=\""@ + spec_join(inst.cache_paths.deep_view(), seq![',']) + "\""@,
        )
    } else {
        base
    };
    let with_override = match inst.kernel_cmdline {
        Some(cmdline) => with_cache.push(cmdline@),
        None => with_cache,
    };
    with_override + seq![
        "github_runner_name="@ + runner_name,
        "github_runner_labels="@ + spec_labels(inst),
    ]
}

/// The assembled boot-argument line: the parts joined by single spaces.
pub open spec fn spec_boot_args(inst: Instance, token: Seq<char>, runner_name: Seq<char>) -> Seq<
    char,
> {
    spec_join(spec_boot_arg_parts(inst, token, runner_name), seq![' '])
}

/// Whether an instance carries exactly the data that `work_dir`, `role` and
/// `idx` determine, with `cmdline` as its kernel command line.
pub open spec fn spec_instance_core(
    inst: Instance,
    work_dir: Seq<char>,
    role: Role,
    idx: u8,
    cmdline: Option<Seq<char>>,
) -> bool {
    &&& inst.work_dir@ == spec_path_join(
        spec_path_join(work_dir, lower_of(role.name@)),
        spec_dec_nat(idx as nat),
    )
    &&& inst.kernel_image@ == role.kernel_image@
    &&& inst.kernel_cmdline.deep_view() == cmdline
    &&& inst.rootfs_image@ == role.rootfs_image@
    &&& inst.cpus == role.cpus
    &&& inst.memory_size == role.memory_size
    &&& inst.cache_paths.deep_view() == role.cache_paths.deep_view()
    &&& inst.cache.path@ == inst.work_dir@
    &&& inst.cache.name@ == "cache"@
    &&& inst.cache.size == role.cache_size
    &&& inst.cache.format == DiskFormat::Ext4
    &&& inst.idx == idx
    &&& inst.role@ == lower_of(role.name@)
    &&& inst.labels.deep_view() == role.labels.deep_view()
}

impl Instance {
    /// An instance of `role` in slot `idx`, working under
    /// `<work_dir>/<role slug>/<idx>/`, with a cache disk of the role's
    /// declared size beside its rootfs clone.
    pub fn new(
        network_allocation: NetworkAllocation,
        github: GitHub,
        work_dir: &str,
        role: &Role,
        idx: u8,
    ) -> (inst: Instance)
        ensures
            inst.network_allocation == network_allocation,
            inst.github == github,
            spec_instance_core(inst, work_dir@, *role, idx, role.kernel_cmdline.deep_view()),
    {
        let slug = role.slug();
        let with_slug = path_join(work_dir, slug.as_str());
        let idx_str = u8_to_string(idx);
        let instance_dir = path_join(with_slug.as_str(), idx_str.as_str());
        let cache = Disk::new(instance_dir.as_str(), "cache", role.cache_size, DiskFormat::Ext4);
        let kernel_cmdline: Option<String> = match &role.kernel_cmdline {
            Some(cmdline) => Some(String::from_str(cmdline.as_str())),
            None => None,
        };
        Instance {
            network_allocation,
            work_dir: instance_dir,
            kernel_image: String::from_str(role.kernel_image.as_str()),
            kernel_cmdline,
            rootfs_image: String::from_str(role.rootfs_image.as_str()),
            cpus: role.cpus,
            memory_size: role.memory_size,
            cache_paths: clone_strings(&role.cache_paths),
            cache,
            idx,
            role: slug,
            github,
            labels: clone_strings(&role.labels),
        }
    }

    /// The tag in front of this instance's diagnostic lines.
    pub fn log_prefix(&self) -> (s: String)
        ensures
            s@ == "["@ + self.role@ + " "@ + spec_dec_nat(self.idx as nat) + "]"@,
    {
        let mut s = String::from_str("[");
        s.append(self.role.as_str());
        s.append(" ");
        let idx = u8_to_string(self.idx);
        s.append(idx.as_str());
        s.append("]");
        s
    }

    /// A fresh runner name: the role, the slot, and four random alphanumeric
    /// characters, so that successive registrations of one slot stay
    /// distinguishable.
    pub fn name(&self) -> (s: String)
        ensures
            exists|suffix: Seq<char>|
                spec_is_suffix(suffix) && s@ == spec_name(*self, suffix),
    {
        let mut s = String::from_str(self.role.as_str());
        s.append("-");
        let idx = u8_to_string(self.idx);
        s.append(idx.as_str());
        s.append("-");
        let suffix = random_suffix();
        s.append(suffix.as_str());
        proof {
            assert(spec_is_suffix(suffix@) && s@ == spec_name(*self, suffix@));
        }
        s
    }

    /// The comma-joined labels this instance advertises.
    pub fn labels(&self) -> (s: String)
        ensures
            s@ == spec_labels(*self),
    {
        let mut labels = clone_strings(&self.labels);
        labels.push(String::from_str(self.role.as_str()));
        proof {
            assert(labels.deep_view() =~= spec_emitted_labels(*self));
            reveal_strlit(",");
            assert(","@ =~= seq![',']);
        }
        join_strings(&labels, ",")
    }

    /// The boot-argument line under a caller-supplied runner name.
    pub fn boot_args_with_name(&self, token: &str, runner_name: &str) -> (s: String)
        ensures
            s@ == spec_boot_args(*self, token@, runner_name@),
    {
        let mut parts: Vec<String> = Vec::new();
        parts.push(String::from_str(DEFAULT_BOOT_ARGS));

        let mut token_part = String::from_str("github_token=");
        token_part.append(token);
        parts.push(token_part);

        let mut org_part = String::from_str("github_org=");
        org_part.append(self.github.org.as_str());
        parts.push(org_part);

        let ghost base = parts.deep_view();
        proof {
            assert(base =~= seq![
                DEFAULT_BOOT_ARGS@,
                "github_token="@ + token@,
                "github_org="@ + self.github.org@,
            ]);
        }

        if self.cache_paths.len() > 0 {
            let mut cache_part = String::from_str("cache_paths=\"");
            let joined = join_strings(&self.cache_paths, ",");
            cache_part.append(joined.as_str());
            cache_part.append("\"");
            proof {
                reveal_strlit(",");
                assert(","@ =~= seq![',']);
            }
            parts.push(cache_part);
        }
        let ghost with_cache = parts.deep_view();

        match &self.kernel_cmdline {
            Some(cmdline) => {
                parts.push(String::from_str(cmdline.as_str()));
            },
            None => {},
        }
        let ghost with_override = parts.deep_view();

        let mut name_part = String::from_str("github_runner_name=");
        name_part.append(runner_name);
        parts.push(name_part);

        let mut labels_part = String::from_str("github_runner_labels=");
        let labels = self.labels();
        labels_part.append(labels.as_str());
        parts.push(labels_part);

        proof {
            assert(parts.deep_view() =~= spec_boot_arg_parts(*self, token@, runner_name@));
            reveal_strlit(" ");
            assert(" "@ =~= seq![' ']);
        }
        join_strings(&parts, " ")
    }

    /// The boot-argument line with a freshly drawn runner name. The token is
    /// handed in by the caller, which mints it immediately beforehand:
    /// registration tokens expire, so they are never minted at setup time.
    pub fn boot_args(&self, token: &str) -> (s: String)
        ensures
            exists|suffix: Seq<char>|
                spec_is_suffix(suffix) && s@ == spec_boot_args(
                    *self,
                    token@,
                    spec_name(*self, suffix),
                ),
    {
        let runner_name = self.name();
        let s = self.boot_args_with_name(token, runner_name.as_str());
        proof {
            let suffix = choose|suffix: Seq<char>|
                spec_is_suffix(suffix) && runner_name@ == spec_name(*self, suffix);
            assert(spec_is_suffix(suffix) && s@ == spec_boot_args(
                *self,
                token@,
                spec_name(*self, suffix),
            ));
        }
        s
    }
}

/// The exact text of an instance's `config.json` under a given token and
/// runner name: the hypervisor launch document with the rootfs clone as the
/// root drive, the scratch disk as the second drive, the single provisioned
/// network interface, and the machine dimensions (the declared memory size
/// multiplied by 1024, preserved verbatim from the configuration's unit
/// convention).
pub open spec fn spec_config_json(inst: Instance, token: Seq<char>, runner_name: Seq<char>) -> Seq<
    char,
> {
    "{\"boot-source\":"@ + ("{\"kernel_image_path\":"@ + spec_json_string(inst.kernel_image@)
        + ",\"boot_args\":"@ + spec_json_string(spec_boot_args(inst, token, runner_name)) + "}"@)
        + ",\"drives\":["@ + ("{\"drive_id\":"@ + spec_json_string("rootfs"@)
        + ",\"path_on_host\":"@ + spec_json_string(
        spec_path_join(inst.work_dir@, "rootfs.ext4"@),
    ) + ",\"is_root_device\":"@ + "true"@ + ",\"is_read_only\":"@ + "false"@ + "}"@) + seq![',']
        + ("{\"drive_id\":"@ + spec_json_string("cache"@) + ",\"path_on_host\":"@
        + spec_json_string(spec_path_join(inst.cache.path@, inst.cache.name@ + ".ext4"@))
        + ",\"is_root_device\":"@ + "false"@ + ",\"is_read_only\":"@ + "false"@ + "}"@)
        + "],\"network-interfaces\":["@ + ("{\"iface_id\":"@ + spec_json_string("eth0"@)
        + ",\"guest_mac\":"@ + spec_json_string(inst.network_allocation.guest_mac@)
        + ",\"host_dev_name\":"@ + spec_json_string(inst.network_allocation.tap_name@) + "}"@)
        + "],\"machine-config\":"@ + ("{\"vcpu_count\":"@ + spec_dec_nat(inst.cpus as nat)
        + ",\"mem_size_mib\":"@ + spec_dec_nat(inst.memory_size as nat * 1024) + "}"@) + "}"@
}

/// The artifacts staged for one start: the commands that refresh the rootfs
/// clone, and the path and exact contents of the hypervisor config document.
pub struct SetupRunPlan {
    pub commands: Vec<Cmd>,
    pub config_path: String,
    pub config_contents: String,
}

/// The hypervisor invocation, spawned with the instance work directory as
/// its current directory.
pub fn firecracker_command() -> (c: Cmd)
    ensures
        cmd_is(c, "firecracker"@, seq!["--config-file"@, "config.json"@, "--no-api"@]),
{
    let mut c = Cmd::new(String::from_str("firecracker"));
    c.arg(String::from_str("--config-file"));
    c.arg(String::from_str("config.json"));
    c.arg(String::from_str("--no-api"));
    proof {
        assert(c.args.deep_view() =~= seq!["--config-file"@, "config.json"@, "--no-api"@]);
    }
    c
}

impl Instance {
    /// The lifecycle state under a poll result: no child means the instance
    /// has not been started, a running child means it runs, a clean exit
    /// means it stopped and may be restarted, and a non-zero exit or a failed
    /// poll means it errored.
    pub fn state(&self, poll: &ChildPoll) -> (s: InstanceState)
        ensures
            s == spec_state(*poll),
    {
        match poll {
            ChildPoll::NoChild => InstanceState::NotStarted,
            ChildPoll::StillRunning => InstanceState::Running,
            ChildPoll::Exited(status) => {
                if *status == 0 {
                    InstanceState::NotRunning
                } else {
                    InstanceState::Errorred
                }
            },
            ChildPoll::PollError => InstanceState::Errorred,
        }
    }

    /// The commands that prepare this instance once, at supervisor setup:
    /// create its work directory, plumb its tap device, and create its
    /// scratch disk.
    pub fn setup(&self) -> (cmds: Vec<Cmd>)
        ensures
            cmds@.len() == 8,
            cmd_is(cmds@[0], "mkdir"@, seq!["-p"@, self.work_dir@]),
            spec_allocation_setup_cmds(self.network_allocation, cmds@.subrange(1, 6)),
            spec_disk_setup_cmds(self.cache, cmds@.subrange(6, 8)),
    {
        let mut cmds: Vec<Cmd> = Vec::new();
        cmds.push(mkdir_p(self.work_dir.as_str()));
        let mut net = self.network_allocation.setup();
        let ghost net_cmds = net@;
        cmds.append(&mut net);
        let mut disk = self.cache.setup();
        let ghost disk_cmds = disk@;
        cmds.append(&mut disk);
        proof {
            assert(cmds@.subrange(1, 6) =~= net_cmds);
            assert(cmds@.subrange(6, 8) =~= disk_cmds);
        }
        cmds
    }

    /// The launch document for this instance under a caller-supplied token
    /// and runner name.
    pub fn config(&self, token: &str, runner_name: &str) -> (c: FirecrackerConfig)
        requires
            self.memory_size <= u32::MAX / 1024,
        ensures
            c.boot_source.kernel_image_path@ == self.kernel_image@,
            c.boot_source.boot_args@ == spec_boot_args(*self, token@, runner_name@),
            c.drives@.len() == 2,
            c.drives@[0].drive_id@ == "rootfs"@,
            c.drives@[0].path_on_host@ == spec_path_join(self.work_dir@, "rootfs.ext4"@),
            c.drives@[0].is_root_device,
            !c.drives@[0].is_read_only,
            c.drives@[0].cache_type is None,
            c.drives@[1].drive_id@ == "cache"@,
            c.drives@[1].path_on_host@ == spec_path_join(
                self.cache.path@,
                self.cache.name@ + ".ext4"@,
            ),
            !c.drives@[1].is_root_device,
            !c.drives@[1].is_read_only,
            c.drives@[1].cache_type is None,
            c.network_interfaces@.len() == 1,
            c.network_interfaces@[0].iface_id@ == "eth0"@,
            c.network_interfaces@[0].guest_mac@ == self.network_allocation.guest_mac@,
            c.network_interfaces@[0].host_dev_name@ == self.network_allocation.tap_name@,
            c.machine_config.vcpu_count == self.cpus,
            c.machine_config.mem_size_mib == self.memory_size * 1024,
    {
        let boot_source = BootSource {
            kernel_image_path: String::from_str(self.kernel_image.as_str()),
            boot_args: self.boot_args_with_name(token, runner_name),
        };

        let mut drives: Vec<Drive> = Vec::new();
        drives.push(
            Drive {
                drive_id: String::from_str("rootfs"),
                path_on_host: path_join(self.work_dir.as_str(), "rootfs.ext4"),
                is_root_device: true,
                is_read_only: false,
                cache_type: None,
            },
        );
        drives.push(
            Drive {
                drive_id: String::from_str("cache"),
                path_on_host: self.cache.path_with_filename(),
                is_root_device: false,
                is_read_only: false,
                cache_type: None,
            },
        );

        let mut network_interfaces: Vec<NetworkInterface> = Vec::new();
        network_interfaces.push(
            NetworkInterface {
                iface_id: String::from_str("eth0"),
                guest_mac: String::from_str(self.network_allocation.guest_mac.as_str()),
                host_dev_name: String::from_str(self.network_allocation.tap_name.as_str()),
            },
        );

        let machine_config = MachineConfig {
            vcpu_count: self.cpus,
            mem_size_mib: self.memory_size * 1024,
        };

        FirecrackerConfig { boot_source, drives, network_interfaces, machine_config }
    }

    /// The artifacts staged for one start: wipe and recreate the rootfs
    /// clone from the role's image, and write a freshly assembled launch
    /// document. The document is assembled per start because the token it
    /// embeds has a bounded lifetime.
    pub fn setup_run(&self, token: &str, runner_name: &str) -> (plan: SetupRunPlan)
        requires
            self.memory_size <= u32::MAX / 1024,
        ensures
            plan.commands@.len() == 2,
            cmd_is(plan.commands@[0], "rm"@, seq![
                "-rf"@,
                spec_path_join(self.work_dir@, "rootfs.ext4"@),
            ]),
            cmd_is(plan.commands@[1], "cp"@, seq![
                "--sparse=always"@,
                self.rootfs_image@,
                spec_path_join(self.work_dir@, "rootfs.ext4"@),
            ]),
            plan.config_path@ == spec_path_join(self.work_dir@, "config.json"@),
            plan.config_contents@ == spec_config_json(*self, token@, runner_name@),
    {
        let rootfs_clone = path_join(self.work_dir.as_str(), "rootfs.ext4");
        let mut commands: Vec<Cmd> = Vec::new();
        commands.push(rm_rf(rootfs_clone.as_str()));
        commands.push(copy_sparse(self.rootfs_image.as_str(), rootfs_clone.as_str()));

        let config = self.config(token, runner_name);
        let config_contents = config.to_json();
        proof {
            lemma_config_json(*self, config, token@, runner_name@);
        }
        let config_path = path_join(self.work_dir.as_str(), "config.json");
        SetupRunPlan { commands, config_path, config_contents }
    }

    /// The command that removes this instance's work directory.
    pub fn cleanup(&self) -> (c: Cmd)
        ensures
            cmd_is(c, "rm"@, seq!["-rf"@, self.work_dir@]),
    {
        rm_rf(self.work_dir.as_str())
    }
}

/// The lifecycle state determined by a poll result.
pub open spec fn spec_state(poll: ChildPoll) -> InstanceState {
    match poll {
        ChildPoll::NoChild => InstanceState::NotStarted,
        ChildPoll::StillRunning => InstanceState::Running,
        ChildPoll::Exited(status) => if status == 0 {
            InstanceState::NotRunning
        } else {
            InstanceState::Errorred
        },
        ChildPoll::PollError => InstanceState::Errorred,
    }
}

/// The rendered launch document of a config built for `inst` is the exact
/// text `spec_config_json` describes.
proof fn lemma_config_json(
    inst: Instance,
    c: FirecrackerConfig,
    token: Seq<char>,
    runner_name: Seq<char>,
)
    requires
        c.boot_source.kernel_image_path@ == inst.kernel_image@,
        c.boot_source.boot_args@ == spec_boot_args(inst, token, runner_name),
        c.drives@.len() == 2,
        c.drives@[0].drive_id@ == "rootfs"@,
        c.drives@[0].path_on_host@ == spec_path_join(inst.work_dir@, "rootfs.ext4"@),
        c.drives@[0].is_root_device,
        !c.drives@[0].is_read_only,
        c.drives@[0].cache_type is None,
        c.drives@[1].drive_id@ == "cache"@,
        c.drives@[1].path_on_host@ == spec_path_join(
            inst.cache.path@,
            inst.cache.name@ + ".ext4"@,
        ),
        !c.drives@[1].is_root_device,
        !c.drives@[1].is_read_only,
        c.drives@[1].cache_type is None,
        c.network_interfaces@.len() == 1,
        c.network_interfaces@[0].iface_id@ == "eth0"@,
        c.network_interfaces@[0].guest_mac@ == inst.network_allocation.guest_mac@,
        c.network_interfaces@[0].host_dev_name@ == inst.network_allocation.tap_name@,
        c.machine_config.vcpu_count == inst.cpus,
        c.machine_config.mem_size_mib == inst.memory_size * 1024,
    ensures
        spec_firecracker_json(c) == spec_config_json(inst, token, runner_name),
{
    let drive_jsons = c.drives@.map_values(|d: Drive| crate::firecracker::spec_drive_json(d));
    assert(drive_jsons.len() == 2);
    assert(drive_jsons.drop_first() =~= seq![drive_jsons[1]]);
    assert(spec_join(seq![drive_jsons[1]], seq![',']) == drive_jsons[1]);
    assert(spec_join(drive_jsons, seq![',']) == drive_jsons[0] + seq![','] + drive_jsons[1]);
    let nic_jsons = c.network_interfaces@.map_values(
        |n: NetworkInterface| crate::firecracker::spec_network_interface_json(n),
    );
    assert(nic_jsons.len() == 1);
    assert(spec_join(nic_jsons, seq![' ']) == nic_jsons[0]);
    assert(spec_join(nic_jsons, seq![',']) == nic_jsons[0]);
    assert(spec_firecracker_json(c) =~= spec_config_json(inst, token, runner_name));
}

// ---------------------------------------------------------------------------
// Laws of the assembled boot arguments and labels
// ---------------------------------------------------------------------------

/// The assembled boot arguments always begin with the default argument
/// string; always contain the token, organisation, runner-name and labels
/// assignments; contain a cache-paths assignment whenever the instance
/// declares cache paths; and contain the role's override whenever one is
/// present.
pub proof fn lemma_boot_args_composition(inst: Instance, token: Seq<char>, runner_name: Seq<char>)
    ensures
        spec_starts_with(spec_boot_args(inst, token, runner_name), DEFAULT_BOOT_ARGS@),
        spec_contains_sub(spec_boot_args(inst, token, runner_name), "github_token="@),
        spec_contains_sub(spec_boot_args(inst, token, runner_name), "github_org="@),
        spec_contains_sub(spec_boot_args(inst, token, runner_name), "github_runner_name="@),
        spec_contains_sub(spec_boot_args(inst, token, runner_name), "github_runner_labels="@),
        inst.cache_paths@.len() > 0 ==> spec_contains_sub(
            spec_boot_args(inst, token, runner_name),
            "cache_paths=\""@,
        ),
        inst.kernel_cmdline matches Some(cmdline) ==> spec_contains_sub(
            spec_boot_args(inst, token, runner_name),
            cmdline@,
        ),
{
    let parts = spec_boot_arg_parts(inst, token, runner_name);
    let joined = spec_boot_args(inst, token, runner_name);
    let sep = seq![' '];
    let n = parts.len();
    assert(parts[0] == DEFAULT_BOOT_ARGS@);
    lemma_join_starts_with_first(parts, sep);

    assert(parts[1] == "github_token="@ + token);
    lemma_join_contains_part(parts, sep, 1);
    assert(("github_token="@ + token).subrange(0, "github_token="@.len() as int)
        =~= "github_token="@);
    lemma_contains_sub_prefix(joined, parts[1], "github_token="@);

    assert(parts[2] == "github_org="@ + inst.github.org@);
    lemma_join_contains_part(parts, sep, 2);
    assert(("github_org="@ + inst.github.org@).subrange(0, "github_org="@.len() as int)
        =~= "github_org="@);
    lemma_contains_sub_prefix(joined, parts[2], "github_org="@);

    assert(parts[n - 2] == "github_runner_name="@ + runner_name);
    lemma_join_contains_part(parts, sep, n - 2);
    assert(("github_runner_name="@ + runner_name).subrange(
        0,
        "github_runner_name="@.len() as int,
    ) =~= "github_runner_name="@);
    lemma_contains_sub_prefix(joined, parts[n - 2], "github_runner_name="@);

    assert(parts[n - 1] == "github_runner_labels="@ + spec_labels(inst));
    lemma_join_contains_part(parts, sep, n - 1);
    assert(("github_runner_labels="@ + spec_labels(inst)).subrange(
        0,
        "github_runner_labels="@.len() as int,
    ) =~= "github_runner_labels="@);
    lemma_contains_sub_prefix(joined, parts[n - 1], "github_runner_labels="@);

    if inst.cache_paths@.len() > 0 {
        let cache_part = "cache_paths=\""@ + spec_join(
            inst.cache_paths.deep_view(),
            seq![','],
        ) + "\""@;
        assert(parts[3] == cache_part);
        lemma_join_contains_part(parts, sep, 3);
        assert(cache_part.subrange(0, "cache_paths=\""@.len() as int) =~= "cache_paths=\""@);
        lemma_contains_sub_prefix(joined, parts[3], "cache_paths=\""@);
    }

    match inst.kernel_cmdline {
        Some(cmdline) => {
            let i: int = if inst.cache_paths@.len() > 0 {
                4
            } else {
                3
            };
            assert(parts[i] == cmdline@);
            lemma_join_contains_part(parts, sep, i);
        },
        None => {},
    }
}

/// When an instance declares no cache paths, no part of the assembled
/// boot-argument line is a cache-paths assignment — as long as the role's
/// own override is not itself one, the only part a caller controls whole.
/// (The assembled string can still embed the marker inside a token or label
/// value; the parts are what the assembly controls.)
pub proof fn lemma_boot_args_no_cache_part(inst: Instance, token: Seq<char>, runner_name: Seq<char>)
    requires
        inst.cache_paths@.len() == 0,
        inst.kernel_cmdline matches Some(cmdline) ==> !spec_starts_with(
            cmdline@,
            "cache_paths=\""@,
        ),
    ensures
        forall|i: int|
            0 <= i < spec_boot_arg_parts(inst, token, runner_name).len() ==> !spec_starts_with(
                #[trigger] spec_boot_arg_parts(inst, token, runner_name)[i],
                "cache_paths=\""@,
            ),
{
    let parts = spec_boot_arg_parts(inst, token, runner_name);
    let marker = "cache_paths=\""@;
    reveal_strlit("cache_paths=\"");
    reveal_strlit(
        "random.trust_cpu=on reboot=k panic=1 pci=off overlay_root=vdb init=/sbin/actions-init",
    );
    reveal_strlit("github_token=");
    reveal_strlit("github_org=");
    reveal_strlit("github_runner_name=");
    reveal_strlit("github_runner_labels=");
    assert forall|i: int| 0 <= i < parts.len() implies !spec_starts_with(parts[i], marker) by {
        let n = parts.len();
        if spec_starts_with(parts[i], marker) {
            assert(parts[i].subrange(0, marker.len() as int)[0] == marker[0]);
            assert(parts[i][0] == 'c');
            if i == 0 {
                assert(parts[0][0] == 'r');
            } else if i == 1 {
                assert(parts[1][0] == ("github_token="@ + token)[0]);
                assert(parts[1][0] == 'g');
            } else if i == 2 {
                assert(parts[2][0] == 'g');
            } else if i == n - 2 {
                assert(parts[i][0] == 'g');
            } else if i == n - 1 {
                assert(parts[i][0] == 'g');
            } else {
                // only a declared override can stand between the fixed parts
                assert(inst.kernel_cmdline is Some && i == 3);
                assert(parts[i] == inst.kernel_cmdline->0@);
            }
        }
    }
}

/// The emitted labels always contain the role slug, preserve the
/// user-declared labels in order, and hold nothing else.
pub proof fn lemma_labels(inst: Instance)
    ensures
        spec_emitted_labels(inst).contains(inst.role@),
        spec_emitted_labels(inst).len() == inst.labels@.len() + 1,
        forall|i: int|
            0 <= i < inst.labels@.len() ==> #[trigger] spec_emitted_labels(inst)[i]
                == inst.labels.deep_view()[i],
        spec_emitted_labels(inst).last() == inst.role@,
{
    assert(spec_emitted_labels(inst)[spec_emitted_labels(inst).len() - 1] == inst.role@);
}

} // verus!
