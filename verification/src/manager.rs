//! The fleet supervisor: building the instance population from the declared
//! roles, the per-tick decision of the fleet loop, and the single-instance
//! debug construction. The loop itself — sleeping, polling children,
//! executing commands, watching for the interrupt signal — runs in the
//! shell and consults the decisions computed here.

use vstd::prelude::*;

use crate::allocation::{spec_allocation, NetworkAllocation};
use crate::github::GitHub;
use crate::instance::{spec_instance_core, Instance, InstanceState};
use crate::manager_config::{ManagerConfig, Role};
use crate::strutil::{clone_strings, str_eq};

verus! {

/// How long the fleet loop waits between ticks, in seconds.
pub const TICK_SECONDS: u64 = 1;

/// How long an errored instance cools down before it is reset, in seconds.
pub const ERRORED_COOLDOWN_SECONDS: u64 = 20;

/// What the fleet loop does to one instance on one tick.
#[derive(Clone, Copy, PartialEq, Eq, Structural, Debug)]
pub enum TickAction {
    /// The instance runs; leave it alone.
    Nothing,
    /// The instance is startable; stage its artifacts and spawn it.
    Start,
    /// The instance errored; cool down, then clear its child handle, which
    /// makes the next poll report no child.
    Cooldown,
}

/// The fleet loop's decision for an instance in the given state.
pub open spec fn spec_tick_action(state: InstanceState) -> TickAction {
    match state {
        InstanceState::Running => TickAction::Nothing,
        InstanceState::NotStarted => TickAction::Start,
        InstanceState::NotRunning => TickAction::Start,
        InstanceState::Errorred => TickAction::Cooldown,
    }
}

/// Decide what one tick of the fleet loop does to an instance in `state`: a
/// running instance is left alone, a not-yet-started or cleanly exited one
/// is started, an errored one cools down and is reset.
pub fn tick_action(state: &InstanceState) -> (a: TickAction)
    ensures
        a == spec_tick_action(*state),
{
    match state {
        InstanceState::Running => TickAction::Nothing,
        InstanceState::NotStarted => TickAction::Start,
        InstanceState::NotRunning => TickAction::Start,
        InstanceState::Errorred => TickAction::Cooldown,
    }
}

/// The declared population: every role repeated as many times as its
/// instance count, in declaration order.
pub open spec fn spec_flatten_roles(roles: Seq<Role>) -> Seq<Role>
    decreases roles.len(),
{
    if roles.len() == 0 {
        Seq::empty()
    } else {
        Seq::new(roles[0].instance_count as nat, |i: int| roles[0]) + spec_flatten_roles(
            roles.drop_first(),
        )
    }
}

/// Flattening splits at any role boundary.
proof fn lemma_flatten_split(roles: Seq<Role>, r: int)
    requires
        0 <= r <= roles.len(),
    ensures
        spec_flatten_roles(roles) == spec_flatten_roles(roles.take(r)) + spec_flatten_roles(
            roles.skip(r),
        ),
    decreases r,
{
    if r == 0 {
        assert(roles.take(0) =~= Seq::<Role>::empty());
        assert(roles.skip(0) =~= roles);
        assert(spec_flatten_roles(roles.take(0)) =~= Seq::<Role>::empty());
        assert(spec_flatten_roles(roles) =~= spec_flatten_roles(roles.take(0))
            + spec_flatten_roles(roles.skip(0)));
    } else {
        lemma_flatten_split(roles.drop_first(), r - 1);
        assert(roles.take(r).drop_first() =~= roles.drop_first().take(r - 1));
        assert(roles.skip(r) =~= roles.drop_first().skip(r - 1));
        assert(roles.take(r)[0] == roles[0]);
        assert(spec_flatten_roles(roles.take(r)) == Seq::new(
            roles[0].instance_count as nat,
            |i: int| roles[0],
        ) + spec_flatten_roles(roles.drop_first().take(r - 1)));
        assert(spec_flatten_roles(roles) =~= spec_flatten_roles(roles.take(r))
            + spec_flatten_roles(roles.skip(r)));
    }
}

/// One more role contributes its count of copies.
proof fn lemma_flatten_take_step(roles: Seq<Role>, r: int)
    requires
        0 <= r < roles.len(),
    ensures
        spec_flatten_roles(roles.take(r + 1)) == spec_flatten_roles(roles.take(r)) + Seq::new(
            roles[r].instance_count as nat,
            |i: int| roles[r],
        ),
{
    lemma_flatten_split(roles.take(r + 1), r);
    assert(roles.take(r + 1).take(r) =~= roles.take(r));
    let tail = roles.take(r + 1).skip(r);
    assert(tail =~= seq![roles[r]]);
    assert(tail.drop_first() =~= Seq::<Role>::empty());
    assert(spec_flatten_roles(Seq::<Role>::empty()) =~= Seq::<Role>::empty());
    assert(tail[0] == roles[r]);
    assert(spec_flatten_roles(tail) == Seq::new(
        tail[0].instance_count as nat,
        |i: int| tail[0],
    ) + spec_flatten_roles(tail.drop_first()));
    assert(spec_flatten_roles(tail) =~= Seq::new(
        roles[r].instance_count as nat,
        |i: int| roles[r],
    ));
}

/// A prefix of the declared population is a prefix of the whole.
proof fn lemma_flatten_prefix(roles: Seq<Role>, r: int)
    requires
        0 <= r <= roles.len(),
    ensures
        spec_flatten_roles(roles.take(r)).len() <= spec_flatten_roles(roles).len(),
        forall|k: int|
            0 <= k < spec_flatten_roles(roles.take(r)).len()
                ==> #[trigger] spec_flatten_roles(roles)[k] == spec_flatten_roles(
                roles.take(r),
            )[k],
{
    lemma_flatten_split(roles, r);
}

/// Whether the instance list is exactly the population that the
/// configuration declares: one instance per flattened role, slots counted
/// from one in construction order, each wired to its own allocation and
/// carrying the shared credentials.
pub open spec fn spec_fleet(instances: Seq<Instance>, config: ManagerConfig) -> bool {
    let flat = spec_flatten_roles(config.roles@);
    &&& instances.len() == flat.len()
    &&& forall|k: int|
        0 <= k < flat.len() ==> {
            &&& spec_instance_core(
                #[trigger] instances[k],
                config.run_path@,
                flat[k],
                (k + 1) as u8,
                flat[k].kernel_cmdline.deep_view(),
            )
            &&& spec_allocation(
                instances[k].network_allocation,
                config.network_interface@,
                (k + 1) as u8,
            )
            &&& instances[k].github.org@ == config.github_org@
            &&& instances[k].github.pat@ == config.github_pat@
        }
}

/// The fleet supervisor: its configuration and the instances it manages.
/// The interrupt flag and the child-process handles live in the shell.
pub struct Manager {
    pub config: ManagerConfig,
    pub instances: Vec<Instance>,
}

impl Manager {
    /// A supervisor with no instances yet.
    pub fn new(config: ManagerConfig) -> (m: Manager)
        ensures
            m.config == config,
            m.instances@.len() == 0,
    {
        Manager { config, instances: Vec::new() }
    }

    /// Build the declared population: for each role in order, for each of
    /// its instances, allocate the next slot (counted from one) and
    /// construct the instance. The per-instance commands are executed by the
    /// shell afterwards.
    pub fn setup(&mut self)
        requires
            old(self).instances@.len() == 0,
            spec_flatten_roles(old(self).config.roles@).len() <= 199,
        ensures
            final(self).config == old(self).config,
            spec_fleet(final(self).instances@, final(self).config),
    {
        let ghost flat = spec_flatten_roles(self.config.roles@);
        let mut r: usize = 0;
        while r < self.config.roles.len()
            invariant
                r <= self.config.roles@.len(),
                self.config == old(self).config,
                flat == spec_flatten_roles(self.config.roles@),
                flat.len() <= 199,
                self.instances@.len() == spec_flatten_roles(self.config.roles@.take(r as int)).len(),
                spec_fleet_prefix(self.instances@, self.config, flat),
            decreases self.config.roles@.len() - r,
        {
            let count = self.config.roles[r].instance_count;
            let mut c: u8 = 0;
            proof {
                lemma_flatten_take_step(self.config.roles@, r as int);
                lemma_flatten_prefix(self.config.roles@, r + 1);
                lemma_flatten_prefix(self.config.roles@, r as int);
            }
            while c < count
                invariant
                    c <= count,
                    r < self.config.roles@.len(),
                    count == self.config.roles@[r as int].instance_count,
                    self.config == old(self).config,
                    flat == spec_flatten_roles(self.config.roles@),
                    flat.len() <= 199,
                    self.instances@.len() == spec_flatten_roles(
                        self.config.roles@.take(r as int),
                    ).len() + c,
                    self.instances@.len() <= flat.len(),
                    forall|k: int|
                        spec_flatten_roles(self.config.roles@.take(r as int)).len() <= k
                            < self.instances@.len() ==> #[trigger] flat[k]
                            == self.config.roles@[r as int],
                    spec_fleet_prefix(self.instances@, self.config, flat),
                decreases count - c,
            {
                proof {
                    lemma_flatten_take_step(self.config.roles@, r as int);
                    lemma_flatten_prefix(self.config.roles@, r + 1);
                }
                let idx = (self.instances.len() as u8) + 1;
                let network_allocation = NetworkAllocation::new(
                    self.config.network_interface.as_str(),
                    idx,
                );
                let github = GitHub::new(
                    self.config.github_org.as_str(),
                    self.config.github_pat.as_str(),
                );
                let instance = Instance::new(
                    network_allocation,
                    github,
                    self.config.run_path.as_str(),
                    &self.config.roles[r],
                    idx,
                );
                self.instances.push(instance);
                c += 1;
            }
            r += 1;
            proof {
                lemma_flatten_take_step(self.config.roles@, r - 1);
            }
        }
        proof {
            assert(self.config.roles@.take(self.config.roles@.len() as int)
                =~= self.config.roles@);
        }
    }

    /// The instance the debug path constructs: the first role with the given
    /// name, in the given slot, with `console=ttyS0` prepended to its kernel
    /// command line so the hypervisor's console reaches the operator. `None`
    /// when no role carries the name.
    pub fn debug(&self, role_name: &str, idx: u8) -> (r: Option<Instance>)
        ensures
            match r {
                Some(inst) => exists|i: int|
                    {
                        &&& 0 <= i < self.config.roles@.len()
                        &&& (#[trigger] self.config.roles@[i]).name@ == role_name@
                        &&& forall|j: int|
                            0 <= j < i ==> (#[trigger] self.config.roles@[j]).name@ != role_name@
                        &&& spec_instance_core(
                            inst,
                            self.config.run_path@,
                            self.config.roles@[i],
                            idx,
                            Some(spec_debug_cmdline(self.config.roles@[i])),
                        )
                        &&& spec_allocation(
                            inst.network_allocation,
                            self.config.network_interface@,
                            idx,
                        )
                        &&& inst.github.org@ == self.config.github_org@
                        &&& inst.github.pat@ == self.config.github_pat@
                    },
                None => forall|j: int|
                    0 <= j < self.config.roles@.len()
                        ==> (#[trigger] self.config.roles@[j]).name@ != role_name@,
            },
    {
        let mut i: usize = 0;
        while i < self.config.roles.len()
            invariant
                i <= self.config.roles@.len(),
                forall|j: int|
                    0 <= j < i ==> (#[trigger] self.config.roles@[j]).name@ != role_name@,
            decreases self.config.roles@.len() - i,
        {
            if str_eq(self.config.roles[i].name.as_str(), role_name) {
                let role = &self.config.roles[i];
                let mut cmdline = String::from_str("console=ttyS0");
                match &role.kernel_cmdline {
                    Some(existing) => {
                        cmdline.append(" ");
                        cmdline.append(existing.as_str());
                    },
                    None => {},
                }
                proof {
                    assert(cmdline@ == spec_debug_cmdline(self.config.roles@[i as int]));
                }
                let debug_role = Role {
                    name: String::from_str(role.name.as_str()),
                    rootfs_image: String::from_str(role.rootfs_image.as_str()),
                    kernel_image: String::from_str(role.kernel_image.as_str()),
                    kernel_cmdline: Some(cmdline),
                    cpus: role.cpus,
                    memory_size: role.memory_size,
                    cache_size: role.cache_size,
                    overlay_size: role.overlay_size,
                    instance_count: role.instance_count,
                    cache_paths: clone_strings(&role.cache_paths),
                    labels: clone_strings(&role.labels),
                };
                let network_allocation = NetworkAllocation::new(
                    self.config.network_interface.as_str(),
                    idx,
                );
                let github = GitHub::new(
                    self.config.github_org.as_str(),
                    self.config.github_pat.as_str(),
                );
                let instance = Instance::new(
                    network_allocation,
                    github,
                    self.config.run_path.as_str(),
                    &debug_role,
                    idx,
                );
                return Some(instance);
            }
            i += 1;
        }
        None
    }
}

/// The kernel command line of a debug instance: the console argument,
/// followed by the role's own override when one is present.
pub open spec fn spec_debug_cmdline(role: Role) -> Seq<char> {
    match role.kernel_cmdline {
        Some(cmdline) => "console=ttyS0"@ + " "@ + cmdline@,
        None => "console=ttyS0"@,
    }
}

/// Whether a prefix of the instance list matches the declared population.
pub open spec fn spec_fleet_prefix(
    instances: Seq<Instance>,
    config: ManagerConfig,
    flat: Seq<Role>,
) -> bool {
    &&& instances.len() <= flat.len()
    &&& forall|k: int|
        0 <= k < instances.len() ==> {
            &&& spec_instance_core(
                #[trigger] instances[k],
                config.run_path@,
                flat[k],
                (k + 1) as u8,
                flat[k].kernel_cmdline.deep_view(),
            )
            &&& spec_allocation(
                instances[k].network_allocation,
                config.network_interface@,
                (k + 1) as u8,
            )
            &&& instances[k].github.org@ == config.github_org@
            &&& instances[k].github.pat@ == config.github_pat@
        }
}

} // verus!
