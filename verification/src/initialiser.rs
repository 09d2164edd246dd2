//! The guest init phase: from the values surfaced by the kernel command
//! line and the enumerated interfaces, compute everything the boot does
//! before handing control to the system init — network bring-up, DNS,
//! cache mounting and linking, and the runner service installation. The
//! shell executes the plan and performs the hand-off.

use vstd::prelude::*;

use crate::cache::{setup_cache, spec_cache_invalid_at, spec_cache_plan, spec_trim, CacheError, CachePlan};
use crate::guest_network::{
    setup_dns, setup_network, spec_network_plan, spec_network_undecodable, spec_no_magic,
    NetworkAddress, NetworkError, NetworkSetupPlan,
};
use crate::service::{enable_service, setup_service, spec_service_content, SERVICE_PATH};
use crate::strutil::spec_split;

verus! {

/// Why the init phase failed.
#[derive(Debug)]
pub enum InitError {
    /// The provisioned interface's MAC carries no valid address.
    Network(NetworkError),
    /// The declared cache pairs are malformed.
    Cache(CacheError),
}

/// The runner service installation: copy the running binary to the runner
/// alias, write the unit, and link it into the boot target.
pub struct ServicePlan {
    pub copy_to: String,
    pub unit_path: String,
    pub unit_content: String,
    pub link_source: String,
    pub link_target: String,
}

/// Everything the init phase does, in order: bring the network up when a
/// provisioned interface exists, write the DNS configuration, mount and
/// link the cache when cache paths were declared, install the runner
/// service when all four registration variables are present, and finally
/// hand control to the system init.
pub struct InitPlan {
    pub network: Option<NetworkSetupPlan>,
    pub dns_path: String,
    pub dns_content: String,
    pub cache: Option<CachePlan>,
    pub service: Option<ServicePlan>,
    pub handoff: String,
}

/// The guest agent's init phase, running as the given executable.
pub struct Initialiser {
    pub own_path: String,
}

impl Initialiser {
    /// The init phase of the executable at `path`.
    pub fn new(path: &str) -> (init: Initialiser)
        ensures
            init.own_path@ == path@,
    {
        Initialiser { own_path: String::from_str(path) }
    }

    /// Compute the whole init plan. A missing provisioned interface is not
    /// an error (network setup is skipped); an undecodable magic MAC is
    /// fatal, as is a malformed cache pair. The cache step runs exactly when
    /// `cache_paths` was surfaced, the service step exactly when all four
    /// registration variables were.
    pub fn run(
        &self,
        interfaces: &Vec<NetworkAddress>,
        cache_paths: Option<String>,
        github_org: Option<String>,
        github_token: Option<String>,
        github_runner_name: Option<String>,
        github_runner_labels: Option<String>,
    ) -> (r: Result<InitPlan, InitError>)
        ensures
            match r {
                Ok(plan) => {
                    &&& match plan.network {
                        Some(network_plan) => spec_network_plan(interfaces@, network_plan),
                        None => spec_no_magic(interfaces@),
                    }
                    &&& plan.dns_path@ == "/etc/resolv.conf"@
                    &&& plan.dns_content@ == "nameserver 1.1.1.1\noptions use-vc\n"@
                    &&& match cache_paths {
                        Some(cache_str) => plan.cache matches Some(cache_plan)
                            && spec_cache_plan(cache_str@, cache_plan),
                        None => plan.cache is None,
                    }
                    &&& match (github_org, github_token, github_runner_name,
                    github_runner_labels) {
                        (Some(org), Some(token), Some(name), Some(labels)) => {
                            &&& plan.service matches Some(service_plan)
                            &&& plan.service->Some_0.copy_to@ == "/sbin/actions-run"@
                            &&& plan.service->Some_0.unit_path@ == SERVICE_PATH@
                            &&& plan.service->Some_0.unit_content@ == spec_service_content(
                                org@,
                                token@,
                                name@,
                                labels@,
                            )
                            &&& plan.service->Some_0.link_source@ == SERVICE_PATH@
                            &&& plan.service->Some_0.link_target@
                                == "/etc/systemd/system/multi-user.target.wants/runner.service"@
                        },
                        _ => plan.service is None,
                    }
                    &&& plan.handoff@ == "/sbin/init"@
                },
                Err(e) => match e {
                    InitError::Network(network_error) => network_error is MacToIpError
                        && spec_network_undecodable(interfaces@),
                    InitError::Cache(cache_error) => {
                        &&& !spec_network_undecodable(interfaces@)
                        &&& cache_paths matches Some(cache_str)
                        &&& exists|i: int|
                            {
                                &&& #[trigger] spec_cache_invalid_at(cache_str@, i)
                                &&& cache_error matches CacheError::Io(msg) && msg@
                                    == "Invalid cache link: "@ + spec_trim(
                                    spec_split(cache_str@, ',')[i],
                                )
                            }
                    },
                },
            },
    {
        let network = match setup_network(interfaces) {
            Ok(network) => network,
            Err(e) => {
                return Err(InitError::Network(e));
            },
        };

        let (dns_path, dns_content) = setup_dns();

        let cache = match &cache_paths {
            Some(cache_str) => {
                match setup_cache(cache_str.as_str()) {
                    Ok(cache_plan) => Some(cache_plan),
                    Err(e) => {
                        return Err(InitError::Cache(e));
                    },
                }
            },
            None => None,
        };

        let service = match (&github_org, &github_token, &github_runner_name,
        &github_runner_labels) {
            (Some(org), Some(token), Some(name), Some(labels)) => {
                let (unit_path, unit_content) = setup_service(
                    org.as_str(),
                    token.as_str(),
                    name.as_str(),
                    labels.as_str(),
                );
                let (link_source, link_target) = enable_service();
                Some(
                    ServicePlan {
                        copy_to: String::from_str("/sbin/actions-run"),
                        unit_path,
                        unit_content,
                        link_source,
                        link_target,
                    },
                )
            },
            _ => None,
        };

        Ok(
            InitPlan {
                network,
                dns_path,
                dns_content,
                cache,
                service,
                handoff: String::from_str("/sbin/init"),
            },
        )
    }
}

} // verus!
