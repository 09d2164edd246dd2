use actions_runner::cache::{setup_cache, CacheError};
use actions_runner::command::to_string;
use actions_runner::guest_network::{
    get_interfaces_command, get_magic_address, setup_dns, setup_network, NetworkAddress,
    NetworkError,
};
use actions_runner::initialiser::{InitError, Initialiser};
use actions_runner::network::Ipv4Address;
use actions_runner::runner::Runner;
use actions_runner::service::{enable_service, setup_service, SERVICE_PATH};

fn lo() -> NetworkAddress {
    NetworkAddress { ifname: "lo".to_string(), mac: "00:00:00:00:00:00".to_string() }
}

fn uplink() -> NetworkAddress {
    NetworkAddress { ifname: "eth0".to_string(), mac: "06:00:ac:10:c9:01".to_string() }
}

#[test]
fn interface_enumeration_command() {
    assert_eq!(to_string(&get_interfaces_command()), "ip -j address");
}

#[test]
fn magic_address_is_first_with_prefix() {
    let interfaces = vec![lo(), uplink()];
    let found = get_magic_address(&interfaces).unwrap();
    assert_eq!(found.ifname, "eth0");
    assert_eq!(found.mac, "06:00:ac:10:c9:01");
}

#[test]
fn no_magic_address_is_reported() {
    let interfaces = vec![lo()];
    assert!(matches!(
        get_magic_address(&interfaces),
        Err(NetworkError::NoInterfaceFound)
    ));
}

#[test]
fn network_setup_addresses_routes_and_brings_up() {
    let interfaces = vec![lo(), uplink()];
    let plan = setup_network(&interfaces).unwrap().unwrap();
    assert_eq!(plan.interface.ifname, "eth0");
    assert_eq!(plan.interface.own_address, Ipv4Address::new(172, 16, 201, 1));
    assert_eq!(plan.interface.host_address, Ipv4Address::new(172, 16, 201, 1));
    let rendered: Vec<String> = plan.commands.iter().map(to_string).collect();
    assert_eq!(rendered, vec![
        "ip addr add 172.16.201.1/30 dev eth0".to_string(),
        "ip link set eth0 up".to_string(),
        "ip route add default via 172.16.201.1".to_string(),
    ]);
}

#[test]
fn network_setup_skips_without_magic_interface() {
    let interfaces = vec![lo()];
    assert!(setup_network(&interfaces).unwrap().is_none());
}

#[test]
fn network_setup_fails_on_undecodable_mac() {
    let interfaces = vec![NetworkAddress {
        ifname: "eth0".to_string(),
        mac: "06:00:zz:10:c9:01".to_string(),
    }];
    assert!(matches!(
        setup_network(&interfaces),
        Err(NetworkError::MacToIpError(_))
    ));
}

#[test]
fn dns_forces_tcp_resolution() {
    let (path, content) = setup_dns();
    assert_eq!(path, "/etc/resolv.conf");
    assert_eq!(content, "nameserver 1.1.1.1\noptions use-vc\n");
}

#[test]
fn cache_plan_mounts_and_links() {
    let plan = setup_cache("usr:/usr/local, npm:/home/runner/.npm").unwrap();
    let rendered: Vec<String> = plan.commands.iter().map(to_string).collect();
    assert_eq!(rendered, vec![
        "mkdir -p /cache".to_string(),
        "mount -t ext4 /dev/vdb /cache".to_string(),
    ]);
    assert_eq!(plan.chmod_path, "/cache");
    assert_eq!(plan.links.len(), 2);
    assert_eq!(plan.links[0].root, "/cache/usr");
    assert_eq!(plan.links[0].target, "/usr/local");
    assert_eq!(plan.links[1].root, "/cache/npm");
    assert_eq!(plan.links[1].target, "/home/runner/.npm");
}

#[test]
fn malformed_cache_pair_is_fatal() {
    match setup_cache("usr:/usr/local,broken") {
        Err(CacheError::Io(msg)) => assert_eq!(msg, "Invalid cache link: broken"),
        _ => panic!("expected Io error"),
    }
    match setup_cache("a:b:c") {
        Err(CacheError::Io(msg)) => assert_eq!(msg, "Invalid cache link: a:b:c"),
        _ => panic!("expected Io error"),
    }
}

#[test]
fn service_unit_carries_all_variables() {
    let (path, content) = setup_service("acme", "tok", "web-7-aaaa", "large,web");
    assert_eq!(path, "/etc/systemd/system/runner.service");
    assert!(content.contains("Environment=\"GITHUB_ORG=acme\"\n"));
    assert!(content.contains("Environment=\"GITHUB_TOKEN=tok\"\n"));
    assert!(content.contains("Environment=\"GITHUB_RUNNER_NAME=web-7-aaaa\"\n"));
    assert!(content.contains("Environment=\"GITHUB_RUNNER_LABELS=large,web\"\n"));
    assert!(content.contains("ExecStart=/sbin/actions-run\n"));
    assert!(content.contains("User=runner\n"));
    assert!(content.contains("ExecStopPost=+/usr/sbin/reboot\n"));
}

#[test]
fn service_is_linked_into_boot_target() {
    let (source, target) = enable_service();
    assert_eq!(source, SERVICE_PATH);
    assert_eq!(target, "/etc/systemd/system/multi-user.target.wants/runner.service");
}

#[test]
fn runner_configures_then_runs() {
    let runner = Runner::new();
    let cmds = runner.run("acme", "tok", "web-7-aaaa", "large,web");
    let rendered: Vec<String> = cmds.iter().map(to_string).collect();
    assert_eq!(rendered, vec![
        "/home/runner/config.sh --url https://github.com/acme --token tok --unattended --ephemeral --name web-7-aaaa --labels large,web".to_string(),
        "/home/runner/run.sh ".to_string(),
    ]);
}

#[test]
fn init_plan_full_boot() {
    let init = Initialiser::new("/sbin/actions-init");
    let interfaces = vec![uplink()];
    let plan = init
        .run(
            &interfaces,
            Some("usr:/usr/local".to_string()),
            Some("acme".to_string()),
            Some("tok".to_string()),
            Some("web-7-aaaa".to_string()),
            Some("large,web".to_string()),
        )
        .unwrap();
    assert!(plan.network.is_some());
    assert_eq!(plan.dns_path, "/etc/resolv.conf");
    assert!(plan.cache.is_some());
    let service = plan.service.unwrap();
    assert_eq!(service.copy_to, "/sbin/actions-run");
    assert_eq!(service.unit_path, "/etc/systemd/system/runner.service");
    assert!(service.unit_content.contains("GITHUB_ORG=acme"));
    assert_eq!(plan.handoff, "/sbin/init");
}

#[test]
fn init_plan_degraded_boot_skips_optional_steps() {
    let init = Initialiser::new("/sbin/actions-init");
    let interfaces = vec![lo()];
    let plan = init.run(&interfaces, None, None, None, None, None).unwrap();
    assert!(plan.network.is_none());
    assert!(plan.cache.is_none());
    assert!(plan.service.is_none());
    assert_eq!(plan.handoff, "/sbin/init");
}

#[test]
fn init_plan_requires_all_four_registration_variables() {
    let init = Initialiser::new("/sbin/actions-init");
    let interfaces = vec![lo()];
    let plan = init
        .run(
            &interfaces,
            None,
            Some("acme".to_string()),
            Some("tok".to_string()),
            Some("web-7-aaaa".to_string()),
            None,
        )
        .unwrap();
    assert!(plan.service.is_none());
}

#[test]
fn init_plan_propagates_fatal_errors() {
    let init = Initialiser::new("/sbin/actions-init");
    let bad_mac = vec![NetworkAddress {
        ifname: "eth0".to_string(),
        mac: "06:00:zz:10:c9:01".to_string(),
    }];
    assert!(matches!(
        init.run(&bad_mac, None, None, None, None, None),
        Err(InitError::Network(_))
    ));
    let ok_net = vec![uplink()];
    assert!(matches!(
        init.run(&ok_net, Some("broken".to_string()), None, None, None, None),
        Err(InitError::Cache(_))
    ));
}
