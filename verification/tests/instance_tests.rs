use actions_runner::allocation::NetworkAllocation;
use actions_runner::command::to_string;
use actions_runner::config::DEFAULT_BOOT_ARGS;
use actions_runner::github::GitHub;
use actions_runner::instance::{firecracker_command, ChildPoll, Instance, InstanceState};
use actions_runner::manager::{tick_action, TickAction, ERRORED_COOLDOWN_SECONDS, TICK_SECONDS};
use actions_runner::manager_config::Role;

fn web_role() -> Role {
    Role {
        name: "Web".to_string(),
        rootfs_image: "rootfs.ext4".to_string(),
        kernel_image: "kernel.bin".to_string(),
        kernel_cmdline: None,
        cpus: 2,
        memory_size: 1,
        cache_size: 1,
        overlay_size: 10,
        instance_count: 1,
        cache_paths: Vec::new(),
        labels: vec!["large".to_string()],
    }
}

fn web_instance() -> Instance {
    let allocation = NetworkAllocation::new("eth0", 7);
    let github = GitHub::new("acme", "SECRET-REDACTED");
    Instance::new(allocation, github, "/run", &web_role(), 7)
}

#[test]
fn test_instance_setup() {
    let workdir = "/tmp/test_instance_setup";
    let github = GitHub::new("test", "test");
    let network_allocation = NetworkAllocation::new("eth0", 1);
    let role = Role {
        name: "test".to_string(),
        kernel_image: "kernel".to_string(),
        kernel_cmdline: None,
        rootfs_image: "rootfs".to_string(),
        cpus: 1,
        memory_size: 1,
        cache_size: 1,
        overlay_size: 1,
        instance_count: 1,
        cache_paths: Vec::new(),
        labels: Vec::new(),
    };

    let _instance = Instance::new(network_allocation, github, workdir, &role, 1);
}

#[test]
fn instance_paths_and_identity() {
    let instance = web_instance();
    assert_eq!(instance.work_dir, "/run/web/7");
    assert_eq!(instance.role, "web");
    assert_eq!(instance.idx, 7);
    assert_eq!(instance.cache.path, "/run/web/7");
    assert_eq!(instance.cache.path_with_filename(), "/run/web/7/cache.ext4");
    assert_eq!(instance.log_prefix(), "[web 7]");
    assert_eq!(instance.labels(), "large,web");
}

#[test]
fn runner_name_has_role_slot_and_random_suffix() {
    let instance = web_instance();
    let name = instance.name();
    assert!(name.starts_with("web-7-"));
    assert_eq!(name.len(), "web-7-".len() + 4);
    assert!(name.chars().skip("web-7-".len()).all(|c| c.is_ascii_alphanumeric()));
}

#[test]
fn boot_args_without_cache_or_override() {
    let instance = web_instance();
    let args = instance.boot_args_with_name("tok", "web-7-aaaa");
    let expected = format!(
        "{} github_token=tok github_org=acme github_runner_name=web-7-aaaa github_runner_labels=large,web",
        DEFAULT_BOOT_ARGS
    );
    assert_eq!(args, expected);
}

#[test]
fn boot_args_with_cache_and_override() {
    let allocation = NetworkAllocation::new("eth0", 7);
    let github = GitHub::new("acme", "SECRET-REDACTED");
    let mut role = web_role();
    role.cache_paths = vec!["usr:/usr/local".to_string(), "npm:/home/runner/.npm".to_string()];
    role.kernel_cmdline = Some("quiet loglevel=1".to_string());
    let instance = Instance::new(allocation, github, "/run", &role, 7);
    let args = instance.boot_args_with_name("tok", "web-7-aaaa");
    let expected = format!(
        "{} github_token=tok github_org=acme cache_paths=\"usr:/usr/local,npm:/home/runner/.npm\" quiet loglevel=1 github_runner_name=web-7-aaaa github_runner_labels=large,web",
        DEFAULT_BOOT_ARGS
    );
    assert_eq!(args, expected);
}

#[test]
fn boot_args_fresh_name_keeps_shape() {
    let instance = web_instance();
    let args = instance.boot_args("tok");
    assert!(args.starts_with(DEFAULT_BOOT_ARGS));
    assert!(args.contains("github_token=tok"));
    assert!(args.contains("github_org=acme"));
    assert!(args.contains("github_runner_name=web-7-"));
    assert!(args.contains("github_runner_labels=large,web"));
    assert!(!args.contains("cache_paths"));
}

#[test]
fn config_json_is_exact() {
    let instance = web_instance();
    let plan = instance.setup_run("tok", "web-7-aaaa");
    let boot_args = instance.boot_args_with_name("tok", "web-7-aaaa");
    let expected = format!(
        "{{\"boot-source\":{{\"kernel_image_path\":\"kernel.bin\",\"boot_args\":\"{}\"}},\"drives\":[{{\"drive_id\":\"rootfs\",\"path_on_host\":\"/run/web/7/rootfs.ext4\",\"is_root_device\":true,\"is_read_only\":false}},{{\"drive_id\":\"cache\",\"path_on_host\":\"/run/web/7/cache.ext4\",\"is_root_device\":false,\"is_read_only\":false}}],\"network-interfaces\":[{{\"iface_id\":\"eth0\",\"guest_mac\":\"06:00:ac:10:07:02\",\"host_dev_name\":\"tap7\"}}],\"machine-config\":{{\"vcpu_count\":2,\"mem_size_mib\":1024}}}}",
        boot_args
    );
    assert_eq!(plan.config_contents, expected);
    assert_eq!(plan.config_path, "/run/web/7/config.json");
    let rendered: Vec<String> = plan.commands.iter().map(to_string).collect();
    assert_eq!(rendered, vec![
        "rm -rf /run/web/7/rootfs.ext4".to_string(),
        "cp --sparse=always rootfs.ext4 /run/web/7/rootfs.ext4".to_string(),
    ]);
}

#[test]
fn setup_commands_cover_workdir_network_and_cache() {
    let instance = web_instance();
    let cmds = instance.setup();
    let rendered: Vec<String> = cmds.iter().map(to_string).collect();
    assert_eq!(rendered, vec![
        "mkdir -p /run/web/7".to_string(),
        "ip link del tap7".to_string(),
        "ip tuntap add dev tap7 mode tap".to_string(),
        "ip addr add 172.16.7.1/30 dev tap7".to_string(),
        "ip link set dev tap7 up".to_string(),
        "iptables -I FORWARD 1 -i tap7 -o eth0 -j ACCEPT".to_string(),
        "dd if=/dev/zero of=/run/web/7/cache.ext4 conv=sparse bs=1M count=1024".to_string(),
        "mkfs.ext4 /run/web/7/cache.ext4".to_string(),
    ]);
}

#[test]
fn cleanup_and_launch_commands() {
    let instance = web_instance();
    assert_eq!(to_string(&instance.cleanup()), "rm -rf /run/web/7");
    assert_eq!(
        to_string(&firecracker_command()),
        "firecracker --config-file config.json --no-api"
    );
}

#[test]
fn lifecycle_one_tick_starts_a_fresh_instance() {
    let instance = web_instance();
    let state = instance.state(&ChildPoll::NoChild);
    assert_eq!(state, InstanceState::NotStarted);
    assert_eq!(tick_action(&state), TickAction::Start);
    let running = instance.state(&ChildPoll::StillRunning);
    assert_eq!(running, InstanceState::Running);
    assert_eq!(tick_action(&running), TickAction::Nothing);
    let exited = instance.state(&ChildPoll::Exited(0));
    assert_eq!(exited, InstanceState::NotRunning);
    assert_eq!(tick_action(&exited), TickAction::Start);
    assert_eq!(TICK_SECONDS, 1);
}

#[test]
fn lifecycle_errored_instance_cools_down_and_resets() {
    let instance = web_instance();
    let errored = instance.state(&ChildPoll::Exited(1));
    assert_eq!(errored, InstanceState::Errorred);
    assert_eq!(tick_action(&errored), TickAction::Cooldown);
    assert_eq!(ERRORED_COOLDOWN_SECONDS, 20);
    let after_reset = instance.state(&ChildPoll::NoChild);
    assert_eq!(after_reset, InstanceState::NotStarted);
    assert_eq!(tick_action(&after_reset), TickAction::Start);
    assert_eq!(instance.state(&ChildPoll::PollError), InstanceState::Errorred);
}
