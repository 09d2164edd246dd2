use actions_runner::command::to_string;
use actions_runner::disk::{Disk, DiskFormat};
use actions_runner::github::GitHub;
use actions_runner::manager::Manager;
use actions_runner::manager_config::{ManagerConfig, Role, _default_overlay_size};

fn role(name: &str, count: u8) -> Role {
    Role {
        name: name.to_string(),
        rootfs_image: "rootfs.ext4".to_string(),
        kernel_image: "kernel.bin".to_string(),
        kernel_cmdline: None,
        cpus: 1,
        memory_size: 1,
        cache_size: 1,
        overlay_size: _default_overlay_size(),
        instance_count: count,
        cache_paths: Vec::new(),
        labels: Vec::new(),
    }
}

fn config(roles: Vec<Role>) -> ManagerConfig {
    ManagerConfig {
        network_interface: "eth0".to_string(),
        run_path: "/run/actions".to_string(),
        roles,
        github_org: "acme".to_string(),
        github_pat: "SECRET-REDACTED".to_string(),
    }
}

#[test]
fn setup_builds_population_in_declaration_order() {
    let mut manager = Manager::new(config(vec![role("Web", 2), role("Build", 1)]));
    manager.setup();
    assert_eq!(manager.instances.len(), 3);
    assert_eq!(manager.instances[0].role, "web");
    assert_eq!(manager.instances[0].idx, 1);
    assert_eq!(manager.instances[0].work_dir, "/run/actions/web/1");
    assert_eq!(manager.instances[0].network_allocation.tap_name, "tap1");
    assert_eq!(manager.instances[1].role, "web");
    assert_eq!(manager.instances[1].idx, 2);
    assert_eq!(manager.instances[2].role, "build");
    assert_eq!(manager.instances[2].idx, 3);
    assert_eq!(manager.instances[2].network_allocation.guest_mac, "06:00:ac:10:03:02");
    assert_eq!(manager.instances[2].github.org, "acme");
}

#[test]
fn debug_prepends_console_argument() {
    let manager = Manager::new(config(vec![role("Web", 1)]));
    let instance = manager.debug("Web", 201).unwrap();
    assert_eq!(instance.idx, 201);
    assert_eq!(instance.kernel_cmdline.as_deref(), Some("console=ttyS0"));
    assert_eq!(instance.network_allocation.tap_name, "tap201");
    assert_eq!(instance.work_dir, "/run/actions/web/201");
}

#[test]
fn debug_keeps_existing_cmdline_after_console() {
    let mut noisy = role("Web", 1);
    noisy.kernel_cmdline = Some("quiet".to_string());
    let manager = Manager::new(config(vec![noisy]));
    let instance = manager.debug("Web", 201).unwrap();
    assert_eq!(instance.kernel_cmdline.as_deref(), Some("console=ttyS0 quiet"));
}

#[test]
fn debug_unknown_role_yields_nothing() {
    let manager = Manager::new(config(vec![role("Web", 1)]));
    assert!(manager.debug("Database", 201).is_none());
}

#[test]
fn disk_sizes_and_usage_bounds() {
    let disk = Disk::new("/run/web/1", "cache", 2, DiskFormat::Ext4);
    assert_eq!(disk.size_in_megabytes(), 2048);
    assert_eq!(disk.size_in_kilobytes(), 2_097_152);
    assert_eq!(disk.filename(), "cache.ext4");
    assert_eq!(disk.path_with_filename(), "/run/web/1/cache.ext4");
    assert_eq!(disk.usage_pct(0), 0);
    assert_eq!(disk.usage_pct(1_048_576), 50);
    assert_eq!(disk.usage_pct(2_097_152), 100);
    assert_eq!(disk.usage_pct(u64::MAX), 100);
    assert_eq!(to_string(&disk.destroy()), "rm -rf /run/web/1/cache.ext4");
    assert_eq!(to_string(&disk.usage_on_disk()), "du /run/web/1/cache.ext4");
}

#[test]
fn github_requests_are_exact() {
    let github = GitHub::new("acme", "SECRET-REDACTED");
    assert_eq!(github.authorization(), "Bearer SECRET-REDACTED");
    let mint = github.registration_token();
    assert_eq!(
        mint.url,
        "https://api.github.com/orgs/acme/actions/runners/registration-token"
    );
    assert!(mint.body.is_none());
    let remove = github.remove_runner("web-7-aaaa");
    assert_eq!(
        remove.url,
        "https://api.github.com/orgs/acme/actions/runners/remove-token"
    );
    assert_eq!(remove.body.as_deref(), Some("{\"runner_name\":\"web-7-aaaa\"}"));
}

#[test]
fn remove_runner_body_escapes_quotes() {
    let github = GitHub::new("acme", "SECRET-REDACTED");
    let remove = github.remove_runner("a\"b\\c");
    assert_eq!(remove.body.as_deref(), Some("{\"runner_name\":\"a\\\"b\\\\c\"}"));
}
