use actions_runner::builder::Builder;
use actions_runner::command::to_string;
use actions_runner::docker::id_from_output;
use actions_runner::qemu::create_fs;

fn builder() -> Builder {
    Builder::new(
        "/usr/bin/runner",
        "/home/op",
        "images/Dockerfile",
        "out/rootfs.ext4",
        None,
    )
}

#[test]
fn builder_resolves_paths_against_current_dir() {
    let b = builder();
    assert_eq!(b.source_path, "/home/op/images/Dockerfile");
    assert_eq!(b.output_path, "/home/op/out/rootfs.ext4");
    assert_eq!(b.work_path, "/tmp/actions-runner");
    assert_eq!(b.mount_path, "/tmp/actions-runner/mnt");
    assert_eq!(b.size_gb, 10);

    let absolute = Builder::new("/usr/bin/runner", "/home/op", "/abs/Dockerfile", "/abs/out", Some(4));
    assert_eq!(absolute.source_path, "/abs/Dockerfile");
    assert_eq!(absolute.output_path, "/abs/out");
    assert_eq!(absolute.size_gb, 4);
}

#[test]
fn image_and_container_commands() {
    let b = builder();
    assert_eq!(
        to_string(&b.build_image()),
        "docker build -q --file /home/op/images/Dockerfile ."
    );
    assert_eq!(to_string(&b.create_container("sha256:abc")), "docker run -td sha256:abc");
}

#[test]
fn pipeline_commands_in_order() {
    let b = builder();
    let cmds = b.build_inner("cafebabe");
    let rendered: Vec<String> = cmds.iter().map(to_string).collect();
    assert_eq!(rendered, vec![
        "mkdir -p /tmp/actions-runner/mnt".to_string(),
        "qemu-img create -f raw /tmp/actions-runner/image.ext4 10G".to_string(),
        "mkfs.ext4 /tmp/actions-runner/image.ext4".to_string(),
        "mount /tmp/actions-runner/image.ext4 /tmp/actions-runner/mnt".to_string(),
        "docker cp cafebabe:/ -".to_string(),
        "tar xf - -C /tmp/actions-runner/mnt".to_string(),
        "cp --sparse=always /usr/bin/runner /tmp/actions-runner/mnt/sbin/actions-init".to_string(),
        "umount /tmp/actions-runner/mnt".to_string(),
        "cp --sparse=always /tmp/actions-runner/image.ext4 /home/op/out/rootfs.ext4".to_string(),
        "rm -rf /tmp/actions-runner".to_string(),
    ]);
}

#[test]
fn identifiers_are_stripped_of_whitespace() {
    assert_eq!(id_from_output("sha256:abc123\n"), "sha256:abc123");
    assert_eq!(id_from_output("  cafe\tbabe \r\n"), "cafebabe");
    assert_eq!(id_from_output(""), "");
}

#[test]
fn raw_image_creation_command() {
    let (cmd, image_path) = create_fs("/tmp/actions-runner", 10);
    assert_eq!(image_path, "/tmp/actions-runner/image.ext4");
    assert_eq!(
        to_string(&cmd),
        "qemu-img create -f raw /tmp/actions-runner/image.ext4 10G"
    );
}
