use actions_runner::command::{output_to_exec_error, to_string, Cmd, CommandExecutionError};
use actions_runner::fs::{copy_sparse, dd, du, mkdir_p, mkfs_ext4, parse_du_output, parse_u64, rm_rf};
use actions_runner::mount::{mount_ext4, mount_image, unmount};

#[test]
fn test_copy_sparse() {
    let cmd = copy_sparse("/foo.txt", "/bar.txt");
    assert_eq!(to_string(&cmd), "cp --sparse=always /foo.txt /bar.txt");
}

#[test]
fn test_rm_rf() {
    let cmd = rm_rf("/foo.txt");
    assert_eq!(to_string(&cmd), "rm -rf /foo.txt");
}

#[test]
fn test_mkdir_p() {
    let cmd = mkdir_p("/foo");
    assert_eq!(to_string(&cmd), "mkdir -p /foo");
}

#[test]
fn test_mkfs_ext4() {
    let cmd = mkfs_ext4("/dev/sda1");
    assert_eq!(to_string(&cmd), "mkfs.ext4 /dev/sda1");
}

#[test]
fn test_mount_image() {
    let cmd = mount_image("/dev/sda1", "/mnt");
    assert_eq!(to_string(&cmd), "mount /dev/sda1 /mnt");
}

#[test]
fn test_mount_ext4() {
    let cmd = mount_ext4("/dev/sda1", "/mnt");
    assert_eq!(to_string(&cmd), "mount -t ext4 /dev/sda1 /mnt");
}

#[test]
fn test_unmount() {
    let cmd = unmount("/dev/sda1");
    assert_eq!(to_string(&cmd), "umount /dev/sda1");
}

#[test]
fn dd_renders_size_in_megabytes() {
    let cmd = dd("/tmp/cache.ext4", 2048);
    assert_eq!(
        to_string(&cmd),
        "dd if=/dev/zero of=/tmp/cache.ext4 conv=sparse bs=1M count=2048"
    );
}

#[test]
fn du_renders_path() {
    let cmd = du("/tmp/cache.ext4");
    assert_eq!(to_string(&cmd), "du /tmp/cache.ext4");
}

#[test]
fn argument_free_command_renders_with_trailing_space() {
    let cmd = Cmd::new(String::from("reboot"));
    assert_eq!(to_string(&cmd), "reboot ");
}

#[test]
fn parse_du_output_takes_first_token() {
    assert_eq!(parse_du_output("12345\t/tmp/cache.ext4\n"), Some(12345));
    assert_eq!(parse_du_output("  42 something"), Some(42));
    assert_eq!(parse_du_output(""), None);
    assert_eq!(parse_du_output("   "), None);
    assert_eq!(parse_du_output("abc /x"), None);
}

#[test]
fn parse_u64_bounds() {
    assert_eq!(parse_u64("0"), Some(0));
    assert_eq!(parse_u64("18446744073709551615"), Some(u64::MAX));
    assert_eq!(parse_u64("18446744073709551616"), None);
    assert_eq!(parse_u64("007"), Some(7));
    assert_eq!(parse_u64("1x"), None);
    assert_eq!(parse_u64(""), None);
}

#[test]
fn command_failure_carries_rendered_command() {
    let cmd = mkdir_p("/foo");
    let err = output_to_exec_error(&cmd, 2, String::from("out"), String::from("err"));
    match err {
        CommandExecutionError::CommandFailure(result) => {
            assert_eq!(result.command, "mkdir -p /foo");
            assert_eq!(result.status, 2);
            assert_eq!(
                result.message(),
                "Command 'mkdir -p /foo' executed and failed with status: 2  stdout: out  stderr: err"
            );
        }
        CommandExecutionError::ExecutionStart { .. } => panic!("wrong variant"),
    }
}
