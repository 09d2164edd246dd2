//! Mount and unmount commands for file-backed images.

use vstd::prelude::*;

use crate::command::Cmd;
use crate::fs::cmd_is;

verus! {

/// The command that mounts the image `from` at `to`, auto-detecting the
/// file-system type.
pub fn mount_image(from: &str, to: &str) -> (c: Cmd)
    ensures
        cmd_is(c, "mount"@, seq![from@, to@]),
{
    let mut c = Cmd::new(String::from_str("mount"));
    c.arg(String::from_str(from));
    c.arg(String::from_str(to));
    proof {
        assert(c.args.deep_view() =~= seq![from@, to@]);
    }
    c
}

/// The command that mounts the ext4 device or image `from` at `to`.
pub fn mount_ext4(from: &str, to: &str) -> (c: Cmd)
    ensures
        cmd_is(c, "mount"@, seq!["-t"@, "ext4"@, from@, to@]),
{
    let mut c = Cmd::new(String::from_str("mount"));
    c.arg(String::from_str("-t"));
    c.arg(String::from_str("ext4"));
    c.arg(String::from_str(from));
    c.arg(String::from_str(to));
    proof {
        assert(c.args.deep_view() =~= seq!["-t"@, "ext4"@, from@, to@]);
    }
    c
}

/// The command that unmounts whatever is mounted at `path`.
pub fn unmount(path: &str) -> (c: Cmd)
    ensures
        cmd_is(c, "umount"@, seq![path@]),
{
    let mut c = Cmd::new(String::from_str("umount"));
    c.arg(String::from_str(path));
    proof {
        assert(c.args.deep_view() =~= seq![path@]);
    }
    c
}

} // verus!
