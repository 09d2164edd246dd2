//! The scratch disk of an instance: a sparse file of a declared size,
//! formatted ext4, with its usage reported as a saturating percentage.

use vstd::prelude::*;

use crate::command::Cmd;
use crate::fs::{cmd_is, dd, du, mkfs_ext4, rm_rf};
use crate::strutil::{path_join, spec_dec_nat, spec_path_join};

verus! {

/// The on-disk format of a scratch disk.
#[derive(Clone, Copy, PartialEq, Eq, Structural, Debug)]
pub enum DiskFormat {
    Ext4,
}

/// A sparse-file disk: its directory, base name, declared size in gibibytes,
/// and format.
pub struct Disk {
    pub size: u32,
    pub path: String,
    pub name: String,
    pub format: DiskFormat,
}

/// The usage percentage of a disk: the used share of the capacity, rounded
/// down and saturating at one hundred.
pub open spec fn spec_usage_pct(capacity_kb: nat, used_kb: nat) -> nat {
    if used_kb * 100 / capacity_kb > 100 {
        100
    } else {
        used_kb * 100 / capacity_kb
    }
}

/// The creation command sequence of a disk: allocate the sparse file, then
/// format it.
pub open spec fn spec_disk_setup_cmds(d: Disk, cmds: Seq<Cmd>) -> bool {
    &&& cmds.len() == 2
    &&& cmd_is(cmds[0], "dd"@, seq![
        "if=/dev/zero"@,
        "of="@ + spec_path_join(d.path@, d.name@ + ".ext4"@),
        "conv=sparse"@,
        "bs=1M"@,
        "count="@ + spec_dec_nat((d.size as nat) * 1024),
    ])
    &&& cmd_is(cmds[1], "mkfs.ext4"@, seq![spec_path_join(d.path@, d.name@ + ".ext4"@)])
}

impl Disk {
    /// A disk of `size` gibibytes named `name` under `path`.
    pub fn new(path: &str, name: &str, size: u32, format: DiskFormat) -> (d: Disk)
        ensures
            d.path@ == path@,
            d.name@ == name@,
            d.size == size,
            d.format == format,
    {
        Disk { path: String::from_str(path), name: String::from_str(name), size, format }
    }

    /// The declared size in mebibytes.
    pub fn size_in_megabytes(&self) -> (r: u64)
        ensures
            r == self.size as u64 * 1024,
    {
        self.size as u64 * 1024
    }

    /// The declared size in kibibytes.
    pub fn size_in_kilobytes(&self) -> (r: u64)
        ensures
            r == self.size as u64 * 1024 * 1024,
    {
        self.size_in_megabytes() * 1024
    }

    /// The file name the disk lives under: the base name with the format's
    /// extension.
    pub fn filename(&self) -> (r: String)
        ensures
            r@ == self.name@ + ".ext4"@,
    {
        match self.format {
            DiskFormat::Ext4 => {
                let mut r = String::from_str(self.name.as_str());
                r.append(".ext4");
                r
            },
        }
    }

    /// The disk's full path: its directory joined with its file name.
    pub fn path_with_filename(&self) -> (r: String)
        ensures
            r@ == spec_path_join(self.path@, self.name@ + ".ext4"@),
    {
        let filename = self.filename();
        path_join(self.path.as_str(), filename.as_str())
    }

    /// The commands that create the disk: allocate the sparse file, then
    /// format it.
    pub fn setup(&self) -> (cmds: Vec<Cmd>)
        ensures
            spec_disk_setup_cmds(*self, cmds@),
    {
        match self.format {
            DiskFormat::Ext4 => self.setup_ext4(),
        }
    }

    /// The commands that create an ext4 disk.
    pub fn setup_ext4(&self) -> (cmds: Vec<Cmd>)
        ensures
            spec_disk_setup_cmds(*self, cmds@),
    {
        let mut cmds: Vec<Cmd> = Vec::new();
        let target = self.path_with_filename();
        cmds.push(dd(target.as_str(), self.size_in_megabytes()));
        cmds.push(mkfs_ext4(target.as_str()));
        cmds
    }

    /// The command that reports the disk's usage in kilobytes; its output is
    /// read back through `crate::fs::parse_du_output`.
    pub fn usage_on_disk(&self) -> (c: Cmd)
        ensures
            cmd_is(c, "du"@, seq![spec_path_join(self.path@, self.name@ + ".ext4"@)]),
    {
        let target = self.path_with_filename();
        du(target.as_str())
    }

    /// The command that removes the disk's backing file.
    pub fn destroy(&self) -> (c: Cmd)
        ensures
            cmd_is(c, "rm"@, seq![
                "-rf"@,
                spec_path_join(self.path@, self.name@ + ".ext4"@),
            ]),
    {
        let target = self.path_with_filename();
        rm_rf(target.as_str())
    }

    /// The used share of the disk, as a percentage of its declared capacity,
    /// rounded down and saturating at one hundred; always within zero and
    /// one hundred.
    pub fn usage_pct(&self, used_kilobytes: u64) -> (r: u8)
        requires
            self.size >= 1,
        ensures
            r as nat == spec_usage_pct(self.size as nat * 1024 * 1024, used_kilobytes as nat),
            r <= 100,
    {
        let capacity = self.size_in_kilobytes() as u128;
        let pct = used_kilobytes as u128 * 100 / capacity;
        if pct > 100 {
            100
        } else {
            pct as u8
        }
    }
}

} // verus!
