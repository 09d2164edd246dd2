//! The raw-image creation command of the image build.

use vstd::prelude::*;

use crate::command::Cmd;
use crate::fs::cmd_is;
use crate::strutil::{path_join, spec_dec_nat, spec_path_join, u8_to_string};

verus! {

/// The file name of the raw image inside the build's work directory.
pub const IMAGE_NAME: &'static str = "image.ext4";

/// The command that creates a sparse raw image of `size_gb` gibibytes under
/// `path`, and the path of the image it creates.
pub fn create_fs(path: &str, size_gb: u8) -> (r: (Cmd, String))
    ensures
        r.1@ == spec_path_join(path@, "image.ext4"@),
        cmd_is(r.0, "qemu-img"@, seq![
            "create"@,
            "-f"@,
            "raw"@,
            spec_path_join(path@, "image.ext4"@),
            spec_dec_nat(size_gb as nat) + "G"@,
        ]),
{
    let image_path = path_join(path, IMAGE_NAME);
    proof {
        assert(IMAGE_NAME@ =~= "image.ext4"@);
    }
    let mut c = Cmd::new(String::from_str("qemu-img"));
    c.arg(String::from_str("create"));
    c.arg(String::from_str("-f"));
    c.arg(String::from_str("raw"));
    c.arg(String::from_str(image_path.as_str()));
    let mut size_arg = u8_to_string(size_gb);
    size_arg.append("G");
    c.arg(size_arg);
    proof {
        assert(c.args.deep_view() =~= seq![
            "create"@,
            "-f"@,
            "raw"@,
            spec_path_join(path@, "image.ext4"@),
            spec_dec_nat(size_gb as nat) + "G"@,
        ]);
    }
    (c, image_path)
}

} // verus!
