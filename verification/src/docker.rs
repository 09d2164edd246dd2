//! Container-runtime commands of the image build, and the extraction of
//! content-addressable identifiers from their captured output.

use vstd::prelude::*;

use crate::command::Cmd;
use crate::fs::cmd_is;
use crate::strutil::push_char_from;

verus! {

/// The command that builds a container image from the recipe at
/// `source_path` and prints its identifier.
pub fn build_image(source_path: &str) -> (c: Cmd)
    ensures
        cmd_is(c, "docker"@, seq!["build"@, "-q"@, "--file"@, source_path@, "."@]),
{
    let mut c = Cmd::new(String::from_str("docker"));
    c.arg(String::from_str("build"));
    c.arg(String::from_str("-q"));
    c.arg(String::from_str("--file"));
    c.arg(String::from_str(source_path));
    c.arg(String::from_str("."));
    proof {
        assert(c.args.deep_view() =~= seq!["build"@, "-q"@, "--file"@, source_path@, "."@]);
    }
    c
}

/// The command that instantiates a detached container from an image and
/// prints the container's identifier.
pub fn create_container(image_id: &str) -> (c: Cmd)
    ensures
        cmd_is(c, "docker"@, seq!["run"@, "-td"@, image_id@]),
{
    let mut c = Cmd::new(String::from_str("docker"));
    c.arg(String::from_str("run"));
    c.arg(String::from_str("-td"));
    c.arg(String::from_str(image_id));
    proof {
        assert(c.args.deep_view() =~= seq!["run"@, "-td"@, image_id@]);
    }
    c
}

/// The command pair that streams a container's root file system into
/// `mount_path`: the copy writes a tar stream to its standard output, which
/// the shell pipes into the extracting process.
pub fn export_container(container_id: &str, mount_path: &str) -> (r: (Cmd, Cmd))
    ensures
        cmd_is(r.0, "docker"@, seq!["cp"@, container_id@ + ":/"@, "-"@]),
        cmd_is(r.1, "tar"@, seq!["xf"@, "-"@, "-C"@, mount_path@]),
{
    let mut cp = Cmd::new(String::from_str("docker"));
    cp.arg(String::from_str("cp"));
    let mut source = String::from_str(container_id);
    source.append(":/");
    cp.arg(source);
    cp.arg(String::from_str("-"));
    proof {
        assert(cp.args.deep_view() =~= seq!["cp"@, container_id@ + ":/"@, "-"@]);
    }

    let mut tar = Cmd::new(String::from_str("tar"));
    tar.arg(String::from_str("xf"));
    tar.arg(String::from_str("-"));
    tar.arg(String::from_str("-C"));
    tar.arg(String::from_str(mount_path));
    proof {
        assert(tar.args.deep_view() =~= seq!["xf"@, "-"@, "-C"@, mount_path@]);
    }

    (cp, tar)
}

/// An ASCII whitespace character, as the identifier extraction discards it.
pub open spec fn spec_is_ascii_ws(c: char) -> bool {
    c == ' ' || c == '\t' || c == '\n' || c == '\r' || c == '\u{c}'
}

/// `s` with every ASCII whitespace character removed.
pub open spec fn spec_strip_ascii_ws(s: Seq<char>) -> Seq<char>
    decreases s.len(),
{
    if s.len() == 0 {
        Seq::empty()
    } else if spec_is_ascii_ws(s.last()) {
        spec_strip_ascii_ws(s.drop_last())
    } else {
        spec_strip_ascii_ws(s.drop_last()).push(s.last())
    }
}

/// The identifier a container-runtime command printed: its captured output
/// with all ASCII whitespace removed.
pub fn id_from_output(output: &str) -> (r: String)
    ensures
        r@ == spec_strip_ascii_ws(output@),
{
    let n = output.unicode_len();
    let mut r = String::new();
    let mut i: usize = 0;
    while i < n
        invariant
            i <= n,
            n == output@.len(),
            r@ == spec_strip_ascii_ws(output@.take(i as int)),
        decreases n - i,
    {
        let c = output.get_char(i);
        proof {
            assert(output@.take(i + 1).drop_last() =~= output@.take(i as int));
            assert(output@.take(i + 1).last() == output@[i as int]);
        }
        if !(c == ' ' || c == '\t' || c == '\n' || c == '\r' || c == '\u{c}') {
            push_char_from(&mut r, output, i);
        }
        i += 1;
    }
    proof {
        assert(output@.take(n as int) =~= output@);
    }
    r
}

} // verus!
