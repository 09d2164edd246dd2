//! The guest's scratch-cache bring-up: mount the cache disk at `/cache`,
//! open its permissions, and link each declared `src:dst` pair from the
//! cache into the guest file system. The pair list arrives through the
//! kernel command line; a malformed pair fails the whole step.

use vstd::prelude::*;

use crate::command::{Cmd, CommandExecutionError};
use crate::fs::{cmd_is, lemma_skip_ws_index, mkdir_p, spec_is_ws, spec_skip_ws};
use crate::mount::mount_ext4;
use crate::strutil::{spec_split, split_str};

verus! {

/// Why the cache bring-up failed.
#[derive(Debug)]
pub enum CacheError {
    /// A pair was malformed or a file-system step failed; holds the
    /// rendered message.
    Io(String),
    /// Mounting the cache disk failed.
    Mount(CommandExecutionError),
}

/// `s` without its trailing whitespace.
pub open spec fn spec_trim_end(s: Seq<char>) -> Seq<char>
    decreases s.len(),
{
    if s.len() > 0 && spec_is_ws(s.last()) {
        spec_trim_end(s.drop_last())
    } else {
        s
    }
}

/// `s` without leading and trailing whitespace.
pub open spec fn spec_trim(s: Seq<char>) -> Seq<char> {
    spec_trim_end(spec_skip_ws(s))
}

/// Trimming a trailing-whitespace region keeps the prefix before it.
proof fn lemma_trim_end_take(t: Seq<char>, k: int)
    requires
        0 <= k <= t.len(),
        forall|j: int| k <= j < t.len() ==> spec_is_ws(#[trigger] t[j]),
        k == 0 || !spec_is_ws(t[k - 1]),
    ensures
        spec_trim_end(t) == t.take(k),
    decreases t.len(),
{
    if k < t.len() {
        assert(spec_is_ws(t.last()));
        assert(t.drop_last() =~= t.take(t.len() - 1));
        lemma_trim_end_take(t.take(t.len() - 1), k);
        assert(t.take(t.len() - 1).take(k) =~= t.take(k));
    } else {
        if t.len() > 0 {
            assert(!spec_is_ws(t.last()));
        }
        assert(t.take(k) =~= t);
    }
}

fn is_ws_char(c: char) -> (r: bool)
    ensures
        r == spec_is_ws(c),
{
    c == ' ' || c == '\t' || c == '\n' || c == '\r' || c == '\u{b}' || c == '\u{c}'
}

/// Remove leading and trailing whitespace.
pub fn trim_ws(s: &str) -> (r: String)
    ensures
        r@ == spec_trim(s@),
{
    let n = s.unicode_len();
    let mut start: usize = 0;
    while start < n && is_ws_char(s.get_char(start))
        invariant
            start <= n,
            n == s@.len(),
            forall|j: int| 0 <= j < start ==> spec_is_ws(#[trigger] s@[j]),
        decreases n - start,
    {
        start += 1;
    }
    proof {
        lemma_skip_ws_index(s@, start as int);
        assert(spec_skip_ws(s@.skip(start as int)) == s@.skip(start as int));
    }
    let mut end: usize = n;
    while end > start && is_ws_char(s.get_char(end - 1))
        invariant
            start <= end <= n,
            n == s@.len(),
            forall|j: int| end <= j < n ==> spec_is_ws(#[trigger] s@[j]),
        decreases end,
    {
        end -= 1;
    }
    proof {
        let tail = s@.skip(start as int);
        lemma_trim_end_take(tail, end - start);
        assert(tail.take(end - start) =~= s@.subrange(start as int, end as int));
    }
    String::from_str(s.substring_char(start, end))
}

/// One cache link: the directory created inside the cache, and the place in
/// the guest file system that is symlinked to it. The shell creates the
/// root directory, then symlinks the target to it.
pub struct CacheLink {
    pub root: String,
    pub target: String,
}

/// The computed cache bring-up: the mount commands, the path whose
/// permissions are opened, and the links to create.
pub struct CachePlan {
    pub commands: Vec<Cmd>,
    pub chmod_path: String,
    pub links: Vec<CacheLink>,
}

/// The source and destination of one comma-separated pair: the pair is
/// trimmed and must split at a colon into exactly two parts.
pub open spec fn spec_link_src_dst(piece: Seq<char>) -> Option<(Seq<char>, Seq<char>)> {
    let parts = spec_split(spec_trim(piece), ':');
    if parts.len() == 2 {
        Some((parts[0], parts[1]))
    } else {
        None
    }
}

/// Whether `plan` is the bring-up that `cache_str` determines: create and
/// mount `/cache`, open its permissions, and link every declared pair in
/// order.
pub open spec fn spec_cache_plan(cache_str: Seq<char>, plan: CachePlan) -> bool {
    let pieces = spec_split(cache_str, ',');
    &&& plan.commands@.len() == 2
    &&& cmd_is(plan.commands@[0], "mkdir"@, seq!["-p"@, "/cache"@])
    &&& cmd_is(plan.commands@[1], "mount"@, seq!["-t"@, "ext4"@, "/dev/vdb"@, "/cache"@])
    &&& plan.chmod_path@ == "/cache"@
    &&& plan.links@.len() == pieces.len()
    &&& forall|i: int|
        0 <= i < pieces.len() ==> {
            &&& spec_link_src_dst(#[trigger] pieces[i]) is Some
            &&& plan.links@[i].root@ == "/cache/"@ + spec_link_src_dst(pieces[i])->Some_0.0
            &&& plan.links@[i].target@ == spec_link_src_dst(pieces[i])->Some_0.1
        }
}

/// Whether the pair at position `i` is the first malformed one.
pub open spec fn spec_cache_invalid_at(cache_str: Seq<char>, i: int) -> bool {
    let pieces = spec_split(cache_str, ',');
    &&& 0 <= i < pieces.len()
    &&& spec_link_src_dst(pieces[i]) is None
    &&& forall|j: int| 0 <= j < i ==> spec_link_src_dst(#[trigger] pieces[j]) is Some
}

/// Compute the cache bring-up from the comma-separated `src:dst` pair list.
/// Fails on the first malformed pair, naming it.
pub fn setup_cache(cache_str: &str) -> (r: Result<CachePlan, CacheError>)
    ensures
        match r {
            Ok(plan) => spec_cache_plan(cache_str@, plan),
            Err(e) => exists|i: int|
                {
                    &&& #[trigger] spec_cache_invalid_at(cache_str@, i)
                    &&& e matches CacheError::Io(msg) && msg@ == "Invalid cache link: "@
                        + spec_trim(spec_split(cache_str@, ',')[i])
                },
        },
{
    let mut commands: Vec<Cmd> = Vec::new();
    commands.push(mkdir_p("/cache"));
    commands.push(mount_ext4("/dev/vdb", "/cache"));

    let pieces = split_str(cache_str, ',');
    let mut links: Vec<CacheLink> = Vec::new();
    let mut i: usize = 0;
    while i < pieces.len()
        invariant
            i <= pieces@.len(),
            pieces.deep_view() == spec_split(cache_str@, ','),
            links@.len() == i,
            forall|j: int|
                0 <= j < i ==> {
                    &&& spec_link_src_dst(#[trigger] pieces.deep_view()[j]) is Some
                    &&& links@[j].root@ == "/cache/"@ + spec_link_src_dst(
                        pieces.deep_view()[j],
                    )->Some_0.0
                    &&& links@[j].target@ == spec_link_src_dst(
                        pieces.deep_view()[j],
                    )->Some_0.1
                },
        decreases pieces@.len() - i,
    {
        proof {
            assert(pieces.deep_view()[i as int] == pieces@[i as int]@);
        }
        let trimmed = trim_ws(pieces[i].as_str());
        let parts = split_str(trimmed.as_str(), ':');
        if parts.len() != 2 {
            let mut msg = String::from_str("Invalid cache link: ");
            msg.append(trimmed.as_str());
            proof {
                assert(spec_cache_invalid_at(cache_str@, i as int));
            }
            return Err(CacheError::Io(msg));
        }
        proof {
            assert(parts.deep_view()[0] == parts@[0]@);
            assert(parts.deep_view()[1] == parts@[1]@);
        }
        let mut root = String::from_str("/cache/");
        root.append(parts[0].as_str());
        let target = String::from_str(parts[1].as_str());
        links.push(CacheLink { root, target });
        i += 1;
    }
    proof {
        assert(pieces.deep_view().len() == pieces@.len());
    }
    let plan = CachePlan { commands, chmod_path: String::from_str("/cache"), links };
    proof {
        assert(spec_cache_plan(cache_str@, plan));
    }
    Ok(plan)
}

} // verus!
