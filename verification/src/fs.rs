//! File-system maintenance commands: sparse copies, recursive removal,
//! directory creation, sparse-file allocation, formatting, and parsing the
//! output of the disk-usage utility.

use vstd::prelude::*;

use crate::command::Cmd;
use crate::strutil::{spec_dec_nat, u64_to_string};

verus! {

/// Whether a command consists of exactly this program and these arguments.
pub open spec fn cmd_is(c: Cmd, program: Seq<char>, args: Seq<Seq<char>>) -> bool {
    c.program@ == program && c.args.deep_view() == args
}

/// The command that copies `from` to `to`, keeping holes sparse.
pub fn copy_sparse(from: &str, to: &str) -> (c: Cmd)
    ensures
        cmd_is(c, "cp"@, seq!["--sparse=always"@, from@, to@]),
{
    let mut c = Cmd::new(String::from_str("cp"));
    c.arg(String::from_str("--sparse=always"));
    c.arg(String::from_str(from));
    c.arg(String::from_str(to));
    proof {
        assert(c.args.deep_view() =~= seq!["--sparse=always"@, from@, to@]);
    }
    c
}

/// The command that removes `path` recursively, ignoring absence.
pub fn rm_rf(path: &str) -> (c: Cmd)
    ensures
        cmd_is(c, "rm"@, seq!["-rf"@, path@]),
{
    let mut c = Cmd::new(String::from_str("rm"));
    c.arg(String::from_str("-rf"));
    c.arg(String::from_str(path));
    proof {
        assert(c.args.deep_view() =~= seq!["-rf"@, path@]);
    }
    c
}

/// The command that creates `path` and any missing parents.
pub fn mkdir_p(path: &str) -> (c: Cmd)
    ensures
        cmd_is(c, "mkdir"@, seq!["-p"@, path@]),
{
    let mut c = Cmd::new(String::from_str("mkdir"));
    c.arg(String::from_str("-p"));
    c.arg(String::from_str(path));
    proof {
        assert(c.args.deep_view() =~= seq!["-p"@, path@]);
    }
    c
}

/// The command that formats `path` as ext4.
pub fn mkfs_ext4(path: &str) -> (c: Cmd)
    ensures
        cmd_is(c, "mkfs.ext4"@, seq![path@]),
{
    let mut c = Cmd::new(String::from_str("mkfs.ext4"));
    c.arg(String::from_str(path));
    proof {
        assert(c.args.deep_view() =~= seq![path@]);
    }
    c
}

/// The command that allocates a sparse file of `size_in_mb` mebibytes at
/// `path`.
pub fn dd(path: &str, size_in_mb: u64) -> (c: Cmd)
    ensures
        cmd_is(c, "dd"@, seq![
            "if=/dev/zero"@,
            "of="@ + path@,
            "conv=sparse"@,
            "bs=1M"@,
            "count="@ + spec_dec_nat(size_in_mb as nat),
        ]),
{
    let mut c = Cmd::new(String::from_str("dd"));
    c.arg(String::from_str("if=/dev/zero"));
    let mut of_arg = String::from_str("of=");
    of_arg.append(path);
    c.arg(of_arg);
    c.arg(String::from_str("conv=sparse"));
    c.arg(String::from_str("bs=1M"));
    let mut count_arg = String::from_str("count=");
    let count = u64_to_string(size_in_mb);
    count_arg.append(count.as_str());
    c.arg(count_arg);
    proof {
        assert(c.args.deep_view() =~= seq![
            "if=/dev/zero"@,
            "of="@ + path@,
            "conv=sparse"@,
            "bs=1M"@,
            "count="@ + spec_dec_nat(size_in_mb as nat),
        ]);
    }
    c
}

/// The command that reports the usage of `path` in kilobytes.
pub fn du(path: &str) -> (c: Cmd)
    ensures
        cmd_is(c, "du"@, seq![path@]),
{
    let mut c = Cmd::new(String::from_str("du"));
    c.arg(String::from_str(path));
    proof {
        assert(c.args.deep_view() =~= seq![path@]);
    }
    c
}

// ---------------------------------------------------------------------------
// Parsing the usage report
// ---------------------------------------------------------------------------

/// An ASCII whitespace character, the token delimiter of the usage report.
pub open spec fn spec_is_ws(c: char) -> bool {
    c == ' ' || c == '\t' || c == '\n' || c == '\r' || c == '\u{b}' || c == '\u{c}'
}

/// `s` without its leading whitespace.
pub open spec fn spec_skip_ws(s: Seq<char>) -> Seq<char>
    decreases s.len(),
{
    if s.len() > 0 && spec_is_ws(s[0]) {
        spec_skip_ws(s.drop_first())
    } else {
        s
    }
}

/// The longest whitespace-free prefix of `s`.
pub open spec fn spec_take_until_ws(s: Seq<char>) -> Seq<char>
    decreases s.len(),
{
    if s.len() > 0 && !spec_is_ws(s[0]) {
        seq![s[0]] + spec_take_until_ws(s.drop_first())
    } else {
        Seq::empty()
    }
}

/// The first whitespace-delimited token of `s` (empty when there is none).
pub open spec fn spec_first_token(s: Seq<char>) -> Seq<char> {
    spec_take_until_ws(spec_skip_ws(s))
}

/// Whether every character of `s` is a decimal digit.
pub open spec fn spec_all_digits(s: Seq<char>) -> bool {
    forall|i: int| 0 <= i < s.len() ==> '0' <= #[trigger] s[i] <= '9'
}

/// The value of one decimal digit character.
pub open spec fn spec_digit_val(c: char) -> nat {
    if c == '0' { 0 } else if c == '1' { 1 } else if c == '2' { 2 }
    else if c == '3' { 3 } else if c == '4' { 4 } else if c == '5' { 5 }
    else if c == '6' { 6 } else if c == '7' { 7 } else if c == '8' { 8 }
    else { 9 }
}

/// The numeric value of a string of decimal digits.
pub open spec fn spec_dec_val(s: Seq<char>) -> nat
    decreases s.len(),
{
    if s.len() == 0 {
        0
    } else {
        spec_dec_val(s.drop_last()) * 10 + spec_digit_val(s.last())
    }
}

/// A longer digit prefix never has a smaller value.
proof fn lemma_dec_val_prefix_mono(s: Seq<char>, i: int)
    requires
        0 <= i <= s.len(),
    ensures
        spec_dec_val(s.take(i)) <= spec_dec_val(s),
    decreases s.len() - i,
{
    if i < s.len() {
        lemma_dec_val_prefix_mono(s, i + 1);
        let t = s.take(i + 1);
        assert(t.drop_last() =~= s.take(i));
        assert(spec_dec_val(s.take(i)) * 10 >= spec_dec_val(s.take(i))) by (nonlinear_arith);
    } else {
        assert(s.take(i) =~= s);
    }
}

/// Parse a string of decimal digits into a `u64`. Returns `None` when the
/// token is empty, contains a non-digit, or exceeds the `u64` range.
pub fn parse_u64(s: &str) -> (r: Option<u64>)
    ensures
        match r {
            Some(n) => s@.len() > 0 && spec_all_digits(s@) && spec_dec_val(s@) == n as nat,
            None => s@.len() == 0 || !spec_all_digits(s@) || spec_dec_val(s@) > u64::MAX,
        },
{
    let n = s.unicode_len();
    if n == 0 {
        return None;
    }
    let mut acc: u64 = 0;
    let mut i: usize = 0;
    while i < n
        invariant
            i <= n,
            n == s@.len(),
            spec_all_digits(s@.take(i as int)),
            acc as nat == spec_dec_val(s@.take(i as int)),
        decreases n - i,
    {
        let c = s.get_char(i);
        let d: u64 = match c {
            '0' => 0, '1' => 1, '2' => 2, '3' => 3, '4' => 4,
            '5' => 5, '6' => 6, '7' => 7, '8' => 8, '9' => 9,
            _ => {
                proof {
                    assert(!spec_all_digits(s@));
                }
                return None;
            },
        };
        proof {
            assert(s@.take(i + 1).drop_last() =~= s@.take(i as int));
        }
        if acc > (u64::MAX - d) / 10 {
            proof {
                assert(acc as nat * 10 + d as nat > u64::MAX) by (nonlinear_arith)
                    requires
                        acc as nat > ((u64::MAX - d) / 10) as nat,
                        d < 10,
                ;
                lemma_dec_val_prefix_mono(s@, i + 1);
            }
            return None;
        }
        proof {
            assert(acc as nat <= ((u64::MAX - d) / 10) as nat);
            assert(acc as nat * 10 + d as nat <= u64::MAX) by (nonlinear_arith)
                requires
                    acc as nat <= ((u64::MAX - d) / 10) as nat,
                    d <= 9,
            ;
        }
        acc = acc * 10 + d;
        i += 1;
    }
    proof {
        assert(s@.take(n as int) =~= s@);
    }
    Some(acc)
}

fn is_ws(c: char) -> (r: bool)
    ensures
        r == spec_is_ws(c),
{
    c == ' ' || c == '\t' || c == '\n' || c == '\r' || c == '\u{b}' || c == '\u{c}'
}

/// How skipping whitespace advances through a prefix view of `s`.
pub proof fn lemma_skip_ws_index(s: Seq<char>, i: int)
    requires
        0 <= i <= s.len(),
        forall|j: int| 0 <= j < i ==> spec_is_ws(s[j]),
    ensures
        spec_skip_ws(s) == spec_skip_ws(s.skip(i)),
    decreases i,
{
    if i > 0 {
        assert(spec_is_ws(s[0]));
        assert(s.drop_first() =~= s.skip(1));
        lemma_skip_ws_index(s.skip(1), i - 1);
        assert(s.skip(1).skip(i - 1) =~= s.skip(i));
    } else {
        assert(s.skip(0) =~= s);
    }
}

/// The whitespace-free prefix of a sequence that starts without whitespace.
proof fn lemma_take_until_ws(s: Seq<char>, k: int)
    requires
        0 <= k <= s.len(),
        forall|j: int| 0 <= j < k ==> !spec_is_ws(s[j]),
        k == s.len() || spec_is_ws(s[k]),
    ensures
        spec_take_until_ws(s) == s.take(k),
    decreases k,
{
    if k == 0 {
        if s.len() > 0 {
            assert(spec_is_ws(s[0]));
        }
        assert(s.take(0) =~= Seq::<char>::empty());
    } else {
        assert(!spec_is_ws(s[0]));
        assert(s.drop_first() =~= s.skip(1));
        lemma_take_until_ws(s.skip(1), k - 1);
        assert(seq![s[0]] + s.skip(1).take(k - 1) =~= s.take(k));
    }
}

/// The first whitespace-delimited token of the usage report, parsed as a
/// kilobyte count. `None` when the report has no leading number that fits.
pub fn parse_du_output(output: &str) -> (r: Option<u64>)
    ensures
        match r {
            Some(n) => {
                let token = spec_first_token(output@);
                token.len() > 0 && spec_all_digits(token) && spec_dec_val(token) == n as nat
            },
            None => {
                let token = spec_first_token(output@);
                token.len() == 0 || !spec_all_digits(token) || spec_dec_val(token) > u64::MAX
            },
        },
{
    let n = output.unicode_len();
    let mut start: usize = 0;
    while start < n && is_ws(output.get_char(start))
        invariant
            start <= n,
            n == output@.len(),
            forall|j: int| 0 <= j < start ==> spec_is_ws(output@[j]),
        decreases n - start,
    {
        start += 1;
    }
    proof {
        lemma_skip_ws_index(output@, start as int);
        assert(spec_skip_ws(output@.skip(start as int)) == output@.skip(start as int));
    }
    let mut end: usize = start;
    while end < n && !is_ws(output.get_char(end))
        invariant
            start <= end <= n,
            n == output@.len(),
            forall|j: int| start <= j < end ==> !spec_is_ws(output@[j]),
        decreases n - end,
    {
        end += 1;
    }
    proof {
        let tail = output@.skip(start as int);
        lemma_take_until_ws(tail, end - start);
        assert(tail.take(end - start) =~= output@.subrange(start as int, end as int));
        assert(spec_first_token(output@) == output@.subrange(start as int, end as int));
    }
    let token = output.substring_char(start, end);
    parse_u64(token)
}

} // verus!
