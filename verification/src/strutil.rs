//! Verified string building blocks: decimal and hexadecimal rendering,
//! joining and splitting, prefix tests and path joining. Every executable
//! function is proved against a spec-level model over `Seq<char>`.

use vstd::prelude::*;

verus! {

// ---------------------------------------------------------------------------
// Decimal rendering
// ---------------------------------------------------------------------------

/// The character for one decimal digit.
pub open spec fn spec_dec_digit(d: nat) -> char {
    if d == 0 {
        '0'
    } else if d == 1 {
        '1'
    } else if d == 2 {
        '2'
    } else if d == 3 {
        '3'
    } else if d == 4 {
        '4'
    } else if d == 5 {
        '5'
    } else if d == 6 {
        '6'
    } else if d == 7 {
        '7'
    } else if d == 8 {
        '8'
    } else {
        '9'
    }
}

/// The decimal rendering of a natural number, most significant digit first,
/// with no leading zeroes (`0` renders as `"0"`).
pub open spec fn spec_dec_nat(n: nat) -> Seq<char>
    decreases n,
{
    if n < 10 {
        seq![spec_dec_digit(n)]
    } else {
        spec_dec_nat(n / 10).push(spec_dec_digit(n % 10))
    }
}

fn dec_digit_str(d: u8) -> (r: &'static str)
    requires
        d < 10,
    ensures
        r@ == seq![spec_dec_digit(d as nat)],
{
    let r: &'static str = if d == 0 {
        proof { reveal_strlit("0"); }
        "0"
    } else if d == 1 {
        proof { reveal_strlit("1"); }
        "1"
    } else if d == 2 {
        proof { reveal_strlit("2"); }
        "2"
    } else if d == 3 {
        proof { reveal_strlit("3"); }
        "3"
    } else if d == 4 {
        proof { reveal_strlit("4"); }
        "4"
    } else if d == 5 {
        proof { reveal_strlit("5"); }
        "5"
    } else if d == 6 {
        proof { reveal_strlit("6"); }
        "6"
    } else if d == 7 {
        proof { reveal_strlit("7"); }
        "7"
    } else if d == 8 {
        proof { reveal_strlit("8"); }
        "8"
    } else {
        proof { reveal_strlit("9"); }
        "9"
    };
    proof {
        assert(r@ =~= seq![spec_dec_digit(d as nat)]);
    }
    r
}

/// Render a `u64` in decimal.
pub fn u64_to_string(n: u64) -> (s: String)
    ensures
        s@ == spec_dec_nat(n as nat),
    decreases n,
{
    if n < 10 {
        let mut s = String::new();
        s.append(dec_digit_str(n as u8));
        proof {
            assert(s@ =~= spec_dec_nat(n as nat));
        }
        s
    } else {
        proof {
            assert(n / 10 < n) by (nonlinear_arith)
                requires n >= 10;
        }
        let mut s = u64_to_string(n / 10);
        s.append(dec_digit_str((n % 10) as u8));
        proof {
            assert(s@ =~= spec_dec_nat(n as nat));
        }
        s
    }
}

/// Render a `u8` in decimal.
pub fn u8_to_string(n: u8) -> (s: String)
    ensures
        s@ == spec_dec_nat(n as nat),
{
    u64_to_string(n as u64)
}

/// Render a `u32` in decimal.
pub fn u32_to_string(n: u32) -> (s: String)
    ensures
        s@ == spec_dec_nat(n as nat),
{
    u64_to_string(n as u64)
}

/// The decimal rendering of a (possibly negative) integer.
pub open spec fn spec_dec_int(n: int) -> Seq<char> {
    if n < 0 {
        seq!['-'] + spec_dec_nat((-n) as nat)
    } else {
        spec_dec_nat(n as nat)
    }
}

/// Render an `i32` in decimal, with a leading `-` when negative.
pub fn i32_to_string(n: i32) -> (s: String)
    ensures
        s@ == spec_dec_int(n as int),
{
    if n < 0 {
        let wide: i64 = n as i64;
        let mag: u64 = (-wide) as u64;
        let mut s = String::new();
        proof { reveal_strlit("-"); }
        s.append("-");
        let digits = u64_to_string(mag);
        s.append(digits.as_str());
        proof {
            assert(s@ =~= spec_dec_int(n as int));
        }
        s
    } else {
        u64_to_string(n as u64)
    }
}

// ---------------------------------------------------------------------------
// Hexadecimal rendering and parsing
// ---------------------------------------------------------------------------

/// The lower-case character for one hexadecimal digit.
pub open spec fn spec_hex_digit(d: nat) -> char {
    if d < 10 {
        spec_dec_digit(d)
    } else if d == 10 {
        'a'
    } else if d == 11 {
        'b'
    } else if d == 12 {
        'c'
    } else if d == 13 {
        'd'
    } else if d == 14 {
        'e'
    } else {
        'f'
    }
}

/// The two-digit lower-case hexadecimal rendering of one octet.
pub open spec fn spec_hex_octet(n: nat) -> Seq<char> {
    seq![spec_hex_digit(n / 16), spec_hex_digit(n % 16)]
}

fn hex_digit_str(d: u8) -> (r: &'static str)
    requires
        d < 16,
    ensures
        r@ == seq![spec_hex_digit(d as nat)],
{
    if d < 10 {
        dec_digit_str(d)
    } else {
        let r: &'static str = if d == 10 {
            proof { reveal_strlit("a"); }
            "a"
        } else if d == 11 {
            proof { reveal_strlit("b"); }
            "b"
        } else if d == 12 {
            proof { reveal_strlit("c"); }
            "c"
        } else if d == 13 {
            proof { reveal_strlit("d"); }
            "d"
        } else if d == 14 {
            proof { reveal_strlit("e"); }
            "e"
        } else {
            proof { reveal_strlit("f"); }
            "f"
        };
        proof {
            assert(r@ =~= seq![spec_hex_digit(d as nat)]);
        }
        r
    }
}

/// Render one octet as exactly two lower-case hexadecimal digits.
pub fn u8_to_hex(n: u8) -> (s: String)
    ensures
        s@ == spec_hex_octet(n as nat),
{
    let mut s = String::new();
    s.append(hex_digit_str(n / 16));
    s.append(hex_digit_str(n % 16));
    proof {
        assert(s@ =~= spec_hex_octet(n as nat));
    }
    s
}

/// Whether a character is a hexadecimal digit (either case).
pub open spec fn spec_is_hex_digit(c: char) -> bool {
    spec_hex_char_val(c) < 16
}

/// The value of a hexadecimal digit; 16 marks a non-digit.
pub open spec fn spec_hex_char_val(c: char) -> nat {
    if c == '0' { 0 } else if c == '1' { 1 } else if c == '2' { 2 }
    else if c == '3' { 3 } else if c == '4' { 4 } else if c == '5' { 5 }
    else if c == '6' { 6 } else if c == '7' { 7 } else if c == '8' { 8 }
    else if c == '9' { 9 }
    else if c == 'a' || c == 'A' { 10 }
    else if c == 'b' || c == 'B' { 11 }
    else if c == 'c' || c == 'C' { 12 }
    else if c == 'd' || c == 'D' { 13 }
    else if c == 'e' || c == 'E' { 14 }
    else if c == 'f' || c == 'F' { 15 }
    else { 16 }
}

/// The value of one hexadecimal digit character, or `None` for any other
/// character.
pub fn hex_char_val(c: char) -> (r: Option<u8>)
    ensures
        match r {
            Some(v) => spec_is_hex_digit(c) && v as nat == spec_hex_char_val(c),
            None => !spec_is_hex_digit(c),
        },
{
    match c {
        '0' => Some(0), '1' => Some(1), '2' => Some(2), '3' => Some(3),
        '4' => Some(4), '5' => Some(5), '6' => Some(6), '7' => Some(7),
        '8' => Some(8), '9' => Some(9),
        'a' | 'A' => Some(10), 'b' | 'B' => Some(11), 'c' | 'C' => Some(12),
        'd' | 'D' => Some(13), 'e' | 'E' => Some(14), 'f' | 'F' => Some(15),
        _ => None,
    }
}

// ---------------------------------------------------------------------------
// Single characters and equality
// ---------------------------------------------------------------------------

/// Copy a list of strings, keeping the characters of every element.
pub fn clone_strings(v: &Vec<String>) -> (r: Vec<String>)
    ensures
        r.deep_view() == v.deep_view(),
{
    let mut r: Vec<String> = Vec::new();
    let mut i: usize = 0;
    while i < v.len()
        invariant
            i <= v@.len(),
            r.deep_view() =~= v.deep_view().take(i as int),
        decreases v@.len() - i,
    {
        let ghost pre = r.deep_view();
        r.push(String::from_str(v[i].as_str()));
        proof {
            assert(r.deep_view() =~= pre.push(v.deep_view()[i as int]));
            assert(r.deep_view() =~= v.deep_view().take(i + 1));
        }
        i += 1;
    }
    proof {
        assert(v.deep_view().take(v@.len() as int) =~= v.deep_view());
        assert(r.deep_view() =~= v.deep_view());
    }
    r
}

/// Append the `i`-th character of `s` to `dst`.
pub fn push_char_from(dst: &mut String, s: &str, i: usize)
    requires
        i < s@.len(),
    ensures
        final(dst)@ == old(dst)@.push(s@[i as int]),
{
    let n = s.unicode_len();
    let piece = s.substring_char(i, i + 1);
    proof {
        assert(piece@ =~= seq![s@[i as int]]);
    }
    dst.append(piece);
    proof {
        assert(dst@ =~= old(dst)@.push(s@[i as int]));
    }
}

/// Whether two string slices hold the same characters.
pub fn str_eq(a: &str, b: &str) -> (r: bool)
    ensures
        r == (a@ == b@),
{
    let a_len = a.unicode_len();
    let b_len = b.unicode_len();
    if a_len != b_len {
        return false;
    }
    let mut i: usize = 0;
    while i < a_len
        invariant
            i <= a_len,
            a_len == a@.len(),
            a_len == b@.len(),
            forall|j: int| 0 <= j < i ==> a@[j] == b@[j],
        decreases a_len - i,
    {
        if a.get_char(i) != b.get_char(i) {
            return false;
        }
        i += 1;
    }
    proof {
        assert(a@ =~= b@);
    }
    true
}

/// Whether `prefix` is a prefix of `s`.
pub open spec fn spec_starts_with(s: Seq<char>, prefix: Seq<char>) -> bool {
    s.len() >= prefix.len() && s.subrange(0, prefix.len() as int) == prefix
}

/// Whether the string slice `s` starts with `prefix`.
pub fn str_starts_with(s: &str, prefix: &str) -> (r: bool)
    ensures
        r == spec_starts_with(s@, prefix@),
{
    let s_len = s.unicode_len();
    let p_len = prefix.unicode_len();
    if s_len < p_len {
        proof {
            assert(!spec_starts_with(s@, prefix@));
        }
        return false;
    }
    let mut i: usize = 0;
    while i < p_len
        invariant
            i <= p_len,
            p_len == prefix@.len(),
            s_len == s@.len(),
            p_len <= s_len,
            forall|j: int| 0 <= j < i ==> s@[j] == prefix@[j],
        decreases p_len - i,
    {
        if s.get_char(i) != prefix.get_char(i) {
            proof {
                assert(s@.subrange(0, p_len as int)[i as int] != prefix@[i as int]);
            }
            return false;
        }
        i += 1;
    }
    proof {
        assert(s@.subrange(0, p_len as int) =~= prefix@);
    }
    true
}

// ---------------------------------------------------------------------------
// Joining
// ---------------------------------------------------------------------------

/// The items of `items` joined by `sep`.
pub open spec fn spec_join(items: Seq<Seq<char>>, sep: Seq<char>) -> Seq<char>
    decreases items.len(),
{
    if items.len() == 0 {
        Seq::empty()
    } else if items.len() == 1 {
        items[0]
    } else {
        items[0] + sep + spec_join(items.drop_first(), sep)
    }
}

/// Joining distributes over appending one more item to a non-empty list.
pub proof fn lemma_join_push(items: Seq<Seq<char>>, x: Seq<char>, sep: Seq<char>)
    requires
        items.len() >= 1,
    ensures
        spec_join(items.push(x), sep) == spec_join(items, sep) + sep + x,
    decreases items.len(),
{
    if items.len() == 1 {
        let p = items.push(x);
        assert(p[0] == items[0]);
        assert(p.drop_first() =~= seq![x]);
        assert(spec_join(p.drop_first(), sep) == x);
        assert(spec_join(p, sep) == items[0] + sep + x);
    } else {
        lemma_join_push(items.drop_first(), x, sep);
        assert(items.push(x).drop_first() =~= items.drop_first().push(x));
        assert(spec_join(items, sep) + sep + x =~= items[0] + sep + (spec_join(
            items.drop_first(),
            sep,
        ) + sep + x));
    }
}

/// Join the strings of `items` with the separator `sep`.
pub fn join_strings(items: &Vec<String>, sep: &str) -> (s: String)
    ensures
        s@ == spec_join(items.deep_view(), sep@),
{
    let mut s = String::new();
    if items.len() == 0 {
        return s;
    }
    s.append(items[0].as_str());
    let mut i: usize = 1;
    proof {
        assert(s@ =~= spec_join(items.deep_view().take(1), sep@));
    }
    while i < items.len()
        invariant
            1 <= i <= items@.len(),
            s@ == spec_join(items.deep_view().take(i as int), sep@),
        decreases items@.len() - i,
    {
        s.append(sep);
        s.append(items[i].as_str());
        proof {
            let views = items.deep_view();
            lemma_join_push(views.take(i as int), views[i as int], sep@);
            assert(views.take(i + 1) =~= views.take(i as int).push(views[i as int]));
        }
        i += 1;
    }
    proof {
        assert(items.deep_view().take(items@.len() as int) =~= items.deep_view());
    }
    s
}

// ---------------------------------------------------------------------------
// Splitting
// ---------------------------------------------------------------------------

/// The pieces of `s` between occurrences of `sep`, in order. An empty string
/// yields one empty piece, a leading, trailing or doubled separator yields
/// empty pieces, matching the splitting behaviour of Rust's standard library.
pub open spec fn spec_split(s: Seq<char>, sep: char) -> Seq<Seq<char>>
    decreases s.len(),
{
    if s.len() == 0 {
        seq![Seq::<char>::empty()]
    } else if s[0] == sep {
        seq![Seq::<char>::empty()] + spec_split(s.drop_first(), sep)
    } else {
        let rest = spec_split(s.drop_first(), sep);
        seq![seq![s[0]] + rest[0]] + rest.drop_first()
    }
}

/// A split has at least one piece.
pub proof fn lemma_split_len(s: Seq<char>, sep: char)
    ensures
        spec_split(s, sep).len() >= 1,
    decreases s.len(),
{
    if s.len() != 0 {
        lemma_split_len(s.drop_first(), sep);
    }
}

/// How a split grows when one more character is appended to the subject.
pub proof fn lemma_split_push(s: Seq<char>, c: char, sep: char)
    ensures
        c == sep ==> spec_split(s.push(c), sep) == spec_split(s, sep).push(
            Seq::<char>::empty(),
        ),
        c != sep ==> spec_split(s.push(c), sep) == spec_split(s, sep).update(
            spec_split(s, sep).len() - 1,
            spec_split(s, sep).last().push(c),
        ),
    decreases s.len(),
{
    lemma_split_len(s, sep);
    if s.len() == 0 {
        assert(s.push(c)[0] == c);
        assert(s.push(c).drop_first() =~= Seq::<char>::empty());
        assert(spec_split(Seq::<char>::empty(), sep) == seq![Seq::<char>::empty()]);
        if c == sep {
            assert(spec_split(s.push(c), sep) =~= spec_split(s, sep).push(
                Seq::<char>::empty(),
            ));
        } else {
            assert(seq![c] + Seq::<char>::empty() =~= Seq::<char>::empty().push(c));
            assert(spec_split(s.push(c), sep) =~= spec_split(s, sep).update(
                0,
                spec_split(s, sep).last().push(c),
            ));
        }
    } else {
        let t = s.drop_first();
        lemma_split_push(t, c, sep);
        lemma_split_len(t, sep);
        assert(s.push(c)[0] == s[0]);
        assert(s.push(c).drop_first() =~= t.push(c));
        let restp = spec_split(t.push(c), sep);
        let rest = spec_split(t, sep);
        if c == sep {
            // restp == rest.push(empty)
            if s[0] == sep {
                assert(spec_split(s.push(c), sep) =~= spec_split(s, sep).push(
                    Seq::<char>::empty(),
                ));
            } else {
                assert(restp[0] == rest[0]);
                assert(restp.drop_first() =~= rest.drop_first().push(Seq::<char>::empty()));
                assert(spec_split(s.push(c), sep) =~= spec_split(s, sep).push(
                    Seq::<char>::empty(),
                ));
            }
        } else {
            // restp == rest.update(rest.len() - 1, rest.last().push(c))
            if s[0] == sep {
                assert(spec_split(s, sep).last() == rest.last());
                assert(spec_split(s.push(c), sep) =~= spec_split(s, sep).update(
                    spec_split(s, sep).len() - 1,
                    spec_split(s, sep).last().push(c),
                ));
            } else {
                if rest.len() == 1 {
                    assert(restp[0] == rest[0].push(c));
                    assert(restp.drop_first() =~= rest.drop_first());
                    assert(seq![s[0]] + rest[0].push(c) =~= (seq![s[0]] + rest[0]).push(c));
                    assert(spec_split(s, sep).last() == seq![s[0]] + rest[0]);
                    assert(spec_split(s.push(c), sep) =~= spec_split(s, sep).update(
                        spec_split(s, sep).len() - 1,
                        spec_split(s, sep).last().push(c),
                    ));
                } else {
                    assert(restp[0] == rest[0]);
                    assert(restp.drop_first() =~= rest.drop_first().update(
                        rest.len() - 2,
                        rest.last().push(c),
                    ));
                    assert(spec_split(s, sep).last() == rest.last());
                    assert(spec_split(s.push(c), sep) =~= spec_split(s, sep).update(
                        spec_split(s, sep).len() - 1,
                        spec_split(s, sep).last().push(c),
                    ));
                }
            }
        }
    }
}

/// Split `s` at every occurrence of `sep`.
pub fn split_str(s: &str, sep: char) -> (parts: Vec<String>)
    ensures
        parts.deep_view() == spec_split(s@, sep),
{
    let n = s.unicode_len();
    let mut parts: Vec<String> = Vec::new();
    let mut current = String::new();
    let mut i: usize = 0;
    while i < n
        invariant
            i <= n,
            n == s@.len(),
            spec_split(s@.take(i as int), sep) == parts.deep_view().push(current@),
        decreases n - i,
    {
        let c = s.get_char(i);
        proof {
            lemma_split_push(s@.take(i as int), c, sep);
            assert(s@.take(i + 1) =~= s@.take(i as int).push(s@[i as int]));
        }
        if c == sep {
            parts.push(current);
            current = String::new();
            proof {
                assert(spec_split(s@.take(i + 1), sep) =~= parts.deep_view().push(current@));
            }
        } else {
            push_char_from(&mut current, s, i);
            proof {
                let old_views = parts.deep_view().push(current@.drop_last());
                assert(old_views.last() == current@.drop_last());
                assert(current@.drop_last().push(s@[i as int]) =~= current@);
                assert(old_views.update(old_views.len() - 1, current@) =~= parts.deep_view().push(
                    current@,
                ));
            }
        }
        i += 1;
    }
    proof {
        assert(s@.take(n as int) =~= s@);
    }
    parts.push(current);
    proof {
        assert(parts.deep_view() =~= spec_split(s@, sep));
    }
    parts
}

/// Splitting a separator-free string yields that string alone.
pub proof fn lemma_split_no_sep(s: Seq<char>, sep: char)
    requires
        forall|i: int| 0 <= i < s.len() ==> s[i] != sep,
    ensures
        spec_split(s, sep) == seq![s],
    decreases s.len(),
{
    if s.len() == 0 {
        assert(s =~= Seq::<char>::empty());
        assert(spec_split(s, sep) =~= seq![s]);
    } else {
        lemma_split_no_sep(s.drop_first(), sep);
        assert(seq![s[0]] + s.drop_first() =~= s);
        assert(spec_split(s, sep) =~= seq![s]);
    }
}

/// Splitting around one separator after a separator-free head.
pub proof fn lemma_split_concat(a: Seq<char>, b: Seq<char>, sep: char)
    requires
        forall|i: int| 0 <= i < a.len() ==> a[i] != sep,
    ensures
        spec_split(a + seq![sep] + b, sep) == seq![a] + spec_split(b, sep),
    decreases a.len(),
{
    lemma_split_len(b, sep);
    if a.len() == 0 {
        assert((a + seq![sep] + b)[0] == sep);
        assert((a + seq![sep] + b).drop_first() =~= b);
        assert(a =~= Seq::<char>::empty());
        assert(spec_split(a + seq![sep] + b, sep) =~= seq![a] + spec_split(b, sep));
    } else {
        lemma_split_concat(a.drop_first(), b, sep);
        let s = a + seq![sep] + b;
        assert(s[0] == a[0]);
        assert(s.drop_first() =~= a.drop_first() + seq![sep] + b);
        let rest = spec_split(s.drop_first(), sep);
        assert(rest == seq![a.drop_first()] + spec_split(b, sep));
        assert(rest[0] == a.drop_first());
        assert(seq![a[0]] + a.drop_first() =~= a);
        assert(rest.drop_first() =~= spec_split(b, sep));
        assert(spec_split(s, sep) =~= seq![a] + spec_split(b, sep));
    }
}

// ---------------------------------------------------------------------------
// Substring containment
// ---------------------------------------------------------------------------

/// Whether `needle` occurs contiguously inside `hay`.
pub open spec fn spec_contains_sub(hay: Seq<char>, needle: Seq<char>) -> bool {
    exists|k: int|
        0 <= k && k + needle.len() <= hay.len() && #[trigger] hay.subrange(k, k + needle.len())
            == needle
}

/// A prefix occurs as a substring.
pub proof fn lemma_starts_with_contains(h: Seq<char>, n: Seq<char>)
    requires
        spec_starts_with(h, n),
    ensures
        spec_contains_sub(h, n),
{
    let k: int = 0;
    assert(h.subrange(k, k + n.len()) =~= h.subrange(0, n.len() as int));
    assert(h.subrange(k, k + n.len()) == n);
}

/// A substring of the left half occurs in the whole.
pub proof fn lemma_contains_left(a: Seq<char>, b: Seq<char>, n: Seq<char>)
    requires
        spec_contains_sub(a, n),
    ensures
        spec_contains_sub(a + b, n),
{
    let k = choose|k: int|
        0 <= k && k + n.len() <= a.len() && #[trigger] a.subrange(k, k + n.len()) == n;
    assert((a + b).subrange(k, k + n.len()) =~= a.subrange(k, k + n.len()));
}

/// A substring of the right half occurs in the whole.
pub proof fn lemma_contains_right(a: Seq<char>, b: Seq<char>, n: Seq<char>)
    requires
        spec_contains_sub(b, n),
    ensures
        spec_contains_sub(a + b, n),
{
    let k = choose|k: int|
        0 <= k && k + n.len() <= b.len() && #[trigger] b.subrange(k, k + n.len()) == n;
    assert((a + b).subrange(a.len() + k, a.len() + k + n.len()) =~= b.subrange(k, k + n.len()));
}

/// A prefix of a substring occurs in the whole.
pub proof fn lemma_contains_sub_prefix(h: Seq<char>, n: Seq<char>, m: Seq<char>)
    requires
        spec_contains_sub(h, n),
        spec_starts_with(n, m),
    ensures
        spec_contains_sub(h, m),
{
    let k = choose|k: int|
        0 <= k && k + n.len() <= h.len() && #[trigger] h.subrange(k, k + n.len()) == n;
    assert(h.subrange(k, k + m.len()) =~= n.subrange(0, m.len() as int));
}

/// A joined string starts with its first item.
pub proof fn lemma_join_starts_with_first(parts: Seq<Seq<char>>, sep: Seq<char>)
    requires
        parts.len() >= 1,
    ensures
        spec_starts_with(spec_join(parts, sep), parts[0]),
{
    if parts.len() == 1 {
        assert(spec_join(parts, sep).subrange(0, parts[0].len() as int) =~= parts[0]);
    } else {
        let j = spec_join(parts, sep);
        assert(j == parts[0] + sep + spec_join(parts.drop_first(), sep));
        assert(j.subrange(0, parts[0].len() as int) =~= parts[0]);
    }
}

/// Every item of a join occurs in the joined string.
pub proof fn lemma_join_contains_part(parts: Seq<Seq<char>>, sep: Seq<char>, i: int)
    requires
        0 <= i < parts.len(),
    ensures
        spec_contains_sub(spec_join(parts, sep), parts[i]),
    decreases parts.len(),
{
    if i == 0 {
        lemma_join_starts_with_first(parts, sep);
        lemma_starts_with_contains(spec_join(parts, sep), parts[0]);
    } else {
        lemma_join_contains_part(parts.drop_first(), sep, i - 1);
        assert(parts.drop_first()[i - 1] == parts[i]);
        lemma_contains_right(parts[0] + sep, spec_join(parts.drop_first(), sep), parts[i]);
        assert(parts[0] + sep + spec_join(parts.drop_first(), sep) =~= (parts[0] + sep)
            + spec_join(parts.drop_first(), sep));
    }
}

// ---------------------------------------------------------------------------
// Path joining
// ---------------------------------------------------------------------------

/// Joining a relative path onto a base, as paths compose: an absolute `b`
/// replaces `a`, otherwise the two are joined with exactly one separator.
pub open spec fn spec_path_join(a: Seq<char>, b: Seq<char>) -> Seq<char> {
    if b.len() > 0 && b[0] == '/' {
        b
    } else if a.len() == 0 {
        b
    } else if a[a.len() - 1] == '/' {
        a + b
    } else {
        a + seq!['/'] + b
    }
}

/// Join the path `b` onto the base path `a`.
pub fn path_join(a: &str, b: &str) -> (r: String)
    ensures
        r@ == spec_path_join(a@, b@),
{
    let b_len = b.unicode_len();
    if b_len > 0 && b.get_char(0) == '/' {
        let mut r = String::new();
        r.append(b);
        proof {
            assert(r@ =~= spec_path_join(a@, b@));
        }
        return r;
    }
    let a_len = a.unicode_len();
    if a_len == 0 {
        let mut r = String::new();
        r.append(b);
        proof {
            assert(r@ =~= spec_path_join(a@, b@));
        }
        return r;
    }
    let mut r = String::new();
    r.append(a);
    if a.get_char(a_len - 1) != '/' {
        proof { reveal_strlit("/"); }
        r.append("/");
        proof {
            assert("/"@ =~= seq!['/']);
        }
    }
    r.append(b);
    proof {
        assert(r@ =~= spec_path_join(a@, b@));
    }
    r
}

} // verus!
