//! The MAC/IPv4 address codec. A guest learns its address without DHCP: the
//! host encodes the guest's IPv4 address into the guest NIC's MAC address
//! behind the magic `06:00:` prefix, and the guest decodes it at boot. The
//! two directions are proved to be mutually inverse.

use vstd::prelude::*;

use crate::strutil::{
    spec_hex_char_val, spec_hex_octet, spec_is_hex_digit, spec_split, spec_starts_with,
    spec_dec_nat, hex_char_val, lemma_split_concat, lemma_split_no_sep, split_str,
    str_starts_with, u8_to_hex, u8_to_string, spec_hex_digit,
};

verus! {

/// An IPv4 address as its four octets.
#[derive(Clone, Copy, PartialEq, Eq, Structural, Debug)]
pub struct Ipv4Address {
    pub oct0: u8,
    pub oct1: u8,
    pub oct2: u8,
    pub oct3: u8,
}

/// The dotted-decimal rendering of an IPv4 address.
pub open spec fn spec_ipv4(ip: Ipv4Address) -> Seq<char> {
    spec_dec_nat(ip.oct0 as nat) + seq!['.'] + spec_dec_nat(ip.oct1 as nat) + seq!['.']
        + spec_dec_nat(ip.oct2 as nat) + seq!['.'] + spec_dec_nat(ip.oct3 as nat)
}

impl Ipv4Address {
    /// The address with these four octets.
    pub fn new(oct0: u8, oct1: u8, oct2: u8, oct3: u8) -> (ip: Ipv4Address)
        ensures
            ip == (Ipv4Address { oct0, oct1, oct2, oct3 }),
    {
        Ipv4Address { oct0, oct1, oct2, oct3 }
    }

    /// Render the address in dotted-decimal form.
    pub fn dotted(&self) -> (s: String)
        ensures
            s@ == spec_ipv4(*self),
    {
        let mut s = u8_to_string(self.oct0);
        proof { reveal_strlit("."); }
        s.append(".");
        let p1 = u8_to_string(self.oct1);
        s.append(p1.as_str());
        s.append(".");
        let p2 = u8_to_string(self.oct2);
        s.append(p2.as_str());
        s.append(".");
        let p3 = u8_to_string(self.oct3);
        s.append(p3.as_str());
        proof {
            assert("."@ =~= seq!['.']);
            assert(s@ =~= spec_ipv4(*self));
        }
        s
    }
}

/// Why a MAC address did not decode to an IPv4 address.
#[derive(Debug)]
pub enum MacToIpError {
    /// An octet could not be parsed as a hexadecimal number.
    ParseIntError,
    /// The MAC address carries no valid IPv4 address; holds the offending
    /// MAC address.
    NoIpInMac(String),
}

/// The MAC address encoding of an IPv4 address: the magic `06:00:` prefix
/// followed by the four octets in two-digit lower-case hexadecimal.
pub open spec fn spec_ip_to_mac(ip: Ipv4Address) -> Seq<char> {
    "06:00"@ + seq![':'] + spec_hex_octet(ip.oct0 as nat) + seq![':'] + spec_hex_octet(
        ip.oct1 as nat,
    ) + seq![':'] + spec_hex_octet(ip.oct2 as nat) + seq![':'] + spec_hex_octet(ip.oct3 as nat)
}

/// Convert an IPv4 address to the MAC address that encodes it.
pub fn ip_to_mac(ip: &Ipv4Address) -> (mac: String)
    ensures
        mac@ == spec_ip_to_mac(*ip),
{
    let mut mac = String::from_str("06:00");
    proof { reveal_strlit(":"); }
    mac.append(":");
    let h0 = u8_to_hex(ip.oct0);
    mac.append(h0.as_str());
    mac.append(":");
    let h1 = u8_to_hex(ip.oct1);
    mac.append(h1.as_str());
    mac.append(":");
    let h2 = u8_to_hex(ip.oct2);
    mac.append(h2.as_str());
    mac.append(":");
    let h3 = u8_to_hex(ip.oct3);
    mac.append(h3.as_str());
    proof {
        assert(":"@ =~= seq![':']);
        assert(mac@ =~= spec_ip_to_mac(*ip));
    }
    mac
}

/// `s` with the magic prefix removed when it is present.
pub open spec fn spec_strip_magic(s: Seq<char>) -> Seq<char> {
    if spec_starts_with(s, "06:00:"@) {
        s.skip("06:00:"@.len() as int)
    } else {
        s
    }
}

/// The numeric value of a string of hexadecimal digits.
pub open spec fn spec_hex_val(s: Seq<char>) -> nat
    decreases s.len(),
{
    if s.len() == 0 {
        0
    } else {
        spec_hex_val(s.drop_last()) * 16 + spec_hex_char_val(s.last())
    }
}

/// Whether a piece of a MAC address is a valid octet: non-empty, made of
/// hexadecimal digits, and small enough for one byte.
pub open spec fn spec_is_octet(s: Seq<char>) -> bool {
    s.len() > 0 && (forall|i: int| 0 <= i < s.len() ==> spec_is_hex_digit(#[trigger] s[i]))
        && spec_hex_val(s) < 256
}

/// The IPv4 address recovered from a MAC address: after stripping the magic
/// prefix, the colon-separated pieces must all be valid hexadecimal octets
/// and there must be at least four; the first four form the address.
pub open spec fn spec_mac_to_ip(s: Seq<char>) -> Option<Ipv4Address> {
    let parts = spec_split(spec_strip_magic(s), ':');
    if parts.len() >= 4 && (forall|i: int|
        0 <= i < parts.len() ==> spec_is_octet(#[trigger] parts[i])) {
        Some(
            Ipv4Address {
                oct0: spec_hex_val(parts[0]) as u8,
                oct1: spec_hex_val(parts[1]) as u8,
                oct2: spec_hex_val(parts[2]) as u8,
                oct3: spec_hex_val(parts[3]) as u8,
            },
        )
    } else {
        None
    }
}

/// A longer hexadecimal prefix never has a smaller value.
proof fn lemma_hex_val_prefix_mono(s: Seq<char>, i: int)
    requires
        0 <= i <= s.len(),
    ensures
        spec_hex_val(s.take(i)) <= spec_hex_val(s),
    decreases s.len() - i,
{
    if i < s.len() {
        lemma_hex_val_prefix_mono(s, i + 1);
        let t = s.take(i + 1);
        assert(t.drop_last() =~= s.take(i));
        assert(spec_hex_val(s.take(i)) * 16 >= spec_hex_val(s.take(i))) by (nonlinear_arith);
    } else {
        assert(s.take(i) =~= s);
    }
}

/// Parse one colon-separated piece as a hexadecimal octet.
fn parse_octet(s: &str) -> (r: Option<u8>)
    ensures
        match r {
            Some(v) => spec_is_octet(s@) && spec_hex_val(s@) == v as nat,
            None => !spec_is_octet(s@),
        },
{
    let n = s.unicode_len();
    if n == 0 {
        return None;
    }
    let mut acc: u16 = 0;
    let mut i: usize = 0;
    while i < n
        invariant
            i <= n,
            n == s@.len(),
            forall|j: int| 0 <= j < i ==> spec_is_hex_digit(#[trigger] s@[j]),
            acc as nat == spec_hex_val(s@.take(i as int)),
            acc < 256,
        decreases n - i,
    {
        let c = s.get_char(i);
        let d = match hex_char_val(c) {
            Some(d) => d,
            None => {
                return None;
            },
        };
        proof {
            assert(s@.take(i + 1).drop_last() =~= s@.take(i as int));
        }
        acc = acc * 16 + (d as u16);
        if acc > 255 {
            proof {
                lemma_hex_val_prefix_mono(s@, i + 1);
            }
            return None;
        }
        i += 1;
    }
    proof {
        assert(s@.take(n as int) =~= s@);
    }
    Some(acc as u8)
}

/// Decode the IPv4 address carried by a MAC address.
pub fn mac_to_ip(mac: &str) -> (r: Result<Ipv4Address, MacToIpError>)
    ensures
        match r {
            Ok(ip) => spec_mac_to_ip(mac@) == Some(ip),
            Err(e) => spec_mac_to_ip(mac@) is None && (e matches MacToIpError::NoIpInMac(m)
                && m@ == mac@),
        },
{
    let tail: String = if str_starts_with(mac, "06:00:") {
        proof { reveal_strlit("06:00:"); }
        let n = mac.unicode_len();
        String::from_str(mac.substring_char(6, n))
    } else {
        String::from_str(mac)
    };
    proof {
        assert(tail@ == spec_strip_magic(mac@));
    }
    let parts = split_str(tail.as_str(), ':');
    let mut octets: Vec<u8> = Vec::new();
    let mut i: usize = 0;
    while i < parts.len()
        invariant
            i <= parts@.len(),
            octets@.len() == i,
            spec_split(spec_strip_magic(mac@), ':') == parts.deep_view(),
            forall|j: int| 0 <= j < i ==> spec_is_octet(#[trigger] parts.deep_view()[j]),
            forall|j: int|
                0 <= j < i ==> octets@[j] as nat == spec_hex_val(#[trigger] parts.deep_view()[j]),
        decreases parts@.len() - i,
    {
        proof {
            assert(parts.deep_view()[i as int] == parts@[i as int]@);
        }
        match parse_octet(parts[i].as_str()) {
            Some(v) => {
                octets.push(v);
            },
            None => {
                proof {
                    assert(!spec_is_octet(parts.deep_view()[i as int]));
                }
                return Err(MacToIpError::NoIpInMac(String::from_str(mac)));
            },
        }
        i += 1;
    }
    proof {
        assert(parts.deep_view().len() == parts@.len());
    }
    if octets.len() < 4 {
        return Err(MacToIpError::NoIpInMac(String::from_str(mac)));
    }
    Ok(Ipv4Address { oct0: octets[0], oct1: octets[1], oct2: octets[2], oct3: octets[3] })
}

// ---------------------------------------------------------------------------
// The round trip
// ---------------------------------------------------------------------------

/// The value of a two-digit hexadecimal rendering is the rendered octet.
proof fn lemma_hex_octet_val(n: nat)
    requires
        n < 256,
    ensures
        spec_is_octet(spec_hex_octet(n)),
        spec_hex_val(spec_hex_octet(n)) == n,
{
    let h = spec_hex_octet(n);
    assert(n / 16 < 16) by (nonlinear_arith)
        requires n < 256;
    assert(spec_hex_char_val(spec_hex_digit(n / 16)) == n / 16);
    assert(spec_hex_char_val(spec_hex_digit(n % 16)) == n % 16);
    assert(h.drop_last() =~= seq![spec_hex_digit(n / 16)]);
    assert(seq![spec_hex_digit(n / 16)].drop_last() =~= Seq::<char>::empty());
    assert(spec_hex_val(Seq::<char>::empty()) == 0);
    assert(spec_hex_val(seq![spec_hex_digit(n / 16)]) == n / 16);
    assert(h.last() == spec_hex_digit(n % 16));
    assert(spec_hex_val(h) == (n / 16) * 16 + n % 16);
    assert((n / 16) * 16 + n % 16 == n) by (nonlinear_arith);
}

/// A rendered hexadecimal octet never contains the separator.
proof fn lemma_hex_octet_no_colon(n: nat)
    requires
        n < 256,
    ensures
        forall|i: int|
            0 <= i < spec_hex_octet(n).len() ==> spec_hex_octet(n)[i] != ':',
{
    assert(spec_hex_digit(n / 16) != ':');
    assert(spec_hex_digit(n % 16) != ':');
}

/// Decoding inverts encoding: every IPv4 address survives the trip through
/// its MAC form.
pub proof fn lemma_mac_ip_round_trip(ip: Ipv4Address)
    ensures
        spec_mac_to_ip(spec_ip_to_mac(ip)) == Some(ip),
{
    let m = spec_ip_to_mac(ip);
    let h0 = spec_hex_octet(ip.oct0 as nat);
    let h1 = spec_hex_octet(ip.oct1 as nat);
    let h2 = spec_hex_octet(ip.oct2 as nat);
    let h3 = spec_hex_octet(ip.oct3 as nat);
    reveal_strlit("06:00");
    reveal_strlit("06:00:");
    assert("06:00"@ + seq![':'] =~= "06:00:"@);
    assert(m.subrange(0, 6) =~= "06:00:"@);
    assert(spec_starts_with(m, "06:00:"@));
    let tail = spec_strip_magic(m);
    assert(tail =~= h0 + seq![':'] + (h1 + seq![':'] + (h2 + seq![':'] + h3)));
    lemma_hex_octet_no_colon(ip.oct0 as nat);
    lemma_hex_octet_no_colon(ip.oct1 as nat);
    lemma_hex_octet_no_colon(ip.oct2 as nat);
    lemma_hex_octet_no_colon(ip.oct3 as nat);
    lemma_split_concat(h0, h1 + seq![':'] + (h2 + seq![':'] + h3), ':');
    lemma_split_concat(h1, h2 + seq![':'] + h3, ':');
    lemma_split_concat(h2, h3, ':');
    lemma_split_no_sep(h3, ':');
    assert(h0 + seq![':'] + (h1 + seq![':'] + (h2 + seq![':'] + h3)) =~= h0 + seq![':'] + (h1
        + seq![':'] + (h2 + seq![':'] + h3)));
    let parts = spec_split(tail, ':');
    assert(parts =~= seq![h0, h1, h2, h3]);
    lemma_hex_octet_val(ip.oct0 as nat);
    lemma_hex_octet_val(ip.oct1 as nat);
    lemma_hex_octet_val(ip.oct2 as nat);
    lemma_hex_octet_val(ip.oct3 as nat);
    assert(forall|i: int| 0 <= i < parts.len() ==> spec_is_octet(#[trigger] parts[i]));
    assert(spec_mac_to_ip(m) == Some(ip));
}

/// Encoding inverts decoding on every syntactically valid MAC address, that
/// is, on every string of the encoder's form.
pub proof fn lemma_ip_mac_round_trip(m: Seq<char>)
    requires
        exists|ip: Ipv4Address| m == spec_ip_to_mac(ip),
    ensures
        spec_mac_to_ip(m) is Some,
        spec_ip_to_mac(spec_mac_to_ip(m)->Some_0) == m,
{
    let ip = choose|ip: Ipv4Address| m == spec_ip_to_mac(ip);
    lemma_mac_ip_round_trip(ip);
}

} // verus!
