//! IPv4 addresses in dot-decimal notation.
use crate::text::{decimal, decimal_text, is_digit, lemma_decimal_reads_back};
use vstd::prelude::*;
use vstd::string::*;

verus! {

/// The unspecified address, `0.0.0.0`.
pub const UNSPECIFIED: u32 = 0;

/// The octet of `ip` at position `i`, counted from the most significant one.
pub open spec fn octet(ip: u32, i: int) -> nat {
    if i == 0 {
        ip as nat / 0x100_0000
    } else if i == 1 {
        ip as nat / 0x1_0000 % 0x100
    } else if i == 2 {
        ip as nat / 0x100 % 0x100
    } else {
        ip as nat % 0x100
    }
}

/// The text of `ip`: its four octets in decimal, without leading zeros, divided by dots.
pub open spec fn dotted(ip: u32) -> Seq<char> {
    decimal(octet(ip, 0)) + seq!['.'] + decimal(octet(ip, 1)) + seq!['.'] + decimal(octet(ip, 2))
        + seq!['.'] + decimal(octet(ip, 3))
}

/// The address whose text is `s`; `None` when `s` is the text of none.
pub open spec fn ipv4_of_text(s: Seq<char>) -> Option<u32> {
    if exists|ip: u32| #[trigger] dotted(ip) == s {
        Some(choose|ip: u32| #[trigger] dotted(ip) == s)
    } else {
        None
    }
}

/// Where a reading of `s` from the left stands: the octets behind the last dot passed, as one
/// number, and the octet under way. Characters other than digits and dots are passed over, and
/// both numbers wrap around.
spec fn scan(s: Seq<char>) -> (u32, u32)
    decreases s.len(),
{
    if s.len() == 0 {
        (0, 0)
    } else {
        let (front, current) = scan(s.drop_last());
        scan_step(front, current, s.last())
    }
}

spec fn scan_step(front: u32, current: u32, c: char) -> (u32, u32) {
    if c == '.' {
        (shifted(front, current), 0)
    } else if is_digit(c) {
        (front, ((current * 10 + (c as int - 48)) % 0x1_0000_0000) as u32)
    } else {
        (front, current)
    }
}

spec fn shifted(front: u32, current: u32) -> u32 {
    ((front * 0x100 + current) % 0x1_0000_0000) as u32
}

proof fn lemma_scan_push(s: Seq<char>, c: char)
    ensures
        scan(s.push(c)) == scan_step(scan(s).0, scan(s).1, c),
{
    assert(s.push(c).drop_last() =~= s);
}

proof fn lemma_scan_numeral(s: Seq<char>, n: nat)
    requires
        scan(s).1 == 0,
        n <= u32::MAX,
    ensures
        scan(s + decimal(n)) == (scan(s).0, n as u32),
    decreases n,
{
    if n < 10 {
        assert(s + decimal(n) =~= s.push(decimal(n)[0]));
        lemma_scan_push(s, decimal(n)[0]);
    } else {
        lemma_scan_numeral(s, n / 10);
        assert(s + decimal(n) =~= (s + decimal(n / 10)).push(decimal(n).last()));
        lemma_scan_push(s + decimal(n / 10), decimal(n).last());
    }
}

proof fn lemma_octets(ip: u32)
    ensures
        octet(ip, 0) < 0x100,
        octet(ip, 1) < 0x100,
        octet(ip, 2) < 0x100,
        octet(ip, 3) < 0x100,
        ((octet(ip, 0) * 0x100 + octet(ip, 1)) * 0x100 + octet(ip, 2)) * 0x100 + octet(ip, 3) == ip,
{
}

/// Reading one more octet behind a dot.
proof fn lemma_scan_octet(s: Seq<char>, front: u32, current: u32, n: nat)
    requires
        scan(s) == (front, current),
        front < 0x100_0000,
        current < 0x100,
        n < 0x100,
    ensures
        scan(s + seq!['.'] + decimal(n)) == ((front * 0x100 + current) as u32, n as u32),
{
    assert(s + seq!['.'] =~= s.push('.'));
    lemma_scan_push(s, '.');
    lemma_scan_numeral(s + seq!['.'], n);
}

/// Reading the text of an address gives the address.
proof fn lemma_scan_dotted(ip: u32)
    ensures
        shifted(scan(dotted(ip)).0, scan(dotted(ip)).1) == ip,
{
    let (o0, o1, o2, o3) = (octet(ip, 0), octet(ip, 1), octet(ip, 2), octet(ip, 3));
    let a = decimal(o0);
    let b = a + seq!['.'] + decimal(o1);
    let c = b + seq!['.'] + decimal(o2);
    lemma_octets(ip);
    lemma_scan_numeral(Seq::empty(), o0);
    assert(Seq::<char>::empty() + a =~= a);
    lemma_scan_octet(a, 0, o0 as u32, o1);
    lemma_scan_octet(b, o0 as u32, o1 as u32, o2);
    lemma_scan_octet(c, (o0 * 0x100 + o1) as u32, o2 as u32, o3);
}

/// An address is found again from its text, so no two addresses have the same text.
pub proof fn law_ipv4_text_reads_back(ip: u32)
    ensures
        ipv4_of_text(dotted(ip)) == Some(ip),
{
    let found = choose|other: u32| #[trigger] dotted(other) == dotted(ip);
    assert(dotted(found) == dotted(ip));
    lemma_scan_dotted(ip);
    lemma_scan_dotted(found);
}

proof fn lemma_numeral_has_no_colon(s: Seq<char>, n: nat)
    requires
        !s.contains(':'),
    ensures
        !(s + decimal(n)).contains(':'),
        !(s + decimal(n) + seq!['.']).contains(':'),
{
    lemma_decimal_reads_back(n);
    let longer = s + decimal(n);
    assert forall|i: int| 0 <= i < longer.len() implies longer[i] != ':' by {
        if i < s.len() {
            assert(s.contains(s[i]));
        } else {
            assert(is_digit(decimal(n)[i - s.len()]));
        }
    }
}

/// The text of an address holds no colon, and begins with a digit.
pub proof fn lemma_dotted_has_no_colon(ip: u32)
    ensures
        !dotted(ip).contains(':'),
        dotted(ip).len() > 0,
        is_digit(dotted(ip)[0]),
{
    let a = decimal(octet(ip, 0)) + seq!['.'];
    let b = a + decimal(octet(ip, 1)) + seq!['.'];
    let c = b + decimal(octet(ip, 2)) + seq!['.'];
    assert(Seq::<char>::empty() + decimal(octet(ip, 0)) =~= decimal(octet(ip, 0)));
    lemma_numeral_has_no_colon(Seq::empty(), octet(ip, 0));
    lemma_numeral_has_no_colon(a, octet(ip, 1));
    lemma_numeral_has_no_colon(b, octet(ip, 2));
    lemma_numeral_has_no_colon(c, octet(ip, 3));
    lemma_decimal_reads_back(octet(ip, 0));
    assert(dotted(ip)[0] == decimal(octet(ip, 0))[0]);
}

/// Writes `ip` in dot-decimal notation.
pub fn dotted_text(ip: u32) -> (text: String)
    ensures
        text@ == dotted(ip),
{
    proof {
        reveal_strlit(".");
    }
    let mut text = decimal_text((ip / 0x100_0000) as u16);
    text.append(".");
    text.append(decimal_text((ip / 0x1_0000 % 0x100) as u16).as_str());
    text.append(".");
    text.append(decimal_text((ip / 0x100 % 0x100) as u16).as_str());
    text.append(".");
    text.append(decimal_text((ip % 0x100) as u16).as_str());
    assert("."@ =~= seq!['.']);
    text
}

/// Reads an address in dot-decimal notation. The text is first read loosely; it is the text of an
/// address exactly when the address so read is written the same way.
pub fn parse_ipv4(s: &str) -> (ip: Option<u32>)
    ensures
        ip == ipv4_of_text(s@),
{
    let mut front: u32 = 0;
    let mut current: u32 = 0;
    for c in it: s.chars()
        invariant
            it.seq() == s@,
            scan(s@.take(it.index())) == (front, current),
    {
        proof {
            assert(s@.take(it.index() + 1) =~= s@.take(it.index()).push(c));
            lemma_scan_push(s@.take(it.index()), c);
        }
        if c == '.' {
            front = ((front as u64 * 0x100 + current as u64) % 0x1_0000_0000) as u32;
            current = 0;
        } else if '0' <= c && c <= '9' {
            let digit: u32 = c as u32 - 48;
            current = ((current as u64 * 10 + digit as u64) % 0x1_0000_0000) as u32;
        }
    }
    assert(s@.take(s@.len() as int) =~= s@);
    let ip: u32 = ((front as u64 * 0x100 + current as u64) % 0x1_0000_0000) as u32;
    proof {
        if exists|other: u32| #[trigger] dotted(other) == s@ {
            let other = choose|other: u32| #[trigger] dotted(other) == s@;
            lemma_scan_dotted(other);
        }
    }
    if dotted_text(ip) == s.to_owned() {
        Some(ip)
    } else {
        None
    }
}

} // verus!
