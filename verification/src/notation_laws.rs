//! What numerals, addresses and endpoint texts look like, character by character, and which texts
//! are read as what.
use crate::address::{
    bind_endpoint, endpoint, needs_brackets, reaches, send_endpoint, SocketAddress,
};
use crate::error::{Operation, Reason, Rejection};
use crate::ipv4::{dotted, ipv4_of_text, law_ipv4_text_reads_back};
use crate::ipv6::{ipv6_of_text, ipv6_text_of};
use crate::text::{
    all_digits, begins_with, decimal, is_digit, numeral_value, text_of, text_or_empty, u32_of_text,
    without_plus,
};
use vstd::arithmetic::div_mod::{lemma_div_basics, lemma_div_denominator};
use vstd::arithmetic::power::{lemma_pow_positive, pow};
use vstd::prelude::*;
use vstd::utf8::{
    decode_utf8, decode_utf8_encode_utf8, encode_utf8, encode_utf8_decode_utf8,
    encode_utf8_valid_utf8, valid_utf8,
};

verus! {

/// A numeral is positional: the character at each place, counted from the right, is the digit of
/// that power of ten, and there are as many places as the number needs.
pub proof fn law_decimal_is_positional(n: nat)
    ensures
        decimal(n).len() >= 1,
        n < pow(10, decimal(n).len()),
        decimal(n).len() > 1 ==> pow(10, (decimal(n).len() - 1) as nat) <= n,
        forall|i: int|
            0 <= i < decimal(n).len() ==> #[trigger] decimal(n)[i] as int == 48 + (n as int / pow(
                10,
                (decimal(n).len() - 1 - i) as nat,
            )) % 10,
    decreases n,
{
    reveal(pow);
    assert(n as int / pow(10, 0) == n) by {
        lemma_div_basics(n as int);
        assert(pow(10, 0) == 1);
    }
    if n < 10 {
        assert(pow(10, 0) == 1);
        assert(pow(10, 1) == 10 * pow(10, 0));
        assert(decimal(n) =~= seq![(48 + n) as char]);
    } else {
        let q = n / 10;
        law_decimal_is_positional(q);
        let short = decimal(q);
        let len = decimal(n).len();
        assert(len == short.len() + 1);
        assert(pow(10, len) == 10 * pow(10, short.len()));
        assert(pow(10, (len - 1) as nat) == 10 * pow(10, (len - 2) as nat));
        if len == 2 {
            assert(pow(10, 0) == 1);
        }
        assert forall|i: int| 0 <= i < len implies #[trigger] decimal(n)[i] as int == 48 + (n as int
            / pow(10, (len - 1 - i) as nat)) % 10 by {
            if i < len - 1 {
                let k = (len - 2 - i) as nat;
                lemma_pow_positive(10, k);
                lemma_div_denominator(n as int, 10, pow(10, k));
                assert(pow(10, (len - 1 - i) as nat) == 10 * pow(10, k));
                assert(decimal(n)[i] == short[i]);
                assert(short[i] as int == 48 + (q as int / pow(10, k)) % 10);
            } else {
                assert((len - 1 - i) as nat == 0);
                assert(decimal(n)[i] == (48 + n % 10) as char);
            }
        }
    }
}

/// How a 32-bit number is read, one character at a time: a digit alone is its value; one more digit
/// behind a text multiplies its value by ten and adds the digit, up to the 32-bit limit and never
/// beyond; and behind a text that is no number, other than nothing or a lone sign, it makes none.
pub proof fn law_u32_grows_by_digits(s: Seq<char>, c: char)
    requires
        '0' <= c <= '9',
    ensures
        u32_of_text(seq![c]) == Some((c as u32 - 48) as u32),
        u32_of_text(s) matches Some(v) ==> u32_of_text(s.push(c)) == (if v * 10 + (c as int - 48)
            <= 0xffff_ffff {
            Some((v * 10 + (c as int - 48)) as u32)
        } else {
            None
        }),
        u32_of_text(s) is None && s.len() > 0 && s != seq!['+'] ==> u32_of_text(s.push(c)) is None,
{
    assert(without_plus(seq![c]) =~= seq![c]);
    assert(seq![c].drop_last() =~= Seq::<char>::empty());
    assert(numeral_value(seq![c].drop_last()) == 0);
    assert(numeral_value(seq![c]) == c as nat - 48);
    if s.len() > 0 {
        let digits = without_plus(s);
        let longer = without_plus(s.push(c));
        assert(longer =~= digits.push(c));
        assert(longer.drop_last() =~= digits);
        assert(numeral_value(longer) == numeral_value(digits) * 10 + (c as nat - 48));
        assert(longer.last() == c);
        if all_digits(longer) {
            assert forall|i: int| 0 <= i < digits.len() implies is_digit(#[trigger] digits[i]) by {
                assert(longer[i] == digits[i]);
            }
        }
        if all_digits(digits) {
            assert forall|i: int| 0 <= i < longer.len() implies is_digit(#[trigger] longer[i]) by {
                if i < digits.len() {
                    assert(longer[i] == digits[i]);
                }
            }
        }
        if digits.len() == 0 {
            assert(s =~= seq!['+']);
        }
    }
}

/// Which texts are 32-bit numbers: never the empty one; digits only, but for one plus sign in front,
/// which makes no difference.
pub proof fn law_u32_texts(s: Seq<char>)
    ensures
        u32_of_text(Seq::empty()) is None,
        u32_of_text(s) is Some ==> {
            &&& s.len() > 0
            &&& '0' <= s.last() <= '9'
            &&& forall|i: int|
                0 <= i < s.len() ==> '0' <= #[trigger] s[i] <= '9' || (i == 0 && s[i] == '+')
        },
        s.len() > 0 && s[0] != '+' ==> u32_of_text(seq!['+'] + s) == u32_of_text(s),
{
    if u32_of_text(s) is Some {
        let digits = without_plus(s);
        assert(is_digit(digits[digits.len() - 1]));
        assert forall|i: int| 0 <= i < s.len() implies '0' <= #[trigger] s[i] <= '9' || (i == 0
            && s[i] == '+') by {
            if s[0] != '+' {
                assert(is_digit(digits[i]));
            } else if i > 0 {
                assert(is_digit(digits[i - 1]));
            }
        }
    }
    if s.len() > 0 && s[0] != '+' {
        assert(without_plus(seq!['+'] + s) =~= s);
        assert(without_plus(s) == s);
    }
}

/// A text argument is read exactly when it is there and is UTF-8, whatever its length, and its
/// encoding is the bytes that came in.
pub proof fn law_text_is_read_iff_utf8(bytes: &[u8])
    ensures
        text_of(None) is None,
        text_or_empty(None).len() == 0,
        text_of(Some(bytes)) is Some <==> valid_utf8(bytes@),
        text_of(Some(bytes)) matches Some(text) ==> encode_utf8(text) == bytes@,
        valid_utf8(bytes@) ==> encode_utf8(text_or_empty(Some(bytes))) == bytes@,
        !valid_utf8(bytes@) ==> text_or_empty(Some(bytes)).len() == 0,
        valid_utf8(bytes@) ==> (text_or_empty(Some(bytes)).len() == 0 <==> bytes@.len() == 0),
{
    if valid_utf8(bytes@) {
        decode_utf8_encode_utf8(bytes@);
        if bytes@.len() == 0 {
            assert(decode_utf8(bytes@) =~= Seq::<char>::empty());
        } else if decode_utf8(bytes@).len() == 0 {
            assert(encode_utf8(decode_utf8(bytes@)).len() == 0);
        }
    }
}

/// Every text comes through as an argument: the bytes that encode it are read as that text.
pub proof fn law_every_text_is_read(bytes: &[u8], text: Seq<char>)
    requires
        bytes@ == encode_utf8(text),
    ensures
        text_of(Some(bytes)) == Some(text),
        text_or_empty(Some(bytes)) == text,
{
    encode_utf8_valid_utf8(text);
    encode_utf8_decode_utf8(text);
}

/// A text begins with a character exactly when it is that character and some rest.
pub proof fn law_begins_with(s: Seq<char>, c: char)
    ensures
        begins_with(s, c) <==> s.len() > 0 && s == seq![c] + s.skip(1),
{
    if begins_with(s, c) {
        assert(s =~= seq![c] + s.skip(1));
    }
    if s.len() > 0 && s == seq![c] + s.skip(1) {
        assert((seq![c] + s.skip(1))[0] == c);
    }
}

/// The text of the address with the octets `a`, `b`, `c` and `d` is these four in decimal with dots
/// between them.
pub proof fn law_dotted_spells_the_octets(a: u8, b: u8, c: u8, d: u8, ip: u32)
    requires
        ip == a * 0x100_0000 + b * 0x1_0000 + c * 0x100 + d,
    ensures
        dotted(ip) == decimal(a as nat) + seq!['.'] + decimal(b as nat) + seq!['.'] + decimal(
            c as nat,
        ) + seq!['.'] + decimal(d as nat),
{
    assert(ip as nat / 0x100_0000 == a);
    assert(ip as nat / 0x1_0000 == a * 0x100 + b);
    assert(ip as nat / 0x1_0000 % 0x100 == b);
    assert(ip as nat / 0x100 == a * 0x1_0000 + b * 0x100 + c);
    assert(ip as nat / 0x100 % 0x100 == c);
    assert(ip as nat % 0x100 == d);
}

/// A text is read as an IPv4 address exactly when it is the text of that address.
pub proof fn law_ipv4_reads_dotted_texts_only(s: Seq<char>, ip: u32)
    ensures
        ipv4_of_text(s) == Some(ip) <==> s == dotted(ip),
        ipv4_of_text(s) is None <==> forall|other: u32| s != #[trigger] dotted(other),
{
    law_ipv4_text_reads_back(ip);
    if ipv4_of_text(s) is Some {
        assert(dotted(ipv4_of_text(s)->0) == s);
    }
    if ipv4_of_text(s) is None {
        assert forall|other: u32| s != #[trigger] dotted(other) by {
            law_ipv4_text_reads_back(other);
        }
    }
}

/// The endpoint that a datagram goes to: the address as it stands, a colon and the port; but an
/// address that holds a colon, and does not begin with a bracket, stands in brackets.
pub proof fn law_send_endpoint(address: Seq<char>, port: u16)
    ensures
        !address.contains(':') ==> send_endpoint(address, port) == address + seq![':'] + decimal(
            port as nat,
        ),
        address.len() > 0 && address[0] == '[' ==> send_endpoint(address, port) == address
            + seq![':'] + decimal(port as nat),
        address.contains(':') && address[0] != '[' ==> send_endpoint(address, port) == seq!['[']
            + address + seq![']', ':'] + decimal(port as nat),
{
    if address.contains(':') && address[0] != '[' {
        assert(send_endpoint(address, port) =~= seq!['['] + address + seq![']', ':'] + decimal(
            port as nat,
        ));
    }
}

/// The endpoint that an IPv4 socket is bound to: every address that is given is used as it stands.
/// In particular every IPv4 address is bound to as asked.
pub proof fn law_ipv4_bind_endpoint(address: Seq<char>, port: u16, ip: u32)
    ensures
        address.len() > 0 ==> bind_endpoint(false, address, port) == address + seq![':'] + decimal(
            port as nat,
        ),
        bind_endpoint(false, Seq::empty(), port) == "0.0.0.0"@ + seq![':'] + decimal(port as nat),
        bind_endpoint(false, dotted(ip), port) == dotted(ip) + seq![':'] + decimal(port as nat),
        reaches(bind_endpoint(false, dotted(ip), port), (SocketAddress::V4 { ip, port })),
{
    crate::ipv4::lemma_dotted_has_no_colon(ip);
}

/// The endpoint that an IPv6 socket is bound to: every address that is given is used, in brackets
/// where it holds a colon and does not begin with one.
pub proof fn law_ipv6_bind_endpoint(address: Seq<char>, port: u16)
    ensures
        address.len() > 0 && (address[0] == '[' || !address.contains(':')) ==> bind_endpoint(
            true,
            address,
            port,
        ) == address + seq![':'] + decimal(port as nat),
        address.contains(':') && address[0] != '[' ==> bind_endpoint(true, address, port) == seq![
            '[',
        ] + address + seq![']', ':'] + decimal(port as nat),
        bind_endpoint(true, Seq::empty(), port) == seq!['['] + "::"@ + seq![']', ':'] + decimal(
            port as nat,
        ),
{
    reveal_strlit("::");
    assert("::"@[0] == ':');
    assert(needs_brackets("::"@));
    assert(bind_endpoint(true, Seq::empty(), port) =~= seq!['['] + "::"@ + seq![']', ':']
        + decimal(port as nat));
    if address.contains(':') && address[0] != '[' {
        assert(bind_endpoint(true, address, port) =~= seq!['['] + address + seq![']', ':']
            + decimal(port as nat));
    }
}

/// Which texts reach an address: for IPv4 one alone, the address in dot-decimal notation, a colon and
/// the port; for IPv6 those with a host in brackets that is read as the address.
pub proof fn law_endpoints_of_an_address(
    text: Seq<char>,
    host: Seq<char>,
    ip: u32,
    ip6: u128,
    port: u16,
)
    ensures
        reaches(text, (SocketAddress::V4 { ip, port })) <==> text == dotted(ip) + seq![':']
            + decimal(port as nat),
        ipv6_of_text(host) == Some(ip6) ==> reaches(
            seq!['['] + host + seq![']', ':'] + decimal(port as nat),
            (SocketAddress::V6 { ip: ip6, port }),
        ),
        reaches(text, (SocketAddress::V6 { ip: ip6, port })) ==> exists|h: Seq<char>| #[trigger]
            ipv6_of_text(h) == Some(ip6) && text == seq!['['] + h + seq![']', ':'] + decimal(
                port as nat,
            ),
{
    let v6 = SocketAddress::V6 { ip: ip6, port };
    let whole = seq!['['] + host + seq![']', ':'] + decimal(port as nat);
    assert(whole =~= endpoint(seq!['['] + host + seq![']'], port));
    if reaches(text, v6) {
        let h = choose|h: Seq<char>| #[trigger]
            ipv6_of_text(h) == Some(ip6) && text == endpoint(seq!['['] + h + seq![']'], port);
        assert(text =~= seq!['['] + h + seq![']', ':'] + decimal(port as nat));
    }
}

/// The parts in which an address is reported.
pub proof fn law_parts_of_an_address(ip: u32, ip6: u128, port: u16)
    ensures
        (SocketAddress::V4 { ip, port }).ip() == dotted(ip),
        (SocketAddress::V4 { ip, port }).family() == "IPv4"@,
        (SocketAddress::V4 { ip, port }).port() == port,
        (SocketAddress::V6 { ip: ip6, port }).ip() == ipv6_text_of(ip6),
        (SocketAddress::V6 { ip: ip6, port }).family() == "IPv6"@,
        (SocketAddress::V6 { ip: ip6, port }).port() == port,
{
}

/// The message of every rejection, word for word.
pub proof fn law_messages(rejection: Rejection)
    ensures
        rejection.spec_message() == "dgram "@ + (match rejection.operation {
            Operation::Bind => "bind"@,
            Operation::Send => "send"@,
            Operation::SendBuffer => "sendBuffer"@,
            Operation::Recv => "recv"@,
        }) + ": "@ + (match rejection.reason {
            Reason::InvalidHandle => "invalid socket handle"@,
            Reason::AlreadyBound => "socket already bound"@,
            Reason::NotBound => "socket not bound"@,
            Reason::VanishedMidBind => "socket vanished mid-bind"@,
            Reason::Closed => "socket closed"@,
            Reason::InvalidMessage => "invalid msg"@,
            Reason::InvalidBuffer => "invalid buffer"@,
            Reason::InvalidAddress => "invalid address"@,
            Reason::BufferAllocationFailed => "buffer allocation failed"@,
            Reason::System(text) => text@,
        }),
{
}

} // verus!
