//! Text helpers: decimal numerals, character tests and the decoding of raw text arguments.
use vstd::prelude::*;
use vstd::string::*;
use vstd::utf8::*;

verus! {

/// Addresses below this one are never those of a text header; they stand for "no argument".
pub const LOWEST_HEADER_ADDRESS: usize = 0x1000;

/// The character that writes the digit `d` in decimal.
pub open spec fn digit_char(d: int) -> char {
    (48 + d) as char
}

/// The decimal numeral of `n`, without leading zeros.
pub open spec fn decimal(n: nat) -> Seq<char>
    decreases n,
{
    if n < 10 {
        seq![digit_char(n as int)]
    } else {
        decimal(n / 10).push(digit_char((n % 10) as int))
    }
}

/// Whether `c` is one of `0` to `9`.
pub open spec fn is_digit(c: char) -> bool {
    '0' <= c <= '9'
}

/// Whether `s` is made of decimal digits alone.
pub open spec fn all_digits(s: Seq<char>) -> bool {
    forall|i: int| 0 <= i < s.len() ==> is_digit(#[trigger] s[i])
}

/// The number that the decimal digits of `s` write.
pub open spec fn numeral_value(s: Seq<char>) -> nat
    decreases s.len(),
{
    if s.len() == 0 {
        0
    } else {
        numeral_value(s.drop_last()) * 10 + (s.last() as nat - 48) as nat
    }
}

/// What is left of `s` once one leading plus sign is taken off.
pub open spec fn without_plus(s: Seq<char>) -> Seq<char> {
    if s.len() > 0 && s[0] == '+' {
        s.skip(1)
    } else {
        s
    }
}

/// The 32-bit number that `s` writes: an optional plus sign, then one or more digits,
/// with a value in range. `None` for any other text.
pub open spec fn u32_of_text(s: Seq<char>) -> Option<u32> {
    let digits = without_plus(s);
    if digits.len() > 0 && all_digits(digits) && numeral_value(digits) <= u32::MAX {
        Some(numeral_value(digits) as u32)
    } else {
        None
    }
}

/// The text that the raw argument holds: `None` when the argument is absent or is not UTF-8.
pub open spec fn text_of(raw: Option<&[u8]>) -> Option<Seq<char>> {
    match raw {
        Some(bytes) => if valid_utf8(bytes@) {
            Some(decode_utf8(bytes@))
        } else {
            None
        },
        None => None,
    }
}

/// The text that the raw argument holds, or the empty text.
pub open spec fn text_or_empty(raw: Option<&[u8]>) -> Seq<char> {
    match text_of(raw) {
        Some(text) => text,
        None => Seq::empty(),
    }
}

/// Whether `s` begins with `c`.
pub open spec fn begins_with(s: Seq<char>, c: char) -> bool {
    s.len() > 0 && s[0] == c
}

fn digit_text(d: u16) -> (text: &'static str)
    requires
        d < 10,
    ensures
        text@ == seq![digit_char(d as int)],
{
    proof {
        reveal_strlit("0");
        reveal_strlit("1");
        reveal_strlit("2");
        reveal_strlit("3");
        reveal_strlit("4");
        reveal_strlit("5");
        reveal_strlit("6");
        reveal_strlit("7");
        reveal_strlit("8");
        reveal_strlit("9");
    }
    let text = match d {
        0 => "0",
        1 => "1",
        2 => "2",
        3 => "3",
        4 => "4",
        5 => "5",
        6 => "6",
        7 => "7",
        8 => "8",
        _ => "9",
    };
    assert(text@ =~= seq![digit_char(d as int)]);
    text
}

/// Writes `n` in decimal.
pub fn decimal_text(n: u16) -> (text: String)
    ensures
        text@ == decimal(n as nat),
    decreases n,
{
    if n < 10 {
        digit_text(n).to_owned()
    } else {
        let mut text = decimal_text(n / 10);
        text.append(digit_text(n % 10));
        assert(text@ =~= decimal(n as nat));
        text
    }
}

/// Whether `c` occurs in `s`.
pub fn contains_char(s: &str, c: char) -> (found: bool)
    ensures
        found == s@.contains(c),
{
    let mut found: bool = false;
    for x in it: s.chars()
        invariant
            it.seq() == s@,
            found == (exists|i: int| 0 <= i < it.index() && s@[i] == c),
    {
        if x == c {
            found = true;
        }
    }
    found
}

/// Whether the first character of `s` is `c`.
pub fn starts_with_char(s: &str, c: char) -> (yes: bool)
    ensures
        yes == begins_with(s@, c),
{
    let mut chars = s.chars();
    match chars.next() {
        Some(first) => first == c,
        None => false,
    }
}

proof fn lemma_prefix_bounds_value(s: Seq<char>, k: int)
    requires
        0 <= k <= s.len(),
        all_digits(s),
    ensures
        numeral_value(s.take(k)) <= numeral_value(s),
    decreases s.len(),
{
    if k == s.len() {
        assert(s.take(k) =~= s);
    } else {
        assert(s.drop_last().take(k) =~= s.take(k));
        lemma_prefix_bounds_value(s.drop_last(), k);
    }
}

/// A decimal numeral is made of digits and reads back as the number it was written for.
pub proof fn lemma_decimal_reads_back(n: nat)
    ensures
        decimal(n).len() > 0,
        all_digits(decimal(n)),
        numeral_value(decimal(n)) == n,
    decreases n,
{
    if n < 10 {
        assert(decimal(n).drop_last() =~= Seq::<char>::empty());
        assert(numeral_value(decimal(n).drop_last()) == 0);
    } else {
        lemma_decimal_reads_back(n / 10);
        assert(decimal(n).drop_last() =~= decimal(n / 10));
    }
}

/// Reads `s` as an unsigned 32-bit number.
pub fn parse_u32(s: &str) -> (number: Option<u32>)
    ensures
        number == u32_of_text(s@),
{
    let ghost digits = without_plus(s@);
    let ghost offset: int = s@.len() - digits.len();
    let mut value: u32 = 0;
    let mut first: bool = true;
    let mut seen: bool = false;
    for c in it: s.chars()
        invariant
            it.seq() == s@,
            digits == without_plus(s@),
            offset == s@.len() - digits.len(),
            first == (it.index() == 0),
            seen == (it.index() > offset),
            it.index() >= offset ==> {
                &&& all_digits(digits.take(it.index() - offset))
                &&& value == numeral_value(digits.take(it.index() - offset))
            },
            it.index() < offset ==> value == 0,
    {
        let ghost k = it.index() - offset;
        if first && c == '+' {
            first = false;
        } else {
            first = false;
            assert(k >= 0 && digits[k] == c);
            if c < '0' || c > '9' {
                assert(!is_digit(digits[k]));
                return None;
            }
            let digit: u32 = c as u32 - 48;
            let next: u64 = value as u64 * 10 + digit as u64;
            proof {
                assert(digits.take(k + 1).drop_last() =~= digits.take(k));
                assert(numeral_value(digits.take(k + 1)) == next);
            }
            if next > u32::MAX as u64 {
                proof {
                    if all_digits(digits) {
                        lemma_prefix_bounds_value(digits, k + 1);
                    }
                }
                return None;
            }
            value = next as u32;
            seen = true;
        }
    }
    assert(digits.take(digits.len() as int) =~= digits);
    if seen {
        Some(value)
    } else {
        None
    }
}

/// Whether a header address stands for an absent argument.
pub fn is_null_address(address: usize) -> (null: bool)
    ensures
        null == (address < LOWEST_HEADER_ADDRESS),
{
    address < LOWEST_HEADER_ADDRESS
}

/// Calls `core::str::from_utf8`, which accepts exactly the byte slices that are UTF-8 and hands
/// back a string slice over the same bytes.
#[verifier::external_body]
fn utf8_text(bytes: &[u8]) -> (text: Option<&str>)
    ensures
        text is Some <==> valid_utf8(bytes@),
        text matches Some(t) ==> t.spec_bytes() == bytes@,
{
    core::str::from_utf8(bytes).ok()
}

/// Decodes a raw text argument. An absent argument and one that is not UTF-8 both give `None`.
pub fn read_str(raw: Option<&[u8]>) -> (text: Option<String>)
    ensures
        text is Some <==> text_of(raw) is Some,
        text matches Some(t) ==> t@ == text_of(raw)->0,
{
    match raw {
        Some(bytes) => match utf8_text(bytes) {
            Some(text) => {
                proof {
                    encode_utf8_decode_utf8(text@);
                }
                Some(text.to_owned())
            },
            None => None,
        },
        None => None,
    }
}

} // verus!
