//! Device identifiers.
//!
//! A device UUID is held as its 128-bit value (the big-endian reading of the
//! UUID's 16 bytes, as `uuid::Uuid::as_u128` gives it). Its text form is the
//! lower-case hyphenated form `xxxxxxxx-xxxx-xxxx-xxxx-xxxxxxxxxxxx`.
use vstd::prelude::*;

verus! {

/// `16^k`.
pub open spec fn pow16(k: nat) -> nat
    decreases k,
{
    if k == 0 {
        1
    } else {
        16 * pow16((k - 1) as nat)
    }
}

/// The lower-case hexadecimal digit for `n` (`0 <= n < 16`).
pub open spec fn hex_digit(n: int) -> char {
    if n == 0 { '0' }
    else if n == 1 { '1' }
    else if n == 2 { '2' }
    else if n == 3 { '3' }
    else if n == 4 { '4' }
    else if n == 5 { '5' }
    else if n == 6 { '6' }
    else if n == 7 { '7' }
    else if n == 8 { '8' }
    else if n == 9 { '9' }
    else if n == 10 { 'a' }
    else if n == 11 { 'b' }
    else if n == 12 { 'c' }
    else if n == 13 { 'd' }
    else if n == 14 { 'e' }
    else { 'f' }
}

/// The value of a lower-case hexadecimal digit (16 for any other character).
pub open spec fn hex_value(c: char) -> int {
    if c == '0' { 0 }
    else if c == '1' { 1 }
    else if c == '2' { 2 }
    else if c == '3' { 3 }
    else if c == '4' { 4 }
    else if c == '5' { 5 }
    else if c == '6' { 6 }
    else if c == '7' { 7 }
    else if c == '8' { 8 }
    else if c == '9' { 9 }
    else if c == 'a' { 10 }
    else if c == 'b' { 11 }
    else if c == 'c' { 12 }
    else if c == 'd' { 13 }
    else if c == 'e' { 14 }
    else if c == 'f' { 15 }
    else { 16 }
}

/// The `k`-th hexadecimal digit of `u`, counted from the least significant one.
pub open spec fn nibble(u: u128, k: nat) -> int {
    (u as int / pow16(k) as int) % 16
}

/// Whether position `i` of the text form holds a hyphen.
pub open spec fn is_hyphen_position(i: int) -> bool {
    i == 8 || i == 13 || i == 18 || i == 23
}

/// For a non-hyphen position `i` of the text form, the index (from the left,
/// most significant first) of the digit it shows.
pub open spec fn digit_index(i: int) -> int {
    if i < 8 {
        i
    } else if i < 13 {
        i - 1
    } else if i < 18 {
        i - 2
    } else if i < 23 {
        i - 3
    } else {
        i - 4
    }
}

/// The position in the text form of the digit with index `j` (from the left).
pub open spec fn digit_position(j: int) -> int {
    if j < 8 {
        j
    } else if j < 12 {
        j + 1
    } else if j < 16 {
        j + 2
    } else if j < 20 {
        j + 3
    } else {
        j + 4
    }
}

/// The lower-case hyphenated text of a UUID: 36 characters, hyphens at
/// positions 8, 13, 18 and 23, the 32 hexadecimal digits of `u` elsewhere,
/// most significant first.
pub open spec fn uuid_text(u: u128) -> Seq<char> {
    Seq::new(
        36,
        |i: int|
            if is_hyphen_position(i) {
                '-'
            } else {
                hex_digit(nibble(u, (31 - digit_index(i)) as nat))
            },
    )
}

/// The value of a hexadecimal digit of either case (16 for any other
/// character).
pub open spec fn hex_value_any_case(c: char) -> int {
    if '0' <= c && c <= '9' {
        c as int - 48
    } else if 'a' <= c && c <= 'f' {
        c as int - 87
    } else if 'A' <= c && c <= 'F' {
        c as int - 55
    } else {
        16
    }
}

/// Whether every character of `d` is a hexadecimal digit.
pub open spec fn all_hex(d: Seq<char>) -> bool {
    forall|i: int| 0 <= i < d.len() ==> hex_value_any_case(#[trigger] d[i]) < 16
}

/// The number that hexadecimal digits write, most significant first.
pub open spec fn hex_number(d: Seq<char>) -> nat
    decreases d.len(),
{
    if d.len() == 0 {
        0
    } else {
        hex_number(d.drop_last()) * 16 + hex_value_any_case(d.last()) as nat
    }
}

/// The 32 digits of a hyphenated UUID text, its four hyphens left out.
pub open spec fn hyphenated_digits(s: Seq<char>) -> Seq<char> {
    s.subrange(0, 8) + s.subrange(9, 13) + s.subrange(14, 18) + s.subrange(19, 23) + s.subrange(24, 36)
}

/// A hyphenated UUID text (`xxxxxxxx-xxxx-xxxx-xxxx-xxxxxxxxxxxx`, digits
/// of either case) read as its value.
pub open spec fn hyphenated_value(s: Seq<char>) -> Option<u128> {
    if s.len() == 36 && s[8] == '-' && s[13] == '-' && s[18] == '-' && s[23] == '-' && all_hex(
        hyphenated_digits(s),
    ) {
        Some(hex_number(hyphenated_digits(s)) as u128)
    } else {
        None
    }
}

/// `c` with an ASCII capital made small.
pub open spec fn ascii_lower_char(c: char) -> char {
    if 'A' <= c && c <= 'Z' {
        ((c as u32) + 32) as char
    } else {
        c
    }
}

/// Whether `p` is `urn:uuid:` in any mix of ASCII case.
pub open spec fn is_urn_prefix(p: Seq<char>) -> bool {
    p.len() == 9 && forall|i: int| 0 <= i < 9 ==> ascii_lower_char(#[trigger] p[i]) == "urn:uuid:"@[i]
}

/// What `uuid::Uuid::parse_str` gives for a text: 32 hexadecimal digits; the
/// hyphenated form; the hyphenated form in braces; or `urn:uuid:` (in any
/// case) and the hyphenated form. Digits may be of either case; the value is
/// the digits read most significant first. Any other text is refused.
pub open spec fn uuid_parse(s: Seq<char>) -> Option<u128> {
    if s.len() == 32 {
        if all_hex(s) {
            Some(hex_number(s) as u128)
        } else {
            None
        }
    } else if s.len() == 36 {
        hyphenated_value(s)
    } else if s.len() == 38 && s[0] == '{' && s[37] == '}' {
        hyphenated_value(s.subrange(1, 37))
    } else if s.len() == 45 && is_urn_prefix(s.subrange(0, 9)) {
        hyphenated_value(s.subrange(9, 45))
    } else {
        None
    }
}

/// `uuid::Uuid::parse_str` on `s`, read as the UUID's 128-bit value.
///
/// Trusted: the crate's parser accepts exactly the four forms that
/// `uuid_parse` states (it checks lengths in bytes, but every accepted
/// character is ASCII) and reads the 32 digits as the 16 bytes of the UUID,
/// most significant first.
#[verifier::external_body]
pub(crate) fn parse_uuid(s: &str) -> (r: Option<u128>)
    ensures
        r == uuid_parse(s@),
{
    uuid::Uuid::parse_str(s).ok().map(|u| u.as_u128())
}

/// The text of a UUID, as `uuid::Uuid`'s `Display` writes it.
///
/// Trusted: the crate documents `Display` as the lower-case hyphenated form,
/// which `uuid_text` states; and `Uuid::parse_str` reads that form back to
/// the same value.
#[verifier::external_body]
pub(crate) fn uuid_to_string(u: u128) -> (s: String)
    ensures
        s@ == uuid_text(u),
        uuid_parse(s@) == Some(u),
{
    uuid::Uuid::from_u128(u).to_string()
}

proof fn lemma_pow16_positive(k: nat)
    ensures
        pow16(k) > 0,
    decreases k,
{
    if k > 0 {
        lemma_pow16_positive((k - 1) as nat);
    }
}

proof fn lemma_hex_roundtrip(n: int)
    requires
        0 <= n < 16,
    ensures
        hex_value(hex_digit(n)) == n,
{
}

/// The low `m` digits of a value determine it modulo `16^m`.
proof fn lemma_low_digits(a: u128, b: u128, m: nat)
    requires
        forall|k: nat| k < m ==> nibble(a, k) == nibble(b, k),
    ensures
        a as int % pow16(m) as int == b as int % pow16(m) as int,
    decreases m,
{
    if m == 0 {
        assert(a as int % 1 == 0);
        assert(b as int % 1 == 0);
    } else {
        let p = (m - 1) as nat;
        lemma_low_digits(a, b, p);
        lemma_pow16_positive(p);
        vstd::arithmetic::div_mod::lemma_mod_breakdown(a as int, pow16(p) as int, 16);
        vstd::arithmetic::div_mod::lemma_mod_breakdown(b as int, pow16(p) as int, 16);
        assert(pow16(m) == pow16(p) * 16);
        assert(nibble(a, p) == nibble(b, p));
    }
}

/// Distinct UUIDs have distinct texts.
pub proof fn lemma_uuid_text_injective(a: u128, b: u128)
    requires
        uuid_text(a) == uuid_text(b),
    ensures
        a == b,
{
    assert forall|k: nat| k < 32 implies nibble(a, k) == nibble(b, k) by {
        let j = 31 - k;
        let i = digit_position(j);
        assert(!is_hyphen_position(i));
        assert(digit_index(i) == j);
        assert((31 - digit_index(i)) as nat == k);
        assert(uuid_text(a)[i] == hex_digit(nibble(a, k)));
        assert(uuid_text(b)[i] == hex_digit(nibble(b, k)));
        lemma_pow16_positive(k);
        assert(0 <= nibble(a, k) < 16);
        assert(0 <= nibble(b, k) < 16);
        lemma_hex_roundtrip(nibble(a, k));
        lemma_hex_roundtrip(nibble(b, k));
    }
    lemma_low_digits(a, b, 32);
    reveal_with_fuel(pow16, 33);
    assert(pow16(32) == 0x1_0000_0000_0000_0000_0000_0000_0000_0000);
    vstd::arithmetic::div_mod::lemma_small_mod(a as nat, pow16(32));
    vstd::arithmetic::div_mod::lemma_small_mod(b as nat, pow16(32));
}

/// The text of a UUID never holds `c` unless `c` is a hexadecimal digit or `-`.
pub proof fn lemma_uuid_text_chars(u: u128, i: int)
    requires
        0 <= i < 36,
    ensures
        uuid_text(u)[i] == '-' || hex_value(uuid_text(u)[i]) < 16,
{
    if !is_hyphen_position(i) {
        let k = (31 - digit_index(i)) as nat;
        lemma_pow16_positive(k);
        lemma_hex_roundtrip(nibble(u, k));
    }
}

} // verus!
