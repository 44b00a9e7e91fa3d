//! Base64 (standard alphabet, padded) and HTTP Basic credentials.
use vstd::prelude::*;
use vstd::utf8::{decode_utf8, encode_utf8, valid_utf8};

use crate::text::{find_char, first_index_of, has_prefix, push_char, push_str, str_chars, string_from_chars, string_of};
use crate::uuid_text::{uuid_text, uuid_to_string};

verus! {

/// The base64 symbol for a 6-bit value.
pub open spec fn b64_digit(n: int) -> char {
    if n < 26 {
        (65 + n) as char
    } else if n < 52 {
        (71 + n) as char
    } else if n < 62 {
        (n - 4) as char
    } else if n == 62 {
        '+'
    } else {
        '/'
    }
}

/// The 6-bit value of a base64 symbol (64 for any other character).
pub open spec fn b64_value(c: char) -> int {
    if 'A' <= c && c <= 'Z' {
        c as int - 65
    } else if 'a' <= c && c <= 'z' {
        c as int - 71
    } else if '0' <= c && c <= '9' {
        c as int + 4
    } else if c == '+' {
        62
    } else if c == '/' {
        63
    } else {
        64
    }
}

/// The four characters that encode one group of one to three bytes.
pub open spec fn encode_group(b: Seq<u8>) -> Seq<char> {
    let b0 = b[0] as int;
    if b.len() == 1 {
        seq![b64_digit(b0 / 4), b64_digit((b0 % 4) * 16), '=', '=']
    } else if b.len() == 2 {
        let b1 = b[1] as int;
        seq![b64_digit(b0 / 4), b64_digit((b0 % 4) * 16 + b1 / 16), b64_digit((b1 % 16) * 4), '=']
    } else {
        let b1 = b[1] as int;
        let b2 = b[2] as int;
        seq![
            b64_digit(b0 / 4),
            b64_digit((b0 % 4) * 16 + b1 / 16),
            b64_digit((b1 % 16) * 4 + b2 / 64),
            b64_digit(b2 % 64),
        ]
    }
}

/// Standard base64 with `=` padding: each group of three bytes (the last
/// group possibly shorter) becomes four characters.
pub open spec fn base64_of(b: Seq<u8>) -> Seq<char>
    decreases b.len(),
{
    if b.len() == 0 {
        Seq::empty()
    } else if b.len() <= 3 {
        encode_group(b)
    } else {
        encode_group(b.take(3)) + base64_of(b.skip(3))
    }
}

/// The bytes whose standard base64 encoding is `s`, if there are any.
pub open spec fn base64_decoded(s: Seq<char>) -> Option<Seq<u8>> {
    if exists|b: Seq<u8>| base64_of(b) == s {
        Some(choose|b: Seq<u8>| base64_of(b) == s)
    } else {
        None
    }
}

proof fn lemma_digit(n: int)
    requires
        0 <= n < 64,
    ensures
        b64_value(b64_digit(n)) == n,
        b64_digit(n) != '=',
        b64_digit(n) != ' ',
{
}

proof fn lemma_digit_injective(x: int, y: int)
    requires
        0 <= x < 64,
        0 <= y < 64,
        b64_digit(x) == b64_digit(y),
    ensures
        x == y,
{
    lemma_digit(x);
    lemma_digit(y);
}

/// The length of an encoding: four characters per started group of three bytes.
pub proof fn lemma_base64_len(b: Seq<u8>)
    ensures
        base64_of(b).len() == 4 * ((b.len() + 2) / 3),
    decreases b.len(),
{
    if b.len() > 3 {
        lemma_base64_len(b.skip(3));
    }
}

/// Every character of an encoding is a base64 symbol or `=`; none is a space.
pub proof fn lemma_base64_chars(b: Seq<u8>, i: int)
    requires
        0 <= i < base64_of(b).len(),
    ensures
        base64_of(b)[i] == '=' || b64_value(base64_of(b)[i]) < 64,
        base64_of(b)[i] != ' ',
    decreases b.len(),
{
    let b0 = b[0] as int;
    if b.len() <= 3 {
        lemma_digit(b0 / 4);
        lemma_digit((b0 % 4) * 16);
        if b.len() >= 2 {
            let b1 = b[1] as int;
            lemma_digit((b0 % 4) * 16 + b1 / 16);
            lemma_digit((b1 % 16) * 4);
            if b.len() == 3 {
                let b2 = b[2] as int;
                lemma_digit((b1 % 16) * 4 + b2 / 64);
                lemma_digit(b2 % 64);
            }
        }
    } else {
        lemma_base64_len(b.take(3));
        if i < 4 {
            lemma_base64_chars(b.take(3), i);
            assert(base64_of(b)[i] == base64_of(b.take(3))[i]);
        } else {
            lemma_base64_chars(b.skip(3), i - 4);
            assert(base64_of(b)[i] == base64_of(b.skip(3))[i - 4]);
        }
    }
}

/// Encoding a whole number of groups and then the rest is encoding it all.
pub proof fn lemma_base64_append(a: Seq<u8>, c: Seq<u8>)
    requires
        a.len() % 3 == 0,
    ensures
        base64_of(a + c) == base64_of(a) + base64_of(c),
    decreases a.len(),
{
    if a.len() == 0 {
        assert(a + c =~= c);
    } else {
        let ac = a + c;
        assert(ac.take(3) =~= a.take(3));
        assert(ac.skip(3) =~= a.skip(3) + c);
        lemma_base64_append(a.skip(3), c);
        if a.len() == 3 {
            assert(a.skip(3) =~= Seq::<u8>::empty());
            assert(a.skip(3) + c =~= c);
            assert(a.take(3) =~= a);
            if c.len() == 0 {
                assert(ac =~= a);
            }
        }
    }
}

proof fn lemma_group_injective(a: Seq<u8>, b: Seq<u8>)
    requires
        1 <= a.len() <= 3,
        1 <= b.len() <= 3,
        encode_group(a) == encode_group(b),
    ensures
        a == b,
{
    let ga = encode_group(a);
    let gb = encode_group(b);
    let a0 = a[0] as int;
    let b0 = b[0] as int;
    assert(ga[0] == gb[0] && ga[1] == gb[1] && ga[2] == gb[2] && ga[3] == gb[3]);
    lemma_digit_injective(a0 / 4, b0 / 4);
    if a.len() == 1 {
        lemma_digit((a0 % 4) * 16);
    } else {
        let a1 = a[1] as int;
        lemma_digit((a1 % 16) * 4);
        if a.len() == 3 {
            let a2 = a[2] as int;
            lemma_digit((a1 % 16) * 4 + a2 / 64);
            lemma_digit(a2 % 64);
        }
    }
    if b.len() == 1 {
        lemma_digit((b0 % 4) * 16);
    } else {
        let b1 = b[1] as int;
        lemma_digit((b1 % 16) * 4);
        if b.len() == 3 {
            let b2 = b[2] as int;
            lemma_digit((b1 % 16) * 4 + b2 / 64);
            lemma_digit(b2 % 64);
        }
    }
    assert(a.len() == b.len());
    if a.len() == 1 {
        lemma_digit_injective((a0 % 4) * 16, (b0 % 4) * 16);
        assert(a =~= b);
    } else {
        let a1 = a[1] as int;
        let b1 = b[1] as int;
        lemma_digit_injective((a0 % 4) * 16 + a1 / 16, (b0 % 4) * 16 + b1 / 16);
        if a.len() == 2 {
            lemma_digit_injective((a1 % 16) * 4, (b1 % 16) * 4);
            assert(a =~= b);
        } else {
            let a2 = a[2] as int;
            let b2 = b[2] as int;
            lemma_digit_injective((a1 % 16) * 4 + a2 / 64, (b1 % 16) * 4 + b2 / 64);
            lemma_digit_injective(a2 % 64, b2 % 64);
            assert(a =~= b);
        }
    }
}

/// Distinct byte strings have distinct encodings.
pub proof fn lemma_base64_injective(a: Seq<u8>, b: Seq<u8>)
    requires
        base64_of(a) == base64_of(b),
    ensures
        a == b,
    decreases a.len(),
{
    lemma_base64_len(a);
    lemma_base64_len(b);
    if a.len() == 0 {
        assert(b.len() == 0);
        assert(a =~= b);
    } else {
        assert(b.len() > 0);
        let ga = if a.len() <= 3 { a } else { a.take(3) };
        let gb = if b.len() <= 3 { b } else { b.take(3) };
        assert(base64_of(a).subrange(0, 4) =~= encode_group(ga));
        assert(base64_of(b).subrange(0, 4) =~= encode_group(gb));
        if a.len() <= 3 && b.len() > 3 {
            lemma_base64_len(b.skip(3));
            lemma_base64_len(gb);
            assert(false);
        }
        if a.len() > 3 && b.len() <= 3 {
            lemma_base64_len(a.skip(3));
            lemma_base64_len(ga);
            assert(false);
        }
        lemma_group_injective(ga, gb);
        if a.len() > 3 {
            lemma_base64_len(a.take(3));
            lemma_base64_len(b.take(3));
            assert(base64_of(a.skip(3)) =~= base64_of(a).skip(4));
            assert(base64_of(b.skip(3)) =~= base64_of(b).skip(4));
            lemma_base64_injective(a.skip(3), b.skip(3));
            assert(a =~= a.take(3) + a.skip(3));
            assert(b =~= b.take(3) + b.skip(3));
        }
    }
}

/// Decoding an encoding gives the encoded bytes back.
pub proof fn law_base64_roundtrip(b: Seq<u8>)
    ensures
        base64_decoded(base64_of(b)) == Some(b),
{
    let c = choose|x: Seq<u8>| base64_of(x) == base64_of(b);
    lemma_base64_injective(c, b);
}

/// The symbol of a 6-bit value.
fn b64_symbol(n: usize) -> (c: char)
    requires
        n < 64,
    ensures
        c == b64_digit(n as int),
{
    let m = n as u8;
    if m < 26 {
        (65u8 + m) as char
    } else if m < 52 {
        (97u8 + (m - 26)) as char
    } else if m < 62 {
        (48u8 + (m - 52)) as char
    } else if m == 62 {
        '+'
    } else {
        '/'
    }
}

/// Appends the encoding of the group of `len` bytes at `i`.
fn push_group(out: &mut String, input: &[u8], i: usize, len: usize)
    requires
        1 <= len <= 3,
        i + len <= input@.len(),
    ensures
        final(out)@ == old(out)@ + encode_group(input@.subrange(i as int, i + len)),
{
    let b0 = input[i] as usize;
    let b1 = if len > 1 {
        input[i + 1] as usize
    } else {
        0
    };
    let b2 = if len > 2 {
        input[i + 2] as usize
    } else {
        0
    };
    assert(b0 >> 2 == b0 / 4) by (bit_vector)
        requires
            b0 < 256,
    ;
    assert(((b0 & 3) << 4) | (b1 >> 4) == (b0 % 4) * 16 + b1 / 16) by (bit_vector)
        requires
            b0 < 256,
            b1 < 256,
    ;
    assert(((b1 & 15) << 2) | (b2 >> 6) == (b1 % 16) * 4 + b2 / 64) by (bit_vector)
        requires
            b1 < 256,
            b2 < 256,
    ;
    assert(b2 & 63 == b2 % 64) by (bit_vector)
        requires
            b2 < 256,
    ;
    push_char(out, b64_symbol(b0 >> 2));
    push_char(out, b64_symbol(((b0 & 3) << 4) | (b1 >> 4)));
    if len > 1 {
        push_char(out, b64_symbol(((b1 & 15) << 2) | (b2 >> 6)));
    } else {
        push_char(out, '=');
    }
    if len > 2 {
        push_char(out, b64_symbol(b2 & 63));
    } else {
        push_char(out, '=');
    }
    let ghost group = input@.subrange(i as int, i + len);
    assert(final(out)@ =~= old(out)@ + encode_group(group));
}

/// Standard base64 encoding with padding, as the command-line client writes
/// credentials.
pub fn base64_encode(input: &[u8]) -> (out: String)
    ensures
        out@ == base64_of(input@),
{
    let mut out = String::new();
    let mut i: usize = 0;
    while i < input.len()
        invariant
            i <= input@.len(),
            i % 3 == 0 || i == input@.len(),
            i < input@.len() ==> i % 3 == 0,
            out@ == base64_of(input@.take(i as int)),
        decreases input@.len() - i,
    {
        let len = if input.len() - i < 3 {
            input.len() - i
        } else {
            3
        };
        let ghost before = out@;
        push_group(&mut out, input, i, len);
        proof {
            let group = input@.subrange(i as int, i + len);
            assert(base64_of(group) == encode_group(group));
            lemma_base64_append(input@.take(i as int), group);
            assert(input@.take(i + len) =~= input@.take(i as int) + group);
        }
        i = i + len;
    }
    assert(input@.take(input@.len() as int) =~= input@);
    out
}

/// `base64::engine::general_purpose::STANDARD.encode`.
///
/// Trusted: the standard engine writes padded standard base64, which
/// `base64_of` states.
#[verifier::external_body]
pub(crate) fn encode_standard(bytes: &[u8]) -> (r: String)
    ensures
        r@ == base64_of(bytes@),
{
    base64::Engine::encode(&base64::engine::general_purpose::STANDARD, bytes)
}

/// `base64::engine::general_purpose::STANDARD.decode` on the bytes of `s`.
///
/// Trusted: the standard engine requires canonical padding and no trailing
/// bits, so it accepts exactly the texts that are the encoding of some bytes,
/// and gives those bytes.
#[verifier::external_body]
fn decode_standard(s: &str) -> (r: Option<Vec<u8>>)
    ensures
        r is Some <==> exists|b: Seq<u8>| base64_of(b) == s@,
        r matches Some(v) ==> base64_of(v@) == s@,
{
    base64::Engine::decode(&base64::engine::general_purpose::STANDARD, s).ok()
}

/// `String::from_utf8`.
///
/// Trusted: the standard library accepts exactly valid UTF-8 and gives the
/// text it encodes.
#[verifier::external_body]
fn string_from_utf8(bytes: Vec<u8>) -> (r: Option<String>)
    ensures
        r is Some <==> valid_utf8(bytes@),
        r matches Some(s) ==> s@ == decode_utf8(bytes@),
{
    String::from_utf8(bytes).ok()
}

/// The bytes that standard base64 text decodes to.
pub fn decode_base64(s: &str) -> (r: Option<Vec<u8>>)
    ensures
        match r {
            Some(v) => base64_decoded(s@) == Some(v@),
            None => base64_decoded(s@) is None,
        },
{
    let r = decode_standard(s);
    proof {
        if let Some(v) = &r {
            let c = choose|x: Seq<u8>| base64_of(x) == s@;
            lemma_base64_injective(c, v@);
        }
    }
    r
}

/// `s` with every leading occurrence of `p` removed, as
/// `str::trim_start_matches` removes it.
pub open spec fn trim_leading(s: Seq<char>, p: Seq<char>) -> Seq<char>
    decreases s.len(),
{
    if p.len() > 0 && has_prefix(s, p) {
        trim_leading(s.skip(p.len() as int), p)
    } else {
        s
    }
}

/// Removes every leading occurrence of `p` from `s`.
pub fn trim_start_matches(s: &str, p: &str) -> (r: String)
    ensures
        r@ == trim_leading(s@, p@),
{
    let sv = str_chars(s);
    let pv = str_chars(p);
    if pv.len() == 0 {
        return string_of(s);
    }
    let mut i: usize = 0;
    assert(s@.skip(0) =~= s@);
    while pv.len() <= sv.len() - i && crate::text::chars_eq(&sv, i, i + pv.len(), &pv)
        invariant
            sv@ == s@,
            pv@ == p@,
            p@.len() > 0,
            i <= sv@.len(),
            trim_leading(s@, p@) == trim_leading(s@.skip(i as int), p@),
        decreases sv@.len() - i,
    {
        proof {
            let rest = s@.skip(i as int);
            assert(rest.subrange(0, p@.len() as int) =~= sv@.subrange(i as int, i + p@.len()));
            assert(rest.skip(p@.len() as int) =~= s@.skip(i + p@.len()));
        }
        i = i + pv.len();
    }
    proof {
        let rest = s@.skip(i as int);
        if rest.len() >= p@.len() {
            assert(rest.subrange(0, p@.len() as int) =~= sv@.subrange(i as int, i + p@.len()));
        }
    }
    let r = string_from_chars(&sv, i, sv.len());
    assert(r@ =~= s@.skip(i as int));
    r
}

/// The `(uuid, token)` pair that an HTTP Basic header carries: everything
/// before the first `:` of the decoded credentials, and everything after it.
pub open spec fn basic_credentials(header: Seq<char>) -> Option<(Seq<char>, Seq<char>)> {
    let t = trim_leading(header, "Basic "@);
    match base64_decoded(t) {
        None => None,
        Some(bytes) => if !valid_utf8(bytes) {
            None
        } else {
            split_at_colon(decode_utf8(bytes))
        },
    }
}

/// Basic auth parsing from `Basic base64(uuid:token)`.
pub fn parse_basic_auth(header: &str) -> (r: Option<(String, String)>)
    ensures
        match r {
            Some((u, t)) => basic_credentials(header@) == Some((u@, t@)),
            None => basic_credentials(header@) is None,
        },
{
    let trimmed = trim_start_matches(header, "Basic ");
    let decoded = match decode_base64(trimmed.as_str()) {
        Some(d) => d,
        None => return None,
    };
    let ghost bytes = decoded@;
    let s = match string_from_utf8(decoded) {
        Some(s) => s,
        None => return None,
    };
    let chars = str_chars(s.as_str());
    let r = split_credentials(&chars);
    proof {
        assert(basic_credentials(header@) == split_at_colon(decode_utf8(bytes)));
    }
    r
}

/// The parts of `s` before and after its first `:`.
pub open spec fn split_at_colon(s: Seq<char>) -> Option<(Seq<char>, Seq<char>)> {
    match first_index_of(s, ':') {
        Some(i) => Some((s.take(i), s.skip(i + 1))),
        None => None,
    }
}

fn split_credentials(chars: &Vec<char>) -> (r: Option<(String, String)>)
    ensures
        match r {
            Some((u, t)) => split_at_colon(chars@) == Some((u@, t@)),
            None => split_at_colon(chars@) is None,
        },
{
    let n = chars.len();
    let found = find_char(chars, ':');
    match found {
        Some(i) => {
            assert(i < n);
            let uuid = string_from_chars(chars, 0, i);
            let token = string_from_chars(chars, i + 1, n);
            assert(uuid@ =~= chars@.take(i as int));
            assert(token@ =~= chars@.skip(i + 1));
            Some((uuid, token))
        },
        None => None,
    }
}

/// The text `uuid:token` that Basic credentials encode.
pub open spec fn credential_text(uuid: Seq<char>, token: Seq<char>) -> Seq<char> {
    uuid + ":"@ + token
}

/// A Basic authorization header value: `Basic ` and the base64 of the
/// UTF-8 bytes of `uuid:token`.
pub open spec fn basic_header(uuid: Seq<char>, token: Seq<char>) -> Seq<char> {
    "Basic "@ + base64_of(encode_utf8(credential_text(uuid, token)))
}

/// Builds the HTTP Basic authorization value for `uuid:token`.
pub fn basic_auth_header(uuid: &str, token: &str) -> (r: String)
    ensures
        r@ == basic_header(uuid@, token@),
{
    let mut creds = string_of(uuid);
    push_char(&mut creds, ':');
    push_str(&mut creds, token);
    let encoded = encode_standard(creds.as_str().as_bytes());
    let mut r = string_of("Basic ");
    push_str(&mut r, encoded.as_str());
    proof {
        reveal_strlit(":");
        assert(creds@ =~= credential_text(uuid@, token@));
    }
    r
}

/// The bearer credential handed to a webhook: `Bearer ` and the base64 of
/// `uuid:token`.
pub fn bearer_credential_header(uuid: u128, token: &str) -> (r: String)
    ensures
        r@ == "Bearer "@ + base64_of(encode_utf8(credential_text(uuid_text(uuid), token@))),
{
    let mut creds = uuid_to_string(uuid);
    push_char(&mut creds, ':');
    push_str(&mut creds, token);
    let encoded = encode_standard(creds.as_str().as_bytes());
    let mut r = string_of("Bearer ");
    push_str(&mut r, encoded.as_str());
    proof {
        reveal_strlit(":");
        assert(creds@ =~= credential_text(uuid_text(uuid), token@));
    }
    r
}

/// Parsing a Basic header built from `uuid` and `token` gives them back,
/// where the uuid holds no `:`.
pub proof fn law_basic_auth_roundtrip(uuid: Seq<char>, token: Seq<char>)
    requires
        !uuid.contains(':'),
    ensures
        basic_credentials(basic_header(uuid, token)) == Some((uuid, token)),
{
    broadcast use vstd::utf8::group_utf8_lib;

    reveal_strlit("Basic ");
    reveal_strlit(":");
    let text = credential_text(uuid, token);
    let bytes = encode_utf8(text);
    let enc = base64_of(bytes);
    let h = basic_header(uuid, token);
    let p = "Basic "@;
    // One "Basic " is removed, and no more: an encoding holds no space.
    assert(has_prefix(h, p)) by {
        assert(h.subrange(0, 6) =~= p);
    }
    assert(h.skip(6) =~= enc);
    if has_prefix(enc, p) {
        lemma_base64_chars(bytes, 5);
        assert(enc[5] == p[5]);
    }
    assert(trim_leading(enc, p) == enc);
    assert(trim_leading(h, p) == enc);
    law_base64_roundtrip(bytes);
    // The first ':' is the one after the uuid.
    let i = uuid.len() as int;
    assert(text[i] == ':');
    assert forall|j: int| 0 <= j < i implies text[j] != ':' by {
        assert(text[j] == uuid[j]);
        if text[j] == ':' {
            assert(uuid.contains(':'));
        }
    }
    assert(first_index_of(text, ':')->0 == i);
    assert(text.take(i) =~= uuid);
    assert(text.skip(i + 1) =~= token);
}

} // verus!
