//! Percent-encoding of query values and decimal rendering of numbers.

use vstd::prelude::*;

use crate::text::push_char;

verus! {

/// Bytes that pass through a query value unchanged.
pub open spec fn is_unreserved(b: u8) -> bool {
    ||| (65 <= b && b <= 90)  // A-Z
    ||| (97 <= b && b <= 122)  // a-z
    ||| (48 <= b && b <= 57)  // 0-9
    ||| b == 45  // '-'
    ||| b == 95  // '_'
    ||| b == 46  // '.'
    ||| b == 126  // '~'

}

/// The upper-case hexadecimal digit for `n` (below 16).
pub open spec fn hex_digit(n: int) -> char {
    if n < 10 {
        (48 + n) as char
    } else {
        (55 + n) as char
    }
}

/// The encoding of one byte: unreserved bytes (and the comma, when
/// `keep_comma`) stand for themselves, a space becomes `+`, and any other
/// byte becomes `%` and two upper-case hex digits.
pub open spec fn encode_byte(b: u8, keep_comma: bool) -> Seq<char> {
    if is_unreserved(b) || (keep_comma && b == 44) {
        seq![b as char]
    } else if b == 32 {
        seq!['+']
    } else {
        seq!['%', hex_digit(b as int / 16), hex_digit(b as int % 16)]
    }
}

/// The encoding of a byte string, byte by byte.
pub open spec fn encode_bytes(bs: Seq<u8>, keep_comma: bool) -> Seq<char>
    decreases bs.len(),
{
    if bs.len() == 0 {
        Seq::empty()
    } else {
        encode_bytes(bs.drop_last(), keep_comma) + encode_byte(bs.last(), keep_comma)
    }
}

/// The query-value encoding of the UTF-8 bytes of `s`.
pub open spec fn query_encoding(s: Seq<char>, keep_comma: bool) -> Seq<char> {
    encode_bytes(vstd::utf8::encode_utf8(s), keep_comma)
}

fn hex_char(n: u8) -> (c: char)
    requires
        n < 16,
    ensures
        c == hex_digit(n as int),
{
    if n < 10 {
        (48u8 + n) as char
    } else {
        (55u8 + n) as char
    }
}

/// Percent-encodes `s` for use as a query value. With `keep_comma` the comma
/// is left as is, so that comma-separated lists stay readable.
pub fn encode_query_value(s: &str, keep_comma: bool) -> (r: String)
    ensures
        r@ == query_encoding(s@, keep_comma),
{
    let bytes = s.as_bytes();
    let mut out = String::new();
    let mut i: usize = 0;
    while i < bytes.len()
        invariant
            i <= bytes@.len(),
            bytes@ == vstd::utf8::encode_utf8(s@),
            out@ == encode_bytes(bytes@.take(i as int), keep_comma),
        decreases bytes@.len() - i,
    {
        let b = bytes[i];
        assert(bytes@.take(i as int + 1).drop_last() =~= bytes@.take(i as int));
        let ghost before = out@;
        if (65 <= b && b <= 90) || (97 <= b && b <= 122) || (48 <= b && b <= 57) || b == 45 || b
            == 95 || b == 46 || b == 126 || (keep_comma && b == 44) {
            push_char(&mut out, b as char);
            assert(out@ =~= before + encode_byte(b, keep_comma));
        } else if b == 32 {
            push_char(&mut out, '+');
            assert(out@ =~= before + encode_byte(b, keep_comma));
        } else {
            push_char(&mut out, '%');
            push_char(&mut out, hex_char(b / 16));
            push_char(&mut out, hex_char(b % 16));
            assert(out@ =~= before + encode_byte(b, keep_comma));
        }
        i = i + 1;
    }
    assert(bytes@.take(bytes@.len() as int) =~= bytes@);
    out
}

/// The decimal digit for `n` (below 10).
pub open spec fn digit_char(n: int) -> char {
    (48 + n) as char
}

/// The decimal rendering of `n`, without leading zeros.
pub open spec fn decimal(n: nat) -> Seq<char>
    decreases n,
{
    if n < 10 {
        seq![digit_char(n as int)]
    } else {
        decimal(n / 10).push(digit_char((n % 10) as int))
    }
}

/// Appends the decimal rendering of `n` to `out`.
pub fn push_decimal(out: &mut String, n: u64)
    ensures
        final(out)@ == old(out)@ + decimal(n as nat),
    decreases n,
{
    if n >= 10 {
        push_decimal(out, n / 10);
    }
    let d = (n % 10) as u8;
    push_char(out, (48u8 + d) as char);
    proof {
        if n >= 10 {
            assert(old(out)@ + decimal(n as nat) =~= old(out)@ + decimal((n / 10) as nat) + seq![
                digit_char((n % 10) as int),
            ]);
        } else {
            assert(old(out)@ + decimal(n as nat) =~= old(out)@ + seq![digit_char(n as int)]);
        }
    }
}

/// Characters that can stand in a query value without ending it or
/// starting another: ASCII letters and digits and `- _ . ~ + % ,`.
pub open spec fn is_query_safe(c: char) -> bool {
    let v = c as u32;
    ||| (65 <= v && v <= 90)
    ||| (97 <= v && v <= 122)
    ||| (48 <= v && v <= 57)
    ||| v == 45 || v == 95 || v == 46 || v == 126
    ||| v == 43 || v == 37 || v == 44
}

proof fn lemma_encode_bytes_safe(bs: Seq<u8>, keep_comma: bool)
    ensures
        forall|i: int|
            0 <= i < encode_bytes(bs, keep_comma).len() ==> is_query_safe(
                #[trigger] encode_bytes(bs, keep_comma)[i],
            ),
    decreases bs.len(),
{
    if bs.len() > 0 {
        lemma_encode_bytes_safe(bs.drop_last(), keep_comma);
        let b = bs.last();
        let e = encode_byte(b, keep_comma);
        assert forall|i: int| 0 <= i < e.len() implies is_query_safe(#[trigger] e[i]) by {
            if is_unreserved(b) || (keep_comma && b == 44) {
                assert((b as char) as u32 == b as u32);
            } else if b != 32 {
                let hi = b as int / 16;
                let lo = b as int % 16;
                assert(0 <= hi < 16);
                assert(0 <= lo < 16);
            }
        }
        let p = encode_bytes(bs.drop_last(), keep_comma);
        assert(encode_bytes(bs, keep_comma) == p + e);
        assert forall|i: int|
            0 <= i < encode_bytes(bs, keep_comma).len() implies is_query_safe(
                #[trigger] encode_bytes(bs, keep_comma)[i],
            ) by {
            if i < p.len() {
                assert(encode_bytes(bs, keep_comma)[i] == p[i]);
            } else {
                assert(encode_bytes(bs, keep_comma)[i] == e[i - p.len()]);
            }
        }
    }
}

/// Whatever the input, an encoded query value holds only query-safe
/// characters: in particular no `&`, `=`, `#`, `?` or space, so it cannot
/// end the value or add a parameter.
pub proof fn lemma_query_encoding_is_safe(s: Seq<char>, keep_comma: bool)
    ensures
        forall|i: int|
            0 <= i < query_encoding(s, keep_comma).len() ==> is_query_safe(
                #[trigger] query_encoding(s, keep_comma)[i],
            ),
        !query_encoding(s, keep_comma).contains('&'),
        !query_encoding(s, keep_comma).contains('='),
        !query_encoding(s, keep_comma).contains('#'),
        !query_encoding(s, keep_comma).contains('?'),
        !query_encoding(s, keep_comma).contains(' '),
{
    lemma_encode_bytes_safe(vstd::utf8::encode_utf8(s), keep_comma);
}

/// An upper-case hexadecimal digit.
pub open spec fn is_hex_upper(c: char) -> bool {
    let v = c as u32;
    (48 <= v && v <= 57) || (65 <= v && v <= 70)
}

/// Every `%` in `s` starts a complete escape: two hex digits follow it.
pub open spec fn escapes_complete(s: Seq<char>) -> bool {
    forall|i: int|
        0 <= i < s.len() && #[trigger] s[i] == '%' ==> i + 2 < s.len() && is_hex_upper(s[i + 1])
            && is_hex_upper(s[i + 2])
}

proof fn lemma_encode_bytes_escapes(bs: Seq<u8>, keep_comma: bool)
    ensures
        escapes_complete(encode_bytes(bs, keep_comma)),
    decreases bs.len(),
{
    if bs.len() > 0 {
        lemma_encode_bytes_escapes(bs.drop_last(), keep_comma);
        let b = bs.last();
        let p = encode_bytes(bs.drop_last(), keep_comma);
        let e = encode_byte(b, keep_comma);
        let whole = encode_bytes(bs, keep_comma);
        assert(whole == p + e);
        if is_unreserved(b) || (keep_comma && b == 44) {
            assert((b as char) as u32 == b as u32);
            assert(e[0] != '%');
        } else if b != 32 {
            let hi = b as int / 16;
            let lo = b as int % 16;
            assert(is_hex_upper(hex_digit(hi)));
            assert(is_hex_upper(hex_digit(lo)));
            assert(e[1] != '%');
            assert(e[2] != '%');
        }
        assert forall|i: int| 0 <= i < whole.len() && #[trigger] whole[i] == '%' implies i + 2
            < whole.len() && is_hex_upper(whole[i + 1]) && is_hex_upper(whole[i + 2]) by {
            if i < p.len() {
                assert(whole[i] == p[i]);
                assert(p[i] == '%');
                assert(whole[i + 1] == p[i + 1]);
                assert(whole[i + 2] == p[i + 2]);
            } else {
                assert(whole[i] == e[i - p.len()]);
                assert(whole[i + 1] == e[i + 1 - p.len()]);
                assert(whole[i + 2] == e[i + 2 - p.len()]);
            }
        }
    }
}

/// In an encoded query value every `%` begins a full `%XX` escape, so a
/// literal `%` from the input never appears bare.
pub proof fn lemma_query_encoding_escapes_complete(s: Seq<char>, keep_comma: bool)
    ensures
        escapes_complete(query_encoding(s, keep_comma)),
{
    lemma_encode_bytes_escapes(vstd::utf8::encode_utf8(s), keep_comma);
}

/// The value of a hexadecimal digit (either case).
pub open spec fn hex_value(c: char) -> int {
    let v = c as u32;
    if 48 <= v && v <= 57 {
        v - 48
    } else if 65 <= v && v <= 70 {
        v - 55
    } else {
        v - 87
    }
}

/// Decoding of a form-encoded query value, as a server reads it: `+` is a
/// space, `%XY` is the byte with hex digits `XY`, and any other character
/// stands for its own code.
pub open spec fn form_decode(s: Seq<char>) -> Seq<u8>
    decreases s.len(),
{
    if s.len() == 0 {
        Seq::empty()
    } else if s[0] == '+' {
        seq![32u8] + form_decode(s.skip(1))
    } else if s[0] == '%' && s.len() >= 3 {
        seq![(hex_value(s[1]) * 16 + hex_value(s[2])) as u8] + form_decode(s.skip(3))
    } else {
        seq![s[0] as u8] + form_decode(s.skip(1))
    }
}

proof fn lemma_decode_one_byte(b: u8, keep_comma: bool, rest: Seq<char>)
    ensures
        form_decode(encode_byte(b, keep_comma) + rest) == seq![b] + form_decode(rest),
{
    let e = encode_byte(b, keep_comma);
    let s = e + rest;
    if is_unreserved(b) || (keep_comma && b == 44) {
        assert((b as char) as u32 == b as u32);
        assert(s[0] == b as char);
        assert(s.skip(1) =~= rest);
        assert((b as char) as u8 == b);
    } else if b == 32 {
        assert(s[0] == '+');
        assert(s.skip(1) =~= rest);
    } else {
        let hi = b as int / 16;
        let lo = b as int % 16;
        assert(0 <= hi < 16 && 0 <= lo < 16);
        assert(hex_value(hex_digit(hi)) == hi);
        assert(hex_value(hex_digit(lo)) == lo);
        assert(s[0] == '%');
        assert(s[1] == hex_digit(hi));
        assert(s[2] == hex_digit(lo));
        assert(s.skip(3) =~= rest);
        assert(hi * 16 + lo == b as int);
    }
}

proof fn lemma_encode_bytes_front(bs: Seq<u8>, keep_comma: bool)
    requires
        bs.len() > 0,
    ensures
        encode_bytes(bs, keep_comma) == encode_byte(bs[0], keep_comma) + encode_bytes(
            bs.skip(1),
            keep_comma,
        ),
    decreases bs.len(),
{
    if bs.len() == 1 {
        assert(bs.drop_last() =~= Seq::<u8>::empty());
        assert(bs.skip(1) =~= Seq::<u8>::empty());
        assert(encode_bytes(bs.skip(1), keep_comma) =~= Seq::<char>::empty());
        assert(encode_byte(bs[0], keep_comma) + Seq::<char>::empty() =~= encode_byte(
            bs[0],
            keep_comma,
        ));
    } else {
        lemma_encode_bytes_front(bs.drop_last(), keep_comma);
        assert(bs.drop_last()[0] == bs[0]);
        assert(bs.drop_last().skip(1) =~= bs.skip(1).drop_last());
        assert(bs.skip(1).last() == bs.last());
        assert(encode_byte(bs[0], keep_comma) + encode_bytes(bs.skip(1), keep_comma) =~= (
        encode_byte(bs[0], keep_comma) + encode_bytes(bs.skip(1).drop_last(), keep_comma))
            + encode_byte(bs.last(), keep_comma));
    }
}

proof fn lemma_encode_bytes_round_trip(bs: Seq<u8>, keep_comma: bool)
    ensures
        form_decode(encode_bytes(bs, keep_comma)) == bs,
    decreases bs.len(),
{
    if bs.len() == 0 {
    } else {
        lemma_encode_bytes_front(bs, keep_comma);
        lemma_encode_bytes_round_trip(bs.skip(1), keep_comma);
        lemma_decode_one_byte(bs[0], keep_comma, encode_bytes(bs.skip(1), keep_comma));
        assert(seq![bs[0]] + bs.skip(1) =~= bs);
    }
}

/// Encoding loses nothing: a server that form-decodes the encoded value
/// (`+` as a space, `%XY` as a byte) gets back exactly the UTF-8 bytes of
/// the input. In particular a `+` or `%` of the input is never left bare.
pub proof fn lemma_query_encoding_round_trip(s: Seq<char>, keep_comma: bool)
    ensures
        form_decode(query_encoding(s, keep_comma)) == vstd::utf8::encode_utf8(s),
{
    lemma_encode_bytes_round_trip(vstd::utf8::encode_utf8(s), keep_comma);
}

} // verus!
