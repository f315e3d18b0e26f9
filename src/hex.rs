use vstd::prelude::*;

verus! {

/// The lower-case hexadecimal digit for `d < 16`.
pub open spec fn hex_char(d: u8) -> char {
    if d < 10 {
        (d + 48) as char
    } else {
        (d + 87) as char
    }
}

/// Two lower-case hexadecimal digits for each byte, high half first.
pub open spec fn hex_of(b: Seq<u8>) -> Seq<char> {
    Seq::new(
        2 * b.len(),
        |i: int|
            if i % 2 == 0 {
                hex_char(b[i / 2] / 16)
            } else {
                hex_char(b[i / 2] % 16)
            },
    )
}

/// The canonical wire text of a byte sequence: `0x`, then its digits.
pub open spec fn prefixed_hex(b: Seq<u8>) -> Seq<char> {
    seq!['0', 'x'] + hex_of(b)
}

pub open spec fn is_hex_digit(c: char) -> bool {
    ('0' <= c <= '9') || ('a' <= c <= 'f') || ('A' <= c <= 'F')
}

/// The value of a hexadecimal digit, in either case.
pub open spec fn hex_value(c: char) -> int {
    if '0' <= c <= '9' {
        c as int - 48
    } else if 'a' <= c <= 'f' {
        c as int - 87
    } else {
        c as int - 55
    }
}

/// `s` without one leading `0x` or `0X`.
pub open spec fn strip_0x(s: Seq<char>) -> Seq<char> {
    if s.len() >= 2 && s[0] == '0' && (s[1] == 'x' || s[1] == 'X') {
        s.subrange(2, s.len() as int)
    } else {
        s
    }
}

/// The bytes that hexadecimal text stands for, if it is well formed: an
/// optional `0x` or `0X`, then an even number of digits of either case.
pub open spec fn hex_decodes(s: Seq<char>) -> Option<Seq<u8>> {
    let t = strip_0x(s);
    if t.len() % 2 == 0 && forall|i: int| 0 <= i < t.len() ==> is_hex_digit(#[trigger] t[i]) {
        Some(
            Seq::new(
                t.len() / 2,
                |i: int| (16 * hex_value(t[2 * i]) + hex_value(t[2 * i + 1])) as u8,
            ),
        )
    } else {
        None
    }
}

/// Relies on alloy_primitives::hex::encode_prefixed: `0x`, then two
/// lower-case digits for each byte.
#[verifier::external_body]
fn encode_prefixed(b: &[u8]) -> (r: String)
    ensures
        r@ == prefixed_hex(b@),
{
    alloy_primitives::hex::encode_prefixed(b)
}

/// Relies on alloy_primitives::hex::decode: it strips one `0x` or `0X` and
/// accepts exactly an even number of digits of either case.
#[verifier::external_body]
fn decode(s: &str) -> (r: Option<Vec<u8>>)
    ensures
        match r {
            Some(v) => hex_decodes(s@) == Some(v@),
            None => hex_decodes(s@) is None,
        },
{
    match alloy_primitives::hex::decode(s) {
        Ok(v) => Some(v),
        Err(_) => None,
    }
}

/// The wire text of a byte sequence.
pub fn to_hex(b: &[u8]) -> (r: String)
    ensures
        r@ == prefixed_hex(b@),
{
    encode_prefixed(b)
}

/// The bytes that hexadecimal wire text stands for, or `None` where it is
/// not well formed.
pub fn from_hex(s: &str) -> (r: Option<Vec<u8>>)
    ensures
        match r {
            Some(v) => hex_decodes(s@) == Some(v@),
            None => hex_decodes(s@) is None,
        },
{
    decode(s)
}

proof fn lemma_hex_char(d: u8)
    requires
        d < 16,
    ensures
        is_hex_digit(hex_char(d)),
        hex_value(hex_char(d)) == d,
        hex_char(d) != 'x',
{
}

/// Decoding the canonical text of a byte sequence gives the byte sequence.
pub proof fn lemma_hex_round_trip(b: Seq<u8>)
    ensures
        hex_decodes(prefixed_hex(b)) == Some(b),
{
    let s = prefixed_hex(b);
    let t = strip_0x(s);
    assert(t =~= hex_of(b));
    assert forall|i: int| 0 <= i < t.len() implies is_hex_digit(#[trigger] t[i]) by {
        if i % 2 == 0 {
            lemma_hex_char(b[i / 2] / 16);
        } else {
            lemma_hex_char(b[i / 2] % 16);
        }
    }
    let d = Seq::new(
        t.len() / 2,
        |i: int| (16 * hex_value(t[2 * i]) + hex_value(t[2 * i + 1])) as u8,
    );
    assert forall|i: int| 0 <= i < b.len() implies d[i] == b[i] by {
        lemma_hex_char(b[i] / 16);
        lemma_hex_char(b[i] % 16);
        assert(t[2 * i] == hex_char(b[i] / 16));
        assert(t[2 * i + 1] == hex_char(b[i] % 16));
    }
    assert(d =~= b);
}

/// Hexadecimal text as this crate writes it: `0x`, then an even number of
/// lower-case digits.
pub open spec fn is_canonical_hex(s: Seq<char>) -> bool {
    s.len() >= 2 && s[0] == '0' && s[1] == 'x' && s.len() % 2 == 0 && forall|i: int|
        2 <= i < s.len() ==> ('0' <= #[trigger] s[i] <= '9' || 'a' <= s[i] <= 'f')
}

proof fn lemma_lower_digit(c: char)
    requires
        '0' <= c <= '9' || 'a' <= c <= 'f',
    ensures
        is_hex_digit(c),
        0 <= hex_value(c) < 16,
        hex_char(hex_value(c) as u8) == c,
{
}

/// Writing the bytes of canonical hexadecimal text gives the text back.
pub proof fn lemma_canonical_hex(s: Seq<char>)
    requires
        is_canonical_hex(s),
    ensures
        hex_decodes(s) is Some,
        prefixed_hex(hex_decodes(s).unwrap()) == s,
{
    let t = strip_0x(s);
    assert(t =~= s.subrange(2, s.len() as int));
    assert forall|i: int| 0 <= i < t.len() implies is_hex_digit(#[trigger] t[i]) by {
        assert(t[i] == s[i + 2]);
        lemma_lower_digit(s[i + 2]);
    }
    let b = hex_decodes(s).unwrap();
    assert forall|i: int| 0 <= i < t.len() implies #[trigger] hex_of(b)[i] == t[i] by {
        let k = i / 2;
        assert(t[2 * k] == s[2 * k + 2]);
        assert(t[2 * k + 1] == s[2 * k + 3]);
        lemma_lower_digit(t[2 * k]);
        lemma_lower_digit(t[2 * k + 1]);
        let hi = hex_value(t[2 * k]);
        let lo = hex_value(t[2 * k + 1]);
        assert(b[k] == (16 * hi + lo) as u8);
        assert(b[k] / 16 == hi && b[k] % 16 == lo) by (nonlinear_arith)
            requires
                0 <= hi < 16,
                0 <= lo < 16,
                b[k] == 16 * hi + lo,
        ;
    }
    assert(hex_of(b) =~= t);
    assert(prefixed_hex(b) =~= s);
}

} // verus!
