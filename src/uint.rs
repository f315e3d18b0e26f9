use vstd::prelude::*;
use crate::error::CodecError;

verus! {

/// One more than the largest 256-bit unsigned integer.
pub open spec fn u256_limit() -> nat {
    0x1_0000_0000_0000_0000_0000_0000_0000_0000_0000_0000_0000_0000_0000_0000_0000_0000_0000_0000_0000_0000nat
}

pub open spec fn is_digit(c: char) -> bool {
    '0' <= c <= '9'
}

/// A non-empty run of decimal digits.
pub open spec fn is_decimal(s: Seq<char>) -> bool {
    s.len() > 0 && forall|i: int| 0 <= i < s.len() ==> is_digit(#[trigger] s[i])
}

/// The number that a run of decimal digits spells.
pub open spec fn decimal_value(s: Seq<char>) -> nat
    decreases s.len(),
{
    if s.len() == 0 {
        0
    } else {
        10 * decimal_value(s.drop_last()) + (s.last() as nat - 48) as nat
    }
}

pub open spec fn digit_char(d: nat) -> char {
    (d + 48) as char
}

/// The decimal text of `n`: no leading zeros, and `0` for zero.
pub open spec fn decimal_text(n: nat) -> Seq<char>
    decreases n,
{
    if n < 10 {
        seq![digit_char(n)]
    } else {
        decimal_text(n / 10).push(digit_char(n % 10))
    }
}

/// Unsigned 256-bit integer, as four 64-bit limbs, least significant first.
#[derive(Debug, Clone, Copy, PartialEq, Eq, Hash, Default)]
pub struct U256 {
    pub limbs: [u64; 4],
}

pub open spec fn limbs_value(l: [u64; 4]) -> nat {
    l[0] as nat + l[1] as nat * 0x1_0000_0000_0000_0000nat + l[2] as nat
        * 0x1_0000_0000_0000_0000_0000_0000_0000_0000nat + l[3] as nat
        * 0x1_0000_0000_0000_0000_0000_0000_0000_0000_0000_0000_0000_0000nat
}

/// Relies on ruint's `Uint::from_str_radix` with radix 10, as re-exported by
/// alloy_primitives: on a run of decimal digits it gives the number they
/// spell, and an error where that number needs more than 256 bits.
#[verifier::external_body]
fn parse_decimal_limbs(s: &str) -> (r: Option<[u64; 4]>)
    requires
        is_decimal(s@),
    ensures
        match r {
            Some(l) => decimal_value(s@) < u256_limit() && limbs_value(l) == decimal_value(s@),
            None => decimal_value(s@) >= u256_limit(),
        },
{
    match alloy_primitives::U256::from_str_radix(s, 10) {
        Ok(v) => Some(v.into_limbs()),
        Err(_) => None,
    }
}

/// Relies on ruint's `Display` for `Uint`, as re-exported by
/// alloy_primitives: the number in decimal, without leading zeros.
#[verifier::external_body]
fn format_decimal_limbs(l: [u64; 4]) -> (r: String)
    ensures
        r@ == decimal_text(limbs_value(l)),
{
    alloy_primitives::U256::from_limbs(l).to_string()
}

impl U256 {
    pub open spec fn value(&self) -> nat {
        limbs_value(self.limbs)
    }

    pub fn zero() -> (r: U256)
        ensures
            r.value() == 0,
    {
        U256 { limbs: [0u64; 4] }
    }

    pub fn from_u64(v: u64) -> (r: U256)
        ensures
            r.value() == v,
    {
        U256 { limbs: [v, 0, 0, 0] }
    }

    /// The wire text: the number in decimal.
    pub fn to_decimal(&self) -> (r: String)
        ensures
            r@ == decimal_text(self.value()),
    {
        format_decimal_limbs(self.limbs)
    }

    /// Reads wire text: a non-empty run of decimal digits whose number fits
    /// in 256 bits.
    pub fn from_decimal(s: &str) -> (r: Result<U256, CodecError>)
        ensures
            r is Ok <==> is_decimal(s@) && decimal_value(s@) < u256_limit(),
            r matches Ok(v) ==> v.value() == decimal_value(s@),
            r matches Err(e) ==> e == CodecError::InvalidInteger,
    {
        if !all_digits(s) {
            return Err(CodecError::InvalidInteger);
        }
        match parse_decimal_limbs(s) {
            Some(l) => Ok(U256 { limbs: l }),
            None => Err(CodecError::InvalidInteger),
        }
    }
}

/// Whether `s` is a non-empty run of decimal digits.
pub fn all_digits(s: &str) -> (r: bool)
    ensures
        r == is_decimal(s@),
{
    let n = s.unicode_len();
    if n == 0 {
        return false;
    }
    let mut i: usize = 0;
    while i < n
        invariant
            n == s@.len(),
            i <= n,
            forall|j: int| 0 <= j < i ==> is_digit(#[trigger] s@[j]),
        decreases n - i,
    {
        let c = s.get_char(i);
        if !('0' <= c && c <= '9') {
            return false;
        }
        i = i + 1;
    }
    true
}

pub proof fn lemma_decimal_text(n: nat)
    ensures
        is_decimal(decimal_text(n)),
        decimal_value(decimal_text(n)) == n,
    decreases n,
{
    if n >= 10 {
        lemma_decimal_text(n / 10);
        let t = decimal_text(n / 10);
        let u = t.push(digit_char(n % 10));
        assert(u.drop_last() =~= t);
        assert(u.last() == digit_char(n % 10));
        assert(digit_char(n % 10) as nat == n % 10 + 48);
        assert(10 * (n / 10) + n % 10 == n);
        assert(decimal_text(n) == u);
        assert(decimal_value(u) == 10 * decimal_value(t) + n % 10);
        assert forall|i: int| 0 <= i < u.len() implies is_digit(#[trigger] u[i]) by {
            if i < t.len() {
                assert(u[i] == t[i]);
            }
        }
    } else {
        assert(seq![digit_char(n)].drop_last() =~= Seq::<char>::empty());
        assert(digit_char(n) as nat == n + 48);
        assert(decimal_value(seq![digit_char(n)]) == 10 * decimal_value(Seq::<char>::empty()) + n);
    }
}

/// Decimal text as this crate writes it: digits without a leading zero,
/// unless the number is zero itself.
pub open spec fn is_canonical_decimal(s: Seq<char>) -> bool {
    is_decimal(s) && (s.len() == 1 || s[0] != '0')
}

proof fn lemma_leading_digit_positive(s: Seq<char>)
    requires
        is_decimal(s),
        s[0] != '0',
    ensures
        decimal_value(s) >= 1,
    decreases s.len(),
{
    if s.len() > 1 {
        let p = s.drop_last();
        assert(p[0] == s[0]);
        assert forall|i: int| 0 <= i < p.len() implies is_digit(#[trigger] p[i]) by {
            assert(p[i] == s[i]);
        }
        lemma_leading_digit_positive(p);
    } else {
        assert(s.drop_last() =~= Seq::<char>::empty());
        assert(is_digit(s[0]));
    }
}

/// Writing the number of canonical decimal text gives the text back.
pub proof fn lemma_canonical_decimal(s: Seq<char>)
    requires
        is_canonical_decimal(s),
    ensures
        decimal_text(decimal_value(s)) == s,
    decreases s.len(),
{
    let d = s.last();
    assert(is_digit(d));
    let dv = (d as nat - 48) as nat;
    assert(dv < 10);
    assert(digit_char(dv) == d);
    let p = s.drop_last();
    if s.len() == 1 {
        assert(p =~= Seq::<char>::empty());
        assert(decimal_value(s) == dv);
        assert(seq![d] =~= s);
    } else {
        assert(p[0] == s[0]);
        assert forall|i: int| 0 <= i < p.len() implies is_digit(#[trigger] p[i]) by {
            assert(p[i] == s[i]);
        }
        lemma_leading_digit_positive(p);
        lemma_canonical_decimal(p);
        let v = decimal_value(s);
        assert(v == 10 * decimal_value(p) + dv);
        assert(v >= 10);
        assert(v / 10 == decimal_value(p));
        assert(v % 10 == dv);
        assert(decimal_text(v) == decimal_text(v / 10).push(digit_char(v % 10)));
        assert(p.push(d) =~= s);
    }
}

/// Reading the decimal text of a 256-bit number gives the number back.
pub proof fn lemma_decimal_round_trip(v: U256)
    ensures
        is_decimal(decimal_text(v.value())),
        decimal_value(decimal_text(v.value())) == v.value(),
        decimal_value(decimal_text(v.value())) < u256_limit(),
{
    lemma_decimal_text(v.value());
    assert(v.value() < u256_limit()) by (nonlinear_arith)
        requires
            v.value() == limbs_value(v.limbs),
            v.limbs[0] < 0x1_0000_0000_0000_0000nat,
            v.limbs[1] < 0x1_0000_0000_0000_0000nat,
            v.limbs[2] < 0x1_0000_0000_0000_0000nat,
            v.limbs[3] < 0x1_0000_0000_0000_0000nat,
    ;
}

/// Decimal digits, with a leading `-` for a negative number.
pub open spec fn is_signed_decimal(s: Seq<char>) -> bool {
    is_decimal(s) || (s.len() > 0 && s[0] == '-' && is_decimal(s.drop_first()))
}

/// The number that signed decimal text spells.
pub open spec fn signed_value(s: Seq<char>) -> int {
    if s.len() > 0 && s[0] == '-' {
        -decimal_value(s.drop_first())
    } else {
        decimal_value(s) as int
    }
}

/// The decimal text of `v`, with a leading `-` where it is negative.
pub open spec fn signed_text(v: int) -> Seq<char> {
    if v < 0 {
        seq!['-'] + decimal_text((-v) as nat)
    } else {
        decimal_text(v as nat)
    }
}

/// Relies on `str::parse::<i64>` of std: on signed decimal text it gives the
/// number it spells, and an error where that number does not fit.
#[verifier::external_body]
fn parse_i64(s: &str) -> (r: Option<i64>)
    requires
        is_signed_decimal(s@),
    ensures
        match r {
            Some(v) => v == signed_value(s@),
            None => !(i64::MIN <= signed_value(s@) <= i64::MAX),
        },
{
    match s.parse::<i64>() {
        Ok(v) => Some(v),
        Err(_) => None,
    }
}

/// Relies on `ToString` for `i64` of std: the number in decimal, with a
/// leading `-` where it is negative.
#[verifier::external_body]
fn format_i64(v: i64) -> (r: String)
    ensures
        r@ == signed_text(v as int),
{
    v.to_string()
}

/// The wire text of an `i64`.
pub fn i64_to_decimal(v: i64) -> (r: String)
    ensures
        r@ == signed_text(v as int),
{
    format_i64(v)
}

/// Reads an `i64` from signed decimal wire text.
pub fn i64_from_decimal(s: &str) -> (r: Result<i64, CodecError>)
    ensures
        r is Ok <==> is_signed_decimal(s@) && i64::MIN <= signed_value(s@) <= i64::MAX,
        r matches Ok(v) ==> v == signed_value(s@),
        r matches Err(e) ==> e == CodecError::InvalidInteger,
{
    let n = s.unicode_len();
    if n == 0 {
        return Err(CodecError::InvalidInteger);
    }
    let ok = if s.get_char(0) == '-' {
        let rest = s.substring_char(1, n);
        assert(rest@ =~= s@.drop_first());
        all_digits(rest)
    } else {
        all_digits(s)
    };
    if !ok {
        return Err(CodecError::InvalidInteger);
    }
    match parse_i64(s) {
        Some(v) => Ok(v),
        None => Err(CodecError::InvalidInteger),
    }
}

/// Signed decimal text as this crate writes it: canonical digits, with a
/// leading `-` only before a number other than zero.
pub open spec fn is_canonical_signed(s: Seq<char>) -> bool {
    is_canonical_decimal(s) || (s.len() > 1 && s[0] == '-' && is_canonical_decimal(s.drop_first())
        && s.drop_first() != seq!['0'])
}

/// Writing the number of canonical signed decimal text gives the text back.
pub proof fn lemma_canonical_signed(s: Seq<char>)
    requires
        is_canonical_signed(s),
    ensures
        signed_text(signed_value(s)) == s,
{
    if is_canonical_decimal(s) {
        lemma_canonical_decimal(s);
        assert(is_digit(s[0]));
    } else {
        let r = s.drop_first();
        lemma_canonical_decimal(r);
        if decimal_value(r) == 0 {
            assert(decimal_text(0) == seq![digit_char(0)]);
            assert(r =~= seq!['0']);
        }
        assert(seq!['-'] + r =~= s);
    }
}

/// Reading the signed decimal text of a number gives the number back.
pub proof fn lemma_signed_round_trip(v: int)
    ensures
        is_signed_decimal(signed_text(v)),
        signed_value(signed_text(v)) == v,
{
    if v < 0 {
        lemma_decimal_text((-v) as nat);
        let t = signed_text(v);
        assert(t.drop_first() =~= decimal_text((-v) as nat));
    } else {
        lemma_decimal_text(v as nat);
        let t = decimal_text(v as nat);
        assert(t[0] != '-') by {
            assert(is_digit(t[0]));
        }
    }
}

} // verus!
