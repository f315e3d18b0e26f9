use vstd::prelude::*;
use crate::error::CodecError;
use crate::hex::{from_hex, hex_decodes, prefixed_hex, to_hex};

verus! {

/// The bytes of hexadecimal wire text that must stand for exactly `n` bytes.
pub open spec fn fixed_hex(s: Seq<char>, n: nat) -> Option<Seq<u8>> {
    match hex_decodes(s) {
        Some(b) => if b.len() == n {
            Some(b)
        } else {
            None
        },
        None => None,
    }
}

/// The bytes of `v` as an array of `N`.
fn to_array<const N: usize>(v: &Vec<u8>) -> (r: [u8; N])
    requires
        v@.len() == N,
    ensures
        r@ == v@,
{
    let mut a: [u8; N] = [0u8; N];
    let mut i: usize = 0;
    while i < N
        invariant
            v@.len() == N,
            i <= N,
            forall|j: int| 0 <= j < i ==> a@[j] == v@[j],
        decreases N - i,
    {
        a[i] = v[i];
        i = i + 1;
    }
    assert(a@ =~= v@);
    a
}

/// Decodes hexadecimal wire text that must stand for exactly `N` bytes.
pub fn fixed_from_hex<const N: usize>(s: &str) -> (r: Result<[u8; N], CodecError>)
    ensures
        r is Ok <==> fixed_hex(s@, N as nat) is Some,
        r matches Ok(a) ==> fixed_hex(s@, N as nat) == Some(a@),
        r matches Err(e) ==> e == CodecError::MalformedHex,
{
    match from_hex(s) {
        Some(v) => {
            if v.len() == N {
                Ok(to_array(&v))
            } else {
                Err(CodecError::MalformedHex)
            }
        },
        None => Err(CodecError::MalformedHex),
    }
}

/// Decoding the canonical text of `n` bytes as `n` bytes gives them back.
pub proof fn lemma_fixed_hex_round_trip(b: Seq<u8>)
    ensures
        fixed_hex(prefixed_hex(b), b.len()) == Some(b),
{
    crate::hex::lemma_hex_round_trip(b);
}

/// Arbitrary bytes, such as call data or a signature.
#[derive(Debug, Clone, PartialEq, Eq, Hash, Default)]
pub struct Bytes(pub Vec<u8>);

impl Bytes {
    pub open spec fn bytes(&self) -> Seq<u8> {
        self.0@
    }

    /// The wire text: `0x` and two lower-case digits per byte.
    pub fn to_hex(&self) -> (r: String)
        ensures
            r@ == prefixed_hex(self.bytes()),
    {
        to_hex(self.0.as_slice())
    }

    /// Reads hexadecimal wire text of any even number of digits.
    pub fn from_hex(s: &str) -> (r: Result<Bytes, CodecError>)
        ensures
            r is Ok <==> hex_decodes(s@) is Some,
            r matches Ok(b) ==> hex_decodes(s@) == Some(b.bytes()),
            r matches Err(e) ==> e == CodecError::MalformedHex,
    {
        match from_hex(s) {
            Some(v) => Ok(Bytes(v)),
            None => Err(CodecError::MalformedHex),
        }
    }
}

/// A 20-byte account address.
#[derive(Debug, Clone, Copy, PartialEq, Eq, Hash, PartialOrd, Ord)]
pub struct Address(pub [u8; 20]);

/// The bytes of each address of a sequence.
pub open spec fn address_bytes(v: Seq<Address>) -> Seq<Seq<u8>> {
    v.map_values(|a: Address| a.bytes())
}

/// The bytes of the address of each entry of a sequence.
pub open spec fn key_bytes<T>(v: Seq<(Address, T)>) -> Seq<Seq<u8>> {
    v.map_values(|e: (Address, T)| e.0.bytes())
}

/// Whether the elements of a sequence are pairwise distinct.
pub open spec fn distinct(s: Seq<Seq<u8>>) -> bool {
    forall|i: int, j: int| 0 <= i < j < s.len() ==> s[i] != s[j]
}

/// Whether `x` stands in `s`.
pub open spec fn occurs(s: Seq<Seq<u8>>, x: Seq<u8>) -> bool {
    exists|i: int| 0 <= i < s.len() && s[i] == x
}

/// Whether the entries of a sequence have pairwise distinct addresses.
pub fn has_distinct_keys<T>(v: &Vec<(Address, T)>) -> (r: bool)
    ensures
        r == distinct(key_bytes(v@)),
{
    let n = v.len();
    let mut i: usize = 0;
    while i < n
        invariant
            n == v@.len(),
            i <= n,
            forall|a: int, b: int|
                0 <= a < b < n && a < i ==> key_bytes(v@)[a] != key_bytes(v@)[b],
        decreases n - i,
    {
        let mut j: usize = i + 1;
        while j < n
            invariant
                n == v@.len(),
                i < n,
                i + 1 <= j <= n,
                forall|a: int, b: int|
                    0 <= a < b < n && a < i ==> key_bytes(v@)[a] != key_bytes(v@)[b],
                forall|b: int| i < b < j ==> key_bytes(v@)[i as int] != key_bytes(v@)[b],
            decreases n - j,
        {
            if v[i].0.same(&v[j].0) {
                assert(key_bytes(v@)[i as int] == key_bytes(v@)[j as int]);
                return false;
            }
            j = j + 1;
        }
        i = i + 1;
    }
    true
}

/// The addresses of `v`, each once, in the order of their first occurrence.
pub fn unique_addresses(v: &Vec<Address>) -> (r: Vec<Address>)
    ensures
        distinct(address_bytes(r@)),
        forall|i: int| 0 <= i < v@.len() ==> occurs(address_bytes(r@), #[trigger] v@[i].bytes()),
        forall|j: int| 0 <= j < r@.len() ==> occurs(address_bytes(v@), #[trigger] r@[j].bytes()),
{
    let mut r: Vec<Address> = Vec::new();
    let mut i: usize = 0;
    while i < v.len()
        invariant
            i <= v@.len(),
            distinct(address_bytes(r@)),
            forall|k: int| 0 <= k < i ==> occurs(address_bytes(r@), #[trigger] v@[k].bytes()),
            forall|j: int| 0 <= j < r@.len() ==> occurs(address_bytes(v@), #[trigger] r@[j].bytes()),
        decreases v@.len() - i,
    {
        let a = v[i];
        let mut seen = false;
        let mut j: usize = 0;
        while j < r.len()
            invariant
                j <= r@.len(),
                a == v@[i as int],
                seen ==> occurs(address_bytes(r@), a.bytes()),
                !seen ==> forall|k: int| 0 <= k < j ==> r@[k].bytes() != a.bytes(),
            decreases r@.len() - j,
        {
            if r[j].same(&a) {
                assert(address_bytes(r@)[j as int] == a.bytes());
                seen = true;
            }
            j = j + 1;
        }
        assert(occurs(address_bytes(v@), a.bytes())) by {
            assert(address_bytes(v@)[i as int] == a.bytes());
        }
        if !seen {
            let ghost old_r = r@;
            r.push(a);
            assert(address_bytes(r@) =~= address_bytes(old_r).push(a.bytes()));
            assert(address_bytes(r@)[old_r.len() as int] == a.bytes());
            assert forall|k: int| 0 <= k <= i implies occurs(address_bytes(r@), #[trigger] v@[k].bytes()) by {
                if k < i {
                    let w = choose|w: int| 0 <= w < old_r.len() && address_bytes(old_r)[w] == v@[k].bytes();
                    assert(address_bytes(r@)[w] == v@[k].bytes());
                } else {
                    assert(address_bytes(r@)[old_r.len() as int] == v@[k].bytes());
                }
            }
            assert forall|j: int| 0 <= j < r@.len() implies occurs(address_bytes(v@), #[trigger] r@[j].bytes()) by {
                if j < old_r.len() {
                    assert(r@[j] == old_r[j]);
                }
            }
        }
        i = i + 1;
    }
    r
}

/// A 32-byte word, used for digests and identifiers.
#[derive(Debug, Clone, Copy, PartialEq, Eq, Hash, PartialOrd, Ord)]
pub struct B256(pub [u8; 32]);

impl Address {
    pub open spec fn bytes(&self) -> Seq<u8> {
        self.0@
    }

    /// Whether two addresses are the same.
    pub fn same(&self, o: &Address) -> (r: bool)
        ensures
            r == (self.bytes() == o.bytes()),
    {
        let mut i: usize = 0;
        while i < 20
            invariant
                i <= 20,
                forall|j: int| 0 <= j < i ==> self.bytes()[j] == o.bytes()[j],
            decreases 20 - i,
        {
            if self.0[i] != o.0[i] {
                return false;
            }
            i = i + 1;
        }
        assert(self.bytes() =~= o.bytes());
        true
    }

    /// The address whose every byte is `b`.
    pub fn repeat_byte(b: u8) -> (r: Address)
        ensures
            forall|i: int| 0 <= i < 20 ==> r.bytes()[i] == b,
    {
        Address([b; 20])
    }

    /// The wire text: `0x` and two lower-case digits per byte.
    pub fn to_hex(&self) -> (r: String)
        ensures
            r@ == prefixed_hex(self.bytes()),
    {
        to_hex(self.0.as_slice())
    }

    /// Reads hexadecimal wire text that stands for exactly 20 bytes.
    pub fn from_hex(s: &str) -> (r: Result<Address, CodecError>)
        ensures
            r is Ok <==> fixed_hex(s@, 20) is Some,
            r matches Ok(a) ==> fixed_hex(s@, 20) == Some(a.bytes()),
            r matches Err(e) ==> e == CodecError::MalformedHex,
    {
        match fixed_from_hex::<20>(s) {
            Ok(a) => Ok(Address(a)),
            Err(e) => Err(e),
        }
    }
}

impl B256 {
    pub open spec fn bytes(&self) -> Seq<u8> {
        self.0@
    }

    /// The word whose every byte is `b`.
    pub fn repeat_byte(b: u8) -> (r: B256)
        ensures
            forall|i: int| 0 <= i < 32 ==> r.bytes()[i] == b,
    {
        B256([b; 32])
    }

    /// The wire text: `0x` and two lower-case digits per byte.
    pub fn to_hex(&self) -> (r: String)
        ensures
            r@ == prefixed_hex(self.bytes()),
    {
        to_hex(self.0.as_slice())
    }

    /// Reads hexadecimal wire text that stands for exactly 32 bytes.
    pub fn from_hex(s: &str) -> (r: Result<B256, CodecError>)
        ensures
            r is Ok <==> fixed_hex(s@, 32) is Some,
            r matches Ok(a) ==> fixed_hex(s@, 32) == Some(a.bytes()),
            r matches Err(e) ==> e == CodecError::MalformedHex,
    {
        match fixed_from_hex::<32>(s) {
            Ok(a) => Ok(B256(a)),
            Err(e) => Err(e),
        }
    }
}

} // verus!
