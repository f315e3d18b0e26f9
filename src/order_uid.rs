use vstd::prelude::*;
use crate::error::CodecError;
use crate::hex::prefixed_hex;
use crate::primitives::{fixed_from_hex, fixed_hex, Address, B256};

verus! {

/// The four big-endian bytes of `v`.
pub open spec fn be_bytes(v: u32) -> Seq<u8> {
    seq![(v >> 24u32) as u8, (v >> 16u32) as u8, (v >> 8u32) as u8, v as u8]
}

/// The number that four big-endian bytes stand for.
pub open spec fn be_value(b: Seq<u8>) -> u32
    recommends
        b.len() == 4,
{
    ((b[0] as u32) << 24u32) | ((b[1] as u32) << 16u32) | ((b[2] as u32) << 8u32) | (b[3] as u32)
}

/// The 56 bytes of an order identifier: the order digest, then the owner,
/// then the expiry as a big-endian `u32`.
pub open spec fn packed(hash: Seq<u8>, owner: Seq<u8>, valid_to: u32) -> Seq<u8> {
    hash + owner + be_bytes(valid_to)
}

/// Unique identifier of an order: 32 bytes of order digest, 20 bytes of
/// owner address and 4 bytes of expiry timestamp.
#[derive(Debug, Clone, Copy, PartialEq, Eq, Hash, PartialOrd, Ord)]
pub struct OrderUid(pub [u8; 56]);

impl OrderUid {
    pub open spec fn bytes(&self) -> Seq<u8> {
        self.0@
    }

    /// Create a UID from its parts.
    pub fn from_parts(hash: B256, owner: Address, valid_to: u32) -> (r: OrderUid)
        ensures
            r.bytes() == packed(hash.bytes(), owner.bytes(), valid_to),
    {
        let mut uid: [u8; 56] = [0u8; 56];
        let mut i: usize = 0;
        while i < 32
            invariant
                i <= 32,
                forall|j: int| 0 <= j < i ==> uid@[j] == hash.bytes()[j],
            decreases 32 - i,
        {
            uid[i] = hash.0[i];
            i = i + 1;
        }
        let mut k: usize = 0;
        while k < 20
            invariant
                k <= 20,
                forall|j: int| 0 <= j < 32 ==> uid@[j] == hash.bytes()[j],
                forall|j: int| 0 <= j < k ==> uid@[32 + j] == owner.bytes()[j],
            decreases 20 - k,
        {
            uid[32 + k] = owner.0[k];
            k = k + 1;
        }
        uid[52] = (valid_to >> 24u32) as u8;
        uid[53] = (valid_to >> 16u32) as u8;
        uid[54] = (valid_to >> 8u32) as u8;
        uid[55] = valid_to as u8;
        let r = OrderUid(uid);
        assert(r.bytes() =~= packed(hash.bytes(), owner.bytes(), valid_to));
        r
    }

    /// The wire text: `0x` and two lower-case digits per byte.
    pub fn to_hex(&self) -> (r: String)
        ensures
            r@ == prefixed_hex(self.bytes()),
    {
        crate::hex::to_hex(self.0.as_slice())
    }

    /// Reads hexadecimal wire text that stands for exactly 56 bytes.
    pub fn from_hex(s: &str) -> (r: Result<OrderUid, CodecError>)
        ensures
            r is Ok <==> fixed_hex(s@, 56) is Some,
            r matches Ok(u) ==> fixed_hex(s@, 56) == Some(u.bytes()),
            r matches Err(e) ==> e == CodecError::MalformedHex,
    {
        match fixed_from_hex::<56>(s) {
            Ok(a) => Ok(OrderUid(a)),
            Err(e) => Err(e),
        }
    }

    /// Splits an order UID into its parts.
    pub fn parts(&self) -> (r: (B256, Address, u32))
        ensures
            r.0.bytes() == self.bytes().subrange(0, 32),
            r.1.bytes() == self.bytes().subrange(32, 52),
            r.2 == be_value(self.bytes().subrange(52, 56)),
    {
        let mut hash: [u8; 32] = [0u8; 32];
        let mut i: usize = 0;
        while i < 32
            invariant
                i <= 32,
                forall|j: int| 0 <= j < i ==> hash@[j] == self.bytes()[j],
            decreases 32 - i,
        {
            hash[i] = self.0[i];
            i = i + 1;
        }
        let mut owner: [u8; 20] = [0u8; 20];
        let mut k: usize = 0;
        while k < 20
            invariant
                k <= 20,
                forall|j: int| 0 <= j < k ==> owner@[j] == self.bytes()[32 + j],
            decreases 20 - k,
        {
            owner[k] = self.0[32 + k];
            k = k + 1;
        }
        let valid_to: u32 = ((self.0[52] as u32) << 24u32) | ((self.0[53] as u32) << 16u32)
            | ((self.0[54] as u32) << 8u32) | (self.0[55] as u32);
        assert(hash@ =~= self.bytes().subrange(0, 32));
        assert(owner@ =~= self.bytes().subrange(32, 52));
        (B256(hash), Address(owner), valid_to)
    }
}

/// Reading back the four big-endian bytes of a `u32` gives the `u32`.
pub proof fn lemma_be_round_trip(v: u32)
    ensures
        be_value(be_bytes(v)) == v,
{
    let b = be_bytes(v);
    assert(b[0] == (v >> 24u32) as u8 && b[1] == (v >> 16u32) as u8 && b[2] == (v >> 8u32) as u8
        && b[3] == v as u8);
    assert((((v >> 24u32) as u8 as u32) << 24u32) | (((v >> 16u32) as u8 as u32) << 16u32) | (((v
        >> 8u32) as u8 as u32) << 8u32) | (v as u8 as u32) == v) by (bit_vector);
}

/// Splitting a packed identifier gives back the digest, the owner and the
/// expiry it was packed from, and a packed identifier is 56 bytes long.
pub proof fn lemma_parts_of_from_parts(hash: B256, owner: Address, valid_to: u32)
    ensures
        packed(hash.bytes(), owner.bytes(), valid_to).len() == 56,
        packed(hash.bytes(), owner.bytes(), valid_to).subrange(0, 32) == hash.bytes(),
        packed(hash.bytes(), owner.bytes(), valid_to).subrange(32, 52) == owner.bytes(),
        be_value(packed(hash.bytes(), owner.bytes(), valid_to).subrange(52, 56)) == valid_to,
{
    let p = packed(hash.bytes(), owner.bytes(), valid_to);
    assert(p.subrange(0, 32) =~= hash.bytes());
    assert(p.subrange(32, 52) =~= owner.bytes());
    assert(p.subrange(52, 56) =~= be_bytes(valid_to));
    lemma_be_round_trip(valid_to);
}

/// The wire text of a packed identifier reads back as exactly those 56
/// bytes, and splitting them gives back the digest, the owner and the expiry.
pub proof fn lemma_uid_text_round_trip(hash: B256, owner: Address, valid_to: u32)
    ensures
        fixed_hex(prefixed_hex(packed(hash.bytes(), owner.bytes(), valid_to)), 56) == Some(
            packed(hash.bytes(), owner.bytes(), valid_to),
        ),
        packed(hash.bytes(), owner.bytes(), valid_to).subrange(0, 32) == hash.bytes(),
        packed(hash.bytes(), owner.bytes(), valid_to).subrange(32, 52) == owner.bytes(),
        be_value(packed(hash.bytes(), owner.bytes(), valid_to).subrange(52, 56)) == valid_to,
{
    lemma_parts_of_from_parts(hash, owner, valid_to);
    crate::primitives::lemma_fixed_hex_round_trip(packed(hash.bytes(), owner.bytes(), valid_to));
}

} // verus!
