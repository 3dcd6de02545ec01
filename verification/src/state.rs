//! The escrow record and its byte layout.
//!
//! A record is stored as 113 bytes in fixed order: the seed (8, little
//! endian), the maker (32), the deposited asset (32), the asset asked for
//! (32), the amount asked for (8, little endian) and the bump (1).

use vstd::prelude::*;
use crate::address::Address;
use crate::bytes::{
    le_bytes, le_u64, lemma_le_bytes_of_le_u64, lemma_le_u64_of_le_bytes, read_u64, to_le_bytes,
};
use crate::error::EscrowError;

verus! {

/// One open escrow, as it is persisted.
#[derive(Clone, Copy, Debug, PartialEq, Eq)]
pub struct Escrow {
    /// Chosen by the maker; part of the record's identity.
    pub seed: u64,
    /// Who opened the escrow.
    pub maker: Address,
    /// The asset that the maker deposited.
    pub mint_a: Address,
    /// The asset that the maker wants in return.
    pub mint_b: Address,
    /// How much of `mint_b` the maker asks for.
    pub receive: u64,
    /// The bump of the record's derived identity.
    pub bump: [u8; 1],
}

/// The seed that a stored record holds.
pub open spec fn stored_seed(bytes: Seq<u8>) -> u64
    recommends
        bytes.len() == Escrow::LEN,
{
    le_u64(bytes.subrange(0, 8))
}

/// The maker that a stored record holds.
pub open spec fn stored_maker(bytes: Seq<u8>) -> Seq<u8>
    recommends
        bytes.len() == Escrow::LEN,
{
    bytes.subrange(8, 40)
}

/// The deposited asset that a stored record holds.
pub open spec fn stored_mint_a(bytes: Seq<u8>) -> Seq<u8>
    recommends
        bytes.len() == Escrow::LEN,
{
    bytes.subrange(40, 72)
}

/// The asset asked for that a stored record holds.
pub open spec fn stored_mint_b(bytes: Seq<u8>) -> Seq<u8>
    recommends
        bytes.len() == Escrow::LEN,
{
    bytes.subrange(72, 104)
}

/// The amount asked for that a stored record holds.
pub open spec fn stored_receive(bytes: Seq<u8>) -> u64
    recommends
        bytes.len() == Escrow::LEN,
{
    le_u64(bytes.subrange(104, 112))
}

/// The bump that a stored record holds.
pub open spec fn stored_bump(bytes: Seq<u8>) -> u8
    recommends
        bytes.len() == Escrow::LEN,
{
    bytes[112]
}

/// Reads the identity stored at `data[at..at + 32]`.
pub fn read_address(data: &[u8], at: usize) -> (r: Address)
    requires
        at + 32 <= data@.len(),
    ensures
        r@ == data@.subrange(at as int, at + 32),
{
    let mut bytes: [u8; 32] = [0u8; 32];
    let len = data.len();
    let mut i: usize = 0;
    while i < 32
        invariant
            i <= 32,
            len == data@.len(),
            at + 32 <= len,
            forall|j: int| 0 <= j < i ==> bytes@[j] == data@[at + j],
        decreases 32 - i,
    {
        bytes[i] = data[at + i];
        i += 1;
    }
    assert(bytes@ =~= data@.subrange(at as int, at + 32));
    Address { bytes }
}

/// Copies `src` over `dst[at..at + src.len()]`.
fn write_at(dst: &mut [u8], at: usize, src: &[u8])
    requires
        at + src@.len() <= old(dst)@.len(),
    ensures
        final(dst)@.len() == old(dst)@.len(),
        forall|j: int|
            0 <= j < old(dst)@.len() ==> final(dst)@[j] == if at <= j < at + src@.len() {
                src@[j - at]
            } else {
                old(dst)@[j]
            },
{
    let n = src.len();
    let len = dst.len();
    let mut i: usize = 0;
    while i < n
        invariant
            i <= n,
            n == src@.len(),
            dst@.len() == old(dst)@.len(),
            len == dst@.len(),
            at + n <= len,
            forall|j: int|
                0 <= j < dst@.len() ==> dst@[j] == if at <= j < at + i {
                    src@[j - at]
                } else {
                    old(dst)@[j]
                },
        decreases n - i,
    {
        dst[at + i] = src[i];
        i += 1;
    }
}

impl Escrow {
    /// Number of bytes of a stored record.
    pub const LEN: usize = 113;

    /// The 113 bytes under which this record is stored.
    #[verifier::opaque]
    pub open spec fn encoding(&self) -> Seq<u8> {
        le_bytes(self.seed) + self.maker@ + self.mint_a@ + self.mint_b@ + le_bytes(self.receive)
            + self.bump@
    }

    /// Whether this record is what the stored bytes hold, field by field.
    pub open spec fn holds(&self, bytes: Seq<u8>) -> bool {
        &&& bytes.len() == Escrow::LEN
        &&& self.seed == stored_seed(bytes)
        &&& self.maker@ == stored_maker(bytes)
        &&& self.mint_a@ == stored_mint_a(bytes)
        &&& self.mint_b@ == stored_mint_b(bytes)
        &&& self.receive == stored_receive(bytes)
        &&& self.bump@ == seq![stored_bump(bytes)]
    }

    /// The record in which every field is zero.
    pub fn zeroed() -> (r: Escrow)
        ensures
            r.seed == 0,
            r.receive == 0,
            r.maker@ == Seq::new(32, |i: int| 0u8),
            r.mint_a@ == Seq::new(32, |i: int| 0u8),
            r.mint_b@ == Seq::new(32, |i: int| 0u8),
            r.bump@ == seq![0u8],
    {
        let zero = Address { bytes: [0u8; 32] };
        let bump: [u8; 1] = [0u8];
        assert(zero@ =~= Seq::new(32, |i: int| 0u8));
        assert(bump@ =~= seq![0u8]);
        Escrow { seed: 0, maker: zero, mint_a: zero, mint_b: zero, receive: 0, bump }
    }

    /// Decodes a stored record. Succeeds exactly on 113 bytes, with the
    /// record that those bytes encode; any other length is refused.
    pub fn load(bytes: &[u8]) -> (r: Result<Escrow, EscrowError>)
        ensures
            r is Ok <==> bytes@.len() == Escrow::LEN,
            r matches Ok(e) ==> e.encoding() == bytes@ && e.holds(bytes@),
            r matches Err(e) ==> e == EscrowError::InvalidAccountData,
    {
        if bytes.len() != Escrow::LEN {
            return Err(EscrowError::InvalidAccountData);
        }
        let seed = read_u64(bytes, 0);
        let maker = read_address(bytes, 8);
        let mint_a = read_address(bytes, 40);
        let mint_b = read_address(bytes, 72);
        let receive = read_u64(bytes, 104);
        let bump: [u8; 1] = [bytes[112]];
        let e = Escrow { seed, maker, mint_a, mint_b, receive, bump };
        proof {
            reveal(Escrow::encoding);
            lemma_le_bytes_of_le_u64(bytes@.subrange(0, 8));
            lemma_le_bytes_of_le_u64(bytes@.subrange(104, 112));
            assert(e.encoding() =~= bytes@);
            assert(e.bump@ =~= seq![stored_bump(bytes@)]);
        }
        Ok(e)
    }

    /// Writes `record` over a record slot. Succeeds exactly on a slot of 113
    /// bytes, which then holds the record's encoding; a slot of any other
    /// length is refused and left as it was.
    pub fn load_mut(bytes: &mut [u8], record: &Escrow) -> (r: Result<(), EscrowError>)
        ensures
            r is Ok <==> old(bytes)@.len() == Escrow::LEN,
            r is Ok ==> final(bytes)@ == record.encoding(),
            r matches Err(e) ==> e == EscrowError::InvalidAccountData,
            r is Err ==> final(bytes)@ == old(bytes)@,
    {
        if bytes.len() != Escrow::LEN {
            return Err(EscrowError::InvalidAccountData);
        }
        let seed = to_le_bytes(record.seed);
        let receive = to_le_bytes(record.receive);
        write_at(bytes, 0, seed.as_slice());
        write_at(bytes, 8, record.maker.bytes.as_slice());
        write_at(bytes, 40, record.mint_a.bytes.as_slice());
        write_at(bytes, 72, record.mint_b.bytes.as_slice());
        write_at(bytes, 104, receive.as_slice());
        write_at(bytes, 112, record.bump.as_slice());
        proof {
            reveal(Escrow::encoding);
        }
        assert(bytes@ =~= record.encoding());
        Ok(())
    }

    /// The bytes under which this record is stored.
    pub fn to_bytes(&self) -> (r: Vec<u8>)
        ensures
            r@ == self.encoding(),
    {
        let mut r: Vec<u8> = Vec::new();
        let mut i: usize = 0;
        while i < Escrow::LEN
            invariant
                i <= Escrow::LEN,
                r@.len() == i,
            decreases Escrow::LEN - i,
        {
            r.push(0u8);
            i += 1;
        }
        let _ = Escrow::load_mut(r.as_mut_slice(), self);
        r
    }

    /// Sets the seed.
    pub fn set_seeds(&mut self, seed: u64)
        ensures
            *final(self) == (Escrow { seed, ..*old(self) }),
    {
        self.seed = seed;
    }

    /// Sets the maker.
    pub fn set_maker(&mut self, maker: Address)
        ensures
            *final(self) == (Escrow { maker, ..*old(self) }),
    {
        self.maker = maker;
    }

    /// Sets the deposited asset.
    pub fn set_mint_a(&mut self, mint_a: Address)
        ensures
            *final(self) == (Escrow { mint_a, ..*old(self) }),
    {
        self.mint_a = mint_a;
    }

    /// Sets the asset asked for.
    pub fn set_mint_b(&mut self, mint_b: Address)
        ensures
            *final(self) == (Escrow { mint_b, ..*old(self) }),
    {
        self.mint_b = mint_b;
    }

    /// Sets the amount asked for.
    pub fn set_receive(&mut self, receive: u64)
        ensures
            *final(self) == (Escrow { receive, ..*old(self) }),
    {
        self.receive = receive;
    }

    /// Sets the bump.
    pub fn set_bump(&mut self, bump: [u8; 1])
        ensures
            *final(self) == (Escrow { bump, ..*old(self) }),
    {
        self.bump = bump;
    }

    /// Sets every field at once.
    pub fn set_inner(
        &mut self,
        seed: u64,
        maker: Address,
        mint_a: Address,
        mint_b: Address,
        receive: u64,
        bump: [u8; 1],
    )
        ensures
            *final(self) == (Escrow { seed, maker, mint_a, mint_b, receive, bump }),
    {
        self.set_seeds(seed);
        self.set_maker(maker);
        self.set_mint_a(mint_a);
        self.set_mint_b(mint_b);
        self.set_receive(receive);
        self.set_bump(bump);
    }
}

/// The fields of a record can be read off its encoding at fixed offsets:
/// a record is what its own encoding holds.
pub proof fn lemma_encoding_fields(e: Escrow)
    ensures
        e.encoding().len() == Escrow::LEN,
        e.holds(e.encoding()),
{
    reveal(Escrow::encoding);
    lemma_le_u64_of_le_bytes(e.seed);
    lemma_le_u64_of_le_bytes(e.receive);
    let s = e.encoding();
    assert(s.subrange(0, 8) =~= le_bytes(e.seed));
    assert(s.subrange(8, 40) =~= e.maker@);
    assert(s.subrange(40, 72) =~= e.mint_a@);
    assert(s.subrange(72, 104) =~= e.mint_b@);
    assert(s.subrange(104, 112) =~= le_bytes(e.receive));
    assert(e.bump@ =~= seq![s[112]]);
}

/// Two records with the same encoding are the same record: decoding what
/// was encoded gives the record back.
pub proof fn lemma_encoding_injective(a: Escrow, b: Escrow)
    requires
        a.encoding() == b.encoding(),
    ensures
        a == b,
{
    lemma_encoding_fields(a);
    lemma_encoding_fields(b);
    assert(a.maker@ == b.maker@);
    assert(a.maker.bytes =~= b.maker.bytes);
    assert(a.mint_a.bytes =~= b.mint_a.bytes);
    assert(a.mint_b.bytes =~= b.mint_b.bytes);
    assert(a.bump =~= b.bump);
}

} // verus!
