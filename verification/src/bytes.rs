//! Little-endian 64-bit integers in byte strings.

use vstd::prelude::*;

verus! {

/// The number that eight bytes spell, least significant byte first.
pub open spec fn le_u64(s: Seq<u8>) -> u64
    recommends
        s.len() == 8,
{
    (s[0] as int + s[1] as int * 0x100 + s[2] as int * 0x1_0000 + s[3] as int * 0x100_0000
        + s[4] as int * 0x1_0000_0000 + s[5] as int * 0x100_0000_0000 + s[6] as int
        * 0x1_0000_0000_0000 + s[7] as int * 0x100_0000_0000_0000) as u64
}

/// The eight bytes that spell `x`, least significant byte first.
pub open spec fn le_bytes(x: u64) -> Seq<u8> {
    seq![
        (x % 0x100) as u8,
        (x / 0x100 % 0x100) as u8,
        (x / 0x1_0000 % 0x100) as u8,
        (x / 0x100_0000 % 0x100) as u8,
        (x / 0x1_0000_0000 % 0x100) as u8,
        (x / 0x100_0000_0000 % 0x100) as u8,
        (x / 0x1_0000_0000_0000 % 0x100) as u8,
        (x / 0x100_0000_0000_0000 % 0x100) as u8,
    ]
}

/// Decoding undoes encoding.
pub proof fn lemma_le_u64_of_le_bytes(x: u64)
    ensures
        le_bytes(x).len() == 8,
        le_u64(le_bytes(x)) == x,
{
    assert(x == (x % 0x100) + (x / 0x100 % 0x100) * 0x100 + (x / 0x1_0000 % 0x100) * 0x1_0000 + (x
        / 0x100_0000 % 0x100) * 0x100_0000 + (x / 0x1_0000_0000 % 0x100) * 0x1_0000_0000 + (x
        / 0x100_0000_0000 % 0x100) * 0x100_0000_0000 + (x / 0x1_0000_0000_0000 % 0x100)
        * 0x1_0000_0000_0000 + (x / 0x100_0000_0000_0000 % 0x100) * 0x100_0000_0000_0000)
        by (bit_vector);
}

/// Encoding undoes decoding.
pub proof fn lemma_le_bytes_of_le_u64(s: Seq<u8>)
    requires
        s.len() == 8,
    ensures
        le_bytes(le_u64(s)) == s,
{
    let a: u64 = s[0] as u64;
    let b: u64 = s[1] as u64;
    let c: u64 = s[2] as u64;
    let d: u64 = s[3] as u64;
    let e: u64 = s[4] as u64;
    let f: u64 = s[5] as u64;
    let g: u64 = s[6] as u64;
    let h: u64 = s[7] as u64;
    let x: u64 = le_u64(s);
    assert(x == a + b * 0x100 + c * 0x1_0000 + d * 0x100_0000 + e * 0x1_0000_0000 + f
        * 0x100_0000_0000 + g * 0x1_0000_0000_0000 + h * 0x100_0000_0000_0000);
    assert(x % 0x100 == a && x / 0x100 % 0x100 == b && x / 0x1_0000 % 0x100 == c && x / 0x100_0000
        % 0x100 == d && x / 0x1_0000_0000 % 0x100 == e && x / 0x100_0000_0000 % 0x100 == f && x
        / 0x1_0000_0000_0000 % 0x100 == g && x / 0x100_0000_0000_0000 % 0x100 == h)
        by (bit_vector)
        requires
            a < 0x100,
            b < 0x100,
            c < 0x100,
            d < 0x100,
            e < 0x100,
            f < 0x100,
            g < 0x100,
            h < 0x100,
            x == a + b * 0x100 + c * 0x1_0000 + d * 0x100_0000 + e * 0x1_0000_0000 + f
                * 0x100_0000_0000 + g * 0x1_0000_0000_0000 + h * 0x100_0000_0000_0000,
    ;
    assert(le_bytes(x) =~= s);
}

/// Reads the 64-bit little-endian integer at `data[at..at + 8]`.
pub fn read_u64(data: &[u8], at: usize) -> (r: u64)
    requires
        at + 8 <= data@.len(),
    ensures
        r == le_u64(data@.subrange(at as int, at + 8)),
{
    let b0: u64 = data[at] as u64;
    let b1: u64 = data[at + 1] as u64;
    let b2: u64 = data[at + 2] as u64;
    let b3: u64 = data[at + 3] as u64;
    let b4: u64 = data[at + 4] as u64;
    let b5: u64 = data[at + 5] as u64;
    let b6: u64 = data[at + 6] as u64;
    let b7: u64 = data[at + 7] as u64;
    b0 + b1 * 0x100 + b2 * 0x1_0000 + b3 * 0x100_0000 + b4 * 0x1_0000_0000 + b5
        * 0x100_0000_0000 + b6 * 0x1_0000_0000_0000 + b7 * 0x100_0000_0000_0000
}

/// The eight bytes of `x`, least significant first.
pub fn to_le_bytes(x: u64) -> (r: [u8; 8])
    ensures
        r@ == le_bytes(x),
{
    let r: [u8; 8] = [
        (x % 0x100) as u8,
        (x / 0x100 % 0x100) as u8,
        (x / 0x1_0000 % 0x100) as u8,
        (x / 0x100_0000 % 0x100) as u8,
        (x / 0x1_0000_0000 % 0x100) as u8,
        (x / 0x100_0000_0000 % 0x100) as u8,
        (x / 0x1_0000_0000_0000 % 0x100) as u8,
        (x / 0x100_0000_0000_0000 % 0x100) as u8,
    ];
    assert(r@ =~= le_bytes(x));
    r
}

} // verus!
