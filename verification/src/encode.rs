//! Canonical byte encodings used when digesting a block: fixed-width
//! little-endian integers and ASCII decimal numerals.

use vstd::prelude::*;

verus! {

/// The eight little-endian bytes of `n` (taken modulo 2^64).
pub open spec fn le8(n: nat) -> Seq<u8> {
    seq![
        (n % 256) as u8,
        ((n / 0x100) % 256) as u8,
        ((n / 0x10000) % 256) as u8,
        ((n / 0x1000000) % 256) as u8,
        ((n / 0x100000000) % 256) as u8,
        ((n / 0x10000000000) % 256) as u8,
        ((n / 0x1000000000000) % 256) as u8,
        ((n / 0x100000000000000) % 256) as u8,
    ]
}

/// Encode `n` as its eight little-endian bytes.
pub fn u64_le8(n: u64) -> (r: Vec<u8>)
    ensures
        r@ == le8(n as nat),
        r@.len() == 8,
{
    let mut v: Vec<u8> = Vec::new();
    v.push((n % 256) as u8);
    v.push(((n / 0x100) % 256) as u8);
    v.push(((n / 0x10000) % 256) as u8);
    v.push(((n / 0x1000000) % 256) as u8);
    v.push(((n / 0x100000000) % 256) as u8);
    v.push(((n / 0x10000000000) % 256) as u8);
    v.push(((n / 0x1000000000000) % 256) as u8);
    v.push(((n / 0x100000000000000) % 256) as u8);
    proof {
        assert(v@ =~= le8(n as nat));
    }
    v
}

/// The ASCII decimal numeral of `n`, most significant digit first,
/// with no leading zeros (a single `'0'` for zero).
pub open spec fn dec_bytes(n: nat) -> Seq<u8>
    decreases n,
{
    if n < 10 {
        seq![(0x30 + n) as u8]
    } else {
        dec_bytes(n / 10).push((0x30 + n % 10) as u8)
    }
}

/// Encode `n` as its ASCII decimal numeral.
pub fn u64_dec_bytes(n: u64) -> (r: Vec<u8>)
    ensures
        r@ == dec_bytes(n as nat),
    decreases n,
{
    if n < 10 {
        let mut v: Vec<u8> = Vec::new();
        v.push(0x30 + (n as u8));
        proof {
            assert(v@ =~= dec_bytes(n as nat));
        }
        v
    } else {
        let mut v = u64_dec_bytes(n / 10);
        v.push(0x30 + ((n % 10) as u8));
        proof {
            assert(v@ =~= dec_bytes(n as nat));
        }
        v
    }
}

} // verus!
