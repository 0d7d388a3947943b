//! Little-endian encoding of slot numbers inside instruction data.

use vstd::arithmetic::div_mod::{lemma_div_denominator, lemma_fundamental_div_mod};
use vstd::prelude::*;

verus! {

/// The eight little-endian bytes of `n`.
pub open spec fn spec_u64_to_le_bytes(n: u64) -> Seq<u8> {
    seq![
        (n as int % 256) as u8,
        (n as int / 256 % 256) as u8,
        (n as int / 65536 % 256) as u8,
        (n as int / 16777216 % 256) as u8,
        (n as int / 4294967296 % 256) as u8,
        (n as int / 1099511627776 % 256) as u8,
        (n as int / 281474976710656 % 256) as u8,
        (n as int / 72057594037927936 % 256) as u8,
    ]
}

/// The value of eight little-endian bytes.
pub open spec fn spec_u64_from_le_bytes(b: Seq<u8>) -> int
    recommends
        b.len() == 8,
{
    b[0] + b[1] * 256 + b[2] * 65536 + b[3] * 16777216 + b[4] * 4294967296 + b[5]
        * 1099511627776 + b[6] * 281474976710656 + b[7] * 72057594037927936
}

/// Splits one little-endian digit off the front: dividing once more by 256
/// is dividing by the next power.
proof fn lemma_step(x: int, p: int)
    requires
        0 <= x,
        0 < p,
    ensures
        x / p / 256 == x / (p * 256),
        x / p == 256 * (x / (p * 256)) + (x / p % 256),
{
    lemma_div_denominator(x, p, 256);
    lemma_fundamental_div_mod(x / p, 256);
}

/// Decoding the encoding of `n` gives `n` back.
pub proof fn lemma_le_bytes_round_trip(n: u64)
    ensures
        spec_u64_from_le_bytes(spec_u64_to_le_bytes(n)) == n,
{
    let x = n as int;
    lemma_fundamental_div_mod(x, 256);
    lemma_step(x, 256);
    lemma_step(x, 65536);
    lemma_step(x, 16777216);
    lemma_step(x, 4294967296);
    lemma_step(x, 1099511627776);
    lemma_step(x, 281474976710656);
    lemma_step(x, 72057594037927936);
    assert(x / 72057594037927936 / 256 == x / 18446744073709551616) by {
        lemma_div_denominator(x, 72057594037927936, 256);
    }
    assert(x / 18446744073709551616 == 0) by {
        vstd::arithmetic::div_mod::lemma_basic_div(x, 18446744073709551616);
    }
}

/// Encodes `n` as its eight little-endian bytes.
pub fn u64_to_le_bytes(n: u64) -> (r: Vec<u8>)
    ensures
        r@ == spec_u64_to_le_bytes(n),
{
    let mut r: Vec<u8> = Vec::new();
    let b0 = (n % 256) as u8;
    let n1 = n / 256;
    let b1 = (n1 % 256) as u8;
    let n2 = n1 / 256;
    let b2 = (n2 % 256) as u8;
    let n3 = n2 / 256;
    let b3 = (n3 % 256) as u8;
    let n4 = n3 / 256;
    let b4 = (n4 % 256) as u8;
    let n5 = n4 / 256;
    let b5 = (n5 % 256) as u8;
    let n6 = n5 / 256;
    let b6 = (n6 % 256) as u8;
    let n7 = n6 / 256;
    let b7 = (n7 % 256) as u8;
    proof {
        let x = n as int;
        lemma_step(x, 256);
        lemma_step(x, 65536);
        lemma_step(x, 16777216);
        lemma_step(x, 4294967296);
        lemma_step(x, 1099511627776);
        lemma_step(x, 281474976710656);
    }
    r.push(b0);
    r.push(b1);
    r.push(b2);
    r.push(b3);
    r.push(b4);
    r.push(b5);
    r.push(b6);
    r.push(b7);
    proof {
        assert(r@ =~= spec_u64_to_le_bytes(n));
    }
    r
}

/// Decodes the eight little-endian bytes of `b` starting at `offset`.
pub fn u64_from_le_bytes_at(b: &Vec<u8>, offset: usize) -> (r: u64)
    requires
        offset + 8 <= b@.len(),
    ensures
        r == spec_u64_from_le_bytes(b@.subrange(offset as int, offset + 8)),
{
    let len = b.len();
    let ghost s = b@.subrange(offset as int, offset + 8);
    proof {
        assert(offset + 8 <= len);
        assert(spec_u64_from_le_bytes(s) <= 255 + 255 * 256 + 255 * 65536 + 255 * 16777216 + 255
            * 4294967296 + 255 * 1099511627776 + 255 * 281474976710656 + 255
            * 72057594037927936);
    }
    let r: u64 = (b[offset] as u64) + (b[offset + 1] as u64) * 256 + (b[offset + 2] as u64) * 65536
        + (b[offset + 3] as u64) * 16777216 + (b[offset + 4] as u64) * 4294967296 + (b[offset
        + 5] as u64) * 1099511627776 + (b[offset + 6] as u64) * 281474976710656 + (b[offset
        + 7] as u64) * 72057594037927936;
    r
}

/// Appends the eight little-endian bytes of `n` to `out`.
pub fn push_le_bytes(out: &mut Vec<u8>, n: u64)
    ensures
        final(out)@ == old(out)@ + spec_u64_to_le_bytes(n),
{
    let bytes = u64_to_le_bytes(n);
    let ghost before = out@;
    let mut k: usize = 0;
    while k < bytes.len()
        invariant
            k <= bytes.len(),
            bytes@ == spec_u64_to_le_bytes(n),
            out@ == before + bytes@.take(k as int),
        decreases bytes.len() - k,
    {
        out.push(bytes[k]);
        proof {
            assert(out@ =~= before + bytes@.take(k + 1));
        }
        k += 1;
    }
    proof {
        assert(bytes@.take(bytes@.len() as int) =~= bytes@);
    }
}

} // verus!
