//! The CRC-32 used for peek/poke integrity and the provisioning blocks:
//! the Ethernet polynomial, all-ones initial value, complemented result
//! — but without the Ethernet bit reversal within each byte.
//!
//! A block followed by its big-endian stored checksum computes to a
//! fixed residue, the verification magic.

use vstd::prelude::*;

verus! {

/// The CRC-32 polynomial.
pub const POLY32: u32 = 0x04c11db7;

/// The residue of a block with its checksum appended.
pub const VERIFY_MAGIC: u32 = 0x38fb2284;

/// One doubling step: multiply the running value by x, reducing by the
/// polynomial.
pub open spec fn e1(v: u32) -> u32 {
    ((v << 1) ^ (if v & 0x80000000 != 0 {
        POLY32
    } else {
        0
    })) as u32
}

pub open spec fn e2(v: u32) -> u32 {
    e1(e1(v))
}

pub open spec fn e4(v: u32) -> u32 {
    e2(e2(v))
}

/// Eight doubling steps.
pub open spec fn e8(v: u32) -> u32 {
    e4(e4(v))
}

/// One byte entering the computation: XORed into the top byte of the
/// state, then eight doubling steps.
pub open spec fn crc32_step(s: u32, b: u8) -> u32 {
    e8((s ^ (((b as u32)) << 24)) as u32)
}

/// The running CRC-32 state over a byte sequence.
pub open spec fn crc32_fold(iv: u32, bytes: Seq<u8>) -> u32
    decreases bytes.len(),
{
    if bytes.len() == 0 {
        iv
    } else {
        crc32_fold(crc32_step(iv, bytes[0]), bytes.drop_first())
    }
}

/// The CRC-32 of a byte sequence: all-ones start, complemented result.
pub open spec fn crc32_spec(bytes: Seq<u8>) -> u32 {
    !crc32_fold(0xffffffff, bytes)
}

/// Appending a byte extends the fold.
pub proof fn lemma_crc32_fold_snoc(iv: u32, bytes: Seq<u8>, b: u8)
    ensures
        crc32_fold(iv, bytes.push(b)) == crc32_step(crc32_fold(iv, bytes), b),
    decreases bytes.len(),
{
    assert(bytes.push(b)[0] == if bytes.len() == 0 {
        b
    } else {
        bytes[0]
    });
    if bytes.len() == 0 {
        assert(bytes.push(b).drop_first() =~= Seq::<u8>::empty());
        assert(crc32_fold(crc32_step(iv, b), Seq::<u8>::empty()) == crc32_step(iv, b));
    } else {
        assert(bytes.push(b).drop_first() =~= bytes.drop_first().push(b));
        lemma_crc32_fold_snoc(crc32_step(iv, bytes[0]), bytes.drop_first(), b);
    }
}

/// The doubling step distributes over XOR.
proof fn lemma_e1_lin(x: u32, y: u32)
    ensures
        e1((x ^ y) as u32) == (e1(x) ^ e1(y)) as u32,
{
    assert(e1((x ^ y) as u32) == (e1(x) ^ e1(y)) as u32) by (bit_vector);
}

proof fn lemma_e8_lin(x: u32, y: u32)
    ensures
        e8((x ^ y) as u32) == (e8(x) ^ e8(y)) as u32,
{
    lemma_e1_lin(x, y);
    lemma_e1_lin(e1(x), e1(y));
    lemma_e1_lin(e2(x), e2(y));
    lemma_e1_lin(e1(e2(x)), e1(e2(y)));
    lemma_e1_lin(e4(x), e4(y));
    lemma_e1_lin(e1(e4(x)), e1(e4(y)));
    lemma_e1_lin(e2(e4(x)), e2(e4(y)));
    lemma_e1_lin(e1(e2(e4(x))), e1(e2(e4(y))));
}

/// A value with its top byte clear doubles eight times as a plain
/// shift.
proof fn lemma_e8_low(x: u32)
    requires
        x < 0x1000000,
    ensures
        e8(x) == (x << 8) as u32,
{
    assert(x < 0x1000000 ==> e8(x) == (x << 8) as u32) by (bit_vector);
}

/// What one table entry stands for: a byte value entering from the top.
pub open spec fn t32(j: u8) -> u32 {
    e8(((j as u32) << 24) as u32)
}

/// One byte step, as the table-driven loop computes it: look up the
/// state's top byte XOR the data byte, and shift the rest up.
proof fn lemma_crc32_table_step(s: u32, b: u8)
    ensures
        crc32_step(s, b) == (t32(((s >> 24) as u8) ^ b) ^ ((s << 8) as u32)) as u32,
{
    let x = (s >> 24) as u8;
    let lo = (s & 0xffffff) as u32;
    assert(lo < 0x1000000 && ((s ^ (((b as u32)) << 24)) as u32) == (((((x ^ b) as u32)
        << 24) as u32) ^ lo) as u32 && ((lo << 8) as u32) == ((s << 8) as u32)) by (bit_vector)
        requires
            x == (s >> 24) as u8,
            lo == (s & 0xffffff) as u32,
    ;
    lemma_e8_lin(((((x ^ b) as u32)) << 24) as u32, lo);
    lemma_e8_low(lo);
}

/// The doubling step commutes with blocks of doubling steps.
proof fn lemma_e1_commutes(x: u32)
    ensures
        e8(e1(x)) == e1(e8(x)),
{
    assert(e2(e1(x)) == e1(e2(x)));
    assert(e4(e1(x)) == e2(e2(e1(x))));
    assert(e2(e2(e1(x))) == e2(e1(e2(x))));
    assert(e2(e1(e2(x))) == e1(e2(e2(x))));
    assert(e8(e1(x)) == e4(e4(e1(x))));
    assert(e4(e4(e1(x))) == e4(e1(e4(x))));
    assert(e4(e1(e4(x))) == e1(e4(e4(x))));
}

/// The CRC-32 table, built by the doubling recurrence.
pub fn crc32_table() -> (table: Vec<u32>)
    ensures
        table@.len() == 256,
        forall|b: int| 0 <= b < 256 ==> table@[b] == t32(b as u8),
{
    let mut table: Vec<u32> = Vec::new();
    table.push(0);
    proof {
        assert(e8(((0u32) << 24) as u32) == 0) by (bit_vector);
    }
    let mut i: usize = 1;
    while i < 256
        invariant
            1 <= i <= 256,
            table@.len() == i,
            forall|b: int| 0 <= b < i ==> table@[b] == t32(b as u8),
        decreases 256 - i,
    {
        let prev = table[i / 2];
        let dbl = (prev << 1) ^ (if prev & 0x80000000 != 0 {
            POLY32
        } else {
            0
        });
        let entry = if i % 2 == 0 {
            dbl
        } else {
            dbl ^ POLY32
        };
        proof {
            let ih = (i / 2) as u8;
            let iw = i as u8;
            assert(prev == t32(ih));
            assert(dbl == e1(prev) && (ih < 128 ==> e1(((ih as u32) << 24) as u32) == (((2
                * ih) as u8 as u32) << 24) as u32) && (ih < 128 ==> ((((2 * ih) as u8 as u32)
                << 24) as u32 ^ 0x01000000u32) as u32 == (((2 * ih + 1) as u8 as u32)
                << 24) as u32)) by (bit_vector)
                requires
                    dbl == ((prev << 1) ^ (if prev & 0x80000000 != 0 {
                        POLY32
                    } else {
                        0u32
                    })) as u32,
            ;
            lemma_e1_commutes(((ih as u32) << 24) as u32);
            if i % 2 == 1 {
                lemma_e8_lin((((2 * ih) as u8 as u32) << 24) as u32, 0x01000000);
                assert(e8(0x01000000u32) == POLY32) by (bit_vector);
            }
        }
        table.push(entry);
        i = i + 1;
    }
    table
}

/// The CRC-32 of a byte slice.
pub fn compute(bytes: &[u8]) -> (r: u32)
    ensures
        r == crc32_spec(bytes@),
{
    let table = crc32_table();
    let mut v: u32 = 0xffffffff;
    proof {
        assert(bytes@.take(0) =~= Seq::<u8>::empty());
    }
    let mut i: usize = 0;
    while i < bytes.len()
        invariant
            i <= bytes@.len(),
            table@.len() == 256,
            forall|b: int| 0 <= b < 256 ==> table@[b] == t32(b as u8),
            v == crc32_fold(0xffffffff, bytes@.take(i as int)),
        decreases bytes@.len() - i,
    {
        let b = bytes[i];
        let idx = ((v >> 24) as u8) ^ b;
        let t = table[idx as usize];
        proof {
            lemma_crc32_table_step(v, b);
            lemma_crc32_fold_snoc(0xffffffff, bytes@.take(i as int), b);
            assert(bytes@.take(i + 1) =~= bytes@.take(i as int).push(b));
        }
        v = t ^ (v << 8);
        i = i + 1;
    }
    proof {
        assert(bytes@.take(bytes@.len() as int) =~= bytes@);
    }
    !v
}

} // verus!
