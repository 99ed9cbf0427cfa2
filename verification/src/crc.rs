//! The CRC-16 of the command protocol: polynomial 0x1021, initial value
//! zero, no inversion, earlier bytes at higher polynomial exponents.
//!
//! The bit-serial definition shifts each data bit into the low end of
//! the running value; a frame's checksum is the value left after the
//! frame's bytes followed by two zero bytes, so a frame with its
//! checksum in place sums to zero.  The table-driven computation keeps
//! its running value sixteen doubling steps ahead of the bit-serial one,
//! folding the two implicit zero bytes in as it goes, and is proved
//! equal to the bit-serial definition through the linearity of the
//! doubling step.

use vstd::prelude::*;

verus! {

/// The CRC-16 polynomial (low 16 bits of x^16 + x^12 + x^5 + 1).
pub const POLY16: u16 = 0x1021;

/// One doubling step: multiply the running value by x, reducing by the
/// polynomial.
pub open spec fn d1(v: u16) -> u16 {
    ((v << 1) ^ (if v & 0x8000 != 0 {
        POLY16
    } else {
        0
    })) as u16
}

pub open spec fn d2(v: u16) -> u16 {
    d1(d1(v))
}

pub open spec fn d4(v: u16) -> u16 {
    d2(d2(v))
}

pub open spec fn d8(v: u16) -> u16 {
    d4(d4(v))
}

/// Sixteen doubling steps: multiplication by x^16 modulo the polynomial.
pub open spec fn d16(v: u16) -> u16 {
    d8(d8(v))
}

/// One bit-serial step: a doubling step, then the data bit entering at
/// the low end.
pub open spec fn bit_step(v: u16, bit: u16) -> u16 {
    (d1(v) ^ bit) as u16
}

/// One byte entering the bit-serial computation, most significant bit
/// first.
pub open spec fn byte_step(v: u16, b: u8) -> u16 {
    bit_step(
        bit_step(
            bit_step(
                bit_step(
                    bit_step(
                        bit_step(
                            bit_step(bit_step(v, ((b >> 7) & 1) as u16), ((b >> 6) & 1) as u16),
                            ((b >> 5) & 1) as u16,
                        ),
                        ((b >> 4) & 1) as u16,
                    ),
                    ((b >> 3) & 1) as u16,
                ),
                ((b >> 2) & 1) as u16,
            ),
            ((b >> 1) & 1) as u16,
        ),
        (b & 1) as u16,
    )
}

/// The bit-serial CRC of a byte sequence.
pub open spec fn crc16_cat(iv: u16, bytes: Seq<u8>) -> u16
    decreases bytes.len(),
{
    if bytes.len() == 0 {
        iv
    } else {
        crc16_cat(byte_step(iv, bytes[0]), bytes.drop_first())
    }
}

/// The checksum of a frame: its bytes followed by the two implicit zero
/// bytes.
pub open spec fn crc16_spec(iv: u16, bytes: Seq<u8>) -> u16 {
    d16(crc16_cat(iv, bytes))
}

/// Appending a byte extends the bit-serial computation.
pub proof fn lemma_crc16_cat_snoc(iv: u16, bytes: Seq<u8>, b: u8)
    ensures
        crc16_cat(iv, bytes.push(b)) == byte_step(crc16_cat(iv, bytes), b),
    decreases bytes.len(),
{
    assert(bytes.push(b)[0] == if bytes.len() == 0 {
        b
    } else {
        bytes[0]
    });
    if bytes.len() == 0 {
        assert(bytes.push(b).drop_first() =~= Seq::<u8>::empty());
        assert(crc16_cat(byte_step(iv, b), Seq::<u8>::empty()) == byte_step(iv, b));
    } else {
        assert(bytes.push(b).drop_first() =~= bytes.drop_first().push(b));
        lemma_crc16_cat_snoc(byte_step(iv, bytes[0]), bytes.drop_first(), b);
    }
}

/// The doubling step distributes over XOR: reduction by the polynomial
/// happens exactly when the two top bits differ.
proof fn lemma_d1_lin(x: u16, y: u16)
    ensures
        d1((x ^ y) as u16) == (d1(x) ^ d1(y)) as u16,
{
    assert(d1((x ^ y) as u16) == (d1(x) ^ d1(y)) as u16) by (bit_vector);
}

proof fn lemma_d8_lin(x: u16, y: u16)
    ensures
        d8((x ^ y) as u16) == (d8(x) ^ d8(y)) as u16,
{
    lemma_d1_lin(x, y);
    lemma_d1_lin(d1(x), d1(y));
    lemma_d1_lin(d2(x), d2(y));
    lemma_d1_lin(d1(d2(x)), d1(d2(y)));
    lemma_d1_lin(d4(x), d4(y));
    lemma_d1_lin(d1(d4(x)), d1(d4(y)));
    lemma_d1_lin(d2(d4(x)), d2(d4(y)));
    lemma_d1_lin(d1(d2(d4(x))), d1(d2(d4(y))));
}

proof fn lemma_d16_lin(x: u16, y: u16)
    ensures
        d16((x ^ y) as u16) == (d16(x) ^ d16(y)) as u16,
{
    lemma_d8_lin(x, y);
    lemma_d8_lin(d8(x), d8(y));
}

/// A bit step from a perturbed state: the perturbation doubles
/// alongside.
proof fn lemma_bit_split(x: u16, y: u16, c: u16)
    ensures
        bit_step((x ^ y) as u16, c) == (d1(x) ^ bit_step(y, c)) as u16,
{
    assert(bit_step((x ^ y) as u16, c) == (d1(x) ^ bit_step(y, c)) as u16) by (bit_vector);
}

/// A whole byte from a perturbed state: the perturbation takes eight
/// doubling steps while the byte enters.
proof fn lemma_byte_split(x: u16, y: u16, b: u8)
    ensures
        byte_step((x ^ y) as u16, b) == (d8(x) ^ byte_step(y, b)) as u16,
{
    let c7 = ((b >> 7) & 1) as u16;
    let c6 = ((b >> 6) & 1) as u16;
    let c5 = ((b >> 5) & 1) as u16;
    let c4 = ((b >> 4) & 1) as u16;
    let c3 = ((b >> 3) & 1) as u16;
    let c2 = ((b >> 2) & 1) as u16;
    let c1 = ((b >> 1) & 1) as u16;
    let c0 = (b & 1) as u16;
    lemma_bit_split(x, y, c7);
    let y1 = bit_step(y, c7);
    lemma_bit_split(d1(x), y1, c6);
    let y2 = bit_step(y1, c6);
    lemma_bit_split(d2(x), y2, c5);
    let y3 = bit_step(y2, c5);
    lemma_bit_split(d1(d2(x)), y3, c4);
    let y4 = bit_step(y3, c4);
    lemma_bit_split(d4(x), y4, c3);
    let y5 = bit_step(y4, c3);
    lemma_bit_split(d1(d4(x)), y5, c2);
    let y6 = bit_step(y5, c2);
    lemma_bit_split(d2(d4(x)), y6, c1);
    let y7 = bit_step(y6, c1);
    lemma_bit_split(d1(d2(d4(x))), y7, c0);
}

/// A byte entering the zero state just lands in the low bits.
proof fn lemma_byte_into_zero(b: u8)
    ensures
        byte_step(0, b) == b as u16,
{
    assert(byte_step(0, b) == b as u16) by (bit_vector);
}

/// A byte entering any state: eight doubling steps, then the byte XORed
/// into the low bits.
proof fn lemma_byte_step_form(v: u16, b: u8)
    ensures
        byte_step(v, b) == (d8(v) ^ (b as u16)) as u16,
{
    assert((v ^ 0) as u16 == v) by (bit_vector);
    lemma_byte_split(v, 0, b);
    lemma_byte_into_zero(b);
}

/// A value below 256 doubles eight times without reduction: a plain
/// shift.
proof fn lemma_d8_low(x: u16)
    requires
        x < 0x100,
    ensures
        d8(x) == (x << 8) as u16,
{
    assert(x < 0x100 ==> d8(x) == (x << 8) as u16) by (bit_vector);
}

/// Eight doubling steps, read off the halves: the high byte goes
/// through sixteen steps from its low position while the low byte
/// shifts up.
proof fn lemma_d8_halves(w: u16)
    ensures
        d8(w) == (d16((w >> 8) as u16) ^ ((w << 8) as u16)) as u16,
{
    let x = (w >> 8) as u16;
    let lo = (w & 0xff) as u16;
    assert(x < 0x100 && lo < 0x100 && w == (((x << 8) as u16) ^ lo) as u16 && ((lo << 8) as u16)
        == ((w << 8) as u16)) by (bit_vector)
        requires
            x == (w >> 8) as u16,
            lo == (w & 0xff) as u16,
    ;
    lemma_d8_lin((x << 8) as u16, lo);
    lemma_d8_low(x);
    lemma_d8_low(lo);
    assert(d8((x << 8) as u16) == d8(d8(x)));
    assert(d8(d8(x)) == d16(x));
}

/// One table-driven step: with the running value sixteen doubling steps
/// ahead of the bit-serial state `u`, the table lookup and shift land
/// sixteen steps ahead of the next bit-serial state.
proof fn lemma_xor_swap(a: u16, b: u16, c: u16)
    ensures
        ((a ^ b) ^ c) as u16 == ((a ^ c) ^ b) as u16,
{
    assert(((a ^ b) ^ c) as u16 == ((a ^ c) ^ b) as u16) by (bit_vector);
}

/// The doubling step commutes with blocks of doubling steps: they are
/// all the same step composed.
proof fn lemma_d1_commutes(x: u16)
    ensures
        d8(d1(x)) == d1(d8(x)),
        d16(d1(x)) == d1(d16(x)),
{
    assert(d2(d1(x)) == d1(d2(x)));
    assert(d4(d1(x)) == d2(d2(d1(x))));
    assert(d2(d2(d1(x))) == d2(d1(d2(x))));
    assert(d2(d1(d2(x))) == d1(d2(d2(x))));
    assert(d8(d1(x)) == d4(d4(d1(x))));
    assert(d4(d4(d1(x))) == d4(d1(d4(x))));
    assert(d4(d1(d4(x))) == d1(d4(d4(x))));
    assert(d16(d1(x)) == d8(d8(d1(x))));
    assert(d8(d8(d1(x))) == d8(d1(d8(x))));
    assert(d8(d1(d8(x))) == d1(d8(d8(x))));
}

proof fn lemma_table_step(u: u16, b: u8)
    ensures
        (d16((((d16(u) >> 8) as u8) ^ b) as u16) ^ ((d16(u) << 8) as u16)) as u16 == d16(
            byte_step(u, b),
        ),
{
    let w = d16(u);
    let hi = ((w >> 8) as u8) ^ b;
    assert((hi as u16) == (((w >> 8) as u16) ^ (b as u16)) as u16) by (bit_vector)
        requires
            hi == ((w >> 8) as u8) ^ b,
    ;
    lemma_d16_lin((w >> 8) as u16, b as u16);
    lemma_d8_halves(w);
    lemma_byte_step_form(u, b);
    lemma_d16_lin(d8(u), b as u16);
    assert(d8(d16(u)) == d16(d8(u)));
    lemma_xor_swap(d16((w >> 8) as u16), d16(b as u16), (w << 8) as u16);
}

/// The CRC table: entry `b` is sixteen doubling steps of `b`, built by
/// the doubling recurrence.
pub fn crc_table() -> (table: Vec<u16>)
    ensures
        table@.len() == 256,
        forall|b: int| 0 <= b < 256 ==> table@[b] == d16(b as u16),
{
    let mut table: Vec<u16> = Vec::new();
    table.push(0);
    proof {
        assert(d16(0u16) == 0) by (bit_vector);
    }
    let mut i: usize = 1;
    while i < 256
        invariant
            1 <= i <= 256,
            table@.len() == i,
            forall|b: int| 0 <= b < i ==> table@[b] == d16(b as u16),
        decreases 256 - i,
    {
        let prev = table[i / 2];
        let dbl = (prev << 1) ^ (if prev & 0x8000 != 0 {
            POLY16
        } else {
            0
        });
        let entry = if i % 2 == 0 {
            dbl
        } else {
            dbl ^ POLY16
        };
        proof {
            let ih = (i / 2) as u16;
            let iw = i as u16;
            assert(prev == d16(ih));
            assert(dbl == d1(prev) && (ih < 128 ==> d1(ih) == (2 * ih) as u16) && (ih < 128
                ==> (((2 * ih) as u16) ^ 1) as u16 == (2 * ih + 1) as u16)) by (bit_vector)
                requires
                    dbl == ((prev << 1) ^ (if prev & 0x8000 != 0 {
                        POLY16
                    } else {
                        0u16
                    })) as u16,
            ;
            // Doubling the half-index commutes with the sixteen
            // doubling steps of the table entry.
            lemma_d1_commutes(ih);
            if i % 2 == 1 {
                lemma_d16_lin((2 * ih) as u16, 1);
                assert(d16(1u16) == POLY16) by (bit_vector);
            }
        }
        table.push(entry);
        i = i + 1;
    }
    table
}

/// The table-driven CRC of a byte slice, two implicit zero bytes
/// included.
pub fn sw_compute(iv: u16, bytes: &[u8]) -> (r: u16)
    requires
        iv == 0,
    ensures
        r == crc16_spec(iv, bytes@),
{
    let table = crc_table();
    let mut v: u16 = iv;
    proof {
        assert(bytes@.take(0) =~= Seq::<u8>::empty());
        assert(d16(0u16) == 0) by (bit_vector);
    }
    let mut i: usize = 0;
    while i < bytes.len()
        invariant
            i <= bytes@.len(),
            table@.len() == 256,
            forall|b: int| 0 <= b < 256 ==> table@[b] == d16(b as u16),
            v == d16(crc16_cat(0, bytes@.take(i as int))),
        decreases bytes@.len() - i,
    {
        let b = bytes[i];
        let idx = ((v >> 8) as u8) ^ b;
        let t = table[idx as usize];
        proof {
            let u = crc16_cat(0, bytes@.take(i as int));
            lemma_table_step(u, b);
            lemma_crc16_cat_snoc(0, bytes@.take(i as int), b);
            assert(bytes@.take(i + 1) =~= bytes@.take(i as int).push(b));
        }
        v = t ^ (v << 8);
        i = i + 1;
    }
    proof {
        assert(bytes@.take(bytes@.len() as int) =~= bytes@);
    }
    v
}

/// The command checksum of a byte slice.
pub fn compute(bytes: &[u8]) -> (r: u16)
    ensures
        r == crc16_spec(0, bytes@),
{
    sw_compute(0, bytes)
}

/// The first `k` bit-serial steps of a byte.
pub open spec fn partial_byte(v: u16, b: u8, k: int) -> u16
    decreases k,
{
    if k <= 0 {
        v
    } else {
        bit_step(partial_byte(v, b, k - 1), ((b >> ((8 - k) as u8)) & 1) as u16)
    }
}

/// The bit-serial computation itself, bit by bit.
pub fn by_bit(iv: u16, bytes: &[u8]) -> (r: u16)
    ensures
        r == crc16_cat(iv, bytes@),
{
    let mut v: u16 = iv;
    proof {
        assert(bytes@.take(0) =~= Seq::<u8>::empty());
    }
    let mut i: usize = 0;
    while i < bytes.len()
        invariant
            i <= bytes@.len(),
            v == crc16_cat(iv, bytes@.take(i as int)),
        decreases bytes@.len() - i,
    {
        let b = bytes[i];
        let ghost v0 = v;
        let mut k: usize = 0;
        while k < 8
            invariant
                k <= 8,
                v == partial_byte(v0, b, k as int),
            decreases 8 - k,
        {
            let shift = 7 - k;
            let bit = ((b as u16) >> (shift as u16)) & 1;
            proof {
                let bb = b;
                let kk = k as u16;
                assert(kk < 8 ==> ((bb as u16) >> ((7 - kk) as u16)) & 1 == (((bb >> ((7
                    - kk) as u8)) & 1) as u16)) by (bit_vector);
            }
            v = (v << 1) ^ (if v & 0x8000 != 0 {
                POLY16
            } else {
                0
            });
            v = v ^ bit;
            k = k + 1;
        }
        proof {
            lemma_crc16_cat_snoc(iv, bytes@.take(i as int), b);
            assert(bytes@.take(i + 1) =~= bytes@.take(i as int).push(b));
            reveal_with_fuel(partial_byte, 9);
            assert(((b >> 0u8) & 1) as u16 == (b & 1) as u16) by (bit_vector);
            assert(partial_byte(v0, b, 8) == byte_step(v0, b));
        }
        i = i + 1;
    }
    proof {
        assert(bytes@.take(bytes@.len() as int) =~= bytes@);
    }
    v
}

/// A frame checked over itself and its stored checksum sums to zero:
/// appending the big-endian checksum of `bytes` gives a sequence whose
/// bit-serial CRC is zero.
pub proof fn lemma_crc16_self_check(bytes: Seq<u8>)
    ensures
        crc16_cat(
            0,
            bytes.push((crc16_spec(0, bytes) >> 8) as u8).push(crc16_spec(0, bytes) as u8),
        ) == 0,
{
    let c = crc16_spec(0, bytes);
    let u = crc16_cat(0, bytes);
    lemma_crc16_cat_snoc(0, bytes, (c >> 8) as u8);
    lemma_crc16_cat_snoc(0, bytes.push((c >> 8) as u8), c as u8);
    lemma_byte_step_form(u, (c >> 8) as u8);
    lemma_byte_step_form(byte_step(u, (c >> 8) as u8), c as u8);
    let w = d16(u);
    let hi16 = (((w >> 8) as u8)) as u16;
    lemma_d8_lin(d8(u), hi16);
    lemma_d8_low(hi16);
    assert(hi16 < 0x100) by (bit_vector)
        requires
            hi16 == (((w >> 8) as u8)) as u16,
    ;
    assert(d8(d8(u)) == d16(u));
    // The two checksum bytes cancel the advanced state exactly.
    lemma_self_cancel(w);
}

/// A value, XORed with its own high byte shifted up and then its own
/// low byte, vanishes.
proof fn lemma_self_cancel(w: u16)
    ensures
        ((w ^ (((((w >> 8) as u8)) as u16) << 8) as u16) ^ (((w as u8)) as u16)) as u16 == 0,
{
    assert(((w ^ (((((w >> 8) as u8)) as u16) << 8) as u16) ^ (((w as u8)) as u16)) as u16
        == 0) by (bit_vector);
}

} // verus!
