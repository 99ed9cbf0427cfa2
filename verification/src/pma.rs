//! Packet-memory model: buffer-descriptor encoding and the layout of the
//! peripheral's dual-port packet memory.
//!
//! Every endpoint direction has one 32-bit buffer descriptor holding a
//! 16-bit byte offset into the packet memory and a 10-bit byte count; for
//! receive descriptors the top bits encode the block capacity under the
//! hardware's two size-granularity rules (multiples of 2 up to 62, or
//! multiples of 32 up to 1024, selected by a size-class bit).

use vstd::prelude::*;

verus! {

/// Total size of the packet memory, in bytes.
pub const PMA_SIZE: usize = 2048;

/// Offset of the control endpoint's transmit buffer.
pub const CTRL_TX_OFFSET: usize = 0x80;
/// Offset of the control endpoint's receive buffer.
pub const CTRL_RX_OFFSET: usize = 0xc0;
/// Offset of the notification endpoint's transmit buffer.
pub const INTR_TX_OFFSET: usize = 0x40;
/// Offset of the two serial receive buffers (64 bytes each).
pub const BULK_RX_OFFSET: usize = 0x100;
/// Offset of the two serial transmit buffers (64 bytes each).
pub const BULK_TX_OFFSET: usize = 0x180;
/// Offset of the command channel's receive buffer.
pub const MAIN_RX_OFFSET: usize = 0x200;
/// Offset of the command channel's transmit buffer.
pub const MAIN_TX_OFFSET: usize = 0x240;

/// The byte offset held in a buffer descriptor.
pub open spec fn bd_offset_spec(bd: u32) -> u32 {
    bd & 0xffff
}

/// The byte count held in a buffer descriptor.
pub open spec fn bd_count_spec(bd: u32) -> u32 {
    (bd >> 16) & 0x3ff
}

/// The receive capacity a descriptor grants the hardware: block count
/// times granularity, per the size-class bit.
pub open spec fn bd_rx_capacity_spec(bd: u32) -> int {
    if (bd >> 31) & 1 == 1 {
        (((bd >> 26) & 0x1f) + 1) * 32
    } else {
        ((bd >> 26) & 0x1f) * 2
    }
}

/// Return a buffer descriptor value for an RX block of `BLK_SIZE` bytes
/// at `offset`.
pub fn chep_block<const BLK_SIZE: usize>(offset: usize) -> (r: u32)
    requires
        offset + BLK_SIZE <= PMA_SIZE,
        (BLK_SIZE % 32 == 0 && BLK_SIZE > 0 && BLK_SIZE <= 1024)
            || (BLK_SIZE % 2 == 0 && BLK_SIZE < 64),
    ensures
        bd_offset_spec(r) == offset,
        bd_count_spec(r) == 0,
        bd_rx_capacity_spec(r) == BLK_SIZE,
{
    let blk: u32 = BLK_SIZE as u32;
    let off: u32 = offset as u32;
    let block: u32 = if BLK_SIZE % 32 == 0 && BLK_SIZE > 0 {
        (blk / 32 + 31) << 26
    } else {
        (blk / 2) << 26
    };
    proof {
        assert(blk % 32 == 0 && blk > 0 && blk <= 1024 && off < 0x10000 ==> {
            let v = (((blk / 32 + 31) as u32) << 26) as u32;
            let r = (v + off) as u32;
            &&& v + off <= 0xffffffff
            &&& (r & 0xffff) == off
            &&& ((r >> 16) & 0x3ff) == 0
            &&& (r >> 31) & 1 == 1
            &&& (((r >> 26) & 0x1f) + 1) * 32 == blk
        }) by (bit_vector);
        assert(blk % 2 == 0 && blk < 64 && off < 0x10000 ==> {
            let v = (((blk / 2) as u32) << 26) as u32;
            let r = (v + off) as u32;
            &&& v + off <= 0xffffffff
            &&& (r & 0xffff) == off
            &&& ((r >> 16) & 0x3ff) == 0
            &&& (r >> 31) & 1 == 0
            &&& ((r >> 26) & 0x1f) * 2 == blk
        }) by (bit_vector);
    }
    block + off
}

/// Create a buffer descriptor value for TX: `len` bytes at `offset`.
pub fn chep_bd_tx(offset: usize, len: usize) -> (r: u32)
    requires
        offset < 0x10000,
        len <= 0x3ff,
    ensures
        bd_offset_spec(r) == offset,
        bd_count_spec(r) == len,
{
    let off: u32 = offset as u32;
    let l: u32 = len as u32;
    proof {
        assert(off < 0x10000 && l <= 0x3ff ==> {
            let r = (off + l * 65536) as u32;
            &&& (r & 0xffff) == off
            &&& ((r >> 16) & 0x3ff) == l
        }) by (bit_vector);
    }
    off + l * 65536
}

/// Return the byte count from a buffer descriptor value.
pub fn chep_bd_len(bd: u32) -> (r: u32)
    ensures
        r == bd_count_spec(bd),
        r <= 0x3ff,
{
    proof {
        assert((bd >> 16) & 0x3ff <= 0x3ff) by (bit_vector);
    }
    bd >> 16 & 0x3ff
}

/// Return the packet-memory offset of the buffer for a descriptor.
pub fn chep_bd_ptr(bd: u32) -> (r: usize)
    ensures
        r == bd_offset_spec(bd),
        r < 0x10000,
{
    proof {
        assert(bd & 0xffff < 0x10000) by (bit_vector);
    }
    (bd & 0xffff) as usize
}

/// Return the packet-memory offset just past the bytes a (TX) descriptor
/// covers: the next write location.
pub fn chep_bd_tail(bd: u32) -> (r: usize)
    ensures
        r == bd_offset_spec(bd) + bd_count_spec(bd),
{
    let off = chep_bd_ptr(bd);
    let len = chep_bd_len(bd);
    off + len as usize
}

/// Replace the byte count of a descriptor, keeping offset and block bits.
pub fn chep_bd_with_len(bd: u32, len: u32) -> (r: u32)
    requires
        len <= 0x3ff,
    ensures
        bd_offset_spec(r) == bd_offset_spec(bd),
        bd_count_spec(r) == len,
        bd_rx_capacity_spec(r) == bd_rx_capacity_spec(bd),
{
    proof {
        assert(len <= 0x3ff ==> {
            let r = ((bd & !0x03ff0000u32) | (len << 16)) as u32;
            &&& (r & 0xffff) == (bd & 0xffff)
            &&& ((r >> 16) & 0x3ff) == len
            &&& (r >> 31) & 1 == (bd >> 31) & 1
            &&& ((r >> 26) & 0x1f) == ((bd >> 26) & 0x1f)
        }) by (bit_vector);
    }
    (bd & !0x03ff0000u32) | (len << 16)
}

/// Word index of the control endpoint's TX descriptor.
pub fn bd_control_tx() -> (r: usize)
    ensures
        r == 0,
{
    0
}

/// Word index of the control endpoint's RX descriptor.
pub fn bd_control_rx() -> (r: usize)
    ensures
        r == 1,
{
    1
}

/// Word index of the serial endpoint's TX descriptor.
pub fn bd_serial_tx() -> (r: usize)
    ensures
        r == 2,
{
    2
}

/// Word index of the serial endpoint's RX descriptor.
pub fn bd_serial_rx() -> (r: usize)
    ensures
        r == 3,
{
    3
}

/// Word index of the notification endpoint's TX descriptor.
pub fn bd_interrupt() -> (r: usize)
    ensures
        r == 4,
{
    4
}

/// Word index of the command endpoint's TX descriptor.
pub fn bd_main_tx() -> (r: usize)
    ensures
        r == 6,
{
    6
}

/// Word index of the command endpoint's RX descriptor.
pub fn bd_main_rx() -> (r: usize)
    ensures
        r == 7,
{
    7
}

} // verus!
