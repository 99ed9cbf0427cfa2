//! Model of the USB peripheral's register file and packet memory.
//!
//! The engine is verified against this model: every register access the
//! interrupt handlers perform goes through the methods here, which carry
//! the hardware's write semantics (write-to-toggle status fields,
//! write-zero-to-clear event flags, 32-bit-only packet-memory stores).
//! The autonomous side of the hardware — packets arriving, transmissions
//! completing — is modelled in [`crate::bus`].

use vstd::prelude::*;

use crate::pma::PMA_SIZE;
use crate::regs::{ChepReg, ChepWrite, chep_write_spec};

verus! {

/// Number of endpoint registers.
pub const NUM_CHEP: usize = 8;

/// Number of buffer-descriptor words (one TX and one RX per endpoint).
pub const NUM_BD: usize = 16;

/// The peripheral's software-visible state: latched global event flags,
/// the device address register, the endpoint registers, the
/// buffer-descriptor table and the packet memory.
pub struct UsbHw {
    /// Latched start-of-frame event flag.
    pub sof: bool,
    /// Latched bus-reset event flag.
    pub rst: bool,
    /// Device address register (7 bits).
    pub daddr: u8,
    /// Enable-function bit of the address register.
    pub ef: bool,
    /// One control/status register per endpoint.
    pub chep: Vec<ChepReg>,
    /// Buffer descriptors: word `2*i` is endpoint `i`'s TX descriptor,
    /// word `2*i + 1` its RX descriptor.
    pub bd: Vec<u32>,
    /// The packet memory.
    pub pma: Vec<u8>,
}

impl UsbHw {
    pub open spec fn wf(self) -> bool {
        &&& self.chep@.len() == NUM_CHEP
        &&& self.bd@.len() == NUM_BD
        &&& self.pma@.len() == PMA_SIZE
        &&& forall|i: int| 0 <= i < NUM_CHEP ==> (#[trigger] self.chep@[i]).wf()
        &&& self.daddr < 128
    }

    /// Does endpoint `i` have an unacknowledged transfer event?
    pub open spec fn pending_at(self, i: int) -> bool {
        self.chep@[i].vtrx || self.chep@[i].vttx
    }

    /// Number of set event flags among endpoints `0 .. n`; the ISR loop's
    /// termination measure.
    pub open spec fn vt_count_upto(self, n: int) -> int
        decreases n,
    {
        if n <= 0 {
            0
        } else {
            self.vt_count_upto(n - 1) + (if self.chep@[n - 1].vtrx {
                1int
            } else {
                0int
            }) + (if self.chep@[n - 1].vttx {
                1int
            } else {
                0int
            })
        }
    }

    /// All state after power-on or bus reset: everything cleared.
    pub fn power_on() -> (hw: UsbHw)
        ensures
            hw.wf(),
            hw.sof == false && hw.rst == false,
            hw.daddr == 0 && hw.ef == false,
            forall|i: int| 0 <= i < NUM_CHEP ==> hw.chep@[i] == ChepReg::reset_spec(),
            forall|i: int| 0 <= i < NUM_BD ==> hw.bd@[i] == 0u32,
            forall|i: int| 0 <= i < PMA_SIZE ==> hw.pma@[i] == 0u8,
    {
        let mut chep: Vec<ChepReg> = Vec::new();
        let mut i: usize = 0;
        while i < NUM_CHEP
            invariant
                i <= NUM_CHEP,
                chep@.len() == i,
                forall|j: int| 0 <= j < i ==> chep@[j] == ChepReg::reset_spec(),
            decreases NUM_CHEP - i,
        {
            chep.push(ChepReg::reset());
            i = i + 1;
        }
        let mut bd: Vec<u32> = Vec::new();
        let mut i: usize = 0;
        while i < NUM_BD
            invariant
                i <= NUM_BD,
                bd@.len() == i,
                forall|j: int| 0 <= j < i ==> bd@[j] == 0u32,
            decreases NUM_BD - i,
        {
            bd.push(0);
            i = i + 1;
        }
        let mut pma: Vec<u8> = Vec::new();
        let mut i: usize = 0;
        while i < PMA_SIZE
            invariant
                i <= PMA_SIZE,
                pma@.len() == i,
                forall|j: int| 0 <= j < i ==> pma@[j] == 0u8,
            decreases PMA_SIZE - i,
        {
            pma.push(0);
            i = i + 1;
        }
        UsbHw { sof: false, rst: false, daddr: 0, ef: false, chep, bd, pma }
    }

    /// Read endpoint register `i`.
    pub fn chep_read(&self, i: usize) -> (r: ChepReg)
        requires
            self.wf(),
            i < NUM_CHEP,
        ensures
            r == self.chep@[i as int],
            r.wf(),
    {
        self.chep[i]
    }

    /// Write endpoint register `i`, with the hardware's toggle semantics.
    pub fn chep_write(&mut self, i: usize, w: ChepWrite)
        requires
            old(self).wf(),
            i < NUM_CHEP,
            w.wf(),
        ensures
            final(self).wf(),
            final(self).chep@ == old(self).chep@.update(
                i as int,
                chep_write_spec(old(self).chep@[i as int], w),
            ),
            final(self).sof == old(self).sof,
            final(self).rst == old(self).rst,
            final(self).daddr == old(self).daddr,
            final(self).ef == old(self).ef,
            final(self).bd == old(self).bd,
            final(self).pma == old(self).pma,
    {
        let cur = self.chep[i];
        let next = crate::regs::chep_write_apply(&cur, &w);
        self.chep[i] = next;
    }

    /// Read buffer-descriptor word `i`.
    pub fn bd_read(&self, i: usize) -> (r: u32)
        requires
            self.wf(),
            i < NUM_BD,
        ensures
            r == self.bd@[i as int],
    {
        self.bd[i]
    }

    /// Write buffer-descriptor word `i`.
    pub fn bd_write(&mut self, i: usize, v: u32)
        requires
            old(self).wf(),
            i < NUM_BD,
        ensures
            final(self).wf(),
            final(self).bd@ == old(self).bd@.update(i as int, v),
            final(self).sof == old(self).sof,
            final(self).rst == old(self).rst,
            final(self).daddr == old(self).daddr,
            final(self).ef == old(self).ef,
            final(self).chep == old(self).chep,
            final(self).pma == old(self).pma,
    {
        self.bd[i] = v;
    }

    /// Write the device address register.
    pub fn daddr_write(&mut self, addr: u8, ef: bool)
        requires
            old(self).wf(),
            addr < 128,
        ensures
            final(self).wf(),
            final(self).daddr == addr,
            final(self).ef == ef,
            final(self).sof == old(self).sof,
            final(self).rst == old(self).rst,
            final(self).chep == old(self).chep,
            final(self).bd == old(self).bd,
            final(self).pma == old(self).pma,
    {
        self.daddr = addr;
        self.ef = ef;
    }

    /// Copy `data` into the packet memory at `offset`, as the hardware
    /// bus requires: whole aligned 32-bit words, overrunning up to three
    /// bytes at the tail (the model fills the overrun with zeros) rather
    /// than attempting a narrower access.
    pub fn pma_write(&mut self, offset: usize, data: &[u8])
        requires
            old(self).wf(),
            offset % 4 == 0,
            offset + ((data@.len() + 3) / 4) * 4 <= PMA_SIZE,
        ensures
            final(self).wf(),
            final(self).pma@.len() == PMA_SIZE,
            forall|k: int|
                0 <= k < data@.len() ==> #[trigger] final(self).pma@[offset + k] == data@[k],
            forall|k: int|
                data@.len() <= k < ((data@.len() + 3) / 4) * 4
                    ==> #[trigger] final(self).pma@[offset + k] == 0u8,
            forall|k: int|
                0 <= k < PMA_SIZE && !(offset <= k < offset + ((data@.len() + 3) / 4) * 4)
                    ==> #[trigger] final(self).pma@[k] == old(self).pma@[k],
            final(self).sof == old(self).sof,
            final(self).rst == old(self).rst,
            final(self).daddr == old(self).daddr,
            final(self).ef == old(self).ef,
            final(self).chep == old(self).chep,
            final(self).bd == old(self).bd,
    {
        let len = data.len();
        let padded = ((len + 3) / 4) * 4;
        let mut k: usize = 0;
        while k < padded
            invariant
                self.wf(),
                len == data@.len(),
                padded == ((len + 3) / 4) * 4,
                offset % 4 == 0,
                offset + padded <= PMA_SIZE,
                k <= padded,
                self.pma@.len() == PMA_SIZE,
                forall|j: int|
                    0 <= j < k && j < len ==> #[trigger] self.pma@[offset + j] == data@[j],
                forall|j: int| len <= j < k ==> #[trigger] self.pma@[offset + j] == 0u8,
                forall|j: int|
                    0 <= j < PMA_SIZE && !(offset <= j < offset + k) ==> #[trigger] self.pma@[j]
                        == old(self).pma@[j],
                self.sof == old(self).sof,
                self.rst == old(self).rst,
                self.daddr == old(self).daddr,
                self.ef == old(self).ef,
                self.chep == old(self).chep,
                self.bd == old(self).bd,
            decreases padded - k,
        {
            let b: u8 = if k < len {
                data[k]
            } else {
                0
            };
            self.pma[offset + k] = b;
            k = k + 1;
        }
    }

    /// Store one aligned 32-bit word into the packet memory, little
    /// endian: the only store width the packet memory supports.
    pub fn pma_write_u32(&mut self, offset: usize, w: u32)
        requires
            old(self).wf(),
            offset % 4 == 0,
            offset + 4 <= PMA_SIZE,
        ensures
            final(self).wf(),
            final(self).pma@.len() == PMA_SIZE,
            final(self).pma@[offset as int] == (w & 0xff) as u8,
            final(self).pma@[offset + 1] == ((w >> 8) & 0xff) as u8,
            final(self).pma@[offset + 2] == ((w >> 16) & 0xff) as u8,
            final(self).pma@[offset + 3] == ((w >> 24) & 0xff) as u8,
            forall|k: int|
                0 <= k < PMA_SIZE && !(offset <= k < offset + 4)
                    ==> #[trigger] final(self).pma@[k] == old(self).pma@[k],
            final(self).sof == old(self).sof,
            final(self).rst == old(self).rst,
            final(self).daddr == old(self).daddr,
            final(self).ef == old(self).ef,
            final(self).chep == old(self).chep,
            final(self).bd == old(self).bd,
    {
        self.pma[offset] = (w & 0xff) as u8;
        self.pma[offset + 1] = ((w >> 8) & 0xff) as u8;
        self.pma[offset + 2] = ((w >> 16) & 0xff) as u8;
        self.pma[offset + 3] = ((w >> 24) & 0xff) as u8;
    }

    /// Store `data` into the packet memory byte for byte.  This is the
    /// peripheral's own store path (it fills buffers from the bus); the
    /// 32-bit constraint of [`UsbHw::pma_write`] binds the software side
    /// only.
    pub fn pma_set_bytes(&mut self, offset: usize, data: &[u8])
        requires
            old(self).wf(),
            offset + data@.len() <= PMA_SIZE,
        ensures
            final(self).wf(),
            final(self).pma@.len() == PMA_SIZE,
            forall|k: int|
                0 <= k < data@.len() ==> #[trigger] final(self).pma@[offset + k] == data@[k],
            forall|k: int|
                0 <= k < PMA_SIZE && !(offset <= k < offset + data@.len())
                    ==> #[trigger] final(self).pma@[k] == old(self).pma@[k],
            final(self).sof == old(self).sof,
            final(self).rst == old(self).rst,
            final(self).daddr == old(self).daddr,
            final(self).ef == old(self).ef,
            final(self).chep == old(self).chep,
            final(self).bd == old(self).bd,
    {
        let len = data.len();
        let mut k: usize = 0;
        while k < len
            invariant
                self.wf(),
                len == data@.len(),
                offset + len <= PMA_SIZE,
                k <= len,
                self.pma@.len() == PMA_SIZE,
                forall|j: int| 0 <= j < k ==> #[trigger] self.pma@[offset + j] == data@[j],
                forall|j: int|
                    0 <= j < PMA_SIZE && !(offset <= j < offset + k) ==> #[trigger] self.pma@[j]
                        == old(self).pma@[j],
                self.sof == old(self).sof,
                self.rst == old(self).rst,
                self.daddr == old(self).daddr,
                self.ef == old(self).ef,
                self.chep == old(self).chep,
                self.bd == old(self).bd,
            decreases len - k,
        {
            self.pma[offset + k] = data[k];
            k = k + 1;
        }
    }

    /// Read `len` bytes out of the packet memory at `offset`.
    pub fn pma_read(&self, offset: usize, len: usize) -> (r: Vec<u8>)
        requires
            self.wf(),
            offset + len <= PMA_SIZE,
        ensures
            r@ == self.pma@.subrange(offset as int, offset + len),
    {
        let mut r: Vec<u8> = Vec::new();
        let mut k: usize = 0;
        while k < len
            invariant
                self.wf(),
                offset + len <= PMA_SIZE,
                k <= len,
                r@ == self.pma@.subrange(offset as int, offset + k),
            decreases len - k,
        {
            r.push(self.pma[offset + k]);
            k = k + 1;
        }
        assert(r@ =~= self.pma@.subrange(offset as int, offset + len));
        r
    }

    /// The endpoint and direction of the next unacknowledged transfer
    /// event, as the status register reports it: the lowest endpoint with
    /// a pending event, receive events first.
    pub fn ctr_pending(&self) -> (r: Option<(usize, bool)>)
        requires
            self.wf(),
        ensures
            match r {
                Option::None => forall|i: int| 0 <= i < NUM_CHEP ==> !self.pending_at(i),
                Option::Some((ep, dir_out)) => {
                    &&& ep < NUM_CHEP
                    &&& self.pending_at(ep as int)
                    &&& dir_out == self.chep@[ep as int].vtrx
                    &&& forall|i: int| 0 <= i < ep ==> !self.pending_at(i)
                },
            },
    {
        let mut i: usize = 0;
        while i < NUM_CHEP
            invariant
                self.wf(),
                i <= NUM_CHEP,
                forall|j: int| 0 <= j < i ==> !self.pending_at(j),
            decreases NUM_CHEP - i,
        {
            let c = self.chep[i];
            if c.vtrx || c.vttx {
                return Some((i, c.vtrx));
            }
            i = i + 1;
        }
        None
    }

    /// If two register files agree on endpoints `0 .. n` except that one
    /// has fewer event flags set at endpoint `i`, the count over `0 .. n`
    /// is no larger — and strictly smaller when a flag was dropped.
    pub proof fn lemma_vt_count_le(self, other: UsbHw, n: int)
        requires
            0 <= n,
            forall|j: int|
                0 <= j < n ==> ((self.chep@[j].vtrx ==> other.chep@[j].vtrx) && (
                self.chep@[j].vttx ==> other.chep@[j].vttx)),
        ensures
            self.vt_count_upto(n) <= other.vt_count_upto(n),
        decreases n,
    {
        if n > 0 {
            self.lemma_vt_count_le(other, n - 1);
        }
    }

    /// The event count over `0 .. n` is non-negative.
    pub proof fn lemma_vt_count_nonneg(self, n: int)
        ensures
            self.vt_count_upto(n) >= 0,
        decreases n,
    {
        if n > 0 {
            self.lemma_vt_count_nonneg(n - 1);
        }
    }

    /// Dropping an event flag at endpoint `i < n` strictly lowers the
    /// count over `0 .. n`, when the files otherwise agree on `0 .. n`.
    pub proof fn lemma_vt_count_drop(self, other: UsbHw, i: int, n: int)
        requires
            0 <= i < n,
            forall|j: int|
                0 <= j < n && j != i ==> ((self.chep@[j].vtrx == other.chep@[j].vtrx) && (
                self.chep@[j].vttx == other.chep@[j].vttx)),
            (self.chep@[i].vtrx ==> other.chep@[i].vtrx),
            (self.chep@[i].vttx ==> other.chep@[i].vttx),
            (self.chep@[i].vtrx != other.chep@[i].vtrx) || (self.chep@[i].vttx
                != other.chep@[i].vttx),
        ensures
            self.vt_count_upto(n) < other.vt_count_upto(n),
        decreases n,
    {
        if i == n - 1 {
            self.lemma_vt_count_le(other, n - 1);
        } else {
            self.lemma_vt_count_drop(other, i, n - 1);
        }
    }
}

/// Initialize the serial receive descriptor: a 64-byte block at the
/// serial receive buffer.
pub fn bd_serial_rx_init(hw: &mut UsbHw)
    requires
        old(hw).wf(),
    ensures
        final(hw).wf(),
        final(hw).bd@ == old(hw).bd@.update(3int, final(hw).bd@[3]),
        crate::pma::bd_offset_spec(final(hw).bd@[3]) == crate::pma::BULK_RX_OFFSET,
        crate::pma::bd_count_spec(final(hw).bd@[3]) == 0,
        crate::pma::bd_rx_capacity_spec(final(hw).bd@[3]) == 64,
        final(hw).sof == old(hw).sof && final(hw).rst == old(hw).rst && final(hw).daddr == old(
            hw,
        ).daddr && final(hw).ef == old(hw).ef && final(hw).chep == old(hw).chep && final(hw).pma
            == old(hw).pma,
{
    let v = crate::pma::chep_block::<64>(crate::pma::BULK_RX_OFFSET);
    hw.bd_write(crate::pma::bd_serial_rx(), v);
}

/// Initialize the serial transmit descriptor: empty, at the serial
/// transmit buffer.
pub fn bd_serial_tx_init(hw: &mut UsbHw)
    requires
        old(hw).wf(),
    ensures
        final(hw).wf(),
        final(hw).bd@ == old(hw).bd@.update(2int, final(hw).bd@[2]),
        crate::pma::bd_offset_spec(final(hw).bd@[2]) == crate::pma::BULK_TX_OFFSET,
        crate::pma::bd_count_spec(final(hw).bd@[2]) == 0,
        final(hw).sof == old(hw).sof && final(hw).rst == old(hw).rst && final(hw).daddr == old(
            hw,
        ).daddr && final(hw).ef == old(hw).ef && final(hw).chep == old(hw).chep && final(hw).pma
            == old(hw).pma,
{
    let v = crate::pma::chep_bd_tx(crate::pma::BULK_TX_OFFSET, 0);
    hw.bd_write(crate::pma::bd_serial_tx(), v);
}

} // verus!
