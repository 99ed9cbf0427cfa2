//! The CDC ACM bulk data endpoint: double-buffered in software, with
//! transmit coalescing into 32-bit words and NAK-based receive
//! backpressure; and the fire-and-forget notification endpoint.

use vstd::prelude::*;

use crate::hw::{NUM_BD, NUM_CHEP, UsbHw};
use crate::pma::{
    BULK_RX_OFFSET, BULK_TX_OFFSET, INTR_TX_OFFSET, PMA_SIZE, bd_count_spec, bd_offset_spec,
    chep_bd_len, chep_bd_ptr, chep_bd_tx,
};
use crate::regs::{
    ChepReg, ChepWrite, STAT_DISABLED, STAT_NAK, STAT_VALID, UTYPE_BULK, UTYPE_INTERRUPT,
};
use crate::types::{LineCoding, SetupResult};

verus! {

broadcast use crate::regs::lemma_xor_zero;

/// Endpoint register index of the serial data endpoint.
pub const CHEP_SERIAL: usize = 1;

/// Endpoint register index of the notification endpoint.
pub const CHEP_INTR: usize = 2;

/// Status of processing received serial data.
#[derive(Clone, Copy, PartialEq, Eq, Structural)]
pub enum RxProcessing {
    /// Nothing is being processed.
    Idle,
    /// The consumer is forwarding one of our buffers.
    Processing,
    /// The consumer is busy with someone else's data and a received
    /// buffer waits; the endpoint is left NAKed.
    Blocked,
}

/// The bytes a partial transmit word holds: the top `r` bytes of the
/// accumulator, oldest lowest.
pub open spec fn part_bytes(p: u32, r: int) -> Seq<u8> {
    if r == 1 {
        seq![((p >> 24) & 0xff) as u8]
    } else if r == 2 {
        seq![((p >> 16) & 0xff) as u8, ((p >> 24) & 0xff) as u8]
    } else if r == 3 {
        seq![((p >> 8) & 0xff) as u8, ((p >> 16) & 0xff) as u8, ((p >> 24) & 0xff) as u8]
    } else {
        Seq::empty()
    }
}

/// The serial-bridge endpoint pair.
pub struct FreakUSBSerial {
    /// Which of the two transmit buffers is accumulating.
    pub tx_toggle: bool,
    /// Bytes accumulated so far, at most one packet.
    pub tx_len: usize,
    /// Bytes gathered toward the next 32-bit word store.
    pub tx_part: u32,
    /// Is software still processing a received buffer?
    pub rx_processing: RxProcessing,
    /// The baud rate last set by the host, echoed back on request; the
    /// real serial port keeps its own rate.
    pub fake_baud: u32,
}

impl FreakUSBSerial {
    pub open spec fn wf(self) -> bool {
        self.tx_len <= 64
    }

    /// Packet-memory offset of the buffer now accumulating.
    pub open spec fn tx_base_spec(self) -> int {
        BULK_TX_OFFSET + if self.tx_toggle {
            64int
        } else {
            0int
        }
    }

    /// The bytes accumulated so far: the whole words already stored, then
    /// the partial word.
    pub open spec fn tx_accum(self, hw: UsbHw) -> Seq<u8> {
        hw.pma@.subrange(self.tx_base_spec(), self.tx_base_spec() + 4 * ((self.tx_len as int) / 4))
            + part_bytes(self.tx_part, (self.tx_len as int) % 4)
    }

    /// The reset software state.
    pub open spec fn reset_spec() -> FreakUSBSerial {
        FreakUSBSerial {
            tx_toggle: false,
            tx_len: 0,
            tx_part: 0,
            rx_processing: RxProcessing::Idle,
            fake_baud: 9600,
        }
    }

    pub fn reset() -> (r: FreakUSBSerial)
        ensures
            r == FreakUSBSerial::reset_spec(),
            r.wf(),
    {
        FreakUSBSerial {
            tx_toggle: false,
            tx_len: 0,
            tx_part: 0,
            rx_processing: RxProcessing::Idle,
            fake_baud: 9600,
        }
    }

    fn tx_base(&self) -> (r: usize)
        ensures
            r == self.tx_base_spec(),
    {
        if self.tx_toggle {
            BULK_TX_OFFSET + 64
        } else {
            BULK_TX_OFFSET
        }
    }
}

/// The serial receive descriptor points at one of the two receive
/// buffers, with a whole-buffer block capacity and an in-range count.
pub open spec fn serial_rx_bd_ok(hw: UsbHw) -> bool {
    &&& (bd_offset_spec(hw.bd@[3]) == BULK_RX_OFFSET || bd_offset_spec(hw.bd@[3])
        == BULK_RX_OFFSET + 64)
    &&& bd_count_spec(hw.bd@[3]) <= 64
    &&& crate::pma::bd_rx_capacity_spec(hw.bd@[3]) == 64
}

/// Everything outside the serial endpoint's register, descriptors and
/// buffers is untouched.
pub open spec fn serial_frame(h0: UsbHw, h1: UsbHw) -> bool {
    &&& h1.sof == h0.sof
    &&& h1.rst == h0.rst
    &&& h1.daddr == h0.daddr
    &&& h1.ef == h0.ef
    &&& h1.chep@.len() == NUM_CHEP
    &&& h1.bd@.len() == NUM_BD
    &&& h1.pma@.len() == PMA_SIZE
    &&& forall|i: int| 0 <= i < NUM_CHEP && i != 1 ==> h1.chep@[i] == h0.chep@[i]
    &&& forall|i: int| 0 <= i < NUM_BD && i != 2 && i != 3 ==> h1.bd@[i] == h0.bd@[i]
    &&& forall|k: int|
        0 <= k < PMA_SIZE && !(BULK_RX_OFFSET <= k < BULK_TX_OFFSET + 128)
            ==> #[trigger] h1.pma@[k] == h0.pma@[k]
}

/// Pushing a byte into the accumulator extends the partial word's bytes.
proof fn lemma_part_push(p: u32, b: u8, r: u32)
    requires
        r < 3,
    ensures
        part_bytes(((p >> 8) + ((b as u32) << 24)) as u32, r + 1) == part_bytes(p, r as int).push(
            b,
        ),
{
    let q = ((p >> 8) + ((b as u32) << 24)) as u32;
    assert((q >> 24) & 0xff == b && (q >> 16) & 0xff == (p >> 24) & 0xff && (q >> 8) & 0xff == (p
        >> 16) & 0xff) by (bit_vector)
        requires
            q == ((p >> 8) + ((b as u32) << 24)) as u32,
    ;
    if r == 0 {
        assert(part_bytes(q, 1) =~= part_bytes(p, 0).push(b));
    } else if r == 1 {
        assert(part_bytes(q, 2) =~= part_bytes(p, 1).push(b));
    } else {
        assert(part_bytes(q, 3) =~= part_bytes(p, 2).push(b));
    }
}

impl FreakUSBSerial {
    /// Arm the accumulating buffer for transmit and swap to the other
    /// buffer.  `chep` is the just-read register value.
    fn send_tx_buffer(&mut self, hw: &mut UsbHw, chep: ChepReg)
        requires
            old(self).wf(),
            old(hw).wf(),
            chep == old(hw).chep@[1],
        ensures
            final(self).wf(),
            final(hw).wf(),
            final(self).tx_toggle == !old(self).tx_toggle,
            final(self).tx_len == 0,
            final(self).tx_part == old(self).tx_part,
            final(self).rx_processing == old(self).rx_processing,
            final(self).fake_baud == old(self).fake_baud,
            final(hw).bd@ == old(hw).bd@.update(
                2,
                final(hw).bd@[2],
            ),
            bd_offset_spec(final(hw).bd@[2]) == old(self).tx_base_spec(),
            bd_count_spec(final(hw).bd@[2]) == old(self).tx_len,
            final(hw).chep@[1].stat_tx == STAT_VALID,
            final(hw).chep@[1].stat_rx == chep.stat_rx,
            final(hw).chep@[1].vttx == false,
            final(hw).chep@[1].vtrx == chep.vtrx,
            final(hw).chep@[1].dtog_rx == chep.dtog_rx,
            final(hw).chep@[1].dtog_tx == chep.dtog_tx,
            final(hw).pma == old(hw).pma,
            serial_frame(*old(hw), *final(hw)),
    {
        let base = self.tx_base();
        let v = chep_bd_tx(base, self.tx_len);
        hw.bd_write(2, v);
        let w = ChepWrite::endpoint(1, UTYPE_BULK, false).clear_vttx().tx_valid(&chep);
        hw.chep_write(1, w);
        self.tx_toggle = !self.tx_toggle;
        self.tx_len = 0;
    }

    /// Hardware-level (re)initialization of the serial endpoint: receive
    /// descriptor armed on the first buffer, receive VALID, transmit NAK,
    /// toggles zeroed; the software state starts over.
    pub fn initialize(&mut self, hw: &mut UsbHw)
        requires
            old(hw).wf(),
        ensures
            final(self).wf(),
            final(hw).wf(),
            *final(self) == (FreakUSBSerial { fake_baud: old(self).fake_baud, ..FreakUSBSerial::reset_spec() }),
            final(hw).chep@[1].stat_rx == STAT_VALID,
            final(hw).chep@[1].stat_tx == STAT_NAK,
            final(hw).chep@[1].dtog_rx == false,
            final(hw).chep@[1].dtog_tx == false,
            final(hw).chep@[1].utype == UTYPE_BULK,
            final(hw).chep@[1].ea == 1,
            final(hw).chep@[1].vtrx == old(hw).chep@[1].vtrx,
            final(hw).chep@[1].vttx == old(hw).chep@[1].vttx,
            bd_offset_spec(final(hw).bd@[3]) == BULK_RX_OFFSET,
            bd_count_spec(final(hw).bd@[3]) == 0,
            crate::pma::bd_rx_capacity_spec(final(hw).bd@[3]) == 64,
            serial_rx_bd_ok(*final(hw)),
            final(hw).bd@[2] == old(hw).bd@[2],
            final(hw).pma == old(hw).pma,
            serial_frame(*old(hw), *final(hw)),
    {
        crate::hw::bd_serial_rx_init(hw);
        let ser = hw.chep_read(1);
        let w = ChepWrite::endpoint(1, UTYPE_BULK, false).init(&ser).rx_valid(&ser).tx_nak(&ser);
        hw.chep_write(1, w);
        let baud = self.fake_baud;
        *self = FreakUSBSerial::reset();
        self.fake_baud = baud;
    }

    /// Queue one byte toward the host.  Bytes gather into 32-bit words in
    /// the accumulating buffer; the 64th byte arms the buffer at once
    /// (unless the endpoint is not initialized).  With a full buffer
    /// already waiting, the byte is dropped.
    pub fn serial_tx_byte(&mut self, hw: &mut UsbHw, byte: u8)
        requires
            old(self).wf(),
            old(hw).wf(),
        ensures
            final(self).wf(),
            final(hw).wf(),
            serial_frame(*old(hw), *final(hw)),
            old(self).tx_len >= 64 ==> *final(self) == *old(self) && *final(hw) == *old(hw),
            old(self).tx_len < 64 ==> {
                let filled = old(self).tx_len + 1 == 64;
                let armed = filled && old(hw).chep@[1].stat_rx != STAT_DISABLED;
                &&& final(self).rx_processing == old(self).rx_processing
                &&& final(self).fake_baud == old(self).fake_baud
                &&& !armed ==> {
                    &&& final(self).tx_len == old(self).tx_len + 1
                    &&& final(self).tx_toggle == old(self).tx_toggle
                    &&& final(self).tx_accum(*final(hw)) == old(self).tx_accum(*old(hw)).push(
                        byte,
                    )
                    &&& final(hw).chep == old(hw).chep
                    &&& final(hw).bd == old(hw).bd
                }
                &&& armed ==> {
                    &&& final(self).tx_len == 0
                    &&& final(self).tx_toggle == !old(self).tx_toggle
                    &&& bd_offset_spec(final(hw).bd@[2]) == old(self).tx_base_spec()
                    &&& bd_count_spec(final(hw).bd@[2]) == 64
                    &&& final(hw).chep@[1].stat_tx == STAT_VALID
                    &&& final(hw).pma@.subrange(
                        old(self).tx_base_spec(),
                        old(self).tx_base_spec() + 64,
                    ) == old(self).tx_accum(*old(hw)).push(byte)
                }
            },
    {
        if self.tx_len >= 64 {
            return ;
        }
        let ghost oldaccum = self.tx_accum(*hw);
        let base = self.tx_base();
        proof {
            let p0 = self.tx_part;
            let b = byte;
            assert((p0 >> 8) + ((b as u32) << 24) <= 0xffffffff) by (bit_vector);
        }
        let p = (self.tx_part >> 8) + ((byte as u32) << 24);
        self.tx_part = p;
        proof {
            let r = (old(self).tx_len as int) % 4;
            if r < 3 {
                lemma_part_push(old(self).tx_part, byte, r as u32);
            }
        }
        if self.tx_len % 4 == 3 {
            hw.pma_write_u32(base + self.tx_len - 3, p);
            proof {
                let p0 = old(self).tx_part;
                let b = byte;
                assert((p & 0xff) == (p0 >> 8) & 0xff && ((p >> 8) & 0xff) == (p0 >> 16) & 0xff
                    && ((p >> 16) & 0xff) == (p0 >> 24) & 0xff && ((p >> 24) & 0xff)
                    == b) by (bit_vector)
                    requires
                        p == ((p0 >> 8) + ((b as u32) << 24)) as u32,
                        b <= 0xff,
                ;
            }
        }
        self.tx_len = self.tx_len + 1;
        proof {
            assert(self.tx_accum(*hw) =~= oldaccum.push(byte));
        }
        if self.tx_len < 64 {
            return ;
        }
        let chep = hw.chep_read(1);
        if chep.rx_disabled() {
            return ;
        }
        let ghost accum_full = self.tx_accum(*hw);
        self.send_tx_buffer(hw, chep);
        proof {
            assert(hw.pma@.subrange(
                old(self).tx_base_spec(),
                old(self).tx_base_spec() + 64,
            ) =~= accum_full);
        }
    }

    /// On start-of-frame: if the transmit side is idle and bytes are
    /// pending, store any partial word and arm the buffer.  An idle
    /// endpoint with nothing queued is left alone.
    pub fn start_of_frame(&mut self, hw: &mut UsbHw)
        requires
            old(self).wf(),
            old(hw).wf(),
        ensures
            final(self).wf(),
            final(hw).wf(),
            serial_frame(*old(hw), *final(hw)),
            final(hw).bd@[3] == old(hw).bd@[3],
            final(hw).chep@[1].vtrx == old(hw).chep@[1].vtrx,
            final(hw).chep@[1].vttx ==> old(hw).chep@[1].vttx,
            final(hw).chep@[1].stat_rx == old(hw).chep@[1].stat_rx,
            forall|k: int|
                0 <= k < PMA_SIZE && !(BULK_TX_OFFSET <= k < BULK_TX_OFFSET + 128)
                    ==> #[trigger] final(hw).pma@[k] == old(hw).pma@[k],
            (old(hw).chep@[1].stat_tx != STAT_NAK || old(self).tx_len == 0) ==> *final(self)
                == *old(self) && *final(hw) == *old(hw),
            (old(hw).chep@[1].stat_tx == STAT_NAK && old(self).tx_len > 0) ==> {
                &&& final(self).tx_len == 0
                &&& final(self).tx_toggle == !old(self).tx_toggle
                &&& final(self).rx_processing == old(self).rx_processing
                &&& final(self).fake_baud == old(self).fake_baud
                &&& bd_offset_spec(final(hw).bd@[2]) == old(self).tx_base_spec()
                &&& bd_count_spec(final(hw).bd@[2]) == old(self).tx_len
                &&& final(hw).chep@[1].stat_tx == STAT_VALID
                &&& final(hw).chep@[1].stat_rx == old(hw).chep@[1].stat_rx
                &&& final(hw).pma@.subrange(
                    old(self).tx_base_spec(),
                    old(self).tx_base_spec() + old(self).tx_len,
                ) == old(self).tx_accum(*old(hw))
            },
    {
        let chep = hw.chep_read(1);
        if !chep.tx_nakking() || self.tx_len == 0 {
            return ;
        }
        let base = self.tx_base();
        if self.tx_len % 4 != 0 {
            let r = self.tx_len % 4;
            let shift: u32 = 32 - 8 * (r as u32);
            let w = self.tx_part >> shift;
            hw.pma_write_u32(base + (self.tx_len - r), w);
            proof {
                let p = self.tx_part;
                assert((((p >> 24) >> 8) & 0xff == 0 && ((p >> 24) >> 16) & 0xff == 0) && ((((p
                    >> 16) >> 8) & 0xff) == ((p >> 24) & 0xff) && ((p >> 16) >> 16) & 0xff == 0)
                    && ((((p >> 8) >> 8) & 0xff) == ((p >> 16) & 0xff) && (((p >> 8) >> 16) & 0xff)
                    == ((p >> 24) & 0xff))) by (bit_vector);
                assert((shift == 24 ==> w == p >> 24) && (shift == 16 ==> w == p >> 16) && (shift
                    == 8 ==> w == p >> 8)) by (bit_vector)
                    requires
                        w == p >> shift,
                ;
            }
        }
        let ghost accum = self.tx_accum(*hw);
        let ghost keep = self.tx_len;
        proof {
            assert(hw.pma@.subrange(
                self.tx_base_spec(),
                self.tx_base_spec() + self.tx_len as int,
            ) =~= accum);
            assert(accum =~= old(self).tx_accum(*old(hw)));
        }
        self.send_tx_buffer(hw, chep);
        proof {
            assert(hw.pma@.subrange(
                old(self).tx_base_spec(),
                old(self).tx_base_spec() + old(self).tx_len as int,
            ) =~= accum);
        }
    }

    /// A transmit completed.  If a further full packet is already
    /// waiting, arm it at once; otherwise acknowledge and leave partial
    /// data for the next start-of-frame flush.
    pub fn tx_handler(&mut self, hw: &mut UsbHw)
        requires
            old(self).wf(),
            old(hw).wf(),
        ensures
            final(self).wf(),
            final(hw).wf(),
            serial_frame(*old(hw), *final(hw)),
            final(hw).bd@[3] == old(hw).bd@[3],
            final(hw).pma == old(hw).pma,
            final(hw).chep@[1].vttx == false || *final(hw) == *old(hw),
            final(hw).chep@[1].vtrx == old(hw).chep@[1].vtrx,
            final(hw).chep@[1].stat_rx == old(hw).chep@[1].stat_rx,
            final(self).rx_processing == old(self).rx_processing,
            final(self).fake_baud == old(self).fake_baud,
            !old(hw).chep@[1].vttx ==> *final(self) == *old(self) && *final(hw) == *old(hw),
            old(hw).chep@[1].vttx ==> final(hw).chep@[1].vttx == false,
            old(hw).chep@[1].vttx && (old(hw).chep@[1].stat_tx != STAT_NAK || old(self).tx_len
                < 64) ==> {
                &&& *final(self) == *old(self)
                &&& final(hw).chep@[1] == (ChepReg {
                    ea: 1,
                    utype: UTYPE_BULK,
                    epkind: false,
                    vttx: false,
                    ..old(hw).chep@[1]
                })
                &&& final(hw).bd == old(hw).bd
                &&& final(hw).pma == old(hw).pma
            },
            old(hw).chep@[1].vttx && old(hw).chep@[1].stat_tx == STAT_NAK && old(self).tx_len == 64
                ==> {
                &&& final(self).tx_len == 0
                &&& final(self).tx_toggle == !old(self).tx_toggle
                &&& bd_offset_spec(final(hw).bd@[2]) == old(self).tx_base_spec()
                &&& bd_count_spec(final(hw).bd@[2]) == 64
                &&& final(hw).chep@[1].stat_tx == STAT_VALID
                &&& final(hw).pma@.subrange(
                    old(self).tx_base_spec(),
                    old(self).tx_base_spec() + 64,
                ) == old(self).tx_accum(*old(hw))
            },
    {
        let chep = hw.chep_read(1);
        if !chep.vttx {
            return ;
        }
        if !chep.tx_nakking() || self.tx_len < 64 {
            let w = ChepWrite::endpoint(1, UTYPE_BULK, false).clear_vttx();
            hw.chep_write(1, w);
            return ;
        }
        let ghost accum = self.tx_accum(*hw);
        self.send_tx_buffer(hw, chep);
        proof {
            assert(hw.pma@.subrange(
                old(self).tx_base_spec(),
                old(self).tx_base_spec() + 64,
            ) =~= accum);
        }
    }
}

impl FreakUSBSerial {
    /// A packet arrived on the serial OUT endpoint.  With the consumer
    /// ready, hand the bytes over, swap to the other buffer and re-arm;
    /// with it busy, enter `Blocked` and leave the endpoint NAKed so the
    /// host holds further packets.  A packet arriving while one is still
    /// in hand is left in its buffer, also NAKed.
    pub fn rx_handler(&mut self, hw: &mut UsbHw, consumer_ready: bool) -> (out: Option<Vec<u8>>)
        requires
            old(self).wf(),
            old(hw).wf(),
            serial_rx_bd_ok(*old(hw)),
        ensures
            final(self).wf(),
            final(hw).wf(),
            serial_rx_bd_ok(*final(hw)),
            serial_frame(*old(hw), *final(hw)),
            final(hw).pma == old(hw).pma,
            final(self).tx_toggle == old(self).tx_toggle,
            final(self).tx_len == old(self).tx_len,
            final(self).tx_part == old(self).tx_part,
            final(self).fake_baud == old(self).fake_baud,
            final(hw).chep@[1].vttx == old(hw).chep@[1].vttx,
            !old(hw).chep@[1].vtrx ==> *final(self) == *old(self) && *final(hw) == *old(hw)
                && out is None,
            old(hw).chep@[1].vtrx ==> final(hw).chep@[1].vtrx == false,
            (old(hw).chep@[1].vtrx && old(hw).chep@[1].stat_rx != STAT_NAK) ==> {
                // An event while the receive side is still armed: the
                // toggles are out of step with software, so the event is
                // dropped — nothing but the flag changes, and the host's
                // own retry is relied on.
                &&& *final(self) == *old(self)
                &&& final(hw).chep@[1] == (ChepReg {
                    ea: 1,
                    utype: UTYPE_BULK,
                    epkind: false,
                    vtrx: false,
                    ..old(hw).chep@[1]
                })
                &&& final(hw).bd == old(hw).bd
                &&& out is None
            },
            (old(hw).chep@[1].vtrx && old(hw).chep@[1].stat_rx == STAT_NAK && bd_count_spec(
                old(hw).bd@[3],
            ) == 0) ==> {
                // A zero-length packet: kick off the same block again.
                &&& *final(self) == *old(self)
                &&& final(hw).chep@[1].stat_rx == STAT_VALID
                &&& final(hw).bd == old(hw).bd
                &&& out is None
            },
            out is Some ==> old(hw).chep@[1].vtrx && old(hw).chep@[1].stat_rx == STAT_NAK
                && bd_count_spec(old(hw).bd@[3]) > 0 && old(self).rx_processing
                == RxProcessing::Idle && consumer_ready,
            ({
                let live = old(hw).chep@[1].vtrx && old(hw).chep@[1].stat_rx == STAT_NAK
                    && bd_count_spec(old(hw).bd@[3]) > 0;
                let taken = live && old(self).rx_processing == RxProcessing::Idle
                    && consumer_ready;
                &&& (live && old(self).rx_processing == RxProcessing::Idle && !consumer_ready)
                    ==> {
                    &&& final(self).rx_processing == RxProcessing::Blocked
                    &&& final(hw).chep@[1].stat_rx == STAT_NAK
                    &&& final(hw).bd == old(hw).bd
                    &&& out is None
                }
                &&& (live && old(self).rx_processing != RxProcessing::Idle) ==> {
                    &&& final(self).rx_processing == old(self).rx_processing
                    &&& final(hw).chep@[1].stat_rx == STAT_NAK
                    &&& final(hw).bd == old(hw).bd
                    &&& out is None
                }
                &&& taken ==> {
                    &&& final(self).rx_processing == RxProcessing::Processing
                    &&& final(hw).chep@[1].stat_rx == STAT_VALID
                    &&& bd_offset_spec(final(hw).bd@[3]) == bd_offset_spec(old(hw).bd@[3]) ^ 64
                    &&& bd_count_spec(final(hw).bd@[3]) == bd_count_spec(old(hw).bd@[3])
                    &&& match out {
                        Option::Some(data) => data@ == old(hw).pma@.subrange(
                            bd_offset_spec(old(hw).bd@[3]) as int,
                            bd_offset_spec(old(hw).bd@[3]) + bd_count_spec(old(hw).bd@[3]),
                        ),
                        Option::None => false,
                    }
                }
            }),
    {
        let chep = hw.chep_read(1);
        if !chep.vtrx {
            return None;
        }
        if !chep.rx_nakking() {
            let w = ChepWrite::endpoint(1, UTYPE_BULK, false).clear_vtrx();
            hw.chep_write(1, w);
            return None;
        }
        let bd = hw.bd_read(3);
        let len = chep_bd_len(bd);
        if len == 0 {
            // A zero-length packet: just kick off the same block again.
            let w = ChepWrite::endpoint(1, UTYPE_BULK, false).clear_vtrx().rx_valid(&chep);
            hw.chep_write(1, w);
            return None;
        }
        if !matches!(self.rx_processing, RxProcessing::Idle) {
            // Still working on an earlier buffer: acknowledge the event
            // but stay NAKed until the consumer catches up.
            let w = ChepWrite::endpoint(1, UTYPE_BULK, false).clear_vtrx();
            hw.chep_write(1, w);
            return None;
        }
        if !consumer_ready {
            // The consumer is busy: hold the buffer and NAK the host.
            let w = ChepWrite::endpoint(1, UTYPE_BULK, false).clear_vtrx();
            hw.chep_write(1, w);
            self.rx_processing = RxProcessing::Blocked;
            return None;
        }
        let data = hw.pma_read(chep_bd_ptr(bd), len as usize);
        proof {
            lemma_bd_swap(bd);
        }
        hw.bd_write(3, bd ^ 64);
        let w = ChepWrite::endpoint(1, UTYPE_BULK, false).clear_vtrx().rx_valid(&chep);
        hw.chep_write(1, w);
        self.rx_processing = RxProcessing::Processing;
        Some(data)
    }

    /// The consumer finished a buffer (ours or someone else's).  If a
    /// received buffer is pending — the endpoint sits in NAK — hand it
    /// over, swap buffers and re-arm; otherwise fall back to idle.
    pub fn serial_rx_done(&mut self, hw: &mut UsbHw) -> (out: Option<Vec<u8>>)
        requires
            old(self).wf(),
            old(hw).wf(),
            serial_rx_bd_ok(*old(hw)),
        ensures
            final(self).wf(),
            final(hw).wf(),
            serial_rx_bd_ok(*final(hw)),
            serial_frame(*old(hw), *final(hw)),
            final(hw).pma == old(hw).pma,
            final(self).tx_toggle == old(self).tx_toggle,
            final(self).tx_len == old(self).tx_len,
            final(self).tx_part == old(self).tx_part,
            final(self).fake_baud == old(self).fake_baud,
            old(self).rx_processing == RxProcessing::Idle ==> *final(self) == *old(self)
                && *final(hw) == *old(hw) && out is None,
            (old(self).rx_processing != RxProcessing::Idle && old(hw).chep@[1].stat_rx
                != STAT_NAK) ==> {
                &&& final(self).rx_processing == RxProcessing::Idle
                &&& *final(hw) == *old(hw)
                &&& out is None
            },
            (old(self).rx_processing != RxProcessing::Idle && old(hw).chep@[1].stat_rx
                == STAT_NAK) ==> {
                &&& final(self).rx_processing == RxProcessing::Processing
                &&& final(hw).chep@[1].stat_rx == STAT_VALID
                &&& bd_offset_spec(final(hw).bd@[3]) == bd_offset_spec(old(hw).bd@[3]) ^ 64
                &&& bd_count_spec(final(hw).bd@[3]) == bd_count_spec(old(hw).bd@[3])
                &&& match out {
                    Option::Some(data) => data@ == old(hw).pma@.subrange(
                        bd_offset_spec(old(hw).bd@[3]) as int,
                        bd_offset_spec(old(hw).bd@[3]) + bd_count_spec(old(hw).bd@[3]),
                    ),
                    Option::None => false,
                }
            },
    {
        if matches!(self.rx_processing, RxProcessing::Idle) {
            return None;
        }
        let chep = hw.chep_read(1);
        if !chep.rx_nakking() {
            // The receive side is armed or off: nothing of ours pending.
            self.rx_processing = RxProcessing::Idle;
            return None;
        }
        self.rx_processing = RxProcessing::Processing;
        let bd = hw.bd_read(3);
        let len = chep_bd_len(bd);
        let data = hw.pma_read(chep_bd_ptr(bd), len as usize);
        proof {
            lemma_bd_swap(bd);
        }
        hw.bd_write(3, bd ^ 64);
        let w = ChepWrite::endpoint(1, UTYPE_BULK, false).clear_vtrx().rx_valid(&chep);
        hw.chep_write(1, w);
        Some(data)
    }

    /// Serve GET_LINE_CODING: echo the stored rate, 8 data bits, no
    /// parity.
    pub fn get_line_coding(&self) -> (r: SetupResult)
        ensures
            match r {
                SetupResult::SendData(d) => d@ == (LineCoding {
                    dte_rate: self.fake_baud,
                    char_format: 0,
                    parity_type: 0,
                    data_bits: 8,
                }).bytes_spec(),
                _ => false,
            },
    {
        let lc = LineCoding {
            dte_rate: self.fake_baud,
            char_format: 0,
            parity_type: 0,
            data_bits: 8,
        };
        SetupResult::SendData(lc.to_bytes())
    }

    /// Apply SET_LINE_CODING from the bytes the host just sent to the
    /// control receive buffer.  Only the rate is kept, and only for
    /// echoing back: the real serial port is not retuned.
    pub fn set_line_coding(&mut self, hw: &UsbHw) -> (ok: bool)
        requires
            old(self).wf(),
            hw.wf(),
        ensures
            ok,
            final(self).wf(),
            *final(self) == (FreakUSBSerial {
                fake_baud: LineCoding::from_bytes_spec(
                    hw.pma@.subrange(
                        crate::pma::CTRL_RX_OFFSET as int,
                        crate::pma::CTRL_RX_OFFSET + 7,
                    ),
                ).dte_rate,
                ..*old(self)
            }),
    {
        let raw = hw.pma_read(crate::pma::CTRL_RX_OFFSET, 7);
        let lc = LineCoding::from_bytes(raw.as_slice());
        self.fake_baud = lc.dte_rate;
        true
    }
}

/// Swapping the serial receive buffer flips one offset bit and keeps the
/// byte count.
proof fn lemma_bd_swap(bd: u32)
    ensures
        bd_offset_spec((bd ^ 64) as u32) == bd_offset_spec(bd) ^ 64,
        bd_count_spec((bd ^ 64) as u32) == bd_count_spec(bd),
        crate::pma::bd_rx_capacity_spec((bd ^ 64) as u32) == crate::pma::bd_rx_capacity_spec(bd),
        bd_offset_spec(bd) == 0x100 ==> bd_offset_spec(bd) ^ 64 == 0x140,
        bd_offset_spec(bd) == 0x140 ==> bd_offset_spec(bd) ^ 64 == 0x100,
{
    let o = bd & 0xffff;
    assert(((bd ^ 64) & 0xffff) == (bd & 0xffff) ^ 64 && (((bd ^ 64) >> 16) & 0x3ff) == ((bd
        >> 16) & 0x3ff) && ((bd ^ 64) >> 31) & 1 == (bd >> 31) & 1 && ((bd ^ 64) >> 26) & 0x1f
        == (bd >> 26) & 0x1f && (o == 0x100 ==> o ^ 64 == 0x140) && (o == 0x140 ==> o ^ 64
        == 0x100)) by (bit_vector)
        requires
            o == bd & 0xffff,
    ;
}

/// Send the canned serial-state notification on the interrupt endpoint:
/// carrier and data-set-ready asserted.  Latest value wins; there is no
/// queue.
pub fn usb_tx_interrupt(hw: &mut UsbHw)
    requires
        old(hw).wf(),
    ensures
        final(hw).wf(),
        final(hw).chep@[2].stat_tx == STAT_VALID,
        final(hw).chep@[2].vtrx == old(hw).chep@[2].vtrx,
        final(hw).chep@[2].vttx == old(hw).chep@[2].vttx,
        bd_offset_spec(final(hw).bd@[4]) == INTR_TX_OFFSET,
        bd_count_spec(final(hw).bd@[4]) == 10,
        final(hw).pma@.subrange(INTR_TX_OFFSET as int, INTR_TX_OFFSET + 10)
            == serial_state_notification_spec(),
        final(hw).sof == old(hw).sof,
        final(hw).rst == old(hw).rst,
        final(hw).daddr == old(hw).daddr,
        final(hw).ef == old(hw).ef,
        forall|i: int| 0 <= i < NUM_CHEP && i != 2 ==> final(hw).chep@[i] == old(hw).chep@[i],
        forall|i: int| 0 <= i < NUM_BD && i != 4 ==> final(hw).bd@[i] == old(hw).bd@[i],
        forall|k: int|
            0 <= k < PMA_SIZE && !(INTR_TX_OFFSET <= k < INTR_TX_OFFSET + 12)
                ==> #[trigger] final(hw).pma@[k] == old(hw).pma@[k],
{
    let mut msg: Vec<u8> = Vec::new();
    msg.push(0xa1);
    msg.push(0x20);
    msg.push(3);
    msg.push(0);
    msg.push(0);
    msg.push(0);
    msg.push(2);
    msg.push(0);
    msg.push(3);
    msg.push(0);
    proof {
        assert(msg@ =~= serial_state_notification_spec());
    }
    hw.pma_write(INTR_TX_OFFSET, msg.as_slice());
    let v = chep_bd_tx(INTR_TX_OFFSET, 10);
    hw.bd_write(4, v);
    let chep = hw.chep_read(2);
    let w = ChepWrite::endpoint(2, UTYPE_INTERRUPT, false).tx_valid(&chep);
    hw.chep_write(2, w);
    proof {
        assert forall|k: int| 0 <= k < 10 implies hw.pma@.subrange(
            INTR_TX_OFFSET as int,
            INTR_TX_OFFSET + 10,
        )[k] == serial_state_notification_spec()[k] by {
            assert(hw.pma@[INTR_TX_OFFSET + k] == msg@[k]);
        }
        assert(hw.pma@.subrange(INTR_TX_OFFSET as int, INTR_TX_OFFSET + 10)
            =~= serial_state_notification_spec());
    }
}

/// The SERIAL_STATE notification: a class request header announcing two
/// bytes, then the state word with carrier and data-set-ready set.
pub open spec fn serial_state_notification_spec() -> Seq<u8> {
    seq![0xa1u8, 0x20, 3, 0, 0, 0, 2, 0, 3, 0]
}

/// Handle SET_CONTROL_LINE_STATE: acknowledge, and push a serial-state
/// notification at the host, whatever the line state asked for.
pub fn set_control_line_state(hw: &mut UsbHw, _value: u8) -> (r: SetupResult)
    requires
        old(hw).wf(),
    ensures
        final(hw).wf(),
        r is NoData,
        final(hw).chep@[2].stat_tx == STAT_VALID,
        final(hw).chep@[2].vtrx == old(hw).chep@[2].vtrx,
        final(hw).chep@[2].vttx == old(hw).chep@[2].vttx,
        forall|i: int| 0 <= i < NUM_CHEP && i != 2 ==> final(hw).chep@[i] == old(hw).chep@[i],
        forall|i: int| 0 <= i < NUM_BD && i != 4 ==> final(hw).bd@[i] == old(hw).bd@[i],
        forall|k: int|
            0 <= k < PMA_SIZE && !(INTR_TX_OFFSET <= k < INTR_TX_OFFSET + 12)
                ==> #[trigger] final(hw).pma@[k] == old(hw).pma@[k],
        final(hw).sof == old(hw).sof,
        final(hw).rst == old(hw).rst,
        final(hw).daddr == old(hw).daddr,
        final(hw).ef == old(hw).ef,
{
    usb_tx_interrupt(hw);
    SetupResult::NoData
}

/// The CDC ACM notification endpoint: fire-and-forget transmit only.
pub struct FreakUSBSerialIntr {
}

impl FreakUSBSerialIntr {
    pub fn reset() -> (r: FreakUSBSerialIntr) {
        FreakUSBSerialIntr {  }
    }

    /// A notification finished: acknowledge the event, nothing more.
    pub fn tx_handler(&mut self, hw: &mut UsbHw)
        requires
            old(hw).wf(),
        ensures
            final(hw).wf(),
            final(hw).chep@[2].vttx == false || *final(hw) == *old(hw),
            !old(hw).chep@[2].vttx ==> *final(hw) == *old(hw),
            old(hw).chep@[2].vttx ==> final(hw).chep@[2] == (ChepReg {
                ea: 2,
                utype: UTYPE_INTERRUPT,
                epkind: false,
                vttx: false,
                ..old(hw).chep@[2]
            }),
            forall|i: int| 0 <= i < NUM_CHEP && i != 2 ==> final(hw).chep@[i] == old(hw).chep@[i],
            final(hw).bd == old(hw).bd,
            final(hw).pma == old(hw).pma,
            final(hw).sof == old(hw).sof,
            final(hw).rst == old(hw).rst,
            final(hw).daddr == old(hw).daddr,
            final(hw).ef == old(hw).ef,
    {
        let chep = hw.chep_read(2);
        if !chep.vttx {
            return ;
        }
        let w = ChepWrite::endpoint(2, UTYPE_INTERRUPT, false).clear_vttx();
        hw.chep_write(2, w);
    }

    /// Hardware-level initialization: transmit NAK until a notification
    /// is queued, toggles zeroed, no receive side.
    pub fn initialize(&mut self, hw: &mut UsbHw)
        requires
            old(hw).wf(),
        ensures
            final(hw).wf(),
            final(hw).chep@[2].stat_tx == STAT_NAK,
            final(hw).chep@[2].stat_rx == STAT_DISABLED,
            final(hw).chep@[2].dtog_rx == false,
            final(hw).chep@[2].dtog_tx == false,
            final(hw).chep@[2].ea == 2,
            final(hw).chep@[2].utype == UTYPE_INTERRUPT,
            final(hw).chep@[2].vtrx == old(hw).chep@[2].vtrx,
            final(hw).chep@[2].vttx == old(hw).chep@[2].vttx,
            forall|i: int| 0 <= i < NUM_CHEP && i != 2 ==> final(hw).chep@[i] == old(hw).chep@[i],
            final(hw).bd == old(hw).bd,
            final(hw).pma == old(hw).pma,
            final(hw).sof == old(hw).sof,
            final(hw).rst == old(hw).rst,
            final(hw).daddr == old(hw).daddr,
            final(hw).ef == old(hw).ef,
    {
        let intr = hw.chep_read(2);
        let w = ChepWrite::endpoint(2, UTYPE_INTERRUPT, false).init(&intr).tx_nak(&intr);
        hw.chep_write(2, w);
    }
}

} // verus!
