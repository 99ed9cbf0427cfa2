//! The autonomous side of the USB peripheral: what the hardware does to
//! the register file when the host moves a packet on the wire.
//!
//! A receive completion fills the endpoint's buffer, records the byte
//! count in the descriptor, drops the receive status from VALID to NAK,
//! flips the data toggle, and raises the receive event flag; a transmit
//! completion reads the armed buffer out, drops the transmit status to
//! NAK, flips the toggle and raises the transmit event flag.  The
//! preconditions here state the bus-level flow control: a packet can only
//! land while the endpoint's status is VALID — a NAKed endpoint takes
//! nothing.

use vstd::prelude::*;

use crate::hw::{NUM_CHEP, UsbHw};
use crate::pma::{PMA_SIZE, bd_count_spec, bd_offset_spec, bd_rx_capacity_spec};
use crate::regs::{ChepReg, STAT_NAK, STAT_VALID};

verus! {

/// An OUT (or SETUP) packet from the host lands on endpoint `ep`.
pub fn host_deliver_out(hw: &mut UsbHw, ep: usize, data: &[u8], is_setup: bool)
    requires
        old(hw).wf(),
        ep < NUM_CHEP,
        old(hw).chep@[ep as int].stat_rx == STAT_VALID,
        data@.len() <= bd_rx_capacity_spec(old(hw).bd@[2 * ep + 1]),
        data@.len() <= 0x3ff,
        bd_offset_spec(old(hw).bd@[2 * ep + 1]) + data@.len() <= PMA_SIZE,
    ensures
        final(hw).wf(),
        final(hw).chep@ == old(hw).chep@.update(
            ep as int,
            (ChepReg {
                stat_rx: STAT_NAK,
                vtrx: true,
                setup: is_setup,
                dtog_rx: !old(hw).chep@[ep as int].dtog_rx,
                ..old(hw).chep@[ep as int]
            }),
        ),
        final(hw).bd@ == old(hw).bd@.update(2 * ep + 1, final(hw).bd@[2 * ep + 1]),
        bd_offset_spec(final(hw).bd@[2 * ep + 1]) == bd_offset_spec(old(hw).bd@[2 * ep + 1]),
        bd_count_spec(final(hw).bd@[2 * ep + 1]) == data@.len(),
        bd_rx_capacity_spec(final(hw).bd@[2 * ep + 1]) == bd_rx_capacity_spec(
            old(hw).bd@[2 * ep + 1],
        ),
        final(hw).pma@.subrange(
            bd_offset_spec(old(hw).bd@[2 * ep + 1]) as int,
            bd_offset_spec(old(hw).bd@[2 * ep + 1]) + data@.len(),
        ) == data@,
        forall|k: int|
            0 <= k < PMA_SIZE && !(bd_offset_spec(old(hw).bd@[2 * ep + 1]) <= k < bd_offset_spec(
                old(hw).bd@[2 * ep + 1],
            ) + data@.len()) ==> #[trigger] final(hw).pma@[k] == old(hw).pma@[k],
        final(hw).sof == old(hw).sof,
        final(hw).rst == old(hw).rst,
        final(hw).daddr == old(hw).daddr,
        final(hw).ef == old(hw).ef,
{
    let bd = hw.bd_read(2 * ep + 1);
    let offset = crate::pma::chep_bd_ptr(bd);
    hw.pma_set_bytes(offset, data);
    let nbd = crate::pma::chep_bd_with_len(bd, data.len() as u32);
    hw.bd_write(2 * ep + 1, nbd);
    let cur = hw.chep_read(ep);
    let next = ChepReg {
        stat_rx: STAT_NAK,
        vtrx: true,
        setup: is_setup,
        dtog_rx: !cur.dtog_rx,
        ..cur
    };
    hw.chep[ep] = next;
    proof {
        let goff = offset as int;
        assert forall|k: int| 0 <= k < data@.len() implies hw.pma@.subrange(
            goff,
            goff + data@.len(),
        )[k] == data@[k] by {
            assert(hw.pma@[goff + k] == data@[k]);
        }
        assert(hw.pma@.subrange(goff, goff + data@.len()) =~= data@);
    }
}

/// The host sends a SETUP packet to the control endpoint.
pub fn host_deliver_setup(hw: &mut UsbHw, data: &[u8])
    requires
        old(hw).wf(),
        old(hw).chep@[0].stat_rx == STAT_VALID,
        data@.len() == 8,
        data@.len() <= bd_rx_capacity_spec(old(hw).bd@[1]),
        bd_offset_spec(old(hw).bd@[1]) + data@.len() <= PMA_SIZE,
    ensures
        final(hw).wf(),
        final(hw).chep@ == old(hw).chep@.update(
            0,
            (ChepReg {
                stat_rx: STAT_NAK,
                vtrx: true,
                setup: true,
                dtog_rx: !old(hw).chep@[0].dtog_rx,
                ..old(hw).chep@[0]
            }),
        ),
        final(hw).bd@ == old(hw).bd@.update(1, final(hw).bd@[1]),
        bd_offset_spec(final(hw).bd@[1]) == bd_offset_spec(old(hw).bd@[1]),
        bd_count_spec(final(hw).bd@[1]) == 8,
        bd_rx_capacity_spec(final(hw).bd@[1]) == bd_rx_capacity_spec(old(hw).bd@[1]),
        final(hw).pma@.subrange(
            bd_offset_spec(old(hw).bd@[1]) as int,
            bd_offset_spec(old(hw).bd@[1]) + 8,
        ) == data@,
        forall|k: int|
            0 <= k < PMA_SIZE && !(bd_offset_spec(old(hw).bd@[1]) <= k < bd_offset_spec(
                old(hw).bd@[1],
            ) + 8) ==> #[trigger] final(hw).pma@[k] == old(hw).pma@[k],
        final(hw).sof == old(hw).sof,
        final(hw).rst == old(hw).rst,
        final(hw).daddr == old(hw).daddr,
        final(hw).ef == old(hw).ef,
{
    host_deliver_out(hw, 0, data, true);
}

/// The host reads the packet armed on endpoint `ep`'s transmit side.
pub fn host_collect_in(hw: &mut UsbHw, ep: usize) -> (packet: Vec<u8>)
    requires
        old(hw).wf(),
        ep < NUM_CHEP,
        old(hw).chep@[ep as int].stat_tx == STAT_VALID,
        bd_offset_spec(old(hw).bd@[2 * ep]) + bd_count_spec(old(hw).bd@[2 * ep]) <= PMA_SIZE,
    ensures
        final(hw).wf(),
        packet@ == old(hw).pma@.subrange(
            bd_offset_spec(old(hw).bd@[2 * ep]) as int,
            bd_offset_spec(old(hw).bd@[2 * ep]) + bd_count_spec(old(hw).bd@[2 * ep]),
        ),
        packet@.len() == bd_count_spec(old(hw).bd@[2 * ep]),
        final(hw).chep@ == old(hw).chep@.update(
            ep as int,
            (ChepReg {
                stat_tx: STAT_NAK,
                vttx: true,
                dtog_tx: !old(hw).chep@[ep as int].dtog_tx,
                ..old(hw).chep@[ep as int]
            }),
        ),
        final(hw).bd == old(hw).bd,
        final(hw).pma == old(hw).pma,
        final(hw).sof == old(hw).sof,
        final(hw).rst == old(hw).rst,
        final(hw).daddr == old(hw).daddr,
        final(hw).ef == old(hw).ef,
{
    let bd = hw.bd_read(2 * ep);
    let offset = crate::pma::chep_bd_ptr(bd);
    let len = crate::pma::chep_bd_len(bd);
    let packet = hw.pma_read(offset, len as usize);
    let cur = hw.chep_read(ep);
    let next = ChepReg { stat_tx: STAT_NAK, vttx: true, dtog_tx: !cur.dtog_tx, ..cur };
    hw.chep[ep] = next;
    packet
}

/// A start-of-frame token: the frame flag latches.
pub fn host_sof(hw: &mut UsbHw)
    requires
        old(hw).wf(),
    ensures
        final(hw).wf(),
        *final(hw) == (UsbHw { sof: true, ..*old(hw) }),
{
    hw.sof = true;
}

/// A bus reset: the reset flag latches and every endpoint register
/// clears.
pub fn host_bus_reset(hw: &mut UsbHw)
    requires
        old(hw).wf(),
    ensures
        final(hw).wf(),
        final(hw).rst == true,
        final(hw).sof == old(hw).sof,
        forall|i: int|
            0 <= i < NUM_CHEP ==> final(hw).chep@[i] == ChepReg::reset_spec(),
        final(hw).chep@.len() == NUM_CHEP,
        final(hw).bd == old(hw).bd,
        final(hw).pma == old(hw).pma,
        final(hw).daddr == old(hw).daddr,
        final(hw).ef == old(hw).ef,
{
    hw.rst = true;
    let mut i: usize = 0;
    while i < NUM_CHEP
        invariant
            hw.wf(),
            i <= NUM_CHEP,
            forall|j: int| 0 <= j < i ==> hw.chep@[j] == ChepReg::reset_spec(),
            hw.rst == true,
            hw.sof == old(hw).sof,
            hw.bd == old(hw).bd,
            hw.pma == old(hw).pma,
            hw.daddr == old(hw).daddr,
            hw.ef == old(hw).ef,
        decreases NUM_CHEP - i,
    {
        hw.chep[i] = ChepReg::reset();
        i = i + 1;
    }
}

} // verus!
