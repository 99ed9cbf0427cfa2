//! The vendor command endpoint.  Frames are not handled inside the USB
//! interrupt: a received frame only pends the lower-priority dispatch
//! work, and the receive side stays NAKed until the response has been
//! transmitted — the protocol's own flow control enforces at most one
//! command in flight.

use vstd::prelude::*;

use crate::hw::{NUM_BD, NUM_CHEP, UsbHw};
use crate::pma::{
    MAIN_RX_OFFSET, MAIN_TX_OFFSET, PMA_SIZE, bd_count_spec, bd_offset_spec, chep_bd_tx,
};
use crate::regs::{ChepReg, ChepWrite, STAT_NAK, STAT_VALID, UTYPE_BULK};

verus! {

broadcast use crate::regs::lemma_xor_zero;

/// Endpoint register index of the command endpoint.
pub const CHEP_MAIN: usize = 3;

/// The command channel's endpoint state.  All of its state lives in the
/// hardware registers: the software side only routes events.
pub struct CommandUSB {
}

impl CommandUSB {
    pub fn reset() -> (r: CommandUSB) {
        CommandUSB {  }
    }

    /// A command frame arrived: acknowledge the event and pend the
    /// deferred dispatch.  The receive side is left NAKed; it is re-armed
    /// only once the response has gone out.
    pub fn rx_handler(&mut self, hw: &mut UsbHw) -> (trigger: bool)
        requires
            old(hw).wf(),
        ensures
            final(hw).wf(),
            trigger == old(hw).chep@[3].vtrx,
            !old(hw).chep@[3].vtrx ==> *final(hw) == *old(hw),
            old(hw).chep@[3].vtrx ==> final(hw).chep@[3] == (ChepReg {
                ea: 3,
                utype: UTYPE_BULK,
                epkind: false,
                vtrx: false,
                ..old(hw).chep@[3]
            }),
            forall|i: int| 0 <= i < NUM_CHEP && i != 3 ==> final(hw).chep@[i] == old(hw).chep@[i],
            final(hw).bd == old(hw).bd,
            final(hw).pma == old(hw).pma,
            final(hw).sof == old(hw).sof,
            final(hw).rst == old(hw).rst,
            final(hw).daddr == old(hw).daddr,
            final(hw).ef == old(hw).ef,
    {
        let chep = hw.chep_read(3);
        if !chep.vtrx {
            return false;
        }
        let w = ChepWrite::endpoint(3, UTYPE_BULK, false).clear_vtrx();
        hw.chep_write(3, w);
        true
    }

    /// The response finished transmitting: re-arm the receive side for
    /// the next command.
    pub fn tx_handler(&mut self, hw: &mut UsbHw)
        requires
            old(hw).wf(),
        ensures
            final(hw).wf(),
            !old(hw).chep@[3].vttx ==> *final(hw) == *old(hw),
            old(hw).chep@[3].vttx ==> final(hw).chep@[3] == (ChepReg {
                ea: 3,
                utype: UTYPE_BULK,
                epkind: false,
                vttx: false,
                stat_rx: STAT_VALID,
                ..old(hw).chep@[3]
            }),
            forall|i: int| 0 <= i < NUM_CHEP && i != 3 ==> final(hw).chep@[i] == old(hw).chep@[i],
            final(hw).bd == old(hw).bd,
            final(hw).pma == old(hw).pma,
            final(hw).sof == old(hw).sof,
            final(hw).rst == old(hw).rst,
            final(hw).daddr == old(hw).daddr,
            final(hw).ef == old(hw).ef,
    {
        let chep = hw.chep_read(3);
        if !chep.vttx {
            return ;
        }
        let w = ChepWrite::endpoint(3, UTYPE_BULK, false).rx_valid(&chep).clear_vttx();
        hw.chep_write(3, w);
    }

    /// Hardware-level initialization: receive descriptor armed, receive
    /// VALID, transmit NAK, toggles zeroed.
    pub fn initialize(&mut self, hw: &mut UsbHw)
        requires
            old(hw).wf(),
        ensures
            final(hw).wf(),
            final(hw).chep@[3].stat_rx == STAT_VALID,
            final(hw).chep@[3].stat_tx == STAT_NAK,
            final(hw).chep@[3].dtog_rx == false,
            final(hw).chep@[3].dtog_tx == false,
            final(hw).chep@[3].ea == 3,
            final(hw).chep@[3].utype == UTYPE_BULK,
            final(hw).chep@[3].vtrx == old(hw).chep@[3].vtrx,
            final(hw).chep@[3].vttx == old(hw).chep@[3].vttx,
            bd_offset_spec(final(hw).bd@[7]) == MAIN_RX_OFFSET,
            bd_count_spec(final(hw).bd@[7]) == 0,
            crate::pma::bd_rx_capacity_spec(final(hw).bd@[7]) == 64,
            forall|i: int| 0 <= i < NUM_CHEP && i != 3 ==> final(hw).chep@[i] == old(hw).chep@[i],
            forall|i: int| 0 <= i < NUM_BD && i != 7 ==> final(hw).bd@[i] == old(hw).bd@[i],
            final(hw).pma == old(hw).pma,
            final(hw).sof == old(hw).sof,
            final(hw).rst == old(hw).rst,
            final(hw).daddr == old(hw).daddr,
            final(hw).ef == old(hw).ef,
    {
        let v = crate::pma::chep_block::<64>(MAIN_RX_OFFSET);
        hw.bd_write(7, v);
        let main = hw.chep_read(3);
        let w = ChepWrite::endpoint(3, UTYPE_BULK, false).init(&main).rx_valid(&main).tx_nak(
            &main,
        );
        hw.chep_write(3, w);
    }
}

/// Queue the response to a command frame, or — for an empty response —
/// just re-arm the receive side.  Runs at the deferred priority, not in
/// the USB interrupt.
pub fn main_tx_response(hw: &mut UsbHw, message: &[u8])
    requires
        old(hw).wf(),
        message@.len() <= 64,
    ensures
        final(hw).wf(),
        message@.len() == 0 ==> {
            &&& final(hw).chep@[3].stat_rx == STAT_VALID
            &&& final(hw).bd == old(hw).bd
            &&& final(hw).pma == old(hw).pma
        },
        message@.len() > 0 ==> {
            &&& final(hw).chep@[3].stat_tx == STAT_VALID
            &&& final(hw).chep@[3].stat_rx == old(hw).chep@[3].stat_rx
            &&& bd_offset_spec(final(hw).bd@[6]) == MAIN_TX_OFFSET
            &&& bd_count_spec(final(hw).bd@[6]) == message@.len()
            &&& final(hw).pma@.subrange(
                MAIN_TX_OFFSET as int,
                MAIN_TX_OFFSET + message@.len(),
            ) == message@
            &&& forall|i: int| 0 <= i < NUM_BD && i != 6 ==> final(hw).bd@[i] == old(hw).bd@[i]
            &&& forall|k: int|
                0 <= k < PMA_SIZE && !(MAIN_TX_OFFSET <= k < MAIN_TX_OFFSET + 64)
                    ==> #[trigger] final(hw).pma@[k] == old(hw).pma@[k]
        },
        forall|i: int| 0 <= i < NUM_CHEP && i != 3 ==> final(hw).chep@[i] == old(hw).chep@[i],
        final(hw).sof == old(hw).sof,
        final(hw).rst == old(hw).rst,
        final(hw).daddr == old(hw).daddr,
        final(hw).ef == old(hw).ef,
{
    let chep = hw.chep_read(3);
    if message.len() == 0 {
        let w = ChepWrite::endpoint(3, UTYPE_BULK, false).rx_valid(&chep);
        hw.chep_write(3, w);
        return ;
    }
    hw.pma_write(MAIN_TX_OFFSET, message);
    let v = chep_bd_tx(MAIN_TX_OFFSET, message.len());
    hw.bd_write(6, v);
    let chep = hw.chep_read(3);
    let w = ChepWrite::endpoint(3, UTYPE_BULK, false).tx_valid(&chep);
    hw.chep_write(3, w);
    proof {
        assert forall|k: int| 0 <= k < message@.len() implies hw.pma@.subrange(
            MAIN_TX_OFFSET as int,
            MAIN_TX_OFFSET + message@.len(),
        )[k] == message@[k] by {
            assert(hw.pma@[MAIN_TX_OFFSET + k] == message@[k]);
        }
        assert(hw.pma@.subrange(MAIN_TX_OFFSET as int, MAIN_TX_OFFSET + message@.len())
            =~= message@);
    }
}

/// Fetch the received command frame for the deferred dispatch: the
/// bytes of the last packet that landed in the command receive buffer.
pub fn main_rx_frame(hw: &UsbHw) -> (r: Vec<u8>)
    requires
        hw.wf(),
        bd_offset_spec(hw.bd@[7]) == MAIN_RX_OFFSET,
        bd_count_spec(hw.bd@[7]) <= 64,
    ensures
        r@ == hw.pma@.subrange(
            MAIN_RX_OFFSET as int,
            MAIN_RX_OFFSET + bd_count_spec(hw.bd@[7]),
        ),
        r@.len() == bd_count_spec(hw.bd@[7]),
{
    let bd = hw.bd_read(7);
    let len = crate::pma::chep_bd_len(bd);
    hw.pma_read(crate::pma::chep_bd_ptr(bd), len as usize)
}

} // verus!
