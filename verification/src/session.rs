//! Whole-transfer runs of the control engine against the bus model, with
//! the packet-level laws of the IN data stage proved over them: an armed
//! response of N bytes leaves the device in exactly the packets USB
//! semantics prescribes — one packet for N at most 64, otherwise one per
//! 64-byte chunk, each triggered by the previous packet's completion,
//! with a terminating zero-length packet exactly when N is a nonzero
//! multiple of 64 and the host asked for more.

use vstd::prelude::*;

use crate::bus::host_collect_in;
use crate::control::{ControlState, min2, tx_continuation};
use crate::hw::UsbHw;
use crate::pma::{CTRL_TX_OFFSET, PMA_SIZE, bd_count_spec, bd_offset_spec};
use crate::regs::{STAT_VALID};

verus! {

/// The control endpoint is mid-way through an IN data stage with `rem`
/// bytes still owed: the next packet of `rem` is armed and the rest is
/// recorded as the continuation.
pub open spec fn tx_stage_wf(s: ControlState, hw: UsbHw, rem: Seq<u8>) -> bool {
    &&& hw.wf()
    &&& hw.chep@[0].stat_tx == STAT_VALID
    &&& hw.chep@[0].vttx == false
    &&& bd_offset_spec(hw.bd@[0]) == CTRL_TX_OFFSET
    &&& bd_count_spec(hw.bd@[0]) == min2(64, rem.len() as int)
    &&& hw.pma@.subrange(CTRL_TX_OFFSET as int, CTRL_TX_OFFSET + min2(64, rem.len() as int))
        == rem.take(min2(64, rem.len() as int))
    &&& match s.pending_tx {
        Option::Some(rest) => tx_continuation(rem, s.setup_short) == Option::Some(rest@),
        Option::None => tx_continuation(rem, s.setup_short) is None,
    }
    &&& s.pending_dfu == false
}

/// Number of data packets an `n`-byte response takes.
pub open spec fn data_packets(n: int) -> int {
    if n == 0 {
        1
    } else {
        (n + 63) / 64
    }
}

/// Does the stage end with an extra zero-length packet?
pub open spec fn has_zlp(n: int, setup_short: bool) -> bool {
    n > 0 && n % 64 == 0 && setup_short
}

/// Run an armed IN data stage to completion: the host reads each armed
/// packet and the transmit-complete handler stages the next, until the
/// endpoint stops arming.  Returns the packets in wire order.
pub fn control_in_transfer(ep0: &mut ControlState, hw: &mut UsbHw, rem: Ghost<Seq<u8>>) -> (
    packets: Vec<Vec<u8>>)
    requires
        tx_stage_wf(*old(ep0), *old(hw), rem@),
    ensures
        final(hw).wf(),
        final(hw).chep@[0].stat_tx != STAT_VALID,
        packets@.len() == data_packets(rem@.len() as int) + if has_zlp(
            rem@.len() as int,
            old(ep0).setup_short,
        ) {
            1int
        } else {
            0int
        },
        forall|i: int|
            0 <= i < data_packets(rem@.len() as int) ==> #[trigger] packets@[i]@
                == rem@.subrange(64 * i, min2(64 * (i + 1), rem@.len() as int)),
        has_zlp(rem@.len() as int, old(ep0).setup_short) ==> packets@[data_packets(
            rem@.len() as int,
        )]@.len() == 0,
        forall|i: int| 0 <= i < packets@.len() ==> (#[trigger] packets@[i]@).len() <= 64,
{
    let ghost n = rem@.len() as int;
    let ghost zlp = has_zlp(n, old(ep0).setup_short);
    let ghost total: int = data_packets(n) + if zlp {
        1int
    } else {
        0int
    };
    let mut packets: Vec<Vec<u8>> = Vec::new();
    loop
        invariant
            hw.wf(),
            0 <= packets@.len() <= total,
            total == data_packets(n) + if zlp {
                1int
            } else {
                0int
            },
            n == rem@.len(),
            zlp == has_zlp(n, old(ep0).setup_short),
            ep0.setup_short == old(ep0).setup_short,
            ep0.pending_dfu == false,
            forall|i: int|
                0 <= i < packets@.len() && i < data_packets(n) ==> #[trigger] packets@[i]@
                    == rem@.subrange(64 * i, min2(64 * (i + 1), n)),
            forall|i: int|
                0 <= i < packets@.len() ==> (#[trigger] packets@[i]@).len() <= 64,
            packets@.len() > data_packets(n) ==> packets@[data_packets(n)]@.len() == 0,
            (packets@.len() < total) ==> {
                &&& hw.chep@[0].stat_tx == STAT_VALID
                &&& hw.chep@[0].vttx == false
                &&& bd_offset_spec(hw.bd@[0]) == CTRL_TX_OFFSET
                &&& (packets@.len() < data_packets(n)) ==> {
                    let k = packets@.len() as int;
                    let tail = rem@.skip(64 * k);
                    &&& bd_count_spec(hw.bd@[0]) == min2(64, tail.len() as int)
                    &&& hw.pma@.subrange(
                        CTRL_TX_OFFSET as int,
                        CTRL_TX_OFFSET + min2(64, tail.len() as int),
                    ) == tail.take(min2(64, tail.len() as int))
                    &&& match ep0.pending_tx {
                        Option::Some(rest) => tx_continuation(tail, ep0.setup_short)
                            == Option::Some(rest@),
                        Option::None => tx_continuation(tail, ep0.setup_short) is None,
                    }
                }
                &&& (packets@.len() == data_packets(n)) ==> {
                    &&& bd_count_spec(hw.bd@[0]) == 0
                    &&& ep0.pending_tx is None
                }
            },
            (packets@.len() == total) ==> hw.chep@[0].stat_tx != STAT_VALID,
        ensures
            packets@.len() == total,
            hw.wf(),
            hw.chep@[0].stat_tx != STAT_VALID,
        decreases total - packets@.len(),
    {
        let chep = hw.chep_read(0);
        if !chep.tx_active() {
            proof {
                assert(packets@.len() == total);
            }
            break ;
        }
        let ghost k = packets@.len() as int;
        let ghost tail = rem@.skip(64 * k);
        proof {
            assert(bd_offset_spec(hw.bd@[0]) + bd_count_spec(hw.bd@[0]) <= PMA_SIZE);
        }
        let packet = host_collect_in(hw, 0);
        proof {
            if k < data_packets(n) {
                assert(packet@ =~= rem@.subrange(64 * k, min2(64 * (k + 1), n)));
            }
        }
        packets.push(packet);
        let dfu = ep0.tx_handler(hw);
        proof {
            assert(!dfu);
            if k + 1 < data_packets(n) {
                let tail2 = rem@.skip(64 * (k + 1));
                assert(tail.len() > 64);
                assert(tail.skip(64) =~= tail2);
                assert(tail.skip(64).take(min2(64, tail2.len() as int)) =~= tail2.take(
                    min2(64, tail2.len() as int),
                ));
            }
        }
    }
    packets
}

} // verus!
