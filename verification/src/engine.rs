//! The interrupt-level engine: per-device state, the dispatch loop that
//! decodes the interrupt status and routes per-endpoint events, and the
//! global (re)initialization that a bus reset triggers.

use vstd::prelude::*;

use crate::command_ep::CommandUSB;
use crate::control::ControlState;
use crate::hw::{NUM_CHEP, UsbHw};
use crate::pma::{CTRL_RX_OFFSET, bd_count_spec, bd_offset_spec};
use crate::regs::{ChepWrite, STAT_NAK, STAT_VALID, UTYPE_CONTROL};
use crate::serial::{FreakUSBSerial, FreakUSBSerialIntr, serial_rx_bd_ok};

verus! {

broadcast use crate::regs::lemma_xor_zero;

/// CPU frequency, in Hz.
pub const CPU_FREQ: u32 = 160_000_000;

/// The data endpoints: the serial bridge pair, its notification
/// endpoint, and the command channel.
pub struct DataEndPoints {
    pub ep1: FreakUSBSerial,
    pub ep2: FreakUSBSerialIntr,
    pub ep3: CommandUSB,
}

impl DataEndPoints {
    pub fn reset() -> (r: DataEndPoints)
        ensures
            r.ep1 == FreakUSBSerial::reset_spec(),
            r.ep1.wf(),
    {
        DataEndPoints {
            ep1: FreakUSBSerial::reset(),
            ep2: FreakUSBSerialIntr::reset(),
            ep3: CommandUSB::reset(),
        }
    }
}

/// What one interrupt asked the rest of the firmware to do.
pub struct Effects {
    /// Received serial bytes to hand to the outgoing serial port.
    pub serial_out: Option<Vec<u8>>,
    /// Pend the lower-priority command dispatch.
    pub trigger_command: bool,
    /// Reboot into the firmware loader, now that the host has seen the
    /// acknowledge.
    pub enter_dfu: bool,
}

/// Does the head of the control receive buffer hold a firmware-update
/// detach request, delivered as a SETUP packet?
pub open spec fn dfu_detach_request(hw: UsbHw) -> bool {
    let h = crate::types::SetupHeader::from_bytes_spec(
        hw.pma@.subrange(CTRL_RX_OFFSET as int, CTRL_RX_OFFSET + 8),
    );
    &&& hw.chep@[0].setup
    &&& bd_count_spec(hw.bd@[1]) >= 8
    &&& h.request_type == 0x21
    &&& h.request == 0x00
}

/// The conditions under which one interrupt hands a received serial
/// packet over: a completed receive awaits, software is idle, and the
/// consumer is ready.
pub open spec fn serial_take_ready(ep1: FreakUSBSerial, hw: UsbHw, consumer_ready: bool) -> bool {
    &&& hw.chep@[1].vtrx
    &&& hw.chep@[1].stat_rx == STAT_NAK
    &&& bd_count_spec(hw.bd@[3]) > 0
    &&& ep1.rx_processing == crate::serial::RxProcessing::Idle
    &&& consumer_ready
}

/// The bytes sitting in the armed serial receive buffer.
pub open spec fn serial_rx_bytes(hw: UsbHw) -> Seq<u8> {
    hw.pma@.subrange(
        bd_offset_spec(hw.bd@[3]) as int,
        bd_offset_spec(hw.bd@[3]) + bd_count_spec(hw.bd@[3]),
    )
}

/// The serial receive side — descriptor, status, software state and
/// buffer memory — carried unchanged from `(e1, h0)` to `(e2, h1)`.
pub open spec fn serial_rx_untouched(
    e1: FreakUSBSerial,
    h0: UsbHw,
    e2: FreakUSBSerial,
    h1: UsbHw,
) -> bool {
    &&& h1.bd@[3] == h0.bd@[3]
    &&& h1.chep@[1].stat_rx == h0.chep@[1].stat_rx
    &&& e2.rx_processing == e1.rx_processing
    &&& forall|k: int|
        crate::pma::BULK_RX_OFFSET <= k < crate::pma::BULK_RX_OFFSET + 128
            ==> #[trigger] h1.pma@[k] == h0.pma@[k]
}

/// The engine as a bus reset leaves it: control state discarded, the
/// address register cleared, the control and command receive sides
/// armed, everything else idle.
pub open spec fn reinitialized(s: USB_State, h: UsbHw) -> bool {
    &&& s.ep0 == ControlState::reset_spec()
    &&& h.daddr == 0
    &&& h.ef == true
    &&& h.chep@[0].stat_rx == STAT_VALID
    &&& h.chep@[0].stat_tx != STAT_VALID
    &&& h.chep@[0].dtog_rx == false
    &&& h.chep@[0].dtog_tx == false
    &&& h.chep@[1].stat_rx == STAT_VALID
    &&& h.chep@[1].stat_tx == STAT_NAK
    &&& h.chep@[3].stat_rx == STAT_VALID
    &&& h.chep@[3].stat_tx == STAT_NAK
    &&& s.eps.ep1.rx_processing == crate::serial::RxProcessing::Idle
    &&& s.eps.ep1.tx_len == 0
}

/// The whole USB device state: the control endpoint and the data
/// endpoints.
#[allow(non_camel_case_types)]
pub struct USB_State {
    pub ep0: ControlState,
    pub eps: DataEndPoints,
}

impl USB_State {
    pub open spec fn wf(self) -> bool {
        self.eps.ep1.wf()
    }

    pub fn reset() -> (r: USB_State)
        ensures
            r.wf(),
            r.ep0 == ControlState::reset_spec(),
            r.eps.ep1 == FreakUSBSerial::reset_spec(),
    {
        USB_State { ep0: ControlState::reset(), eps: DataEndPoints::reset() }
    }

    /// The calibrated erratum delay: during OUT transfers the transfer
    /// interrupt can fire a little before the last packet-memory write
    /// has completed, so received data must not be touched at once.
    pub fn errata_delay()
    {
        let n: u32 = CPU_FREQ / 1250000 / 2;
        let mut i: u32 = 0;
        while i < n
            invariant
                i <= n,
            decreases n - i,
        {
            i = i + 1;
        }
    }

    /// Global (re)initialization, run at start-up and on every bus
    /// reset: control state discarded, address register cleared, the
    /// control endpoint armed for receive, and every data endpoint
    /// reinitialized.
    pub fn usb_initialize(&mut self, hw: &mut UsbHw)
        requires
            old(hw).wf(),
        ensures
            final(self).wf(),
            final(hw).wf(),
            final(self).ep0 == ControlState::reset_spec(),
            final(self).eps.ep1 == (FreakUSBSerial {
                fake_baud: old(self).eps.ep1.fake_baud,
                ..FreakUSBSerial::reset_spec()
            }),
            final(hw).daddr == 0,
            final(hw).ef == true,
            final(hw).chep@[0].stat_rx == STAT_VALID,
            final(hw).chep@[0].stat_tx != STAT_VALID,
            final(hw).chep@[0].dtog_rx == false,
            final(hw).chep@[0].dtog_tx == false,
            final(hw).chep@[0].utype == UTYPE_CONTROL,
            final(hw).chep@[0].ea == 0,
            final(hw).chep@[1].stat_rx == STAT_VALID,
            final(hw).chep@[1].stat_tx == STAT_NAK,
            final(hw).chep@[1].dtog_rx == false,
            final(hw).chep@[1].dtog_tx == false,
            final(hw).chep@[2].stat_tx == STAT_NAK,
            final(hw).chep@[2].stat_rx == crate::regs::STAT_DISABLED,
            final(hw).chep@[2].dtog_rx == false,
            final(hw).chep@[2].dtog_tx == false,
            final(hw).chep@[3].stat_rx == STAT_VALID,
            final(hw).chep@[3].stat_tx == STAT_NAK,
            final(hw).chep@[3].dtog_rx == false,
            final(hw).chep@[3].dtog_tx == false,
            final(self).eps.ep1.tx_toggle == final(hw).chep@[1].dtog_tx,
            (bd_offset_spec(final(hw).bd@[3]) == crate::pma::BULK_RX_OFFSET) == (
            final(hw).chep@[1].dtog_rx == false),
            bd_offset_spec(final(hw).bd@[1]) == CTRL_RX_OFFSET,
            bd_count_spec(final(hw).bd@[1]) == 0,
            crate::pma::bd_rx_capacity_spec(final(hw).bd@[1]) == 64,
            bd_count_spec(final(hw).bd@[3]) == 0,
            serial_rx_bd_ok(*final(hw)),
            final(hw).sof == old(hw).sof,
            final(hw).rst == old(hw).rst,
            final(hw).pma == old(hw).pma,
            forall|i: int| 4 <= i < NUM_CHEP ==> final(hw).chep@[i] == old(hw).chep@[i],
            forall|i: int|
                0 <= i < 4 ==> final(hw).chep@[i].vtrx == old(hw).chep@[i].vtrx && final(hw).chep@[i].vttx == old(hw).chep@[i].vttx,
            forall|i: int|
                0 <= i < crate::hw::NUM_BD && i != 1 && i != 3 && i != 7 ==> final(hw).bd@[i]
                    == old(hw).bd@[i],
    {
        self.ep0.usb_initialize();
        hw.daddr_write(0, true);
        let v = crate::pma::chep_block::<64>(CTRL_RX_OFFSET);
        hw.bd_write(crate::pma::bd_control_rx(), v);
        let ctrl = hw.chep_read(0);
        let w = ChepWrite::endpoint(0, UTYPE_CONTROL, false).dtogrx(&ctrl, false).dtogtx(
            &ctrl,
            false,
        ).rx_valid(&ctrl).stat_tx(&ctrl, STAT_NAK);
        hw.chep_write(0, w);
        self.ep_initialize(hw);
    }

    /// Initialize the data endpoints' registers and descriptors.
    pub fn ep_initialize(&mut self, hw: &mut UsbHw)
        requires
            old(hw).wf(),
        ensures
            final(self).wf(),
            final(hw).wf(),
            final(self).ep0 == old(self).ep0,
            final(self).eps.ep1 == (FreakUSBSerial {
                fake_baud: old(self).eps.ep1.fake_baud,
                ..FreakUSBSerial::reset_spec()
            }),
            bd_offset_spec(final(hw).bd@[3]) == crate::pma::BULK_RX_OFFSET,
            final(hw).chep@[0] == old(hw).chep@[0],
            final(hw).chep@[1].stat_rx == STAT_VALID,
            final(hw).chep@[1].stat_tx == STAT_NAK,
            final(hw).chep@[1].dtog_rx == false,
            final(hw).chep@[1].dtog_tx == false,
            final(hw).chep@[2].stat_tx == STAT_NAK,
            final(hw).chep@[2].stat_rx == crate::regs::STAT_DISABLED,
            final(hw).chep@[2].dtog_rx == false,
            final(hw).chep@[2].dtog_tx == false,
            final(hw).chep@[3].stat_rx == STAT_VALID,
            final(hw).chep@[3].stat_tx == STAT_NAK,
            final(hw).chep@[3].dtog_rx == false,
            final(hw).chep@[3].dtog_tx == false,
            serial_rx_bd_ok(*final(hw)),
            bd_count_spec(final(hw).bd@[3]) == 0,
            forall|i: int| 4 <= i < NUM_CHEP ==> final(hw).chep@[i] == old(hw).chep@[i],
            forall|i: int|
                0 <= i < 4 ==> final(hw).chep@[i].vtrx == old(hw).chep@[i].vtrx && final(hw).chep@[i].vttx == old(hw).chep@[i].vttx,
            forall|i: int|
                0 <= i < crate::hw::NUM_BD && i != 3 && i != 7 ==> final(hw).bd@[i] == old(
                    hw,
                ).bd@[i],
            final(hw).pma == old(hw).pma,
            final(hw).daddr == old(hw).daddr,
            final(hw).ef == old(hw).ef,
            final(hw).sof == old(hw).sof,
            final(hw).rst == old(hw).rst,
    {
        self.eps.ep1.initialize(hw);
        self.eps.ep2.initialize(hw);
        self.eps.ep3.initialize(hw);
    }
}

impl USB_State {
    /// On start-of-frame, give each endpoint its opportunistic-flush
    /// hook; only the serial endpoint uses it, to push out partial
    /// transmit data.
    pub fn start_of_frame(&mut self, hw: &mut UsbHw)
        requires
            old(self).wf(),
            old(hw).wf(),
            crate::serial::serial_rx_bd_ok(*old(hw)),
        ensures
            final(self).wf(),
            final(hw).wf(),
            crate::serial::serial_rx_bd_ok(*final(hw)),
            crate::serial::serial_frame(*old(hw), *final(hw)),
            final(self).ep0 == old(self).ep0,
            final(self).eps.ep1.rx_processing == old(self).eps.ep1.rx_processing,
            final(self).eps.ep1.fake_baud == old(self).eps.ep1.fake_baud,
            final(hw).chep@[1].vtrx == old(hw).chep@[1].vtrx,
            final(hw).chep@[1].vttx ==> old(hw).chep@[1].vttx,
            final(hw).chep@[1].stat_rx == old(hw).chep@[1].stat_rx,
            final(hw).bd@[3] == old(hw).bd@[3],
            forall|k: int|
                0 <= k < crate::pma::PMA_SIZE && !(crate::pma::BULK_TX_OFFSET <= k
                    < crate::pma::BULK_TX_OFFSET + 128) ==> #[trigger] final(hw).pma@[k]
                    == old(hw).pma@[k],
            (old(hw).chep@[1].stat_tx != crate::regs::STAT_NAK || old(self).eps.ep1.tx_len == 0)
                ==> *final(self) == *old(self) && *final(hw) == *old(hw),
            (old(hw).chep@[1].stat_tx == crate::regs::STAT_NAK && old(self).eps.ep1.tx_len > 0)
                ==> {
                &&& final(hw).chep@[1].stat_tx == STAT_VALID
                &&& crate::pma::bd_offset_spec(final(hw).bd@[2]) == old(
                    self,
                ).eps.ep1.tx_base_spec()
                &&& crate::pma::bd_count_spec(final(hw).bd@[2]) == old(self).eps.ep1.tx_len
                &&& final(hw).pma@.subrange(
                    old(self).eps.ep1.tx_base_spec(),
                    old(self).eps.ep1.tx_base_spec() + old(self).eps.ep1.tx_len,
                ) == old(self).eps.ep1.tx_accum(*old(hw))
            },
    {
        self.eps.ep1.start_of_frame(hw);
    }

    /// One entry of the USB interrupt: latch and acknowledge the global
    /// event flags, run the start-of-frame hooks, reinitialize on bus
    /// reset, then dispatch completed transfers endpoint by endpoint
    /// until none is pending.  Looping is mandatory: a single dispatch
    /// per entry could drop an event that became pending while handling
    /// the previous one and hang the endpoint.
    ///
    /// The returned [`Effects`] are what the rest of the firmware acts
    /// on, and the contract pins each one down: a firmware-update
    /// reboot is reported only when a transmit completion found a
    /// detach pending (recorded earlier, or set by a detach SETUP in
    /// this same entry); the deferred command dispatch is pended
    /// exactly when a command frame had arrived; and serial bytes are
    /// handed over only from a completed receive, carrying that
    /// buffer's own contents — and always, when nothing else touches
    /// the serial endpoint in the same entry.
    pub fn isr(&mut self, hw: &mut UsbHw, consumer_ready: bool, name: &[u16]) -> (fx: Effects)
        requires
            old(self).wf(),
            old(hw).wf(),
            crate::serial::serial_rx_bd_ok(*old(hw)),
            name@.len() > 0,
        ensures
            final(self).wf(),
            final(hw).wf(),
            crate::serial::serial_rx_bd_ok(*final(hw)),
            final(hw).sof == false,
            final(hw).rst == false,
            !fx.enter_dfu ==> forall|i: int| 0 <= i < 4 ==> !final(hw).pending_at(i),
            fx.enter_dfu ==> !old(hw).rst && old(hw).chep@[0].vttx && (
            old(self).ep0.pending_dfu || (old(hw).chep@[0].vtrx && dfu_detach_request(
                *old(hw),
            ))),
            fx.trigger_command ==> old(hw).chep@[3].vtrx,
            !fx.enter_dfu ==> fx.trigger_command == old(hw).chep@[3].vtrx,
            match fx.serial_out {
                Option::Some(d) => serial_take_ready(old(self).eps.ep1, *old(hw), consumer_ready)
                    && d@ == serial_rx_bytes(*old(hw)),
                Option::None => true,
            },
            (!fx.enter_dfu && !old(hw).rst && !old(hw).chep@[0].vtrx && serial_take_ready(
                old(self).eps.ep1,
                *old(hw),
                consumer_ready,
            )) ==> fx.serial_out is Some,
            (old(hw).rst && (forall|i: int| 0 <= i < 4 ==> !old(hw).pending_at(i))) ==> {
                &&& fx.enter_dfu == false
                &&& fx.trigger_command == false
                &&& fx.serial_out is None
                &&& reinitialized(*final(self), *final(hw))
            },
    {
        let mut fx = Effects { serial_out: None, trigger_command: false, enter_dfu: false };
        let sof = hw.sof;
        let rst = hw.rst;
        // Acknowledge the global flags being handled, and no others.
        hw.sof = false;
        hw.rst = false;
        if sof {
            self.start_of_frame(hw);
        }
        if rst {
            self.usb_initialize(hw);
        }
        let ghost rstclean = old(hw).rst && (forall|i: int|
            0 <= i < 4 ==> !old(hw).pending_at(i));
        let ghost clean = !old(hw).rst && !old(hw).chep@[0].vtrx && serial_take_ready(
            old(self).eps.ep1,
            *old(hw),
            consumer_ready,
        );
        proof {
            if rstclean {
                assert forall|i: int| 0 <= i < 4 implies !hw.pending_at(i) by {
                    assert(!old(hw).pending_at(i));
                }
            }
        }
        loop
            invariant
                self.wf(),
                hw.wf(),
                old(self).wf(),
                old(hw).wf(),
                crate::serial::serial_rx_bd_ok(*hw),
                crate::serial::serial_rx_bd_ok(*old(hw)),
                hw.sof == false,
                hw.rst == false,
                name@.len() > 0,
                fx.enter_dfu == false,
                rstclean == (old(hw).rst && (forall|i: int|
                    0 <= i < 4 ==> !old(hw).pending_at(i))),
                clean == (!old(hw).rst && !old(hw).chep@[0].vtrx && serial_take_ready(
                    old(self).eps.ep1,
                    *old(hw),
                    consumer_ready,
                )),
                hw.chep@[0].vttx ==> old(hw).chep@[0].vttx,
                hw.chep@[0].vtrx ==> old(hw).chep@[0].vtrx,
                hw.chep@[1].vtrx ==> old(hw).chep@[1].vtrx,
                self.ep0.pending_dfu ==> !old(hw).rst && (old(self).ep0.pending_dfu || (
                old(hw).chep@[0].vtrx && dfu_detach_request(*old(hw)))),
                !old(hw).rst ==> (forall|k: int|
                    CTRL_RX_OFFSET <= k < CTRL_RX_OFFSET + 8 ==> #[trigger] hw.pma@[k] == old(
                        hw,
                    ).pma@[k]) && hw.bd@[1] == old(hw).bd@[1] && hw.chep@[0].setup == old(
                    hw,
                ).chep@[0].setup,
                old(hw).rst ==> !self.ep0.pending_dfu && bd_count_spec(hw.bd@[1]) == 0,
                fx.trigger_command ==> old(hw).chep@[3].vtrx,
                !fx.trigger_command ==> hw.chep@[3].vtrx == old(hw).chep@[3].vtrx,
                match fx.serial_out {
                    Option::Some(d) => serial_take_ready(
                        old(self).eps.ep1,
                        *old(hw),
                        consumer_ready,
                    ) && d@ == serial_rx_bytes(*old(hw)) && !hw.chep@[1].vtrx,
                    Option::None => hw.chep@[1].vtrx ==> ((old(hw).chep@[1].vtrx
                        && serial_rx_untouched(old(self).eps.ep1, *old(hw), self.eps.ep1, *hw))
                        || bd_count_spec(hw.bd@[3]) == 0 || hw.chep@[1].stat_rx != STAT_NAK),
                },
                clean ==> (fx.serial_out is Some || (hw.chep@[1].vtrx && serial_rx_untouched(
                    old(self).eps.ep1,
                    *old(hw),
                    self.eps.ep1,
                    *hw,
                ))),
                rstclean ==> (fx.trigger_command == false && fx.serial_out is None
                    && reinitialized(*self, *hw) && (forall|i: int|
                    0 <= i < 4 ==> !hw.pending_at(i))),
            ensures
                self.wf(),
                hw.wf(),
                crate::serial::serial_rx_bd_ok(*hw),
                hw.sof == false,
                hw.rst == false,
                fx.enter_dfu ==> !old(hw).rst && old(hw).chep@[0].vttx && (
                old(self).ep0.pending_dfu || (old(hw).chep@[0].vtrx && dfu_detach_request(
                    *old(hw),
                ))),
                fx.trigger_command ==> old(hw).chep@[3].vtrx,
                !fx.enter_dfu ==> fx.trigger_command == old(hw).chep@[3].vtrx,
                match fx.serial_out {
                    Option::Some(d) => serial_take_ready(
                        old(self).eps.ep1,
                        *old(hw),
                        consumer_ready,
                    ) && d@ == serial_rx_bytes(*old(hw)),
                    Option::None => true,
                },
                (!fx.enter_dfu && clean) ==> fx.serial_out is Some,
                fx.enter_dfu || forall|i: int| 0 <= i < 4 ==> !hw.pending_at(i),
                rstclean ==> (fx.enter_dfu == false && fx.trigger_command == false
                    && fx.serial_out is None && reinitialized(*self, *hw)),
            decreases hw.vt_count_upto(8int),
        {
            let pending = hw.ctr_pending();
            let ghost pre_self = *self;
            let ghost pre = *hw;
            proof {
                if !old(hw).rst {
                    assert forall|k: int|
                        CTRL_RX_OFFSET <= k < CTRL_RX_OFFSET + 8 implies #[trigger] pre.pma@[k]
                        == old(hw).pma@[k] by {
                        assert(hw.pma@[k] == old(hw).pma@[k]);
                    }
                }
                assert(((match fx.serial_out {
                    Option::None => true,
                    _ => false,
                }) && pre.chep@[1].vtrx && pre.chep@[1].stat_rx == STAT_NAK && bd_count_spec(
                    pre.bd@[3],
                ) > 0) ==> serial_rx_untouched(
                    old(self).eps.ep1,
                    *old(hw),
                    pre_self.eps.ep1,
                    pre,
                ));
            }
            match pending {
                None => {
                    proof {
                        assert(!hw.pending_at(0) && !hw.pending_at(1) && !hw.pending_at(2)
                            && !hw.pending_at(3));
                    }
                    break ;
                },
                Some((ep, dir_out)) => {
                    if ep >= 4 {
                        // No handler owns this endpoint; nothing below
                        // it is pending.
                        proof {
                            assert(!hw.pending_at(0) && !hw.pending_at(1) && !hw.pending_at(2)
                                && !hw.pending_at(3));
                        }
                        break ;
                    }
                    if dir_out {
                        // The transfer interrupt can outrun the final
                        // packet-memory write: hold off before touching
                        // received data.
                        Self::errata_delay();
                    }
                    if ep == 0 {
                        if dir_out {
                            self.ep0.rx_handler(hw, &mut self.eps, name);
                            proof {
                                if !old(hw).rst {
                                    assert forall|j: int|
                                        0 <= j < 8 implies #[trigger] pre.pma@.subrange(
                                        CTRL_RX_OFFSET as int,
                                        CTRL_RX_OFFSET + 8,
                                    )[j] == old(hw).pma@.subrange(
                                        CTRL_RX_OFFSET as int,
                                        CTRL_RX_OFFSET + 8,
                                    )[j] by {
                                        assert(pre.pma@[CTRL_RX_OFFSET + j] == old(
                                            hw,
                                        ).pma@[CTRL_RX_OFFSET + j]);
                                    }
                                    assert(pre.pma@.subrange(
                                        CTRL_RX_OFFSET as int,
                                        CTRL_RX_OFFSET + 8,
                                    ) =~= old(hw).pma@.subrange(
                                        CTRL_RX_OFFSET as int,
                                        CTRL_RX_OFFSET + 8,
                                    ));
                                }
                            }
                        } else {
                            let dfu = self.ep0.tx_handler(hw);
                            if dfu {
                                fx.enter_dfu = true;
                                return fx;
                            }
                        }
                    } else if ep == 1 {
                        if dir_out {
                            let out = self.eps.ep1.rx_handler(hw, consumer_ready);
                            if let Some(data) = out {
                                proof {
                                    assert(pre.chep@[1].vtrx && pre.chep@[1].stat_rx == STAT_NAK
                                        && bd_count_spec(pre.bd@[3]) > 0);
                                    assert(serial_rx_untouched(
                                        old(self).eps.ep1,
                                        *old(hw),
                                        pre_self.eps.ep1,
                                        pre,
                                    ));
                                    let off = bd_offset_spec(old(hw).bd@[3]) as int;
                                    let cnt = bd_count_spec(old(hw).bd@[3]) as int;
                                    assert forall|j: int| 0 <= j < cnt implies data@[j]
                                        == serial_rx_bytes(*old(hw))[j] by {
                                        assert(pre.pma@[off + j] == old(hw).pma@[off + j]);
                                    }
                                    assert(data@ =~= serial_rx_bytes(*old(hw)));
                                }
                                fx.serial_out = Some(data);
                            }
                        } else {
                            self.eps.ep1.tx_handler(hw);
                        }
                    } else if ep == 2 {
                        if dir_out {
                            // The notification endpoint has no receive
                            // side; acknowledge the spurious event.
                            let w = ChepWrite::endpoint(
                                2,
                                crate::regs::UTYPE_INTERRUPT,
                                false,
                            ).clear_vtrx();
                            hw.chep_write(2, w);
                        } else {
                            self.eps.ep2.tx_handler(hw);
                        }
                    } else {
                        if dir_out {
                            let trigger = self.eps.ep3.rx_handler(hw);
                            if trigger {
                                fx.trigger_command = true;
                            }
                        } else {
                            self.eps.ep3.tx_handler(hw);
                        }
                    }
                    proof {
                        if dir_out {
                            assert(pre.chep@[ep as int].vtrx && !hw.chep@[ep as int].vtrx);
                        } else {
                            assert(pre.chep@[ep as int].vttx && !hw.chep@[ep as int].vttx);
                        }
                        hw.lemma_vt_count_drop(pre, ep as int, 8int);
                        hw.lemma_vt_count_nonneg(8int);
                    }
                },
            }
        }
        fx
    }
}

} // verus!
