//! The control-transfer state machine for endpoint 0: SETUP decoding,
//! request dispatch, multi-packet IN staging with short/zero-length
//! termination, deferred address assignment, and STALL on malformed
//! requests.

use vstd::prelude::*;

use crate::descriptor::{INTF_DFU, config0_bytes, config0_bytes_spec, device_descriptor_bytes,
    device_descriptor_bytes_spec};
use crate::engine::DataEndPoints;
use crate::hw::{NUM_BD, NUM_CHEP, UsbHw};
use crate::pma::{
    CTRL_RX_OFFSET, CTRL_TX_OFFSET, PMA_SIZE, bd_count_spec, bd_offset_spec, chep_bd_len,
    chep_bd_tx,
};
use crate::regs::{ChepWrite, STAT_NAK, STAT_STALL, STAT_VALID, UTYPE_CONTROL};
use crate::strings::NUM_STRINGS;
use crate::types::{LineCoding, SetupHeader, SetupResult};

verus! {

broadcast use crate::regs::lemma_xor_zero;

/// The smaller of two values.
pub open spec fn min2(a: int, b: int) -> int {
    if a <= b {
        a
    } else {
        b
    }
}

/// What the request dispatch answers, at the specification level.
pub enum SetupReply {
    /// Respond with these bytes (empty: a bare zero-length acknowledge).
    Send(Seq<u8>),
    /// Expect this many bytes of OUT data.
    Receive(int),
    /// Unknown or malformed: stall.
    Reject,
}

/// The response the request table gives for a setup header, as a pure
/// function of the header, the stored line-coding rate, the device-name
/// string and the received packet length.
pub open spec fn setup_reply_spec(h: SetupHeader, baud: u32, name: Seq<u16>, rx_len: int)
    -> SetupReply {
    if rx_len < 8 {
        SetupReply::Reject
    } else if h.request_type == 0x80 && h.request == 0x00 {
        SetupReply::Send(seq![0u8, 0u8])
    } else if h.request_type == 0x21 && h.request == 0x00 {
        SetupReply::Send(Seq::empty())
    } else if h.request_type == 0x00 && h.request == 0x05 {
        SetupReply::Send(Seq::empty())
    } else if h.request_type == 0x80 && h.request == 0x06 {
        if h.value_hi == 1 {
            SetupReply::Send(device_descriptor_bytes_spec())
        } else if h.value_hi == 2 {
            SetupReply::Send(config0_bytes_spec())
        } else if h.value_hi == 3 {
            if (h.value_lo as int) < NUM_STRINGS {
                SetupReply::Send(crate::strings::string_descriptor_spec(h.value_lo as int))
            } else if h.value_lo as int == NUM_STRINGS {
                SetupReply::Send(
                    {
                        let bl = (name[0] & 0xff) as int;
                        let all = crate::strings::units_bytes_spec(name);
                        all.take(
                            if bl <= all.len() {
                                bl
                            } else {
                                all.len() as int
                            },
                        )
                    },
                )
            } else {
                SetupReply::Reject
            }
        } else {
            SetupReply::Reject
        }
    } else if h.request_type == 0x00 && h.request == 0x09 {
        if h.value_lo <= 1 {
            SetupReply::Send(Seq::empty())
        } else {
            SetupReply::Reject
        }
    } else if h.request_type == 0x01 && h.request == 0x0b {
        SetupReply::Send(Seq::empty())
    } else if h.request_type == 0xa1 && h.request == 0x03 {
        if h.index == INTF_DFU as u16 {
            SetupReply::Send(seq![0u8, 100, 0, 0, 0, 0])
        } else {
            SetupReply::Reject
        }
    } else if h.request_type == 0x21 && h.request == 0x20 {
        SetupReply::Receive(7)
    } else if h.request_type == 0xa1 && h.request == 0x21 {
        SetupReply::Send(
            (LineCoding { dte_rate: baud, char_format: 0, parity_type: 0, data_bits: 8 }).bytes_spec(),
        )
    } else if h.request_type == 0x21 && h.request == 0x22 {
        SetupReply::Send(Seq::empty())
    } else {
        SetupReply::Reject
    }
}

/// What remains to transmit after one packet of `data` goes out: the
/// tail beyond 64 bytes; or, for an exact 64-byte remainder of a
/// response shorter than the host asked, an empty continuation standing
/// for the terminating zero-length packet.
pub open spec fn tx_continuation(data: Seq<u8>, setup_short: bool) -> Option<Seq<u8>> {
    if data.len() > 64 {
        Option::Some(data.skip(64))
    } else if data.len() == 64 && setup_short {
        Option::Some(Seq::empty())
    } else {
        Option::None
    }
}

/// The per-device control-transfer state.
pub struct ControlState {
    /// The setup whose OUT data stage is awaited; `length` is zero when
    /// none is.
    pub setup: SetupHeader,
    /// Bytes still to transmit after the armed packet, if a data stage
    /// continues.
    pub pending_tx: Option<Vec<u8>>,
    /// The response is shorter than the host asked for, so the stage
    /// ends with a short (possibly zero-length) packet.
    pub setup_short: bool,
    /// Address received in SET_ADDRESS, applied only when the status
    /// stage completes.
    pub pending_address: Option<u8>,
    /// SET_CONFIGURATION has armed the data endpoints.
    pub configured: bool,
    /// A firmware-update detach is pending, applied after the status
    /// stage completes.
    pub pending_dfu: bool,
}

impl ControlState {
    pub open spec fn reset_spec() -> ControlState {
        ControlState {
            setup: SetupHeader::empty_spec(),
            pending_tx: Option::None,
            setup_short: false,
            pending_address: Option::None,
            configured: false,
            pending_dfu: false,
        }
    }

    pub fn reset() -> (r: ControlState)
        ensures
            r == ControlState::reset_spec(),
    {
        ControlState {
            setup: SetupHeader::empty(),
            pending_tx: None,
            setup_short: false,
            pending_address: None,
            configured: false,
            pending_dfu: false,
        }
    }

    /// A bus reset discards all control-transfer state.
    pub fn usb_initialize(&mut self)
        ensures
            *final(self) == ControlState::reset_spec(),
    {
        *self = ControlState::reset();
    }

    /// Copy the next packet of `data` into the transmit buffer, set the
    /// descriptor, and record what remains.  A zero-length `data` arms a
    /// zero-length packet: the acknowledge.
    pub fn setup_next_data(&mut self, hw: &mut UsbHw, data: &Vec<u8>)
        requires
            old(hw).wf(),
        ensures
            final(hw).wf(),
            final(self).setup == old(self).setup,
            final(self).setup_short == old(self).setup_short,
            final(self).pending_address == old(self).pending_address,
            final(self).configured == old(self).configured,
            final(self).pending_dfu == old(self).pending_dfu,
            match final(self).pending_tx {
                Option::Some(rest) => tx_continuation(data@, old(self).setup_short)
                    == Option::Some(rest@),
                Option::None => tx_continuation(data@, old(self).setup_short) is None,
            },
            bd_offset_spec(final(hw).bd@[0]) == CTRL_TX_OFFSET,
            bd_count_spec(final(hw).bd@[0]) == min2(64, data@.len() as int),
            final(hw).pma@.subrange(
                CTRL_TX_OFFSET as int,
                CTRL_TX_OFFSET + min2(64, data@.len() as int),
            ) == data@.take(min2(64, data@.len() as int)),
            forall|k: int|
                0 <= k < PMA_SIZE && !(CTRL_TX_OFFSET <= k < CTRL_TX_OFFSET + 64)
                    ==> #[trigger] final(hw).pma@[k] == old(hw).pma@[k],
            final(hw).chep == old(hw).chep,
            forall|i: int| 0 <= i < NUM_BD && i != 0 ==> final(hw).bd@[i] == old(hw).bd@[i],
            final(hw).sof == old(hw).sof,
            final(hw).rst == old(hw).rst,
            final(hw).daddr == old(hw).daddr,
            final(hw).ef == old(hw).ef,
    {
        let n = data.len();
        let is_short = n < 64;
        let len: usize = if is_short {
            n
        } else {
            64
        };
        let mut chunk: Vec<u8> = Vec::new();
        let mut k: usize = 0;
        while k < len
            invariant
                k <= len,
                len <= data@.len(),
                chunk@ == data@.take(k as int),
            decreases len - k,
        {
            chunk.push(data[k]);
            proof {
                assert(chunk@ =~= data@.take(k + 1));
            }
            k = k + 1;
        }
        hw.pma_write(CTRL_TX_OFFSET, chunk.as_slice());
        if len != n || (!is_short && self.setup_short) {
            let mut rest: Vec<u8> = Vec::new();
            let mut k: usize = len;
            while k < n
                invariant
                    len <= k <= n,
                    n == data@.len(),
                    rest@ == data@.subrange(len as int, k as int),
                decreases n - k,
            {
                rest.push(data[k]);
                proof {
                    assert(rest@ =~= data@.subrange(len as int, k + 1));
                }
                k = k + 1;
            }
            proof {
                if n > 64 {
                    assert(rest@ =~= data@.skip(64));
                } else {
                    assert(rest@ =~= Seq::<u8>::empty());
                }
            }
            self.pending_tx = Some(rest);
        } else {
            self.pending_tx = None;
        }
        let v = chep_bd_tx(CTRL_TX_OFFSET, len);
        hw.bd_write(0, v);
        proof {
            assert forall|k: int| 0 <= k < len implies hw.pma@.subrange(
                CTRL_TX_OFFSET as int,
                CTRL_TX_OFFSET + len as int,
            )[k] == data@.take(len as int)[k] by {
                assert(hw.pma@[CTRL_TX_OFFSET + k] == chunk@[k]);
            }
            assert(hw.pma@.subrange(CTRL_TX_OFFSET as int, CTRL_TX_OFFSET + len as int)
                =~= data@.take(len as int));
        }
    }

    /// Start the IN data stage for a just-dispatched setup: truncate the
    /// response to what the host asked for, arm the first packet, and
    /// note whether the stage must end short.
    pub fn setup_send_data(&mut self, hw: &mut UsbHw, setup: &SetupHeader, data: &Vec<u8>)
        requires
            old(hw).wf(),
        ensures
            final(hw).wf(),
            final(self).setup == old(self).setup,
            final(self).setup_short == (data@.len() < setup.length),
            final(self).pending_address == old(self).pending_address,
            final(self).configured == old(self).configured,
            final(self).pending_dfu == old(self).pending_dfu,
            ({
                let resp = data@.take(min2(data@.len() as int, setup.length as int));
                let chunk = min2(64, resp.len() as int);
                &&& match final(self).pending_tx {
                    Option::Some(rest) => tx_continuation(resp, data@.len() < setup.length)
                        == Option::Some(rest@),
                    Option::None => tx_continuation(resp, data@.len() < setup.length) is None,
                }
                &&& bd_offset_spec(final(hw).bd@[0]) == CTRL_TX_OFFSET
                &&& bd_count_spec(final(hw).bd@[0]) == chunk
                &&& final(hw).pma@.subrange(CTRL_TX_OFFSET as int, CTRL_TX_OFFSET + chunk)
                    == resp.take(chunk)
            }),
            final(hw).chep@[0].stat_tx == STAT_VALID,
            final(hw).chep@[0].stat_rx == old(hw).chep@[0].stat_rx,
            final(hw).chep@[0].vtrx == false,
            final(hw).chep@[0].vttx == old(hw).chep@[0].vttx,
            final(hw).chep@[0].dtog_rx == old(hw).chep@[0].dtog_rx,
            final(hw).chep@[0].dtog_tx == old(hw).chep@[0].dtog_tx,
            final(hw).chep@[0].setup == old(hw).chep@[0].setup,
            forall|i: int| 0 <= i < NUM_CHEP && i != 0 ==> final(hw).chep@[i] == old(hw).chep@[i],
            forall|i: int| 0 <= i < NUM_BD && i != 0 ==> final(hw).bd@[i] == old(hw).bd@[i],
            forall|k: int|
                0 <= k < PMA_SIZE && !(CTRL_TX_OFFSET <= k < CTRL_TX_OFFSET + 64)
                    ==> #[trigger] final(hw).pma@[k] == old(hw).pma@[k],
            final(hw).sof == old(hw).sof,
            final(hw).rst == old(hw).rst,
            final(hw).daddr == old(hw).daddr,
            final(hw).ef == old(hw).ef,
    {
        let n = data.len();
        self.setup_short = n < setup.length as usize;
        let len: usize = if self.setup_short {
            n
        } else {
            setup.length as usize
        };
        let mut resp: Vec<u8> = Vec::new();
        let mut k: usize = 0;
        while k < len
            invariant
                k <= len,
                len <= data@.len(),
                resp@ == data@.take(k as int),
            decreases len - k,
        {
            resp.push(data[k]);
            proof {
                assert(resp@ =~= data@.take(k + 1));
            }
            k = k + 1;
        }
        proof {
            assert(resp@ =~= data@.take(min2(data@.len() as int, setup.length as int)));
            assert(resp@.take(min2(64, resp@.len() as int)) =~= data@.take(
                min2(data@.len() as int, setup.length as int),
            ).take(min2(64, resp@.len() as int)));
        }
        self.setup_next_data(hw, &resp);
        let chep = hw.chep_read(0);
        let w = ChepWrite::endpoint(0, UTYPE_CONTROL, false).clear_vtrx().tx_valid(&chep);
        hw.chep_write(0, w);
    }

    /// Record the address for SET_ADDRESS: it must not take effect until
    /// the host has seen the acknowledge.
    pub fn set_address(&mut self, address: u8) -> (r: SetupResult)
        ensures
            *final(self) == (ControlState { pending_address: Option::Some(address), ..*old(self) }),
            r is NoData,
    {
        self.pending_address = Some(address);
        SetupResult::NoData
    }

    /// Apply a pending address to the device address register.
    fn do_set_address(hw: &mut UsbHw, address: u8)
        requires
            old(hw).wf(),
        ensures
            final(hw).wf(),
            final(hw).daddr == address % 128,
            final(hw).ef == true,
            final(hw).chep == old(hw).chep,
            final(hw).bd == old(hw).bd,
            final(hw).pma == old(hw).pma,
            final(hw).sof == old(hw).sof,
            final(hw).rst == old(hw).rst,
    {
        hw.daddr_write(address % 128, true);
    }

    /// Handle SET_CONFIGURATION: configuration 1 arms the data
    /// endpoints; configuration 0 is acknowledged and ignored; anything
    /// else is rejected.
    pub fn set_configuration(&mut self, hw: &mut UsbHw, eps: &mut DataEndPoints, config: u8) -> (r:
        SetupResult)
        requires
            old(hw).wf(),
            old(eps).ep1.wf(),
        ensures
            final(hw).wf(),
            final(eps).ep1.wf(),
            config == 0 ==> r is NoData && *final(self) == *old(self) && *final(hw) == *old(hw)
                && *final(eps) == *old(eps),
            config > 1 ==> r is Error && *final(self) == *old(self) && *final(hw) == *old(hw)
                && *final(eps) == *old(eps),
            config == 1 ==> {
                &&& r is NoData
                &&& *final(self) == (ControlState { configured: true, ..*old(self) })
                &&& final(eps).ep1 == (crate::serial::FreakUSBSerial {
                    fake_baud: old(eps).ep1.fake_baud,
                    ..crate::serial::FreakUSBSerial::reset_spec()
                })
                &&& final(hw).chep@[1].stat_rx == STAT_VALID
                &&& final(hw).chep@[1].stat_tx == STAT_NAK
                &&& final(hw).chep@[1].dtog_rx == false
                &&& final(hw).chep@[1].dtog_tx == false
                &&& final(hw).chep@[2].stat_tx == STAT_NAK
                &&& final(hw).chep@[2].dtog_tx == false
                &&& final(hw).chep@[3].stat_rx == STAT_VALID
                &&& final(hw).chep@[3].stat_tx == STAT_NAK
                &&& final(hw).chep@[3].dtog_rx == false
                &&& final(hw).chep@[3].dtog_tx == false
                &&& forall|i: int|
                    1 <= i < 4 ==> final(hw).chep@[i].vtrx == old(hw).chep@[i].vtrx && final(hw).chep@[i].vttx == old(hw).chep@[i].vttx
                &&& crate::serial::serial_rx_bd_ok(*final(hw))
                &&& bd_count_spec(final(hw).bd@[3]) == 0
                &&& final(hw).chep@[0] == old(hw).chep@[0]
                &&& forall|i: int|
                    4 <= i < NUM_CHEP ==> final(hw).chep@[i] == old(hw).chep@[i]
                &&& forall|i: int|
                    0 <= i < NUM_BD && i != 3 && i != 7 ==> final(hw).bd@[i] == old(hw).bd@[i]
                &&& final(hw).pma == old(hw).pma
                &&& final(hw).daddr == old(hw).daddr
                &&& final(hw).ef == old(hw).ef
                &&& final(hw).sof == old(hw).sof
                &&& final(hw).rst == old(hw).rst
            },
    {
        if config == 0 {
            SetupResult::NoData
        } else if config != 1 {
            SetupResult::Error
        } else {
            eps.ep1.initialize(hw);
            eps.ep2.initialize(hw);
            eps.ep3.initialize(hw);
            self.configured = true;
            SetupResult::NoData
        }
    }
}

impl ControlState {
    /// A transmit on endpoint 0 completed.  A pending continuation sends
    /// its next packet; otherwise this was the status stage: re-arm for
    /// receive and apply any deferred address — or report that the
    /// deferred firmware-update detach is now due.
    pub fn tx_handler(&mut self, hw: &mut UsbHw) -> (dfu: bool)
        requires
            old(hw).wf(),
        ensures
            final(hw).wf(),
            !old(hw).chep@[0].vttx ==> *final(self) == *old(self) && *final(hw) == *old(hw)
                && dfu == false,
            (old(hw).chep@[0].vttx && old(self).pending_tx is Some) ==> ({
                let rem = old(self).pending_tx->0@;
                let chunk = min2(64, rem.len() as int);
                &&& dfu == false
                &&& final(self).setup == old(self).setup
                &&& final(self).setup_short == old(self).setup_short
                &&& final(self).pending_address == old(self).pending_address
                &&& final(self).configured == old(self).configured
                &&& final(self).pending_dfu == old(self).pending_dfu
                &&& match final(self).pending_tx {
                    Option::Some(rest) => tx_continuation(rem, old(self).setup_short)
                        == Option::Some(rest@),
                    Option::None => tx_continuation(rem, old(self).setup_short) is None,
                }
                &&& bd_offset_spec(final(hw).bd@[0]) == CTRL_TX_OFFSET
                &&& bd_count_spec(final(hw).bd@[0]) == chunk
                &&& final(hw).pma@.subrange(CTRL_TX_OFFSET as int, CTRL_TX_OFFSET + chunk)
                    == rem.take(chunk)
                &&& final(hw).chep@[0].stat_tx == STAT_VALID
                &&& final(hw).chep@[0].vttx == false
                &&& final(hw).chep@[0].stat_rx == old(hw).chep@[0].stat_rx
                &&& final(hw).chep@[0].vtrx == old(hw).chep@[0].vtrx
                &&& final(hw).chep@[0].dtog_rx == old(hw).chep@[0].dtog_rx
                &&& final(hw).daddr == old(hw).daddr
                &&& final(hw).ef == old(hw).ef
            }),
            (old(hw).chep@[0].vttx && old(self).pending_tx is None && old(self).pending_dfu)
                ==> dfu == true && *final(self) == *old(self) && *final(hw) == *old(hw),
            (old(hw).chep@[0].vttx && old(self).pending_tx is None && !old(self).pending_dfu)
                ==> ({
                &&& dfu == false
                &&& *final(self) == (ControlState { pending_address: Option::None, ..*old(self) })
                &&& final(hw).chep@[0].vttx == false
                &&& final(hw).chep@[0].stat_rx == STAT_VALID
                &&& final(hw).chep@[0].dtog_rx == false
                &&& final(hw).chep@[0].stat_tx == old(hw).chep@[0].stat_tx
                &&& final(hw).chep@[0].vtrx == old(hw).chep@[0].vtrx
                &&& final(hw).daddr == (match old(self).pending_address {
                    Option::Some(a) => (a % 128) as u8,
                    Option::None => old(hw).daddr,
                })
                &&& final(hw).ef == (match old(self).pending_address {
                    Option::Some(_) => true,
                    Option::None => old(hw).ef,
                })
                &&& final(hw).bd == old(hw).bd
                &&& final(hw).pma == old(hw).pma
            }),
            final(hw).chep@[0].setup == old(hw).chep@[0].setup,
            forall|i: int| 0 <= i < NUM_CHEP && i != 0 ==> final(hw).chep@[i] == old(hw).chep@[i],
            forall|i: int| 0 <= i < NUM_BD && i != 0 ==> final(hw).bd@[i] == old(hw).bd@[i],
            forall|k: int|
                0 <= k < PMA_SIZE && !(CTRL_TX_OFFSET <= k < CTRL_TX_OFFSET + 64)
                    ==> #[trigger] final(hw).pma@[k] == old(hw).pma@[k],
            final(hw).sof == old(hw).sof,
            final(hw).rst == old(hw).rst,
    {
        let chep = hw.chep_read(0);
        if !chep.vttx {
            return false;
        }
        let pt = self.pending_tx.take();
        if let Some(data) = pt {
            self.setup_next_data(hw, &data);
            let w = ChepWrite::endpoint(0, UTYPE_CONTROL, false).clear_vttx().tx_valid(&chep);
            hw.chep_write(0, w);
            return false;
        }
        if self.pending_dfu {
            // The host has acknowledged the detach: the caller reboots
            // into the loader; nothing further may touch the bus.
            return true;
        }
        let w = ChepWrite::endpoint(0, UTYPE_CONTROL, false).clear_vttx().rx_valid(&chep).dtogrx(
            &chep,
            false,
        );
        hw.chep_write(0, w);
        if let Some(address) = self.pending_address {
            Self::do_set_address(hw, address);
            self.pending_address = None;
        }
        false
    }

    /// Consume the OUT data stage of the awaited setup.  Only
    /// SET_LINE_CODING expects one; anything else means the data was not
    /// asked for.
    pub fn setup_rx_data(&mut self, hw: &UsbHw, eps: &mut DataEndPoints) -> (ok: bool)
        requires
            hw.wf(),
            old(eps).ep1.wf(),
        ensures
            final(eps).ep1.wf(),
            *final(self) == *old(self),
            ok == (old(self).setup.request_type == 0x21 && old(self).setup.request == 0x20),
            ok ==> final(eps).ep1 == (crate::serial::FreakUSBSerial {
                fake_baud: LineCoding::from_bytes_spec(
                    hw.pma@.subrange(CTRL_RX_OFFSET as int, CTRL_RX_OFFSET + 7),
                ).dte_rate,
                ..old(eps).ep1
            }),
            !ok ==> *final(eps) == *old(eps),
    {
        if self.setup.request_type == 0x21 && self.setup.request == 0x20 {
            eps.ep1.set_line_coding(hw)
        } else {
            false
        }
    }

    /// Dispatch a just-received setup header to the request table.  Any
    /// partially-completed prior business — a pending address, a transmit
    /// cursor — is discarded first: a fresh setup always wins.
    pub fn setup_rx_handler(
        &mut self,
        hw: &mut UsbHw,
        eps: &mut DataEndPoints,
        name: &[u16],
        setup: &SetupHeader,
        rx_len: u32,
    ) -> (r: SetupResult)
        requires
            old(hw).wf(),
            old(eps).ep1.wf(),
            name@.len() > 0,
        ensures
            final(hw).wf(),
            final(eps).ep1.wf(),
            final(self).setup == SetupHeader::empty_spec(),
            final(self).pending_tx is None,
            final(self).setup_short == old(self).setup_short,
            final(self).pending_dfu == (old(self).pending_dfu || (rx_len >= 8
                && setup.request_type == 0x21 && setup.request == 0x00)),
            final(self).pending_address == (if rx_len >= 8 && setup.request_type == 0x00
                && setup.request == 0x05 {
                Option::Some(setup.value_lo)
            } else {
                Option::None
            }),
            final(self).configured == (old(self).configured || (rx_len >= 8 && setup.request_type
                == 0x00 && setup.request == 0x09 && setup.value_lo == 1)),
            match setup_reply_spec(*setup, old(eps).ep1.fake_baud, name@, rx_len as int) {
                SetupReply::Send(d) => match r {
                    SetupResult::SendData(v) => v@ == d,
                    SetupResult::NoData => d.len() == 0,
                    _ => false,
                },
                SetupReply::Receive(n) => match r {
                    SetupResult::ReceiveData(m) => m == n,
                    _ => false,
                },
                SetupReply::Reject => r is Error,
            },
            final(eps).ep1.fake_baud == old(eps).ep1.fake_baud,
            final(hw).chep@[0] == old(hw).chep@[0],
            forall|i: int| 4 <= i < NUM_CHEP ==> final(hw).chep@[i] == old(hw).chep@[i],
            forall|i: int|
                1 <= i < 4 ==> final(hw).chep@[i].vtrx == old(hw).chep@[i].vtrx && final(hw).chep@[i].vttx == old(hw).chep@[i].vttx,
            final(hw).daddr == old(hw).daddr,
            final(hw).ef == old(hw).ef,
            final(hw).sof == old(hw).sof,
            final(hw).rst == old(hw).rst,
            ({
                let cfg1 = rx_len >= 8 && setup.request_type == 0x00 && setup.request == 0x09
                    && setup.value_lo == 1;
                let lstate = rx_len >= 8 && setup.request_type == 0x21 && setup.request == 0x22;
                &&& (!cfg1 && !lstate) ==> *final(hw) == *old(hw) && final(eps).ep1 == old(
                    eps,
                ).ep1
                &&& cfg1 ==> {
                    &&& final(eps).ep1 == (crate::serial::FreakUSBSerial {
                        fake_baud: old(eps).ep1.fake_baud,
                        ..crate::serial::FreakUSBSerial::reset_spec()
                    })
                    &&& final(hw).chep@[1].stat_rx == STAT_VALID
                    &&& final(hw).chep@[1].stat_tx == STAT_NAK
                    &&& bd_count_spec(final(hw).bd@[3]) == 0
                    &&& final(hw).chep@[3].stat_rx == STAT_VALID
                    &&& final(hw).chep@[3].stat_tx == STAT_NAK
                    &&& crate::serial::serial_rx_bd_ok(*final(hw))
                    &&& final(hw).pma == old(hw).pma
                    &&& forall|i: int|
                        0 <= i < NUM_BD && i != 3 && i != 7 ==> final(hw).bd@[i] == old(
                            hw,
                        ).bd@[i]
                }
                &&& lstate ==> {
                    &&& final(eps).ep1 == old(eps).ep1
                    &&& final(hw).chep@[2].stat_tx == STAT_VALID
                    &&& forall|i: int|
                        0 <= i < NUM_CHEP && i != 2 ==> final(hw).chep@[i] == old(hw).chep@[i]
                    &&& forall|i: int|
                        0 <= i < NUM_BD && i != 4 ==> final(hw).bd@[i] == old(hw).bd@[i]
                    &&& forall|k: int|
                        0 <= k < PMA_SIZE && !(crate::pma::INTR_TX_OFFSET <= k
                            < crate::pma::INTR_TX_OFFSET + 12) ==> #[trigger] final(hw).pma@[k]
                            == old(hw).pma@[k]
                }
            }),
    {
        self.pending_address = None;
        self.pending_tx = None;
        self.setup = SetupHeader::empty();
        if rx_len < 8 {
            return SetupResult::Error;
        }
        match (setup.request_type, setup.request) {
            (0x80, 0x00) => {
                let mut status: Vec<u8> = Vec::new();
                status.push(0);
                status.push(0);
                proof {
                    assert(status@ =~= seq![0u8, 0u8]);
                }
                SetupResult::SendData(status)
            },
            (0x21, 0x00) => {
                self.pending_dfu = true;
                SetupResult::NoData
            },
            (0x00, 0x05) => self.set_address(setup.value_lo),
            (0x80, 0x06) => match setup.value_hi {
                1 => SetupResult::SendData(device_descriptor_bytes()),
                2 => SetupResult::SendData(config0_bytes()),
                3 => crate::strings::get_descriptor(setup.value_lo, name),
                _ => SetupResult::Error,
            },
            (0x00, 0x09) => self.set_configuration(hw, eps, setup.value_lo),
            (0x01, 0x0b) => SetupResult::NoData,
            (0xa1, 0x03) => {
                if setup.index == INTF_DFU as u16 {
                    let mut st: Vec<u8> = Vec::new();
                    st.push(0);
                    st.push(100);
                    st.push(0);
                    st.push(0);
                    st.push(0);
                    st.push(0);
                    proof {
                        assert(st@ =~= seq![0u8, 100, 0, 0, 0, 0]);
                    }
                    SetupResult::SendData(st)
                } else {
                    SetupResult::Error
                }
            },
            (0x21, 0x20) => SetupResult::ReceiveData(7),
            (0xa1, 0x21) => eps.ep1.get_line_coding(),
            (0x21, 0x22) => crate::serial::set_control_line_state(hw, setup.value_lo),
            _ => SetupResult::Error,
        }
    }
}

impl ControlState {
    /// A receive completed on endpoint 0.  A SETUP token is parsed and
    /// dispatched, and the stage it opens is armed: an IN data stage for
    /// a response, an OUT packet for expected data, or a STALL on both
    /// directions for a rejected request.  A non-SETUP receive either
    /// carries the awaited OUT data or acknowledges our data; either way
    /// the endpoint is re-armed.
    pub fn rx_handler(&mut self, hw: &mut UsbHw, eps: &mut DataEndPoints, name: &[u16])
        requires
            old(hw).wf(),
            old(eps).ep1.wf(),
            name@.len() > 0,
        ensures
            final(hw).wf(),
            final(eps).ep1.wf(),
            final(hw).sof == old(hw).sof,
            final(hw).rst == old(hw).rst,
            final(hw).daddr == old(hw).daddr,
            forall|i: int| 4 <= i < NUM_CHEP ==> final(hw).chep@[i] == old(hw).chep@[i],
            forall|i: int|
                1 <= i < 4 ==> final(hw).chep@[i].vtrx == old(hw).chep@[i].vtrx && final(hw).chep@[i].vttx == old(hw).chep@[i].vttx,
            crate::serial::serial_rx_bd_ok(*old(hw)) ==> crate::serial::serial_rx_bd_ok(
                *final(hw),
            ),
            final(hw).ef == old(hw).ef,
            forall|i: int|
                0 <= i < NUM_BD && i != 0 && i != 3 && i != 4 && i != 7 ==> final(hw).bd@[i]
                    == old(hw).bd@[i],
            forall|k: int|
                0 <= k < PMA_SIZE && !(CTRL_TX_OFFSET <= k < CTRL_TX_OFFSET + 64) && !(
                crate::pma::INTR_TX_OFFSET <= k < crate::pma::INTR_TX_OFFSET + 12)
                    ==> #[trigger] final(hw).pma@[k] == old(hw).pma@[k],
            old(hw).chep@[0].vtrx ==> final(hw).chep@[0].vtrx == false,
            final(hw).chep@[0].vttx == old(hw).chep@[0].vttx,
            final(hw).chep@[0].setup == old(hw).chep@[0].setup,
            !old(hw).chep@[0].vtrx ==> *final(self) == *old(self) && *final(hw) == *old(hw)
                && *final(eps) == *old(eps),
            (old(hw).chep@[0].vtrx && !old(hw).chep@[0].setup && old(self).setup.length == 0)
                ==> {
                &&& *final(self) == (ControlState { pending_tx: Option::None, ..*old(self) })
                &&& final(hw).chep@[0].stat_rx == STAT_VALID
                &&& final(hw).chep@[0].stat_tx == STAT_NAK
                &&& final(hw).chep@[0].dtog_rx == old(hw).chep@[0].dtog_rx
                &&& final(hw).bd == old(hw).bd
                &&& final(hw).pma == old(hw).pma
                &&& *final(eps) == *old(eps)
                &&& forall|i: int|
                    0 <= i < NUM_CHEP && i != 0 ==> final(hw).chep@[i] == old(hw).chep@[i]
            },
            (old(hw).chep@[0].vtrx && !old(hw).chep@[0].setup && old(self).setup.length != 0)
                ==> ({
                let ok = old(self).setup.request_type == 0x21 && old(self).setup.request == 0x20;
                &&& *final(self) == (ControlState {
                    setup: SetupHeader::empty_spec(),
                    ..*old(self)
                })
                &&& ok ==> final(eps).ep1 == (crate::serial::FreakUSBSerial {
                    fake_baud: LineCoding::from_bytes_spec(
                        old(hw).pma@.subrange(CTRL_RX_OFFSET as int, CTRL_RX_OFFSET + 7),
                    ).dte_rate,
                    ..old(eps).ep1
                })
                &&& !ok ==> *final(eps) == *old(eps)
                &&& bd_offset_spec(final(hw).bd@[0]) == CTRL_TX_OFFSET
                &&& bd_count_spec(final(hw).bd@[0]) == 0
                &&& final(hw).chep@[0].stat_tx == (if ok {
                    STAT_VALID
                } else {
                    STAT_STALL
                })
                &&& final(hw).chep@[0].stat_rx == STAT_VALID
                &&& final(hw).pma == old(hw).pma
                &&& forall|i: int|
                    0 <= i < NUM_CHEP && i != 0 ==> final(hw).chep@[i] == old(hw).chep@[i]
                &&& forall|i: int|
                    0 <= i < NUM_BD && i != 0 ==> final(hw).bd@[i] == old(hw).bd@[i]
            }),
            (old(hw).chep@[0].vtrx && old(hw).chep@[0].setup) ==> ({
                let h = SetupHeader::from_bytes_spec(
                    old(hw).pma@.subrange(CTRL_RX_OFFSET as int, CTRL_RX_OFFSET + 8),
                );
                let reply = setup_reply_spec(
                    h,
                    old(eps).ep1.fake_baud,
                    name@,
                    bd_count_spec(old(hw).bd@[1]) as int,
                );
                let cfg1 = bd_count_spec(old(hw).bd@[1]) >= 8 && h.request_type == 0x00
                    && h.request == 0x09 && h.value_lo == 1;
                &&& !cfg1 ==> final(hw).chep@[1] == old(hw).chep@[1] && final(hw).bd@[3] == old(
                    hw,
                ).bd@[3] && final(eps).ep1 == old(eps).ep1
                &&& cfg1 ==> final(hw).chep@[1].stat_rx == STAT_VALID && bd_count_spec(
                    final(hw).bd@[3],
                ) == 0 && final(eps).ep1.rx_processing == crate::serial::RxProcessing::Idle
                &&& final(self).pending_dfu == (old(self).pending_dfu || (bd_count_spec(
                    old(hw).bd@[1],
                ) >= 8 && h.request_type == 0x21 && h.request == 0x00))
                &&& final(self).pending_address == (if bd_count_spec(old(hw).bd@[1]) >= 8
                    && h.request_type == 0x00 && h.request == 0x05 {
                    Option::Some(h.value_lo)
                } else {
                    Option::None
                })
                &&& final(self).configured == (old(self).configured || (bd_count_spec(
                    old(hw).bd@[1],
                ) >= 8 && h.request_type == 0x00 && h.request == 0x09 && h.value_lo == 1))
                &&& match reply {
                    SetupReply::Send(d) => {
                        let resp = d.take(min2(d.len() as int, h.length as int));
                        let chunk = min2(64, resp.len() as int);
                        &&& final(self).setup == SetupHeader::empty_spec()
                        &&& final(self).setup_short == (d.len() < h.length)
                        &&& match final(self).pending_tx {
                            Option::Some(rest) => tx_continuation(resp, d.len() < h.length)
                                == Option::Some(rest@),
                            Option::None => tx_continuation(resp, d.len() < h.length) is None,
                        }
                        &&& bd_offset_spec(final(hw).bd@[0]) == CTRL_TX_OFFSET
                        &&& bd_count_spec(final(hw).bd@[0]) == chunk
                        &&& final(hw).pma@.subrange(CTRL_TX_OFFSET as int, CTRL_TX_OFFSET + chunk)
                            == resp.take(chunk)
                        &&& final(hw).chep@[0].stat_tx == STAT_VALID
                    },
                    SetupReply::Receive(n) => {
                        if n == h.length && n != 0 {
                            &&& final(self).setup == h
                            &&& final(hw).chep@[0].stat_rx == STAT_VALID
                            &&& final(hw).chep@[0].dtog_rx == true
                            &&& final(hw).chep@[0].stat_tx == old(hw).chep@[0].stat_tx
                        } else {
                            &&& final(hw).chep@[0].stat_rx == STAT_STALL
                            &&& final(hw).chep@[0].stat_tx == STAT_STALL
                        }
                    },
                    SetupReply::Reject => {
                        &&& final(hw).chep@[0].stat_rx == STAT_STALL
                        &&& final(hw).chep@[0].stat_tx == STAT_STALL
                    },
                }
            }),
    {
        let chep = hw.chep_read(0);
        if !chep.vtrx {
            return ;
        }
        if !chep.setup {
            if self.setup.length == 0 {
                // Either an acknowledge of our data, or unexpected:
                // drop it and flush any outgoing data.
                self.pending_tx = None;
                let w = ChepWrite::endpoint(0, UTYPE_CONTROL, false).clear_vtrx().rx_valid(
                    &chep,
                ).stat_tx(&chep, STAT_NAK);
                hw.chep_write(0, w);
                return ;
            }
            let ok = self.setup_rx_data(hw, eps);
            self.setup = SetupHeader::empty();
            // Answer with a zero-length acknowledge, or an error stall.
            let v = chep_bd_tx(CTRL_TX_OFFSET, 0);
            hw.bd_write(0, v);
            let s = if ok {
                STAT_VALID
            } else {
                STAT_STALL
            };
            let w = ChepWrite::endpoint(0, UTYPE_CONTROL, false).clear_vtrx().stat_tx(
                &chep,
                s,
            ).rx_valid(&chep);
            hw.chep_write(0, w);
            return ;
        }
        // A SETUP token: the header sits at the head of the receive
        // buffer and must be read before the next one overwrites it.
        let raw = hw.pma_read(CTRL_RX_OFFSET, 8);
        let setup = SetupHeader::from_bytes(raw.as_slice());
        let bd = hw.bd_read(1);
        let rx_len = chep_bd_len(bd);
        let result = self.setup_rx_handler(hw, eps, name, &setup, rx_len);
        match result {
            SetupResult::SendData(data) => {
                self.setup_send_data(hw, &setup, &data);
            },
            SetupResult::NoData => {
                let empty: Vec<u8> = Vec::new();
                self.setup_send_data(hw, &setup, &empty);
            },
            SetupResult::ReceiveData(len) => {
                if len == setup.length as usize && len != 0 {
                    self.setup = setup;
                    let cur = hw.chep_read(0);
                    let w = ChepWrite::endpoint(0, UTYPE_CONTROL, false).clear_vtrx().rx_valid(
                        &cur,
                    ).dtogrx(&cur, true);
                    hw.chep_write(0, w);
                } else {
                    let cur = hw.chep_read(0);
                    let w = ChepWrite::endpoint(0, UTYPE_CONTROL, false).clear_vtrx().stat_rx(
                        &cur,
                        STAT_STALL,
                    ).stat_tx(&cur, STAT_STALL);
                    hw.chep_write(0, w);
                }
            },
            SetupResult::Error => {
                let cur = hw.chep_read(0);
                let w = ChepWrite::endpoint(0, UTYPE_CONTROL, false).clear_vtrx().stat_rx(
                    &cur,
                    STAT_STALL,
                ).stat_tx(&cur, STAT_STALL);
                hw.chep_write(0, w);
            },
        }
    }
}

/// Asking for the device descriptor always returns byte-identical data,
/// whatever else the device has been through in between — in particular
/// before and after an address assignment, a configuration, or a
/// line-coding change.
pub proof fn lemma_device_descriptor_idempotent(
    h: SetupHeader,
    baud1: u32,
    baud2: u32,
    name1: Seq<u16>,
    name2: Seq<u16>,
    rx1: int,
    rx2: int,
)
    requires
        h.request_type == 0x80,
        h.request == 0x06,
        h.value_hi == 1,
        rx1 >= 8,
        rx2 >= 8,
    ensures
        setup_reply_spec(h, baud1, name1, rx1) == setup_reply_spec(h, baud2, name2, rx2),
        setup_reply_spec(h, baud1, name1, rx1) == SetupReply::Send(device_descriptor_bytes_spec()),
{
}

} // verus!
