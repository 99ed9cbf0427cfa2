//! Endpoint register (CHEP) protocol.
//!
//! Each endpoint has one control/status register.  The type, address and
//! kind fields are plain read/write bits, but the status, data-toggle and
//! event fields follow the hardware's write-to-toggle convention: writing
//! `1` to such a bit flips it, writing `0` leaves it alone (and for the
//! event bits, writing `0` clears, writing `1` leaves alone).  Every
//! mutator here therefore takes the just-read register value and computes
//! the XOR delta that moves the field to the desired value; composing a
//! write from a stale snapshot is the race this module is built to rule
//! out.

use vstd::prelude::*;

verus! {

/// Endpoint status field value: ignore all traffic.
pub const STAT_DISABLED: u8 = 0;
/// Endpoint status field value: answer with STALL.
pub const STAT_STALL: u8 = 1;
/// Endpoint status field value: answer with NAK.
pub const STAT_NAK: u8 = 2;
/// Endpoint status field value: accept / send data.
pub const STAT_VALID: u8 = 3;

/// Endpoint type field value: bulk endpoint.
pub const UTYPE_BULK: u8 = 0;
/// Endpoint type field value: control endpoint.
pub const UTYPE_CONTROL: u8 = 1;
/// Endpoint type field value: isochronous endpoint.
pub const UTYPE_ISO: u8 = 2;
/// Endpoint type field value: interrupt endpoint.
pub const UTYPE_INTERRUPT: u8 = 3;

/// One endpoint register, split into its fields.
///
/// `ea`, `epkind` and `utype` are plain read/write.  `stat_rx`, `stat_tx`,
/// `dtog_rx` and `dtog_tx` are toggle fields.  `vtrx` and `vttx` are the
/// receive/transmit event flags, set by hardware and cleared by writing
/// `0`.  `setup` is read-only to software.
#[derive(Clone, Copy, PartialEq, Eq, Structural)]
pub struct ChepReg {
    /// Endpoint address, 4 bits.
    pub ea: u8,
    /// Transmit status, 2 bits (toggle field).
    pub stat_tx: u8,
    /// Transmit data toggle (toggle field).
    pub dtog_tx: bool,
    /// Transmit-complete event flag (write 0 to clear).
    pub vttx: bool,
    /// Endpoint kind flag.
    pub epkind: bool,
    /// Endpoint type, 2 bits.
    pub utype: u8,
    /// Last receive was a SETUP token (read-only, written by hardware).
    pub setup: bool,
    /// Receive status, 2 bits (toggle field).
    pub stat_rx: u8,
    /// Receive data toggle (toggle field).
    pub dtog_rx: bool,
    /// Receive event flag (write 0 to clear).
    pub vtrx: bool,
}

impl ChepReg {
    /// The multi-bit fields stay inside their widths.
    pub open spec fn wf(self) -> bool {
        &&& self.ea < 16
        &&& self.stat_tx < 4
        &&& self.stat_rx < 4
        &&& self.utype < 4
    }

    /// Register state after a bus reset: everything cleared.
    pub fn reset() -> (r: ChepReg)
        ensures
            r == ChepReg::reset_spec(),
    {
        ChepReg {
            ea: 0,
            stat_tx: 0,
            dtog_tx: false,
            vttx: false,
            epkind: false,
            utype: 0,
            setup: false,
            stat_rx: 0,
            dtog_rx: false,
            vtrx: false,
        }
    }

    pub open spec fn reset_spec() -> ChepReg {
        ChepReg {
            ea: 0,
            stat_tx: 0,
            dtog_tx: false,
            vttx: false,
            epkind: false,
            utype: 0,
            setup: false,
            stat_rx: 0,
            dtog_rx: false,
            vtrx: false,
        }
    }

    /// Is the transmit side sitting in NAK (idle, nothing armed)?
    pub fn tx_nakking(&self) -> (r: bool)
        ensures
            r == (self.stat_tx == STAT_NAK),
    {
        self.stat_tx == STAT_NAK
    }

    /// Is the receive side sitting in NAK?
    pub fn rx_nakking(&self) -> (r: bool)
        ensures
            r == (self.stat_rx == STAT_NAK),
    {
        self.stat_rx == STAT_NAK
    }

    /// Is the receive side disabled (endpoint never initialized, or reset)?
    pub fn rx_disabled(&self) -> (r: bool)
        ensures
            r == (self.stat_rx == STAT_DISABLED),
    {
        self.stat_rx == STAT_DISABLED
    }

    /// Is a transmit armed and not yet completed?
    pub fn tx_active(&self) -> (r: bool)
        ensures
            r == (self.stat_tx == STAT_VALID),
    {
        self.stat_tx == STAT_VALID
    }
}

/// A value to be written to an endpoint register.
///
/// For the toggle fields the stored value is the XOR *delta* that the
/// hardware will apply; for the event flags it is the keep-mask (`false`
/// clears the flag); the remaining fields are written through.
#[derive(Clone, Copy, PartialEq, Eq, Structural)]
pub struct ChepWrite {
    /// Endpoint address to write.
    pub ea: u8,
    /// XOR delta for the transmit status field.
    pub stat_tx: u8,
    /// XOR delta for the transmit data toggle.
    pub dtog_tx: bool,
    /// Keep-mask for the transmit event flag (`false` clears it).
    pub vttx: bool,
    /// Endpoint kind flag to write.
    pub epkind: bool,
    /// Endpoint type to write.
    pub utype: u8,
    /// XOR delta for the receive status field.
    pub stat_rx: u8,
    /// XOR delta for the receive data toggle.
    pub dtog_rx: bool,
    /// Keep-mask for the receive event flag (`false` clears it).
    pub vtrx: bool,
}

impl ChepWrite {
    pub open spec fn wf(self) -> bool {
        &&& self.ea < 16
        &&& self.stat_tx < 4
        &&& self.stat_rx < 4
        &&& self.utype < 4
    }
}

/// What the register holds after `w` is written over `r`: read/write
/// fields take the written value, toggle fields flip where the written
/// delta has a `1`, event flags are and-ed with the keep-mask, and the
/// SETUP flag is untouched.
pub open spec fn chep_write_spec(r: ChepReg, w: ChepWrite) -> ChepReg {
    ChepReg {
        ea: w.ea,
        stat_tx: (r.stat_tx ^ w.stat_tx) as u8,
        dtog_tx: r.dtog_tx ^ w.dtog_tx,
        vttx: r.vttx && w.vttx,
        epkind: w.epkind,
        utype: w.utype,
        setup: r.setup,
        stat_rx: (r.stat_rx ^ w.stat_rx) as u8,
        dtog_rx: r.dtog_rx ^ w.dtog_rx,
        vtrx: r.vtrx && w.vtrx,
    }
}

/// XOR with zero changes nothing; the delta builders lean on this.
pub broadcast proof fn lemma_xor_zero(a: u8)
    ensures
        #[trigger] (a ^ 0) == a,
{
    assert(a ^ 0 == a) by (bit_vector);
}

/// XOR of two 2-bit fields stays a 2-bit field.
pub proof fn lemma_xor2_bounded(a: u8, b: u8)
    requires
        a < 4,
        b < 4,
    ensures
        (a ^ b) < 4,
{
    assert(a < 4 && b < 4 ==> (a ^ b) < 4) by (bit_vector);
}

/// The register write, as the hardware performs it.
pub fn chep_write_apply(r: &ChepReg, w: &ChepWrite) -> (n: ChepReg)
    requires
        r.wf(),
        w.wf(),
    ensures
        n == chep_write_spec(*r, *w),
        n.wf(),
{
    proof {
        lemma_xor2_bounded(r.stat_tx, w.stat_tx);
        lemma_xor2_bounded(r.stat_rx, w.stat_rx);
    }
    ChepReg {
        ea: w.ea,
        stat_tx: r.stat_tx ^ w.stat_tx,
        dtog_tx: r.dtog_tx ^ w.dtog_tx,
        vttx: r.vttx && w.vttx,
        epkind: w.epkind,
        utype: w.utype,
        setup: r.setup,
        stat_rx: r.stat_rx ^ w.stat_rx,
        dtog_rx: r.dtog_rx ^ w.dtog_rx,
        vtrx: r.vtrx && w.vtrx,
    }
}

impl ChepWrite {
    /// Start a write for the given endpoint address, type and kind.  The
    /// toggle deltas start at zero (leave everything as it is) and the
    /// event keep-masks at `true` (do not acknowledge anything).
    pub fn endpoint(ea: u8, utype: u8, epkind: bool) -> (w: ChepWrite)
        requires
            ea < 16,
            utype < 4,
        ensures
            w == ChepWrite::endpoint_spec(ea, utype, epkind),
            w.wf(),
    {
        ChepWrite {
            ea,
            stat_tx: 0,
            dtog_tx: false,
            vttx: true,
            epkind,
            utype,
            stat_rx: 0,
            dtog_rx: false,
            vtrx: true,
        }
    }

    pub open spec fn endpoint_spec(ea: u8, utype: u8, epkind: bool) -> ChepWrite {
        ChepWrite {
            ea,
            stat_tx: 0,
            dtog_tx: false,
            vttx: true,
            epkind,
            utype,
            stat_rx: 0,
            dtog_rx: false,
            vtrx: true,
        }
    }

    /// Set the receive status to `s`: the delta is computed against the
    /// just-read register value `c`.
    pub fn stat_rx(self, c: &ChepReg, s: u8) -> (w: ChepWrite)
        requires
            self.wf(),
            c.wf(),
            s < 4,
        ensures
            w == (ChepWrite { stat_rx: (c.stat_rx ^ s) as u8, ..self }),
            w.wf(),
            chep_write_spec(*c, w).stat_rx == s,
    {
        proof {
            let cr = c.stat_rx;
            lemma_xor2_bounded(cr, s);
            assert((cr ^ (cr ^ s)) == s) by (bit_vector);
        }
        ChepWrite { stat_rx: c.stat_rx ^ s, ..self }
    }

    /// Set the transmit status to `s`, against the snapshot `c`.
    pub fn stat_tx(self, c: &ChepReg, s: u8) -> (w: ChepWrite)
        requires
            self.wf(),
            c.wf(),
            s < 4,
        ensures
            w == (ChepWrite { stat_tx: (c.stat_tx ^ s) as u8, ..self }),
            w.wf(),
            chep_write_spec(*c, w).stat_tx == s,
    {
        proof {
            let ct = c.stat_tx;
            lemma_xor2_bounded(ct, s);
            assert((ct ^ (ct ^ s)) == s) by (bit_vector);
        }
        ChepWrite { stat_tx: c.stat_tx ^ s, ..self }
    }

    /// Set the receive data toggle to `t`, against the snapshot `c`.
    pub fn dtogrx(self, c: &ChepReg, t: bool) -> (w: ChepWrite)
        requires
            self.wf(),
        ensures
            w == (ChepWrite { dtog_rx: c.dtog_rx ^ t, ..self }),
            w.wf(),
            chep_write_spec(*c, w).dtog_rx == t,
    {
        ChepWrite { dtog_rx: c.dtog_rx ^ t, ..self }
    }

    /// Set the transmit data toggle to `t`, against the snapshot `c`.
    pub fn dtogtx(self, c: &ChepReg, t: bool) -> (w: ChepWrite)
        requires
            self.wf(),
        ensures
            w == (ChepWrite { dtog_tx: c.dtog_tx ^ t, ..self }),
            w.wf(),
            chep_write_spec(*c, w).dtog_tx == t,
    {
        ChepWrite { dtog_tx: c.dtog_tx ^ t, ..self }
    }

    /// Clear the receive event flag.
    pub fn clear_vtrx(self) -> (w: ChepWrite)
        requires
            self.wf(),
        ensures
            w == (ChepWrite { vtrx: false, ..self }),
            w.wf(),
    {
        ChepWrite { vtrx: false, ..self }
    }

    /// Clear the transmit event flag.
    pub fn clear_vttx(self) -> (w: ChepWrite)
        requires
            self.wf(),
        ensures
            w == (ChepWrite { vttx: false, ..self }),
            w.wf(),
    {
        ChepWrite { vttx: false, ..self }
    }

    /// Zero the status and data-toggle fields, against the snapshot `c`.
    pub fn init(self, c: &ChepReg) -> (w: ChepWrite)
        requires
            self.wf(),
            c.wf(),
        ensures
            w.wf(),
            chep_write_spec(*c, w).stat_rx == STAT_DISABLED,
            chep_write_spec(*c, w).stat_tx == STAT_DISABLED,
            chep_write_spec(*c, w).dtog_rx == false,
            chep_write_spec(*c, w).dtog_tx == false,
            w.ea == self.ea && w.utype == self.utype && w.epkind == self.epkind,
            w.vtrx == self.vtrx && w.vttx == self.vttx,
    {
        self.stat_rx(c, 0).stat_tx(c, 0).dtogrx(c, false).dtogtx(c, false)
    }

    /// Arm the receive side.
    pub fn rx_valid(self, c: &ChepReg) -> (w: ChepWrite)
        requires
            self.wf(),
            c.wf(),
        ensures
            w == self.stat_rx_spec(*c, STAT_VALID),
            w.wf(),
            chep_write_spec(*c, w).stat_rx == STAT_VALID,
    {
        self.stat_rx(c, STAT_VALID)
    }

    /// Arm the transmit side.
    pub fn tx_valid(self, c: &ChepReg) -> (w: ChepWrite)
        requires
            self.wf(),
            c.wf(),
        ensures
            w == self.stat_tx_spec(*c, STAT_VALID),
            w.wf(),
            chep_write_spec(*c, w).stat_tx == STAT_VALID,
    {
        self.stat_tx(c, STAT_VALID)
    }

    /// Move the transmit side to NAK.
    pub fn tx_nak(self, c: &ChepReg) -> (w: ChepWrite)
        requires
            self.wf(),
            c.wf(),
        ensures
            w == self.stat_tx_spec(*c, STAT_NAK),
            w.wf(),
            chep_write_spec(*c, w).stat_tx == STAT_NAK,
    {
        self.stat_tx(c, STAT_NAK)
    }

    pub open spec fn stat_rx_spec(self, c: ChepReg, s: u8) -> ChepWrite {
        ChepWrite { stat_rx: (c.stat_rx ^ s) as u8, ..self }
    }

    pub open spec fn stat_tx_spec(self, c: ChepReg, s: u8) -> ChepWrite {
        ChepWrite { stat_tx: (c.stat_tx ^ s) as u8, ..self }
    }
}

/// Toggle writes compose by XOR: applying delta `d1` and then delta `d2`
/// to a toggle field leaves the same value as applying `d1 ^ d2` in one
/// write.  This holds of every toggle field of the register, whatever the
/// read/write fields of the two writes do.
pub proof fn lemma_toggle_compose(r: ChepReg, w1: ChepWrite, w2: ChepWrite)
    ensures
        chep_write_spec(chep_write_spec(r, w1), w2).stat_tx
            == (r.stat_tx ^ (w1.stat_tx ^ w2.stat_tx)) as u8,
        chep_write_spec(chep_write_spec(r, w1), w2).stat_rx
            == (r.stat_rx ^ (w1.stat_rx ^ w2.stat_rx)) as u8,
        chep_write_spec(chep_write_spec(r, w1), w2).dtog_tx
            == r.dtog_tx ^ (w1.dtog_tx ^ w2.dtog_tx),
        chep_write_spec(chep_write_spec(r, w1), w2).dtog_rx
            == r.dtog_rx ^ (w1.dtog_rx ^ w2.dtog_rx),
{
    let a1 = r.stat_tx;
    let b1 = w1.stat_tx;
    let c1 = w2.stat_tx;
    assert(((a1 ^ b1) ^ c1) == (a1 ^ (b1 ^ c1))) by (bit_vector);
    let a2 = r.stat_rx;
    let b2 = w1.stat_rx;
    let c2 = w2.stat_rx;
    assert(((a2 ^ b2) ^ c2) == (a2 ^ (b2 ^ c2))) by (bit_vector);
}

} // verus!
