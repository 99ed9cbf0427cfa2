//! Processor-level plumbing the logic depends on: the serial number
//! formatted out of the die's identification words, the interrupt vector
//! table as a checked, explicit assignment of handlers, and the typed
//! priority token of the priority-ceiling discipline.

use vstd::prelude::*;

verus! {

/// Length of the formatted serial number.
pub const SERIAL_LEN: usize = 18;

/// Length of the serial number as a string descriptor.
pub const USB_SERIAL_LEN: usize = 38;

/// One hexadecimal digit, lower case.
pub open spec fn hex_digit_spec(n: u8) -> u8 {
    if n > 9 {
        (n + 0x57) as u8
    } else {
        (n + 0x30) as u8
    }
}

/// The serial-number text: seven ASCII lot-number bytes, a dash, and
/// ten hex digits of the wafer coordinates.
pub open spec fn serial_text_spec(sn: Seq<u32>) -> Seq<u8> {
    let lot = ((sn[2] * 0x100000000 + sn[1]) as u64 >> 8) as u64;
    let binary = (sn[1] * 0x100000000 + sn[0]) as u64;
    Seq::new(7, |i: int| (lot >> (8 * i) as u64) as u8) + seq![0x2du8] + Seq::new(
        10,
        |i: int| hex_digit_spec(((binary >> ((36 - 4 * i)) as u64) & 15) as u8),
    )
}

/// Format the processor's identification words into the serial-number
/// text and its USB string-descriptor form.
pub fn format_serial_number(sn: &[u32], text: &mut Vec<u8>, usb: &mut Vec<u8>)
    requires
        sn@.len() == 3,
        old(text)@.len() == SERIAL_LEN,
        old(usb)@.len() == USB_SERIAL_LEN,
    ensures
        final(text)@ == serial_text_spec(sn@),
        final(usb)@.len() == USB_SERIAL_LEN,
        final(usb)@[0] == USB_SERIAL_LEN as u8,
        final(usb)@[1] == 3u8,
        forall|i: int| 0 <= i < SERIAL_LEN ==> #[trigger] final(usb)@[2 * i + 2] == final(text)@[i],
        forall|i: int| 0 <= i < SERIAL_LEN ==> #[trigger] final(usb)@[2 * i + 3] == 0u8,
{
    let lot: u64 = ((sn[2] as u64) << 32 | (sn[1] as u64)) >> 8;
    proof {
        let s1 = sn@[1];
        let s2 = sn@[2];
        assert((((s2 as u64) << 32) | (s1 as u64)) as u64 == (s2 * 0x100000000 + s1) as u64)
            by (bit_vector);
    }
    let mut i: usize = 0;
    while i < 7
        invariant
            i <= 7,
            text@.len() == SERIAL_LEN,
            lot == ((sn@[2] * 0x100000000 + sn@[1]) as u64 >> 8) as u64,
            forall|j: int| 0 <= j < i ==> #[trigger] text@[j] == (lot >> (8 * j) as u64) as u8,
        decreases 7 - i,
    {
        proof {
            let ii = i as u64;
            assert(ii < 7 ==> 8 * ii < 64) by (bit_vector);
        }
        text[i] = (lot >> (8 * (i as u64))) as u8;
        i = i + 1;
    }
    text[7] = 0x2d;
    let binary: u64 = (sn[1] as u64) << 32 | (sn[0] as u64);
    proof {
        let s0 = sn@[0];
        let s1 = sn@[1];
        assert((((s1 as u64) << 32) | (s0 as u64)) as u64 == (s1 * 0x100000000 + s0) as u64)
            by (bit_vector);
    }
    let mut i: usize = 0;
    while i < 10
        invariant
            i <= 10,
            text@.len() == SERIAL_LEN,
            binary == (sn@[1] * 0x100000000 + sn@[0]) as u64,
            forall|j: int| 0 <= j < 7 ==> text@[j] == serial_text_spec(sn@)[j],
            text@[7] == 0x2du8,
            forall|j: int|
                0 <= j < i ==> #[trigger] text@[8 + j] == hex_digit_spec(
                    ((binary >> ((36 - 4 * j)) as u64) & 15) as u8,
                ),
        decreases 10 - i,
    {
        let hex: u64 = (binary >> ((36 - 4 * (i as u64)) as u64)) & 15;
        proof {
            let bb = binary;
            let ii = i as u64;
            assert(ii < 10 ==> ((bb >> ((36 - 4 * ii) as u64)) & 15) < 16) by (bit_vector);
        }
        let digit: u8 = if hex > 9 {
            (hex as u8) + 0x57
        } else {
            (hex as u8) + 0x30
        };
        text[8 + i] = digit;
        i = i + 1;
    }
    proof {
        assert forall|j: int| 0 <= j < SERIAL_LEN implies text@[j] == serial_text_spec(sn@)[j] by {
            if 8 <= j {
                assert(text@[8 + (j - 8)] == hex_digit_spec(
                    ((binary >> ((36 - 4 * (j - 8))) as u64) & 15) as u8,
                ));
            }
        }
        assert(text@ =~= serial_text_spec(sn@));
    }
    usb[0] = USB_SERIAL_LEN as u8;
    usb[1] = 3;
    let mut i: usize = 0;
    while i < SERIAL_LEN
        invariant
            i <= SERIAL_LEN,
            text@ == serial_text_spec(sn@),
            text@.len() == SERIAL_LEN,
            usb@.len() == USB_SERIAL_LEN,
            usb@[0] == USB_SERIAL_LEN as u8,
            usb@[1] == 3u8,
            forall|j: int| 0 <= j < i ==> #[trigger] usb@[2 * j + 2] == text@[j],
            forall|j: int| 0 <= j < i ==> #[trigger] usb@[2 * j + 3] == 0u8,
        decreases SERIAL_LEN - i,
    {
        usb[i * 2 + 2] = text[i];
        usb[i * 2 + 3] = 0;
        proof {
            assert(usb@[2 * (i as int) + 2] == text@[i as int]);
            assert(usb@[2 * (i as int) + 3] == 0u8);
        }
        i = i + 1;
    }
}

/// The handlers the firmware wires into the vector table.
#[derive(Clone, Copy, PartialEq, Eq, Structural)]
pub enum Handler {
    /// The default: trap and report a crash.
    Fault,
    /// The USB device interrupt.
    UsbIsr,
    /// The debug console interrupt.
    DebugIsr,
    /// The LED timer interrupt.
    LedIsr,
    /// The GPS serial port and its DMA interrupts.
    GpsUartIsr,
    /// The peripheral-bus interrupt.
    I2cIsr,
    /// The clock-generator status interrupts.
    ClockStatusIsr,
    /// The deferred command dispatch, at the priority below the USB
    /// interrupt.
    CommandDispatch,
}

/// Number of external interrupt vectors.
pub const NUM_IRQS: usize = 134;

/// Interrupt numbers of the vectors the firmware uses.
pub const IRQ_EXTI0: usize = 11;
pub const IRQ_GPDMA1_CH0: usize = 27;
pub const IRQ_TIM3: usize = 50;
pub const IRQ_TIM6: usize = 54;
pub const IRQ_I2C1: usize = 57;
pub const IRQ_USART2: usize = 62;
pub const IRQ_USART3: usize = 63;
pub const IRQ_USB_FS: usize = 74;

/// The interrupt vector table, as an explicit, ordered assignment of
/// handlers that start-up code and tests can check for mistakes.
pub struct VectorTable {
    /// The deferred-work exception vector.
    pub pendsv: Handler,
    /// The system tick vector.
    pub systick: Handler,
    /// The external interrupt vectors.
    pub isr: Vec<Handler>,
}

impl VectorTable {
    pub open spec fn wf(self) -> bool {
        self.isr@.len() == NUM_IRQS
    }

    /// The table with every vector on the fault handler.
    pub fn new() -> (r: VectorTable)
        ensures
            r.wf(),
            r.pendsv == Handler::Fault,
            r.systick == Handler::Fault,
            forall|i: int| 0 <= i < NUM_IRQS ==> r.isr@[i] == Handler::Fault,
    {
        let mut isr: Vec<Handler> = Vec::new();
        let mut i: usize = 0;
        while i < NUM_IRQS
            invariant
                i <= NUM_IRQS,
                isr@.len() == i,
                forall|j: int| 0 <= j < i ==> isr@[j] == Handler::Fault,
            decreases NUM_IRQS - i,
        {
            isr.push(Handler::Fault);
            i = i + 1;
        }
        VectorTable { pendsv: Handler::Fault, systick: Handler::Fault, isr }
    }

    /// Set one interrupt vector.
    pub fn isr(&mut self, n: usize, handler: Handler)
        requires
            old(self).wf(),
            n < NUM_IRQS,
        ensures
            final(self).wf(),
            final(self).isr@ == old(self).isr@.update(n as int, handler),
            final(self).pendsv == old(self).pendsv,
            final(self).systick == old(self).systick,
    {
        self.isr[n] = handler;
    }

    /// Wire the USB interrupt.
    pub fn usb(&mut self)
        requires
            old(self).wf(),
        ensures
            final(self).wf(),
            final(self).isr@ == old(self).isr@.update(IRQ_USB_FS as int, Handler::UsbIsr),
            final(self).pendsv == old(self).pendsv,
            final(self).systick == old(self).systick,
    {
        self.isr(IRQ_USB_FS, Handler::UsbIsr);
    }

    /// Wire the debug console interrupt.
    pub fn debug(&mut self)
        requires
            old(self).wf(),
        ensures
            final(self).wf(),
            final(self).isr@ == old(self).isr@.update(IRQ_USART3 as int, Handler::DebugIsr),
            final(self).pendsv == old(self).pendsv,
            final(self).systick == old(self).systick,
    {
        self.isr(IRQ_USART3, Handler::DebugIsr);
    }

    /// Wire the LED timer interrupt.
    pub fn led(&mut self)
        requires
            old(self).wf(),
        ensures
            final(self).wf(),
            final(self).isr@ == old(self).isr@.update(IRQ_TIM3 as int, Handler::LedIsr),
            final(self).pendsv == old(self).pendsv,
            final(self).systick == old(self).systick,
    {
        self.isr(IRQ_TIM3, Handler::LedIsr);
    }

    /// Wire the GPS serial port and its DMA channel.
    pub fn gps_uart(&mut self)
        requires
            old(self).wf(),
        ensures
            final(self).wf(),
            final(self).isr@ == old(self).isr@.update(IRQ_USART2 as int, Handler::GpsUartIsr).update(
                IRQ_GPDMA1_CH0 as int,
                Handler::GpsUartIsr,
            ),
            final(self).pendsv == old(self).pendsv,
            final(self).systick == old(self).systick,
    {
        self.isr(IRQ_USART2, Handler::GpsUartIsr);
        self.isr(IRQ_GPDMA1_CH0, Handler::GpsUartIsr);
    }

    /// Wire the peripheral-bus interrupt.
    pub fn i2c(&mut self)
        requires
            old(self).wf(),
        ensures
            final(self).wf(),
            final(self).isr@ == old(self).isr@.update(IRQ_I2C1 as int, Handler::I2cIsr),
            final(self).pendsv == old(self).pendsv,
            final(self).systick == old(self).systick,
    {
        self.isr(IRQ_I2C1, Handler::I2cIsr);
    }

    /// Wire the clock-generator status interrupts.
    pub fn lmk05318b(&mut self)
        requires
            old(self).wf(),
        ensures
            final(self).wf(),
            final(self).isr@ == old(self).isr@.update(IRQ_EXTI0 as int, Handler::ClockStatusIsr).update(
                IRQ_TIM6 as int,
                Handler::ClockStatusIsr,
            ),
            final(self).pendsv == old(self).pendsv,
            final(self).systick == old(self).systick,
    {
        self.isr(IRQ_EXTI0, Handler::ClockStatusIsr);
        self.isr(IRQ_TIM6, Handler::ClockStatusIsr);
    }

    /// Wire the deferred command dispatch onto the deferred-work
    /// exception.
    pub fn command_usb(&mut self)
        requires
            old(self).wf(),
        ensures
            final(self).wf(),
            final(self).pendsv == Handler::CommandDispatch,
            final(self).isr@ == old(self).isr@,
            final(self).systick == old(self).systick,
    {
        self.pendsv = Handler::CommandDispatch;
    }
}

/// Interrupt priority of the debug console: the highest, since logging
/// is called from everywhere.
pub const PRIO_DEBUG: u8 = 0;

/// Interrupt priority of USB, serial and peripheral-bus handling: one
/// shared level, so their multi-step sequences cannot preempt each
/// other.
pub const PRIO_COMMS: u8 = 0x40;

/// Interrupt priority of deferred application work.
pub const PRIO_APP: u8 = 0x80;

/// A typed token for the priority-ceiling discipline: code holding a
/// `Priority` runs with the base priority raised to `level`, and the
/// shared-resource invariants of that level apply for as long as the
/// token lives.
#[derive(Clone, Copy, PartialEq, Eq, Structural)]
pub struct Priority {
    /// The level this token raised the base priority to.
    pub level: u8,
    /// The level to restore when the token is dropped.
    pub old: u8,
}

impl Priority {
    /// Raise the base priority to `level`, remembering `previous`.
    pub fn new(level: u8, previous: u8) -> (r: Priority)
        ensures
            r.level == level,
            r.old == previous,
    {
        Priority { level, old: previous }
    }
}

} // verus!
