//! The LCD driver: executable operations that translate high-level display
//! requests into the exact timed expander-byte sequence the HD44780 behind a
//! PCF8574 requires.
//!
//! The driver does not touch a bus itself: it records the operations it
//! would issue, in order, and each method's contract states the recorded
//! trace exactly, in terms of the spec functions of [`crate::protocol`].

use crate::protocol::BACKLIGHT_BIT;
use crate::protocol::BusOp;
use crate::protocol::ENABLE_BIT;
use crate::protocol::RS_BIT;
use crate::protocol::RW_BIT;
use crate::protocol::byte_seq;
use crate::protocol::clear_seq;
use crate::protocol::ddram_addr;
use crate::protocol::display_control_seq;
use crate::protocol::init_seq;
use crate::protocol::lemma_string_seq_push;
use crate::protocol::nibble_seq;
use crate::protocol::set_position_seq;
use crate::protocol::string_seq;
use vstd::prelude::*;

verus! {

/// Drives one HD44780 display through a PCF8574 expander, recording the bus
/// operations each call demands. The trace grows only at its end: replaying
/// the recorded operations in order against the real bus reproduces exactly
/// what the driver asked for.
pub struct LcdDriver {
    ops: Vec<BusOp>,
}

impl View for LcdDriver {
    type V = Seq<BusOp>;

    closed spec fn view(&self) -> Seq<BusOp> {
        self.ops@
    }
}

impl LcdDriver {
    /// A fresh driver with an empty trace.
    pub fn new() -> (d: LcdDriver)
        ensures
            d@ == Seq::<BusOp>::empty(),
    {
        LcdDriver { ops: Vec::new() }
    }

    /// The operations recorded so far, oldest first.
    pub fn recorded(&self) -> (r: &Vec<BusOp>)
        ensures
            r@ == self@,
    {
        &self.ops
    }

    /// Send `value` as the sole payload byte of one I2C write transaction to
    /// the expander: all eight expander output pins take these values at
    /// once.
    pub fn extender_write(&mut self, value: u8)
        ensures
            final(self)@ == old(self)@.push(BusOp::Write(value)),
    {
        self.ops.push(BusOp::Write(value));
    }

    /// Busy-wait for `us` microseconds before the next bus operation.
    fn delay_us(&mut self, us: u16)
        ensures
            final(self)@ == old(self)@.push(BusOp::DelayUs(us)),
    {
        self.ops.push(BusOp::DelayUs(us));
    }

    /// Latch one 4-bit value into the controller: put the nibble and the
    /// control pins on the expander, strobe the enable line high and low
    /// again (the controller captures the data on the falling edge), then
    /// wait `delay_us` microseconds for it to finish processing.
    pub fn nibble_write(&mut self, rs: bool, rw: bool, backlight: bool, nibble: u8, delay_us: u16)
        ensures
            final(self)@ == old(self)@ + nibble_seq(rs, rw, backlight, nibble, delay_us),
    {
        let ctrl: u8 = (if backlight {
            BACKLIGHT_BIT
        } else {
            0x00
        }) | (if rw {
            RW_BIT
        } else {
            0x00
        }) | (if rs {
            RS_BIT
        } else {
            0x00
        });
        let pins: u8 = ctrl | ((nibble & 0x0f) << 4);

        self.extender_write(pins);
        self.delay_us(1);
        self.extender_write(pins | ENABLE_BIT);
        self.delay_us(50);
        self.extender_write(pins);
        self.delay_us(delay_us);

        assert(self@ =~= old(self)@ + nibble_seq(rs, rw, backlight, nibble, delay_us));
    }

    /// Send one full command or character byte in 4-bit mode: high nibble
    /// first, then low nibble, with no extra settle delay on either.
    pub fn byte_write(&mut self, rs: bool, rw: bool, backlight: bool, data: u8)
        ensures
            final(self)@ == old(self)@ + byte_seq(rs, rw, backlight, data),
    {
        self.nibble_write(rs, rw, backlight, (data & 0xf0) >> 4, 0);
        self.nibble_write(rs, rw, backlight, data & 0x0f, 0);
        assert(self@ =~= old(self)@ + byte_seq(rs, rw, backlight, data));
    }

    /// Bring the controller into 4-bit, 2-line, 5x8-font mode. The nibble
    /// values, their order and the delay minimums are fixed by the
    /// controller's power-on protocol.
    pub fn init(&mut self)
        ensures
            final(self)@ == old(self)@ + init_seq(),
    {
        self.nibble_write(false, false, true, 0x3, 4500);
        self.nibble_write(false, false, true, 0x3, 4500);
        self.nibble_write(false, false, true, 0x3, 150);
        self.nibble_write(false, false, true, 0x2, 100);
        self.byte_write(false, false, false, 0x28);
        self.delay_us(500);
        assert(self@ =~= old(self)@ + init_seq());
    }

    /// Set left-to-right entry mode, then switch the display, the cursor and
    /// cursor blinking on or off as requested.
    pub fn display_control(&mut self, display_on: bool, cursor: bool, blink: bool)
        ensures
            final(self)@ == old(self)@ + display_control_seq(display_on, cursor, blink),
    {
        self.byte_write(false, false, true, 0x06);

        let control: u8 = 0x08 | (if display_on {
            0x04
        } else {
            0x00
        }) | (if cursor {
            0x02
        } else {
            0x00
        }) | (if blink {
            0x01
        } else {
            0x00
        });
        self.byte_write(false, false, true, control);
        assert(self@ =~= old(self)@ + display_control_seq(display_on, cursor, blink));
    }

    /// Clear the display and return the cursor home. The settle delay
    /// between the two commands is required: clear is one of the
    /// controller's slow commands.
    pub fn clear(&mut self)
        ensures
            final(self)@ == old(self)@ + clear_seq(),
    {
        self.byte_write(false, false, true, 0x01);
        self.delay_us(500);
        self.byte_write(false, false, true, 0x02);
        assert(self@ =~= old(self)@ + clear_seq());
    }

    /// Write the bytes of `text` to the display at the current cursor
    /// position, each as one character in data mode with the backlight on.
    /// The bytes are raw 8-bit character codes as the controller's character
    /// ROM reads them; they are not decoded as multi-byte text.
    pub fn write_string(&mut self, text: &[u8])
        ensures
            final(self)@ == old(self)@ + string_seq(text@),
    {
        let mut i: usize = 0;
        while i < text.len()
            invariant
                i <= text.len(),
                self@ == old(self)@ + string_seq(text@.take(i as int)),
            decreases text.len() - i,
        {
            self.byte_write(true, false, true, text[i]);
            proof {
                assert(text@.take(i + 1 as int) =~= text@.take(i as int).push(text@[i as int]));
                lemma_string_seq_push(text@.take(i as int), text@[i as int]);
            }
            i = i + 1;
        }
        assert(text@.take(text@.len() as int) =~= text@);
    }

    /// Move the cursor to the given row and column by issuing the
    /// set-DDRAM-address command. Positions beyond the physical display are
    /// not rejected: the address wraps into the controller's 7-bit address
    /// space, which is the caller's responsibility.
    pub fn set_position(&mut self, row: u8, col: u8)
        ensures
            final(self)@ == old(self)@ + set_position_seq(row, col),
    {
        let wide: u16 = (row as u16) * 0x40 + (col as u16);
        let addr: u8 = (wide & 0x7f) as u8;
        assert(wide & 0x7f == wide % 0x80) by (bit_vector);
        assert(addr == ddram_addr(row, col));
        self.byte_write(false, false, true, 0x80 | addr);
    }
}

} // verus!
