//! The bus-level protocol: which bytes reach the PCF8574 expander, in which
//! order, and with which delays between them.
//!
//! Every driver operation is specified as a sequence of [`BusOp`] values.
//! The spec functions here give those sequences exactly; the executable
//! driver in [`crate::driver`] is proved to emit them.

use vstd::prelude::*;

verus! {

/// One step of the wire protocol: either a single-byte I2C write transaction
/// to the expander (at its fixed 7-bit address [`I2C_ADDR`]), or a busy-wait.
#[derive(Clone, Copy, Debug, PartialEq, Eq, Structural)]
pub enum BusOp {
    /// Send one payload byte to the expander; its eight output pins take
    /// these values immediately.
    Write(u8),
    /// Busy-wait for the given number of microseconds before the next write.
    DelayUs(u16),
}

/// The expander's fixed 7-bit I2C address; every [`BusOp::Write`] goes here.
pub const I2C_ADDR: u8 = 0x27;

/// The expander output pin driving the HD44780 register-select line.
pub const RS_BIT: u8 = 0x01;

/// The expander output pin driving the HD44780 read/write line.
pub const RW_BIT: u8 = 0x02;

/// The expander output pin driving the HD44780 enable (strobe) line.
pub const ENABLE_BIT: u8 = 0x04;

/// The expander output pin switching the backlight.
pub const BACKLIGHT_BIT: u8 = 0x08;

/// The control half of an expander byte: backlight, read/write and
/// register-select pins, with the enable pin low.
pub open spec fn control_bits(rs: bool, rw: bool, backlight: bool) -> u8 {
    (if backlight {
        BACKLIGHT_BIT
    } else {
        0x00u8
    }) | (if rw {
        RW_BIT
    } else {
        0x00u8
    }) | (if rs {
        RS_BIT
    } else {
        0x00u8
    })
}

/// The data half of an expander byte: the low four bits of `nibble`, placed
/// on the expander pins wired to the HD44780 data lines (bits 4 to 7).
pub open spec fn nibble_bits(nibble: u8) -> u8 {
    (nibble & 0x0f) << 4
}

/// Transferring one nibble: put data and control on the pins, pulse the
/// enable line high for its minimum width, drop it (the HD44780 latches the
/// data on that falling edge), then wait `delay_us` for the controller to
/// settle.
pub open spec fn nibble_seq(rs: bool, rw: bool, backlight: bool, nibble: u8, delay_us: u16) -> Seq<
    BusOp,
> {
    let pins = control_bits(rs, rw, backlight) | nibble_bits(nibble);
    seq![
        BusOp::Write(pins),
        BusOp::DelayUs(1),
        BusOp::Write(pins | ENABLE_BIT),
        BusOp::DelayUs(50),
        BusOp::Write(pins),
        BusOp::DelayUs(delay_us),
    ]
}

/// Transferring one full command or character byte in 4-bit mode: the high
/// nibble, then the low nibble, each with no extra settle delay.
pub open spec fn byte_seq(rs: bool, rw: bool, backlight: bool, data: u8) -> Seq<BusOp> {
    nibble_seq(rs, rw, backlight, (data & 0xf0) >> 4, 0) + nibble_seq(rs, rw, backlight, data & 0x0f, 0)
}

/// Writing a run of character bytes: each byte is sent in data mode
/// (register-select high) with the backlight on, in order.
pub open spec fn string_seq(text: Seq<u8>) -> Seq<BusOp>
    decreases text.len(),
{
    if text.len() == 0 {
        Seq::empty()
    } else {
        byte_seq(true, false, true, text[0]) + string_seq(text.drop_first())
    }
}

/// Writing a run of bytes emits exactly the byte transfers of its bytes, in
/// order: the trace of a concatenation is the concatenation of the traces,
/// so writing a string equals writing its characters one by one.
pub proof fn lemma_string_seq_concat(s1: Seq<u8>, s2: Seq<u8>)
    ensures
        string_seq(s1 + s2) == string_seq(s1) + string_seq(s2),
    decreases s1.len(),
{
    if s1.len() == 0 {
        assert(s1 + s2 =~= s2);
        assert(string_seq(s1) + string_seq(s2) =~= string_seq(s2));
    } else {
        assert((s1 + s2).drop_first() =~= s1.drop_first() + s2);
        lemma_string_seq_concat(s1.drop_first(), s2);
        assert(string_seq(s1 + s2) =~= string_seq(s1) + string_seq(s2));
    }
}

/// Extending the text by one byte appends that byte's transfer to the trace.
pub proof fn lemma_string_seq_push(s: Seq<u8>, b: u8)
    ensures
        string_seq(s.push(b)) == string_seq(s) + byte_seq(true, false, true, b),
{
    assert(s.push(b) =~= s + seq![b]);
    lemma_string_seq_concat(s, seq![b]);
    assert(seq![b].drop_first() =~= Seq::<u8>::empty());
    assert(string_seq(seq![b]) == byte_seq(true, false, true, b) + string_seq(
        seq![b].drop_first(),
    ));
    assert(byte_seq(true, false, true, b) + Seq::<BusOp>::empty() =~= byte_seq(
        true,
        false,
        true,
        b,
    ));
}

/// The DDRAM address of a character cell: `row * 0x40 + col`, reduced to the
/// controller's 7-bit address space. Rows beyond the physical display are
/// not rejected; they wrap through the reduction, which is the caller's
/// responsibility.
pub open spec fn ddram_addr(row: u8, col: u8) -> u8 {
    ((row * 0x40 + col) % 0x80) as u8
}

/// Moving the cursor: one set-DDRAM-address command (`0x80` plus the cell's
/// address), sent as a command with the backlight on.
pub open spec fn set_position_seq(row: u8, col: u8) -> Seq<BusOp> {
    byte_seq(false, false, true, 0x80 | ddram_addr(row, col))
}

/// Clearing the display: the clear command, a settle delay (clear is one of
/// the controller's slow commands), then the return-home command. No other
/// write stands between the two commands.
pub open spec fn clear_seq() -> Seq<BusOp> {
    byte_seq(false, false, true, 0x01) + seq![BusOp::DelayUs(500)] + byte_seq(
        false,
        false,
        true,
        0x02,
    )
}

/// The display-control byte: base `0x08`, plus the display-on, cursor and
/// blink bits as requested.
pub open spec fn display_control_byte(display_on: bool, cursor: bool, blink: bool) -> u8 {
    0x08u8 | (if display_on {
        0x04u8
    } else {
        0x00u8
    }) | (if cursor {
        0x02u8
    } else {
        0x00u8
    }) | (if blink {
        0x01u8
    } else {
        0x00u8
    })
}

/// Configuring the display: the entry-mode command `0x06` (cursor moves left
/// to right, no display shift), then the display-control byte.
pub open spec fn display_control_seq(display_on: bool, cursor: bool, blink: bool) -> Seq<BusOp> {
    byte_seq(false, false, true, 0x06) + byte_seq(
        false,
        false,
        true,
        display_control_byte(display_on, cursor, blink),
    )
}

/// The controller-mandated 4-bit-mode bring-up: nibble `0x3` three times
/// (twice with the 4.5 ms power-on-reset settle, once with the 150 us
/// minimum), nibble `0x2` to switch the interface to 4-bit mode, then the
/// function-set byte `0x28` (4-bit bus, two lines, 5x8 font) followed by a
/// final settle delay. The order and the delay minimums come from the
/// controller's timing requirements and must not be reordered or shortened.
pub open spec fn init_seq() -> Seq<BusOp> {
    nibble_seq(false, false, true, 0x3, 4500) + nibble_seq(false, false, true, 0x3, 4500)
        + nibble_seq(false, false, true, 0x3, 150) + nibble_seq(false, false, true, 0x2, 100)
        + byte_seq(false, false, false, 0x28) + seq![BusOp::DelayUs(500)]
}

} // verus!
