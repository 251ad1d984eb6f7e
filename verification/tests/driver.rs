use lcd_driver::driver::LcdDriver;
use lcd_driver::protocol::BusOp;

fn writes(ops: &[BusOp]) -> Vec<u8> {
    let mut out: Vec<u8> = Vec::new();
    for op in ops {
        if let BusOp::Write(b) = op {
            out.push(*b);
        }
    }
    out
}

#[test]
fn nibble_write_emits_exact_strobe_sequence() {
    let mut d = LcdDriver::new();
    d.nibble_write(false, false, true, 0x3, 4500);
    assert_eq!(
        d.recorded().as_slice(),
        &[
            BusOp::Write(0x38),
            BusOp::DelayUs(1),
            BusOp::Write(0x3c),
            BusOp::DelayUs(50),
            BusOp::Write(0x38),
            BusOp::DelayUs(4500),
        ]
    );
    assert_eq!(writes(d.recorded()), vec![0x38, 0x3c, 0x38]);
}

#[test]
fn byte_write_sends_high_then_low_nibble() {
    let mut d = LcdDriver::new();
    d.byte_write(true, false, true, 0x41);
    let w = writes(d.recorded());
    assert_eq!(w.len(), 6);
    // High nibble 0x4 with rs and backlight control bits, then low nibble 0x1.
    assert_eq!(w, vec![0x49, 0x4d, 0x49, 0x19, 0x1d, 0x19]);
    for b in &w {
        assert_eq!(b & 0x01, 0x01, "register-select bit set in every write");
        assert_eq!(b & 0x08, 0x08, "backlight bit set in every write");
    }
}

#[test]
fn set_position_row1_col5_writes_0xc5_command() {
    let mut d = LcdDriver::new();
    d.set_position(1, 5);
    let mut expected = LcdDriver::new();
    expected.byte_write(false, false, true, 0xc5);
    assert_eq!(d.recorded(), expected.recorded());
}

#[test]
fn set_position_wraps_into_seven_bits() {
    // Row 2 on a 16x2 display: 2 * 0x40 wraps to DDRAM address 0, command 0x80.
    let mut d = LcdDriver::new();
    d.set_position(2, 0);
    let mut expected = LcdDriver::new();
    expected.byte_write(false, false, true, 0x80);
    assert_eq!(d.recorded(), expected.recorded());
}

#[test]
fn clear_writes_clear_then_home_with_settle_delay() {
    let mut d = LcdDriver::new();
    d.clear();
    let mut expected = LcdDriver::new();
    expected.byte_write(false, false, true, 0x01);
    let mut ops: Vec<BusOp> = expected.recorded().clone();
    ops.push(BusOp::DelayUs(500));
    let mut home = LcdDriver::new();
    home.byte_write(false, false, true, 0x02);
    ops.extend_from_slice(home.recorded());
    assert_eq!(d.recorded(), &ops);
}

#[test]
fn write_string_equals_sequential_byte_writes() {
    let mut d = LcdDriver::new();
    d.write_string(b"AB");
    let mut expected = LcdDriver::new();
    expected.byte_write(true, false, true, 0x41);
    expected.byte_write(true, false, true, 0x42);
    assert_eq!(d.recorded(), expected.recorded());
}

#[test]
fn write_string_empty_emits_nothing() {
    let mut d = LcdDriver::new();
    d.write_string(b"");
    assert!(d.recorded().is_empty());
}

#[test]
fn init_emits_fixed_bring_up_order() {
    let mut d = LcdDriver::new();
    d.init();
    let mut expected = LcdDriver::new();
    expected.nibble_write(false, false, true, 0x3, 4500);
    expected.nibble_write(false, false, true, 0x3, 4500);
    expected.nibble_write(false, false, true, 0x3, 150);
    expected.nibble_write(false, false, true, 0x2, 100);
    expected.byte_write(false, false, false, 0x28);
    let mut ops: Vec<BusOp> = expected.recorded().clone();
    ops.push(BusOp::DelayUs(500));
    assert_eq!(d.recorded(), &ops);

    // The data nibbles of the writes, in order: 0x3, 0x3, 0x3, 0x2, then the
    // two nibbles of the function-set byte 0x28.
    let nibbles: Vec<u8> = writes(d.recorded()).iter().step_by(3).map(|b| b >> 4).collect();
    assert_eq!(nibbles, vec![0x3, 0x3, 0x3, 0x2, 0x2, 0x8]);
}

#[test]
fn display_control_composes_control_byte() {
    let mut d = LcdDriver::new();
    d.display_control(true, false, false);
    let mut expected = LcdDriver::new();
    expected.byte_write(false, false, true, 0x06);
    expected.byte_write(false, false, true, 0x0c);
    assert_eq!(d.recorded(), expected.recorded());

    let mut all_on = LcdDriver::new();
    all_on.display_control(true, true, true);
    let mut expected_on = LcdDriver::new();
    expected_on.byte_write(false, false, true, 0x06);
    expected_on.byte_write(false, false, true, 0x0f);
    assert_eq!(all_on.recorded(), expected_on.recorded());

    let mut all_off = LcdDriver::new();
    all_off.display_control(false, false, false);
    let mut expected_off = LcdDriver::new();
    expected_off.byte_write(false, false, true, 0x06);
    expected_off.byte_write(false, false, true, 0x08);
    assert_eq!(all_off.recorded(), expected_off.recorded());
}

#[test]
fn extender_write_records_one_transaction() {
    let mut d = LcdDriver::new();
    assert!(d.recorded().is_empty());
    d.extender_write(0x08);
    d.extender_write(0x00);
    assert_eq!(d.recorded().as_slice(), &[BusOp::Write(0x08), BusOp::Write(0x00)]);
}

#[test]
fn nibble_write_masks_to_low_four_bits() {
    // Only the low four bits of the nibble argument reach the data pins.
    let mut d = LcdDriver::new();
    d.nibble_write(false, false, false, 0xf7, 0);
    assert_eq!(writes(d.recorded()), vec![0x70, 0x74, 0x70]);
}
