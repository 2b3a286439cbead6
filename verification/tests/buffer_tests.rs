use lint_kbd::key_buffer::{KeyBuffer, KeyReport};

#[test]
fn buffer_starts_empty() {
    let buffer = KeyBuffer::default();
    let report = buffer.get_cur_report();
    assert_eq!(report.modifier, 0);
    assert_eq!(report.keycodes, [0u8; 6]);
}

#[test]
fn buffer_round_trip() {
    // Pressing distinct keycodes in one order and releasing them in another
    // returns the keycode slots to all zero, with the modifier untouched.
    let mut buffer = KeyBuffer::default();
    buffer.set_modifier(0xE1);
    for code in [0x04, 0x05, 0x06, 0x07, 0x08, 0x09] {
        buffer.presse_key(code);
    }
    for code in [0x07, 0x04, 0x09, 0x06, 0x08, 0x05] {
        buffer.release_key(code);
    }
    let report = buffer.get_cur_report();
    assert_eq!(report.keycodes, [0u8; 6]);
    assert_eq!(report.modifier, 0x02);
}

#[test]
fn buffer_saturation_drops_seventh() {
    // The seventh simultaneous plain key is dropped; the first six stay, in
    // arrival order.
    let mut buffer = KeyBuffer::default();
    for code in [0x04, 0x05, 0x06, 0x07, 0x08, 0x09, 0x0A] {
        buffer.presse_key(code);
    }
    let report = buffer.get_cur_report();
    assert_eq!(report.keycodes, [0x04, 0x05, 0x06, 0x07, 0x08, 0x09]);
}

#[test]
fn buffer_release_compacts_in_order() {
    // Releasing a middle key left-shifts the later entries and clears the
    // vacated tail slot.
    let mut buffer = KeyBuffer::default();
    buffer.presse_key(0x04);
    buffer.presse_key(0x05);
    buffer.presse_key(0x06);
    buffer.release_key(0x05);
    let report = buffer.get_cur_report();
    assert_eq!(report.keycodes, [0x04, 0x06, 0, 0, 0, 0]);
}

#[test]
fn buffer_release_unheld_is_ignored() {
    // Releasing a keycode that is not held signals desynchronization and
    // leaves the buffer unchanged.
    let mut buffer = KeyBuffer::default();
    buffer.presse_key(0x04);
    buffer.release_key(0x2C);
    let report = buffer.get_cur_report();
    assert_eq!(report.keycodes, [0x04, 0, 0, 0, 0, 0]);
}

#[test]
fn buffer_release_first_occurrence() {
    // A keycode pressed twice is removed one occurrence at a time, first
    // occurrence first.
    let mut buffer = KeyBuffer::default();
    buffer.presse_key(0x04);
    buffer.presse_key(0x05);
    buffer.presse_key(0x04);
    buffer.release_key(0x04);
    let report = buffer.get_cur_report();
    assert_eq!(report.keycodes, [0x05, 0x04, 0, 0, 0, 0]);
}

#[test]
fn modifier_bits_set_and_clear() {
    // The low nibble of the usage code selects the bit: LCtrl(0xE0) is bit 0,
    // RGui(0xE7) is bit 7.
    let mut buffer = KeyBuffer::default();
    buffer.set_modifier(0xE0);
    buffer.set_modifier(0xE7);
    assert_eq!(buffer.get_cur_report().modifier, 0b1000_0001);
    // Setting an already-set bit is idempotent.
    buffer.set_modifier(0xE0);
    assert_eq!(buffer.get_cur_report().modifier, 0b1000_0001);
    buffer.unset_modifier(0xE0);
    assert_eq!(buffer.get_cur_report().modifier, 0b1000_0000);
    // Clearing a clear bit is idempotent too.
    buffer.unset_modifier(0xE0);
    assert_eq!(buffer.get_cur_report().modifier, 0b1000_0000);
}

#[test]
fn report_wire_bytes() {
    // The wire payload is modifier, reserved zero, then the six slots.
    let report = KeyReport { modifier: 0x02, keycodes: [0x04, 0x05, 0, 0, 0, 0] };
    let bytes = report.to_bytes();
    assert_eq!(bytes, vec![0x02, 0x00, 0x04, 0x05, 0, 0, 0, 0]);
}
