use motor_shield::digital_output::serial_bits;
use motor_shield::DigitalOutput;

#[test]
fn new_latch_transmits_cleared_state_once() {
    let out = DigitalOutput::new();
    assert_eq!(out.state, 0);
    assert_eq!(out.transmitted, vec![0u8]);
    assert!(out.enabled);
}

#[test]
fn set_then_clear_then_transmit_yields_surviving_bits() {
    let mut out = DigitalOutput::new();
    out.or(0b0000_0101);
    out.and_not(0b0000_0100);
    out.transmit();
    assert_eq!(out.transmitted, vec![0b0000_0000u8, 0b0000_0001u8]);
    assert_eq!(out.state, 0b0000_0001);
}

#[test]
fn shadow_changes_are_invisible_until_transmit() {
    let mut out = DigitalOutput::new();
    out.or(0b1111_0000);
    out.and(0b1010_1010);
    assert_eq!(out.transmitted, vec![0u8]);
    assert_eq!(out.state, 0b1010_0000);
    out.transmit();
    assert_eq!(out.transmitted, vec![0u8, 0b1010_0000]);
}

#[test]
fn and_keeps_only_named_bits() {
    let mut out = DigitalOutput::new();
    out.or(0b1100_1100);
    out.and(0b0100_0110);
    assert_eq!(out.state, 0b0100_0100);
}

#[test]
fn serial_bits_are_msb_first() {
    let bits = serial_bits(0b1010_0101);
    assert_eq!(
        bits,
        vec![true, false, true, false, false, true, false, true]
    );
    assert_eq!(serial_bits(0), vec![false; 8]);
    assert_eq!(serial_bits(0xff), vec![true; 8]);
    assert_eq!(
        serial_bits(0x01),
        vec![false, false, false, false, false, false, false, true]
    );
}
