use gb_core::serial::Serial;

#[test]
fn transfer_captures_byte_and_requests_interrupt() {
    let mut s = Serial::new();
    s.write_sb(b'P');
    s.write_sc(0x81); // start + internal clock
    assert_eq!(s.output_so_far(), "P");
    assert!(s.take_interrupt());
    assert!(!s.take_interrupt()); // consumed
    assert_eq!(s.read_sc() & 0x80, 0); // transfer-start bit cleared
    assert_eq!(s.read_sb(), 0xFF); // idle line shifted in
}

#[test]
fn write_without_internal_clock_does_not_transfer() {
    let mut s = Serial::new();
    s.write_sb(b'X');
    s.write_sc(0x80); // start bit only, external clock
    assert_eq!(s.output_so_far(), "");
    assert!(!s.take_interrupt());
}

#[test]
fn take_output_drains_accumulated_bytes() {
    let mut s = Serial::new();
    for &b in b"Passed" {
        s.write_sb(b);
        s.write_sc(0x81);
    }
    assert_eq!(s.take_output(), "Passed");
    assert_eq!(s.take_output(), ""); // drained
}
