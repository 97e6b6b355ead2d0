use gb_core::timer::Timer;

#[test]
fn tima_increments_at_selected_rate() {
    let mut t = Timer::new();
    t.write_tac(0b101); // enable, select bit 3 (every 16 T-cycles)
    t.step(15);
    assert_eq!(t.read_tima(), 0);
    t.step(1);
    assert_eq!(t.read_tima(), 1);
}

#[test]
fn tima_overflow_reloads_from_tma_and_requests_interrupt() {
    let mut t = Timer::new();
    t.write_tma(0x10);
    t.write_tac(0b101);
    t.write_tima(0xFF);
    t.step(16);
    assert_eq!(t.read_tima(), 0x10);
    assert!(t.take_interrupt());
    assert!(!t.take_interrupt());
}

#[test]
fn writing_div_resets_counter_and_can_trigger_falling_edge() {
    let mut t = Timer::new();
    t.write_tac(0b101); // select bit 3
    t.step(8); // counter = 8, bit 3 set
    assert_eq!(t.read_tima(), 0);
    t.write_div(0); // counter -> 0: bit 3 falls 1->0
    assert_eq!(t.read_tima(), 1);
    assert_eq!(t.read_div(), 0);
}

#[test]
fn disabled_timer_never_increments() {
    let mut t = Timer::new();
    t.write_tac(0b001); // select bit 3, but not enabled
    for _ in 0..4 {
        t.step(250);
    }
    assert_eq!(t.read_tima(), 0);
}
