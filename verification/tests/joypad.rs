use gb_core::joypad::{Button, Joypad, SELECT_ACTIONS, SELECT_DIRECTIONS, SELECT_MASK};

#[test]
fn unselected_rows_read_all_lines_high() {
    let mut jp = Joypad::new();
    jp.write_joyp(SELECT_MASK); // neither row selected
    jp.set_button(Button::A, true);
    assert_eq!(jp.read_joyp() & 0x0F, 0x0F);
}

#[test]
fn selecting_directions_reports_direction_buttons_only() {
    let mut jp = Joypad::new();
    jp.set_button(Button::Right, true);
    jp.set_button(Button::A, true); // action row not selected, shouldn't show
    jp.write_joyp(SELECT_ACTIONS); // select_bits: directions row selected (bit4=0)
    assert_eq!(jp.read_joyp() & 0x0F, 0b1110); // bit0 (Right) low
}

#[test]
fn selecting_actions_reports_action_buttons_only() {
    let mut jp = Joypad::new();
    jp.set_button(Button::Start, true);
    jp.set_button(Button::Up, true); // direction row not selected
    jp.write_joyp(SELECT_DIRECTIONS); // actions row selected (bit5=0)
    assert_eq!(jp.read_joyp() & 0x0F, 0b0111); // bit3 (Start) low
}

#[test]
fn button_press_while_row_selected_requests_interrupt() {
    let mut jp = Joypad::new();
    jp.write_joyp(SELECT_ACTIONS); // directions row selected
    assert!(!jp.take_interrupt());
    jp.set_button(Button::Left, true);
    assert!(jp.take_interrupt());
    assert!(!jp.take_interrupt()); // consumed
}

#[test]
fn button_press_while_row_unselected_does_not_request_interrupt() {
    let mut jp = Joypad::new();
    jp.write_joyp(SELECT_MASK); // neither row selected
    jp.set_button(Button::A, true);
    assert!(!jp.take_interrupt());
}

#[test]
fn selecting_a_row_with_a_button_already_held_requests_interrupt() {
    let mut jp = Joypad::new();
    jp.write_joyp(SELECT_MASK); // neither row selected
    jp.set_button(Button::B, true); // no interrupt: not selected yet
    assert!(!jp.take_interrupt());
    jp.write_joyp(SELECT_DIRECTIONS); // now select the action row
    assert!(jp.take_interrupt()); // B's line just fell
}

#[test]
fn release_does_not_request_interrupt() {
    let mut jp = Joypad::new();
    jp.write_joyp(SELECT_ACTIONS);
    jp.set_button(Button::Down, true);
    jp.take_interrupt(); // drain the press's interrupt
    jp.set_button(Button::Down, false);
    assert!(!jp.take_interrupt());
}
