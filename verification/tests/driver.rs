use ili9341_display::bus::BusAction;
use ili9341_display::bus::LCD;
use ili9341_display::bus::Line;
use ili9341_display::bus::Step;

#[test]
fn write_reg_frames_one_command_byte() {
    let mut lcd = LCD::init();
    lcd.write_reg(0x2a);
    assert_eq!(lcd.steps().as_slice(), &[Step::Command(0x2a)]);
    // Select line goes to command level before chip-select asserts, one
    // byte travels, and chip-select transitions low then high exactly once.
    assert_eq!(
        lcd.actions(),
        vec![
            BusAction::Select(Line::Low),
            BusAction::ChipSelect(Line::Low),
            BusAction::Transfer(0x2a),
            BusAction::ChipSelect(Line::High),
        ]
    );
}

#[test]
fn write_data_frames_one_data_byte() {
    let mut lcd = LCD::init();
    lcd.write_data(0x5f);
    assert_eq!(lcd.steps().as_slice(), &[Step::Data(0x5f)]);
    // Same framing as a command byte, but the select line holds the data
    // level for the whole byte.
    assert_eq!(
        lcd.actions(),
        vec![
            BusAction::Select(Line::High),
            BusAction::ChipSelect(Line::Low),
            BusAction::Transfer(0x5f),
            BusAction::ChipSelect(Line::High),
        ]
    );
}

#[test]
fn data_after_command_switches_select_level() {
    let mut lcd = LCD::init();
    lcd.write_reg(0x2c);
    lcd.write_data(0x12);
    let actions = lcd.actions();
    assert_eq!(actions.len(), 8);
    // The command byte travels at the command level...
    assert_eq!(actions[0], BusAction::Select(Line::Low));
    assert_eq!(actions[2], BusAction::Transfer(0x2c));
    // ...and the payload byte that follows is distinguished by the data
    // level, set before its own chip-select assertion.
    assert_eq!(actions[4], BusAction::Select(Line::High));
    assert_eq!(actions[5], BusAction::ChipSelect(Line::Low));
    assert_eq!(actions[6], BusAction::Transfer(0x12));
    assert_eq!(actions[7], BusAction::ChipSelect(Line::High));
}

#[test]
fn settle_is_a_single_wait() {
    let mut lcd = LCD::init();
    lcd.settle(120);
    assert_eq!(lcd.steps().as_slice(), &[Step::Settle(120)]);
    assert_eq!(lcd.actions(), vec![BusAction::Wait(120)]);
}

#[test]
fn transcript_starts_empty_and_keeps_order() {
    let lcd = LCD::init();
    assert!(lcd.steps().is_empty());
    assert!(lcd.actions().is_empty());

    let mut lcd = LCD::init();
    lcd.write_reg(0x11);
    lcd.settle(120);
    lcd.write_reg(0x29);
    assert_eq!(
        lcd.steps().as_slice(),
        &[Step::Command(0x11), Step::Settle(120), Step::Command(0x29)]
    );
    assert_eq!(
        lcd.actions(),
        vec![
            BusAction::Select(Line::Low),
            BusAction::ChipSelect(Line::Low),
            BusAction::Transfer(0x11),
            BusAction::ChipSelect(Line::High),
            BusAction::Wait(120),
            BusAction::Select(Line::Low),
            BusAction::ChipSelect(Line::Low),
            BusAction::Transfer(0x29),
            BusAction::ChipSelect(Line::High),
        ]
    );
}

#[test]
fn transport_configuration_matches_the_panel_bus() {
    let lcd = LCD::init();
    let c = lcd.transport_config();
    assert!(c.master);
    assert!(c.full_duplex);
    assert_eq!(c.frame_bits, 8);
    assert!(c.clock_idle_low);
    assert!(c.capture_first_edge);
    assert!(c.software_slave_select);
    assert_eq!(c.baud_divisor, 16);
}
