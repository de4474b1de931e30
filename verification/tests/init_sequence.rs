use ili9341_display::bus::LCD;
use ili9341_display::bus::Step;
use ili9341_display::panel::ILI9341;
use ili9341_display::panel::init_sequence;
use ili9341_display::panel::run_sequence;
use ili9341_display::panel::window_payload;

/// The full initialization sequence, written out entry by entry as the
/// panel datasheet gives it.
fn expected_sequence() -> Vec<Step> {
    vec![
        // Vendor unlock and extended register setup.
        Step::Command(0xca),
        Step::Data(0xc3),
        Step::Data(0x08),
        Step::Data(0x50),
        Step::Command(0xcf), // power control B
        Step::Data(0x00),
        Step::Data(0xc1),
        Step::Data(0x30),
        Step::Command(0xed), // power on sequence
        Step::Data(0x64),
        Step::Data(0x03),
        Step::Data(0x12),
        Step::Data(0x81),
        Step::Command(0xe8), // driver timing control A
        Step::Data(0x85),
        Step::Data(0x00),
        Step::Data(0x78),
        Step::Command(0xcb), // power control A
        Step::Data(0x39),
        Step::Data(0x2c),
        Step::Data(0x00),
        Step::Data(0x34),
        Step::Data(0x02),
        Step::Command(0xf7), // pump ratio control
        Step::Data(0x20),
        Step::Command(0xea), // driver timing control B
        Step::Data(0x00),
        Step::Data(0x00),
        // Frame rate and display function control.
        Step::Command(0xb1),
        Step::Data(0x00),
        Step::Data(0x1b),
        Step::Command(0xb6),
        Step::Data(0x0a),
        Step::Data(0xa2),
        // Power and VCOM control.
        Step::Command(0xc0),
        Step::Data(0x10),
        Step::Command(0xc1),
        Step::Data(0x10),
        Step::Command(0xc5),
        Step::Data(0x45),
        Step::Data(0x15),
        Step::Command(0xc7),
        Step::Data(0x90),
        // Memory access control and 3-gamma enable.
        Step::Command(0x36),
        Step::Data(0xc8),
        Step::Command(0xf2),
        Step::Data(0x00),
        // RGB interface and display function refinement.
        Step::Command(0xb0),
        Step::Data(0xc2),
        Step::Command(0xb6),
        Step::Data(0x0a),
        Step::Data(0xa7),
        Step::Data(0x27),
        Step::Data(0x04),
        // Addressing window: full panel extent.
        Step::Command(0x2a),
        Step::Data(0x00),
        Step::Data(0x00),
        Step::Data(0x00),
        Step::Data(0xef),
        Step::Command(0x2b),
        Step::Data(0x00),
        Step::Data(0x00),
        Step::Data(0x01),
        Step::Data(0x3f),
        // Interface control.
        Step::Command(0xf6),
        Step::Data(0x01),
        Step::Data(0x00),
        Step::Data(0x06),
        // Frame-memory select, then the first settle pause.
        Step::Command(0x2c),
        Step::Settle(5),
        // Gamma curve select and both gamma tables.
        Step::Command(0x26),
        Step::Data(0x01),
        Step::Command(0xe0),
        Step::Data(0x0f),
        Step::Data(0x29),
        Step::Data(0x24),
        Step::Data(0x0c),
        Step::Data(0x0e),
        Step::Data(0x09),
        Step::Data(0x4e),
        Step::Data(0x78),
        Step::Data(0x3c),
        Step::Data(0x09),
        Step::Data(0x13),
        Step::Data(0x05),
        Step::Data(0x17),
        Step::Data(0x11),
        Step::Data(0x00),
        Step::Command(0xe1),
        Step::Data(0x00),
        Step::Data(0x16),
        Step::Data(0x1b),
        Step::Data(0x04),
        Step::Data(0x11),
        Step::Data(0x07),
        Step::Data(0x31),
        Step::Data(0x33),
        Step::Data(0x42),
        Step::Data(0x05),
        Step::Data(0x0c),
        Step::Data(0x0a),
        Step::Data(0x28),
        Step::Data(0x2f),
        Step::Data(0x0f),
        // Sleep-out, the second settle pause, display-on, and the final
        // frame-memory select that arms pixel writes.
        Step::Command(0x11),
        Step::Settle(120),
        Step::Command(0x29),
        Step::Command(0x2c),
    ]
}

#[test]
fn init_table_is_byte_for_byte_fixed() {
    assert_eq!(init_sequence(), expected_sequence());
}

#[test]
fn init_emits_exactly_the_fixed_sequence() {
    let lcd = LCD::init();
    let panel = ILI9341::init(lcd);
    assert_eq!(panel.transcript().as_slice(), expected_sequence().as_slice());

    // Two independent runs produce identical transcripts.
    let again = ILI9341::init(LCD::init());
    assert_eq!(panel.transcript(), again.transcript());
}

#[test]
fn init_record_starts_with_vendor_unlock_and_ends_with_gram() {
    let panel = ILI9341::init(LCD::init());
    let steps = panel.transcript();
    assert_eq!(steps.len(), 108);
    assert_eq!(steps[0], Step::Command(0xca));
    assert_eq!(steps[1], Step::Data(0xc3));
    assert_eq!(steps[2], Step::Data(0x08));
    assert_eq!(steps[3], Step::Data(0x50));
    // The last entry is the frame-memory select, with no data after it.
    assert_eq!(steps[107], Step::Command(0x2c));
}

#[test]
fn settle_pauses_sit_after_gram_select_and_sleep_out() {
    let panel = ILI9341::init(LCD::init());
    let steps = panel.transcript();
    assert_eq!(steps[68], Step::Command(0x2c));
    assert_eq!(steps[69], Step::Settle(ILI9341::SETTLE_AFTER_GRAM_MS));
    assert_eq!(steps[69], Step::Settle(5));
    assert_eq!(steps[104], Step::Command(0x11));
    assert_eq!(steps[105], Step::Settle(ILI9341::SETTLE_AFTER_SLEEP_OUT_MS));
    assert_eq!(steps[105], Step::Settle(120));
    // No other settle pauses anywhere.
    let settles = steps
        .iter()
        .filter(|s| matches!(s, Step::Settle(_)))
        .count();
    assert_eq!(settles, 2);
}

#[test]
fn addressing_window_covers_the_full_panel() {
    let panel = ILI9341::init(LCD::init());
    let steps = panel.transcript();
    // Column window [0, width - 1]: start 0x0000, end 0x00ef = 239.
    assert_eq!(steps[54], Step::Command(0x2a));
    assert_eq!(&steps[55..59], &[
        Step::Data(0x00),
        Step::Data(0x00),
        Step::Data(0x00),
        Step::Data(0xef),
    ]);
    // Page window [0, height - 1]: start 0x0000, end 0x013f = 319.
    assert_eq!(steps[59], Step::Command(0x2b));
    assert_eq!(&steps[60..64], &[
        Step::Data(0x00),
        Step::Data(0x00),
        Step::Data(0x01),
        Step::Data(0x3f),
    ]);
    assert_eq!(0x00 * 256 + 0xef, ILI9341::ILI9341_LCD_PIXEL_WIDTH - 1);
    assert_eq!(0x01 * 256 + 0x3f, ILI9341::ILI9341_LCD_PIXEL_HEIGHT - 1);
}

#[test]
fn window_payload_splits_a_bound_into_high_and_low_bytes() {
    assert_eq!(window_payload(239), (0x00, 0xef));
    assert_eq!(window_payload(319), (0x01, 0x3f));
    assert_eq!(window_payload(0), (0x00, 0x00));
    assert_eq!(window_payload(0x1234), (0x12, 0x34));
    assert_eq!(window_payload(0xffff), (0xff, 0xff));
}

#[test]
fn on_then_off_appends_two_bare_commands() {
    let lcd = LCD::init();
    let mut panel = ILI9341::init(lcd);
    let after_init = panel.transcript().clone();
    panel.on();
    panel.off();
    let steps = panel.transcript();
    // Display-on then display-off, in that order, each a single command
    // select with no payload, and the initialization sequence not re-run.
    assert_eq!(steps.len(), after_init.len() + 2);
    assert_eq!(&steps[..after_init.len()], after_init.as_slice());
    assert_eq!(steps[after_init.len()], Step::Command(0x29));
    assert_eq!(steps[after_init.len() + 1], Step::Command(0x28));
}

#[test]
fn run_sequence_appends_to_an_existing_transcript() {
    let mut lcd = LCD::init();
    lcd.write_reg(0x01);
    let table = vec![Step::Command(0x28), Step::Data(0xaa), Step::Settle(7)];
    run_sequence(&mut lcd, &table);
    assert_eq!(lcd.steps().as_slice(), &[
        Step::Command(0x01),
        Step::Command(0x28),
        Step::Data(0xaa),
        Step::Settle(7),
    ]);
}
