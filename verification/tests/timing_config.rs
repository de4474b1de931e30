use ili9341_display::panel::ILI9341;
use ili9341_display::timing::Color;
use ili9341_display::timing::ConfigError;
use ili9341_display::timing::LayerDescriptor;
use ili9341_display::timing::PixelClockPolarity;
use ili9341_display::timing::PixelFormat;
use ili9341_display::timing::Polarity;
use ili9341_display::timing::TimingController;
use ili9341_display::timing::ili9341_timing;
use ili9341_display::timing::H_SCAN_TOTAL;
use ili9341_display::timing::V_SCAN_TOTAL;

fn panel_layer() -> LayerDescriptor {
    LayerDescriptor {
        x: 0,
        y: 0,
        width: 240,
        height: 320,
        pixel_format: PixelFormat::RGB565,
        background: Color(0, 0, 0, 0),
        buffer_address: 0x2000_0000,
    }
}

#[test]
fn panel_timing_has_the_datasheet_values() {
    let t = ili9341_timing();
    assert_eq!(t.horizontal_sync, 10);
    assert_eq!(t.horizontal_back_porch, 20);
    assert_eq!(t.horizontal_front_porch, 10);
    assert_eq!(t.active_width, 240);
    assert_eq!(t.vertical_sync, 2);
    assert_eq!(t.vertical_back_porch, 2);
    assert_eq!(t.vertical_front_porch, 4);
    assert_eq!(t.active_height, 320);
    assert_eq!(t.horizontal_sync_polarity, Polarity::ActiveLow);
    assert_eq!(t.vertical_sync_polarity, Polarity::ActiveLow);
    assert_eq!(t.data_enable_polarity, Polarity::ActiveLow);
    assert_eq!(t.pixel_clock_polarity, PixelClockPolarity::Normal);
    assert_eq!(t.horizontal_sync, ILI9341::ILI9341_HSYNC);
    assert_eq!(t.vertical_sync, ILI9341::ILI9341_VSYNC);
    assert_eq!(t.active_width as usize, ILI9341::ILI9341_LCD_PIXEL_WIDTH);
    assert_eq!(t.active_height as usize, ILI9341::ILI9341_LCD_PIXEL_HEIGHT);
}

#[test]
fn panel_timing_sums_to_the_scan_totals() {
    let t = ili9341_timing();
    assert_eq!(
        t.active_width + t.horizontal_sync + t.horizontal_back_porch + t.horizontal_front_porch,
        H_SCAN_TOTAL
    );
    assert_eq!(H_SCAN_TOTAL, 280);
    assert_eq!(
        t.active_height + t.vertical_sync + t.vertical_back_porch + t.vertical_front_porch,
        V_SCAN_TOTAL
    );
    assert_eq!(V_SCAN_TOTAL, 328);
}

#[test]
fn configure_stores_values_exactly_as_given() {
    let mut c = TimingController::new();
    assert!(!c.is_configured());
    assert_eq!(c.current_config(), None);

    let t = ili9341_timing();
    let bg = Color(0, 0, 0, 0);
    c.configure(t, bg);
    assert!(c.is_configured());
    // Nothing rounded, nothing clamped: the stored tuple is the given one.
    assert_eq!(c.current_config(), Some((t, bg)));
}

#[test]
fn bind_layer_before_configure_is_rejected() {
    let mut c = TimingController::new();
    let r = c.bind_layer(1, panel_layer());
    assert_eq!(r, Err(ConfigError::NotConfigured));
    // A refused binding leaves the controller unchanged.
    assert!(!c.is_configured());
    assert_eq!(c.layer(1), None);
    assert_eq!(c.layer(2), None);
}

#[test]
fn bind_layer_after_configure_succeeds() {
    let mut c = TimingController::new();
    c.configure(ili9341_timing(), Color(0, 0, 0, 0));
    let d = panel_layer();
    assert_eq!(c.bind_layer(1, d), Ok(()));
    assert_eq!(c.layer(1), Some(d));
    assert_eq!(c.layer(2), None);

    let d2 = LayerDescriptor { x: 10, y: 20, ..d };
    assert_eq!(c.bind_layer(2, d2), Ok(()));
    assert_eq!(c.layer(1), Some(d));
    assert_eq!(c.layer(2), Some(d2));
}

#[test]
fn bind_layer_rejects_a_slot_the_hardware_does_not_have() {
    let mut c = TimingController::new();
    c.configure(ili9341_timing(), Color(0, 0, 0, 0));
    assert_eq!(c.bind_layer(0, panel_layer()), Err(ConfigError::InvalidLayer));
    assert_eq!(c.bind_layer(3, panel_layer()), Err(ConfigError::InvalidLayer));
    assert_eq!(c.layer(1), None);
    assert_eq!(c.layer(2), None);
    // Slots outside the hardware's two are never occupied.
    assert_eq!(c.layer(9), None);
}

#[test]
fn reconfigure_keeps_bound_layers() {
    let mut c = TimingController::new();
    c.configure(ili9341_timing(), Color(0, 0, 0, 0));
    let d = panel_layer();
    assert_eq!(c.bind_layer(1, d), Ok(()));

    let bg = Color(0xff, 0x10, 0x20, 0x30);
    c.configure(ili9341_timing(), bg);
    assert_eq!(c.current_config(), Some((ili9341_timing(), bg)));
    assert_eq!(c.layer(1), Some(d));
}
