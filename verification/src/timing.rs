//! Configuration of the pixel-timing generator that streams a framebuffer
//! to the panel.
//!
//! The generator must be programmed with sync widths, porches, active area
//! and polarities that match the panel's datasheet timing exactly;
//! mismatched values leave the panel unable to lock (a blank or rolling
//! image), so the configurator stores every caller-supplied value as it
//! was given — nothing is rounded or clamped.  One display layer (origin,
//! extent, pixel format, source buffer) is then bound to the generator;
//! binding a layer before the timing has been configured is rejected, so a
//! layer can never start streaming against stale timing.
//!
//! The configurator holds the intended peripheral state; programming the
//! physical registers from that state, and sequencing it after the panel
//! has reached display-on, is the surrounding program's part.

use vstd::prelude::*;

use crate::panel::ILI9341;

verus! {

/// Polarity of a synchronization or enable signal.
#[derive(Clone, Copy, Debug, PartialEq, Eq, Structural)]
pub enum Polarity {
    ActiveLow,
    ActiveHigh,
}

/// Polarity of the pixel clock.
#[derive(Clone, Copy, Debug, PartialEq, Eq, Structural)]
pub enum PixelClockPolarity {
    Normal,
    Inverted,
}

/// Pixel format of a display layer.  This system drives the panel with
/// 16-bit pixels split 5-6-5 over red, green and blue.
#[derive(Clone, Copy, Debug, PartialEq, Eq, Structural)]
pub enum PixelFormat {
    RGB565,
}

/// A color as alpha, red, green and blue channels.
#[derive(Clone, Copy, Debug, PartialEq, Eq, Structural)]
pub struct Color(pub u8, pub u8, pub u8, pub u8);

/// The counts and polarities the timing generator is programmed with:
/// four horizontal counts in pixel clocks, four vertical counts in lines,
/// and the signal polarities.
#[derive(Clone, Copy, Debug, PartialEq, Eq, Structural)]
pub struct TimingParams {
    /// Horizontal synchronization width.
    pub horizontal_sync: u16,
    /// Horizontal back porch.
    pub horizontal_back_porch: u16,
    /// Horizontal front porch.
    pub horizontal_front_porch: u16,
    /// Active width: the visible pixels of one line.
    pub active_width: u16,
    /// Vertical synchronization height.
    pub vertical_sync: u16,
    /// Vertical back porch.
    pub vertical_back_porch: u16,
    /// Vertical front porch.
    pub vertical_front_porch: u16,
    /// Active height: the visible lines of one frame.
    pub active_height: u16,
    /// Polarity of the horizontal sync signal.
    pub horizontal_sync_polarity: Polarity,
    /// Polarity of the vertical sync signal.
    pub vertical_sync_polarity: Polarity,
    /// Polarity of the data-enable signal.
    pub data_enable_polarity: Polarity,
    /// Polarity of the pixel clock.
    pub pixel_clock_polarity: PixelClockPolarity,
}

/// Total length of one horizontal scan line for this panel, in pixel
/// clocks: sync plus back porch plus active width plus front porch.
pub const H_SCAN_TOTAL: u16 = 280;

/// Total length of one frame for this panel, in lines: sync plus back
/// porch plus active height plus front porch.
pub const V_SCAN_TOTAL: u16 = 328;

/// The timing this panel's datasheet requires: the fixed sync and porch
/// counts, the native active area, all three signal polarities active-low,
/// and the pixel clock at its normal polarity.
pub open spec fn panel_timing() -> TimingParams {
    TimingParams {
        horizontal_sync: ILI9341::ILI9341_HSYNC,
        horizontal_back_porch: ILI9341::ILI9341_HBP,
        horizontal_front_porch: ILI9341::ILI9341_HFP,
        active_width: ILI9341::ILI9341_LCD_PIXEL_WIDTH as u16,
        vertical_sync: ILI9341::ILI9341_VSYNC,
        vertical_back_porch: ILI9341::ILI9341_VBP,
        vertical_front_porch: ILI9341::ILI9341_VFP,
        active_height: ILI9341::ILI9341_LCD_PIXEL_HEIGHT as u16,
        horizontal_sync_polarity: Polarity::ActiveLow,
        vertical_sync_polarity: Polarity::ActiveLow,
        data_enable_polarity: Polarity::ActiveLow,
        pixel_clock_polarity: PixelClockPolarity::Normal,
    }
}

/// The timing this panel's datasheet requires, as a value.
pub fn ili9341_timing() -> (t: TimingParams)
    ensures
        t == panel_timing(),
{
    TimingParams {
        horizontal_sync: ILI9341::ILI9341_HSYNC,
        horizontal_back_porch: ILI9341::ILI9341_HBP,
        horizontal_front_porch: ILI9341::ILI9341_HFP,
        active_width: 240,
        vertical_sync: ILI9341::ILI9341_VSYNC,
        vertical_back_porch: ILI9341::ILI9341_VBP,
        vertical_front_porch: ILI9341::ILI9341_VFP,
        active_height: 320,
        horizontal_sync_polarity: Polarity::ActiveLow,
        vertical_sync_polarity: Polarity::ActiveLow,
        data_enable_polarity: Polarity::ActiveLow,
        pixel_clock_polarity: PixelClockPolarity::Normal,
    }
}

/// Law: the panel timing's horizontal counts sum to exactly the scan-line
/// total and its vertical counts to exactly the frame total, and the
/// active area is the panel's native extent — the values fit the panel's
/// scan timing with nothing rounded or clamped.
pub proof fn lemma_panel_timing_totals()
    ensures
        panel_timing().active_width + panel_timing().horizontal_sync
            + panel_timing().horizontal_back_porch + panel_timing().horizontal_front_porch
            == H_SCAN_TOTAL,
        panel_timing().active_height + panel_timing().vertical_sync
            + panel_timing().vertical_back_porch + panel_timing().vertical_front_porch
            == V_SCAN_TOTAL,
        panel_timing().active_width as int == ILI9341::ILI9341_LCD_PIXEL_WIDTH as int,
        panel_timing().active_height as int == ILI9341::ILI9341_LCD_PIXEL_HEIGHT as int,
{
}

/// Geometry, pixel format, background color and source buffer of one
/// display layer.  The buffer address names the read-only framebuffer
/// region the generator streams from; the generator never writes to it.
#[derive(Clone, Copy, Debug, PartialEq, Eq, Structural)]
pub struct LayerDescriptor {
    /// Horizontal origin of the layer on the output.
    pub x: u16,
    /// Vertical origin of the layer on the output.
    pub y: u16,
    /// Width of the layer in pixels.
    pub width: u16,
    /// Height of the layer in lines.
    pub height: u16,
    /// Pixel format of the source buffer.
    pub pixel_format: PixelFormat,
    /// Background color blended behind the layer.
    pub background: Color,
    /// Base address of the source framebuffer region.
    pub buffer_address: usize,
}

/// Why a layer binding was refused.
#[derive(Clone, Copy, Debug, PartialEq, Eq, Structural)]
pub enum ConfigError {
    /// The timing generator has not been configured yet.
    NotConfigured,
    /// The hardware has no layer slot with the given number.
    InvalidLayer,
}

/// The timing generator's intended state: the programmed timing and
/// background, and the layers bound to its two hardware slots.
pub struct TimingController {
    config: Option<(TimingParams, Color)>,
    layer1: Option<LayerDescriptor>,
    layer2: Option<LayerDescriptor>,
}

impl TimingController {
    /// The programmed timing and background color, if `configure` has run.
    pub closed spec fn spec_config(self) -> Option<(TimingParams, Color)> {
        self.config
    }

    /// The descriptor bound to the first hardware layer slot, if any.
    pub closed spec fn spec_layer1(self) -> Option<LayerDescriptor> {
        self.layer1
    }

    /// The descriptor bound to the second hardware layer slot, if any.
    pub closed spec fn spec_layer2(self) -> Option<LayerDescriptor> {
        self.layer2
    }

    /// A timing generator that has not been configured: no timing, no
    /// bound layers.
    pub fn new() -> (c: TimingController)
        ensures
            c.spec_config() is None,
            c.spec_layer1() is None,
            c.spec_layer2() is None,
    {
        TimingController { config: None, layer1: None, layer2: None }
    }

    /// Programs the sync widths, porches, active area, polarities and
    /// background color.  Every value is stored exactly as given — no
    /// rounding, no clamping — and bound layers are untouched.
    pub fn configure(&mut self, timing: TimingParams, background: Color)
        ensures
            final(self).spec_config() == Some((timing, background)),
            final(self).spec_layer1() == old(self).spec_layer1(),
            final(self).spec_layer2() == old(self).spec_layer2(),
    {
        self.config = Some((timing, background));
    }

    /// Whether `configure` has run.
    pub fn is_configured(&self) -> (r: bool)
        ensures
            r == (self.spec_config() is Some),
    {
        match self.config {
            Some(_) => true,
            None => false,
        }
    }

    /// The programmed timing and background color, if any.
    pub fn current_config(&self) -> (r: Option<(TimingParams, Color)>)
        ensures
            r == self.spec_config(),
    {
        self.config
    }

    /// The descriptor bound to the given hardware layer slot (1 or 2).
    pub fn layer(&self, slot: u8) -> (r: Option<LayerDescriptor>)
        ensures
            slot == 1 ==> r == self.spec_layer1(),
            slot == 2 ==> r == self.spec_layer2(),
            slot != 1 && slot != 2 ==> r is None,
    {
        if slot == 1 {
            self.layer1
        } else if slot == 2 {
            self.layer2
        } else {
            None
        }
    }

    /// Attaches one layer descriptor to a hardware layer slot.  The
    /// binding is accepted exactly when the timing has already been
    /// configured and the slot exists; binding before `configure` is
    /// refused, so a layer can never stream against stale timing.  A
    /// refused binding leaves the generator unchanged.
    pub fn bind_layer(&mut self, slot: u8, layer: LayerDescriptor) -> (r: Result<
        (),
        ConfigError,
    >)
        ensures
            old(self).spec_config() is None ==> r == Err::<(), ConfigError>(
                ConfigError::NotConfigured,
            ) && *final(self) == *old(self),
            old(self).spec_config() is Some && slot != 1 && slot != 2 ==> r == Err::<
                (),
                ConfigError,
            >(ConfigError::InvalidLayer) && *final(self) == *old(self),
            old(self).spec_config() is Some && slot == 1 ==> r == Ok::<(), ConfigError>(())
                && final(self).spec_layer1() == Some(layer) && final(self).spec_layer2() == old(
                self,
            ).spec_layer2() && final(self).spec_config() == old(self).spec_config(),
            old(self).spec_config() is Some && slot == 2 ==> r == Ok::<(), ConfigError>(())
                && final(self).spec_layer2() == Some(layer) && final(self).spec_layer1() == old(
                self,
            ).spec_layer1() && final(self).spec_config() == old(self).spec_config(),
    {
        match self.config {
            None => Err(ConfigError::NotConfigured),
            Some(_) => {
                if slot == 1 {
                    self.layer1 = Some(layer);
                    Ok(())
                } else if slot == 2 {
                    self.layer2 = Some(layer);
                    Ok(())
                } else {
                    Err(ConfigError::InvalidLayer)
                }
            },
        }
    }
}

} // verus!
