//! Panel controller driver: register map, power-on initialization
//! sequence, and the display-on/off commands.
//!
//! The initialization sequence is the datasheet-mandated bring-up of the
//! controller, represented as a data-driven table of transcript entries
//! (register selects, payload bytes, settle pauses) executed by one
//! interpreter loop.  The table is a fixed constant: running it always
//! emits the same bytes in the same order, stage by stage:
//!
//! 1. unlock of the extended/vendor registers (power control B, power-on
//!    sequence, driver timing control A/B, power control A, pump ratio),
//! 2. frame-rate control and display-function control,
//! 3. power control and VCOM control,
//! 4. memory-access control and the 3-gamma enable,
//! 5. RGB-interface control and the display-function refinement,
//! 6. the addressing window, set to the full panel extent,
//! 7. interface control,
//! 8. frame-memory select followed by the first settle pause,
//! 9. gamma curve select and the positive/negative gamma tables,
//! 10. sleep-out followed by the second settle pause,
//! 11. display-on,
//! 12. a final frame-memory select that arms continuous pixel writes.
//!
//! Reordering the stages risks the panel latching an invalid
//! configuration, so the order is pinned by making the whole sequence one
//! constant and proving the driver emits exactly that constant.

use vstd::prelude::*;

use crate::bus::LCD;
use crate::bus::Line;
use crate::bus::Step;
use crate::bus::lemma_transcript_concat;
use crate::bus::record_of;

verus! {

/// Handle to a panel that has been taken through the full initialization
/// sequence.  Its view is the protocol driver's transcript.
pub struct ILI9341 {
    lcd: LCD,
}

impl View for ILI9341 {
    type V = Seq<Step>;

    closed spec fn view(&self) -> Seq<Step> {
        self.lcd@
    }
}

impl ILI9341 {
    /// Native pixel width of the panel.
    pub const ILI9341_LCD_PIXEL_WIDTH: usize = 240;

    /// Native pixel height of the panel.
    pub const ILI9341_LCD_PIXEL_HEIGHT: usize = 320;

    /// Horizontal synchronization width, in pixel clocks.
    pub const ILI9341_HSYNC: u16 = 10;

    /// Horizontal back porch, in pixel clocks.
    pub const ILI9341_HBP: u16 = 20;

    /// Horizontal front porch, in pixel clocks.
    pub const ILI9341_HFP: u16 = 10;

    /// Vertical synchronization height, in lines.
    pub const ILI9341_VSYNC: u16 = 2;

    /// Vertical back porch, in lines.
    pub const ILI9341_VBP: u16 = 2;

    /// Vertical front porch, in lines.
    pub const ILI9341_VFP: u16 = 4;

    /// Minimum pause after the first frame-memory select, in milliseconds.
    pub const SETTLE_AFTER_GRAM_MS: u32 = 5;

    /// Minimum pause after sleep-out, in milliseconds.
    pub const SETTLE_AFTER_SLEEP_OUT_MS: u32 = 120;

    /* Level 1 commands */

    /// Software reset.
    pub const LCD_SWRESET: u8 = 0x01;

    /// Read display identification information.
    pub const LCD_READ_DISPLAY_ID: u8 = 0x04;

    /// Read display status.
    pub const LCD_RDDST: u8 = 0x09;

    /// Read display power mode.
    pub const LCD_RDDPM: u8 = 0x0a;

    /// Read display memory-access control.
    pub const LCD_RDDMADCTL: u8 = 0x0b;

    /// Read display pixel format.
    pub const LCD_RDDCOLMOD: u8 = 0x0c;

    /// Read display image format.
    pub const LCD_RDDIM: u8 = 0x0d;

    /// Read display signal mode.
    pub const LCD_RDDSM: u8 = 0x0e;

    /// Read display self-diagnostic result.
    pub const LCD_RDDSDR: u8 = 0x0f;

    /// Enter sleep mode.
    pub const LCD_SPLIN: u8 = 0x10;

    /// Sleep out register.
    pub const LCD_SLEEP_OUT: u8 = 0x11;

    /// Partial mode on.
    pub const LCD_PTLON: u8 = 0x12;

    /// Normal display mode on.
    pub const LCD_NORMAL_MODE_ON: u8 = 0x13;

    /// Display inversion off.
    pub const LCD_DINVOFF: u8 = 0x20;

    /// Display inversion on.
    pub const LCD_DINVON: u8 = 0x21;

    /// Gamma register.
    pub const LCD_GAMMA: u8 = 0x26;

    /// Display off register.
    pub const LCD_DISPLAY_OFF: u8 = 0x28;

    /// Display on register.
    pub const LCD_DISPLAY_ON: u8 = 0x29;

    /// Column address register.
    pub const LCD_COLUMN_ADDR: u8 = 0x2a;

    /// Page address register.
    pub const LCD_PAGE_ADDR: u8 = 0x2b;

    /// Frame-memory (GRAM) register.
    pub const LCD_GRAM: u8 = 0x2c;

    /// Color set.
    pub const LCD_RGBSET: u8 = 0x2d;

    /// Memory read.
    pub const LCD_RAMRD: u8 = 0x2e;

    /// Partial area.
    pub const LCD_PLTAR: u8 = 0x30;

    /// Vertical scrolling definition.
    pub const LCD_VSCRDEF: u8 = 0x33;

    /// Tearing effect line off.
    pub const LCD_TEOFF: u8 = 0x34;

    /// Tearing effect line on.
    pub const LCD_TEON: u8 = 0x35;

    /// Memory access control register.
    pub const LCD_MAC: u8 = 0x36;

    /// Vertical scrolling start address.
    pub const LCD_VSCRSADD: u8 = 0x37;

    /// Idle mode off.
    pub const LCD_IDMOFF: u8 = 0x38;

    /// Idle mode on.
    pub const LCD_IDMON: u8 = 0x39;

    /// Pixel format register.
    pub const LCD_PIXEL_FORMAT: u8 = 0x3a;

    /// Write memory continue.
    pub const LCD_WRITE_MEM_CONTINUE: u8 = 0x3c;

    /// Read memory continue.
    pub const LCD_READ_MEM_CONTINUE: u8 = 0x3e;

    /// Set tear scanline.
    pub const LCD_SET_TEAR_SCANLINE: u8 = 0x44;

    /// Get scanline.
    pub const LCD_GET_SCANLINE: u8 = 0x45;

    /// Write brightness display register.
    pub const LCD_WDB: u8 = 0x51;

    /// Read display brightness.
    pub const LCD_RDDISBV: u8 = 0x52;

    /// Write control display register.
    pub const LCD_WCD: u8 = 0x53;

    /// Read control display.
    pub const LCD_RDCTRLD: u8 = 0x54;

    /// Write content adaptive brightness control.
    pub const LCD_WRCABC: u8 = 0x55;

    /// Read content adaptive brightness control.
    pub const LCD_RDCABC: u8 = 0x56;

    /// Write CABC minimum brightness.
    pub const LCD_WRITE_CABC: u8 = 0x5e;

    /// Read CABC minimum brightness.
    pub const LCD_READ_CABC: u8 = 0x5f;

    /// Read ID1.
    pub const LCD_READ_ID1: u8 = 0xda;

    /// Read ID2.
    pub const LCD_READ_ID2: u8 = 0xdb;

    /// Read ID3.
    pub const LCD_READ_ID3: u8 = 0xdc;

    /* Level 2 commands */

    /// RGB interface signal control.
    pub const LCD_RGB_INTERFACE: u8 = 0xb0;

    /// Frame rate control (in normal mode).
    pub const LCD_FRMCTR1: u8 = 0xb1;

    /// Frame rate control (in idle mode).
    pub const LCD_FRMCTR2: u8 = 0xb2;

    /// Frame rate control (in partial mode).
    pub const LCD_FRMCTR3: u8 = 0xb3;

    /// Display inversion control.
    pub const LCD_INVTR: u8 = 0xb4;

    /// Blanking porch control register.
    pub const LCD_BPC: u8 = 0xb5;

    /// Display function control register.
    pub const LCD_DFC: u8 = 0xb6;

    /// Entry mode set.
    pub const LCD_ETMOD: u8 = 0xb7;

    /// Backlight control 1.
    pub const LCD_BACKLIGHT1: u8 = 0xb8;

    /// Backlight control 2.
    pub const LCD_BACKLIGHT2: u8 = 0xb9;

    /// Backlight control 3.
    pub const LCD_BACKLIGHT3: u8 = 0xba;

    /// Backlight control 4.
    pub const LCD_BACKLIGHT4: u8 = 0xbb;

    /// Backlight control 5.
    pub const LCD_BACKLIGHT5: u8 = 0xbc;

    /// Backlight control 7.
    pub const LCD_BACKLIGHT7: u8 = 0xbe;

    /// Backlight control 8.
    pub const LCD_BACKLIGHT8: u8 = 0xbf;

    /// Power control 1 register.
    pub const LCD_POWER1: u8 = 0xc0;

    /// Power control 2 register.
    pub const LCD_POWER2: u8 = 0xc1;

    /// VCOM control 1 register.
    pub const LCD_VCOM1: u8 = 0xc5;

    /// VCOM control 2 register.
    pub const LCD_VCOM2: u8 = 0xc7;

    /// NV memory write.
    pub const LCD_NVMWR: u8 = 0xd0;

    /// NV memory protection key.
    pub const LCD_NVMPKEY: u8 = 0xd1;

    /// NV memory status read.
    pub const LCD_RDNVM: u8 = 0xd2;

    /// Read ID4.
    pub const LCD_READ_ID4: u8 = 0xd3;

    /// Positive gamma correction register.
    pub const LCD_PGAMMA: u8 = 0xe0;

    /// Negative gamma correction register.
    pub const LCD_NGAMMA: u8 = 0xe1;

    /// Digital gamma control 1.
    pub const LCD_DGAMCTRL1: u8 = 0xe2;

    /// Digital gamma control 2.
    pub const LCD_DGAMCTRL2: u8 = 0xe3;

    /// Interface control register.
    pub const LCD_INTERFACE: u8 = 0xf6;

    /* Extended register commands */

    /// Power control A register.
    pub const LCD_POWERA: u8 = 0xcb;

    /// Power control B register.
    pub const LCD_POWERB: u8 = 0xcf;

    /// Driver timing control A.
    pub const LCD_DTCA: u8 = 0xe8;

    /// Driver timing control B.
    pub const LCD_DTCB: u8 = 0xea;

    /// Power on sequence register.
    pub const LCD_POWER_SEQ: u8 = 0xed;

    /// 3 gamma enable register.
    pub const LCD_3GAMMA_EN: u8 = 0xf2;

    /// Pump ratio control register.
    pub const LCD_PRC: u8 = 0xf7;

    /// Runs the full initialization sequence over the given protocol
    /// driver and returns the handle to the now-active panel.  The
    /// transcript is extended by exactly the fixed sequence: every run
    /// emits the same entries in the same order.
    pub fn init(lcd: LCD) -> (panel: ILI9341)
        ensures
            panel@ == lcd@ + init_steps(),
    {
        let mut dev = lcd;
        let table = init_sequence();
        run_sequence(&mut dev, &table);
        ILI9341 { lcd: dev }
    }

    /// Selects the display-on register: one command byte, no payload,
    /// and nothing of the initialization sequence is repeated.
    pub fn on(&mut self)
        ensures
            final(self)@ == old(self)@.push(Step::Command(ILI9341::LCD_DISPLAY_ON)),
    {
        self.lcd.write_reg(Self::LCD_DISPLAY_ON);
    }

    /// Selects the display-off register: one command byte, no payload,
    /// and nothing of the initialization sequence is repeated.
    pub fn off(&mut self)
        ensures
            final(self)@ == old(self)@.push(Step::Command(ILI9341::LCD_DISPLAY_OFF)),
    {
        self.lcd.write_reg(Self::LCD_DISPLAY_OFF);
    }

    /// The transcript recorded for this panel so far.
    pub fn transcript(&self) -> (r: &Vec<Step>)
        ensures
            r@ == self@,
    {
        self.lcd.steps()
    }

    /// The ordered stream of line-level actions that realizes this
    /// panel's transcript on the wire.
    pub fn actions(&self) -> (r: Vec<crate::bus::BusAction>)
        ensures
            r@ == crate::bus::wire_of(self@),
    {
        self.lcd.actions()
    }
}

/// Unlock of the extended/vendor registers: the vendor unlock command,
/// power control B, the power-on sequence, driver timing control A,
/// power control A, pump ratio control, and driver timing control B.
pub open spec fn stage_unlock() -> Seq<Step> {
    seq![
        Step::Command(0xca),
        Step::Data(0xc3),
        Step::Data(0x08),
        Step::Data(0x50),
        Step::Command(ILI9341::LCD_POWERB),
        Step::Data(0x00),
        Step::Data(0xc1),
        Step::Data(0x30),
        Step::Command(ILI9341::LCD_POWER_SEQ),
        Step::Data(0x64),
        Step::Data(0x03),
        Step::Data(0x12),
        Step::Data(0x81),
        Step::Command(ILI9341::LCD_DTCA),
        Step::Data(0x85),
        Step::Data(0x00),
        Step::Data(0x78),
        Step::Command(ILI9341::LCD_POWERA),
        Step::Data(0x39),
        Step::Data(0x2c),
        Step::Data(0x00),
        Step::Data(0x34),
        Step::Data(0x02),
        Step::Command(ILI9341::LCD_PRC),
        Step::Data(0x20),
        Step::Command(ILI9341::LCD_DTCB),
        Step::Data(0x00),
        Step::Data(0x00),
    ]
}

/// Frame-rate control and display-function control.
pub open spec fn stage_frame_rate() -> Seq<Step> {
    seq![
        Step::Command(ILI9341::LCD_FRMCTR1),
        Step::Data(0x00),
        Step::Data(0x1b),
        Step::Command(ILI9341::LCD_DFC),
        Step::Data(0x0a),
        Step::Data(0xa2),
    ]
}

/// Power control 1/2 and VCOM control 1/2.
pub open spec fn stage_power() -> Seq<Step> {
    seq![
        Step::Command(ILI9341::LCD_POWER1),
        Step::Data(0x10),
        Step::Command(ILI9341::LCD_POWER2),
        Step::Data(0x10),
        Step::Command(ILI9341::LCD_VCOM1),
        Step::Data(0x45),
        Step::Data(0x15),
        Step::Command(ILI9341::LCD_VCOM2),
        Step::Data(0x90),
    ]
}

/// Memory-access control and the 3-gamma enable.
pub open spec fn stage_memory_access() -> Seq<Step> {
    seq![
        Step::Command(ILI9341::LCD_MAC),
        Step::Data(0xc8),
        Step::Command(ILI9341::LCD_3GAMMA_EN),
        Step::Data(0x00),
    ]
}

/// RGB-interface control and the display-function refinement.
pub open spec fn stage_rgb_interface() -> Seq<Step> {
    seq![
        Step::Command(ILI9341::LCD_RGB_INTERFACE),
        Step::Data(0xc2),
        Step::Command(ILI9341::LCD_DFC),
        Step::Data(0x0a),
        Step::Data(0xa7),
        Step::Data(0x27),
        Step::Data(0x04),
    ]
}

/// Addressing window: column and page address registers set to the full
/// panel extent, each as start high/low byte then end high/low byte.
pub open spec fn stage_addressing() -> Seq<Step> {
    seq![
        Step::Command(ILI9341::LCD_COLUMN_ADDR),
        Step::Data(0x00),
        Step::Data(0x00),
        Step::Data(0x00),
        Step::Data(0xef),
        Step::Command(ILI9341::LCD_PAGE_ADDR),
        Step::Data(0x00),
        Step::Data(0x00),
        Step::Data(0x01),
        Step::Data(0x3f),
    ]
}

/// Interface control.
pub open spec fn stage_interface_control() -> Seq<Step> {
    seq![
        Step::Command(ILI9341::LCD_INTERFACE),
        Step::Data(0x01),
        Step::Data(0x00),
        Step::Data(0x06),
    ]
}

/// Frame-memory select followed by the first settle pause.
pub open spec fn stage_gram_settle() -> Seq<Step> {
    seq![Step::Command(ILI9341::LCD_GRAM), Step::Settle(ILI9341::SETTLE_AFTER_GRAM_MS)]
}

/// Gamma curve select and the positive and negative gamma tables, which
/// must be reproduced byte for byte for the panel to render correct
/// colors.
pub open spec fn stage_gamma() -> Seq<Step> {
    seq![
        Step::Command(ILI9341::LCD_GAMMA),
        Step::Data(0x01),
        Step::Command(ILI9341::LCD_PGAMMA),
        Step::Data(0x0f),
        Step::Data(0x29),
        Step::Data(0x24),
        Step::Data(0x0c),
        Step::Data(0x0e),
        Step::Data(0x09),
        Step::Data(0x4e),
        Step::Data(0x78),
        Step::Data(0x3c),
        Step::Data(0x09),
        Step::Data(0x13),
        Step::Data(0x05),
        Step::Data(0x17),
        Step::Data(0x11),
        Step::Data(0x00),
        Step::Command(ILI9341::LCD_NGAMMA),
        Step::Data(0x00),
        Step::Data(0x16),
        Step::Data(0x1b),
        Step::Data(0x04),
        Step::Data(0x11),
        Step::Data(0x07),
        Step::Data(0x31),
        Step::Data(0x33),
        Step::Data(0x42),
        Step::Data(0x05),
        Step::Data(0x0c),
        Step::Data(0x0a),
        Step::Data(0x28),
        Step::Data(0x2f),
        Step::Data(0x0f),
    ]
}

/// Sleep-out followed by the second settle pause.
pub open spec fn stage_sleep_out() -> Seq<Step> {
    seq![Step::Command(ILI9341::LCD_SLEEP_OUT), Step::Settle(ILI9341::SETTLE_AFTER_SLEEP_OUT_MS)]
}

/// Display-on.
pub open spec fn stage_display_on() -> Seq<Step> {
    seq![Step::Command(ILI9341::LCD_DISPLAY_ON)]
}

/// A final frame-memory select, arming continuous pixel writes.
pub open spec fn stage_arm_gram() -> Seq<Step> {
    seq![Step::Command(ILI9341::LCD_GRAM)]
}

/// The full initialization sequence, stage by stage, in the order the
/// panel requires.
pub open spec fn init_steps() -> Seq<Step> {
    stage_unlock() + stage_frame_rate() + stage_power() + stage_memory_access()
        + stage_rgb_interface() + stage_addressing() + stage_interface_control()
        + stage_gram_settle() + stage_gamma() + stage_sleep_out() + stage_display_on()
        + stage_arm_gram()
}

/// High and low byte of an inclusive addressing-window bound, as the
/// column/page address registers take them.
pub fn window_payload(bound: u16) -> (r: (u8, u8))
    ensures
        r.0 as int * 256 + r.1 as int == bound as int,
{
    proof {
        assert((bound >> 8) < 256 && (bound & 0xff) < 256 && (bound >> 8) * 256 + (bound & 0xff)
            == bound) by (bit_vector);
    }
    ((bound >> 8) as u8, (bound & 0xff) as u8)
}

/// Builds the initialization table: the concrete, auditable list of
/// register selects, payload bytes, and settle pauses, equal to the fixed
/// sequence.  The addressing-window entries are derived from the panel's
/// native extent rather than written out by hand.
#[verifier::rlimit(100)]
pub fn init_sequence() -> (t: Vec<Step>)
    ensures
        t@ == init_steps(),
{
    let mut t: Vec<Step> = Vec::new();

    t.push(Step::Command(0xca));
    t.push(Step::Data(0xc3));
    t.push(Step::Data(0x08));
    t.push(Step::Data(0x50));
    t.push(Step::Command(ILI9341::LCD_POWERB));
    t.push(Step::Data(0x00));
    t.push(Step::Data(0xc1));
    t.push(Step::Data(0x30));
    t.push(Step::Command(ILI9341::LCD_POWER_SEQ));
    t.push(Step::Data(0x64));
    t.push(Step::Data(0x03));
    t.push(Step::Data(0x12));
    t.push(Step::Data(0x81));
    t.push(Step::Command(ILI9341::LCD_DTCA));
    t.push(Step::Data(0x85));
    t.push(Step::Data(0x00));
    t.push(Step::Data(0x78));
    t.push(Step::Command(ILI9341::LCD_POWERA));
    t.push(Step::Data(0x39));
    t.push(Step::Data(0x2c));
    t.push(Step::Data(0x00));
    t.push(Step::Data(0x34));
    t.push(Step::Data(0x02));
    t.push(Step::Command(ILI9341::LCD_PRC));
    t.push(Step::Data(0x20));
    t.push(Step::Command(ILI9341::LCD_DTCB));
    t.push(Step::Data(0x00));
    t.push(Step::Data(0x00));
    assert(t@ =~= stage_unlock());

    t.push(Step::Command(ILI9341::LCD_FRMCTR1));
    t.push(Step::Data(0x00));
    t.push(Step::Data(0x1b));
    t.push(Step::Command(ILI9341::LCD_DFC));
    t.push(Step::Data(0x0a));
    t.push(Step::Data(0xa2));
    assert(t@ =~= stage_unlock() + stage_frame_rate());

    t.push(Step::Command(ILI9341::LCD_POWER1));
    t.push(Step::Data(0x10));
    t.push(Step::Command(ILI9341::LCD_POWER2));
    t.push(Step::Data(0x10));
    t.push(Step::Command(ILI9341::LCD_VCOM1));
    t.push(Step::Data(0x45));
    t.push(Step::Data(0x15));
    t.push(Step::Command(ILI9341::LCD_VCOM2));
    t.push(Step::Data(0x90));
    assert(t@ =~= stage_unlock() + stage_frame_rate() + stage_power());

    t.push(Step::Command(ILI9341::LCD_MAC));
    t.push(Step::Data(0xc8));
    t.push(Step::Command(ILI9341::LCD_3GAMMA_EN));
    t.push(Step::Data(0x00));
    assert(t@ =~= stage_unlock() + stage_frame_rate() + stage_power() + stage_memory_access());

    t.push(Step::Command(ILI9341::LCD_RGB_INTERFACE));
    t.push(Step::Data(0xc2));
    t.push(Step::Command(ILI9341::LCD_DFC));
    t.push(Step::Data(0x0a));
    t.push(Step::Data(0xa7));
    t.push(Step::Data(0x27));
    t.push(Step::Data(0x04));
    assert(t@ =~= stage_unlock() + stage_frame_rate() + stage_power() + stage_memory_access()
        + stage_rgb_interface());

    let column_end: u16 = (ILI9341::ILI9341_LCD_PIXEL_WIDTH - 1) as u16;
    let page_end: u16 = (ILI9341::ILI9341_LCD_PIXEL_HEIGHT - 1) as u16;
    let (column_hi, column_lo) = window_payload(column_end);
    let (page_hi, page_lo) = window_payload(page_end);
    assert(column_hi == 0x00 && column_lo == 0xef);
    assert(page_hi == 0x01 && page_lo == 0x3f);
    t.push(Step::Command(ILI9341::LCD_COLUMN_ADDR));
    t.push(Step::Data(0x00));
    t.push(Step::Data(0x00));
    t.push(Step::Data(column_hi));
    t.push(Step::Data(column_lo));
    t.push(Step::Command(ILI9341::LCD_PAGE_ADDR));
    t.push(Step::Data(0x00));
    t.push(Step::Data(0x00));
    t.push(Step::Data(page_hi));
    t.push(Step::Data(page_lo));
    assert(t@ =~= stage_unlock() + stage_frame_rate() + stage_power() + stage_memory_access()
        + stage_rgb_interface() + stage_addressing());

    t.push(Step::Command(ILI9341::LCD_INTERFACE));
    t.push(Step::Data(0x01));
    t.push(Step::Data(0x00));
    t.push(Step::Data(0x06));
    assert(t@ =~= stage_unlock() + stage_frame_rate() + stage_power() + stage_memory_access()
        + stage_rgb_interface() + stage_addressing() + stage_interface_control());

    t.push(Step::Command(ILI9341::LCD_GRAM));
    t.push(Step::Settle(ILI9341::SETTLE_AFTER_GRAM_MS));
    assert(t@ =~= stage_unlock() + stage_frame_rate() + stage_power() + stage_memory_access()
        + stage_rgb_interface() + stage_addressing() + stage_interface_control()
        + stage_gram_settle());

    t.push(Step::Command(ILI9341::LCD_GAMMA));
    t.push(Step::Data(0x01));
    t.push(Step::Command(ILI9341::LCD_PGAMMA));
    t.push(Step::Data(0x0f));
    t.push(Step::Data(0x29));
    t.push(Step::Data(0x24));
    t.push(Step::Data(0x0c));
    t.push(Step::Data(0x0e));
    t.push(Step::Data(0x09));
    t.push(Step::Data(0x4e));
    t.push(Step::Data(0x78));
    t.push(Step::Data(0x3c));
    t.push(Step::Data(0x09));
    t.push(Step::Data(0x13));
    t.push(Step::Data(0x05));
    t.push(Step::Data(0x17));
    t.push(Step::Data(0x11));
    t.push(Step::Data(0x00));
    t.push(Step::Command(ILI9341::LCD_NGAMMA));
    t.push(Step::Data(0x00));
    t.push(Step::Data(0x16));
    t.push(Step::Data(0x1b));
    t.push(Step::Data(0x04));
    t.push(Step::Data(0x11));
    t.push(Step::Data(0x07));
    t.push(Step::Data(0x31));
    t.push(Step::Data(0x33));
    t.push(Step::Data(0x42));
    t.push(Step::Data(0x05));
    t.push(Step::Data(0x0c));
    t.push(Step::Data(0x0a));
    t.push(Step::Data(0x28));
    t.push(Step::Data(0x2f));
    t.push(Step::Data(0x0f));
    assert(t@ =~= stage_unlock() + stage_frame_rate() + stage_power() + stage_memory_access()
        + stage_rgb_interface() + stage_addressing() + stage_interface_control()
        + stage_gram_settle() + stage_gamma());

    t.push(Step::Command(ILI9341::LCD_SLEEP_OUT));
    t.push(Step::Settle(ILI9341::SETTLE_AFTER_SLEEP_OUT_MS));
    t.push(Step::Command(ILI9341::LCD_DISPLAY_ON));
    t.push(Step::Command(ILI9341::LCD_GRAM));
    assert(t@ =~= stage_unlock() + stage_frame_rate() + stage_power() + stage_memory_access()
        + stage_rgb_interface() + stage_addressing() + stage_interface_control()
        + stage_gram_settle() + stage_gamma() + stage_sleep_out() + stage_display_on()
        + stage_arm_gram());

    t
}

/// Interprets a table of transcript entries over the protocol driver, in
/// order: the driver's transcript is extended by exactly the table.
pub fn run_sequence(lcd: &mut LCD, steps: &Vec<Step>)
    ensures
        final(lcd)@ == old(lcd)@ + steps@,
{
    let n = steps.len();
    let mut i: usize = 0;
    while i < n
        invariant
            n == steps.len(),
            i <= n,
            lcd@ == old(lcd)@ + steps@.take(i as int),
        decreases n - i,
    {
        let s = steps[i];
        match s {
            Step::Command(b) => lcd.write_reg(b),
            Step::Data(b) => lcd.write_data(b),
            Step::Settle(ms) => lcd.settle(ms),
        }
        proof {
            assert(old(lcd)@ + steps@.take(i + 1) =~= (old(lcd)@ + steps@.take(i as int)).push(
                steps@[i as int],
            ));
        }
        i = i + 1;
    }
    proof {
        assert(old(lcd)@ + steps@.take(n as int) =~= old(lcd)@ + steps@);
    }
}

/// Law: the initialization sequence is one fixed list.  Recorded as
/// select-level/byte pairs it begins with the vendor unlock command and
/// its three payload bytes and ends with the frame-memory select, a
/// command with no trailing data; the settle pauses carry no byte and sit
/// after the first frame-memory select and after sleep-out.
pub proof fn lemma_init_sequence_record()
    ensures
        init_steps().len() == 108,
        init_steps()[0] == Step::Command(0xca),
        init_steps()[1] == Step::Data(0xc3),
        init_steps()[2] == Step::Data(0x08),
        init_steps()[3] == Step::Data(0x50),
        init_steps().last() == Step::Command(ILI9341::LCD_GRAM),
        record_of(init_steps())[0] == (Line::Low, 0xcau8),
        record_of(init_steps())[1] == (Line::High, 0xc3u8),
        record_of(init_steps())[2] == (Line::High, 0x08u8),
        record_of(init_steps())[3] == (Line::High, 0x50u8),
        record_of(init_steps()).len() > 0,
        record_of(init_steps()).last() == (Line::Low, ILI9341::LCD_GRAM),
{
    let s = init_steps();
    let vendor = seq![
        Step::Command(0xca),
        Step::Data(0xc3),
        Step::Data(0x08),
        Step::Data(0x50),
    ];
    let tail = s.skip(4);
    assert(s =~= vendor + tail);
    lemma_transcript_concat(vendor, tail);

    // Record of the four vendor-unlock entries, one entry at a time.
    let v0 = Seq::<Step>::empty();
    let v1 = v0.push(Step::Command(0xca));
    let v2 = v1.push(Step::Data(0xc3));
    let v3 = v2.push(Step::Data(0x08));
    let v4 = v3.push(Step::Data(0x50));
    assert(vendor =~= v4);
    assert(v1.drop_last() =~= v0);
    assert(v2.drop_last() =~= v1);
    assert(v3.drop_last() =~= v2);
    assert(v4.drop_last() =~= v3);
    assert(record_of(v0) == Seq::<(Line, u8)>::empty());
    assert(record_of(v1) == record_of(v0).push((Line::Low, 0xcau8)));
    assert(record_of(v2) == record_of(v1).push((Line::High, 0xc3u8)));
    assert(record_of(v3) == record_of(v2).push((Line::High, 0x08u8)));
    assert(record_of(v4) == record_of(v3).push((Line::High, 0x50u8)));
    assert(record_of(vendor).len() == 4);
    assert(record_of(s)[0] == (Line::Low, 0xcau8));

    // The final frame-memory select is the last recorded pair.
    let front = s.drop_last();
    assert(s.last() == Step::Command(ILI9341::LCD_GRAM));
    assert(record_of(s) == record_of(front).push((Line::Low, ILI9341::LCD_GRAM)));
}

/// Law: the addressing window the sequence programs is the full panel
/// extent.  Both windows start at zero; the column window's end bytes
/// encode the pixel width minus one and the page window's end bytes
/// encode the pixel height minus one; and the addressing stage stands,
/// unaltered and in order, inside the fixed sequence.
pub proof fn lemma_addressing_window()
    ensures
        stage_addressing()[0] == Step::Command(ILI9341::LCD_COLUMN_ADDR),
        stage_addressing()[1] == Step::Data(0x00),
        stage_addressing()[2] == Step::Data(0x00),
        stage_addressing()[3] == Step::Data(0x00),
        stage_addressing()[4] == Step::Data(0xef),
        stage_addressing()[5] == Step::Command(ILI9341::LCD_PAGE_ADDR),
        stage_addressing()[6] == Step::Data(0x00),
        stage_addressing()[7] == Step::Data(0x00),
        stage_addressing()[8] == Step::Data(0x01),
        stage_addressing()[9] == Step::Data(0x3f),
        0x00 * 256 + 0x00 == 0,
        0x00 * 256 + 0xef == ILI9341::ILI9341_LCD_PIXEL_WIDTH - 1,
        0x01 * 256 + 0x3f == ILI9341::ILI9341_LCD_PIXEL_HEIGHT - 1,
        init_steps().subrange(54, 64) == stage_addressing(),
{
    assert(init_steps().subrange(54, 64) =~= stage_addressing());
}

} // verus!
