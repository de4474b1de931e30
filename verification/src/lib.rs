//! Driver model for a serial TFT panel controller and its pixel-timing
//! peripheral.
//!
//! The crate covers three layers of the display bring-up path:
//!
//! - [`bus`]: the command/data protocol driver.  Every outgoing byte is
//!   framed by a select-line level (command or data) and a chip-select
//!   assert/release pair; the driver records the framed bytes and exposes
//!   the exact stream of line-level actions a transport executor must
//!   perform.
//! - [`panel`]: the panel controller's register map and its fixed
//!   power-on/initialization sequence, represented as a data-driven table
//!   run by one interpreter loop.
//! - [`timing`]: the sync/porch/active-area parameters the pixel-timing
//!   generator must be programmed with, and the configurator that binds a
//!   framebuffer layer to it.
//!
//! The crate itself performs no hardware access: it decides, byte for byte,
//! what must happen on the wire, and an executor outside the crate drives
//! the physical signal lines and the delays.

pub mod bus;
pub mod panel;
pub mod timing;
