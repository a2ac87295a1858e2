//! Hardware abstraction layer for the Native Instruments Maschine MK3
//! controller: the wire codec, the colour model, the input-event tracker and
//! the display region protocol, as verified pure functions over bytes.
//!
//! Nothing here touches the USB transport. Decoders take the bytes that were
//! read; encoders and the device facade return the bytes to write.

pub mod device;
pub mod display;
pub mod element;
pub mod error;
pub mod event;
pub mod ffi;
pub mod input;
pub mod output;
pub mod region;
pub mod tracker;

pub use device::{LedPackets, MaschineMK3};
pub use display::{DisplayCommand, DisplayGraphics, DisplayPacket, Rgb565};
pub use element::InputElement;
pub use error::{MK3Error, ParameterError};
pub use event::InputEvent;
pub use input::{
    AudioState, ButtonState, InputState, KnobState, PadHit, PadState, TouchData, TouchStripState,
};
pub use output::{ButtonLedState, LedBrightness, MaschineLEDColor, PadLedState, RgbColor};
pub use region::{
    build_region_packet, convert_rgb888_to_device565, convert_rgb888_to_rgb565x,
    DisplayFramebuffer, PixelFormat,
};
pub use display::rgb888_to_rgb565x;
pub use tracker::InputTracker;
