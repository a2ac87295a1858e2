//! Error taxonomy of the library.

use vstd::prelude::*;

verus! {

/// The reason a caller-supplied parameter was rejected.
#[derive(Debug, Clone, Copy, PartialEq, Eq, Structural)]
pub enum ParameterError {
    /// The display id is neither 0 (left) nor 1 (right).
    DisplayId { display_id: u8 },
    /// The region extends past the right or bottom edge of the display.
    RegionBounds { x: u16, y: u16, width: u16, height: u16 },
    /// The 16-bit pixel data does not have two bytes per pixel of the region.
    DataLength { expected: u64, actual: u64 },
    /// The RGB888 data does not have three bytes per pixel of the region.
    Rgb888Length { expected: u64, actual: u64 },
    /// The number of pixels is not that of a full screen.
    PixelCount { expected: u64, actual: u64 },
    /// The pad number is not in 0..=15.
    PadNumber { pad_number: u8 },
}

/// Errors reported by the library.
#[derive(Debug, Clone, PartialEq, Eq)]
pub enum MK3Error {
    /// The USB layer reported a failure; the payload is its message.
    Usb(String),
    /// No controller is attached.
    DeviceNotFound,
    /// A packet from the device is too short or carries the wrong type tag.
    InvalidPacket,
    /// The controller went away.
    DeviceDisconnected,
    /// An I/O failure outside the USB layer; the payload is its message.
    Io(String),
    /// A caller-supplied parameter is out of range. Raised before any byte is
    /// produced for the device.
    InvalidParameter(ParameterError),
    /// Other invalid data; the payload is a message.
    InvalidData(String),
}

pub type Result<T> = std::result::Result<T, MK3Error>;

} // verus!
