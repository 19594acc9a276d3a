//! The numbers and records that cross the control channel.
//!
//! The device speaks in numbers. The kinds that the library knows by name
//! are enums here, each with the number that stands for it; a number that
//! has no name is kept as it came, so that nothing a device reports is
//! lost.

use crate::ioctl::v4l2_fourcc;
use vstd::prelude::*;

verus! {

/// The four character code of motion JPEG, `MJPG`.
pub const V4L2_PIX_FMT_MJPEG: u32 = 0x4750_4A4D;

/// How the pixels of a frame are encoded.
#[derive(Clone, Copy, Debug, PartialEq, Eq, Structural)]
pub enum PixelEncoding {
    /// Motion JPEG: each frame is a JPEG image.
    Mjpeg,
    /// Another encoding, by its four character code.
    Other(u32),
}

impl PixelEncoding {
    /// The four character code of the encoding.
    pub open spec fn code_spec(self) -> u32 {
        match self {
            PixelEncoding::Mjpeg => V4L2_PIX_FMT_MJPEG,
            PixelEncoding::Other(code) => code,
        }
    }

    /// The encoding that a four character code stands for.
    pub open spec fn from_code_spec(code: u32) -> PixelEncoding {
        if code == V4L2_PIX_FMT_MJPEG {
            PixelEncoding::Mjpeg
        } else {
            PixelEncoding::Other(code)
        }
    }

    /// Whether the encoding is written in the one way that `from_code`
    /// writes it: a code that has a name goes by its name.
    pub open spec fn canonical(self) -> bool {
        self != PixelEncoding::Other(V4L2_PIX_FMT_MJPEG)
    }

    /// The four character code of the encoding.
    #[verifier::when_used_as_spec(code_spec)]
    pub fn code(self) -> (code: u32)
        ensures
            code == self.code_spec(),
            self.canonical() ==> PixelEncoding::from_code_spec(code) == self,
    {
        match self {
            PixelEncoding::Mjpeg => v4l2_fourcc([0x4d, 0x4a, 0x50, 0x47]),
            PixelEncoding::Other(code) => code,
        }
    }

    /// The encoding that a four character code stands for.
    #[verifier::when_used_as_spec(from_code_spec)]
    pub fn from_code(code: u32) -> (encoding: PixelEncoding)
        ensures
            encoding == PixelEncoding::from_code_spec(code),
            encoding.code_spec() == code,
            encoding.canonical(),
    {
        if code == V4L2_PIX_FMT_MJPEG {
            PixelEncoding::Mjpeg
        } else {
            PixelEncoding::Other(code)
        }
    }
}

/// Which lines of a picture a frame holds, and in what order.
#[derive(Clone, Copy, Debug, PartialEq, Eq, Structural)]
pub enum FieldOrder {
    /// The device may choose.
    Any,
    /// The frame holds the whole picture, line after line.
    Progressive,
    /// The top field only.
    Top,
    /// The bottom field only.
    Bottom,
    /// Both fields, their lines interleaved.
    Interlaced,
    /// Both fields one after the other, the top field first.
    SeqTopBottom,
    /// Both fields one after the other, the bottom field first.
    SeqBottomTop,
    /// The fields alternate between buffers.
    Alternate,
    /// An order that has no name here, by its number.
    Other(u32),
}

impl FieldOrder {
    /// The number that stands for the order.
    pub open spec fn code_spec(self) -> u32 {
        match self {
            FieldOrder::Any => 0,
            FieldOrder::Progressive => 1,
            FieldOrder::Top => 2,
            FieldOrder::Bottom => 3,
            FieldOrder::Interlaced => 4,
            FieldOrder::SeqTopBottom => 5,
            FieldOrder::SeqBottomTop => 6,
            FieldOrder::Alternate => 7,
            FieldOrder::Other(code) => code,
        }
    }

    /// The order that a number stands for.
    pub open spec fn from_code_spec(code: u32) -> FieldOrder {
        if code == 0 {
            FieldOrder::Any
        } else if code == 1 {
            FieldOrder::Progressive
        } else if code == 2 {
            FieldOrder::Top
        } else if code == 3 {
            FieldOrder::Bottom
        } else if code == 4 {
            FieldOrder::Interlaced
        } else if code == 5 {
            FieldOrder::SeqTopBottom
        } else if code == 6 {
            FieldOrder::SeqBottomTop
        } else if code == 7 {
            FieldOrder::Alternate
        } else {
            FieldOrder::Other(code)
        }
    }

    /// Whether the order is written in the one way that `from_code` writes
    /// it: a number that has a name goes by its name.
    pub open spec fn canonical(self) -> bool {
        self matches FieldOrder::Other(code) ==> code > 7
    }

    /// The number that stands for the order.
    #[verifier::when_used_as_spec(code_spec)]
    pub fn code(self) -> (code: u32)
        ensures
            code == self.code_spec(),
            self.canonical() ==> FieldOrder::from_code_spec(code) == self,
    {
        match self {
            FieldOrder::Any => 0,
            FieldOrder::Progressive => 1,
            FieldOrder::Top => 2,
            FieldOrder::Bottom => 3,
            FieldOrder::Interlaced => 4,
            FieldOrder::SeqTopBottom => 5,
            FieldOrder::SeqBottomTop => 6,
            FieldOrder::Alternate => 7,
            FieldOrder::Other(code) => code,
        }
    }

    /// The order that a number stands for.
    #[verifier::when_used_as_spec(from_code_spec)]
    pub fn from_code(code: u32) -> (order: FieldOrder)
        ensures
            order == FieldOrder::from_code_spec(code),
            order.code_spec() == code,
            order.canonical(),
    {
        if code == 0 {
            FieldOrder::Any
        } else if code == 1 {
            FieldOrder::Progressive
        } else if code == 2 {
            FieldOrder::Top
        } else if code == 3 {
            FieldOrder::Bottom
        } else if code == 4 {
            FieldOrder::Interlaced
        } else if code == 5 {
            FieldOrder::SeqTopBottom
        } else if code == 6 {
            FieldOrder::SeqBottomTop
        } else if code == 7 {
            FieldOrder::Alternate
        } else {
            FieldOrder::Other(code)
        }
    }
}

/// What a buffer is for. Every request of this library names
/// `VideoCapture`.
#[derive(Clone, Copy, Debug, PartialEq, Eq, Structural)]
pub enum BufferType {
    /// A picture captured in one plane.
    VideoCapture,
    /// A picture to put out in one plane.
    VideoOutput,
    /// A picture to lay over another.
    VideoOverlay,
    /// Raw data of the vertical blanking interval, captured.
    VbiCapture,
    /// Raw data of the vertical blanking interval, to put out.
    VbiOutput,
    /// Sliced data of the vertical blanking interval, captured.
    SlicedVbiCapture,
    /// Sliced data of the vertical blanking interval, to put out.
    SlicedVbiOutput,
    /// A picture to lay over the output.
    VideoOutputOverlay,
    /// A picture captured in several planes.
    VideoCaptureMPlane,
    /// A picture to put out in several planes.
    VideoOutputMPlane,
    /// Samples of a software defined radio, captured.
    SdrCapture,
    /// Samples of a software defined radio, to put out.
    SdrOutput,
}

impl BufferType {
    /// The number that stands for the buffer type.
    pub open spec fn code_spec(self) -> u32 {
        match self {
            BufferType::VideoCapture => 1,
            BufferType::VideoOutput => 2,
            BufferType::VideoOverlay => 3,
            BufferType::VbiCapture => 4,
            BufferType::VbiOutput => 5,
            BufferType::SlicedVbiCapture => 6,
            BufferType::SlicedVbiOutput => 7,
            BufferType::VideoOutputOverlay => 8,
            BufferType::VideoCaptureMPlane => 9,
            BufferType::VideoOutputMPlane => 10,
            BufferType::SdrCapture => 11,
            BufferType::SdrOutput => 12,
        }
    }

    /// The number that stands for the buffer type.
    #[verifier::when_used_as_spec(code_spec)]
    pub fn code(self) -> (code: u32)
        ensures
            code == self.code_spec(),
    {
        match self {
            BufferType::VideoCapture => 1,
            BufferType::VideoOutput => 2,
            BufferType::VideoOverlay => 3,
            BufferType::VbiCapture => 4,
            BufferType::VbiOutput => 5,
            BufferType::SlicedVbiCapture => 6,
            BufferType::SlicedVbiOutput => 7,
            BufferType::VideoOutputOverlay => 8,
            BufferType::VideoCaptureMPlane => 9,
            BufferType::VideoOutputMPlane => 10,
            BufferType::SdrCapture => 11,
            BufferType::SdrOutput => 12,
        }
    }
}

/// Where the memory of a buffer comes from. Every request of this library
/// names `Mmap`.
#[derive(Clone, Copy, Debug, PartialEq, Eq, Structural)]
pub enum MemoryKind {
    /// The device provides the memory and the process maps it.
    Mmap,
    /// The process provides the memory.
    UserPtr,
    /// The memory lies in another device.
    MemoryOverlay,
}

impl MemoryKind {
    /// The number that stands for the kind of memory.
    pub open spec fn code_spec(self) -> u32 {
        match self {
            MemoryKind::Mmap => 1,
            MemoryKind::UserPtr => 2,
            MemoryKind::MemoryOverlay => 3,
        }
    }

    /// The number that stands for the kind of memory.
    #[verifier::when_used_as_spec(code_spec)]
    pub fn code(self) -> (code: u32)
        ensures
            code == self.code_spec(),
    {
        match self {
            MemoryKind::Mmap => 1,
            MemoryKind::UserPtr => 2,
            MemoryKind::MemoryOverlay => 3,
        }
    }
}

/// The pixel layout of the format record, field for field as the device
/// reads and writes it.
#[derive(Clone, Copy, Debug, PartialEq, Eq, Structural)]
pub struct PixelFormat {
    pub width: u32,
    pub height: u32,
    /// The four character code of the encoding.
    pub pixelformat: u32,
    /// The number of the field order.
    pub field: u32,
    /// The bytes from one line to the next; zero where that has no meaning.
    pub bytesperline: u32,
    /// The bytes that one frame can take.
    pub sizeimage: u32,
    /// The number of the colour space.
    pub colorspace: u32,
    /// Data whose meaning depends on the encoding.
    pub private: u32,
}

/// What the device says of itself.
#[derive(Clone, Copy, Debug, PartialEq, Eq)]
pub struct Capabilities {
    /// The name of the driver, padded with zero bytes.
    pub driver: [u8; 16],
    /// The name of the device, padded with zero bytes.
    pub card: [u8; 32],
    /// Where the device is attached, padded with zero bytes.
    pub bus_info: [u8; 32],
    /// The version of the driver.
    pub version: u32,
    /// One bit for each thing the device can do.
    pub capabilities: u32,
}

} // verus!
