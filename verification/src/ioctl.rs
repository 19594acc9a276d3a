//! Request codes of the device-control channel.
//!
//! A request code packs four fields into 32 bits: the direction in which the
//! argument travels (bits 30 and 31), the size of the argument structure
//! (thirteen bits from bit 16), the group letter `V` (bits 8 to 15) and the
//! number of the request within the group (bits 0 to 7).

use vstd::prelude::*;

verus! {

/// The group letter of every video request, `V`.
pub const GROUP: u8 = 0x56;

/// The way the argument of a request travels, seen from the process.
#[derive(Clone, Copy, Debug, PartialEq, Eq)]
pub enum Direction {
    /// The process writes the argument, the device reads it.
    Write,
    /// The device writes the argument, the process reads it.
    Read,
    /// The argument travels both ways.
    ReadWrite,
}

impl Direction {
    /// The value of the two direction bits.
    pub open spec fn bits(self) -> int {
        match self {
            Direction::Write => 2,
            Direction::Read => 1,
            Direction::ReadWrite => 3,
        }
    }
}

/// The 32 bits of a request code, read as an unsigned number.
pub open spec fn request_bits(direction: Direction, size: usize, number: u8) -> int {
    direction.bits() * 0x4000_0000 + (size as int % 0x2000) * 0x1_0000 + GROUP as int * 0x100
        + number as int
}

/// The two's complement reading of 32 bits.
pub open spec fn signed(bits: int) -> int {
    if bits >= 0x8000_0000 {
        bits - 0x1_0000_0000
    } else {
        bits
    }
}

/// The request code with the given fields, as the C integer that the
/// control call takes.
pub open spec fn request_code(direction: Direction, size: usize, number: u8) -> int {
    signed(request_bits(direction, size, number))
}

/// The four character code made of `a`, first character lowest.
pub open spec fn fourcc(a: Seq<u8>) -> int {
    a[0] as int + a[1] as int * 0x100 + a[2] as int * 0x1_0000 + a[3] as int * 0x100_0000
}

fn pack(direction: Direction, size: usize, num: u8) -> (code: i32)
    ensures
        code == request_code(direction, size, num),
{
    let top: u32 = match direction {
        Direction::Write => 0x80,
        Direction::Read => 0x40,
        Direction::ReadWrite => 0xc0,
    };
    let field: usize = size & 0x1fff;
    assert(field == size % 0x2000) by (bit_vector)
        requires
            field == size & 0x1fff,
    ;
    let field: u32 = field as u32;
    let low: u32 = num as u32;
    let bits: u32 = (top << 24) | (field << 16) | (0x56u32 << 8) | low;
    assert(bits == (top / 0x40) * 0x4000_0000 + field * 0x1_0000 + 0x5600 + low) by (bit_vector)
        requires
            top == 0x40 || top == 0x80 || top == 0xc0,
            field < 0x2000,
            low < 0x100,
            bits == (top << 24) | (field << 16) | (0x56u32 << 8) | low,
    ;
    let code: i32 = #[verifier::truncate] (bits as i32);
    assert(code == signed(bits as int)) by (bit_vector)
        requires
            code == bits as i32,
    ;
    code
}

/// The code of request `num` whose argument of `size` bytes the process
/// writes.
pub fn iow_v(size: usize, num: u8) -> (code: i32)
    ensures
        code == request_code(Direction::Write, size, num),
{
    pack(Direction::Write, size, num)
}

/// The code of request `num` whose argument of `size` bytes the device
/// writes.
pub fn ior_v(size: usize, num: u8) -> (code: i32)
    ensures
        code == request_code(Direction::Read, size, num),
{
    pack(Direction::Read, size, num)
}

/// The code of request `num` whose argument of `size` bytes travels both
/// ways.
pub fn iowr_v(size: usize, num: u8) -> (code: i32)
    ensures
        code == request_code(Direction::ReadWrite, size, num),
{
    pack(Direction::ReadWrite, size, num)
}

/// The four character code that names a pixel encoding.
pub fn v4l2_fourcc(a: [u8; 4]) -> (code: u32)
    ensures
        code == fourcc(a@),
{
    let b0: u32 = a[0] as u32;
    let b1: u32 = a[1] as u32;
    let b2: u32 = a[2] as u32;
    let b3: u32 = a[3] as u32;
    let code: u32 = (b0 << 0) | (b1 << 8) | (b2 << 16) | (b3 << 24);
    assert(code == b0 + b1 * 0x100 + b2 * 0x1_0000 + b3 * 0x100_0000) by (bit_vector)
        requires
            b0 < 0x100,
            b1 < 0x100,
            b2 < 0x100,
            b3 < 0x100,
            code == (b0 << 0) | (b1 << 8) | (b2 << 16) | (b3 << 24),
    ;
    code
}

/// The requests that a capture makes on the control channel.
#[derive(Clone, Copy, Debug, PartialEq, Eq, Structural)]
pub enum Command {
    /// Ask what the device is and what it can do.
    QueryCapabilities,
    /// Propose a stream format; the device answers with the one it took.
    SetFormat,
    /// Ask the device for a number of buffers.
    RequestBuffers,
    /// Ask where one buffer lies and how long it is.
    QueryBuffer,
    /// Hand a buffer to the device for filling.
    QueueBuffer,
    /// Take a filled buffer back from the device.
    DequeueBuffer,
    /// Start streaming.
    StreamOn,
    /// Stop streaming.
    StreamOff,
}

impl Command {
    /// The number of the request within the group `V`.
    pub open spec fn number_spec(self) -> u8 {
        match self {
            Command::QueryCapabilities => 0,
            Command::SetFormat => 5,
            Command::RequestBuffers => 8,
            Command::QueryBuffer => 9,
            Command::QueueBuffer => 15,
            Command::DequeueBuffer => 17,
            Command::StreamOn => 18,
            Command::StreamOff => 19,
        }
    }

    /// The way the argument of the request travels: the device fills in the
    /// capabilities, the process names the stream to switch, and every
    /// other argument is sent and comes back amended.
    pub open spec fn direction_spec(self) -> Direction {
        match self {
            Command::QueryCapabilities => Direction::Read,
            Command::StreamOn | Command::StreamOff => Direction::Write,
            _ => Direction::ReadWrite,
        }
    }

    /// The number of the request within the group `V`.
    #[verifier::when_used_as_spec(number_spec)]
    pub fn number(self) -> (number: u8)
        ensures
            number == self.number_spec(),
    {
        match self {
            Command::QueryCapabilities => 0,
            Command::SetFormat => 5,
            Command::RequestBuffers => 8,
            Command::QueryBuffer => 9,
            Command::QueueBuffer => 15,
            Command::DequeueBuffer => 17,
            Command::StreamOn => 18,
            Command::StreamOff => 19,
        }
    }

    /// The way the argument of the request travels.
    #[verifier::when_used_as_spec(direction_spec)]
    pub fn direction(self) -> (direction: Direction)
        ensures
            direction == self.direction_spec(),
    {
        match self {
            Command::QueryCapabilities => Direction::Read,
            Command::StreamOn => Direction::Write,
            Command::StreamOff => Direction::Write,
            _ => Direction::ReadWrite,
        }
    }

    /// The request code for this command when its argument structure takes
    /// `size` bytes on the machine at hand.
    pub fn code(self, size: usize) -> (code: i32)
        ensures
            code == request_code(self.direction(), size, self.number()),
    {
        match self.direction() {
            Direction::Write => iow_v(size, self.number()),
            Direction::Read => ior_v(size, self.number()),
            Direction::ReadWrite => iowr_v(size, self.number()),
        }
    }
}

} // verus!
