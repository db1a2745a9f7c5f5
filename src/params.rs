use vstd::prelude::*;

verus! {

/// Direction of the data flow of a stream.
#[derive(Copy, Clone, PartialEq, Eq, Debug, Structural)]
pub enum Stream {
    Playback,
    Capture,
}

impl Stream {
    /// The sound server's constant for this direction.
    pub open spec fn code(self) -> u32 {
        match self {
            Stream::Playback => 0,
            Stream::Capture => 1,
        }
    }

    pub fn to_ffi(self) -> (r: u32)
        ensures
            r == self.code(),
    {
        match self {
            Stream::Playback => 0,
            Stream::Capture => 1,
        }
    }
}

/// Whether opening and transfers block, return at once, or deliver by signal.
#[derive(Copy, Clone, PartialEq, Eq, Debug, Structural)]
pub enum Mode {
    Blocking,
    Nonblocking,
    Asynchronous,
}

impl Mode {
    /// The sound server's open flags for this mode.
    pub open spec fn code(self) -> i32 {
        match self {
            Mode::Blocking => 0,
            Mode::Nonblocking => 1,
            Mode::Asynchronous => 2,
        }
    }

    pub fn to_ffi(self) -> (r: i32)
        ensures
            r == self.code(),
    {
        match self {
            Mode::Blocking => 0,
            Mode::Nonblocking => 1,
            Mode::Asynchronous => 2,
        }
    }
}

/// Layout of the samples of a buffer: one frame after the other, or one
/// channel after the other.
#[derive(Copy, Clone, PartialEq, Eq, Debug, Structural)]
pub enum Access {
    Interleaved,
    Noninterleaved,
}

impl Access {
    /// The sound server's constant for read/write access with this layout.
    pub open spec fn code(self) -> u32 {
        match self {
            Access::Interleaved => 3,
            Access::Noninterleaved => 4,
        }
    }

    pub fn to_ffi(self) -> (r: u32)
        ensures
            r == self.code(),
    {
        match self {
            Access::Interleaved => 3,
            Access::Noninterleaved => 4,
        }
    }
}

/// Encoding of one sample.
#[derive(Copy, Clone, PartialEq, Eq, Debug, Structural)]
pub enum Format {
    /// Unsigned 8-bit.
    Unsigned8,
    /// Signed 16-bit, in the machine's (little-endian) byte order.
    Signed16,
    /// 32-bit float, little-endian.
    FloatLE,
}

impl Format {
    /// The sound server's constant for this sample format.
    pub open spec fn code(self) -> i32 {
        match self {
            Format::Unsigned8 => 1,
            Format::Signed16 => 2,
            Format::FloatLE => 14,
        }
    }

    /// Bytes taken by one sample; a C `float` is four bytes on every
    /// target that the sound server runs on.
    pub open spec fn width(self) -> nat {
        match self {
            Format::Unsigned8 => 1,
            Format::Signed16 => 2,
            Format::FloatLE => 4,
        }
    }

    pub fn to_ffi(self) -> (r: i32)
        ensures
            r == self.code(),
    {
        match self {
            Format::Unsigned8 => 1,
            Format::Signed16 => 2,
            Format::FloatLE => 14,
        }
    }

    pub fn size(self) -> (r: usize)
        ensures
            r == self.width(),
    {
        match self {
            Format::Unsigned8 => 1,
            Format::Signed16 => 2,
            Format::FloatLE => 4,
        }
    }
}

} // verus!
