use vstd::prelude::*;

verus! {

/// Why a write to the console was refused.
#[derive(Copy, Clone, Debug, PartialEq, Eq, Structural)]
pub enum EgaWriteError {
    /// The position lies outside the buffer's geometry.
    OutOfBoundsWrite,
    /// The character is not ASCII (strict character policy only).
    NonAsciiCharacter,
}

/// Why setting up the console was refused.
#[derive(Copy, Clone, Debug, PartialEq, Eq, Structural)]
pub enum InitError {
    /// The console was already set up; the first configuration stays.
    AlreadyInitialized,
    /// Width or height is zero, or the memory holds fewer cells than they span.
    InvalidGeometry,
    /// The boot loader describes a display that is not in text mode.
    UnsupportedFramebufferFormat,
}

} // verus!
