//! Clearing the buffers of the framebuffer.

use vstd::prelude::*;
use crate::codes;
use crate::command::Command;

verus! {

/// A buffer of the framebuffer that can be cleared.
#[derive(Copy, Clone, PartialEq, Eq, Structural, Debug)]
pub enum BufferType {
    ColorBuffer,
    DepthBuffer,
    StencilBuffer,
}

impl BufferType {
    /// The bit that selects the buffer in a clear mask.
    pub open spec fn bit(self) -> u32 {
        match self {
            BufferType::ColorBuffer => codes::COLOR_BUFFER_BIT,
            BufferType::DepthBuffer => codes::DEPTH_BUFFER_BIT,
            BufferType::StencilBuffer => codes::STENCIL_BUFFER_BIT,
        }
    }

    #[verifier::when_used_as_spec(bit)]
    pub fn to_gl_bit(self) -> (bit: u32)
        ensures
            bit == self.bit(),
    {
        match self {
            BufferType::ColorBuffer => codes::COLOR_BUFFER_BIT,
            BufferType::DepthBuffer => codes::DEPTH_BUFFER_BIT,
            BufferType::StencilBuffer => codes::STENCIL_BUFFER_BIT,
        }
    }
}

/// The call that sets the colour to which the colour buffer is cleared. Each channel
/// is given as the bit pattern of a 32-bit float. The call is followed by no check.
pub fn clear_color(r: u32, g: u32, b: u32, a: u32) -> (command: Command)
    ensures
        command == (Command::ClearColor { red: r, green: g, blue: b, alpha: a }),
{
    Command::ClearColor { red: r, green: g, blue: b, alpha: a }
}

/// The call that clears `buffer`. The call is followed by no check.
pub fn clear(buffer: BufferType) -> (command: Command)
    ensures
        command == (Command::Clear { mask: buffer.bit() }),
{
    Command::Clear { mask: buffer.to_gl_bit() }
}

} // verus!
