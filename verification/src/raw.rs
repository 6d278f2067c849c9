//! Native vocabulary of the display driver: the numeric codes it uses for
//! formats, events, screens and sides, and the requests it accepts.

use vstd::prelude::*;
use crate::console::Selection;

verus! {

/// Driver code of the 32-bit RGBA format.
pub const GSP_RGBA8_OES: u32 = 0;

/// Driver code of the 24-bit BGR format.
pub const GSP_BGR8_OES: u32 = 1;

/// Driver code of the 16-bit RGB565 format.
pub const GSP_RGB565_OES: u32 = 2;

/// Driver code of the 16-bit RGB5A1 format.
pub const GSP_RGB5_A1_OES: u32 = 3;

/// Driver code of the 16-bit RGBA4 format.
pub const GSP_RGBA4_OES: u32 = 4;

/// Driver code of the first memory-fill completion event.
pub const GSPGPU_EVENT_PSC0: u32 = 0;

/// Driver code of the second memory-fill completion event.
pub const GSPGPU_EVENT_PSC1: u32 = 1;

/// Driver code of the top screen's vertical blank.
pub const GSPGPU_EVENT_VBLANK0: u32 = 2;

/// Driver code of the bottom screen's vertical blank.
pub const GSPGPU_EVENT_VBLANK1: u32 = 3;

/// Driver code of the display-transfer completion event.
pub const GSPGPU_EVENT_PPF: u32 = 4;

/// Driver code of the command-list completion event.
pub const GSPGPU_EVENT_P3D: u32 = 5;

/// Driver code of the DMA completion event.
pub const GSPGPU_EVENT_DMA: u32 = 6;

/// Driver code of the top screen.
pub const GFX_TOP: u32 = 0;

/// Driver code of the bottom screen.
pub const GFX_BOTTOM: u32 = 1;

/// Driver code of the left framebuffer of a stereoscopic pair.
pub const GFX_LEFT: u32 = 0;

/// Driver code of the right framebuffer of a stereoscopic pair.
pub const GFX_RIGHT: u32 = 1;

/// One call into the display driver, with the arguments to hand to it.
///
/// The library computes requests; the embedding program performs them, in
/// the order in which it received them.
#[must_use]
#[derive(Copy, Clone, Debug, PartialEq, Eq, Structural)]
pub enum Request {
    /// Initialise the display driver with one pixel format per screen.
    GfxInit { top_format: u32, bottom_format: u32, vram_buffers: bool },
    /// Initialise the display driver with its built-in configuration.
    GfxInitDefault,
    /// Shut the display driver down and release its buffers.
    GfxExit,
    /// Switch stereoscopic rendering on or off.
    GfxSet3D { enable: bool },
    /// Switch double buffering on or off for one screen.
    GfxSetDoubleBuffering { screen: u32, enable: bool },
    /// Make pending writes to the draw buffers visible to the display
    /// controller.
    GfxFlushBuffers,
    /// Exchange front and back buffers and publish the software-rendering
    /// state along with the new buffer addresses.
    GfxSwapBuffers,
    /// Exchange front and back buffers and publish the new buffer addresses
    /// only.
    GfxSwapBuffersGpu,
    /// Change the pixel format of one screen.
    GfxSetScreenFormat { screen: u32, format: u32 },
    /// Ask for the current draw buffer of one screen and side.
    GfxGetFramebuffer { screen: u32, side: u32 },
    /// Block until a display event fires.
    GspWaitForEvent { event: u32, discard_current: bool },
    /// Initialise a terminal context on a screen and select it.
    ConsoleInit { screen: u32, console: Selection },
    /// Direct text output to a terminal context.
    ConsoleSelect { console: Selection },
    /// Erase the character grid of the selected terminal context.
    ConsoleClear,
    /// Confine a terminal context to a rectangle of its screen.
    ConsoleSetWindow { console: Selection, x: i32, y: i32, width: i32, height: i32 },
}

} // verus!
