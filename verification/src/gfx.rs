//! The display service: per-screen framebuffer configuration, buffer
//! exchange and frame pacing.

use vstd::prelude::*;
use vstd::std_specs::convert::FromSpecImpl;
use crate::raw;
use crate::raw::Request;
use crate::services::gspgpu;
use crate::services::gspgpu::FramebufferFormat;

verus! {

/// One of the two display panels.
#[derive(Copy, Clone, Debug, PartialEq, Eq, Structural)]
pub enum Screen {
    /// The top screen
    Top,
    /// The bottom screen
    Bottom,
}

/// Side of a stereoscopic framebuffer pair.
///
/// Only the top screen has two sides. The bottom screen has a single
/// buffer, addressed as `Left` by convention.
#[derive(Copy, Clone, Debug, PartialEq, Eq, Structural)]
pub enum Side {
    /// The left framebuffer. This framebuffer is also the one used when 3D is disabled
    Left,
    /// The right framebuffer
    Right,
}

impl Screen {
    /// The driver's code for this screen.
    pub open spec fn code(self) -> u32 {
        match self {
            Screen::Top => raw::GFX_TOP,
            Screen::Bottom => raw::GFX_BOTTOM,
        }
    }
}

impl Side {
    /// The driver's code for this side.
    pub open spec fn code(self) -> u32 {
        match self {
            Side::Left => raw::GFX_LEFT,
            Side::Right => raw::GFX_RIGHT,
        }
    }
}

impl From<Screen> for u32 {
    /// The driver's code for the screen.
    fn from(g: Screen) -> (code: u32) {
        match g {
            Screen::Top => raw::GFX_TOP,
            Screen::Bottom => raw::GFX_BOTTOM,
        }
    }
}

impl FromSpecImpl<Screen> for u32 {
    open spec fn obeys_from_spec() -> bool {
        true
    }

    open spec fn from_spec(g: Screen) -> u32 {
        g.code()
    }
}

impl From<Side> for u32 {
    /// The driver's code for the side.
    fn from(s: Side) -> (code: u32) {
        match s {
            Side::Left => raw::GFX_LEFT,
            Side::Right => raw::GFX_RIGHT,
        }
    }
}

impl FromSpecImpl<Side> for u32 {
    open spec fn obeys_from_spec() -> bool {
        true
    }

    open spec fn from_spec(s: Side) -> u32 {
        s.code()
    }
}

/// The pixel format of both screens under the driver's built-in
/// configuration.
pub const DEFAULT_FORMAT: FramebufferFormat = FramebufferFormat::Bgr8;

/// The generation that follows `generation`; the count starts over after the
/// largest value.
pub open spec fn next_generation(generation: u64) -> u64 {
    if generation == u64::MAX {
        0
    } else {
        (generation + 1) as u64
    }
}

/// The framebuffer configuration of one screen.
#[derive(Copy, Clone, Debug, PartialEq, Eq, Structural)]
pub struct ScreenConfig {
    /// The pixel format of the screen's framebuffers.
    pub format: FramebufferFormat,
    /// Whether a buffer exchange gives the screen a new draw buffer.
    pub double_buffering: bool,
    /// Counts the buffer exchanges that gave the screen a new draw buffer.
    pub generation: u64,
}

impl ScreenConfig {
    /// The configuration after one buffer exchange: the screen gets a new
    /// draw buffer exactly if it is double buffered.
    pub open spec fn swapped(self) -> ScreenConfig {
        if self.double_buffering {
            ScreenConfig { generation: next_generation(self.generation), ..self }
        } else {
            self
        }
    }
}

/// The configuration that a display service holds.
#[derive(Copy, Clone, Debug, PartialEq, Eq, Structural)]
pub struct GfxState {
    /// Configuration of the top screen.
    pub top: ScreenConfig,
    /// Configuration of the bottom screen.
    pub bottom: ScreenConfig,
    /// Whether stereoscopic rendering is switched on.
    pub stereo: bool,
}

impl GfxState {
    /// The configuration right after initialisation: the given formats,
    /// double buffering on both screens, no stereoscopic rendering.
    pub open spec fn initial(top: FramebufferFormat, bottom: FramebufferFormat) -> GfxState {
        GfxState {
            top: ScreenConfig { format: top, double_buffering: true, generation: 0 },
            bottom: ScreenConfig { format: bottom, double_buffering: true, generation: 0 },
            stereo: false,
        }
    }

    /// The configuration of one screen.
    pub open spec fn screen(self, screen: Screen) -> ScreenConfig {
        match screen {
            Screen::Top => self.top,
            Screen::Bottom => self.bottom,
        }
    }

    /// This configuration with one screen's part replaced.
    pub open spec fn with_screen(self, screen: Screen, config: ScreenConfig) -> GfxState {
        match screen {
            Screen::Top => GfxState { top: config, ..self },
            Screen::Bottom => GfxState { bottom: config, ..self },
        }
    }

    /// The configuration after one buffer exchange.
    pub open spec fn swapped(self) -> GfxState {
        GfxState { top: self.top.swapped(), bottom: self.bottom.swapped(), ..self }
    }

    /// Whether `framebuffer` still is the draw buffer of its screen.
    pub open spec fn targets(self, framebuffer: RawFramebuffer) -> bool {
        self.screen(framebuffer.screen).generation == framebuffer.generation
    }
}

/// The draw buffer of one screen and side, as the driver reported it.
///
/// The address is the write target only until the next buffer exchange that
/// gives its screen a new draw buffer. It has to be fetched again every
/// frame; writing through a stale address draws into the buffer that is on
/// display.
#[derive(Copy, Clone, Debug, PartialEq, Eq, Structural)]
pub struct RawFramebuffer {
    /// Address of the first pixel.
    pub address: usize,
    /// Width of the buffer in pixels.
    pub width: u16,
    /// Height of the buffer in pixels.
    pub height: u16,
    /// The screen that the buffer belongs to.
    pub screen: Screen,
    /// The side that the buffer belongs to.
    pub side: Side,
    /// The generation of the screen's draw buffer at the time of the report.
    pub generation: u64,
}

/// The process-wide place that a live display service occupies.
///
/// A program keeps exactly one slot. The driver must not be initialised
/// again while a service is alive, so every constructor of [`Gfx`] goes
/// through the slot and is turned away while it is occupied.
#[derive(Debug)]
pub struct DisplaySlot {
    occupied: bool,
}

/// Why a display service could not be created.
#[derive(Copy, Clone, Debug, PartialEq, Eq, Structural)]
pub enum Error {
    /// Another display service is alive.
    ServiceAlreadyActive,
}

impl DisplaySlot {
    /// Whether a display service is alive.
    pub closed spec fn occupied(&self) -> bool {
        self.occupied
    }

    /// An empty slot.
    pub fn new() -> (slot: DisplaySlot)
        ensures
            !slot.occupied(),
    {
        DisplaySlot { occupied: false }
    }

    /// Whether a display service is alive.
    pub fn is_occupied(&self) -> (occupied: bool)
        ensures
            occupied == self.occupied(),
    {
        self.occupied
    }
}

/// A handle to the display service.
///
/// The service is shut down when the handle is given up with [`Gfx::drop`].
#[derive(Debug)]
pub struct Gfx {
    state: GfxState,
}

impl View for Gfx {
    type V = GfxState;

    closed spec fn view(&self) -> GfxState {
        self.state
    }
}

impl Gfx {
    /// Initialize the Gfx module with the chosen framebuffer formats for the top and bottom
    /// screens
    ///
    /// Use `Gfx::default()` instead of this function to initialize the module with default parameters
    ///
    /// Fails, and leaves everything as it was, while another service is
    /// alive.
    pub fn new(
        slot: &mut DisplaySlot,
        top_fb_fmt: FramebufferFormat,
        bottom_fb_fmt: FramebufferFormat,
        use_vram_buffers: bool,
    ) -> (created: Result<(Gfx, Request), Error>)
        ensures
            final(slot).occupied(),
            created is Ok <==> !old(slot).occupied(),
            created matches Ok((gfx, request)) ==> gfx@ == GfxState::initial(
                top_fb_fmt,
                bottom_fb_fmt,
            ) && request == (Request::GfxInit {
                top_format: top_fb_fmt.code(),
                bottom_format: bottom_fb_fmt.code(),
                vram_buffers: use_vram_buffers,
            }),
            created matches Err(error) ==> error == Error::ServiceAlreadyActive,
    {
        if slot.occupied {
            return Err(Error::ServiceAlreadyActive);
        }
        slot.occupied = true;
        let request = Request::GfxInit {
            top_format: u32::from(top_fb_fmt),
            bottom_format: u32::from(bottom_fb_fmt),
            vram_buffers: use_vram_buffers,
        };
        Ok((Gfx { state: initial_state(top_fb_fmt, bottom_fb_fmt) }, request))
    }

    /// Initialise the service with the driver's built-in configuration:
    /// [`DEFAULT_FORMAT`] on both screens, double buffering enabled.
    ///
    /// Fails, and leaves everything as it was, while another service is
    /// alive.
    pub fn default(slot: &mut DisplaySlot) -> (created: Result<(Gfx, Request), Error>)
        ensures
            final(slot).occupied(),
            created is Ok <==> !old(slot).occupied(),
            created matches Ok((gfx, request)) ==> gfx@ == GfxState::initial(
                DEFAULT_FORMAT,
                DEFAULT_FORMAT,
            ) && request == Request::GfxInitDefault,
            created matches Err(error) ==> error == Error::ServiceAlreadyActive,
    {
        if slot.occupied {
            return Err(Error::ServiceAlreadyActive);
        }
        slot.occupied = true;
        Ok((Gfx { state: initial_state(DEFAULT_FORMAT, DEFAULT_FORMAT) }, Request::GfxInitDefault))
    }

    /// Shut the service down and free the slot for the next one.
    ///
    /// Framebuffers and consoles that were obtained while the service was
    /// alive must not be used afterwards.
    pub fn drop(self, slot: &mut DisplaySlot) -> (request: Request)
        ensures
            !final(slot).occupied(),
            request == Request::GfxExit,
    {
        slot.occupied = false;
        Request::GfxExit
    }

    /// The configuration that the service holds.
    pub fn state(&self) -> (state: GfxState)
        ensures
            state == self@,
    {
        self.state
    }

    /// Enable or disable the 3D stereoscopic effect
    pub fn set_3d_enabled(&mut self, enabled: bool) -> (request: Request)
        ensures
            final(self)@ == (GfxState { stereo: enabled, ..old(self)@ }),
            request == (Request::GfxSet3D { enable: enabled }),
    {
        self.state.stereo = enabled;
        Request::GfxSet3D { enable: enabled }
    }

    /// Sets whether to use double buffering. Enabled by default.
    ///
    /// Note that even when double buffering is disabled, one should still use the `swap_buffers`
    /// method on each frame to keep the gsp configuration up to date
    pub fn set_double_buffering(&mut self, screen: Screen, enabled: bool) -> (request: Request)
        ensures
            final(self)@ == old(self)@.with_screen(
                screen,
                ScreenConfig { double_buffering: enabled, ..old(self)@.screen(screen) },
            ),
            request == (Request::GfxSetDoubleBuffering { screen: screen.code(), enable: enabled }),
    {
        match screen {
            Screen::Top => {
                self.state.top.double_buffering = enabled;
            },
            Screen::Bottom => {
                self.state.bottom.double_buffering = enabled;
            },
        }
        Request::GfxSetDoubleBuffering { screen: u32::from(screen), enable: enabled }
    }

    /// Flushes the current framebuffers
    pub fn flush_buffers(&self) -> (request: Request)
        ensures
            request == Request::GfxFlushBuffers,
    {
        Request::GfxFlushBuffers
    }

    /// Swaps the framebuffers and sets the gsp state
    ///
    /// Use this function when working with software rendering
    ///
    /// Within one frame use either this function or
    /// [`Gfx::swap_buffers_gpu`], never both.
    pub fn swap_buffers(&mut self) -> (request: Request)
        ensures
            final(self)@ == old(self)@.swapped(),
            request == Request::GfxSwapBuffers,
    {
        self.exchange();
        Request::GfxSwapBuffers
    }

    /// Swaps the framebuffers without manipulating the gsp state
    ///
    /// Use this function when working with GPU rendering
    pub fn swap_buffers_gpu(&mut self) -> (request: Request)
        ensures
            final(self)@ == old(self)@.swapped(),
            request == Request::GfxSwapBuffersGpu,
    {
        self.exchange();
        Request::GfxSwapBuffersGpu
    }

    /// Waits for the vertical blank interrupt
    ///
    /// Use this to synchronize your application with the refresh rate of the LCD screens
    ///
    /// A vertical blank that is already pending is discarded, so the wait
    /// always ends on a later one.
    pub fn wait_for_vblank(&self) -> (request: Request)
        ensures
            request == (Request::GspWaitForEvent {
                event: raw::GSPGPU_EVENT_VBLANK0,
                discard_current: true,
            }),
    {
        gspgpu::wait_for_event(gspgpu::Event::VBlank0, true)
    }

    /// Gets the framebuffer format for a screen
    pub fn get_framebuffer_format(&self, screen: Screen) -> (format: FramebufferFormat)
        ensures
            format == self@.screen(screen).format,
    {
        match screen {
            Screen::Top => self.state.top.format,
            Screen::Bottom => self.state.bottom.format,
        }
    }

    /// Change the framebuffer format for a screen
    ///
    /// When the screen starts to show the new format is up to the driver;
    /// it may take the next buffer exchange.
    pub fn set_framebuffer_format(&mut self, screen: Screen, fmt: FramebufferFormat) -> (request:
        Request)
        ensures
            final(self)@ == old(self)@.with_screen(
                screen,
                ScreenConfig { format: fmt, ..old(self)@.screen(screen) },
            ),
            request == (Request::GfxSetScreenFormat { screen: screen.code(), format: fmt.code() }),
    {
        match screen {
            Screen::Top => {
                self.state.top.format = fmt;
            },
            Screen::Bottom => {
                self.state.bottom.format = fmt;
            },
        }
        Request::GfxSetScreenFormat { screen: u32::from(screen), format: u32::from(fmt) }
    }

    /// The request for the draw buffer of the given screen and side. The
    /// driver answers with the buffer's address, its width in pixels and
    /// its height in pixels; [`Gfx::raw_framebuffer`] takes the answer.
    ///
    /// Nothing checks that the side exists on the screen.
    pub fn get_raw_framebuffer(&self, screen: Screen, side: Side) -> (request: Request)
        ensures
            request == (Request::GfxGetFramebuffer { screen: screen.code(), side: side.code() }),
    {
        Request::GfxGetFramebuffer { screen: u32::from(screen), side: u32::from(side) }
    }

    /// Records the driver's answer to [`Gfx::get_raw_framebuffer`] as the
    /// current draw buffer of the given screen and side.
    ///
    /// Note that the address can change after each buffer exchange if
    /// double buffering is enabled: see [`Gfx::targets`].
    pub fn raw_framebuffer(
        &self,
        screen: Screen,
        side: Side,
        address: usize,
        width: u16,
        height: u16,
    ) -> (framebuffer: RawFramebuffer)
        ensures
            framebuffer == (RawFramebuffer {
                address,
                width,
                height,
                screen,
                side,
                generation: self@.screen(screen).generation,
            }),
            self@.targets(framebuffer),
    {
        let generation: u64 = match screen {
            Screen::Top => self.state.top.generation,
            Screen::Bottom => self.state.bottom.generation,
        };
        RawFramebuffer { address, width, height, screen, side, generation }
    }

    /// Whether `framebuffer` still is the draw buffer of its screen.
    pub fn targets(&self, framebuffer: &RawFramebuffer) -> (current: bool)
        ensures
            current == self@.targets(*framebuffer),
    {
        let generation: u64 = match framebuffer.screen {
            Screen::Top => self.state.top.generation,
            Screen::Bottom => self.state.bottom.generation,
        };
        generation == framebuffer.generation
    }

    fn exchange(&mut self)
        ensures
            final(self)@ == old(self)@.swapped(),
    {
        if self.state.top.double_buffering {
            self.state.top.generation = following(self.state.top.generation);
        }
        if self.state.bottom.double_buffering {
            self.state.bottom.generation = following(self.state.bottom.generation);
        }
    }
}

fn initial_state(top: FramebufferFormat, bottom: FramebufferFormat) -> (state: GfxState)
    ensures
        state == GfxState::initial(top, bottom),
{
    GfxState {
        top: ScreenConfig { format: top, double_buffering: true, generation: 0 },
        bottom: ScreenConfig { format: bottom, double_buffering: true, generation: 0 },
        stereo: false,
    }
}

fn following(generation: u64) -> (next: u64)
    ensures
        next == next_generation(generation),
{
    if generation == u64::MAX {
        0
    } else {
        generation + 1
    }
}

/// A buffer exchange retires the draw buffer of every double-buffered
/// screen and of no other: a framebuffer that was the draw buffer of its
/// screen before the exchange is still the draw buffer afterwards exactly if
/// the screen is not double buffered.
pub proof fn lemma_swap_retires_draw_buffer(state: GfxState, framebuffer: RawFramebuffer)
    requires
        state.targets(framebuffer),
    ensures
        state.swapped().targets(framebuffer) <==> !state.screen(
            framebuffer.screen,
        ).double_buffering,
{
}

} // verus!
