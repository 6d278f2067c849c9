//! Pixel formats and display events of the GSPGPU service.

use vstd::prelude::*;
use vstd::std_specs::convert::FromSpec;
use vstd::std_specs::convert::FromSpecImpl;
use vstd::std_specs::convert::TryFromSpec;
use vstd::std_specs::convert::TryFromSpecImpl;
use crate::raw;
use crate::raw::Request;

verus! {

/// A hardware display event that a thread can wait for.
#[derive(Copy, Clone, Debug, PartialEq, Eq, Structural)]
pub enum Event {
    /// The first memory fill has completed.
    Psc0,
    /// The second memory fill has completed.
    Psc1,
    /// The top screen has entered its vertical blank.
    VBlank0,
    /// The bottom screen has entered its vertical blank.
    VBlank1,
    /// A display transfer has completed.
    PPF,
    /// A command list has completed.
    P3D,
    /// A DMA transfer has completed.
    DMA,
}

/// A pixel encoding of a framebuffer.
#[derive(Copy, Clone, Debug, PartialEq, Eq, Structural)]
pub enum FramebufferFormat {
    /// RGBA8. 4 bytes per pixel
    Rgba8,
    /// BGR8. 3 bytes per pixel
    Bgr8,
    /// RGB565. 2 bytes per pixel
    Rgb565,
    /// RGB5A1. 2 bytes per pixel
    Rgb5A1,
    /// RGBA4. 2 bytes per pixel
    Rgba4,
}

/// A driver code that names no pixel format.
#[derive(Copy, Clone, Debug, PartialEq, Eq, Structural)]
pub struct UnknownFormat {
    /// The code that was handed in.
    pub code: u32,
}

impl FramebufferFormat {
    /// The number of bytes that one pixel takes in this format.
    pub open spec fn depth(self) -> nat {
        match self {
            FramebufferFormat::Rgba8 => 4,
            FramebufferFormat::Bgr8 => 3,
            FramebufferFormat::Rgb565 => 2,
            FramebufferFormat::Rgb5A1 => 2,
            FramebufferFormat::Rgba4 => 2,
        }
    }

    /// The driver's code for this format.
    pub open spec fn code(self) -> u32 {
        match self {
            FramebufferFormat::Rgba8 => raw::GSP_RGBA8_OES,
            FramebufferFormat::Bgr8 => raw::GSP_BGR8_OES,
            FramebufferFormat::Rgb565 => raw::GSP_RGB565_OES,
            FramebufferFormat::Rgb5A1 => raw::GSP_RGB5_A1_OES,
            FramebufferFormat::Rgba4 => raw::GSP_RGBA4_OES,
        }
    }

    /// The format that a driver code names, if it names one.
    pub open spec fn decode(code: u32) -> Option<FramebufferFormat> {
        if code == raw::GSP_RGBA8_OES {
            Some(FramebufferFormat::Rgba8)
        } else if code == raw::GSP_BGR8_OES {
            Some(FramebufferFormat::Bgr8)
        } else if code == raw::GSP_RGB565_OES {
            Some(FramebufferFormat::Rgb565)
        } else if code == raw::GSP_RGB5_A1_OES {
            Some(FramebufferFormat::Rgb5A1)
        } else if code == raw::GSP_RGBA4_OES {
            Some(FramebufferFormat::Rgba4)
        } else {
            None
        }
    }

    /// Returns the number of bytes per pixel used by this FramebufferFormat
    pub fn pixel_depth_bytes(&self) -> (bytes: usize)
        ensures
            bytes == self.depth(),
    {
        match *self {
            FramebufferFormat::Rgba8 => 4,
            FramebufferFormat::Bgr8 => 3,
            FramebufferFormat::Rgb565 => 2,
            FramebufferFormat::Rgb5A1 => 2,
            FramebufferFormat::Rgba4 => 2,
        }
    }
}

impl From<FramebufferFormat> for u32 {
    /// The driver's code for the format.
    fn from(g: FramebufferFormat) -> (code: u32) {
        match g {
            FramebufferFormat::Rgba8 => raw::GSP_RGBA8_OES,
            FramebufferFormat::Bgr8 => raw::GSP_BGR8_OES,
            FramebufferFormat::Rgb565 => raw::GSP_RGB565_OES,
            FramebufferFormat::Rgb5A1 => raw::GSP_RGB5_A1_OES,
            FramebufferFormat::Rgba4 => raw::GSP_RGBA4_OES,
        }
    }
}

impl FromSpecImpl<FramebufferFormat> for u32 {
    open spec fn obeys_from_spec() -> bool {
        true
    }

    open spec fn from_spec(g: FramebufferFormat) -> u32 {
        g.code()
    }
}

impl TryFrom<u32> for FramebufferFormat {
    type Error = UnknownFormat;

    /// The format that the driver code names. Codes above
    /// [`raw::GSP_RGBA4_OES`] name none and are handed back in the error.
    fn try_from(code: u32) -> (r: Result<FramebufferFormat, UnknownFormat>) {
        if code == raw::GSP_RGBA8_OES {
            Ok(FramebufferFormat::Rgba8)
        } else if code == raw::GSP_BGR8_OES {
            Ok(FramebufferFormat::Bgr8)
        } else if code == raw::GSP_RGB565_OES {
            Ok(FramebufferFormat::Rgb565)
        } else if code == raw::GSP_RGB5_A1_OES {
            Ok(FramebufferFormat::Rgb5A1)
        } else if code == raw::GSP_RGBA4_OES {
            Ok(FramebufferFormat::Rgba4)
        } else {
            Err(UnknownFormat { code })
        }
    }
}

impl TryFromSpecImpl<u32> for FramebufferFormat {
    open spec fn obeys_try_from_spec() -> bool {
        true
    }

    open spec fn try_from_spec(code: u32) -> Result<FramebufferFormat, UnknownFormat> {
        match FramebufferFormat::decode(code) {
            Some(format) => Ok(format),
            None => Err(UnknownFormat { code }),
        }
    }
}

impl Event {
    /// The driver's code for this event.
    pub open spec fn code(self) -> u32 {
        match self {
            Event::Psc0 => raw::GSPGPU_EVENT_PSC0,
            Event::Psc1 => raw::GSPGPU_EVENT_PSC1,
            Event::VBlank0 => raw::GSPGPU_EVENT_VBLANK0,
            Event::VBlank1 => raw::GSPGPU_EVENT_VBLANK1,
            Event::PPF => raw::GSPGPU_EVENT_PPF,
            Event::P3D => raw::GSPGPU_EVENT_P3D,
            Event::DMA => raw::GSPGPU_EVENT_DMA,
        }
    }
}

impl From<Event> for u32 {
    /// The driver's code for the event.
    fn from(ev: Event) -> (code: u32) {
        match ev {
            Event::Psc0 => raw::GSPGPU_EVENT_PSC0,
            Event::Psc1 => raw::GSPGPU_EVENT_PSC1,
            Event::VBlank0 => raw::GSPGPU_EVENT_VBLANK0,
            Event::VBlank1 => raw::GSPGPU_EVENT_VBLANK1,
            Event::PPF => raw::GSPGPU_EVENT_PPF,
            Event::P3D => raw::GSPGPU_EVENT_P3D,
            Event::DMA => raw::GSPGPU_EVENT_DMA,
        }
    }
}

impl FromSpecImpl<Event> for u32 {
    open spec fn obeys_from_spec() -> bool {
        true
    }

    open spec fn from_spec(ev: Event) -> u32 {
        ev.code()
    }
}

/// The request that waits for a GSPGPU event to occur.
///
/// `discard_current` determines whether to discard the current event and wait for the next event
///
/// The wait blocks the calling thread. It has no timeout and cannot be
/// cancelled.
pub fn wait_for_event(ev: Event, discard_current: bool) -> (request: Request)
    ensures
        request == (Request::GspWaitForEvent { event: ev.code(), discard_current }),
{
    Request::GspWaitForEvent { event: u32::from(ev), discard_current }
}

/// Converting a format to its driver code and back yields the format, and
/// a code that names a format is the code of that format: the formats and
/// the codes up to [`raw::GSP_RGBA4_OES`] correspond one to one.
pub proof fn lemma_format_code_round_trip(format: FramebufferFormat, code: u32)
    ensures
        <FramebufferFormat as TryFromSpec<u32>>::try_from_spec(
            <u32 as FromSpec<FramebufferFormat>>::from_spec(format),
        ) == Ok::<FramebufferFormat, UnknownFormat>(format),
        <FramebufferFormat as TryFromSpec<u32>>::try_from_spec(code) matches Ok(named)
            ==> <u32 as FromSpec<FramebufferFormat>>::from_spec(named) == code,
        <FramebufferFormat as TryFromSpec<u32>>::try_from_spec(code) is Ok <==> code
            <= raw::GSP_RGBA4_OES,
        <FramebufferFormat as TryFromSpec<u32>>::try_from_spec(code) matches Err(unknown)
            ==> unknown.code == code,
{
}

} // verus!
