//! Verified core of a dual-screen display and text-console layer.
//!
//! The library holds the state machines and the driver vocabulary; it never
//! touches hardware itself. Every operation returns the driver requests that
//! the embedding program has to perform, in order, to make the hardware follow
//! the state that the library has just computed.
//!
//! - [`services::gspgpu`]: pixel formats and display events, with their
//!   driver codes.
//! - [`gfx`]: the display service, of which at most one is alive, and the
//!   framebuffer configuration that it holds.
//! - [`console`]: text consoles and the registry of the selected one.
//! - [`raw`]: the driver's codes and requests.

pub mod console;
pub mod gfx;
pub mod raw;
pub mod services;
