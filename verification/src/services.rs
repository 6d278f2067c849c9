//! System services reached through the driver.

pub mod gspgpu;
