//! The rendering core of a GPU-backed graphics device: the request protocol,
//! the scene accumulator, the window lifecycle and the pattern capture
//! protocol, with the byte-level parts of headless export.
//!
//! Nothing here owns a window, a surface or a GPU object: the server's
//! entry points return what the event loop has to do with them.
pub mod color;
pub mod geometry;
pub mod protocol;
pub mod scene;
pub mod server;
pub mod lemmas;
pub mod raster;
pub mod debug_device;
pub mod span_report;
