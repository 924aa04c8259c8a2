//! Interpreter for the display lists of a fixed-function console GPU.
//!
//! A display list is a stream of eight-byte commands in the emulated console's
//! memory. The interpreter walks it, keeps the geometry stage (RSP) and the
//! rasterizer stage (RDP) up to date, and turns what it reads into an ordered
//! log of backend operations: state changes, texture uploads, shader loads and
//! batches of triangles.
pub mod audio;
pub mod combiner;
pub mod gbi;
pub mod output;
pub mod rcp;
pub mod rdp;
pub mod render_mode;
pub mod rsp;
pub mod texture;
pub mod texture_cache;
pub mod tmem;
