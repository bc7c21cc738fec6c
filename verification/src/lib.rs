//! A bitmap-font text batcher: accumulates textured glyph quads into a
//! pending batch of vertices and triangle indices, and once per frame plans a
//! single upload-and-draw over GPU backing stores whose capacity only ever
//! grows by doubling.
//!
//! The GPU itself (buffer allocation, upload, the draw call) and all
//! floating-point conversion live outside this crate; the core here works on
//! plain integer pixel and atlas coordinates and on capacity mirrors measured
//! in bytes.

pub mod glyph;
pub mod vertex;
pub mod text_renderer;
pub mod utils;
