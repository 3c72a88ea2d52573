//! Emulation of two fixed-function units of a 64-bit game console:
//! the CPU's table-driven instruction decoder, and the display processor
//! ("RDP") that parses a command stream and rasterizes triangles and
//! rectangles into an RGBA framebuffer.
//!
//! Every operation carries a contract that pins its result down to a
//! mathematical model: the decoder to a field-level description of the
//! instruction encodings, the command parser to the bit layout of each
//! 64-bit command word, and the rasterizer to a scanline-by-scanline
//! model of the edge walk and attribute interpolation.

pub mod commands;
pub mod decoder;
pub mod fixed;
pub mod raster;

pub use commands::CombineMode;
pub use commands::CommandError;
pub use commands::CommandReader;
pub use commands::FillColor;
pub use commands::ImageReference;
pub use commands::RDPCommand;
pub use commands::Rectangle;
pub use commands::TextureFormat;
pub use commands::TextureSize;
pub use commands::Tile;
pub use decoder::Opcode;
pub use fixed::Coefficient;
pub use fixed::EdgeCoefficients;
pub use fixed::ShadeCoefficients;
pub use fixed::TextureCoefficients;
pub use raster::RDP;
