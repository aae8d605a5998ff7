//! A declarative component tree rendered into one raster surface.
//!
//! A tree of containers and image leaves is decoded, resolved into concrete
//! positive pixel boxes, and painted depth-first into a single shared pixel
//! surface; any node-level failure aborts the whole pass.

pub mod assets;
pub mod error;
pub mod layout;
pub mod locator;
pub mod node;
pub mod paint;
pub mod render;
pub mod scale;
pub mod style;
pub mod surface;
