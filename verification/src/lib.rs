//! Decompile Cubism `.moc3` runtime models into readable `.cmo3` projects.
//!
//! The library reads the binary MOC3 layout, encodes and decodes the CAFF
//! archives that hold `.cmo3` and `.can3` projects, and builds the pieces of
//! the editor XML that do not depend on floating-point text.

pub mod animation;
pub mod caff;
pub mod can3;
pub mod cmo3;
pub mod decompiler;
pub mod displayinfo3;
pub mod error;
pub mod expression3;
pub mod moc3;
pub mod motion3;
pub mod physics3;
pub mod scene;
pub mod model3;
pub mod text;


pub use error::Error;
