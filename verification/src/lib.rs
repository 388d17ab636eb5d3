//! Decoding of WAD containers and rendering of their levels as line drawings.
//!
//! A WAD is a twelve-byte header, a pool of data and a trailing directory of
//! sixteen-byte entries called lumps. The library decodes the header and the
//! directory, groups the lumps into levels, decodes each level's vertices and
//! linedefs, and lays every level out on a drawing surface.

pub mod doom;
pub mod error;
pub mod mapmaker;
pub mod optparse;
pub mod parse_wad;
pub mod svg;
pub mod text;
pub mod utils;
