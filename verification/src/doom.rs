//! The records of a WAD: header, lumps, vertices, linedefs, levels.

pub mod constants;
pub mod level;
pub mod linedef;
pub mod lump;
pub mod name;
pub mod sector;
pub mod seg;
pub mod subsector;
pub mod table;
pub mod vertex;
pub mod wad;
