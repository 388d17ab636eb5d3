//! Widths in bytes of the fixed-width records, and the two magic numbers.

use vstd::prelude::*;

verus! {

pub const LUMP_WIDTH: usize = 16;

pub const SEG_WIDTH: usize = 12;

pub const HEADER_WIDTH: usize = 12;

pub const VERTEX_WIDTH: usize = 4;

pub const SECTOR_WIDTH: usize = 26;

pub const SSECTOR_WIDTH: usize = 4;

pub const SIDEDEF_WIDTH: usize = 30;

pub const DOOM_LINEDEF_WIDTH: usize = 14;

pub const HEXEN_LINEDEF_WIDTH: usize = 16;

/// The type tag of a WAD that stands alone: the bytes `IWAD`, read little-endian.
pub const IWAD_NUMBER: u32 = 1145132873;

/// The type tag of a WAD that patches another: the bytes `PWAD`, read little-endian.
pub const PWAD_NUMBER: u32 = 1145132880;

} // verus!
