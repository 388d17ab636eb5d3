//! Sectors: twenty-six bytes, two heights, two texture names and a light
//! level.

use crate::doom::constants::SECTOR_WIDTH;
use crate::doom::name::{name_text, padded_name, trim_nul};
use crate::error::FormatError;
use crate::utils::{le_u16, u8_to_u16};
use vstd::prelude::*;

verus! {

/// A zone of a level: the heights of its floor and ceiling, their textures,
/// and its light level.
///
/// `stype` and `stag` are read from the bytes of the ceiling height.
pub struct Sector {
    pub floor: u16,
    pub ceil: u16,
    pub floor_tex: String,
    pub ceil_tex: String,
    pub light: u16,
    pub stype: u16,
    pub stag: u16,
}

/// A sector as a value, its texture names as characters.
pub struct SectorView {
    pub floor: u16,
    pub ceil: u16,
    pub floor_tex: Seq<char>,
    pub ceil_tex: Seq<char>,
    pub light: u16,
    pub stype: u16,
    pub stag: u16,
}

impl View for Sector {
    type V = SectorView;

    open spec fn view(&self) -> SectorView {
        SectorView {
            floor: self.floor,
            ceil: self.ceil,
            floor_tex: self.floor_tex@,
            ceil_tex: self.ceil_tex@,
            light: self.light,
            stype: self.stype,
            stag: self.stag,
        }
    }
}

/// The sector that twenty-six bytes stand for: the floor height in the first
/// two bytes and the ceiling height in the next two, the name of the floor
/// texture in the eight bytes from the fifth and that of the ceiling texture
/// in the eight after them, each without its padding, and the light level in
/// two bytes from the twenty-first.
pub open spec fn decode_sector(dat: Seq<u8>) -> SectorView {
    SectorView {
        floor: le_u16(dat[0], dat[1]) as u16,
        ceil: le_u16(dat[2], dat[3]) as u16,
        floor_tex: name_text(trim_nul(dat.subrange(4, 12))),
        ceil_tex: name_text(trim_nul(dat.subrange(12, 20))),
        light: le_u16(dat[20], dat[21]) as u16,
        stype: le_u16(dat[2], dat[3]) as u16,
        stag: le_u16(dat[2], dat[3]) as u16,
    }
}

impl Sector {
    /// Decodes one sector record.
    pub fn new(dat: &[u8]) -> (r: Result<Sector, FormatError>)
        ensures
            match r {
                Ok(sector) => dat@.len() == SECTOR_WIDTH && sector@ == decode_sector(dat@),
                Err(e) => dat@.len() != SECTOR_WIDTH && e == (FormatError::RecordWidth {
                    expected: SECTOR_WIDTH,
                    actual: dat@.len() as usize,
                }),
            },
    {
        if dat.len() != SECTOR_WIDTH {
            return Err(FormatError::RecordWidth { expected: SECTOR_WIDTH, actual: dat.len() });
        }
        Ok(
            Sector {
                floor: u8_to_u16(dat[0], dat[1]),
                ceil: u8_to_u16(dat[2], dat[3]),
                floor_tex: padded_name(&dat[4..12]),
                ceil_tex: padded_name(&dat[12..20]),
                light: u8_to_u16(dat[20], dat[21]),
                stype: u8_to_u16(dat[2], dat[3]),
                stag: u8_to_u16(dat[2], dat[3]),
            },
        )
    }
}

} // verus!
