//! Linedefs: the edges of a level, in one of two layouts.

use crate::doom::constants::{DOOM_LINEDEF_WIDTH, HEXEN_LINEDEF_WIDTH};
use crate::error::FormatError;
use crate::utils::{le_i16, le_u16, u8_to_i16, u8_to_u16};
use vstd::prelude::*;

verus! {

/// A directed edge between two vertices of a level.
///
/// `left` and `right` name the sides of the line; -1 stands for no side. The
/// Doom layout fills `stype` and `tag` and leaves `args` zero; the Hexen
/// layout fills `args` and leaves `stype` and `tag` zero.
#[derive(Clone, Copy, Debug, PartialEq, Eq)]
pub struct LineDef {
    pub end: usize,
    pub start: usize,
    pub left: i16,
    pub right: i16,
    pub tag: u16,
    pub flags: u16,
    pub stype: u16,
    pub args: [u8; 6],
}

/// The width of one linedef record in the given layout.
pub open spec fn linedef_width(is_hexen: bool) -> usize {
    if is_hexen {
        HEXEN_LINEDEF_WIDTH
    } else {
        DOOM_LINEDEF_WIDTH
    }
}

impl LineDef {
    /// The linedef that fourteen bytes stand for in the Doom layout.
    pub open spec fn decode_doom(dat: Seq<u8>) -> LineDef {
        LineDef {
            start: le_u16(dat[0], dat[1]) as usize,
            end: le_u16(dat[2], dat[3]) as usize,
            flags: le_u16(dat[4], dat[5]) as u16,
            stype: le_u16(dat[6], dat[7]) as u16,
            tag: le_u16(dat[8], dat[9]) as u16,
            left: le_i16(dat[10], dat[11]) as i16,
            right: le_i16(dat[12], dat[13]) as i16,
            args: [0, 0, 0, 0, 0, 0],
        }
    }

    /// The linedef that sixteen bytes stand for in the Hexen layout.
    pub open spec fn decode_hexen(dat: Seq<u8>) -> LineDef {
        LineDef {
            start: le_u16(dat[0], dat[1]) as usize,
            end: le_u16(dat[2], dat[3]) as usize,
            flags: le_u16(dat[4], dat[5]) as u16,
            stype: 0,
            tag: 0,
            right: le_i16(dat[12], dat[13]) as i16,
            left: le_i16(dat[14], dat[15]) as i16,
            args: [dat[6], dat[7], dat[8], dat[9], dat[10], dat[11]],
        }
    }

    /// The linedef that one record stands for in the given layout.
    pub open spec fn decode(is_hexen: bool, dat: Seq<u8>) -> LineDef {
        if is_hexen {
            LineDef::decode_hexen(dat)
        } else {
            LineDef::decode_doom(dat)
        }
    }

    /// Decodes one linedef record of the given layout.
    pub fn new(is_hexen: bool, dat: &[u8]) -> (r: Result<LineDef, FormatError>)
        ensures
            dat@.len() == linedef_width(is_hexen) ==> r == Ok::<LineDef, FormatError>(
                LineDef::decode(is_hexen, dat@),
            ),
            dat@.len() != linedef_width(is_hexen) ==> r == Err::<LineDef, FormatError>(
                FormatError::RecordWidth {
                    expected: linedef_width(is_hexen),
                    actual: dat@.len() as usize,
                },
            ),
    {
        if is_hexen {
            if dat.len() != HEXEN_LINEDEF_WIDTH {
                return Err(
                    FormatError::RecordWidth { expected: HEXEN_LINEDEF_WIDTH, actual: dat.len() },
                );
            }
            Ok(
                LineDef {
                    start: u8_to_u16(dat[0], dat[1]) as usize,
                    end: u8_to_u16(dat[2], dat[3]) as usize,
                    right: u8_to_i16(dat[12], dat[13]),
                    left: u8_to_i16(dat[14], dat[15]),
                    flags: u8_to_u16(dat[4], dat[5]),
                    stype: 0,
                    tag: 0,
                    args: [dat[6], dat[7], dat[8], dat[9], dat[10], dat[11]],
                },
            )
        } else {
            if dat.len() != DOOM_LINEDEF_WIDTH {
                return Err(
                    FormatError::RecordWidth { expected: DOOM_LINEDEF_WIDTH, actual: dat.len() },
                );
            }
            Ok(
                LineDef {
                    start: u8_to_u16(dat[0], dat[1]) as usize,
                    end: u8_to_u16(dat[2], dat[3]) as usize,
                    left: u8_to_i16(dat[10], dat[11]),
                    right: u8_to_i16(dat[12], dat[13]),
                    flags: u8_to_u16(dat[4], dat[5]),
                    stype: u8_to_u16(dat[6], dat[7]),
                    tag: u8_to_u16(dat[8], dat[9]),
                    args: [0, 0, 0, 0, 0, 0],
                },
            )
        }
    }

    /// Whether the line has a side missing.
    pub open spec fn one_sided(self) -> bool {
        self.left == -1 || self.right == -1
    }

    /// Whether nothing lies behind the line: one of its sides is -1. Both
    /// being -1 counts too.
    pub fn is_one_sided(&self) -> (b: bool)
        ensures
            b == self.one_sided(),
    {
        self.left == -1 || self.right == -1
    }

    /// The special type of the line: `stype` where it is set, else the first
    /// argument byte.
    pub open spec fn special(self) -> u16 {
        if self.stype == 0 {
            self.args[0] as u16
        } else {
            self.stype
        }
    }

    /// The special type of the line, whichever layout it came from.
    pub fn special_type(&self) -> (t: u16)
        ensures
            t == self.special(),
    {
        match self.stype {
            0 => self.args[0] as u16,
            x => x,
        }
    }
}

} // verus!
