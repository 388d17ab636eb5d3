//! Segs: twelve bytes, six unsigned fields.

use crate::doom::constants::SEG_WIDTH;
use crate::error::FormatError;
use crate::utils::{le_u16, u8_to_u16};
use vstd::prelude::*;

verus! {

/// A piece of a linedef, as the node builder cut it.
#[derive(Clone, Copy, Debug, PartialEq, Eq, Structural)]
pub struct Seg {
    pub start: u16,
    pub end: u16,
    pub angle: u16,
    pub line: u16,
    pub direction: u16,
    pub offset: u16,
}

impl Seg {
    /// The seg that twelve bytes stand for: six little-endian fields in the
    /// order start, end, angle, line, direction, offset.
    pub open spec fn decode(dat: Seq<u8>) -> Seg {
        Seg {
            start: le_u16(dat[0], dat[1]) as u16,
            end: le_u16(dat[2], dat[3]) as u16,
            angle: le_u16(dat[4], dat[5]) as u16,
            line: le_u16(dat[6], dat[7]) as u16,
            direction: le_u16(dat[8], dat[9]) as u16,
            offset: le_u16(dat[10], dat[11]) as u16,
        }
    }

    /// Decodes one seg record.
    pub fn new(dat: &[u8]) -> (r: Result<Seg, FormatError>)
        ensures
            dat@.len() == SEG_WIDTH ==> r == Ok::<Seg, FormatError>(Seg::decode(dat@)),
            dat@.len() != SEG_WIDTH ==> r == Err::<Seg, FormatError>(
                FormatError::RecordWidth { expected: SEG_WIDTH, actual: dat@.len() as usize },
            ),
    {
        if dat.len() != SEG_WIDTH {
            return Err(FormatError::RecordWidth { expected: SEG_WIDTH, actual: dat.len() });
        }
        Ok(
            Seg {
                start: u8_to_u16(dat[0], dat[1]),
                end: u8_to_u16(dat[2], dat[3]),
                angle: u8_to_u16(dat[4], dat[5]),
                line: u8_to_u16(dat[6], dat[7]),
                direction: u8_to_u16(dat[8], dat[9]),
                offset: u8_to_u16(dat[10], dat[11]),
            },
        )
    }
}

} // verus!
