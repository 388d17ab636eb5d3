//! Subsectors: four bytes, a count of segs and the place of the first.

use crate::doom::constants::SSECTOR_WIDTH;
use crate::error::FormatError;
use crate::utils::{le_u16, u8_to_u16};
use vstd::prelude::*;

verus! {

/// A run of segs: how many there are, and which is the first.
#[derive(Clone, Copy, Debug, PartialEq, Eq, Structural)]
pub struct Subsector {
    pub scount: usize,
    pub addr: usize,
}

impl Subsector {
    /// The subsector that four bytes stand for: the count in the first two,
    /// the first seg in the last two, each little-endian.
    pub open spec fn decode(dat: Seq<u8>) -> Subsector {
        Subsector {
            scount: le_u16(dat[0], dat[1]) as usize,
            addr: le_u16(dat[2], dat[3]) as usize,
        }
    }

    /// Decodes one subsector record.
    pub fn new(dat: &[u8]) -> (r: Result<Subsector, FormatError>)
        ensures
            dat@.len() == SSECTOR_WIDTH ==> r == Ok::<Subsector, FormatError>(
                Subsector::decode(dat@),
            ),
            dat@.len() != SSECTOR_WIDTH ==> r == Err::<Subsector, FormatError>(
                FormatError::RecordWidth { expected: SSECTOR_WIDTH, actual: dat@.len() as usize },
            ),
    {
        if dat.len() != SSECTOR_WIDTH {
            return Err(FormatError::RecordWidth { expected: SSECTOR_WIDTH, actual: dat.len() });
        }
        Ok(
            Subsector {
                scount: u8_to_u16(dat[0], dat[1]) as usize,
                addr: u8_to_u16(dat[2], dat[3]) as usize,
            },
        )
    }
}

} // verus!
