//! Vertices: four bytes, two signed coordinates.

use crate::doom::constants::VERTEX_WIDTH;
use crate::error::FormatError;
use crate::utils::{le_i16, u8_to_i16};
use vstd::prelude::*;

verus! {

/// A point of a level, in the container's own coordinates.
#[derive(Clone, Copy, Debug, PartialEq, Eq, Structural)]
pub struct Vertex {
    pub x: i16,
    pub y: i16,
}

impl Vertex {
    /// The vertex that four bytes stand for: `x` in the first two, `y` in the
    /// last two, each little-endian and signed.
    pub open spec fn decode(dat: Seq<u8>) -> Vertex {
        Vertex { x: le_i16(dat[0], dat[1]) as i16, y: le_i16(dat[2], dat[3]) as i16 }
    }

    /// Decodes one vertex record.
    pub fn new(dat: &[u8]) -> (r: Result<Vertex, FormatError>)
        ensures
            dat@.len() == VERTEX_WIDTH ==> r == Ok::<Vertex, FormatError>(Vertex::decode(dat@)),
            dat@.len() != VERTEX_WIDTH ==> r == Err::<Vertex, FormatError>(
                FormatError::RecordWidth { expected: VERTEX_WIDTH, actual: dat@.len() as usize },
            ),
    {
        if dat.len() != VERTEX_WIDTH {
            return Err(FormatError::RecordWidth { expected: VERTEX_WIDTH, actual: dat.len() });
        }
        Ok(Vertex { x: u8_to_i16(dat[0], dat[1]), y: u8_to_i16(dat[2], dat[3]) })
    }
}

} // verus!
