//! Lumps: the sixteen-byte entries of the directory.

use crate::doom::constants::{HEADER_WIDTH, LUMP_WIDTH};
use crate::error::FormatError;
use crate::utils::{le_u32, u8_to_u32};
use crate::doom::name::{lemma_trimmed_len, name_text, padded_name, trim_nul, trimmed_length};
use std::ops::Range;
use vstd::prelude::*;

verus! {

/// One entry of the directory: where a piece of data lies in the file, how
/// long it is, and what it is called.
///
/// `posn` counts from the start of the file. `name` is the entry's name
/// without the NUL bytes that pad it. `is_level` says that the name is that
/// of a level: `E`, a digit, `M`, a digit; or `MAP` and two more characters.
pub struct Lump {
    pub posn: usize,
    pub size: usize,
    pub name: String,
    pub is_level: bool,
}

/// A lump as a value, its name as characters.
pub struct LumpView {
    pub posn: usize,
    pub size: usize,
    pub name: Seq<char>,
    pub is_level: bool,
}

impl View for Lump {
    type V = LumpView;

    open spec fn view(&self) -> LumpView {
        LumpView { posn: self.posn, size: self.size, name: self.name@, is_level: self.is_level }
    }
}

/// Whether the byte is the code of a decimal digit.
pub open spec fn is_digit(b: u8) -> bool {
    48 <= b <= 57
}

/// Whether a name, trimmed, is that of a level: `E`, a digit, `M` and a
/// digit; or `MAP` and two more characters. Nothing may follow.
pub open spec fn is_level_name(name: Seq<u8>) -> bool {
    ||| {
        &&& name.len() == 4
        &&& name[0] == 69
        &&& is_digit(name[1])
        &&& name[2] == 77
        &&& is_digit(name[3])
    }
    ||| {
        &&& name.len() == 5
        &&& name[0] == 77
        &&& name[1] == 65
        &&& name[2] == 80
    }
}

/// The eight bytes of the name in a lump entry, without their padding.
pub open spec fn lump_name(dat: Seq<u8>) -> Seq<u8> {
    trim_nul(dat.subrange(8, 16))
}

/// The lump that sixteen bytes stand for: the position in the first four,
/// the size in the next four, the name in the last eight.
pub open spec fn decode_lump(dat: Seq<u8>) -> LumpView {
    LumpView {
        posn: le_u32(dat[0], dat[1], dat[2], dat[3]) as usize,
        size: le_u32(dat[4], dat[5], dat[6], dat[7]) as usize,
        name: name_text(lump_name(dat)),
        is_level: is_level_name(lump_name(dat)),
    }
}

/// A name written into an entry and padded with NUL is the name that the
/// entry is read to have, and the entry is a level marker exactly where the
/// name is that of a level.
pub proof fn lemma_name_round_trip(dat: Seq<u8>, name: Seq<u8>)
    requires
        dat.len() == LUMP_WIDTH,
        name.len() <= 8,
        name.len() > 0 ==> name.last() != 0,
        forall|k: int| 0 <= k < name.len() ==> dat[8 + k] == name[k],
        forall|k: int| 8 + name.len() <= k < 16 ==> dat[k] == 0,
    ensures
        lump_name(dat) == name,
        decode_lump(dat).name == name_text(name),
        decode_lump(dat).is_level == is_level_name(name),
{
    let padded = dat.subrange(8, 16);
    lemma_trimmed_len(padded, name.len() as int);
    assert(lump_name(dat) =~= name);
}

impl Lump {
    /// Decodes one entry of the directory.
    pub fn new(dat: &[u8]) -> (r: Result<Lump, FormatError>)
        ensures
            match r {
                Ok(lump) => dat@.len() == LUMP_WIDTH && lump@ == decode_lump(dat@),
                Err(e) => dat@.len() != LUMP_WIDTH && e == (FormatError::RecordWidth {
                    expected: LUMP_WIDTH,
                    actual: dat@.len() as usize,
                }),
            },
    {
        if dat.len() != LUMP_WIDTH {
            return Err(FormatError::RecordWidth { expected: LUMP_WIDTH, actual: dat.len() });
        }
        // names are padded with NUL bytes: see how long the name itself is
        let padded = &dat[8..16];
        let length: usize = trimmed_length(padded);
        proof {
            let name = lump_name(dat@);
            assert forall|k: int| 0 <= k < length implies name[k] == dat@[8 + k] by {}
        }

        // a level is called ExMx or MAPxx, and nothing longer
        let mut is_level_lump = false;
        if length == 4 {
            if dat[8] == 69 && dat[10] == 77 && 48 <= dat[9] && dat[9] <= 57 && 48 <= dat[11]
                && dat[11] <= 57 {
                is_level_lump = true;
            }
        } else if length == 5 {
            if dat[8] == 77 && dat[9] == 65 && dat[10] == 80 {
                is_level_lump = true;
            }
        }

        Ok(
            Lump {
                is_level: is_level_lump,
                posn: u8_to_u32(dat[0], dat[1], dat[2], dat[3]) as usize,
                size: u8_to_u32(dat[4], dat[5], dat[6], dat[7]) as usize,
                name: padded_name(padded),
            },
        )
    }

    /// Whether the lump is called `name`.
    pub fn has_name(&self, name: &str) -> (b: bool)
        ensures
            b == (self.name@ == name@),
    {
        let wanted = String::from_str(name);
        self.name == wanted
    }

    /// Whether the lump's data can be addressed in a data pool that begins
    /// right after the header: the lump begins no earlier, and its end can be
    /// counted.
    pub open spec fn in_pool(self) -> bool {
        self.posn >= HEADER_WIDTH && self.posn - HEADER_WIDTH + self.size <= usize::MAX
    }

    /// Whether the lump's data lies in a data pool of `pool` bytes.
    pub open spec fn inside(self, pool: nat) -> bool {
        self.posn >= HEADER_WIDTH && self.posn - HEADER_WIDTH + self.size <= pool
    }

    /// Whether the lump's data lies in a data pool of `pool` bytes.
    pub fn lies_in(&self, pool: usize) -> (b: bool)
        ensures
            b == self.inside(pool as nat),
    {
        self.posn >= HEADER_WIDTH && self.posn - HEADER_WIDTH <= pool && self.size <= pool - (
        self.posn - HEADER_WIDTH)
    }

    /// Where the lump's data lies in the data pool. The pool begins where the
    /// header ends, so the header's width comes off the position.
    pub fn range(&self) -> (r: Range<usize>)
        requires
            self.in_pool(),
        ensures
            r.start == self.posn - HEADER_WIDTH,
            r.end == self.posn - HEADER_WIDTH + self.size,
    {
        (self.posn - HEADER_WIDTH)..((self.posn - HEADER_WIDTH) + self.size)
    }
}

} // verus!
