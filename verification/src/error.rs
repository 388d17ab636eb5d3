//! What can be wrong with the bytes of a WAD.

use crate::text::{decimal, decimal_string};
use vstd::prelude::*;

verus! {

/// The reasons for which a file is rejected.
#[derive(Clone, Copy, Debug, PartialEq, Eq, Structural)]
pub enum FormatError {
    /// A record of `expected` bytes was to be read where `actual` bytes stand.
    RecordWidth { expected: usize, actual: usize },
    /// The header's type tag is neither of the two magic numbers.
    NotAWad { wadtype: u32 },
    /// The header announces `expected` lumps and the directory holds `actual`.
    LumpCount { expected: usize, actual: usize },
    /// The directory holds no entry at all.
    NoLumps,
    /// The directory is to begin at offset `lumpaddr` of a file of `file`
    /// bytes: inside the header, or after the end of the file.
    DirectoryOutside { lumpaddr: usize, file: usize },
    /// A lump of `size` bytes at offset `posn` of the file does not lie in
    /// the data pool, which is the `pool` bytes after the header.
    LumpOutside { posn: usize, size: usize, pool: usize },
    /// A linedef names vertex `index` in a level of `count` vertices.
    VertexIndex { index: usize, count: usize },
}

impl FormatError {
    /// The error in words.
    pub open spec fn text(self) -> Seq<char> {
        match self {
            FormatError::RecordWidth { expected, actual } => "expected a record of "@ + decimal(
                expected as nat,
            ) + " bytes, found "@ + decimal(actual as nat),
            FormatError::NotAWad { wadtype } => "not a WAD: type tag "@ + decimal(wadtype as nat),
            FormatError::LumpCount { expected, actual } => "lump count does not match header: "@
                + decimal(expected as nat) + " announced, "@ + decimal(actual as nat) + " found"@,
            FormatError::NoLumps => "no directory entries"@,
            FormatError::DirectoryOutside { lumpaddr, file } => "directory at offset "@ + decimal(
                lumpaddr as nat,
            ) + " outside a file of "@ + decimal(file as nat) + " bytes"@,
            FormatError::LumpOutside { posn, size, pool } => "lump of "@ + decimal(size as nat)
                + " bytes at offset "@ + decimal(posn as nat) + " outside a data pool of "@
                + decimal(pool as nat) + " bytes"@,
            FormatError::VertexIndex { index, count } => "vertex "@ + decimal(index as nat)
                + " named in a level of "@ + decimal(count as nat) + " vertices"@,
        }
    }

    /// The error in words, for a report.
    pub fn message(&self) -> (s: String)
        ensures
            s@ == self.text(),
    {
        match *self {
            FormatError::RecordWidth { expected, actual } => {
                let mut s = String::from_str("expected a record of ");
                s.append(decimal_string(expected as u64).as_str());
                s.append(" bytes, found ");
                s.append(decimal_string(actual as u64).as_str());
                s
            },
            FormatError::NotAWad { wadtype } => {
                let mut s = String::from_str("not a WAD: type tag ");
                s.append(decimal_string(wadtype as u64).as_str());
                s
            },
            FormatError::LumpCount { expected, actual } => {
                let mut s = String::from_str("lump count does not match header: ");
                s.append(decimal_string(expected as u64).as_str());
                s.append(" announced, ");
                s.append(decimal_string(actual as u64).as_str());
                s.append(" found");
                s
            },
            FormatError::NoLumps => String::from_str("no directory entries"),
            FormatError::DirectoryOutside { lumpaddr, file } => {
                let mut s = String::from_str("directory at offset ");
                s.append(decimal_string(lumpaddr as u64).as_str());
                s.append(" outside a file of ");
                s.append(decimal_string(file as u64).as_str());
                s.append(" bytes");
                s
            },
            FormatError::LumpOutside { posn, size, pool } => {
                let mut s = String::from_str("lump of ");
                s.append(decimal_string(size as u64).as_str());
                s.append(" bytes at offset ");
                s.append(decimal_string(posn as u64).as_str());
                s.append(" outside a data pool of ");
                s.append(decimal_string(pool as u64).as_str());
                s.append(" bytes");
                s
            },
            FormatError::VertexIndex { index, count } => {
                let mut s = String::from_str("vertex ");
                s.append(decimal_string(index as u64).as_str());
                s.append(" named in a level of ");
                s.append(decimal_string(count as u64).as_str());
                s.append(" vertices");
                s
            },
        }
    }
}

} // verus!
