//! From the bytes of a file to a WAD: header, directory, levels.

use crate::doom::constants::{HEADER_WIDTH, LUMP_WIDTH};
use crate::doom::lump::{decode_lump, Lump, LumpView};
use crate::doom::table::{record, table_error};
use crate::doom::wad::{assemble_wad, decode_header, lump_views, Wad, WadHeader, WadView};
use crate::error::FormatError;
use crate::utils::packet_range;
use vstd::prelude::*;

verus! {

/// The lumps that a directory holds, in its order. Bytes after the last
/// whole entry stand for nothing.
pub open spec fn directory_of(dir: Seq<u8>) -> Seq<LumpView> {
    Seq::new(
        (dir.len() / LUMP_WIDTH as nat) as nat,
        |i: int| decode_lump(record(dir, LUMP_WIDTH as int, i)),
    )
}

/// Whether one of the first `n` lumps is called `BEHAVIOR`.
pub open spec fn behavior_among(lumps: Seq<LumpView>, n: int) -> bool {
    exists|i: int| 0 <= i < n && (#[trigger] lumps[i]).name == "BEHAVIOR"@
}

/// Whether a directory marks its WAD as one with linedefs in the Hexen
/// layout: it does with a lump called `BEHAVIOR`, wherever that stands.
pub open spec fn has_behavior(lumps: Seq<LumpView>) -> bool {
    behavior_among(lumps, lumps.len() as int)
}

/// Decodes the directory, entry by entry, and says whether a lump in it is
/// called `BEHAVIOR`. A directory that ends inside an entry is rejected.
pub fn scan_directory(dir: &[u8]) -> (r: Result<(Vec<Lump>, bool), FormatError>)
    ensures
        match r {
            Ok((lumps, is_hexen)) => {
                &&& table_error(dir@.len(), LUMP_WIDTH) is None
                &&& lump_views(lumps@) == directory_of(dir@)
                &&& is_hexen == has_behavior(directory_of(dir@))
            },
            Err(e) => table_error(dir@.len(), LUMP_WIDTH) == Some(e),
        },
{
    let mut is_hexen = false;
    let mut lumps: Vec<Lump> = Vec::new();

    let mut offset: usize = 0;
    while offset < dir.len()
        invariant
            offset <= dir@.len(),
            offset == lumps@.len() * LUMP_WIDTH,
            forall|i: int|
                0 <= i < lumps@.len() ==> (#[trigger] lumps@[i])@ == decode_lump(
                    record(dir@, LUMP_WIDTH as int, i),
                ),
            is_hexen == behavior_among(lump_views(lumps@), lumps@.len() as int),
        decreases dir@.len() - offset,
    {
        let rest: usize = dir.len() - offset;
        if rest < LUMP_WIDTH {
            return Err(FormatError::RecordWidth { expected: LUMP_WIDTH, actual: rest });
        }
        let pkt = &dir[packet_range(offset, LUMP_WIDTH)];
        match Lump::new(pkt) {
            Ok(l) => {
                let ghost before = lump_views(lumps@);
                let ghost after = lump_views(lumps@.push(l));
                proof {
                    if behavior_among(before, lumps@.len() as int) {
                        let k = choose|k: int|
                            0 <= k < lumps@.len() && (#[trigger] before[k]).name == "BEHAVIOR"@;
                        assert(after[k].name == "BEHAVIOR"@);
                    }
                    if l.name@ == "BEHAVIOR"@ {
                        assert(after[lumps@.len() as int].name == "BEHAVIOR"@);
                    }
                    if behavior_among(after, lumps@.len() as int + 1) {
                        let k = choose|k: int|
                            0 <= k < lumps@.len() + 1 && (#[trigger] after[k]).name == "BEHAVIOR"@;
                        if k < lumps@.len() {
                            assert(before[k].name == "BEHAVIOR"@);
                        }
                    }
                }
                // a lump of this name marks the whole WAD
                if l.has_name("BEHAVIOR") {
                    is_hexen = true;
                }
                lumps.push(l);
            },
            Err(e) => {
                return Err(e);
            },
        }
        offset += LUMP_WIDTH;
    }
    proof {
        assert(lump_views(lumps@) =~= directory_of(dir@));
    }
    Ok((lumps, is_hexen))
}

/// What the bytes of a file decode to under a name.
///
/// The file must hold a header, and the header must be that of a WAD. The
/// directory must begin after the header and in the file, and consist of
/// whole entries, as many as the header says. The data between header and
/// directory and the lumps of the directory then give the WAD.
pub open spec fn decode_wad(name: Seq<char>, bytes: Seq<u8>) -> Result<WadView, FormatError> {
    if bytes.len() < HEADER_WIDTH {
        Err(FormatError::RecordWidth { expected: HEADER_WIDTH, actual: bytes.len() as usize })
    } else {
        match decode_header(bytes.subrange(0, HEADER_WIDTH as int)) {
            Err(e) => Err(e),
            Ok(header) => if header.lumpaddr < HEADER_WIDTH || header.lumpaddr > bytes.len() {
                Err(
                    FormatError::DirectoryOutside {
                        lumpaddr: header.lumpaddr,
                        file: bytes.len() as usize,
                    },
                )
            } else {
                let data = bytes.subrange(HEADER_WIDTH as int, header.lumpaddr as int);
                let dir = bytes.subrange(header.lumpaddr as int, bytes.len() as int);
                let lumps = directory_of(dir);
                match table_error(dir.len(), LUMP_WIDTH) {
                    Some(e) => Err(e),
                    None => if lumps.len() != header.numlumps {
                        Err(
                            FormatError::LumpCount {
                                expected: header.numlumps,
                                actual: lumps.len() as usize,
                            },
                        )
                    } else {
                        assemble_wad(name, header, lumps, data, has_behavior(lumps))
                    },
                }
            },
        }
    }
}

/// Decodes a WAD from all the bytes of its file.
pub fn parse_wad(fname: &str, all_bytes: &[u8]) -> (r: Result<Wad, FormatError>)
    ensures
        match r {
            Ok(wad) => decode_wad(fname@, all_bytes@) == Ok::<WadView, FormatError>(wad@),
            Err(e) => decode_wad(fname@, all_bytes@) == Err::<WadView, FormatError>(e),
        },
{
    if all_bytes.len() < HEADER_WIDTH {
        return Err(
            FormatError::RecordWidth { expected: HEADER_WIDTH, actual: all_bytes.len() },
        );
    }
    // the header is the first twelve bytes

    let header = match WadHeader::new(&all_bytes[0..HEADER_WIDTH]) {
        Ok(h) => h,
        Err(e) => {
            return Err(e);
        },
    };
    if header.lumpaddr < HEADER_WIDTH || header.lumpaddr > all_bytes.len() {
        return Err(
            FormatError::DirectoryOutside { lumpaddr: header.lumpaddr, file: all_bytes.len() },
        );
    }
    let data = &all_bytes[header.data_range()];
    let lump_data = &all_bytes[header.lump_range().start..all_bytes.len()];

    let (lumps, is_hexen) = match scan_directory(lump_data) {
        Ok(found) => found,
        Err(e) => {
            return Err(e);
        },
    };

    if lumps.len() != header.numlumps {
        return Err(FormatError::LumpCount { expected: header.numlumps, actual: lumps.len() });
    }
    Wad::new(fname, header, &lumps, data, is_hexen)
}

} // verus!
