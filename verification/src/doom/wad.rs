//! The header of a WAD, and the WAD itself: its levels, put together from
//! the lumps of the directory.

use crate::doom::constants::{HEADER_WIDTH, IWAD_NUMBER, PWAD_NUMBER};
use crate::doom::level::{decode_level, Level, LevelView};
use crate::doom::lump::{Lump, LumpView};
use crate::error::FormatError;
use crate::utils::{le_u32, u8_to_u32};
use std::ops::{Range, RangeFrom};
use vstd::prelude::*;

verus! {

/// Makes `std::ops::RangeFrom` known to the verifier as it is declared: a
/// range with the one field `start` and no end. Nothing more is claimed of it.
#[verifier::external_type_specification]
#[verifier::reject_recursive_types(Idx)]
pub struct ExRangeFrom<Idx>(RangeFrom<Idx>);

/// The first twelve bytes of a WAD: its type, the number of its lumps, and
/// where in the file its directory begins.
#[derive(Clone, Copy, Debug, PartialEq, Eq, Structural)]
pub struct WadHeader {
    pub wadtype: u32,
    pub numlumps: usize,
    pub lumpaddr: usize,
}

/// A WAD: its name, its header, its levels in the order of the directory,
/// whether its linedefs have the Hexen layout, and how many lumps of a level
/// not yet complete the directory ended on.
pub struct Wad {
    pub name: String,
    pub header: WadHeader,
    pub levels: Vec<Level>,
    pub is_hexen: bool,
    pub dropped: usize,
}

/// A WAD as a value.
pub struct WadView {
    pub name: Seq<char>,
    pub header: WadHeader,
    pub levels: Seq<LevelView>,
    pub is_hexen: bool,
    pub dropped: usize,
}

/// The levels as values.
pub open spec fn level_views(levels: Seq<Level>) -> Seq<LevelView> {
    Seq::new(levels.len(), |i: int| levels[i]@)
}

/// The lumps as values.
pub open spec fn lump_views(lumps: Seq<Lump>) -> Seq<LumpView> {
    Seq::new(lumps.len(), |i: int| lumps[i]@)
}

impl View for Wad {
    type V = WadView;

    open spec fn view(&self) -> WadView {
        WadView {
            name: self.name@,
            header: self.header,
            levels: level_views(self.levels@),
            is_hexen: self.is_hexen,
            dropped: self.dropped,
        }
    }
}

/// Whether a type tag is one of the two that a WAD can have.
pub open spec fn is_wad_type(wadtype: u32) -> bool {
    wadtype == IWAD_NUMBER || wadtype == PWAD_NUMBER
}

/// What the start of a file decodes to: an error where it is not twelve
/// bytes or its type tag is not that of a WAD, else the header with the type
/// in the first four bytes, the number of lumps in the next four and the
/// offset of the directory in the last four.
pub open spec fn decode_header(dat: Seq<u8>) -> Result<WadHeader, FormatError> {
    let wadtype = le_u32(dat[0], dat[1], dat[2], dat[3]) as u32;
    if dat.len() != HEADER_WIDTH {
        Err(FormatError::RecordWidth { expected: HEADER_WIDTH, actual: dat.len() as usize })
    } else if !is_wad_type(wadtype) {
        Err(FormatError::NotAWad { wadtype: wadtype })
    } else {
        Ok(
            WadHeader {
                wadtype: wadtype,
                numlumps: le_u32(dat[4], dat[5], dat[6], dat[7]) as usize,
                lumpaddr: le_u32(dat[8], dat[9], dat[10], dat[11]) as usize,
            },
        )
    }
}

impl WadHeader {
    /// Decodes the header, and rejects what is no WAD.
    pub fn new(dat: &[u8]) -> (r: Result<WadHeader, FormatError>)
        ensures
            r == decode_header(dat@),
    {
        if dat.len() != HEADER_WIDTH {
            return Err(FormatError::RecordWidth { expected: HEADER_WIDTH, actual: dat.len() });
        }
        let header = WadHeader {
            wadtype: u8_to_u32(dat[0], dat[1], dat[2], dat[3]),
            numlumps: u8_to_u32(dat[4], dat[5], dat[6], dat[7]) as usize,
            lumpaddr: u8_to_u32(dat[8], dat[9], dat[10], dat[11]) as usize,
        };
        if !header.is_wad() {
            return Err(FormatError::NotAWad { wadtype: header.wadtype });
        }
        Ok(header)
    }

    /// The part of the file that holds the data: from the end of the header
    /// to the start of the directory.
    pub open spec fn data_span(self) -> Range<usize> {
        Range { start: HEADER_WIDTH, end: self.lumpaddr }
    }

    /// The part of the file that holds the directory: from its start on.
    pub open spec fn lump_span(self) -> RangeFrom<usize> {
        RangeFrom { start: self.lumpaddr }
    }

    /// The range of the file in which the data lies.
    pub fn data_range(&self) -> (r: Range<usize>)
        ensures
            r == self.data_span(),
    {
        HEADER_WIDTH..self.lumpaddr
    }

    /// The range of the file in which the lumps lie.
    pub fn lump_range(&self) -> (r: RangeFrom<usize>)
        ensures
            r == self.lump_span(),
    {
        self.lumpaddr..
    }

    /// The name of the type: `IWAD`, `PWAD`, or `UNKN` for any other.
    pub open spec fn kind_text(self) -> Seq<char> {
        if self.wadtype == IWAD_NUMBER {
            "IWAD"@
        } else if self.wadtype == PWAD_NUMBER {
            "PWAD"@
        } else {
            "UNKN"@
        }
    }

    /// The name of the type of file that the header announces.
    pub fn kind_name(&self) -> (s: &'static str)
        ensures
            s@ == self.kind_text(),
    {
        match self.wadtype {
            IWAD_NUMBER => "IWAD",
            PWAD_NUMBER => "PWAD",
            _ => "UNKN",
        }
    }

    /// Whether the type tag is that of a WAD.
    pub fn is_wad(&self) -> (b: bool)
        ensures
            b == is_wad_type(self.wadtype),
    {
        self.wadtype == IWAD_NUMBER || self.wadtype == PWAD_NUMBER
    }
}

/// The data ends where the directory begins, at the offset that the header
/// names.
pub proof fn lemma_ranges_meet(header: WadHeader)
    ensures
        header.data_span().end == header.lump_span().start,
        header.lump_span().start == header.lumpaddr,
{
}

/// What the scan of the directory remembers: how many lumps of the level in
/// the making it has seen, and which lumps, by their place in the directory,
/// were the last level marker, the last vertex table and the last linedef
/// table.
#[derive(Clone, Copy, Debug, PartialEq, Eq, Structural)]
pub struct Scan {
    pub matched: usize,
    pub level: usize,
    pub verts: usize,
    pub lines: usize,
}

impl Scan {
    /// Before the first lump: nothing seen, and the first lump in every place.
    pub open spec fn start() -> Scan {
        Scan { matched: 0, level: 0, verts: 0, lines: 0 }
    }

    /// The state once the lump at place `i` is seen: a level marker, a vertex
    /// table and a linedef table each take their place and count; any other
    /// lump changes nothing.
    pub open spec fn see(self, lump: LumpView, i: usize) -> Scan {
        if lump.is_level {
            Scan { matched: (self.matched + 1) as usize, level: i, ..self }
        } else if lump.name == "VERTEXES"@ {
            Scan { matched: (self.matched + 1) as usize, verts: i, ..self }
        } else if lump.name == "LINEDEFS"@ {
            Scan { matched: (self.matched + 1) as usize, lines: i, ..self }
        } else {
            self
        }
    }

    /// Whether the three lumps of a level have been seen.
    pub open spec fn complete(self) -> bool {
        self.matched == 3
    }

    /// The state before the first lump.
    pub fn begin() -> (scan: Scan)
        ensures
            scan == Scan::start(),
    {
        Scan { matched: 0, level: 0, verts: 0, lines: 0 }
    }

    /// Takes the lump at place `i` of the directory into account.
    pub fn step(self, lump: &Lump, i: usize) -> (scan: Scan)
        requires
            self.matched < usize::MAX,
        ensures
            scan == self.see(lump@, i),
    {
        let mut scan = self;
        if lump.is_level {
            scan.level = i;
            scan.matched += 1;
        } else if lump.has_name("VERTEXES") {
            scan.verts = i;
            scan.matched += 1;
        } else if lump.has_name("LINEDEFS") {
            scan.lines = i;
            scan.matched += 1;
        }
        scan
    }

    /// Whether the three lumps of a level have been seen.
    pub fn is_complete(&self) -> (b: bool)
        ensures
            b == self.complete(),
    {
        self.matched == 3
    }

    /// The state in which the next lump is met: after a complete level the
    /// count starts again.
    pub open spec fn rest(self) -> Scan {
        if self.complete() {
            Scan { matched: 0, ..self }
        } else {
            self
        }
    }
}

/// The state of the scan when the lump at place `n` has been seen, the first
/// `n` lumps being done with.
pub open spec fn scan_at(lumps: Seq<LumpView>, n: nat) -> Scan {
    scan_after(lumps, n).see(lumps[n as int], n as usize)
}

/// The state of the scan when it is done with the first `n` lumps.
pub open spec fn scan_after(lumps: Seq<LumpView>, n: nat) -> Scan
    decreases n,
{
    if n == 0 {
        Scan::start()
    } else {
        scan_after(lumps, (n - 1) as nat).see(lumps[n - 1], (n - 1) as usize).rest()
    }
}

/// The data of a lump in the data pool, which begins right after the header;
/// an error where the lump does not lie in the pool.
pub open spec fn lump_data(dat: Seq<u8>, lump: LumpView) -> Result<Seq<u8>, FormatError> {
    if lump.posn >= HEADER_WIDTH && lump.posn - HEADER_WIDTH + lump.size <= dat.len() {
        Ok(dat.subrange(lump.posn - HEADER_WIDTH, lump.posn - HEADER_WIDTH + lump.size))
    } else {
        Err(FormatError::LumpOutside { posn: lump.posn, size: lump.size, pool: dat.len() as usize })
    }
}

/// The level that a complete scan stands for: named by its marker, decoded
/// from the data of its vertex table and of its linedef table. The vertex
/// table is looked at first.
pub open spec fn level_of(lumps: Seq<LumpView>, dat: Seq<u8>, is_hexen: bool, scan: Scan) -> Result<
    LevelView,
    FormatError,
> {
    match lump_data(dat, lumps[scan.verts as int]) {
        Err(e) => Err(e),
        Ok(vert_raw) => match lump_data(dat, lumps[scan.lines as int]) {
            Err(e) => Err(e),
            Ok(ld_raw) => decode_level(lumps[scan.level as int].name, vert_raw, ld_raw, is_hexen),
        },
    }
}

/// The levels that the first `n` lumps give, in the order in which they
/// become complete; the first error ends it.
pub open spec fn assemble(lumps: Seq<LumpView>, dat: Seq<u8>, is_hexen: bool, n: nat) -> Result<
    Seq<LevelView>,
    FormatError,
>
    decreases n,
{
    if n == 0 {
        Ok(Seq::empty())
    } else {
        match assemble(lumps, dat, is_hexen, (n - 1) as nat) {
            Err(e) => Err(e),
            Ok(levels) => {
                let scan = scan_at(lumps, (n - 1) as nat);
                if scan.complete() {
                    match level_of(lumps, dat, is_hexen, scan) {
                        Err(e) => Err(e),
                        Ok(level) => Ok(levels.push(level)),
                    }
                } else {
                    Ok(levels)
                }
            },
        }
    }
}

/// The WAD that a directory and a data pool give: an error where the
/// directory is empty or a level cannot be decoded, else the levels, and in
/// `dropped` the number of lumps that the scan was left holding.
pub open spec fn assemble_wad(
    name: Seq<char>,
    header: WadHeader,
    lumps: Seq<LumpView>,
    dat: Seq<u8>,
    is_hexen: bool,
) -> Result<WadView, FormatError> {
    if lumps.len() == 0 {
        Err(FormatError::NoLumps)
    } else {
        match assemble(lumps, dat, is_hexen, lumps.len()) {
            Err(e) => Err(e),
            Ok(levels) => Ok(
                WadView {
                    name: name,
                    header: header,
                    levels: levels,
                    is_hexen: is_hexen,
                    dropped: scan_after(lumps, lumps.len()).matched,
                },
            ),
        }
    }
}

/// Whether a lump is one that the scan counts: a level marker, a vertex
/// table or a linedef table.
pub open spec fn is_counted(lump: LumpView) -> bool {
    lump.is_level || lump.name == "VERTEXES"@ || lump.name == "LINEDEFS"@
}

/// How many of the first `n` lumps the scan counts.
pub open spec fn counted(lumps: Seq<LumpView>, n: nat) -> nat
    decreases n,
{
    if n == 0 {
        0
    } else if is_counted(lumps[n - 1]) {
        counted(lumps, (n - 1) as nat) + 1
    } else {
        counted(lumps, (n - 1) as nat)
    }
}

/// Every three counted lumps make a level: where no level fails to decode,
/// there are a third as many levels as counted lumps, and the scan is left
/// holding the remainder.
pub proof fn lemma_three_lumps_a_level(lumps: Seq<LumpView>, dat: Seq<u8>, is_hexen: bool, n: nat)
    ensures
        scan_after(lumps, n).matched == counted(lumps, n) % 3,
        assemble(lumps, dat, is_hexen, n) matches Ok(levels) ==> levels.len() == counted(lumps, n)
            / 3,
    decreases n,
{
    if n > 0 {
        lemma_three_lumps_a_level(lumps, dat, is_hexen, (n - 1) as nat);
    }
}

/// An error among the first `n` lumps is the error of the whole directory.
pub proof fn lemma_assemble_error_stays(
    lumps: Seq<LumpView>,
    dat: Seq<u8>,
    is_hexen: bool,
    n: nat,
    m: nat,
)
    requires
        n <= m,
        assemble(lumps, dat, is_hexen, n) is Err,
    ensures
        assemble(lumps, dat, is_hexen, m) == assemble(lumps, dat, is_hexen, n),
    decreases m,
{
    if n < m {
        lemma_assemble_error_stays(lumps, dat, is_hexen, n, (m - 1) as nat);
    }
}

/// The scan never holds more than two lumps between two lumps, and the
/// places it remembers are places of lumps it has seen.
pub proof fn lemma_scan_bounds(lumps: Seq<LumpView>, n: nat)
    ensures
        scan_after(lumps, n).matched < 3,
        scan_after(lumps, n).level <= n,
        scan_after(lumps, n).verts <= n,
        scan_after(lumps, n).lines <= n,
        n > 0 ==> scan_after(lumps, n).level < n && scan_after(lumps, n).verts < n && scan_after(
            lumps,
            n,
        ).lines < n,
    decreases n,
{
    if n > 0 {
        lemma_scan_bounds(lumps, (n - 1) as nat);
    }
}

impl Wad {
    /// Groups the lumps of a directory into levels and decodes them from the
    /// data pool.
    ///
    /// The lumps are taken in their order. A level marker, a vertex table
    /// (`VERTEXES`) and a linedef table (`LINEDEFS`) each take their place in
    /// the scan; as soon as three such lumps have been seen, the level of the
    /// three places is decoded and the count starts again. What the scan
    /// holds when the directory ends makes no level; `dropped` says how many
    /// lumps that were.
    pub fn new(n: &str, hd: WadHeader, lumps: &Vec<Lump>, dat: &[u8], is_h: bool) -> (r: Result<
        Wad,
        FormatError,
    >)
        ensures
            match r {
                Ok(wad) => assemble_wad(n@, hd, lump_views(lumps@), dat@, is_h) == Ok::<
                    WadView,
                    FormatError,
                >(wad@),
                Err(e) => assemble_wad(n@, hd, lump_views(lumps@), dat@, is_h) == Err::<
                    WadView,
                    FormatError,
                >(e),
            },
    {
        if lumps.len() == 0 {
            return Err(FormatError::NoLumps);
        }
        let mut levels: Vec<Level> = Vec::new();
        let mut scan = Scan::begin();
        let ghost views = lump_views(lumps@);
        assert(level_views(levels@) =~= Seq::<LevelView>::empty());

        let mut i: usize = 0;
        while i < lumps.len()
            invariant
                i <= lumps@.len(),
                lumps@.len() > 0,
                views == lump_views(lumps@),
                scan == scan_after(views, i as nat),
                assemble(views, dat@, is_h, i as nat) == Ok::<Seq<LevelView>, FormatError>(
                    level_views(levels@),
                ),
            decreases lumps@.len() - i,
        {
            proof {
                lemma_scan_bounds(views, i as nat);
            }
            scan = scan.step(&lumps[i], i);

            if scan.is_complete() {
                let marker = &lumps[scan.level];
                let verts = &lumps[scan.verts];
                let lines = &lumps[scan.lines];
                proof {
                    if level_of(views, dat@, is_h, scan) is Err {
                        lemma_assemble_error_stays(
                            views,
                            dat@,
                            is_h,
                            (i + 1) as nat,
                            lumps@.len(),
                        );
                    }
                }
                if !verts.lies_in(dat.len()) {
                    return Err(
                        FormatError::LumpOutside {
                            posn: verts.posn,
                            size: verts.size,
                            pool: dat.len(),
                        },
                    );
                }
                if !lines.lies_in(dat.len()) {
                    return Err(
                        FormatError::LumpOutside {
                            posn: lines.posn,
                            size: lines.size,
                            pool: dat.len(),
                        },
                    );
                }
                match Level::new(&marker.name, &dat[verts.range()], &dat[lines.range()], is_h) {
                    Ok(l) => {
                        proof {
                            let before = level_views(levels@);
                            let after = level_views(levels@.push(l));
                            assert(after =~= before.push(l@));
                        }
                        levels.push(l);
                    },
                    Err(e) => {
                        return Err(e);
                    },
                }
                scan.matched = 0;
            }
            i += 1;
        }

        Ok(
            Wad {
                name: String::from_str(n),
                header: hd,
                levels: levels,
                is_hexen: is_h,
                dropped: scan.matched,
            },
        )
    }
}

} // verus!
