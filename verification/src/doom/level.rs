//! Levels: a name, a table of vertices and a table of linedefs.

use crate::doom::constants::{DOOM_LINEDEF_WIDTH, HEXEN_LINEDEF_WIDTH, VERTEX_WIDTH};
use crate::doom::linedef::{linedef_width, LineDef};
use crate::doom::vertex::Vertex;
use crate::error::FormatError;
use crate::doom::table::{lemma_next_record, lemma_short_rest, record, table_error};
use crate::utils::packet_range;
use vstd::prelude::*;

verus! {

/// One level of a WAD.
///
/// Decoding does not look at the vertex indices of the linedefs: whether they
/// all lie in the vertex table is what `indices_valid` says.
pub struct Level {
    pub name: String,
    pub vertices: Vec<Vertex>,
    pub linedefs: Vec<LineDef>,
}

/// A level as a value: its name as characters and its two tables as
/// sequences.
pub struct LevelView {
    pub name: Seq<char>,
    pub vertices: Seq<Vertex>,
    pub linedefs: Seq<LineDef>,
}

impl View for Level {
    type V = LevelView;

    open spec fn view(&self) -> LevelView {
        LevelView { name: self.name@, vertices: self.vertices@, linedefs: self.linedefs@ }
    }
}

/// The vertices that a vertex table holds, in its order. Bytes after the last
/// whole record stand for nothing.
pub open spec fn decode_vertices(raw: Seq<u8>) -> Seq<Vertex> {
    Seq::new(
        (raw.len() / VERTEX_WIDTH as nat) as nat,
        |i: int| Vertex::decode(record(raw, VERTEX_WIDTH as int, i)),
    )
}

/// The linedefs that a linedef table of the given layout holds, in its order.
/// Bytes after the last whole record stand for nothing.
pub open spec fn decode_linedefs(is_hexen: bool, raw: Seq<u8>) -> Seq<LineDef> {
    Seq::new(
        (raw.len() / linedef_width(is_hexen) as nat) as nat,
        |i: int| LineDef::decode(is_hexen, record(raw, linedef_width(is_hexen) as int, i)),
    )
}

/// What is wrong with a linedef in a level of `count` vertices: its start
/// where that is no vertex of the level, else its end where that is none.
pub open spec fn linedef_index_error(l: LineDef, count: nat) -> Option<FormatError> {
    if l.start >= count {
        Some(FormatError::VertexIndex { index: l.start, count: count as usize })
    } else if l.end >= count {
        Some(FormatError::VertexIndex { index: l.end, count: count as usize })
    } else {
        None
    }
}

/// What is wrong with the first of the linedefs that has something wrong, in
/// a level of `count` vertices.
pub open spec fn first_index_error(linedefs: Seq<LineDef>, count: nat) -> Option<FormatError>
    decreases linedefs.len(),
{
    if linedefs.len() == 0 {
        None
    } else {
        match first_index_error(linedefs.drop_last(), count) {
            Some(e) => Some(e),
            None => linedef_index_error(linedefs.last(), count),
        }
    }
}

/// No linedef has anything wrong exactly where each begins and ends at one
/// of the `count` vertices.
pub proof fn lemma_no_index_error(linedefs: Seq<LineDef>, count: nat)
    ensures
        first_index_error(linedefs, count) is None <==> forall|i: int|
            0 <= i < linedefs.len() ==> (#[trigger] linedefs[i]).start < count && linedefs[i].end
                < count,
    decreases linedefs.len(),
{
    if linedefs.len() > 0 {
        let front = linedefs.drop_last();
        lemma_no_index_error(front, count);
        if first_index_error(linedefs, count) is None {
            assert forall|i: int| 0 <= i < linedefs.len() implies (#[trigger] linedefs[i]).start
                < count && linedefs[i].end < count by {
                if i < front.len() {
                    assert(front[i] == linedefs[i]);
                }
            }
        }
    }
}

/// What the two tables of a level decode to under a name: the error of the
/// vertex table where it has one, else that of the linedef table where it has
/// one, else the level with the records of both.
pub open spec fn decode_level(
    name: Seq<char>,
    vert_raw: Seq<u8>,
    ld_raw: Seq<u8>,
    is_hexen: bool,
) -> Result<LevelView, FormatError> {
    match table_error(vert_raw.len(), VERTEX_WIDTH) {
        Some(e) => Err(e),
        None => match table_error(ld_raw.len(), linedef_width(is_hexen)) {
            Some(e) => Err(e),
            None => Ok(
                LevelView {
                    name: name,
                    vertices: decode_vertices(vert_raw),
                    linedefs: decode_linedefs(is_hexen, ld_raw),
                },
            ),
        },
    }
}

/// A table holds as many records as its length divided by their width.
pub proof fn lemma_record_counts(vert_raw: Seq<u8>, ld_raw: Seq<u8>, is_hexen: bool)
    ensures
        decode_vertices(vert_raw).len() == vert_raw.len() / VERTEX_WIDTH as nat,
        decode_linedefs(is_hexen, ld_raw).len() == ld_raw.len() / linedef_width(is_hexen) as nat,
{
}

impl Level {

    /// Whether every linedef begins and ends at a vertex of the level.
    pub open spec fn indices_valid(self) -> bool {
        forall|i: int|
            0 <= i < self.linedefs@.len() ==> (#[trigger] self.linedefs@[i]).start
                < self.vertices@.len() && self.linedefs@[i].end < self.vertices@.len()
    }

    /// What is wrong with the vertex indices of the level's linedefs, if
    /// anything is: the first linedef with an index outside the vertex table
    /// decides, its start before its end.
    pub open spec fn index_error(self) -> Option<FormatError> {
        first_index_error(self.linedefs@, self.vertices@.len())
    }

    /// Looks for a linedef that begins or ends at no vertex of the level.
    pub fn find_index_error(&self) -> (e: Option<FormatError>)
        ensures
            e == self.index_error(),
            e is None <==> self.indices_valid(),
    {
        let count: usize = self.vertices.len();
        let mut i: usize = 0;
        while i < self.linedefs.len()
            invariant
                i <= self.linedefs@.len(),
                count == self.vertices@.len(),
                first_index_error(self.linedefs@.take(i as int), count as nat) is None,
            decreases self.linedefs@.len() - i,
        {
            let l = &self.linedefs[i];
            proof {
                let upto = self.linedefs@.take(i + 1);
                assert(upto.drop_last() =~= self.linedefs@.take(i as int));
                if linedef_index_error(*l, count as nat) is Some {
                    lemma_index_error_stays(self.linedefs@, count as nat, i + 1);
                }
            }
            if l.start >= count {
                return Some(FormatError::VertexIndex { index: l.start, count: count });
            }
            if l.end >= count {
                return Some(FormatError::VertexIndex { index: l.end, count: count });
            }
            i += 1;
        }
        proof {
            assert(self.linedefs@.take(i as int) =~= self.linedefs@);
            lemma_no_index_error(self.linedefs@, count as nat);
        }
        None
    }

    /// Decodes a level from its vertex table and its linedef table.
    ///
    /// A table whose length is no multiple of its record width is rejected,
    /// the vertex table first.
    pub fn new(name: &String, vert_raw: &[u8], ld_raw: &[u8], is_hexen: bool) -> (r: Result<
        Level,
        FormatError,
    >)
        ensures
            match r {
                Ok(level) => {
                    &&& decode_level(name@, vert_raw@, ld_raw@, is_hexen) == Ok::<
                        LevelView,
                        FormatError,
                    >(level@)
                    &&& level.vertices@.len() == vert_raw@.len() / VERTEX_WIDTH as nat
                    &&& level.linedefs@.len() == ld_raw@.len() / linedef_width(is_hexen) as nat
                },
                Err(e) => decode_level(name@, vert_raw@, ld_raw@, is_hexen) == Err::<
                    LevelView,
                    FormatError,
                >(e),
            },
    {
        let mut vertices: Vec<Vertex> = Vec::new();
        let mut linedefs: Vec<LineDef> = Vec::new();

        let ld_width: usize = if is_hexen {
            HEXEN_LINEDEF_WIDTH
        } else {
            DOOM_LINEDEF_WIDTH
        };

        let mut offset: usize = 0;
        while offset < vert_raw.len()
            invariant
                offset <= vert_raw@.len(),
                offset == vertices@.len() * VERTEX_WIDTH,
                forall|i: int|
                    0 <= i < vertices@.len() ==> vertices@[i] == Vertex::decode(
                        record(vert_raw@, VERTEX_WIDTH as int, i),
                    ),
            decreases vert_raw@.len() - offset,
        {
            let rest: usize = vert_raw.len() - offset;
            if rest < VERTEX_WIDTH {
                return Err(FormatError::RecordWidth { expected: VERTEX_WIDTH, actual: rest });
            }
            match Vertex::new(&vert_raw[packet_range(offset, VERTEX_WIDTH)]) {
                Ok(v) => {
                    vertices.push(v);
                },
                Err(e) => {
                    return Err(e);
                },
            }
            offset += VERTEX_WIDTH;
        }

        offset = 0;
        while offset < ld_raw.len()
            invariant
                ld_width == linedef_width(is_hexen),
                offset <= ld_raw@.len(),
                offset == linedefs@.len() * ld_width,
                vert_raw@.len() % VERTEX_WIDTH as nat == 0,
                forall|i: int|
                    0 <= i < linedefs@.len() ==> linedefs@[i] == LineDef::decode(
                        is_hexen,
                        record(ld_raw@, ld_width as int, i),
                    ),
            decreases ld_raw@.len() - offset,
        {
            let rest: usize = ld_raw.len() - offset;
            if rest < ld_width {
                proof {
                    lemma_short_rest(ld_raw@.len(), ld_width as nat, linedefs@.len());
                }
                return Err(FormatError::RecordWidth { expected: ld_width, actual: rest });
            }
            proof {
                lemma_next_record(ld_width as nat, linedefs@.len());
            }
            match LineDef::new(is_hexen, &ld_raw[packet_range(offset, ld_width)]) {
                Ok(l) => {
                    linedefs.push(l);
                },
                Err(e) => {
                    return Err(e);
                },
            }
            offset += ld_width;
        }
        proof {
            assert(vertices@ =~= decode_vertices(vert_raw@));
            assert(linedefs@ =~= decode_linedefs(is_hexen, ld_raw@));
        }

        Ok(Level { name: name.clone(), vertices: vertices, linedefs: linedefs })
    }
}

/// What is wrong with the first `n` linedefs is wrong with all of them.
proof fn lemma_index_error_stays(linedefs: Seq<LineDef>, count: nat, n: int)
    requires
        0 <= n <= linedefs.len(),
        first_index_error(linedefs.take(n), count) is Some,
    ensures
        first_index_error(linedefs, count) == first_index_error(linedefs.take(n), count),
    decreases linedefs.len() - n,
{
    if n < linedefs.len() {
        let more = linedefs.take(n + 1);
        assert(more.drop_last() =~= linedefs.take(n));
        lemma_index_error_stays(linedefs, count, n + 1);
    } else {
        assert(linedefs.take(n) =~= linedefs);
    }
}

} // verus!
