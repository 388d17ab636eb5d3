//! From a level to its drawing: bounds, frame, and one line per linedef.

use crate::doom::level::Level;
use crate::doom::linedef::LineDef;
use crate::doom::vertex::Vertex;
use crate::error::FormatError;
use crate::optparse::Options;
use crate::svg::{Color, SVGLine, SVGObject, SVGRect, SVG};
use vstd::prelude::*;

verus! {

/// The margin between the level and each edge of its view box.
pub const PADDING: u64 = 50;

/// The size in pixels of the longer side of a drawing.
pub const BASE_CANVAS_SIZE: u64 = 1024;

/// The stroke width of a line with a side missing.
pub const ONE_SIDED_STROKE: u64 = 7;

/// The stroke width of a line with both sides.
pub const TWO_SIDED_STROKE: u64 = 5;

/// The directory that receives the drawings of the WAD at `dname`.
pub fn dir_name(dname: &str) -> (s: String)
    ensures
        s@ == dname@ + ".maps"@,
{
    let mut s = String::from_str(dname);
    s.append(".maps");
    s
}

/// The file in `dir` that receives the drawing of the level `lname`.
pub fn make_path_str(dir: &str, lname: &str) -> (s: String)
    ensures
        s@ == dir@ + "/"@ + lname@ + ".svg"@,
{
    let mut s = String::from_str(dir);
    s.append("/");
    s.append(lname);
    s.append(".svg");
    s
}

/// The mirror image of `v` in the stretch from 0 to `m`; with `m` zero there
/// is nothing to mirror in, and `v` stays.
pub open spec fn flip(v: int, m: int) -> int {
    if m == 0 {
        v
    } else {
        m - v
    }
}

/// Mirrors `v` in the stretch from 0 to `m`, that is about `m / 2`.
pub fn flatten(v: u64, m: u64) -> (d: u64)
    requires
        m == 0 || v <= m,
    ensures
        d == flip(v as int, m as int),
{
    if m == 0 {
        return v;
    }
    let d: u64 = m - v;
    return d;
}

/// Mirroring twice in the same stretch gives the value back.
pub proof fn lemma_flip_twice(v: int, m: int)
    ensures
        flip(flip(v, m), m) == v,
{
}

/// A value inside the stretch stays inside it when mirrored.
pub proof fn lemma_flip_stays_inside(v: int, m: int)
    requires
        0 <= v <= m,
    ensures
        0 <= flip(v, m) <= m,
{
}

/// The color of a line: that of its key where doors are colored and the line
/// is a keycard door, else black for a line with a side missing and grey for
/// one with both.
pub open spec fn color_of(line: LineDef, color_doors: bool) -> Color {
    let t = line.special();
    if color_doors && (t == 28 || t == 33) {
        Color::Red
    } else if color_doors && (t == 26 || t == 32) {
        Color::Blue
    } else if color_doors && (t == 27 || t == 34) {
        Color::Yellow
    } else if line.one_sided() {
        Color::Black
    } else {
        Color::Grey
    }
}

/// The color in which a line is drawn.
pub fn line_color(line: &LineDef, color_doors: bool) -> (c: Color)
    ensures
        c == color_of(*line, color_doors),
{
    if !color_doors {
        return match line.is_one_sided() {
            true => Color::Black,
            _ => Color::Grey,
        };
    }
    match line.special_type() {
        28 => Color::Red,
        33 => Color::Red,
        26 => Color::Blue,
        32 => Color::Blue,
        27 => Color::Yellow,
        34 => Color::Yellow,
        _ => match line.is_one_sided() {
            true => Color::Black,
            _ => Color::Grey,
        },
    }
}

/// The smallest upright rectangle that holds a set of vertices.
#[derive(Clone, Copy, Debug, PartialEq, Eq, Structural)]
pub struct BoundingBox {
    pub min_x: i16,
    pub min_y: i16,
    pub max_x: i16,
    pub max_y: i16,
}

impl BoundingBox {
    /// The box that holds `v` alone.
    pub open spec fn of(v: Vertex) -> BoundingBox {
        BoundingBox { min_x: v.x, min_y: v.y, max_x: v.x, max_y: v.y }
    }

    /// The box grown just enough to hold `v` too.
    pub open spec fn with(self, v: Vertex) -> BoundingBox {
        BoundingBox {
            min_x: if v.x < self.min_x {
                v.x
            } else {
                self.min_x
            },
            min_y: if v.y < self.min_y {
                v.y
            } else {
                self.min_y
            },
            max_x: if v.x > self.max_x {
                v.x
            } else {
                self.max_x
            },
            max_y: if v.y > self.max_y {
                v.y
            } else {
                self.max_y
            },
        }
    }

    /// Whether `v` lies in the box.
    pub open spec fn holds(self, v: Vertex) -> bool {
        self.min_x <= v.x <= self.max_x && self.min_y <= v.y <= self.max_y
    }
}

/// The bounding box of the vertices: none where there is no vertex, else the
/// box of the first grown by each of the others in turn.
pub open spec fn bounds_of(vs: Seq<Vertex>) -> Option<BoundingBox>
    decreases vs.len(),
{
    if vs.len() == 0 {
        None
    } else {
        match bounds_of(vs.drop_last()) {
            None => Some(BoundingBox::of(vs.last())),
            Some(b) => Some(b.with(vs.last())),
        }
    }
}

/// The bounding box holds every vertex it was made of.
pub proof fn lemma_bounds_hold(vs: Seq<Vertex>, i: int)
    requires
        0 <= i < vs.len(),
    ensures
        bounds_of(vs) is Some,
        bounds_of(vs)->Some_0.holds(vs[i]),
    decreases vs.len(),
{
    if vs.len() > 1 {
        lemma_bounds_hold(vs.drop_last(), if i < vs.len() - 1 { i } else { 0 });
    }
}

/// Each side of the bounding box passes through a vertex: the box is tight.
pub proof fn lemma_bounds_tight(vs: Seq<Vertex>)
    requires
        vs.len() > 0,
    ensures
        bounds_of(vs) is Some,
        exists|i: int| 0 <= i < vs.len() && vs[i].x == bounds_of(vs)->Some_0.min_x,
        exists|i: int| 0 <= i < vs.len() && vs[i].x == bounds_of(vs)->Some_0.max_x,
        exists|i: int| 0 <= i < vs.len() && vs[i].y == bounds_of(vs)->Some_0.min_y,
        exists|i: int| 0 <= i < vs.len() && vs[i].y == bounds_of(vs)->Some_0.max_y,
    decreases vs.len(),
{
    let last = vs.len() - 1;
    if vs.len() == 1 {
        assert(vs[0] == vs.last());
    } else {
        let front = vs.drop_last();
        lemma_bounds_tight(front);
        let fb = bounds_of(front)->Some_0;
        let b = bounds_of(vs)->Some_0;
        let i0 = choose|i: int| 0 <= i < front.len() && front[i].x == fb.min_x;
        let i1 = choose|i: int| 0 <= i < front.len() && front[i].x == fb.max_x;
        let i2 = choose|i: int| 0 <= i < front.len() && front[i].y == fb.min_y;
        let i3 = choose|i: int| 0 <= i < front.len() && front[i].y == fb.max_y;
        assert(vs[if vs[last].x < fb.min_x { last } else { i0 }].x == b.min_x);
        assert(vs[if vs[last].x > fb.max_x { last } else { i1 }].x == b.max_x);
        assert(vs[if vs[last].y < fb.min_y { last } else { i2 }].y == b.min_y);
        assert(vs[if vs[last].y > fb.max_y { last } else { i3 }].y == b.max_y);
    }
}

/// Finds the bounding box of the vertices, starting from the first of them.
pub fn bounding_box(vertices: &Vec<Vertex>) -> (b: Option<BoundingBox>)
    ensures
        b == bounds_of(vertices@),
{
    if vertices.len() == 0 {
        return None;
    }
    let first = vertices[0];
    let mut b = BoundingBox { min_x: first.x, min_y: first.y, max_x: first.x, max_y: first.y };
    proof {
        let one = vertices@.take(1);
        assert(bounds_of(one.drop_last()) is None);
    }
    let mut i: usize = 1;
    while i < vertices.len()
        invariant
            1 <= i <= vertices@.len(),
            bounds_of(vertices@.take(i as int)) == Some(b),
        decreases vertices@.len() - i,
    {
        let v = vertices[i];
        assert(vertices@.take(i + 1).drop_last() =~= vertices@.take(i as int));
        if v.x < b.min_x {
            b.min_x = v.x;
        }
        if v.x > b.max_x {
            b.max_x = v.x;
        }
        if v.y < b.min_y {
            b.min_y = v.y;
        }
        if v.y > b.max_y {
            b.max_y = v.y;
        }
        i += 1;
    }
    assert(vertices@.take(i as int) =~= vertices@);
    Some(b)
}

/// How a level is laid out on its drawing.
///
/// `shift_x` and `shift_y` move the level's lowest corner to the origin;
/// `span_x` and `span_y` are its extent; the view box is the extent with the
/// padding on every side; `width` and `height` are the size in pixels.
#[derive(Clone, Copy, Debug, PartialEq, Eq, Structural)]
pub struct Frame {
    pub shift_x: i32,
    pub shift_y: i32,
    pub span_x: u64,
    pub span_y: u64,
    pub view_width: u64,
    pub view_height: u64,
    pub width: u64,
    pub height: u64,
}

/// The size in pixels of a side of `side` units, on a drawing whose longer
/// side has `longer` units: the base size scaled by their ratio, rounded down.
pub open spec fn scaled(side: int, longer: int) -> int {
    side * BASE_CANVAS_SIZE as int / longer
}

/// The layout of a level with the given bounding box; a level without
/// vertices is laid out like a single vertex at the origin.
pub open spec fn frame_of_box(bounds: Option<BoundingBox>) -> Frame {
    let b = match bounds {
        Some(b) => b,
        None => BoundingBox { min_x: 0, min_y: 0, max_x: 0, max_y: 0 },
    };
    let span_x = b.max_x - b.min_x;
    let span_y = b.max_y - b.min_y;
    let view_width = span_x + 2 * PADDING;
    let view_height = span_y + 2 * PADDING;
    let longer = if view_width > view_height {
        view_width
    } else {
        view_height
    };
    Frame {
        shift_x: (0 - b.min_x) as i32,
        shift_y: (0 - b.min_y) as i32,
        span_x: span_x as u64,
        span_y: span_y as u64,
        view_width: view_width as u64,
        view_height: view_height as u64,
        width: scaled(view_width, longer) as u64,
        height: scaled(view_height, longer) as u64,
    }
}

/// The layout of a level with the given vertices.
pub open spec fn frame_of(vs: Seq<Vertex>) -> Frame {
    frame_of_box(bounds_of(vs))
}

/// Lays a level out: finds its bounds, the shift to the origin, the view box
/// with its padding, and a size in pixels of the same proportions.
pub fn normalize(vertices: &Vec<Vertex>) -> (f: Frame)
    ensures
        f == frame_of(vertices@),
{
    let b = match bounding_box(vertices) {
        Some(b) => b,
        None => BoundingBox { min_x: 0, min_y: 0, max_x: 0, max_y: 0 },
    };
    let shift_x: i32 = 0 - b.min_x as i32;
    let shift_y: i32 = 0 - b.min_y as i32;

    let mx: i32 = (b.max_x as i32) + shift_x;
    let my: i32 = (b.max_y as i32) + shift_y;

    let vx: u64 = mx as u64 + 2 * PADDING;
    let vy: u64 = my as u64 + 2 * PADDING;

    let longer: u64 = if vx > vy {
        vx
    } else {
        vy
    };
    let cx: u64 = vx * BASE_CANVAS_SIZE / longer;
    let cy: u64 = vy * BASE_CANVAS_SIZE / longer;
    Frame {
        shift_x: shift_x,
        shift_y: shift_y,
        span_x: mx as u64,
        span_y: my as u64,
        view_width: vx,
        view_height: vy,
        width: cx,
        height: cy,
    }
}

/// The longer side of a drawing has the base size in pixels, and the other
/// side no more.
pub proof fn lemma_frame_fits(vs: Seq<Vertex>)
    ensures
        0 < frame_of(vs).width <= BASE_CANVAS_SIZE,
        0 < frame_of(vs).height <= BASE_CANVAS_SIZE,
        frame_of(vs).view_width >= frame_of(vs).view_height ==> frame_of(vs).width
            == BASE_CANVAS_SIZE,
        frame_of(vs).view_height >= frame_of(vs).view_width ==> frame_of(vs).height
            == BASE_CANVAS_SIZE,
{
    let f = frame_of(vs);
    let longer: int = if f.view_width > f.view_height {
        f.view_width as int
    } else {
        f.view_height as int
    };
    lemma_scaled_fits(f.view_width as int, longer);
    lemma_scaled_fits(f.view_height as int, longer);
    assert(f.view_width * 1024 / longer >= 1 && f.view_height * 1024 / longer >= 1)
        by (nonlinear_arith)
        requires
            100 <= f.view_width <= longer,
            100 <= f.view_height <= longer,
            longer <= 65635,
    ;
}

/// The drawing has the proportions of its view box, as nearly as whole
/// pixels allow: multiplied crosswise, the two sizes differ by less than the
/// longer side of the view box.
pub proof fn lemma_proportions_kept(vs: Seq<Vertex>)
    ensures
        ({
            let f = frame_of(vs);
            let longer = if f.view_width > f.view_height {
                f.view_width
            } else {
                f.view_height
            };
            -longer < f.width * f.view_height - f.height * f.view_width < longer
        }),
{
    let f = frame_of(vs);
    let vw = f.view_width as int;
    let vh = f.view_height as int;
    let longer: int = if vw > vh {
        vw
    } else {
        vh
    };
    let w = vw * 1024 / longer;
    let h = vh * 1024 / longer;
    let rw = vw * 1024 % longer;
    let rh = vh * 1024 % longer;
    vstd::arithmetic::div_mod::lemma_fundamental_div_mod(vw * 1024, longer);
    vstd::arithmetic::div_mod::lemma_fundamental_div_mod(vh * 1024, longer);
    lemma_cross_products(vw, vh, longer, w, h, rw, rh);
}

/// Two sides scaled by the same ratio and rounded down keep their
/// proportion up to the rounding.
proof fn lemma_cross_products(vw: int, vh: int, longer: int, w: int, h: int, rw: int, rh: int)
    requires
        0 < vw <= longer,
        0 < vh <= longer,
        vw * 1024 == longer * w + rw,
        vh * 1024 == longer * h + rh,
        0 <= rw < longer,
        0 <= rh < longer,
    ensures
        -longer < w * vh - h * vw < longer,
{
    let d = w * vh - h * vw;
    assert(longer * d == rh * vw - rw * vh) by (nonlinear_arith)
        requires
            d == w * vh - h * vw,
            vw * 1024 == longer * w + rw,
            vh * 1024 == longer * h + rh,
    ;
    assert(rh * vw < longer * longer && rw * vh < longer * longer && rh * vw >= 0 && rw * vh >= 0)
        by (nonlinear_arith)
        requires
            0 < vw <= longer,
            0 < vh <= longer,
            0 <= rw < longer,
            0 <= rh < longer,
    ;
    assert(-longer < d < longer) by (nonlinear_arith)
        requires
            -(longer * longer) < longer * d < longer * longer,
            longer > 0,
    ;
}

/// Where on the drawing a point with the level coordinate `x` comes to lie,
/// from the left.
pub open spec fn place_x(f: Frame, x: i16) -> int {
    PADDING + (x + f.shift_x)
}

/// Where on the drawing a point with the level coordinate `y` comes to lie,
/// from the top: levels count upwards and drawings downwards, so the shifted
/// coordinate is mirrored in the level's extent.
pub open spec fn place_y(f: Frame, y: i16) -> int {
    PADDING + flip(y + f.shift_y, f.span_y as int)
}

/// Every vertex of a level comes to lie in the view box, no nearer to any
/// edge than the padding.
pub proof fn lemma_placed_inside(vs: Seq<Vertex>, i: int)
    requires
        0 <= i < vs.len(),
    ensures
        PADDING <= place_x(frame_of(vs), vs[i].x) <= frame_of(vs).view_width - PADDING,
        PADDING <= place_y(frame_of(vs), vs[i].y) <= frame_of(vs).view_height - PADDING,
{
    lemma_bounds_hold(vs, i);
}

/// The stroke width of a line: lines with a side missing are drawn thicker.
pub open spec fn stroke_of(line: LineDef) -> u64 {
    if line.one_sided() {
        ONE_SIDED_STROKE
    } else {
        TWO_SIDED_STROKE
    }
}

/// The line that a linedef between two of the vertices is drawn as.
pub open spec fn line_of(f: Frame, vs: Seq<Vertex>, line: LineDef, color_doors: bool) -> SVGLine {
    let a = vs[line.start as int];
    let b = vs[line.end as int];
    SVGLine {
        x1: place_x(f, a.x) as u64,
        y1: place_y(f, a.y) as u64,
        x2: place_x(f, b.x) as u64,
        y2: place_y(f, b.y) as u64,
        stroke: stroke_of(line),
        color: color_of(line, color_doors),
    }
}

/// What lies behind the lines: a white rectangle over the whole view box,
/// or nothing where the drawing is to be transparent.
pub open spec fn background(f: Frame, transparent: bool) -> Seq<SVGObject> {
    if transparent {
        Seq::empty()
    } else {
        seq![
            SVGObject::Rect(
                SVGRect { x: 0, y: 0, w: f.view_width, h: f.view_height, fill: Color::White },
            ),
        ]
    }
}

/// The lines of the first `n` linedefs of a level, in their order.
pub open spec fn lines_of(
    f: Frame,
    vs: Seq<Vertex>,
    linedefs: Seq<LineDef>,
    color_doors: bool,
    n: nat,
) -> Seq<SVGObject> {
    Seq::new(n, |i: int| SVGObject::Line(line_of(f, vs, linedefs[i], color_doors)))
}

/// The shapes of a level's drawing: the background, then one line for each
/// linedef, in the linedefs' order.
pub open spec fn shapes_of(lev: Level, opts: Options) -> Seq<SVGObject> {
    let f = frame_of(lev.vertices@);
    background(f, opts.transparent) + lines_of(
        f,
        lev.vertices@,
        lev.linedefs@,
        opts.color_doors,
        lev.linedefs@.len(),
    )
}

/// Whether `svg` is the drawing of the level under the options: its sizes
/// are those of the level's frame, and its shapes are the level's shapes.
pub open spec fn is_drawing_of(svg: SVG, lev: Level, opts: Options) -> bool {
    let f = frame_of(lev.vertices@);
    &&& svg.width == f.width
    &&& svg.height == f.height
    &&& svg.view_width == f.view_width
    &&& svg.view_height == f.view_height
    &&& svg.objects@ == shapes_of(lev, opts)
}

/// Draws a level: a drawing of the size of the level's frame, with the
/// background unless the options ask for none, and one line per linedef.
///
/// A level in which a linedef names a vertex that the level does not have
/// cannot be drawn, and is rejected with what `find_index_error` finds.
pub fn level_to_svg(lev: &Level, opts: &Options) -> (r: Result<SVG, FormatError>)
    ensures
        match r {
            Ok(svg) => lev.index_error() is None && is_drawing_of(svg, *lev, *opts),
            Err(e) => lev.index_error() == Some(e),
        },
{
    match lev.find_index_error() {
        Some(e) => {
            return Err(e);
        },
        None => {},
    }
    let f = normalize(&lev.vertices);
    let padding: u64 = PADDING;

    let mut buf = SVG::new(f.width, f.height, f.view_width, f.view_height);

    // a white background over the whole view box, unless none is wanted
    if !opts.transparent {
        buf.add_object(
            SVGObject::Rect(SVGRect::new(0, 0, f.view_width, f.view_height, Color::White)),
        );
    }

    let mut i: usize = 0;
    while i < lev.linedefs.len()
        invariant
            i <= lev.linedefs@.len(),
            lev.indices_valid(),
            f == frame_of(lev.vertices@),
            padding == PADDING,
            buf.width == f.width,
            buf.height == f.height,
            buf.view_width == f.view_width,
            buf.view_height == f.view_height,
            buf.objects@ == background(f, opts.transparent) + lines_of(
                f,
                lev.vertices@,
                lev.linedefs@,
                opts.color_doors,
                i as nat,
            ),
        decreases lev.linedefs@.len() - i,
    {
        let linedef = &lev.linedefs[i];
        let a = &lev.vertices[linedef.start];
        let b = &lev.vertices[linedef.end];
        proof {
            lemma_bounds_hold(lev.vertices@, linedef.start as int);
            lemma_bounds_hold(lev.vertices@, linedef.end as int);
        }

        let ax: u64 = ((a.x as i32) + f.shift_x) as u64;
        let ay: u64 = ((a.y as i32) + f.shift_y) as u64;
        let bx: u64 = ((b.x as i32) + f.shift_x) as u64;
        let by: u64 = ((b.y as i32) + f.shift_y) as u64;

        let line = SVGLine::new(
            padding + flatten(ax, 0),
            padding + flatten(ay, f.span_y),
            padding + flatten(bx, 0),
            padding + flatten(by, f.span_y),
            // a line with a side missing is a wall: thicker
            match linedef.is_one_sided() {
                true => ONE_SIDED_STROKE,
                _ => TWO_SIDED_STROKE,
            },
            line_color(linedef, opts.color_doors),
        );
        buf.add_object(SVGObject::Line(line));
        assert(buf.objects@ =~= background(f, opts.transparent) + lines_of(
            f,
            lev.vertices@,
            lev.linedefs@,
            opts.color_doors,
            (i + 1) as nat,
        ));
        i += 1;
    }
    return Ok(buf);
}

/// Two drawings of one level have the same view box and the same size in
/// pixels, whatever the options were: laying a level out again changes
/// nothing.
pub proof fn lemma_drawing_sizes_repeat(
    lev: Level,
    first: SVG,
    again: SVG,
    o1: Options,
    o2: Options,
)
    requires
        is_drawing_of(first, lev, o1),
        is_drawing_of(again, lev, o2),
    ensures
        first.width == again.width,
        first.height == again.height,
        first.view_width == again.view_width,
        first.view_height == again.view_height,
{
}

/// No side is longer in pixels than the base size.
pub proof fn lemma_scaled_fits(side: int, longer: int)
    requires
        0 <= side <= longer,
        0 < longer,
    ensures
        0 <= scaled(side, longer) <= BASE_CANVAS_SIZE,
        side == longer ==> scaled(side, longer) == BASE_CANVAS_SIZE,
{
    assert(0 <= side * 1024 / longer <= 1024 && (side == longer ==> side * 1024 / longer == 1024))
        by (nonlinear_arith)
        requires
            0 <= side <= longer,
            0 < longer,
    ;
}

} // verus!
