//! A vector drawing: shapes in the order they were added, and their text.

use crate::text::{decimal, decimal_string};
use vstd::prelude::*;

verus! {

/// The colors a shape can have.
#[derive(Clone, Copy, Debug, PartialEq, Eq, Structural)]
pub enum Color {
    Red,
    Blue,
    Green,
    Yellow,
    Black,
    White,
    Grey,
    NoPaint,
}

/// The name of a color in a drawing.
pub open spec fn color_name(c: Color) -> Seq<char> {
    match c {
        Color::Red => "red"@,
        Color::NoPaint => "none"@,
        Color::Blue => "blue"@,
        Color::Grey => "grey"@,
        Color::Green => "green"@,
        Color::Black => "black"@,
        Color::White => "white"@,
        Color::Yellow => "yellow"@,
    }
}

/// The name of a color in a drawing.
pub fn color_to_string(c: &Color) -> (s: String)
    ensures
        s@ == color_name(*c),
{
    match *c {
        Color::Red => "red".to_owned(),
        Color::NoPaint => "none".to_owned(),
        Color::Blue => "blue".to_owned(),
        Color::Grey => "grey".to_owned(),
        Color::Green => "green".to_owned(),
        Color::Black => "black".to_owned(),
        Color::White => "white".to_owned(),
        Color::Yellow => "yellow".to_owned(),
    }
}

/// A straight line between two points.
#[derive(Clone, Copy, Debug, PartialEq, Eq, Structural)]
pub struct SVGLine {
    pub x1: u64,
    pub y1: u64,
    pub x2: u64,
    pub y2: u64,
    pub stroke: u64,
    pub color: Color,
}

/// A filled rectangle.
#[derive(Clone, Copy, Debug, PartialEq, Eq, Structural)]
pub struct SVGRect {
    pub x: u64,
    pub y: u64,
    pub w: u64,
    pub h: u64,
    pub fill: Color,
}

/// A circle without fill.
#[derive(Clone, Copy, Debug, PartialEq, Eq, Structural)]
pub struct SVGCircle {
    pub cx: u64,
    pub cy: u64,
    pub radius: u64,
}

/// A corner of a polyline.
#[derive(Clone, Copy, Debug, PartialEq, Eq, Structural)]
pub struct SVGVertex {
    pub x: u64,
    pub y: u64,
}

/// A polyline: corners in order, a stroke width and a color.
#[derive(Clone, Debug, PartialEq, Eq)]
pub struct SVGPoly {
    pub color: Color,
    pub stroke: u64,
    pub vertices: Vec<SVGVertex>,
}

/// A shape of a drawing.
#[derive(Clone, Debug, PartialEq, Eq)]
pub enum SVGObject {
    Line(SVGLine),
    Rect(SVGRect),
    Circle(SVGCircle),
    Poly(SVGPoly),
}

/// A drawing: its size in pixels, the size of its view box, and its shapes.
#[derive(Clone, Debug, PartialEq, Eq)]
pub struct SVG {
    pub width: u64,
    pub height: u64,
    pub view_width: u64,
    pub view_height: u64,
    pub objects: Vec<SVGObject>,
}

impl SVGLine {
    pub fn new(x1: u64, y1: u64, x2: u64, y2: u64, w: u64, color: Color) -> (l: SVGLine)
        ensures
            l == (SVGLine { x1: x1, y1: y1, x2: x2, y2: y2, stroke: w, color: color }),
    {
        SVGLine { x1: x1, y1: y1, x2: x2, y2: y2, stroke: w, color: color }
    }

    /// The element that draws the line.
    pub open spec fn text(self) -> Seq<char> {
        "<line x1=\""@ + decimal(self.x1 as nat) + "\" y1=\""@ + decimal(self.y1 as nat)
            + "\" x2=\""@ + decimal(self.x2 as nat) + "\" y2=\""@ + decimal(self.y2 as nat)
            + "\" stroke=\""@ + color_name(self.color) + "\" stroke-width=\""@ + decimal(
            self.stroke as nat,
        ) + "\" />"@
    }

    /// The element that draws the line.
    pub fn to_string(&self) -> (s: String)
        ensures
            s@ == self.text(),
    {
        let mut s = String::from_str("<line x1=\"");
        s.append(decimal_string(self.x1).as_str());
        s.append("\" y1=\"");
        s.append(decimal_string(self.y1).as_str());
        s.append("\" x2=\"");
        s.append(decimal_string(self.x2).as_str());
        s.append("\" y2=\"");
        s.append(decimal_string(self.y2).as_str());
        s.append("\" stroke=\"");
        s.append(color_to_string(&self.color).as_str());
        s.append("\" stroke-width=\"");
        s.append(decimal_string(self.stroke).as_str());
        s.append("\" />");
        s
    }
}

impl SVGRect {
    pub fn new(x: u64, y: u64, w: u64, h: u64, fill: Color) -> (r: SVGRect)
        ensures
            r == (SVGRect { x: x, y: y, w: w, h: h, fill: fill }),
    {
        SVGRect { x: x, y: y, w: w, h: h, fill: fill }
    }

    /// The element that draws the rectangle.
    pub open spec fn text(self) -> Seq<char> {
        "<rect x=\""@ + decimal(self.x as nat) + "\" y=\""@ + decimal(self.y as nat)
            + "\" width=\""@ + decimal(self.w as nat) + "\" height=\""@ + decimal(self.h as nat)
            + "\" fill=\""@ + color_name(self.fill) + "\" />"@
    }

    /// The element that draws the rectangle.
    pub fn to_string(&self) -> (s: String)
        ensures
            s@ == self.text(),
    {
        let mut s = String::from_str("<rect x=\"");
        s.append(decimal_string(self.x).as_str());
        s.append("\" y=\"");
        s.append(decimal_string(self.y).as_str());
        s.append("\" width=\"");
        s.append(decimal_string(self.w).as_str());
        s.append("\" height=\"");
        s.append(decimal_string(self.h).as_str());
        s.append("\" fill=\"");
        s.append(color_to_string(&self.fill).as_str());
        s.append("\" />");
        s
    }
}

impl SVGCircle {
    pub fn new(cx: u64, cy: u64, r: u64) -> (c: SVGCircle)
        ensures
            c == (SVGCircle { cx: cx, cy: cy, radius: r }),
    {
        SVGCircle { cx: cx, cy: cy, radius: r }
    }

    /// The element that draws the circle.
    pub open spec fn text(self) -> Seq<char> {
        "<circle cx=\""@ + decimal(self.cx as nat) + "\" cy=\""@ + decimal(self.cy as nat)
            + "\" r=\""@ + decimal(self.radius as nat) + "\" fill=\""@ + "none"@ + "\" />"@
    }

    /// The element that draws the circle.
    pub fn to_string(&self) -> (s: String)
        ensures
            s@ == self.text(),
    {
        let mut s = String::from_str("<circle cx=\"");
        s.append(decimal_string(self.cx).as_str());
        s.append("\" cy=\"");
        s.append(decimal_string(self.cy).as_str());
        s.append("\" r=\"");
        s.append(decimal_string(self.radius).as_str());
        s.append("\" fill=\"");
        s.append("none");
        s.append("\" />");
        s
    }
}

impl SVGVertex {
    pub fn new(x: u64, y: u64) -> (v: SVGVertex)
        ensures
            v == (SVGVertex { x: x, y: y }),
    {
        SVGVertex { x: x, y: y }
    }

    /// The two coordinates with a comma between them.
    pub open spec fn text(self) -> Seq<char> {
        decimal(self.x as nat) + ","@ + decimal(self.y as nat)
    }

    /// The two coordinates with a comma between them.
    pub fn to_string(&self) -> (s: String)
        ensures
            s@ == self.text(),
    {
        let mut s = decimal_string(self.x);
        s.append(",");
        s.append(decimal_string(self.y).as_str());
        s
    }
}

impl SVGPoly {
    /// A polyline without corners.
    pub fn new(c: Color, stroke: u64) -> (p: SVGPoly)
        ensures
            p.color == c,
            p.stroke == stroke,
            p.vertices@ == Seq::<SVGVertex>::empty(),
    {
        let v: Vec<SVGVertex> = Vec::new();
        SVGPoly { color: c, stroke: stroke, vertices: v }
    }

    /// Adds a corner after those the polyline has.
    pub fn addv(&mut self, x: u64, y: u64)
        ensures
            final(self).vertices@ == old(self).vertices@.push(SVGVertex { x: x, y: y }),
            final(self).color == old(self).color,
            final(self).stroke == old(self).stroke,
    {
        self.vertices.push(SVGVertex::new(x, y));
    }

    /// What stands in a drawing for a polyline: polylines are not drawn.
    pub open spec fn text(self) -> Seq<char> {
        "not implemented"@
    }

    /// What stands in a drawing for a polyline.
    pub fn to_string(&self) -> (s: String)
        ensures
            s@ == self.text(),
    {
        String::from_str("not implemented")
    }
}

impl SVGObject {
    /// The element that draws the shape.
    pub open spec fn text(self) -> Seq<char> {
        match self {
            SVGObject::Line(l) => l.text(),
            SVGObject::Rect(r) => r.text(),
            SVGObject::Circle(c) => c.text(),
            SVGObject::Poly(p) => p.text(),
        }
    }

    /// The element that draws the shape.
    pub fn to_string(&self) -> (s: String)
        ensures
            s@ == self.text(),
    {
        match self {
            SVGObject::Line(l) => l.to_string(),
            SVGObject::Rect(r) => r.to_string(),
            SVGObject::Circle(c) => c.to_string(),
            SVGObject::Poly(p) => p.to_string(),
        }
    }
}

/// The elements of the shapes, one after the other in the shapes' order.
pub open spec fn objects_text(objects: Seq<SVGObject>) -> Seq<char>
    decreases objects.len(),
{
    if objects.len() == 0 {
        Seq::empty()
    } else {
        objects_text(objects.drop_last()) + objects.last().text()
    }
}

impl SVG {
    /// An empty drawing of `w` by `h` pixels whose view box is `vx` by `vy`.
    pub fn new(w: u64, h: u64, vx: u64, vy: u64) -> (svg: SVG)
        ensures
            svg.width == w,
            svg.height == h,
            svg.view_width == vx,
            svg.view_height == vy,
            svg.objects@ == Seq::<SVGObject>::empty(),
    {
        SVG { width: w, height: h, view_width: vx, view_height: vy, objects: Vec::new() }
    }

    /// Adds a shape after those the drawing holds, and returns how many it
    /// holds then.
    pub fn add_object(&mut self, sobj: SVGObject) -> (n: usize)
        ensures
            final(self).objects@ == old(self).objects@.push(sobj),
            final(self).width == old(self).width,
            final(self).height == old(self).height,
            final(self).view_width == old(self).view_width,
            final(self).view_height == old(self).view_height,
            n == old(self).objects@.len() + 1,
    {
        self.objects.push(sobj);
        self.objects.len()
    }

    /// The opening tag: the size in pixels, and a view box from the origin.
    pub open spec fn head_text(self) -> Seq<char> {
        "<svg width=\""@ + decimal(self.width as nat) + "\" height=\""@ + decimal(
            self.height as nat,
        ) + "\" viewBox=\"0 0 "@ + decimal(self.view_width as nat) + " "@ + decimal(
            self.view_height as nat,
        ) + "\" xmlns=\"http://www.w3.org/2000/svg\" version=\"1.1\">"@
    }

    /// The whole document: the opening tag, the shapes in their order, the
    /// closing tag.
    pub open spec fn document_text(self) -> Seq<char> {
        self.head_text() + objects_text(self.objects@) + "</svg>"@
    }

    /// The opening tag of the document.
    pub fn head(&self) -> (s: String)
        ensures
            s@ == self.head_text(),
    {
        let mut s = String::from_str("<svg width=\"");
        s.append(decimal_string(self.width).as_str());
        s.append("\" height=\"");
        s.append(decimal_string(self.height).as_str());
        s.append("\" viewBox=\"0 0 ");
        s.append(decimal_string(self.view_width).as_str());
        s.append(" ");
        s.append(decimal_string(self.view_height).as_str());
        s.append("\" xmlns=\"http://www.w3.org/2000/svg\" version=\"1.1\">");
        s
    }

    /// The text of the drawing, as it stands in a file.
    pub fn document(&self) -> (s: String)
        ensures
            s@ == self.document_text(),
    {
        let mut s = self.head();
        let mut i: usize = 0;
        while i < self.objects.len()
            invariant
                i <= self.objects@.len(),
                s@ == self.head_text() + objects_text(self.objects@.take(i as int)),
            decreases self.objects@.len() - i,
        {
            let piece = self.objects[i].to_string();
            proof {
                let before = self.objects@.take(i as int);
                let after = self.objects@.take(i + 1);
                assert(after.drop_last() =~= before);
            }
            s.append(piece.as_str());
            i += 1;
        }
        proof {
            assert(self.objects@.take(i as int) =~= self.objects@);
        }
        s.append("</svg>");
        s
    }
}

} // verus!
