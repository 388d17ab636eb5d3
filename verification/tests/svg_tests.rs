use wad2map::svg::{
    color_to_string, Color, SVGCircle, SVGLine, SVGObject, SVGPoly, SVGRect, SVGVertex, SVG,
};
use wad2map::text::decimal_string;

#[test]
fn test_create_svg() {
    let mut s = SVG::new(1024, 1024, 1024, 1024);

    let rect = SVGRect::new(0, 0, 1024, 1024, Color::White);
    let line = SVGLine::new(0, 0, 1024, 1024, 5, Color::Black);
    let line2 = SVGLine::new(1024, 0, 0, 1024, 10, Color::Black);

    s.add_object(SVGObject::Rect(rect));
    s.add_object(SVGObject::Line(line));
    s.add_object(SVGObject::Line(line2));

    let text = s.document();
    assert_eq!(
        text,
        "<svg width=\"1024\" height=\"1024\" viewBox=\"0 0 1024 1024\" \
         xmlns=\"http://www.w3.org/2000/svg\" version=\"1.1\">\
         <rect x=\"0\" y=\"0\" width=\"1024\" height=\"1024\" fill=\"white\" />\
         <line x1=\"0\" y1=\"0\" x2=\"1024\" y2=\"1024\" stroke=\"black\" stroke-width=\"5\" />\
         <line x1=\"1024\" y1=\"0\" x2=\"0\" y2=\"1024\" stroke=\"black\" stroke-width=\"10\" />\
         </svg>"
    );
}

#[test]
fn decimal_of_numbers() {
    assert_eq!(decimal_string(0), "0");
    assert_eq!(decimal_string(7), "7");
    assert_eq!(decimal_string(10), "10");
    assert_eq!(decimal_string(1024), "1024");
    assert_eq!(decimal_string(9876543210), "9876543210");
    assert_eq!(decimal_string(u64::MAX), "18446744073709551615");
    for n in [1u64, 9, 11, 99, 100, 101, 65535, 65636, 1 << 32, 1 << 63] {
        assert_eq!(decimal_string(n), n.to_string());
    }
}

#[test]
fn color_names() {
    assert_eq!(color_to_string(&Color::Red), "red");
    assert_eq!(color_to_string(&Color::NoPaint), "none");
    assert_eq!(color_to_string(&Color::Blue), "blue");
    assert_eq!(color_to_string(&Color::Grey), "grey");
    assert_eq!(color_to_string(&Color::Green), "green");
    assert_eq!(color_to_string(&Color::Black), "black");
    assert_eq!(color_to_string(&Color::White), "white");
    assert_eq!(color_to_string(&Color::Yellow), "yellow");
}

#[test]
fn line_text() {
    let line = SVGLine::new(50, 51, 200, 201, 4, Color::Blue);
    assert_eq!(line.x1, 50);
    assert_eq!(line.y1, 51);
    assert_eq!(line.x2, 200);
    assert_eq!(line.y2, 201);
    assert_eq!(line.stroke, 4);
    assert_eq!(line.color, Color::Blue);
    assert_eq!(
        line.to_string(),
        "<line x1=\"50\" y1=\"51\" x2=\"200\" y2=\"201\" stroke=\"blue\" stroke-width=\"4\" />"
    );
}

#[test]
fn rect_text() {
    let rect = SVGRect::new(25, 26, 200, 300, Color::White);
    assert_eq!(rect, SVGRect { x: 25, y: 26, w: 200, h: 300, fill: Color::White });
    assert_eq!(
        rect.to_string(),
        "<rect x=\"25\" y=\"26\" width=\"200\" height=\"300\" fill=\"white\" />"
    );
}

#[test]
fn circle_text() {
    let circle = SVGCircle::new(125, 126, 75);
    assert_eq!(circle, SVGCircle { cx: 125, cy: 126, radius: 75 });
    assert_eq!(circle.to_string(), "<circle cx=\"125\" cy=\"126\" r=\"75\" fill=\"none\" />");
}

#[test]
fn vertex_text() {
    let v = SVGVertex::new(50, 150);
    assert_eq!(v, SVGVertex { x: 50, y: 150 });
    assert_eq!(v.to_string(), "50,150");
}

#[test]
fn poly_collects_corners() {
    let mut p = SVGPoly::new(Color::Red, 4);
    assert_eq!(p.color, Color::Red);
    assert_eq!(p.stroke, 4);
    assert!(p.vertices.is_empty());
    p.addv(50, 150);
    p.addv(50, 200);
    assert_eq!(p.vertices, vec![SVGVertex { x: 50, y: 150 }, SVGVertex { x: 50, y: 200 }]);
    assert_eq!(p.color, Color::Red);
    assert_eq!(p.stroke, 4);
    assert_eq!(p.to_string(), "not implemented");
}

#[test]
fn object_text_is_that_of_its_shape() {
    let line = SVGLine::new(1, 2, 3, 4, 5, Color::Grey);
    let rect = SVGRect::new(1, 2, 3, 4, Color::Green);
    let circle = SVGCircle::new(1, 2, 3);
    let poly = SVGPoly::new(Color::Yellow, 1);
    assert_eq!(SVGObject::Line(line).to_string(), line.to_string());
    assert_eq!(SVGObject::Rect(rect).to_string(), rect.to_string());
    assert_eq!(SVGObject::Circle(circle).to_string(), circle.to_string());
    assert_eq!(SVGObject::Poly(poly.clone()).to_string(), poly.to_string());
}

#[test]
fn empty_drawing() {
    let s = SVG::new(1024, 512, 2000, 1000);
    assert_eq!(s.width, 1024);
    assert_eq!(s.height, 512);
    assert_eq!(s.view_width, 2000);
    assert_eq!(s.view_height, 1000);
    assert!(s.objects.is_empty());
    assert_eq!(
        s.head(),
        "<svg width=\"1024\" height=\"512\" viewBox=\"0 0 2000 1000\" \
         xmlns=\"http://www.w3.org/2000/svg\" version=\"1.1\">"
    );
    assert_eq!(s.document(), format!("{}</svg>", s.head()));
}

#[test]
fn add_object_counts_and_keeps_order() {
    let mut s = SVG::new(10, 20, 30, 40);
    let a = SVGObject::Line(SVGLine::new(1, 1, 1, 1, 1, Color::Red));
    let b = SVGObject::Circle(SVGCircle::new(2, 2, 2));
    let c = SVGObject::Rect(SVGRect::new(3, 3, 3, 3, Color::Blue));
    assert_eq!(s.add_object(a.clone()), 1);
    assert_eq!(s.add_object(b.clone()), 2);
    assert_eq!(s.add_object(c.clone()), 3);
    assert_eq!(s.objects, vec![a.clone(), b.clone(), c.clone()]);
    assert_eq!((s.width, s.height, s.view_width, s.view_height), (10, 20, 30, 40));
    let expected = format!("{}{}{}{}</svg>", s.head(), a.to_string(), b.to_string(), c.to_string());
    assert_eq!(s.document(), expected);
}

#[test]
fn pixel_size_and_view_box_are_kept_apart() {
    let s = SVG::new(1024, 700, 3000, 2050);
    let text = s.document();
    assert!(text.starts_with("<svg width=\"1024\" height=\"700\" viewBox=\"0 0 3000 2050\""));
    assert!(text.ends_with("</svg>"));
}
