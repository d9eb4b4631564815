//! From a drawing to its picture: an SVG document of 1000 by 1000 units.
//!
//! The document holds, in this order, the definition of the stroke's
//! gradient, the background and one polyline with round caps and joins. It
//! depends on the drawing alone, character for character.
use vstd::prelude::*;
use vstd::string::*;
use crate::generator::drawing;
use crate::generator::Drawing;
use crate::generator::SquiggleGenerator;
use crate::generator::SquiggleParameters;
use crate::generator::MARGIN;
use crate::text::decimal;
use crate::text::push_decimal;

verus! {

pub const BACKGROUND_COLOR: &'static str = "#1a1a1a";

/// The root element, opened: a canvas of 1000 by 1000 units.
pub const SVG_OPEN: &'static str =
    "<svg xmlns=\"http://www.w3.org/2000/svg\" width=\"1000\" height=\"1000\" viewBox=\"0 0 1000 1000\">";

pub const SVG_CLOSE: &'static str = "</svg>";

/// A linear gradient from left to right, opened.
pub const GRADIENT_OPEN: &'static str =
    "<defs><linearGradient id=\"stroke\" x1=\"0\" y1=\"0\" x2=\"1\" y2=\"0\">";

pub const GRADIENT_CLOSE: &'static str = "</linearGradient></defs>";

/// The palette: the two colour stops of each gradient.
pub const GRADIENT_0: &'static str =
    "<stop offset=\"0\" stop-color=\"#ff0080\"/><stop offset=\"1\" stop-color=\"#7928ca\"/>";

pub const GRADIENT_1: &'static str =
    "<stop offset=\"0\" stop-color=\"#00dfd8\"/><stop offset=\"1\" stop-color=\"#007cf0\"/>";

pub const GRADIENT_2: &'static str =
    "<stop offset=\"0\" stop-color=\"#ff4d4d\"/><stop offset=\"1\" stop-color=\"#f9cb28\"/>";

pub const GRADIENT_3: &'static str =
    "<stop offset=\"0\" stop-color=\"#38ef7d\"/><stop offset=\"1\" stop-color=\"#11998e\"/>";

/// The background, up to its colour.
pub const BACKGROUND_OPEN: &'static str = "<rect width=\"1000\" height=\"1000\" fill=\"";

/// The line with round caps and joins, up to the width of its stroke.
pub const LINE_OPEN: &'static str =
    "<polyline fill=\"none\" stroke=\"url(#stroke)\" stroke-linecap=\"round\" stroke-linejoin=\"round\" stroke-width=\"";

/// Between the width of the stroke and the vertices.
pub const LINE_POINTS: &'static str = "\" points=\"";

/// The end of an element that has no content.
pub const ELEMENT_CLOSE: &'static str = "\"/>";

/// The colour stops of a gradient of the palette.
pub open spec fn gradient_stops(gradient_type: int) -> Seq<char> {
    if gradient_type == 0 {
        GRADIENT_0@
    } else if gradient_type == 1 {
        GRADIENT_1@
    } else if gradient_type == 2 {
        GRADIENT_2@
    } else {
        GRADIENT_3@
    }
}

/// One vertex as text: its horizontal position, a comma, its height.
pub open spec fn vertex_text(d: Drawing, k: int) -> Seq<char> {
    decimal(d.vertex_x(k) as nat) + seq![','] + decimal(d.y_coordinates[k] as nat)
}

/// The first `count` vertices as text, with one space between two of them.
pub open spec fn points_text(d: Drawing, count: nat) -> Seq<char>
    decreases count,
{
    if count == 0 {
        Seq::empty()
    } else if count == 1 {
        vertex_text(d, 0)
    } else {
        points_text(d, (count - 1) as nat) + seq![' '] + vertex_text(d, count - 1)
    }
}

/// The picture of a drawing: the gradient of its stroke, the background, and
/// the line through all its vertices.
pub open spec fn svg_document(d: Drawing) -> Seq<char> {
    SVG_OPEN@ + GRADIENT_OPEN@ + gradient_stops(d.gradient_type) + GRADIENT_CLOSE@
        + BACKGROUND_OPEN@ + BACKGROUND_COLOR@ + ELEMENT_CLOSE@ + LINE_OPEN@ + decimal(
        d.stroke_width as nat,
    ) + LINE_POINTS@ + points_text(d, d.y_coordinates.len()) + ELEMENT_CLOSE@ + SVG_CLOSE@
}

fn stops(gradient_type: u8) -> (stops: &'static str)
    ensures
        stops@ == gradient_stops(gradient_type as int),
{
    if gradient_type == 0 {
        GRADIENT_0
    } else if gradient_type == 1 {
        GRADIENT_1
    } else if gradient_type == 2 {
        GRADIENT_2
    } else {
        GRADIENT_3
    }
}

/// Appends the vertices of the drawing to `out`.
fn push_points(out: &mut String, params: &SquiggleParameters)
    requires
        params@.well_formed(),
    ensures
        final(out)@ == old(out)@ + points_text(params@, params@.y_coordinates.len()),
{
    let count = params.y_coordinates.len();
    let mut k: usize = 0;
    while k < count
        invariant
            params@.well_formed(),
            count == params.y_coordinates@.len(),
            k <= count,
            out@ == old(out)@ + points_text(params@, k as nat),
        decreases count - k,
    {
        let ghost before = out@;
        if k > 0 {
            out.push(' ');
        }
        let x: i32 = if k == 0 {
            MARGIN
        } else {
            assert(0 <= params@.x_offsets[k - 1] <= 900);
            MARGIN + params.x_offsets[k - 1]
        };
        assert(0 <= params@.y_coordinates[k as int]);
        let y: i32 = params.y_coordinates[k];
        push_decimal(out, x as u32);
        out.push(',');
        push_decimal(out, y as u32);
        assert(out@ =~= old(out)@ + points_text(params@, (k + 1) as nat)) by {
            assert(x == params@.vertex_x(k as int));
            assert(y == params@.y_coordinates[k as int]);
        }
        k += 1;
    }
}

impl SquiggleGenerator {
    /// Renders a drawing as an SVG document.
    pub fn render(params: &SquiggleParameters) -> (svg: String)
        requires
            params@.well_formed(),
        ensures
            svg@ == svg_document(params@),
    {
        let mut svg = String::new();
        svg.append(SVG_OPEN);
        svg.append(GRADIENT_OPEN);
        svg.append(stops(params.gradient_type));
        svg.append(GRADIENT_CLOSE);
        svg.append(BACKGROUND_OPEN);
        svg.append(BACKGROUND_COLOR);
        svg.append(ELEMENT_CLOSE);
        svg.append(LINE_OPEN);
        push_decimal(&mut svg, params.stroke_width as u32);
        svg.append(LINE_POINTS);
        push_points(&mut svg, params);
        svg.append(ELEMENT_CLOSE);
        svg.append(SVG_CLOSE);
        svg
    }

    /// The picture of the token: the seed's drawing, rendered.
    pub fn generate_svg(&self) -> (svg: String)
        ensures
            svg@ == svg_document(drawing(self@)),
    {
        let params = self.parameters();
        SquiggleGenerator::render(&params)
    }
}

} // verus!
