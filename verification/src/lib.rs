//! Circular-script rendering on an integer canvas.
//!
//! A sentence is drawn word by word. A word is a band about an anchor, a
//! full circle or an arc; its letters either cut notches into the band or
//! stand free as circles. Positions are anchored to one another in a
//! [`pord::PordGraph`], words and letters are described in [`word`], the
//! band is stitched in [`band`], and connector lines are built in
//! [`decorator`].
//!
//! All arithmetic is on integers. Lengths are canvas units, of which there
//! are [`UNITS_PER_PIXEL`] to a pixel; angles are microradians and travel
//! with their sine and cosine in fixed point ([`angle::Angle`]). The
//! trigonometric functions themselves are evaluated by the caller: an angle
//! is handed in with its sine and cosine, and a letter with the arctangent
//! and the arccosines that were measured of it ([`word::Bearings`]).

use vstd::prelude::*;
use svg::Document;
use crate::nodes::{doc_add_rect, rect_of};
use crate::svgdoc::{doc_attrs, doc_new, doc_nodes, doc_set_quad, quad_text};

pub mod angle;
pub mod band;
pub mod basic;
pub mod ctx;
pub mod decorator;
pub mod glyph;
pub mod nodes;
pub mod order;
pub mod pord;
pub mod svgdoc;
pub mod utils;
pub mod word;

verus! {

/// Canvas units per pixel: every length in this crate is an integer number
/// of hundredths of a pixel.
pub const UNITS_PER_PIXEL: i64 = 100;

/// How a letter's stem meets the band of its word.
#[derive(Debug, Clone, Copy, Hash, PartialEq, Eq, Structural)]
pub enum StemType {
    B,
    J,
    S,
    Z,
}

/// The attributes of a fresh canvas: the SVG namespace and the view box
/// `0 0 width height`.
pub open spec fn canvas_attrs(width: int, height: int) -> Map<Seq<char>, Seq<char>> {
    crate::svgdoc::fresh_doc_attrs().insert("viewBox"@, quad_text(0, 0, width, height))
}

/// A canvas of the given size with a solid background, and its origin.
///
/// The document has the view box `0 0 width height` and one child, a
/// rectangle over all of it, filled with `solid_background` and without a
/// stroke. The origin is the middle of the canvas.
pub fn canvas_init(width: u64, height: u64, solid_background: &str) -> (out: (Document, (i64, i64)))
    ensures
        doc_attrs(out.0) == canvas_attrs(width as int, height as int),
        doc_nodes(out.0) == seq![
            rect_of(0, 0, width as int, height as int, solid_background@, "none"@),
        ],
        out.1.0 == width / 2,
        out.1.1 == height / 2,
{
    let drawn = doc_new();
    let drawn = doc_set_quad(drawn, "viewBox", (0, 0, width, height));
    let drawn = doc_add_rect(drawn, width, height, solid_background, "none");
    assert(doc_nodes(drawn) =~= seq![
        rect_of(0, 0, width as int, height as int, solid_background@, "none"@),
    ]);
    (drawn, ((width / 2) as i64, (height / 2) as i64))
}

/// `Document::to_string`: the document as SVG text.
#[verifier::external_body]
pub fn svg_str(doc: &Document) -> (out: String) {
    doc.to_string()
}

} // verus!
