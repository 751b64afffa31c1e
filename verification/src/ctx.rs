//! Render contexts: the colours and stroke widths a drawing call works with,
//! and the canvas origin that positions are projected against.
//!
//! All lengths are integers in canvas units (see [`crate::UNITS_PER_PIXEL`]).

use vstd::prelude::*;

verus! {

/// Largest stroke half-width a context can carry.
pub const MAX_STROKE: i64 = 0x20_0000;

/// Largest magnitude of a canvas coordinate.
pub const MAX_COORD: i64 = 0x20_0000;

/// The three colours of a drawing call, as SVG paint strings.
#[derive(Debug, Hash, PartialEq)]
pub struct ColourContext {
    bg: String,
    fill: String,
    stroke: String,
}

/// The two halves of a stroke: how far it reaches inside and outside the
/// nominal outline.
#[derive(Debug, Clone, Copy, PartialEq, Eq)]
pub struct StrokeContext {
    inner_strokewidth: i64,
    outer_strokewidth: i64,
}

/// Colours, stroke and canvas origin together.
#[derive(Debug, PartialEq)]
pub struct Context {
    colour: ColourContext,
    stroke: StrokeContext,
    origin_x: i64,
    origin_y: i64,
}

impl ColourContext {
    pub closed spec fn spec_bg(&self) -> Seq<char> {
        self.bg@
    }

    pub closed spec fn spec_fill(&self) -> Seq<char> {
        self.fill@
    }

    pub closed spec fn spec_stroke(&self) -> Seq<char> {
        self.stroke@
    }

    /// A colour set from three paint strings.
    pub fn new(bg: &str, fill: &str, stroke: &str) -> (out: ColourContext)
        ensures
            out.spec_bg() == bg@,
            out.spec_fill() == fill@,
            out.spec_stroke() == stroke@,
    {
        ColourContext { bg: bg.to_string(), fill: fill.to_string(), stroke: stroke.to_string() }
    }

    /// The preset for filled paths: white background, black fill, no stroke.
    pub fn default_path() -> (out: ColourContext)
        ensures
            out.spec_bg() == "white"@,
            out.spec_fill() == "black"@,
            out.spec_stroke() == "none"@,
    {
        ColourContext {
            bg: "white".to_string(),
            fill: "black".to_string(),
            stroke: "none".to_string(),
        }
    }

    pub fn bg(&self) -> (out: &str)
        ensures
            out@ == self.spec_bg(),
    {
        self.bg.as_str()
    }

    pub fn fill(&self) -> (out: &str)
        ensures
            out@ == self.spec_fill(),
    {
        self.fill.as_str()
    }

    pub fn stroke(&self) -> (out: &str)
        ensures
            out@ == self.spec_stroke(),
    {
        self.stroke.as_str()
    }
}

impl Clone for ColourContext {
    fn clone(&self) -> (out: ColourContext)
        ensures
            out == *self,
    {
        ColourContext {
            bg: self.bg.clone(),
            fill: self.fill.clone(),
            stroke: self.stroke.clone(),
        }
    }
}

impl Default for ColourContext {
    /// White background, no fill, black stroke.
    fn default() -> (out: ColourContext)
        ensures
            out.spec_bg() == "white"@,
            out.spec_fill() == "none"@,
            out.spec_stroke() == "black"@,
    {
        ColourContext {
            bg: "white".to_string(),
            fill: "none".to_string(),
            stroke: "black".to_string(),
        }
    }
}

impl StrokeContext {
    #[verifier::type_invariant]
    closed spec fn inv(self) -> bool {
        &&& 0 <= self.inner_strokewidth <= MAX_STROKE
        &&& 0 <= self.outer_strokewidth <= MAX_STROKE
    }

    pub closed spec fn spec_i_stroke(&self) -> int {
        self.inner_strokewidth as int
    }

    pub closed spec fn spec_o_stroke(&self) -> int {
        self.outer_strokewidth as int
    }

    /// A stroke of the given total width, split evenly: the inner half is
    /// `strokewidth / 2`, the outer half takes the rest.
    pub fn new(strokewidth: i64) -> (out: StrokeContext)
        requires
            0 <= strokewidth <= MAX_STROKE,
        ensures
            out.spec_i_stroke() == strokewidth / 2,
            out.spec_o_stroke() == strokewidth - strokewidth / 2,
    {
        let half: i64 = strokewidth / 2;
        StrokeContext { inner_strokewidth: half, outer_strokewidth: strokewidth - half }
    }

    /// The nominal stroke width: inner half plus outer half.
    pub fn strokewidth(&self) -> (out: i64)
        ensures
            out == self.spec_i_stroke() + self.spec_o_stroke(),
            0 <= out <= 2 * MAX_STROKE,
    {
        proof {
            use_type_invariant(self);
        }
        self.inner_strokewidth + self.outer_strokewidth
    }

    pub fn i_stroke(&self) -> (out: i64)
        ensures
            out == self.spec_i_stroke(),
            0 <= out <= MAX_STROKE,
    {
        proof {
            use_type_invariant(self);
        }
        self.inner_strokewidth
    }

    pub fn o_stroke(&self) -> (out: i64)
        ensures
            out == self.spec_o_stroke(),
            0 <= out <= MAX_STROKE,
    {
        proof {
            use_type_invariant(self);
        }
        self.outer_strokewidth
    }

    pub fn set_i_stroke(&mut self, new_i_stroke: i64)
        requires
            0 <= new_i_stroke <= MAX_STROKE,
        ensures
            final(self).spec_i_stroke() == new_i_stroke,
            final(self).spec_o_stroke() == old(self).spec_o_stroke(),
    {
        proof {
            use_type_invariant(&*self);
        }
        self.inner_strokewidth = new_i_stroke;
    }

    pub fn set_o_stroke(&mut self, new_o_stroke: i64)
        requires
            0 <= new_o_stroke <= MAX_STROKE,
        ensures
            final(self).spec_o_stroke() == new_o_stroke,
            final(self).spec_i_stroke() == old(self).spec_i_stroke(),
    {
        proof {
            use_type_invariant(&*self);
        }
        self.outer_strokewidth = new_o_stroke;
    }
}

impl Default for StrokeContext {
    /// A stroke of no width.
    fn default() -> (out: StrokeContext)
        ensures
            out.spec_i_stroke() == 0,
            out.spec_o_stroke() == 0,
    {
        StrokeContext { inner_strokewidth: 0, outer_strokewidth: 0 }
    }
}

impl Context {
    #[verifier::type_invariant]
    closed spec fn inv(self) -> bool {
        &&& -MAX_COORD <= self.origin_x <= MAX_COORD
        &&& -MAX_COORD <= self.origin_y <= MAX_COORD
    }

    pub closed spec fn spec_colour(&self) -> ColourContext {
        self.colour
    }

    pub closed spec fn spec_stroke(&self) -> StrokeContext {
        self.stroke
    }

    pub closed spec fn spec_origin(&self) -> (int, int) {
        (self.origin_x as int, self.origin_y as int)
    }

    pub fn new(colour: ColourContext, stroke: StrokeContext, origin: &(i64, i64)) -> (out:
        Context)
        requires
            -MAX_COORD <= origin.0 <= MAX_COORD,
            -MAX_COORD <= origin.1 <= MAX_COORD,
        ensures
            out.spec_colour() == colour,
            out.spec_stroke() == stroke,
            out.spec_origin() == (origin.0 as int, origin.1 as int),
    {
        Context { colour, stroke, origin_x: origin.0, origin_y: origin.1 }
    }

    pub fn colour(&self) -> (out: &ColourContext)
        ensures
            *out == self.spec_colour(),
    {
        &self.colour
    }

    pub fn stroke(&self) -> (out: &StrokeContext)
        ensures
            *out == self.spec_stroke(),
    {
        &self.stroke
    }

    pub fn origin(&self) -> (out: (i64, i64))
        ensures
            (out.0 as int, out.1 as int) == self.spec_origin(),
            -MAX_COORD <= out.0 <= MAX_COORD,
            -MAX_COORD <= out.1 <= MAX_COORD,
    {
        proof {
            use_type_invariant(self);
        }
        (self.origin_x, self.origin_y)
    }

    /// The same colours and origin with a fresh, evenly split stroke.
    pub fn new_strokewidth(&self, strokewidth: i64) -> (out: Context)
        requires
            0 <= strokewidth <= MAX_STROKE,
        ensures
            out.spec_colour() == self.spec_colour(),
            out.spec_origin() == self.spec_origin(),
            out.spec_stroke().spec_i_stroke() == strokewidth / 2,
            out.spec_stroke().spec_o_stroke() == strokewidth - strokewidth / 2,
    {
        proof {
            use_type_invariant(self);
        }
        Context {
            colour: self.colour.clone(),
            stroke: StrokeContext::new(strokewidth),
            origin_x: self.origin_x,
            origin_y: self.origin_y,
        }
    }

    pub fn set_origin(&mut self, svg_origin: (i64, i64))
        requires
            -MAX_COORD <= svg_origin.0 <= MAX_COORD,
            -MAX_COORD <= svg_origin.1 <= MAX_COORD,
        ensures
            final(self).spec_origin() == (svg_origin.0 as int, svg_origin.1 as int),
            final(self).spec_colour() == old(self).spec_colour(),
            final(self).spec_stroke() == old(self).spec_stroke(),
    {
        proof {
            use_type_invariant(&*self);
        }
        self.origin_x = svg_origin.0;
        self.origin_y = svg_origin.1;
    }
}

impl Clone for Context {
    fn clone(&self) -> (out: Context)
        ensures
            out == *self,
    {
        proof {
            use_type_invariant(self);
        }
        Context {
            colour: self.colour.clone(),
            stroke: self.stroke,
            origin_x: self.origin_x,
            origin_y: self.origin_y,
        }
    }
}

impl Default for Context {
    /// Default colours, no stroke, origin at the canvas corner.
    fn default() -> (out: Context)
        ensures
            out.spec_colour().spec_bg() == "white"@,
            out.spec_colour().spec_fill() == "none"@,
            out.spec_colour().spec_stroke() == "black"@,
            out.spec_stroke().spec_i_stroke() == 0,
            out.spec_stroke().spec_o_stroke() == 0,
            out.spec_origin() == (0int, 0int),
    {
        Context {
            colour: ColourContext::default(),
            stroke: StrokeContext::default(),
            origin_x: 0,
            origin_y: 0,
        }
    }
}

} // verus!
