//! The band of a word: its two boundary paths, stitched letter by letter,
//! the patches of stacked letters, and the circles of free letters.

use vstd::prelude::*;
use svg::Document;
use crate::angle::{Angle, PI, TAU};
use crate::ctx::{Context, MAX_COORD};
use crate::glyph::{
    glyphs_of,
    letters_placed,
    make_glyphs,
    turn_back,
    turn_on,
    turned_back,
    turned_on,
    within,
    Glyph,
};
use crate::nodes::{circle_of, doc_add_circle, doc_add_path, path_of};
use crate::pord::{abs_at, Cartesian, PordGraph, PordOrCord, PordRef};
use crate::svgdoc::{data_close, doc_attrs, doc_nodes, path_number, PathCommand, SvgNode};
use crate::utils::{
    forward_commands,
    reversed_commands,
    steps_fit,
    LargeArcFlag,
    PathBuilder,
    PathParameter,
    SvgPosition,
    SweepDirection,
};
use crate::word::{InnerAngle, LetterArc, OuterAngle};
use crate::StemType;

verus! {

/// By how much a cut-out patch overlaps the band it is cut from: a fifth of
/// a pixel, in canvas units.
pub const B_DIVOT_FUDGE: i64 = 20;

/// Largest magnitude of the start, the end and the tip length of an arc
/// word, in microradians.
pub const MAX_TURN: i64 = 0x1_0000_0000;

/// The circles of a band on which points are taken.
#[derive(Debug, Clone, Copy, PartialEq, Eq, Structural)]
pub enum RadiusType {
    /// The inner boundary.
    Inner,
    /// The inner boundary widened by the fudge, where patches are cut.
    Average,
    /// The outer boundary.
    Outer,
}

/// A band on the canvas: its centre and its two boundary radii.
#[derive(Debug, Clone, Copy, PartialEq, Eq, Structural)]
pub struct Band {
    pub x: i64,
    pub y: i64,
    pub inner: i64,
    pub outer: i64,
}

impl Band {
    /// Whether the numbers of the band are small enough to draw with.
    pub open spec fn valid(&self) -> bool {
        &&& -2 * MAX_COORD <= self.x <= 2 * MAX_COORD
        &&& -2 * MAX_COORD <= self.y <= 2 * MAX_COORD
        &&& -2 * MAX_COORD <= self.inner <= 2 * MAX_COORD
        &&& -2 * MAX_COORD <= self.outer <= 2 * MAX_COORD
    }

    /// The radius of one of the circles of the band.
    pub open spec fn ring(&self, ring: RadiusType) -> int {
        match ring {
            RadiusType::Inner => self.inner as int,
            RadiusType::Average => self.inner + B_DIVOT_FUDGE,
            RadiusType::Outer => self.outer as int,
        }
    }

    /// The point of a circle of the band at the bearing `angle`: the centre
    /// moved by `(R sin, R cos)`.
    pub open spec fn point(&self, angle: Angle, ring: RadiusType) -> SvgPosition {
        SvgPosition(
            (self.x + crate::pord::along(self.ring(ring), angle.spec_sin())) as i64,
            (self.y + crate::pord::along(self.ring(ring), angle.spec_cos())) as i64,
        )
    }

    /// The point of a circle of the band at the bearing `angle`.
    pub fn calc_word_arc_svg_point(&self, angle: &Angle, ring: RadiusType) -> (out: SvgPosition)
        requires
            self.valid(),
        ensures
            out == self.point(*angle, ring),
            path_number(out.0 as int),
            path_number(out.1 as int),
    {
        let radius: i64 = match ring {
            RadiusType::Inner => self.inner,
            RadiusType::Outer => self.outer,
            RadiusType::Average => self.inner + B_DIVOT_FUDGE,
        };
        let dx = crate::pord::scale_along(radius, angle.sin());
        let dy = crate::pord::scale_along(radius, angle.cos());
        SvgPosition(self.x + dx, self.y + dy)
    }
}

/// The band of a word: its centre on the canvas and its boundary radii,
/// the word's radius narrowed by the inner stroke and widened by the
/// outer one.
pub open spec fn band_of(nodes: Seq<PordOrCord>, centre: PordRef, radius: int, ctx: Context) -> Band {
    let at = abs_at(nodes, centre.0 as int, ctx.spec_origin());
    Band {
        x: at.0 as i64,
        y: at.1 as i64,
        inner: (radius - ctx.spec_stroke().spec_i_stroke()) as i64,
        outer: (radius + ctx.spec_stroke().spec_o_stroke()) as i64,
    }
}

/// The band of a word about `centre`.
pub fn make_band(graph: &PordGraph, centre: PordRef, radius: i64, ctx: &Context) -> (out: Band)
    requires
        graph.wf(),
        graph.has(centre),
        -MAX_COORD <= radius <= MAX_COORD,
    ensures
        out == band_of(graph@, centre, radius as int, *ctx),
        out.valid(),
{
    let (x, y) = graph.abs_svg_xy(centre, ctx.origin());
    Band {
        x,
        y,
        inner: radius - ctx.stroke().i_stroke(),
        outer: radius + ctx.stroke().o_stroke(),
    }
}

/// One recorded step of a path: a point and how it is reached.
pub type Step = (SvgPosition, PathParameter);

/// An arc step.
pub open spec fn arc_step(to: SvgPosition, radius: int, large_arc: bool, sweep: bool) -> Step {
    (to, PathParameter::Arc(radius as i64, LargeArcFlag(large_arc), SweepDirection(sweep)))
}

/// The part of the full turn that a word covers: a circular word runs
/// from no turn to the full turn and has no tips; an arc word runs from
/// its start to its end and tapers over the length of its tip.
#[derive(Debug, Clone, Copy, PartialEq, Eq)]
pub struct Range {
    pub start: Angle,
    pub end: Angle,
    pub tip: Option<Angle>,
}

impl Range {
    pub open spec fn valid(&self) -> bool {
        &&& within(self.start, MAX_TURN as int)
        &&& within(self.end, MAX_TURN as int)
        &&& match self.tip {
            Some(t) => within(t, MAX_TURN as int),
            None => true,
        }
    }

    /// Whether the tips take the large arc: they are longer than half a turn.
    pub open spec fn large_tip(&self) -> bool {
        match self.tip {
            Some(t) => t.spec_rad() > PI,
            None => false,
        }
    }
}

/// The radius on which the inner boundary meets the outer one at a tip.
pub open spec fn tip_radius(band: Band) -> int {
    2 * band.outer - band.inner
}

/// The inner and the outer path with a segment of the band added to each,
/// from `start` to `end`: counter-clockwise, and the large arc where the
/// segment is longer than half a turn.
pub open spec fn with_word_arc(
    band: Band,
    data: (Seq<Step>, Seq<Step>),
    start: (Angle, Angle),
    end: (Angle, Angle),
) -> (Seq<Step>, Seq<Step>) {
    (
        data.0.push(
            arc_step(
                band.point(end.0, RadiusType::Inner),
                band.inner as int,
                end.0.spec_rad() - start.0.spec_rad() > PI,
                false,
            ),
        ),
        data.1.push(
            arc_step(
                band.point(end.1, RadiusType::Outer),
                band.outer as int,
                end.1.spec_rad() - start.1.spec_rad() > PI,
                false,
            ),
        ),
    )
}

/// The inner and the outer path with the notch of a cutting letter added:
/// on the inner path an arc of the letter's outer radius to where the
/// notch ends, on the outer path an arc of its inner radius, both
/// clockwise. Stem S takes the small arc on both. Stem B takes the large
/// arc on the outer path, and on the inner path too unless it is oversized.
pub open spec fn with_letter_arc(band: Band, data: (Seq<Step>, Seq<Step>), glyph: Glyph) -> (
    Seq<Step>,
    Seq<Step>,
) {
    let b_divot = glyph.stem == StemType::B;
    (
        data.0.push(
            arc_step(
                band.point(glyph.right().0, RadiusType::Inner),
                glyph.outer_radius as int,
                b_divot && !glyph.oversized(),
                true,
            ),
        ),
        data.1.push(
            arc_step(
                band.point(glyph.right().1, RadiusType::Outer),
                glyph.inner_radius as int,
                b_divot,
                true,
            ),
        ),
    )
}

/// The cut-out patch of a cutting letter that shares its anchor with the
/// letter before it: four corners on the widened inner boundary, joined
/// by arcs about the word's centre and the letter's centre in turn.
pub open spec fn patch_steps(band: Band, glyph: Glyph) -> Seq<Step> {
    let large = glyph.stem == StemType::B && !glyph.oversized();
    let inner_start = turned_back(glyph.bearing, glyph.thi.inner_thi);
    let inner_end = turned_on(glyph.bearing, glyph.thi.inner_thi);
    let outer_start = turned_back(glyph.bearing, glyph.thi.inner_edge_thi);
    let outer_end = turned_on(glyph.bearing, glyph.thi.inner_edge_thi);
    let point_1 = band.point(inner_start, RadiusType::Average);
    let point_2 = band.point(outer_start, RadiusType::Average);
    let point_3 = band.point(outer_end, RadiusType::Average);
    let point_4 = band.point(inner_end, RadiusType::Average);
    seq![
        (point_1, PathParameter::Move),
        arc_step(point_2, band.inner as int, false, false),
        arc_step(point_3, glyph.inner_radius + B_DIVOT_FUDGE / 2, large, true),
        arc_step(point_4, band.inner as int, false, false),
        arc_step(point_1, glyph.outer_radius + B_DIVOT_FUDGE, large, false),
    ]
}

/// Where the two paths of a word begin. A circular word moves to the
/// points of its two boundaries at `angle`. An arc word moves both paths
/// to the point of its outer boundary one tip length before its start
/// and from there leads each to its boundary at `angle`.
pub open spec fn start_paths(band: Band, range: Range, angle: (Angle, Angle)) -> (
    Seq<Step>,
    Seq<Step>,
) {
    let inner_start = band.point(angle.0, RadiusType::Inner);
    let outer_start = band.point(angle.1, RadiusType::Outer);
    match range.tip {
        None => (seq![(inner_start, PathParameter::Move)], seq![(outer_start, PathParameter::Move)]),
        Some(tip) => {
            let start_xy = band.point(Angle::of(range.start.spec_minus(&tip)), RadiusType::Outer);
            (
                seq![
                    (start_xy, PathParameter::Move),
                    arc_step(inner_start, tip_radius(band), range.large_tip(), false),
                ],
                seq![
                    (start_xy, PathParameter::Move),
                    arc_step(outer_start, band.outer as int, range.large_tip(), false),
                ],
            )
        },
    }
}

/// The two paths led to the end tip of an arc word: the point of the outer
/// boundary one tip length behind the end. A circular word has none.
pub open spec fn with_end_tip(band: Band, range: Range, data: (Seq<Step>, Seq<Step>)) -> (
    Seq<Step>,
    Seq<Step>,
) {
    match range.tip {
        None => data,
        Some(tip) => {
            let end_xy = band.point(Angle::of(range.end.spec_plus(&tip)), RadiusType::Outer);
            (
                data.0.push(arc_step(end_xy, tip_radius(band), range.large_tip(), false)),
                data.1.push(arc_step(end_xy, band.outer as int, range.large_tip(), false)),
            )
        },
    }
}

/// Adds a segment of the band from `start_angle` to `end_angle` to both paths.
pub fn draw_word_arc(
    band: &Band,
    data: (PathBuilder, PathBuilder),
    start_angle: (InnerAngle, OuterAngle),
    end_angle: (InnerAngle, OuterAngle),
) -> (out: (PathBuilder, PathBuilder))
    requires
        band.valid(),
        steps_fit(data.0@),
        steps_fit(data.1@),
    ensures
        (out.0@, out.1@) == with_word_arc(
            *band,
            (data.0@, data.1@),
            (start_angle.0.0, start_angle.1.0),
            (end_angle.0.0, end_angle.1.0),
        ),
        steps_fit(out.0@),
        steps_fit(out.1@),
{
    let (mut inner, mut outer) = data;
    let i_end = band.calc_word_arc_svg_point(&end_angle.0.0, RadiusType::Inner);
    let o_end = band.calc_word_arc_svg_point(&end_angle.1.0, RadiusType::Outer);
    outer.arc_to(
        o_end,
        band.outer,
        LargeArcFlag(end_angle.1.0.rad() - start_angle.1.0.rad() > PI),
        SweepDirection(false),
    );
    inner.arc_to(
        i_end,
        band.inner,
        LargeArcFlag(end_angle.0.0.rad() - start_angle.0.0.rad() > PI),
        SweepDirection(false),
    );
    (inner, outer)
}

/// Adds what a letter contributes to the two paths and says where the
/// band goes on from. A letter that cuts adds its notch and the band goes
/// on where the notch ends; a letter that does not cut adds nothing and the
/// band goes on from its bearing. The circle of such a letter is added on
/// top of the band by `letter_circle_node`.
pub fn draw_letter_arc(band: &Band, glyph: &Glyph, data: (PathBuilder, PathBuilder)) -> (out: (
    (PathBuilder, PathBuilder),
    (InnerAngle, OuterAngle),
))
    requires
        band.valid(),
        glyph.valid(),
        steps_fit(data.0@),
        steps_fit(data.1@),
    ensures
        (out.0.0@, out.0.1@) == if glyph.cuts() {
            with_letter_arc(*band, (data.0@, data.1@), *glyph)
        } else {
            (data.0@, data.1@)
        },
        steps_fit(out.0.0@),
        steps_fit(out.0.1@),
        (out.1.0.0, out.1.1.0) == glyph.right(),
        !glyph.cuts() ==> (out.1.0.0, out.1.1.0) == (glyph.bearing, glyph.bearing),
        within(out.1.0.0, 2 * TAU),
        within(out.1.1.0, 2 * TAU),
{
    let end_angle = glyph.right_angle();
    let b_divot = match glyph.stem {
        StemType::J | StemType::Z => {
            return (data, end_angle);
        },
        StemType::S => false,
        StemType::B => true,
    };
    let (mut inner, mut outer) = data;
    let oversized_b = glyph.is_oversized();
    inner.arc_to(
        band.calc_word_arc_svg_point(&end_angle.0.0, RadiusType::Inner),
        glyph.outer_radius,
        LargeArcFlag(b_divot && !oversized_b),
        SweepDirection(true),
    );
    outer.arc_to(
        band.calc_word_arc_svg_point(&end_angle.1.0, RadiusType::Outer),
        glyph.inner_radius,
        LargeArcFlag(b_divot),
        SweepDirection(true),
    );
    ((inner, outer), end_angle)
}

/// The cut-out patch of a letter that shares its anchor with the letter
/// before it. Only a letter that cuts has one; a letter that does not is
/// drawn as a circle like any other.
pub fn draw_stacked_letter_arc(band: &Band, glyph: &Glyph) -> (out: Option<PathBuilder>)
    requires
        band.valid(),
        glyph.valid(),
    ensures
        match out {
            Some(patch) => glyph.cuts() && patch@ == patch_steps(*band, *glyph) && steps_fit(
                patch@,
            ),
            None => !glyph.cuts(),
        },
{
    let b_divot = match glyph.stem {
        StemType::J | StemType::Z => {
            return None;
        },
        StemType::S => false,
        StemType::B => true,
    };
    let out_large_arc = !glyph.is_oversized();
    let inner_path_start_angle = turn_back(&glyph.bearing, &glyph.thi.inner_thi);
    let inner_path_end_angle = turn_on(&glyph.bearing, &glyph.thi.inner_thi);
    let outer_path_start_angle = turn_back(&glyph.bearing, &glyph.thi.inner_edge_thi);
    let outer_path_end_angle = turn_on(&glyph.bearing, &glyph.thi.inner_edge_thi);
    let point_1 = band.calc_word_arc_svg_point(&inner_path_start_angle, RadiusType::Average);
    let point_2 = band.calc_word_arc_svg_point(&outer_path_start_angle, RadiusType::Average);
    let point_3 = band.calc_word_arc_svg_point(&outer_path_end_angle, RadiusType::Average);
    let point_4 = band.calc_word_arc_svg_point(&inner_path_end_angle, RadiusType::Average);
    let mut path_build = PathBuilder::new();
    path_build.move_to(point_1);
    path_build.arc_to(point_2, band.inner, LargeArcFlag(false), SweepDirection(false));
    path_build.arc_to(
        point_3,
        glyph.inner_radius + B_DIVOT_FUDGE / 2,
        LargeArcFlag(b_divot && out_large_arc),
        SweepDirection(true),
    );
    path_build.arc_to(point_4, band.inner, LargeArcFlag(false), SweepDirection(false));
    path_build.arc_to(
        point_1,
        glyph.outer_radius + B_DIVOT_FUDGE,
        LargeArcFlag(b_divot && out_large_arc),
        SweepDirection(false),
    );
    assert(path_build@ =~= patch_steps(*band, *glyph));
    Some(path_build)
}

/// Begins the two paths of a word at `angle`.
pub fn start_path_data(band: &Band, range: &Range, angle: (InnerAngle, OuterAngle)) -> (out: (
    PathBuilder,
    PathBuilder,
))
    requires
        band.valid(),
        range.valid(),
    ensures
        (out.0@, out.1@) == start_paths(*band, *range, (angle.0.0, angle.1.0)),
        steps_fit(out.0@),
        steps_fit(out.1@),
{
    let mut o_data = PathBuilder::new();
    let mut i_data = PathBuilder::new();
    let inner_start_xy = band.calc_word_arc_svg_point(&angle.0.0, RadiusType::Inner);
    let outer_start_xy = band.calc_word_arc_svg_point(&angle.1.0, RadiusType::Outer);
    match range.tip {
        None => {
            i_data.move_to(inner_start_xy);
            o_data.move_to(outer_start_xy);
            assert(i_data@ =~= start_paths(*band, *range, (angle.0.0, angle.1.0)).0);
            assert(o_data@ =~= start_paths(*band, *range, (angle.0.0, angle.1.0)).1);
        },
        Some(tip) => {
            let rad = 2 * band.outer - band.inner;
            let before = range.start.minus(&tip);
            let start_xy = band.calc_word_arc_svg_point(&before, RadiusType::Outer);
            o_data.move_to(start_xy);
            i_data.move_to(start_xy);
            o_data.arc_to(
                outer_start_xy,
                band.outer,
                LargeArcFlag(tip.rad() > PI),
                SweepDirection(false),
            );
            i_data.arc_to(inner_start_xy, rad, LargeArcFlag(tip.rad() > PI), SweepDirection(false));
            assert(i_data@ =~= start_paths(*band, *range, (angle.0.0, angle.1.0)).0);
            assert(o_data@ =~= start_paths(*band, *range, (angle.0.0, angle.1.0)).1);
        },
    }
    (i_data, o_data)
}

/// Leads the two paths of an arc word to its end tip.
pub fn end_tip_data(band: &Band, range: &Range, data: (PathBuilder, PathBuilder)) -> (out: (
    PathBuilder,
    PathBuilder,
))
    requires
        band.valid(),
        range.valid(),
        steps_fit(data.0@),
        steps_fit(data.1@),
    ensures
        (out.0@, out.1@) == with_end_tip(*band, *range, (data.0@, data.1@)),
        steps_fit(out.0@),
        steps_fit(out.1@),
{
    let (mut i_path, mut o_path) = data;
    match range.tip {
        None => {},
        Some(tip) => {
            let rad = 2 * band.outer - band.inner;
            let behind = range.end.plus(&tip);
            let end_xy = band.calc_word_arc_svg_point(&behind, RadiusType::Outer);
            i_path.arc_to(end_xy, rad, LargeArcFlag(tip.rad() > PI), SweepDirection(false));
            o_path.arc_to(end_xy, band.outer, LargeArcFlag(tip.rad() > PI), SweepDirection(false));
        },
    }
    (i_path, o_path)
}

/// What has been drawn of a band after some of its letters.
pub struct Trace {
    /// The inner and the outer path.
    pub data: (Seq<Step>, Seq<Step>),
    /// Where the last notch ended.
    pub end: (Angle, Angle),
    /// Where the last letter stands.
    pub prev: PordRef,
}

/// Where the band begins: at the start of the word, or where the first
/// letter's notch begins if that is earlier.
pub open spec fn word_start(range: Range, first: Glyph) -> (Angle, Angle) {
    (
        if first.left().0.spec_rad() < range.start.spec_rad() {
            first.left().0
        } else {
            range.start
        },
        if first.left().1.spec_rad() < range.start.spec_rad() {
            first.left().1
        } else {
            range.start
        },
    )
}

/// Where the band ends: at the end of the word, or, where it began early
/// with the first letter's notch, that much beyond the end.
pub open spec fn word_end(range: Range, first: Glyph) -> (Angle, Angle) {
    let begun = word_start(range, first);
    (
        if begun.0.spec_rad() < range.start.spec_rad() {
            Angle::of(begun.0.spec_plus(&range.end))
        } else {
            range.end
        },
        if begun.1.spec_rad() < range.start.spec_rad() {
            Angle::of(begun.1.spec_plus(&range.end))
        } else {
            range.end
        },
    )
}

/// A letter's contribution to the two paths: its notch where it cuts,
/// nothing where it does not; either way the band goes on from its bearing.
pub open spec fn after_letter(band: Band, trace: Trace, glyph: Glyph) -> Trace {
    if glyph.cuts() {
        Trace {
            data: with_letter_arc(band, trace.data, glyph),
            end: glyph.right(),
            prev: glyph.pord,
            ..trace
        }
    } else {
        Trace { end: (glyph.bearing, glyph.bearing), prev: glyph.pord, ..trace }
    }
}

/// The band up to and with its first letter.
pub open spec fn begin(band: Band, range: Range, first: Glyph) -> Trace {
    let begun = word_start(range, first);
    let left = first.left();
    let started = start_paths(band, range, begun);
    let led = if begun.0.spec_rad() < left.0.spec_rad() || begun.1.spec_rad() < left.1.spec_rad() {
        with_word_arc(band, started, begun, left)
    } else {
        started
    };
    after_letter(
        band,
        Trace { data: led, end: begun, prev: first.pord },
        first,
    )
}

/// Whether a letter is stacked on the one before it: it stands at the same
/// position, or at a position anchored there.
pub open spec fn is_stacked(prev: PordRef, glyph: Glyph) -> bool {
    glyph.pord == prev || glyph.anchor == Some(prev)
}

/// The band after one more letter. A stacked letter leaves the two paths
/// alone. Any other letter is first reached by a segment of the band,
/// where its notch begins behind the end of the last one on the inner
/// boundary, and then adds its notch.
pub open spec fn step(band: Band, trace: Trace, glyph: Glyph) -> Trace {
    if is_stacked(trace.prev, glyph) {
        Trace { prev: glyph.pord, ..trace }
    } else {
        let left = glyph.left();
        let led = if left.0.spec_rad() > trace.end.0.spec_rad() {
            with_word_arc(band, trace.data, trace.end, left)
        } else {
            trace.data
        };
        after_letter(band, Trace { data: led, ..trace }, glyph)
    }
}

/// The band after the first `n` of its letters, `n` being at least one.
pub open spec fn trace_upto(band: Band, range: Range, glyphs: Seq<Glyph>, n: int) -> Trace
    decreases n,
{
    if n <= 1 {
        begin(band, range, glyphs[0])
    } else {
        step(band, trace_upto(band, range, glyphs, n - 1), glyphs[n - 1])
    }
}

/// The whole band: all letters, the last segment to the end of the word,
/// and the end tip of an arc word.
pub open spec fn stitched(band: Band, range: Range, glyphs: Seq<Glyph>) -> Trace {
    let trace = trace_upto(band, range, glyphs, glyphs.len() as int);
    Trace {
        data: with_end_tip(
            band,
            range,
            with_word_arc(band, trace.data, trace.end, word_end(range, glyphs[0])),
        ),
        ..trace
    }
}

/// Every letter leaves the letter's position as the last one seen.
pub proof fn lemma_trace_prev(band: Band, range: Range, glyphs: Seq<Glyph>, n: int)
    requires
        1 <= n <= glyphs.len(),
    ensures
        trace_upto(band, range, glyphs, n).prev == glyphs[n - 1].pord,
        trace_upto(band, range, glyphs, n).data.0.len() >= 1,
    decreases n,
{
    if n > 1 {
        lemma_trace_prev(band, range, glyphs, n - 1);
    }
}

/// Whether a letter is stacked on the one that stands at `prev`.
fn stacked_on(prev: PordRef, glyph: &Glyph) -> (out: bool)
    ensures
        out == is_stacked(prev, *glyph),
{
    if glyph.pord.0 == prev.0 {
        true
    } else {
        match glyph.anchor {
            Some(a) => a.0 == prev.0,
            None => false,
        }
    }
}

/// Draws the band of a word whose letters are in order, as its inner and
/// its outer path.
pub fn word_arc_loop(band: &Band, range: &Range, glyphs: &Vec<Glyph>) -> (out: (
    PathBuilder,
    PathBuilder,
))
    requires
        band.valid(),
        range.valid(),
        glyphs@.len() >= 1,
        forall|i: int| 0 <= i < glyphs@.len() ==> (#[trigger] glyphs@[i]).valid(),
    ensures
        (out.0@, out.1@) == stitched(*band, *range, glyphs@).data,
        out.0@.len() >= 1,
        steps_fit(out.0@),
        steps_fit(out.1@),
{
    let letter = &glyphs[0];
    let mut prev_pord = letter.pord;
    let letter_start_angle = letter.left_angle();
    range.start.check();
    range.end.check();
    let i_word_start_angle = if letter_start_angle.0.0.rad() < range.start.rad() {
        letter_start_angle.0
    } else {
        InnerAngle(range.start)
    };
    let o_word_start_angle = if letter_start_angle.1.0.rad() < range.start.rad() {
        letter_start_angle.1
    } else {
        OuterAngle(range.start)
    };
    let mut data = start_path_data(band, range, (i_word_start_angle, o_word_start_angle));
    if i_word_start_angle.0.rad() < letter_start_angle.0.0.rad() || o_word_start_angle.0.rad()
        < letter_start_angle.1.0.rad() {
        let word_start_angle = (i_word_start_angle, o_word_start_angle);
        data = draw_word_arc(band, data, word_start_angle, letter_start_angle);
    }
    let drawn = draw_letter_arc(band, letter, data);
    data = drawn.0;
    let mut end_angle: (InnerAngle, OuterAngle) = drawn.1;
    let mut n: usize = 1;
    while n < glyphs.len()
        invariant
            band.valid(),
            range.valid(),
            1 <= n <= glyphs@.len(),
            forall|i: int| 0 <= i < glyphs@.len() ==> (#[trigger] glyphs@[i]).valid(),
            (data.0@, data.1@) == trace_upto(*band, *range, glyphs@, n as int).data,
            steps_fit(data.0@),
            steps_fit(data.1@),
            (end_angle.0.0, end_angle.1.0) == trace_upto(*band, *range, glyphs@, n as int).end,
            prev_pord == trace_upto(*band, *range, glyphs@, n as int).prev,
        decreases glyphs@.len() - n,
    {
        let letter = &glyphs[n];
        if stacked_on(prev_pord, letter) {
            prev_pord = letter.pord;
        } else {
            prev_pord = letter.pord;
            let letter_start_angle = letter.left_angle();
            if letter_start_angle.0.0.rad() > end_angle.0.0.rad() {
                data = draw_word_arc(band, data, end_angle, letter_start_angle);
            }
            let drawn = draw_letter_arc(band, letter, data);
            data = drawn.0;
            end_angle = drawn.1;
        }
        n += 1;
    }
    let ending_angle = (
        if i_word_start_angle.0.rad() < range.start.rad() {
            InnerAngle(i_word_start_angle.0.plus(&range.end))
        } else {
            InnerAngle(range.end)
        },
        if o_word_start_angle.0.rad() < range.start.rad() {
            OuterAngle(o_word_start_angle.0.plus(&range.end))
        } else {
            OuterAngle(range.end)
        },
    );
    proof {
        lemma_trace_prev(*band, *range, glyphs@, glyphs@.len() as int);
    }
    data = draw_word_arc(band, data, end_angle, ending_angle);
    data = end_tip_data(band, range, data);
    data
}

/// A filled, closed path without a stroke.
pub open spec fn closed_path_node(d: Seq<PathCommand>, fill: Seq<char>) -> SvgNode {
    path_of(d.push(PathCommand::Close), fill, "none"@, 0)
}

/// The outline of a band: its outer path forwards, then its inner path
/// backwards.
pub open spec fn ring_commands(data: (Seq<Step>, Seq<Step>)) -> Seq<PathCommand> {
    forward_commands(data.1) + reversed_commands(data.0)
}

/// The context a letter is drawn with: its own, or else the word's.
pub open spec fn letter_ctx(word_ctx: Context, letter: LetterArc) -> Context {
    match letter.spec_ctx() {
        Some(c) => c,
        None => word_ctx,
    }
}

/// The circle of a letter that does not cut into the band.
pub open spec fn letter_circle(nodes: Seq<PordOrCord>, word_ctx: Context, letter: LetterArc)
    -> SvgNode {
    let ctx = letter_ctx(word_ctx, letter);
    let at = abs_at(nodes, letter.spec_pord().0 as int, ctx.spec_origin());
    circle_of(
        ctx.spec_colour().spec_fill(),
        ctx.spec_colour().spec_stroke(),
        ctx.spec_stroke().spec_i_stroke() + ctx.spec_stroke().spec_o_stroke(),
        at.0,
        at.1,
        letter.spec_radius(),
    )
}

/// The circles of those of the first `n` letters that do not cut into the band.
pub open spec fn circle_nodes(
    nodes: Seq<PordOrCord>,
    word_ctx: Context,
    letters: Seq<LetterArc>,
    n: int,
) -> Seq<SvgNode>
    decreases n,
{
    if n <= 0 {
        Seq::empty()
    } else {
        let before = circle_nodes(nodes, word_ctx, letters, n - 1);
        match letters[n - 1].spec_stem_type() {
            StemType::J | StemType::Z => before.push(
                letter_circle(nodes, word_ctx, letters[n - 1]),
            ),
            StemType::B | StemType::S => before,
        }
    }
}

/// Where none of the first `n` letters cuts into the band, each of them
/// has its circle, in the order of the letters.
pub proof fn lemma_circle_nodes_all(
    nodes: Seq<PordOrCord>,
    word_ctx: Context,
    letters: Seq<LetterArc>,
    n: int,
)
    requires
        0 <= n <= letters.len(),
        forall|i: int|
            0 <= i < n ==> !((#[trigger] letters[i]).spec_stem_type() == StemType::B
                || letters[i].spec_stem_type() == StemType::S),
    ensures
        circle_nodes(nodes, word_ctx, letters, n).len() == n,
        forall|i: int|
            0 <= i < n ==> #[trigger] circle_nodes(nodes, word_ctx, letters, n)[i]
                == letter_circle(nodes, word_ctx, letters[i]),
    decreases n,
{
    if n > 0 {
        lemma_circle_nodes_all(nodes, word_ctx, letters, n - 1);
        assert(!(letters[n - 1].spec_stem_type() == StemType::B || letters[n - 1].spec_stem_type()
            == StemType::S));
    }
}

/// The patches of those of the first `n` letters that cut into the band
/// and are stacked on the letter before them, filled with `fill`.
pub open spec fn patch_nodes(band: Band, glyphs: Seq<Glyph>, fill: Seq<char>, n: int) -> Seq<
    SvgNode,
>
    decreases n,
{
    if n <= 1 {
        Seq::empty()
    } else {
        let before = patch_nodes(band, glyphs, fill, n - 1);
        if is_stacked(glyphs[n - 2].pord, glyphs[n - 1]) && glyphs[n - 1].cuts() {
            before.push(
                closed_path_node(forward_commands(patch_steps(band, glyphs[n - 1])), fill),
            )
        } else {
            before
        }
    }
}

/// What a word with a band adds to a document, its letters being in
/// order: the band as a ring filled with the stroke colour, the inside of
/// the band filled with the background colour, the patches of stacked
/// letters, and on top the circles of the letters that do not cut.
pub open spec fn band_nodes(
    nodes: Seq<PordOrCord>,
    centre: PordRef,
    band: Band,
    range: Range,
    ctx: Context,
    letters: Seq<LetterArc>,
) -> Seq<SvgNode> {
    let glyphs = glyphs_of(nodes, centre, band, ctx, letters);
    let data = stitched(band, range, glyphs).data;
    seq![
        closed_path_node(ring_commands(data), ctx.spec_colour().spec_stroke()),
        closed_path_node(forward_commands(data.0), ctx.spec_colour().spec_bg()),
    ] + patch_nodes(band, glyphs, ctx.spec_colour().spec_stroke(), glyphs.len() as int)
        + circle_nodes(nodes, ctx, letters, letters.len() as int)
}

/// Adds the circle of a letter.
pub fn letter_circle_node(doc: Document, graph: &PordGraph, word_ctx: &Context, letter: &LetterArc)
    -> (out: Document)
    requires
        graph.wf(),
        graph.has(letter.spec_pord()),
    ensures
        doc_nodes(out) == doc_nodes(doc).push(letter_circle(graph@, *word_ctx, *letter)),
        doc_attrs(out) == doc_attrs(doc),
{
    let ctx = match letter.ctx() {
        None => word_ctx,
        Some(con) => con,
    };
    let (x, y) = graph.abs_svg_xy(letter.pord(), ctx.origin());
    doc_add_circle(
        doc,
        ctx.colour().fill(),
        ctx.colour().stroke(),
        ctx.stroke().strokewidth(),
        x,
        y,
        letter.radius(),
    )
}

/// Adds the circles of the letters that do not cut into the band.
pub fn draw_letter_circles(
    doc: Document,
    graph: &PordGraph,
    word_ctx: &Context,
    letters: &Vec<LetterArc>,
) -> (out: Document)
    requires
        graph.wf(),
        letters_placed(graph, letters@),
    ensures
        doc_nodes(out) == doc_nodes(doc) + circle_nodes(
            graph@,
            *word_ctx,
            letters@,
            letters@.len() as int,
        ),
        doc_attrs(out) == doc_attrs(doc),
{
    let ghost start = doc_nodes(doc);
    let ghost attrs = doc_attrs(doc);
    let mut doc = doc;
    let mut i: usize = 0;
    assert(start + circle_nodes(graph@, *word_ctx, letters@, 0) =~= start);
    while i < letters.len()
        invariant
            graph.wf(),
            letters_placed(graph, letters@),
            i <= letters@.len(),
            doc_nodes(doc) == start + circle_nodes(graph@, *word_ctx, letters@, i as int),
            doc_attrs(doc) == attrs,
        decreases letters@.len() - i,
    {
        let letter = &letters[i];
        let ghost before = circle_nodes(graph@, *word_ctx, letters@, i as int);
        match letter.stem_type() {
            StemType::J | StemType::Z => {
                doc = letter_circle_node(doc, graph, word_ctx, letter);
                assert(doc_nodes(doc) =~= start + before.push(
                    letter_circle(graph@, *word_ctx, *letter),
                ));
            },
            StemType::B | StemType::S => {},
        }
        i += 1;
    }
    doc
}

/// Adds the band of a word: the ring between its two paths, filled with
/// the stroke colour, and the inside of its inner path, filled with the
/// background colour.
pub fn end_path_data(doc: Document, ctx: &Context, data: (PathBuilder, PathBuilder)) -> (out:
    Document)
    requires
        data.0@.len() >= 1,
        steps_fit(data.0@),
        steps_fit(data.1@),
    ensures
        doc_nodes(out) == doc_nodes(doc).push(
            closed_path_node(ring_commands((data.0@, data.1@)), ctx.spec_colour().spec_stroke()),
        ).push(closed_path_node(forward_commands(data.0@), ctx.spec_colour().spec_bg())),
        doc_attrs(out) == doc_attrs(doc),
{
    let (i_path, o_path) = data;
    let i_copy = i_path.clone();
    let o_data = o_path.build_data();
    let o_data = i_copy.reverse_and_apphend(o_data);
    let o_data = data_close(o_data);
    let i_data = data_close(i_path.build_data());
    let doc = doc_add_path(doc, o_data, ctx.colour().stroke(), "none", 0);
    doc_add_path(doc, i_data, ctx.colour().bg(), "none", 0)
}

/// Adds the patches of the letters that cut into the band and are stacked
/// on the letter before them.
pub fn draw_patches(doc: Document, band: &Band, glyphs: &Vec<Glyph>, ctx: &Context) -> (out:
    Document)
    requires
        band.valid(),
        forall|i: int| 0 <= i < glyphs@.len() ==> (#[trigger] glyphs@[i]).valid(),
    ensures
        doc_nodes(out) == doc_nodes(doc) + patch_nodes(
            *band,
            glyphs@,
            ctx.spec_colour().spec_stroke(),
            glyphs@.len() as int,
        ),
        doc_attrs(out) == doc_attrs(doc),
{
    let ghost start = doc_nodes(doc);
    let ghost attrs = doc_attrs(doc);
    let ghost fill = ctx.spec_colour().spec_stroke();
    let mut doc = doc;
    assert(start + patch_nodes(*band, glyphs@, fill, 1) =~= start);
    if glyphs.len() < 2 {
        assert(patch_nodes(*band, glyphs@, fill, glyphs@.len() as int) =~= Seq::<SvgNode>::empty());
        assert(start + Seq::<SvgNode>::empty() =~= start);
        return doc;
    }
    let mut n: usize = 1;
    while n < glyphs.len()
        invariant
            band.valid(),
            forall|i: int| 0 <= i < glyphs@.len() ==> (#[trigger] glyphs@[i]).valid(),
            1 <= n <= glyphs@.len(),
            fill == ctx.spec_colour().spec_stroke(),
            doc_nodes(doc) == start + patch_nodes(*band, glyphs@, fill, n as int),
            doc_attrs(doc) == attrs,
        decreases glyphs@.len() - n,
    {
        let letter = &glyphs[n];
        let ghost before = patch_nodes(*band, glyphs@, fill, n as int);
        if stacked_on(glyphs[n - 1].pord, letter) {
            match draw_stacked_letter_arc(band, letter) {
                Some(patch) => {
                    let d = data_close(patch.build_data());
                    doc = doc_add_path(doc, d, ctx.colour().stroke(), "none", 0);
                    assert(doc_nodes(doc) =~= start + before.push(
                        closed_path_node(forward_commands(patch_steps(*band, *letter)), fill),
                    ));
                },
                None => {},
            }
        }
        n += 1;
    }
    doc
}

/// Adds a word with a band, its letters being in order.
pub fn draw_band(
    doc: Document,
    graph: &PordGraph,
    centre: PordRef,
    band: &Band,
    range: &Range,
    ctx: &Context,
    letters: &Vec<LetterArc>,
) -> (out: Document)
    requires
        graph.wf(),
        graph.has(centre),
        letters_placed(graph, letters@),
        band.valid(),
        range.valid(),
        letters@.len() >= 1,
    ensures
        doc_nodes(out) == doc_nodes(doc) + band_nodes(
            graph@,
            centre,
            *band,
            *range,
            *ctx,
            letters@,
        ),
        doc_attrs(out) == doc_attrs(doc),
{
    let ghost start = doc_nodes(doc);
    let glyphs = make_glyphs(graph, centre, band, ctx, letters);
    let data = word_arc_loop(band, range, &glyphs);
    let ghost ring = closed_path_node(
        ring_commands((data.0@, data.1@)),
        ctx.spec_colour().spec_stroke(),
    );
    let ghost mask = closed_path_node(forward_commands(data.0@), ctx.spec_colour().spec_bg());
    let doc = end_path_data(doc, ctx, data);
    let doc = draw_patches(doc, band, &glyphs, ctx);
    let doc = draw_letter_circles(doc, graph, ctx, letters);
    assert(doc_nodes(doc) =~= start + band_nodes(graph@, centre, *band, *range, *ctx, letters@)) by {
        assert(start.push(ring).push(mask) =~= start + seq![ring, mask]);
    }
    doc
}

} // verus!
