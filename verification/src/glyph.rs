//! What the band renderer reads of a letter: the angles of the triangles it
//! forms with the band of its word, by the cosine rule, and where its notch
//! begins and ends.

use vstd::prelude::*;
use crate::angle::{Angle, HALF_PI, PI, TAU};
use crate::band::{Band, MAX_TURN};
use crate::ctx::{Context, StrokeContext, MAX_COORD};
use crate::pord::{
    abs_at,
    dist_sq,
    Cartesian,
    Polar,
    PordGraph,
    PordOrCord,
    PordRef,
    MAX_DIST_SQ,
};
use crate::word::{Bearings, InnerAngle, LetterArc, OuterAngle};
use crate::StemType;

verus! {

/// The numerator of the cosine rule for the angle opposite side `c`.
pub open spec fn cos_rule_top(a_sq: int, b_sq: int, c_sq: int) -> int {
    a_sq + b_sq - c_sq
}

/// Whether a triangle with the given squared sides has an angle opposite
/// side `c`: no squared side is negative, and the numerator of the cosine
/// rule is no larger in magnitude than its denominator,
/// `2 sqrt(a_sq) sqrt(b_sq)`, compared by squares.
pub open spec fn cos_rule_defined(a_sq: int, b_sq: int, c_sq: int) -> bool {
    &&& a_sq >= 0
    &&& b_sq >= 0
    &&& c_sq >= 0
    &&& cos_rule_top(a_sq, b_sq, c_sq) * cos_rule_top(a_sq, b_sq, c_sq) <= 4 * a_sq * b_sq
}

/// The angle opposite side `c` in the triangle with the given squared
/// sides, where there is one. `arccos` is the arccosine of
/// `(a_sq + b_sq - c_sq) / (2 sqrt(a_sq) sqrt(b_sq))` as the caller has
/// evaluated it.
pub fn cos_rule_angle_c(a_dist_sq: i64, b_dist_sq: i64, c_dist_sq: i64, arccos: Angle) -> (out:
    Option<Angle>)
    ensures
        out == if cos_rule_defined(a_dist_sq as int, b_dist_sq as int, c_dist_sq as int) {
            Some(arccos)
        } else {
            None
        },
{
    if a_dist_sq < 0 || b_dist_sq < 0 || c_dist_sq < 0 {
        return None;
    }
    let top: i128 = a_dist_sq as i128 + b_dist_sq as i128 - c_dist_sq as i128;
    let size: u128 = if top < 0 {
        (-top) as u128
    } else {
        top as u128
    };
    let a: u128 = a_dist_sq as u128;
    let b: u128 = b_dist_sq as u128;
    assert(size * size == top * top) by (nonlinear_arith)
        requires
            size == top || size == -top,
    ;
    assert(0 <= size * size <= 0xffff_ffff_ffff_fffe * 0xffff_ffff_ffff_fffe) by (nonlinear_arith)
        requires
            0 <= size <= 0xffff_ffff_ffff_fffe,
    ;
    assert(0 <= a * b <= 0x7fff_ffff_ffff_ffff * 0x7fff_ffff_ffff_ffff) by (nonlinear_arith)
        requires
            0 <= a <= 0x7fff_ffff_ffff_ffff,
            0 <= b <= 0x7fff_ffff_ffff_ffff,
    ;
    assert(4 * a * b == 4 * (a * b)) by (nonlinear_arith);
    let bot_sq: u128 = 4 * (a * b);
    thi_check(size * size, bot_sq, arccos)
}

/// `arccos` where the squared numerator does not exceed the squared denominator.
fn thi_check(top_sq: u128, bot_sq: u128, arccos: Angle) -> (out: Option<Angle>)
    ensures
        out == if top_sq <= bot_sq {
            Some(arccos)
        } else {
            None
        },
{
    if top_sq <= bot_sq {
        Some(arccos)
    } else {
        None
    }
}

/// A triangle with sides `a`, `b`, `c` has an angle opposite `c` exactly
/// when `c` is no longer than `a` and `b` together and no shorter than
/// their difference.
pub proof fn lemma_cos_rule_domain(a: int, b: int, c: int)
    requires
        0 <= a,
        0 <= b,
        0 <= c,
    ensures
        cos_rule_defined(a * a, b * b, c * c) <==> (a + b >= c && a - b <= c && b - a <= c),
{
    let aa = a * a;
    let bb = b * b;
    let cc = c * c;
    let m = a * b;
    let top = aa + bb - cc;
    let p = (a + b) * (a + b) - cc;
    let q = cc - (a - b) * (a - b);
    assert(m * m == aa * bb) by (nonlinear_arith)
        requires
            m == a * b,
            aa == a * a,
            bb == b * b,
    ;
    assert((a + b) * (a + b) == aa + 2 * m + bb) by (nonlinear_arith)
        requires
            m == a * b,
            aa == a * a,
            bb == b * b,
    ;
    assert((a - b) * (a - b) == aa - 2 * m + bb) by (nonlinear_arith)
        requires
            m == a * b,
            aa == a * a,
            bb == b * b,
    ;
    assert(p == top + 2 * m);
    assert(q == 2 * m - top);
    assert(p * q == 4 * (m * m) - top * top) by (nonlinear_arith)
        requires
            p == top + 2 * m,
            q == 2 * m - top,
    ;
    assert(4 * aa * bb == 4 * (aa * bb)) by (nonlinear_arith);
    assert(cos_rule_defined(aa, bb, cc) <==> p * q >= 0);
    assert(p + q == 4 * m);
    assert(0 <= a * b) by (nonlinear_arith)
        requires
            0 <= a,
            0 <= b,
    ;
    // p and q cannot both be negative; their product is non-negative
    // exactly when neither is.
    assert((p >= 0 && q >= 0) ==> p * q >= 0) by (nonlinear_arith);
    assert((p < 0 && q > 0) ==> p * q < 0) by (nonlinear_arith);
    assert((p > 0 && q < 0) ==> p * q < 0) by (nonlinear_arith);
    assert(p >= 0 <==> a + b >= c) by (nonlinear_arith)
        requires
            p == (a + b) * (a + b) - c * c,
            0 <= a,
            0 <= b,
            0 <= c,
    ;
    assert(p * q == 0 ==> (p == 0 || q == 0)) by (nonlinear_arith);
    assert(q >= 0 <==> (a - b <= c && b - a <= c)) by (nonlinear_arith)
        requires
            q == c * c - (a - b) * (a - b),
            0 <= c,
    ;
}

/// The five angles of a letter against its band, each present where its
/// triangle exists.
#[derive(Debug, Clone, Copy, PartialEq, Eq)]
pub struct LetterThi {
    /// Half the angle that the letter's inner edge cuts from the outer boundary.
    pub outer_thi: Option<Angle>,
    /// Half the angle that the letter's outer edge cuts from the inner boundary.
    pub inner_thi: Option<Angle>,
    /// Half the angle that the letter's inner edge cuts from the inner boundary.
    pub inner_edge_thi: Option<Angle>,
    /// Half the angle that the letter's outer edge cuts from the outer boundary.
    pub outer_edge_thi: Option<Angle>,
    /// The angle at the letter's centre towards the inner boundary.
    pub theta: Option<Angle>,
}

/// The squared sides `(a, b, c)` of the `i`-th triangle of a letter: the
/// distance `d` to the word's centre, a boundary radius of the word and an
/// edge radius of the letter.
pub open spec fn thi_sides(
    i: int,
    dist_sq: int,
    band: Band,
    lett_r_i: int,
    lett_r_o: int,
) -> (int, int, int) {
    if i == 0 {
        (dist_sq, band.outer * band.outer, lett_r_i * lett_r_i)
    } else if i == 1 {
        (dist_sq, band.inner * band.inner, lett_r_o * lett_r_o)
    } else if i == 2 {
        (dist_sq, band.inner * band.inner, lett_r_i * lett_r_i)
    } else if i == 3 {
        (dist_sq, band.outer * band.outer, lett_r_o * lett_r_o)
    } else {
        (dist_sq, lett_r_o * lett_r_o, band.inner * band.inner)
    }
}

/// The `i`-th angle of a letter: the arccosine measured for its triangle
/// where the triangle exists.
pub open spec fn thi_at(
    i: int,
    dist_sq: int,
    band: Band,
    lett_r_i: int,
    lett_r_o: int,
    bearings: Bearings,
) -> Option<Angle> {
    let sides = thi_sides(i, dist_sq, band, lett_r_i, lett_r_o);
    if cos_rule_defined(sides.0, sides.1, sides.2) {
        Some(bearings.spec_arccos(i))
    } else {
        None
    }
}

/// The five angles of a letter.
pub open spec fn letter_thi(
    dist_sq: int,
    band: Band,
    lett_r_i: int,
    lett_r_o: int,
    bearings: Bearings,
) -> LetterThi {
    LetterThi {
        outer_thi: thi_at(0, dist_sq, band, lett_r_i, lett_r_o, bearings),
        inner_thi: thi_at(1, dist_sq, band, lett_r_i, lett_r_o, bearings),
        inner_edge_thi: thi_at(2, dist_sq, band, lett_r_i, lett_r_o, bearings),
        outer_edge_thi: thi_at(3, dist_sq, band, lett_r_i, lett_r_o, bearings),
        theta: thi_at(4, dist_sq, band, lett_r_i, lett_r_o, bearings),
    }
}

/// The square of a radius.
fn square(r: i64) -> (out: i64)
    requires
        -2 * MAX_COORD <= r <= 2 * MAX_COORD,
    ensures
        out == r * r,
        0 <= out <= MAX_DIST_SQ,
{
    assert(0 <= r * r <= 0x40_0000 * 0x40_0000) by (nonlinear_arith)
        requires
            -0x40_0000 <= r <= 0x40_0000,
    ;
    r * r
}

/// Whether an angle that may be absent is an arccosine: valid and between
/// nothing and half a turn.
pub open spec fn is_thi(angle: Option<Angle>) -> bool {
    match angle {
        Some(a) => a.valid() && 0 <= a.spec_rad() <= PI,
        None => true,
    }
}

/// The squared sides of the five triangles of a letter whose centre lies
/// `dist_sq` from the centre of the band, squared, and whose edges have
/// the radii given.
pub fn calc_thi_sides(dist_sq: i64, band: &Band, lett_r_i: i64, lett_r_o: i64) -> (out: [(
    i64,
    i64,
    i64,
); 5])
    requires
        band.valid(),
        0 <= dist_sq <= MAX_DIST_SQ,
        -2 * MAX_COORD <= lett_r_i <= 2 * MAX_COORD,
        -2 * MAX_COORD <= lett_r_o <= 2 * MAX_COORD,
    ensures
        forall|i: int|
            0 <= i < 5 ==> {
                &&& ((#[trigger] out@[i]).0 as int, out@[i].1 as int, out@[i].2 as int)
                    == thi_sides(i, dist_sq as int, *band, lett_r_i as int, lett_r_o as int)
                &&& 0 <= out@[i].0 <= MAX_DIST_SQ
                &&& 0 <= out@[i].1 <= MAX_DIST_SQ
                &&& 0 <= out@[i].2 <= MAX_DIST_SQ
            },
{
    let word_r_i_sq = square(band.inner);
    let word_r_o_sq = square(band.outer);
    let lett_r_i_sq = square(lett_r_i);
    let lett_r_o_sq = square(lett_r_o);
    [
        (dist_sq, word_r_o_sq, lett_r_i_sq),
        (dist_sq, word_r_i_sq, lett_r_o_sq),
        (dist_sq, word_r_i_sq, lett_r_i_sq),
        (dist_sq, word_r_o_sq, lett_r_o_sq),
        (dist_sq, lett_r_o_sq, word_r_i_sq),
    ]
}

/// The five angles of a letter whose centre lies `dist_sq` from the
/// centre of the band, squared, and whose edges have the radii given.
pub fn calc_letter_thi(
    dist_sq: i64,
    band: &Band,
    lett_r_i: i64,
    lett_r_o: i64,
    bearings: &Bearings,
) -> (out: LetterThi)
    requires
        band.valid(),
        0 <= dist_sq <= MAX_DIST_SQ,
        -2 * MAX_COORD <= lett_r_i <= 2 * MAX_COORD,
        -2 * MAX_COORD <= lett_r_o <= 2 * MAX_COORD,
    ensures
        out == letter_thi(dist_sq as int, *band, lett_r_i as int, lett_r_o as int, *bearings),
        is_thi(out.outer_thi),
        is_thi(out.inner_thi),
        is_thi(out.inner_edge_thi),
        is_thi(out.outer_edge_thi),
        is_thi(out.theta),
{
    let sides = calc_thi_sides(dist_sq, band, lett_r_i, lett_r_o);
    let thi1 = cos_rule_angle_c(sides[0].0, sides[0].1, sides[0].2, bearings.arccos(0));
    let thi2 = cos_rule_angle_c(sides[1].0, sides[1].1, sides[1].2, bearings.arccos(1));
    let thi3 = cos_rule_angle_c(sides[2].0, sides[2].1, sides[2].2, bearings.arccos(2));
    let thi4 = cos_rule_angle_c(sides[3].0, sides[3].1, sides[3].2, bearings.arccos(3));
    let theta = cos_rule_angle_c(sides[4].0, sides[4].1, sides[4].2, bearings.arccos(4));
    LetterThi {
        outer_thi: thi1,
        inner_thi: thi2,
        inner_edge_thi: thi3,
        outer_edge_thi: thi4,
        theta,
    }
}

/// `angle` turned back by `by`, or left as it is where `by` is absent.
pub open spec fn turned_back(angle: Angle, by: Option<Angle>) -> Angle {
    match by {
        Some(b) => Angle::of(angle.spec_minus(&b)),
        None => angle,
    }
}

/// `angle` turned on by `by`, or left as it is where `by` is absent.
pub open spec fn turned_on(angle: Angle, by: Option<Angle>) -> Angle {
    match by {
        Some(b) => Angle::of(angle.spec_plus(&b)),
        None => angle,
    }
}

/// Whether an angle is valid and lies within `limit` of no turn.
pub open spec fn within(angle: Angle, limit: int) -> bool {
    angle.valid() && -limit <= angle.spec_rad() <= limit
}

/// `angle` turned back by `by`.
pub(crate) fn turn_back(angle: &Angle, by: &Option<Angle>) -> (out: Angle)
    requires
        within(*angle, 4 * MAX_TURN),
        is_thi(*by),
    ensures
        out == turned_back(*angle, *by),
        out.valid(),
        angle.spec_rad() - PI <= out.spec_rad() <= angle.spec_rad(),
{
    match by {
        Some(b) => {
            let out = angle.minus(b);
            out.check();
            out
        },
        None => *angle,
    }
}

/// `angle` turned on by `by`.
pub(crate) fn turn_on(angle: &Angle, by: &Option<Angle>) -> (out: Angle)
    requires
        within(*angle, 4 * MAX_TURN),
        is_thi(*by),
    ensures
        out == turned_on(*angle, *by),
        out.valid(),
        angle.spec_rad() <= out.spec_rad() <= angle.spec_rad() + PI,
{
    match by {
        Some(b) => {
            let out = angle.plus(b);
            out.check();
            out
        },
        None => *angle,
    }
}

/// What the band renderer reads of a letter.
#[derive(Debug, Clone, Copy, PartialEq, Eq)]
pub struct Glyph {
    /// Where the letter stands.
    pub pord: PordRef,
    /// The anchor of that position, where it is polar and anchored.
    pub anchor: Option<PordRef>,
    pub stem: StemType,
    /// The bearing of the letter from the centre of the band.
    pub bearing: Angle,
    /// The radius of the letter's inner edge.
    pub inner_radius: i64,
    /// The radius of the letter's outer edge.
    pub outer_radius: i64,
    pub thi: LetterThi,
}

impl Glyph {
    /// Whether the numbers of the glyph are where the renderer expects them.
    pub open spec fn valid(&self) -> bool {
        &&& self.bearing.valid()
        &&& 0 <= self.bearing.spec_rad() < TAU
        &&& -2 * MAX_COORD <= self.inner_radius <= 2 * MAX_COORD
        &&& -2 * MAX_COORD <= self.outer_radius <= 2 * MAX_COORD
        &&& is_thi(self.thi.outer_thi)
        &&& is_thi(self.thi.inner_thi)
        &&& is_thi(self.thi.inner_edge_thi)
        &&& is_thi(self.thi.outer_edge_thi)
        &&& is_thi(self.thi.theta)
    }

    /// Whether the letter cuts into the band: stems B and S do, J and Z do not.
    pub open spec fn cuts(&self) -> bool {
        self.stem == StemType::B || self.stem == StemType::S
    }

    /// Half the notch on the inner boundary; nothing for a letter that does
    /// not cut or does not reach that boundary.
    pub open spec fn inner_half(&self) -> Option<Angle> {
        if self.cuts() {
            self.thi.inner_thi
        } else {
            None
        }
    }

    /// Half the notch on the outer boundary; nothing for a letter that does
    /// not cut or does not reach that boundary.
    pub open spec fn outer_half(&self) -> Option<Angle> {
        if self.cuts() {
            self.thi.outer_thi
        } else {
            None
        }
    }

    /// Where the notch begins, on the inner and on the outer boundary.
    pub open spec fn left(&self) -> (Angle, Angle) {
        (
            turned_back(self.bearing, self.inner_half()),
            turned_back(self.bearing, self.outer_half()),
        )
    }

    /// Where the notch ends, on the inner and on the outer boundary.
    pub open spec fn right(&self) -> (Angle, Angle) {
        (turned_on(self.bearing, self.inner_half()), turned_on(self.bearing, self.outer_half()))
    }

    /// Whether a cutting letter is so large that its arc on the inner
    /// boundary is the small one: the angle at its centre is defined and
    /// less than a quarter turn.
    pub open spec fn oversized(&self) -> bool {
        match self.thi.theta {
            Some(theta) => theta.spec_rad() < HALF_PI,
            None => false,
        }
    }

    pub(crate) fn does_cut(&self) -> (out: bool)
        ensures
            out == self.cuts(),
    {
        match self.stem {
            StemType::B | StemType::S => true,
            StemType::J | StemType::Z => false,
        }
    }

    pub(crate) fn is_oversized(&self) -> (out: bool)
        ensures
            out == self.oversized(),
    {
        match self.thi.theta {
            Some(theta) => theta.rad() < HALF_PI,
            None => false,
        }
    }

    /// Where the notch begins, on the inner and on the outer boundary.
    pub fn left_angle(&self) -> (out: (InnerAngle, OuterAngle))
        requires
            self.valid(),
        ensures
            (out.0.0, out.1.0) == self.left(),
            within(out.0.0, 2 * TAU),
            within(out.1.0, 2 * TAU),
    {
        if self.does_cut() {
            (
                InnerAngle(turn_back(&self.bearing, &self.thi.inner_thi)),
                OuterAngle(turn_back(&self.bearing, &self.thi.outer_thi)),
            )
        } else {
            (InnerAngle(self.bearing), OuterAngle(self.bearing))
        }
    }

    /// Where the notch ends, on the inner and on the outer boundary.
    pub fn right_angle(&self) -> (out: (InnerAngle, OuterAngle))
        requires
            self.valid(),
        ensures
            (out.0.0, out.1.0) == self.right(),
            within(out.0.0, 2 * TAU),
            within(out.1.0, 2 * TAU),
    {
        if self.does_cut() {
            (
                InnerAngle(turn_on(&self.bearing, &self.thi.inner_thi)),
                OuterAngle(turn_on(&self.bearing, &self.thi.outer_thi)),
            )
        } else {
            (InnerAngle(self.bearing), OuterAngle(self.bearing))
        }
    }
}

/// The stroke a letter is drawn with: its own, or else the word's.
pub open spec fn letter_stroke(word_ctx: Context, letter: LetterArc) -> StrokeContext {
    match letter.spec_ctx() {
        Some(c) => c.spec_stroke(),
        None => word_ctx.spec_stroke(),
    }
}

/// The radii of a letter's inner and outer edge.
pub open spec fn letter_radii(word_ctx: Context, letter: LetterArc) -> (int, int) {
    (
        letter.spec_radius() - letter_stroke(word_ctx, letter).spec_i_stroke(),
        letter.spec_radius() + letter_stroke(word_ctx, letter).spec_o_stroke(),
    )
}

/// What the band renderer reads of a letter of the word about `centre`.
pub open spec fn glyph_of(
    nodes: Seq<PordOrCord>,
    centre: PordRef,
    band: Band,
    word_ctx: Context,
    letter: LetterArc,
) -> Glyph {
    let radii = letter_radii(word_ctx, letter);
    let dist = dist_sq(
        abs_at(nodes, centre.0 as int, (0, 0)),
        abs_at(nodes, letter.spec_pord().0 as int, (0, 0)),
    );
    Glyph {
        pord: letter.spec_pord(),
        anchor: match nodes[letter.spec_pord().0 as int] {
            PordOrCord::Pord(p) => p.spec_anchor(),
            _ => None,
        },
        stem: letter.spec_stem_type(),
        bearing: letter.spec_bearing(),
        inner_radius: radii.0 as i64,
        outer_radius: radii.1 as i64,
        thi: letter_thi(dist, band, radii.0, radii.1, letter.spec_bearings()),
    }
}

/// What the band renderer reads of each letter.
pub open spec fn glyphs_of(
    nodes: Seq<PordOrCord>,
    centre: PordRef,
    band: Band,
    word_ctx: Context,
    letters: Seq<LetterArc>,
) -> Seq<Glyph> {
    Seq::new(letters.len(), |i: int| glyph_of(nodes, centre, band, word_ctx, letters[i]))
}

/// Whether every letter stands at a position of the graph.
pub open spec fn letters_placed(graph: &PordGraph, letters: Seq<LetterArc>) -> bool {
    forall|i: int| 0 <= i < letters.len() ==> graph.has((#[trigger] letters[i]).spec_pord())
}

/// The radii of a letter's inner and outer edge.
pub fn get_letter_radii(word_ctx: &Context, letter: &LetterArc) -> (out: (i64, i64))
    ensures
        (out.0 as int, out.1 as int) == letter_radii(*word_ctx, *letter),
        -2 * MAX_COORD <= out.0 <= 2 * MAX_COORD,
        -2 * MAX_COORD <= out.1 <= 2 * MAX_COORD,
{
    let stroke = match letter.ctx() {
        None => *word_ctx.stroke(),
        Some(con) => *con.stroke(),
    };
    (letter.radius() - stroke.i_stroke(), letter.radius() + stroke.o_stroke())
}

/// What there is to measure of a letter before it is added to a word: the
/// canvas offset from the word's centre to the letter, whose arctangent,
/// `x` over `y`, is wanted, and the squared sides of its five triangles,
/// of each of which the angle opposite the third side is wanted.
#[derive(Debug, Clone, Copy, PartialEq, Eq)]
pub struct Sighting {
    pub offset: (i64, i64),
    pub sides: [(i64, i64, i64); 5],
}

/// What there is to measure of a letter of the given radius that stands at
/// `pord` and is drawn with `ctx`, or else with the word's context.
pub fn sight_letter(
    graph: &PordGraph,
    centre: PordRef,
    band: &Band,
    word_ctx: &Context,
    pord: PordRef,
    radius: i64,
    ctx: &Option<Context>,
) -> (out: Sighting)
    requires
        graph.wf(),
        graph.has(centre),
        graph.has(pord),
        band.valid(),
        -MAX_COORD <= radius <= MAX_COORD,
    ensures
        out.offset.0 == graph.spec_abs(pord, (0, 0)).0 - graph.spec_abs(centre, (0, 0)).0,
        out.offset.1 == graph.spec_abs(pord, (0, 0)).1 - graph.spec_abs(centre, (0, 0)).1,
        forall|i: int|
            0 <= i < 5 ==> (
                (#[trigger] out.sides@[i]).0 as int,
                out.sides@[i].1 as int,
                out.sides@[i].2 as int,
            ) == thi_sides(
                i,
                graph.spec_dist_to_sq(centre, pord),
                *band,
                radius - match *ctx {
                    Some(c) => c.spec_stroke().spec_i_stroke(),
                    None => word_ctx.spec_stroke().spec_i_stroke(),
                },
                radius + match *ctx {
                    Some(c) => c.spec_stroke().spec_o_stroke(),
                    None => word_ctx.spec_stroke().spec_o_stroke(),
                },
            ),
{
    let stroke = match ctx {
        None => *word_ctx.stroke(),
        Some(con) => *con.stroke(),
    };
    let offset = graph.svg_xy_to(centre, pord);
    let dist_sq = graph.dist_to_sq(centre, pord);
    let lett_r_i = radius - stroke.i_stroke();
    let lett_r_o = radius + stroke.o_stroke();
    let sides = calc_thi_sides(dist_sq, band, lett_r_i, lett_r_o);
    Sighting { offset, sides }
}

/// What the band renderer reads of a letter.
pub fn make_glyph(
    graph: &PordGraph,
    centre: PordRef,
    band: &Band,
    word_ctx: &Context,
    letter: &LetterArc,
) -> (out: Glyph)
    requires
        graph.wf(),
        graph.has(centre),
        graph.has(letter.spec_pord()),
        band.valid(),
    ensures
        out == glyph_of(graph@, centre, *band, *word_ctx, *letter),
        out.valid(),
{
    let (lett_r_i, lett_r_o) = get_letter_radii(word_ctx, letter);
    let dist_sq = graph.dist_to_sq(centre, letter.pord());
    let bearings = letter.bearings();
    Glyph {
        pord: letter.pord(),
        anchor: graph.get(letter.pord()).get_anchor(),
        stem: letter.stem_type(),
        bearing: letter.bearing(),
        inner_radius: lett_r_i,
        outer_radius: lett_r_o,
        thi: calc_letter_thi(dist_sq, band, lett_r_i, lett_r_o, &bearings),
    }
}

/// What the band renderer reads of each letter.
pub fn make_glyphs(
    graph: &PordGraph,
    centre: PordRef,
    band: &Band,
    word_ctx: &Context,
    letters: &Vec<LetterArc>,
) -> (out: Vec<Glyph>)
    requires
        graph.wf(),
        graph.has(centre),
        letters_placed(graph, letters@),
        band.valid(),
    ensures
        out@ == glyphs_of(graph@, centre, *band, *word_ctx, letters@),
        forall|i: int| 0 <= i < out@.len() ==> (#[trigger] out@[i]).valid(),
{
    let mut out: Vec<Glyph> = Vec::new();
    let mut i: usize = 0;
    while i < letters.len()
        invariant
            graph.wf(),
            graph.has(centre),
            letters_placed(graph, letters@),
            band.valid(),
            i <= letters@.len(),
            out@.len() == i,
            forall|j: int|
                0 <= j < i ==> #[trigger] out@[j] == glyph_of(
                    graph@,
                    centre,
                    *band,
                    *word_ctx,
                    letters@[j],
                ),
            forall|j: int| 0 <= j < i ==> (#[trigger] out@[j]).valid(),
        decreases letters@.len() - i,
    {
        out.push(make_glyph(graph, centre, band, word_ctx, &letters[i]));
        i += 1;
    }
    assert(out@ =~= glyphs_of(graph@, centre, *band, *word_ctx, letters@));
    out
}

} // verus!
