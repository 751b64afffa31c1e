//! Words: a band about an anchor that carries letters.
//!
//! A letter is described by where it stands, how large it is and how its
//! stem meets the band. Its bearing from the word's centre and the angles
//! of the triangles it forms with the band are measured by the caller, who
//! evaluates the inverse trigonometric functions, and travel with the
//! letter as its [`Bearings`].

use vstd::prelude::*;
use svg::Document;
use crate::angle::{Angle, PI, TAU, TRIG_ONE};
use crate::band::{
    band_nodes,
    band_of,
    circle_nodes,
    draw_band,
    draw_letter_circles,
    lemma_circle_nodes_all,
    letter_circle,
    make_band,
    Range,
    MAX_TURN,
};
use crate::ctx::{Context, MAX_COORD};
use crate::glyph::{calc_thi_sides, letters_placed, sight_letter, thi_sides, Sighting};
use crate::nodes::{circle_of, doc_add_circle};
use crate::order::{arrange, arranged, lemma_insert_cutting};
use crate::pord::{
    abs_at,
    dist_sq,
    dist_sq_of,
    lemma_abs_push,
    Cartesian,
    POrd,
    PordGraph,
    PordOrCord,
    PordRef,
};
use crate::svgdoc::{doc_attrs, doc_nodes, SvgNode};
use crate::utils::{ang_at, generate_pord_vector};
use crate::StemType;

verus! {

/// Letters are ordered by their bearing in units of `1 / SORT_PRECISION` radians.
pub const SORT_PRECISION: i64 = 1000;

/// An angle on the inner boundary of a band.
#[derive(Debug, Clone, Copy, PartialEq, Eq)]
pub struct InnerAngle(pub Angle);

/// An angle on the outer boundary of a band.
#[derive(Debug, Clone, Copy, PartialEq, Eq)]
pub struct OuterAngle(pub Angle);

impl From<Angle> for InnerAngle {
    fn from(value: Angle) -> (out: Self) {
        InnerAngle(value)
    }
}

impl vstd::std_specs::convert::FromSpecImpl<Angle> for InnerAngle {
    open spec fn obeys_from_spec() -> bool {
        true
    }

    open spec fn from_spec(value: Angle) -> Self {
        InnerAngle(value)
    }
}

impl From<Angle> for OuterAngle {
    fn from(value: Angle) -> (out: Self) {
        OuterAngle(value)
    }
}

impl vstd::std_specs::convert::FromSpecImpl<Angle> for OuterAngle {
    open spec fn obeys_from_spec() -> bool {
        true
    }

    open spec fn from_spec(value: Angle) -> Self {
        OuterAngle(value)
    }
}

/// Why a word could not be drawn.
#[derive(Debug, Clone, Copy, PartialEq, Eq, Structural)]
pub enum WordError {
    /// A letter of an arc word stands before the start of the arc.
    BadAngleTooLow,
    /// A letter of an arc word stands behind the end of the arc.
    BadAngleTooHigh,
    /// The letters could not be brought into order around the band.
    SortFailed,
    /// An arc word has no letters to draw its band by.
    NoLetters,
}

impl WordError {
    /// What went wrong, in words.
    pub fn message(&self) -> (out: &'static str)
        ensures
            out@ == match *self {
                WordError::BadAngleTooLow => "bad angle: too low"@,
                WordError::BadAngleTooHigh => "bad angle: too high"@,
                WordError::SortFailed => "sorting failed, continuously looping"@,
                WordError::NoLetters => "no letters in word arc"@,
            },
    {
        match self {
            WordError::BadAngleTooLow => "bad angle: too low",
            WordError::BadAngleTooHigh => "bad angle: too high",
            WordError::SortFailed => "sorting failed, continuously looping",
            WordError::NoLetters => "no letters in word arc",
        }
    }
}

/// What the caller has measured of a letter in its word: the arctangent of
/// the canvas offset from the word's centre to the letter, and the
/// arccosine that belongs to each of the five cosine-rule triangles of the
/// letter (see [`thi_sides`]).
#[derive(Debug, Clone, Copy, PartialEq, Eq)]
pub struct Bearings {
    arctan: Angle,
    arccos: [Angle; 5],
}

impl Bearings {
    #[verifier::type_invariant]
    closed spec fn inv(self) -> bool {
        &&& -PI <= self.arctan.spec_rad() <= PI
        &&& forall|i: int| 0 <= i < 5 ==> 0 <= (#[trigger] self.arccos@[i]).spec_rad() <= PI
    }

    pub closed spec fn spec_arctan(&self) -> Angle {
        self.arctan
    }

    /// The arccosine measured for the `i`-th triangle.
    pub closed spec fn spec_arccos(&self, i: int) -> Angle {
        self.arccos@[i]
    }

    /// Whether the given angles can be the measurements of a letter.
    pub open spec fn fits(arctan: Angle, arccos: [Angle; 5]) -> bool {
        &&& -PI <= arctan.spec_rad() <= PI
        &&& forall|i: int| 0 <= i < 5 ==> 0 <= (#[trigger] arccos@[i]).spec_rad() <= PI
    }

    /// The clockwise bearing that the arctangent stands for, in
    /// `[0, TAU)`: a negative arctangent is moved a full turn on.
    pub open spec fn spec_bearing(&self) -> Angle {
        let arctan = self.spec_arctan();
        if arctan.spec_rad() < 0 {
            Angle::of((arctan.spec_rad() + TAU, arctan.spec_sin(), arctan.spec_cos()))
        } else {
            arctan
        }
    }

    pub fn new(arctan: Angle, arccos: [Angle; 5]) -> (out: Bearings)
        requires
            Bearings::fits(arctan, arccos),
        ensures
            out.spec_arctan() == arctan,
            forall|i: int| 0 <= i < 5 ==> out.spec_arccos(i) == arccos@[i],
    {
        Bearings { arctan, arccos }
    }

    pub fn arctan(&self) -> (out: Angle)
        ensures
            out == self.spec_arctan(),
            -PI <= out.spec_rad() <= PI,
            out.valid(),
    {
        proof {
            use_type_invariant(self);
        }
        self.arctan.check();
        self.arctan
    }

    pub fn arccos(&self, i: usize) -> (out: Angle)
        requires
            i < 5,
        ensures
            out == self.spec_arccos(i as int),
            0 <= out.spec_rad() <= PI,
            out.valid(),
    {
        proof {
            use_type_invariant(self);
        }
        let a = self.arccos[i];
        a.check();
        a
    }
}

/// A letter of a word: where it stands, how large it is, how its stem meets
/// the band, the context it is drawn with where that is not the word's, and
/// what was measured of it.
#[derive(Debug)]
pub struct LetterArc {
    pord: PordRef,
    radius: i64,
    stem_type: StemType,
    ctx: Option<Context>,
    bearings: Bearings,
}

impl LetterArc {
    #[verifier::type_invariant]
    closed spec fn inv(self) -> bool {
        -MAX_COORD <= self.radius <= MAX_COORD
    }

    pub closed spec fn spec_radius(&self) -> int {
        self.radius as int
    }

    pub closed spec fn spec_stem_type(&self) -> StemType {
        self.stem_type
    }

    pub closed spec fn spec_ctx(&self) -> Option<Context> {
        self.ctx
    }

    pub closed spec fn spec_bearings(&self) -> Bearings {
        self.bearings
    }

    /// The letter made of the given parts.
    pub closed spec fn spec_new(
        pord: PordRef,
        radius: i64,
        stem_type: StemType,
        ctx: Option<Context>,
        bearings: Bearings,
    ) -> LetterArc {
        LetterArc { pord, radius, stem_type, ctx, bearings }
    }

    /// A letter made by `spec_new` has the parts it was made of.
    pub proof fn lemma_spec_new(
        pord: PordRef,
        radius: i64,
        stem_type: StemType,
        ctx: Option<Context>,
        bearings: Bearings,
    )
        ensures
            ({
                let out = LetterArc::spec_new(pord, radius, stem_type, ctx, bearings);
                &&& out.spec_pord() == pord
                &&& out.spec_radius() == radius
                &&& out.spec_stem_type() == stem_type
                &&& out.spec_ctx() == ctx
                &&& out.spec_bearings() == bearings
            }),
    {
    }

    pub fn new(
        pord: PordRef,
        radius: i64,
        stem_type: StemType,
        ctx: Option<Context>,
        bearings: Bearings,
    ) -> (out: LetterArc)
        requires
            -MAX_COORD <= radius <= MAX_COORD,
        ensures
            out == LetterArc::spec_new(pord, radius, stem_type, ctx, bearings),
            out.spec_pord() == pord,
            out.spec_radius() == radius,
            out.spec_stem_type() == stem_type,
            out.spec_ctx() == ctx,
            out.spec_bearings() == bearings,
    {
        LetterArc { pord, radius, stem_type, ctx, bearings }
    }

    pub fn radius(&self) -> (out: i64)
        ensures
            out == self.spec_radius(),
            -MAX_COORD <= out <= MAX_COORD,
    {
        proof {
            use_type_invariant(self);
        }
        self.radius
    }

    pub fn stem_type(&self) -> (out: StemType)
        ensures
            out == self.spec_stem_type(),
    {
        self.stem_type
    }

    pub fn ctx(&self) -> (out: &Option<Context>)
        ensures
            *out == self.spec_ctx(),
    {
        &self.ctx
    }

    pub fn bearings(&self) -> (out: Bearings)
        ensures
            out == self.spec_bearings(),
    {
        self.bearings
    }

    /// The clockwise bearing of the letter from its word's centre, in
    /// `[0, TAU)`, as its measurements give it.
    pub open spec fn spec_bearing(&self) -> Angle {
        self.spec_bearings().spec_bearing()
    }

    /// The clockwise bearing of the letter from its word's centre.
    pub fn bearing(&self) -> (out: Angle)
        ensures
            out == self.spec_bearing(),
            0 <= out.spec_rad() < TAU,
            out.valid(),
    {
        let arctan = self.bearings.arctan();
        let out = arctan.normalised();
        out.check();
        proof {
            out.lemma_of_triple();
        }
        out
    }

    /// The place of the letter in the order of its word: its bearing in
    /// units of `1 / SORT_PRECISION` radians, rounded half up.
    pub open spec fn spec_sort_key(&self) -> int {
        (self.spec_bearing().spec_rad() * SORT_PRECISION + 500_000) / 1_000_000
    }

    /// The place of the letter in the order of its word.
    pub fn sort_key(&self) -> (out: i64)
        ensures
            out == self.spec_sort_key(),
    {
        let rad = self.bearing().rad();
        assert(0 <= rad * SORT_PRECISION <= 6_283_185 * 1000) by (nonlinear_arith)
            requires
                0 <= rad < 6_283_185,
                SORT_PRECISION == 1000,
        ;
        (rad * SORT_PRECISION + 500_000) / 1_000_000
    }
}

impl Cartesian for LetterArc {
    closed spec fn spec_pord(&self) -> PordRef {
        self.pord
    }

    fn pord(&self) -> (out: PordRef) {
        self.pord
    }
}

impl Clone for LetterArc {
    fn clone(&self) -> (out: LetterArc)
        ensures
            out == *self,
    {
        proof {
            use_type_invariant(self);
        }
        let ctx = match &self.ctx {
            Some(c) => Some(c.clone()),
            None => None,
        };
        LetterArc {
            pord: self.pord,
            radius: self.radius,
            stem_type: self.stem_type,
            ctx,
            bearings: self.bearings,
        }
    }
}

/// Whether a stem cuts into the band: B and S do, J and Z do not.
pub open spec fn stem_cuts(stem: StemType) -> bool {
    stem == StemType::B || stem == StemType::S
}

/// Whether one of the letters cuts into the band.
pub open spec fn has_cutting(letters: Seq<LetterArc>) -> bool {
    exists|i: int| 0 <= i < letters.len() && stem_cuts((#[trigger] letters[i]).spec_stem_type())
}

/// Whether letters stay in order when one with the bearing `angle` follows
/// them: they were in order, and the new bearing does not fall short of
/// the last one.
pub open spec fn stays_sorted(sorted: bool, letters: Seq<LetterArc>, angle: Angle) -> bool {
    sorted && !(letters.len() > 0 && angle.spec_rad() < letters.last().spec_bearing().spec_rad())
}

/// How far from the word's centre a letter placed at the distance `r` comes
/// to stand: a letter with stem S is moved out by half the word's stroke.
pub open spec fn letter_dist(r: int, stem_type: StemType, word_ctx: Context) -> int {
    if stem_type == StemType::S {
        r + (word_ctx.spec_stroke().spec_i_stroke() + word_ctx.spec_stroke().spec_o_stroke()) / 2
    } else {
        r
    }
}

/// How far from the word's centre a letter placed at the distance `r` comes
/// to stand.
pub fn place_dist(r: i64, stem_type: StemType, word_ctx: &Context) -> (out: i64)
    requires
        -MAX_COORD <= r <= MAX_COORD,
    ensures
        out == letter_dist(r as int, stem_type, *word_ctx),
{
    match stem_type {
        StemType::S => r + word_ctx.stroke().strokewidth() / 2,
        _ => r,
    }
}

/// Whether a word about `centre` and all its letters stand in `graph`.
pub open spec fn placed(graph: &PordGraph, centre: PordRef, letters: Seq<LetterArc>) -> bool {
    graph.has(centre) && letters_placed(graph, letters)
}

/// The letters of a word as they are drawn, and whether they could be
/// brought into order: as they are held where they count as being in
/// order, arranged where not.
pub open spec fn word_order(
    graph: &PordGraph,
    centre: PordRef,
    radius: int,
    ctx: Context,
    sorted: bool,
    letters: Seq<LetterArc>,
) -> (Seq<LetterArc>, bool) {
    if sorted {
        (letters, true)
    } else {
        arranged(graph@, centre, band_of(graph@, centre, radius, ctx), ctx, letters)
    }
}

/// The squared sides of the `i`-th triangle of a letter of the given
/// radius that stands at index `at` of `nodes`, in the word about `centre`,
/// and is drawn with `ctx`, or else with the word's context.
pub open spec fn sides_in(
    nodes: Seq<PordOrCord>,
    centre: PordRef,
    word_radius: int,
    word_ctx: Context,
    i: int,
    at: int,
    radius: int,
    ctx: Option<Context>,
) -> (int, int, int) {
    let stroke = match ctx {
        Some(c) => c.spec_stroke(),
        None => word_ctx.spec_stroke(),
    };
    thi_sides(
        i,
        dist_sq(abs_at(nodes, centre.0 as int, (0, 0)), abs_at(nodes, at, (0, 0))),
        band_of(nodes, centre, word_radius, word_ctx),
        radius - stroke.spec_i_stroke(),
        radius + stroke.spec_o_stroke(),
    )
}

/// What a sighting of the position at index `at` of `nodes` holds, taken
/// from the word about `centre`: the canvas offset from the centre to the
/// position, and the squared sides of the letter's five triangles.
pub open spec fn sighted(
    out: Sighting,
    nodes: Seq<PordOrCord>,
    centre: PordRef,
    word_radius: int,
    word_ctx: Context,
    at: int,
    radius: int,
    ctx: Option<Context>,
) -> bool {
    &&& out.offset.0 == abs_at(nodes, at, (0, 0)).0 - abs_at(nodes, centre.0 as int, (0, 0)).0
    &&& out.offset.1 == abs_at(nodes, at, (0, 0)).1 - abs_at(nodes, centre.0 as int, (0, 0)).1
    &&& forall|i: int|
        0 <= i < 5 ==> (
            (#[trigger] out.sides@[i]).0 as int,
            out.sides@[i].1 as int,
            out.sides@[i].2 as int,
        ) == sides_in(nodes, centre, word_radius, word_ctx, i, at, radius, ctx)
}

/// Whether the angles are those that part the full turn evenly into `num`.
pub open spec fn angles_part_turn(angles: Seq<Angle>, num: int) -> bool {
    &&& angles.len() == num
    &&& forall|i: int| 0 <= i < num ==> (#[trigger] angles[i]).spec_rad() == ang_at(i, num)
}

/// Whether the positions are those of length `radius` about `pord`, one at
/// each of the angles.
pub open spec fn points_about(points: Seq<POrd>, pord: PordRef, radius: i64, angles: Seq<Angle>)
    -> bool {
    &&& points.len() == angles.len()
    &&& forall|i: int|
        0 <= i < points.len() ==> (#[trigger] points[i]) == POrd::spec_new(
            radius,
            angles[i],
            Some(pord),
        )
}

/// The position of a letter placed at the distance `r` and the turn
/// `theta` from the centre of a word.
pub open spec fn letter_place(
    centre: PordRef,
    word_ctx: Context,
    r: i64,
    theta: Angle,
    stem_type: StemType,
) -> PordOrCord {
    PordOrCord::Pord(
        POrd::spec_new(letter_dist(r as int, stem_type, word_ctx) as i64, theta, Some(centre)),
    )
}

/// A word: a band about an anchor that carries letters.
pub trait Word: Cartesian + Sized {
    /// The radius of the middle of the band.
    spec fn spec_radius(&self) -> int;

    /// The letters, in the order they are held.
    spec fn spec_arcs(&self) -> Seq<LetterArc>;

    /// The context the word is drawn with.
    spec fn spec_ctx(&self) -> Context;

    /// Whether the letters count as being in order.
    spec fn spec_sorted(&self) -> bool;

    /// The part of the turn that the word covers.
    spec fn spec_range(&self) -> Range;

    /// What holds of every word that `new` and `new_letter` have made.
    spec fn wf(&self) -> bool;

    /// Why a letter with the given bearing cannot stand on the word;
    /// nothing where it can.
    spec fn spec_verdict(&self, bearing: Angle) -> Option<WordError>;

    /// Whether this word is `before` with `letter` added behind its letters.
    spec fn extends(&self, before: &Self, letter: LetterArc) -> bool;

    /// Whether this word is `before` but for the order of its letters.
    spec fn rearranges(&self, before: &Self) -> bool;

    /// Why the word cannot be drawn; nothing where it can.
    spec fn spec_draw_verdict(&self, graph: &PordGraph) -> Option<WordError>;

    /// What the word adds to a document.
    spec fn spec_nodes(&self, graph: &PordGraph) -> Seq<SvgNode>;

    fn radius(&self) -> (out: i64)
        requires
            self.wf(),
        ensures
            out == self.spec_radius(),
            -MAX_COORD <= out <= MAX_COORD,
    ;

    fn ctx(&self) -> (out: &Context)
        ensures
            *out == self.spec_ctx(),
    ;

    fn arcs(&self) -> (out: &Vec<LetterArc>)
        ensures
            out@ == self.spec_arcs(),
    ;

    fn sorted(&self) -> (out: bool)
        ensures
            out == self.spec_sorted(),
    ;

    /// Where the band begins.
    fn default_word_start_angle(&self) -> (out: Angle)
        requires
            self.wf(),
        ensures
            out == self.spec_range().start,
    ;

    /// Where the band ends.
    fn default_word_end_angle(&self) -> (out: Angle)
        requires
            self.wf(),
        ensures
            out == self.spec_range().end,
    ;

    /// Why a letter with the given bearing cannot stand on the word.
    fn verdict(&self, bearing: &Angle) -> (out: Option<WordError>)
        requires
            self.wf(),
        ensures
            out == self.spec_verdict(*bearing),
    ;

    /// Adds a letter that stands at `pord`, and names its position. The
    /// letter must be one that can stand on the word: `verdict` tells.
    fn new_letter(
        &mut self,
        pord: PordRef,
        radius: i64,
        stem_type: StemType,
        ctx: Option<Context>,
        bearings: Bearings,
    ) -> (out: PordRef)
        requires
            old(self).wf(),
            -MAX_COORD <= radius <= MAX_COORD,
            old(self).spec_verdict(bearings.spec_bearing()).is_none(),
        ensures
            out == pord,
            final(self).extends(
                old(self),
                LetterArc::spec_new(pord, radius, stem_type, ctx, bearings),
            ),
            final(self).wf(),
            final(self).spec_pord() == old(self).spec_pord(),
            final(self).spec_ctx() == old(self).spec_ctx(),
    ;

    /// Brings the letters into order, unless they count as being in order
    /// already. The letters must be such that the wrap-around fix comes to
    /// rest: `can_sort` tells.
    fn sort_letters(&mut self, graph: &PordGraph)
        requires
            old(self).wf(),
            graph.wf(),
            placed(graph, old(self).spec_pord(), old(self).spec_arcs()),
            word_order(
                graph,
                old(self).spec_pord(),
                old(self).spec_radius(),
                old(self).spec_ctx(),
                old(self).spec_sorted(),
                old(self).spec_arcs(),
            ).1,
        ensures
            final(self).wf(),
            placed(graph, final(self).spec_pord(), final(self).spec_arcs()),
            final(self).rearranges(old(self)),
            final(self).spec_arcs() == word_order(
                graph,
                old(self).spec_pord(),
                old(self).spec_radius(),
                old(self).spec_ctx(),
                old(self).spec_sorted(),
                old(self).spec_arcs(),
            ).0,
            final(self).spec_arcs().len() == old(self).spec_arcs().len(),
            final(self).spec_sorted(),
    ;

    /// Why the word cannot be drawn; nothing where it can.
    fn draw_verdict(&self, graph: &PordGraph) -> (out: Option<WordError>)
        requires
            self.wf(),
            graph.wf(),
            placed(graph, self.spec_pord(), self.spec_arcs()),
        ensures
            out == self.spec_draw_verdict(graph),
    ;

    /// Adds the word to the document. The word must be one that can be
    /// drawn: `draw_verdict` tells.
    fn draw(self, doc: Document, graph: &PordGraph) -> (out: Document)
        requires
            self.wf(),
            graph.wf(),
            placed(graph, self.spec_pord(), self.spec_arcs()),
            self.spec_draw_verdict(graph).is_none(),
        ensures
            doc_nodes(out) == doc_nodes(doc) + self.spec_nodes(graph),
            doc_attrs(out) == doc_attrs(doc),
    ;

    /// Whether the letters can be brought into order: they count as being
    /// in order, or the wrap-around fix of the ordered letters comes to
    /// rest.
    fn can_sort(&self, graph: &PordGraph) -> (out: bool)
        requires
            self.wf(),
            graph.wf(),
            placed(graph, self.spec_pord(), self.spec_arcs()),
        ensures
            out == word_order(
                graph,
                self.spec_pord(),
                self.spec_radius(),
                self.spec_ctx(),
                self.spec_sorted(),
                self.spec_arcs(),
            ).1,
    {
        let arcs = self.arcs();
        if self.sorted() || arcs.len() == 0 {
            return true;
        }
        let mut copy: Vec<LetterArc> = Vec::new();
        let mut i: usize = 0;
        while i < arcs.len()
            invariant
                i <= arcs@.len(),
                copy@ == arcs@.subrange(0, i as int),
            decreases arcs@.len() - i,
        {
            copy.push(arcs[i].clone());
            assert(copy@ =~= arcs@.subrange(0, i + 1));
            i += 1;
        }
        assert(copy@ =~= arcs@);
        let centre = self.pord();
        let band = make_band(graph, centre, self.radius(), self.ctx());
        let (_, settled) = arrange(graph, centre, &band, self.ctx(), copy);
        settled
    }

    fn get_last_letter(&self) -> (out: Option<&LetterArc>)
        ensures
            out == if self.spec_arcs().len() > 0 {
                Some(&self.spec_arcs().last())
            } else {
                None
            },
    {
        let arcs = self.arcs();
        if arcs.len() > 0 {
            Some(&arcs[arcs.len() - 1])
        } else {
            None
        }
    }

    fn get_first_letter(&self) -> (out: Option<&LetterArc>)
        ensures
            out == if self.spec_arcs().len() > 0 {
                Some(&self.spec_arcs()[0])
            } else {
                None
            },
    {
        let arcs = self.arcs();
        if arcs.len() > 0 {
            Some(&arcs[0])
        } else {
            None
        }
    }

    /// The radii of the inner and the outer boundary of the band.
    fn get_radii(&self) -> (out: (i64, i64))
        requires
            self.wf(),
        ensures
            out.0 == self.spec_radius() - self.spec_ctx().spec_stroke().spec_i_stroke(),
            out.1 == self.spec_radius() + self.spec_ctx().spec_stroke().spec_o_stroke(),
    {
        let radius = self.radius();
        let stroke = self.ctx().stroke();
        (radius - stroke.i_stroke(), radius + stroke.o_stroke())
    }

    /// What there is to measure of a letter that stands at `pord`, before
    /// it is added to this word.
    fn sight(&self, graph: &PordGraph, pord: PordRef, radius: i64, ctx: &Option<Context>) -> (out:
        Sighting)
        requires
            self.wf(),
            graph.wf(),
            graph.has(self.spec_pord()),
            graph.has(pord),
            -MAX_COORD <= radius <= MAX_COORD,
        ensures
            sighted(
                out,
                graph@,
                self.spec_pord(),
                self.spec_radius(),
                self.spec_ctx(),
                pord.0 as int,
                radius as int,
                *ctx,
            ),
    {
        let centre = self.pord();
        let band = make_band(graph, centre, self.radius(), self.ctx());
        sight_letter(graph, centre, &band, self.ctx(), pord, radius, ctx)
    }

    /// What there is to measure of a letter whose position `poc` is yet to
    /// be added to the graph: what `sight` finds once it has been added.
    fn sight_place(
        &self,
        graph: &PordGraph,
        poc: &PordOrCord,
        radius: i64,
        ctx: &Option<Context>,
    ) -> (out: Sighting)
        requires
            self.wf(),
            graph.wf(),
            graph.has(self.spec_pord()),
            graph.admits(*poc),
            -MAX_COORD <= radius <= MAX_COORD,
        ensures
            sighted(
                out,
                graph@.push(*poc),
                self.spec_pord(),
                self.spec_radius(),
                self.spec_ctx(),
                graph@.len() as int,
                radius as int,
                *ctx,
            ),
    {
        let centre = self.pord();
        let word_ctx = self.ctx();
        let band = make_band(graph, centre, self.radius(), word_ctx);
        proof {
            lemma_abs_push(graph@, *poc, centre.0 as int, (0, 0));
            lemma_abs_push(graph@, *poc, centre.0 as int, word_ctx.spec_origin());
        }
        let from = graph.abs_svg_xy(centre, (0, 0));
        let to = graph.abs_svg_xy_of(poc, (0, 0));
        let stroke = match ctx {
            None => *word_ctx.stroke(),
            Some(con) => *con.stroke(),
        };
        let lett_r_i = radius - stroke.i_stroke();
        let lett_r_o = radius + stroke.o_stroke();
        let sides = calc_thi_sides(dist_sq_of(from, to), &band, lett_r_i, lett_r_o);
        Sighting { offset: (to.0 - from.0, to.1 - from.1), sides }
    }

    /// Adds a letter at the distance `r` and the turn `theta` from the
    /// word's centre, as a new position of the graph, and names it.
    fn new_letter_from_data(
        &mut self,
        graph: &mut PordGraph,
        r: i64,
        theta: Angle,
        radius: i64,
        stem_type: StemType,
        ctx: Option<Context>,
        bearings: Bearings,
    ) -> (out: PordRef)
        requires
            old(self).wf(),
            old(graph).wf(),
            -MAX_COORD <= r <= MAX_COORD,
            -MAX_COORD <= radius <= MAX_COORD,
            old(graph).admits(
                letter_place(old(self).spec_pord(), old(self).spec_ctx(), r, theta, stem_type),
            ),
            old(self).spec_verdict(bearings.spec_bearing()).is_none(),
        ensures
            final(graph).wf(),
            final(self).wf(),
            out.0 == old(graph)@.len(),
            final(graph)@ == old(graph)@.push(
                letter_place(old(self).spec_pord(), old(self).spec_ctx(), r, theta, stem_type),
            ),
            final(self).extends(
                old(self),
                LetterArc::spec_new(out, radius, stem_type, ctx, bearings),
            ),
    {
        let dist = place_dist(r, stem_type, self.ctx());
        let centre = self.pord();
        let location = graph.add(PordOrCord::Pord(POrd::new(dist, theta, centre)));
        self.new_letter(location, radius, stem_type, ctx, bearings)
    }

    /// Adds a letter that stands at `pord`, and gives `num_of_attach`
    /// positions evenly spaced about it at the distance of its radius;
    /// `angles` are their turns as the caller has evaluated them.
    fn new_letter_from_pordorcord(
        &mut self,
        pord: PordRef,
        radius: i64,
        stem_type: StemType,
        ctx: Option<Context>,
        bearings: Bearings,
        num_of_attach: usize,
        angles: &Vec<Angle>,
    ) -> (out: Vec<POrd>)
        requires
            old(self).wf(),
            -MAX_COORD <= radius <= MAX_COORD,
            angles_part_turn(angles@, num_of_attach as int),
            old(self).spec_verdict(bearings.spec_bearing()).is_none(),
        ensures
            final(self).wf(),
            final(self).extends(
                old(self),
                LetterArc::spec_new(pord, radius, stem_type, ctx, bearings),
            ),
            points_about(out@, pord, radius, angles@),
    {
        self.new_letter(pord, radius, stem_type, ctx, bearings);
        generate_pord_vector(num_of_attach, pord, radius, angles)
    }

    /// Adds the polar position `pord` to the graph and a letter that stands
    /// there, and gives `num_of_attach` positions evenly spaced about it.
    fn new_letter_from_pord(
        &mut self,
        graph: &mut PordGraph,
        pord: POrd,
        radius: i64,
        stem_type: StemType,
        ctx: Option<Context>,
        bearings: Bearings,
        num_of_attach: usize,
        angles: &Vec<Angle>,
    ) -> (out: (PordRef, Vec<POrd>))
        requires
            old(self).wf(),
            old(graph).wf(),
            old(graph).admits(PordOrCord::Pord(pord)),
            -MAX_COORD <= radius <= MAX_COORD,
            angles_part_turn(angles@, num_of_attach as int),
            old(self).spec_verdict(bearings.spec_bearing()).is_none(),
        ensures
            final(graph).wf(),
            final(self).wf(),
            out.0.0 == old(graph)@.len(),
            final(graph)@ == old(graph)@.push(PordOrCord::Pord(pord)),
            final(self).extends(
                old(self),
                LetterArc::spec_new(out.0, radius, stem_type, ctx, bearings),
            ),
            points_about(out.1@, out.0, radius, angles@),
    {
        let loc = graph.add(PordOrCord::Pord(pord));
        let attach = self.new_letter_from_pordorcord(
            loc,
            radius,
            stem_type,
            ctx,
            bearings,
            num_of_attach,
            angles,
        );
        (loc, attach)
    }

    /// Adds a letter at the distance `r` and the turn `theta` from the
    /// word's centre, and gives `num_of_attach` positions evenly spaced
    /// about it at the distance of its radius.
    fn new_letter_with_attach(
        &mut self,
        graph: &mut PordGraph,
        r: i64,
        theta: Angle,
        radius: i64,
        stem_type: StemType,
        ctx: Option<Context>,
        bearings: Bearings,
        num_of_attach: usize,
        angles: &Vec<Angle>,
    ) -> (out: (PordRef, Vec<POrd>))
        requires
            old(self).wf(),
            old(graph).wf(),
            -MAX_COORD <= r <= MAX_COORD,
            -MAX_COORD <= radius <= MAX_COORD,
            old(graph).admits(
                letter_place(old(self).spec_pord(), old(self).spec_ctx(), r, theta, stem_type),
            ),
            angles_part_turn(angles@, num_of_attach as int),
            old(self).spec_verdict(bearings.spec_bearing()).is_none(),
        ensures
            final(graph).wf(),
            final(self).wf(),
            out.0.0 == old(graph)@.len(),
            final(graph)@ == old(graph)@.push(
                letter_place(old(self).spec_pord(), old(self).spec_ctx(), r, theta, stem_type),
            ),
            final(self).extends(
                old(self),
                LetterArc::spec_new(out.0, radius, stem_type, ctx, bearings),
            ),
            points_about(out.1@, out.0, radius, angles@),
    {
        let letter_pord = self.new_letter_from_data(
            graph,
            r,
            theta,
            radius,
            stem_type,
            ctx,
            bearings,
        );
        let result = generate_pord_vector(num_of_attach, letter_pord, radius, angles);
        (letter_pord, result)
    }
}

/// A word whose band runs all the way round.
#[derive(Debug)]
pub struct WordCircle {
    name: String,
    pord: PordRef,
    radius: i64,
    arcs: Vec<LetterArc>,
    default_ctx: Context,
    path_circle: bool,
    sorted: bool,
}

impl WordCircle {
    pub closed spec fn spec_name(&self) -> Seq<char> {
        self.name@
    }

    /// Whether a letter cuts into the band, so that the band must be drawn
    /// as a path.
    pub closed spec fn spec_path_circle(&self) -> bool {
        self.path_circle
    }

    /// A word without letters.
    pub fn new(name: &str, pord: PordRef, radius: i64, ctx: Context) -> (out: WordCircle)
        requires
            -MAX_COORD <= radius <= MAX_COORD,
        ensures
            out.wf(),
            out.spec_name() == name@,
            out.spec_pord() == pord,
            out.spec_radius() == radius,
            out.spec_arcs() == Seq::<LetterArc>::empty(),
            out.spec_ctx() == ctx,
            !out.spec_path_circle(),
            out.spec_sorted(),
    {
        WordCircle {
            name: name.to_string(),
            pord,
            radius,
            arcs: Vec::new(),
            default_ctx: ctx,
            path_circle: false,
            sorted: true,
        }
    }

    pub fn name(&self) -> (out: &str)
        ensures
            out@ == self.spec_name(),
    {
        self.name.as_str()
    }

    /// The plain circle of a word without a band.
    pub open spec fn spec_circle(&self, graph: &PordGraph) -> SvgNode {
        let ctx = self.spec_ctx();
        let at = abs_at(graph@, self.spec_pord().0 as int, ctx.spec_origin());
        circle_of(
            ctx.spec_colour().spec_fill(),
            ctx.spec_colour().spec_stroke(),
            ctx.spec_stroke().spec_i_stroke() + ctx.spec_stroke().spec_o_stroke(),
            at.0,
            at.1,
            self.spec_radius(),
        )
    }

    /// Adds the word as a plain circle with the circles of its letters.
    pub fn draw_circle_only(self, doc: Document, graph: &PordGraph) -> (out: Document)
        requires
            self.wf(),
            graph.wf(),
            placed(graph, self.spec_pord(), self.spec_arcs()),
        ensures
            doc_nodes(out) == doc_nodes(doc) + (seq![self.spec_circle(graph)] + circle_nodes(
                graph@,
                self.spec_ctx(),
                self.spec_arcs(),
                self.spec_arcs().len() as int,
            )),
            doc_attrs(out) == doc_attrs(doc),
    {
        let ghost start = doc_nodes(doc);
        let (word_x, word_y) = graph.abs_svg_xy(self.pord, self.default_ctx.origin());
        let doc = doc_add_circle(
            doc,
            self.default_ctx.colour().fill(),
            self.default_ctx.colour().stroke(),
            self.default_ctx.stroke().strokewidth(),
            word_x,
            word_y,
            self.radius,
        );
        let out = draw_letter_circles(doc, graph, &self.default_ctx, &self.arcs);
        assert(doc_nodes(out) =~= start + (seq![self.spec_circle(graph)] + circle_nodes(
            graph@,
            self.spec_ctx(),
            self.spec_arcs(),
            self.spec_arcs().len() as int,
        )));
        out
    }
}

impl Cartesian for WordCircle {
    closed spec fn spec_pord(&self) -> PordRef {
        self.pord
    }

    fn pord(&self) -> (out: PordRef) {
        self.pord
    }
}

impl Word for WordCircle {
    closed spec fn spec_radius(&self) -> int {
        self.radius as int
    }

    closed spec fn spec_arcs(&self) -> Seq<LetterArc> {
        self.arcs@
    }

    closed spec fn spec_ctx(&self) -> Context {
        self.default_ctx
    }

    closed spec fn spec_sorted(&self) -> bool {
        self.sorted
    }

    /// All of the turn, without tips.
    open spec fn spec_range(&self) -> Range {
        Range {
            start: Angle::of((0int, 0int, TRIG_ONE as int)),
            end: Angle::of((TAU as int, 0int, TRIG_ONE as int)),
            tip: None,
        }
    }

    /// The radius is in range, the word needs a band exactly where one of
    /// its letters cuts, and it has letters where it counts as out of order.
    open spec fn wf(&self) -> bool {
        &&& -MAX_COORD <= self.spec_radius() <= MAX_COORD
        &&& self.spec_path_circle() == has_cutting(self.spec_arcs())
        &&& !self.spec_sorted() ==> self.spec_arcs().len() >= 1
    }

    /// Every letter can stand on a full circle.
    open spec fn spec_verdict(&self, bearing: Angle) -> Option<WordError> {
        None
    }

    open spec fn extends(&self, before: &Self, letter: LetterArc) -> bool {
        &&& self.spec_arcs() == before.spec_arcs().push(letter)
        &&& self.spec_sorted() == stays_sorted(
            before.spec_sorted(),
            before.spec_arcs(),
            letter.spec_bearing(),
        )
        &&& self.spec_path_circle() == (before.spec_path_circle() || stem_cuts(
            letter.spec_stem_type(),
        ))
        &&& self.spec_name() == before.spec_name()
        &&& self.spec_pord() == before.spec_pord()
        &&& self.spec_radius() == before.spec_radius()
        &&& self.spec_ctx() == before.spec_ctx()
    }

    open spec fn rearranges(&self, before: &Self) -> bool {
        &&& self.spec_path_circle() == before.spec_path_circle()
        &&& self.spec_name() == before.spec_name()
        &&& self.spec_pord() == before.spec_pord()
        &&& self.spec_radius() == before.spec_radius()
        &&& self.spec_ctx() == before.spec_ctx()
    }

    /// The word needs a band, and its letters cannot be brought into order.
    open spec fn spec_draw_verdict(&self, graph: &PordGraph) -> Option<WordError> {
        if self.spec_path_circle() && !word_order(
            graph,
            self.spec_pord(),
            self.spec_radius(),
            self.spec_ctx(),
            self.spec_sorted(),
            self.spec_arcs(),
        ).1 {
            Some(WordError::SortFailed)
        } else {
            None
        }
    }

    /// Without a cutting letter: the word's plain circle, then the circles
    /// of its letters. With one: its band, drawn from the letters in their
    /// order.
    open spec fn spec_nodes(&self, graph: &PordGraph) -> Seq<SvgNode> {
        if !self.spec_path_circle() {
            seq![self.spec_circle(graph)] + circle_nodes(
                graph@,
                self.spec_ctx(),
                self.spec_arcs(),
                self.spec_arcs().len() as int,
            )
        } else {
            band_nodes(
                graph@,
                self.spec_pord(),
                band_of(graph@, self.spec_pord(), self.spec_radius(), self.spec_ctx()),
                self.spec_range(),
                self.spec_ctx(),
                word_order(
                graph,
                self.spec_pord(),
                self.spec_radius(),
                self.spec_ctx(),
                self.spec_sorted(),
                self.spec_arcs(),
            ).0,
            )
        }
    }

    fn radius(&self) -> (out: i64) {
        self.radius
    }

    fn ctx(&self) -> (out: &Context) {
        &self.default_ctx
    }

    fn arcs(&self) -> (out: &Vec<LetterArc>) {
        &self.arcs
    }

    fn sorted(&self) -> (out: bool) {
        self.sorted
    }

    fn default_word_start_angle(&self) -> (out: Angle) {
        let out = Angle::zero();
        out.check();
        proof {
            out.lemma_of_triple();
        }
        out
    }

    fn default_word_end_angle(&self) -> (out: Angle) {
        let out = Angle::full();
        out.check();
        proof {
            out.lemma_of_triple();
        }
        out
    }

    fn verdict(&self, bearing: &Angle) -> (out: Option<WordError>) {
        None
    }

    fn new_letter(
        &mut self,
        pord: PordRef,
        radius: i64,
        stem_type: StemType,
        ctx: Option<Context>,
        bearings: Bearings,
    ) -> (out: PordRef) {
        let letter = LetterArc::new(pord, radius, stem_type, ctx, bearings);
        let n = self.arcs.len();
        if n > 0 {
            if self.sorted {
                let angle = letter.bearing();
                let last_angle = self.arcs[n - 1].bearing();
                if angle.rad() < last_angle.rad() {
                    self.sorted = false;
                }
            }
        }
        proof {
            lemma_insert_cutting(self.arcs@, self.arcs@.len() as int, letter);
            assert(self.arcs@.insert(self.arcs@.len() as int, letter) =~= self.arcs@.push(letter));
        }
        self.arcs.push(letter);
        match stem_type {
            StemType::S | StemType::B => {
                self.path_circle = true;
            },
            _ => {},
        }
        pord
    }

    fn sort_letters(&mut self, graph: &PordGraph) {
        if self.sorted {
            return;
        }
        let band = make_band(graph, self.pord, self.radius, &self.default_ctx);
        let mut arcs: Vec<LetterArc> = Vec::new();
        core::mem::swap(&mut self.arcs, &mut arcs);
        let (arcs, _) = arrange(graph, self.pord, &band, &self.default_ctx, arcs);
        self.arcs = arcs;
        self.sorted = true;
    }

    fn draw_verdict(&self, graph: &PordGraph) -> (out: Option<WordError>) {
        if self.path_circle && !self.can_sort(graph) {
            Some(WordError::SortFailed)
        } else {
            None
        }
    }

    fn draw(self, doc: Document, graph: &PordGraph) -> (out: Document) {
        if !self.path_circle {
            self.draw_circle_only(doc, graph)
        } else {
            let mut word = self;
            word.sort_letters(graph);
            proof {
                Angle::lemma_of((0int, 0int, TRIG_ONE as int));
                Angle::lemma_of((TAU as int, 0int, TRIG_ONE as int));
            }
            let band = make_band(graph, word.pord, word.radius, &word.default_ctx);
            let range = Range {
                start: word.default_word_start_angle(),
                end: word.default_word_end_angle(),
                tip: None,
            };
            draw_band(doc, graph, word.pord, &band, &range, &word.default_ctx, &word.arcs)
        }
    }
}

/// A word none of whose letters cuts into the band can be drawn, and is
/// drawn without a path: as its plain circle, followed by one circle for
/// each letter in the order of the letters.
pub proof fn lemma_plain_word(word: WordCircle, graph: &PordGraph)
    requires
        word.wf(),
        !has_cutting(word.spec_arcs()),
    ensures
        word.spec_draw_verdict(graph).is_none(),
        word.spec_nodes(graph).len() == 1 + word.spec_arcs().len(),
        word.spec_nodes(graph)[0] == word.spec_circle(graph),
        forall|i: int|
            0 <= i < word.spec_arcs().len() ==> #[trigger] word.spec_nodes(graph)[1 + i]
                == letter_circle(graph@, word.spec_ctx(), word.spec_arcs()[i]),
{
    let letters = word.spec_arcs();
    assert forall|i: int| 0 <= i < letters.len() implies !((#[trigger] letters[i]).spec_stem_type()
        == StemType::B || letters[i].spec_stem_type() == StemType::S) by {
        assert(!stem_cuts(letters[i].spec_stem_type()));
    }
    lemma_circle_nodes_all(graph@, word.spec_ctx(), letters, letters.len() as int);
}

/// A word whose band covers a part of the turn and tapers at both ends.
#[derive(Debug)]
pub struct WordArc {
    name: String,
    pord: PordRef,
    radius: i64,
    arcs: Vec<LetterArc>,
    default_ctx: Context,
    start_angle: Angle,
    end_angle: Angle,
    arc_tip_length: Angle,
    sorted: bool,
}

impl WordArc {
    pub closed spec fn spec_name(&self) -> Seq<char> {
        self.name@
    }

    /// A word without letters that runs from `start_angle` to `end_angle`.
    pub fn new(
        name: &str,
        pord: PordRef,
        radius: i64,
        start_angle: Angle,
        end_angle: Angle,
        arc_tip_length: Angle,
        ctx: Context,
    ) -> (out: WordArc)
        requires
            -MAX_COORD <= radius <= MAX_COORD,
            -MAX_TURN <= start_angle.spec_rad() <= MAX_TURN,
            -MAX_TURN <= end_angle.spec_rad() <= MAX_TURN,
            -MAX_TURN <= arc_tip_length.spec_rad() <= MAX_TURN,
        ensures
            out.wf(),
            out.spec_name() == name@,
            out.spec_pord() == pord,
            out.spec_radius() == radius,
            out.spec_arcs() == Seq::<LetterArc>::empty(),
            out.spec_ctx() == ctx,
            out.spec_range() == (Range {
                start: start_angle,
                end: end_angle,
                tip: Some(arc_tip_length),
            }),
            out.spec_sorted(),
    {
        start_angle.check();
        end_angle.check();
        arc_tip_length.check();
        WordArc {
            name: name.to_string(),
            pord,
            radius,
            arcs: Vec::new(),
            default_ctx: ctx,
            start_angle,
            end_angle,
            arc_tip_length,
            sorted: true,
        }
    }

    pub fn name(&self) -> (out: &str)
        ensures
            out@ == self.spec_name(),
    {
        self.name.as_str()
    }

    pub fn start_angle(&self) -> (out: Angle)
        ensures
            out == self.spec_range().start,
    {
        self.start_angle
    }

    pub fn end_angle(&self) -> (out: Angle)
        ensures
            out == self.spec_range().end,
    {
        self.end_angle
    }

    pub fn arc_tip_length(&self) -> (out: Angle)
        ensures
            Some(out) == self.spec_range().tip,
    {
        self.arc_tip_length
    }
}

impl Cartesian for WordArc {
    closed spec fn spec_pord(&self) -> PordRef {
        self.pord
    }

    fn pord(&self) -> (out: PordRef) {
        self.pord
    }
}

impl Word for WordArc {
    closed spec fn spec_radius(&self) -> int {
        self.radius as int
    }

    closed spec fn spec_arcs(&self) -> Seq<LetterArc> {
        self.arcs@
    }

    closed spec fn spec_ctx(&self) -> Context {
        self.default_ctx
    }

    closed spec fn spec_sorted(&self) -> bool {
        self.sorted
    }

    /// From the start of the arc to its end, with the length of its tips.
    closed spec fn spec_range(&self) -> Range {
        Range { start: self.start_angle, end: self.end_angle, tip: Some(self.arc_tip_length) }
    }

    /// The radius and the angles are in range, and the word has letters
    /// where it counts as out of order.
    open spec fn wf(&self) -> bool {
        &&& -MAX_COORD <= self.spec_radius() <= MAX_COORD
        &&& self.spec_range().valid()
        &&& self.spec_range().tip.is_some()
        &&& !self.spec_sorted() ==> self.spec_arcs().len() >= 1
    }

    /// A letter cannot stand on the arc where its bearing lies before the
    /// start, or behind the end, by more than the length of a tip.
    open spec fn spec_verdict(&self, bearing: Angle) -> Option<WordError> {
        let range = self.spec_range();
        let tip = range.tip.unwrap().spec_rad();
        if bearing.spec_rad() < range.start.spec_rad() - tip {
            Some(WordError::BadAngleTooLow)
        } else if bearing.spec_rad() > range.end.spec_rad() + tip {
            Some(WordError::BadAngleTooHigh)
        } else {
            None
        }
    }

    open spec fn extends(&self, before: &Self, letter: LetterArc) -> bool {
        &&& self.spec_arcs() == before.spec_arcs().push(letter)
        &&& self.spec_sorted() == stays_sorted(
            before.spec_sorted(),
            before.spec_arcs(),
            letter.spec_bearing(),
        )
        &&& self.spec_name() == before.spec_name()
        &&& self.spec_pord() == before.spec_pord()
        &&& self.spec_radius() == before.spec_radius()
        &&& self.spec_ctx() == before.spec_ctx()
        &&& self.spec_range() == before.spec_range()
    }

    open spec fn rearranges(&self, before: &Self) -> bool {
        &&& self.spec_name() == before.spec_name()
        &&& self.spec_pord() == before.spec_pord()
        &&& self.spec_radius() == before.spec_radius()
        &&& self.spec_ctx() == before.spec_ctx()
        &&& self.spec_range() == before.spec_range()
    }

    /// The word has no letter, or its letters cannot be brought into order.
    open spec fn spec_draw_verdict(&self, graph: &PordGraph) -> Option<WordError> {
        if self.spec_arcs().len() == 0 {
            Some(WordError::NoLetters)
        } else if !word_order(
            graph,
            self.spec_pord(),
            self.spec_radius(),
            self.spec_ctx(),
            self.spec_sorted(),
            self.spec_arcs(),
        ).1 {
            Some(WordError::SortFailed)
        } else {
            None
        }
    }

    /// The band, drawn from the letters in their order.
    open spec fn spec_nodes(&self, graph: &PordGraph) -> Seq<SvgNode> {
        band_nodes(
            graph@,
            self.spec_pord(),
            band_of(graph@, self.spec_pord(), self.spec_radius(), self.spec_ctx()),
            self.spec_range(),
            self.spec_ctx(),
            word_order(
                graph,
                self.spec_pord(),
                self.spec_radius(),
                self.spec_ctx(),
                self.spec_sorted(),
                self.spec_arcs(),
            ).0,
        )
    }

    fn radius(&self) -> (out: i64) {
        self.radius
    }

    fn ctx(&self) -> (out: &Context) {
        &self.default_ctx
    }

    fn arcs(&self) -> (out: &Vec<LetterArc>) {
        &self.arcs
    }

    fn sorted(&self) -> (out: bool) {
        self.sorted
    }

    fn default_word_start_angle(&self) -> (out: Angle) {
        self.start_angle
    }

    fn default_word_end_angle(&self) -> (out: Angle) {
        self.end_angle
    }

    fn verdict(&self, bearing: &Angle) -> (out: Option<WordError>) {
        let angle = bearing.rad();
        if angle < self.start_angle.rad() - self.arc_tip_length.rad() {
            Some(WordError::BadAngleTooLow)
        } else if angle > self.end_angle.rad() + self.arc_tip_length.rad() {
            Some(WordError::BadAngleTooHigh)
        } else {
            None
        }
    }

    fn new_letter(
        &mut self,
        pord: PordRef,
        radius: i64,
        stem_type: StemType,
        ctx: Option<Context>,
        bearings: Bearings,
    ) -> (out: PordRef) {
        let letter = LetterArc::new(pord, radius, stem_type, ctx, bearings);
        let n = self.arcs.len();
        if n > 0 {
            if self.sorted {
                let angle = letter.bearing();
                let last_angle = self.arcs[n - 1].bearing();
                if angle.rad() < last_angle.rad() {
                    self.sorted = false;
                }
            }
        }
        self.arcs.push(letter);
        pord
    }

    fn sort_letters(&mut self, graph: &PordGraph) {
        if self.sorted {
            return;
        }
        let band = make_band(graph, self.pord, self.radius, &self.default_ctx);
        let mut arcs: Vec<LetterArc> = Vec::new();
        core::mem::swap(&mut self.arcs, &mut arcs);
        let (arcs, _) = arrange(graph, self.pord, &band, &self.default_ctx, arcs);
        self.arcs = arcs;
        self.sorted = true;
    }

    fn draw_verdict(&self, graph: &PordGraph) -> (out: Option<WordError>) {
        if self.arcs.len() == 0 {
            Some(WordError::NoLetters)
        } else if !self.can_sort(graph) {
            Some(WordError::SortFailed)
        } else {
            None
        }
    }

    fn draw(self, doc: Document, graph: &PordGraph) -> (out: Document) {
        let mut word = self;
        word.sort_letters(graph);
        let band = make_band(graph, word.pord, word.radius, &word.default_ctx);
        let range = Range {
            start: word.start_angle,
            end: word.end_angle,
            tip: Some(word.arc_tip_length),
        };
        draw_band(doc, graph, word.pord, &band, &range, &word.default_ctx, &word.arcs)
    }
}

} // verus!
