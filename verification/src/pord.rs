//! Anchored positions.
//!
//! A position is canvas-absolute, relative to the script origin, or polar
//! about another position, its anchor. Positions live in a [`PordGraph`];
//! a [`PordRef`] names one of them, and an anchor is such a name, never an
//! owner. Anchors are always older than what they carry, so the anchor
//! relation is a forest.

use vstd::prelude::*;
use crate::angle::{trunc_div, Angle, PI, TAU, TRIG_ONE};
use crate::ctx::MAX_COORD;

verus! {

/// The name of a position in a [`PordGraph`].
#[derive(Debug, Clone, Copy, Hash, PartialEq, Eq, Structural)]
pub struct PordRef(pub usize);

/// A polar position: `r` units from its anchor, at the turn `theta`
/// measured clockwise from canvas-up.
#[derive(Debug, Clone, Copy, PartialEq, Eq)]
pub struct POrd {
    r: i64,
    theta: Angle,
    anchor: Option<PordRef>,
}

/// A position in one of its three shapes.
#[derive(Debug, Clone, Copy, PartialEq, Eq)]
pub enum PordOrCord {
    /// Polar about an anchor.
    Pord(POrd),
    /// Canvas-absolute: `y` grows downward.
    Cord(i64, i64),
    /// Relative to the script origin: `y` grows upward.
    Gord(i64, i64),
}

/// `r` units along a fixed-point direction component, rounded toward zero.
pub open spec fn along(r: int, component: int) -> int {
    trunc_div(r * component, TRIG_ONE as int)
}

/// `r` units along a fixed-point direction component.
pub fn scale_along(r: i64, component: i64) -> (out: i64)
    requires
        -4 * MAX_COORD <= r <= 4 * MAX_COORD,
        -TRIG_ONE <= component <= TRIG_ONE,
    ensures
        out == along(r as int, component as int),
        r >= 0 ==> -r <= out <= r,
        r < 0 ==> r <= out <= -r,
{
    assert(-0x4000_0000 * 1_000_000 <= r * component <= 0x4000_0000 * 1_000_000) by (nonlinear_arith)
        requires
            -0x4000_0000 <= r <= 0x4000_0000,
            -1_000_000 <= component <= 1_000_000,
    ;
    assert(r >= 0 ==> -r * 1_000_000 <= r * component <= r * 1_000_000) by (nonlinear_arith)
        requires
            -1_000_000 <= component <= 1_000_000,
    ;
    assert(r < 0 ==> r * 1_000_000 <= r * component <= -r * 1_000_000) by (nonlinear_arith)
        requires
            -1_000_000 <= component <= 1_000_000,
    ;
    let p: i64 = r * component;
    p / TRIG_ONE
}

/// What is polar: a length, a turn and an anchor.
pub trait Polar {
    /// The length.
    spec fn spec_r(&self) -> int;

    /// The turn.
    spec fn spec_theta(&self) -> Angle;

    /// The anchor, where there is one.
    spec fn spec_anchor(&self) -> Option<PordRef>;

    fn r(&self) -> (out: i64)
        ensures
            out == self.spec_r(),
    ;

    fn theta(&self) -> (out: Angle)
        ensures
            out == self.spec_theta(),
    ;

    fn anchor(&self) -> (out: Option<PordRef>)
        ensures
            out == self.spec_anchor(),
    ;
}

impl Polar for POrd {
    closed spec fn spec_r(&self) -> int {
        self.r as int
    }

    closed spec fn spec_theta(&self) -> Angle {
        self.theta
    }

    closed spec fn spec_anchor(&self) -> Option<PordRef> {
        self.anchor
    }

    fn r(&self) -> (out: i64) {
        self.r
    }

    fn theta(&self) -> (out: Angle) {
        self.theta
    }

    fn anchor(&self) -> (out: Option<PordRef>) {
        self.anchor
    }
}

impl POrd {
    /// The polar position made of the given parts.
    pub closed spec fn spec_new(radius: i64, theta: Angle, anchor: Option<PordRef>) -> POrd {
        POrd { r: radius, theta, anchor }
    }

    /// A position made by `spec_new` has the parts it was made of.
    pub proof fn lemma_spec_new(radius: i64, theta: Angle, anchor: Option<PordRef>)
        ensures
            POrd::spec_new(radius, theta, anchor).spec_r() == radius,
            POrd::spec_new(radius, theta, anchor).spec_theta() == theta,
            POrd::spec_new(radius, theta, anchor).spec_anchor() == anchor,
    {
    }

    /// A polar position about `anchor`.
    pub fn new(radius: i64, theta: Angle, anchor: PordRef) -> (out: POrd)
        ensures
            out == POrd::spec_new(radius, theta, Some(anchor)),
            out.spec_r() == radius,
            out.spec_theta() == theta,
            out.spec_anchor() == Some(anchor),
    {
        POrd { r: radius, theta, anchor: Some(anchor) }
    }

    /// A polar position whose anchor is gone.
    pub fn unanchored(radius: i64, theta: Angle) -> (out: POrd)
        ensures
            out == POrd::spec_new(radius, theta, None),
            out.spec_r() == radius,
            out.spec_theta() == theta,
            out.spec_anchor() == None::<PordRef>,
    {
        POrd { r: radius, theta, anchor: None }
    }

    /// Moves the position `added_dist` further from its anchor.
    pub fn add_dist(&mut self, added_dist: i64)
        requires
            i64::MIN <= old(self).spec_r() + added_dist <= i64::MAX,
        ensures
            final(self).spec_r() == old(self).spec_r() + added_dist,
            final(self).spec_theta() == old(self).spec_theta(),
            final(self).spec_anchor() == old(self).spec_anchor(),
    {
        self.r = self.r + added_dist;
    }

    /// Turns the position to `new_theta`.
    pub fn set_theta(&mut self, new_theta: Angle)
        ensures
            final(self).spec_theta() == new_theta,
            final(self).spec_r() == old(self).spec_r(),
            final(self).spec_anchor() == old(self).spec_anchor(),
    {
        self.theta = new_theta;
    }

    /// The offset from the anchor in script axes: `(r sin, r cos)`.
    pub open spec fn spec_rel_xy(&self) -> (int, int) {
        (
            along(self.spec_r(), self.spec_theta().spec_sin()),
            along(self.spec_r(), self.spec_theta().spec_cos()),
        )
    }

    /// The offset from the anchor in script axes.
    pub fn rel_xy(&self) -> (out: (i64, i64))
        requires
            0 <= self.spec_r() <= 2 * MAX_COORD,
        ensures
            (out.0 as int, out.1 as int) == self.spec_rel_xy(),
            -self.spec_r() <= out.0 <= self.spec_r(),
            -self.spec_r() <= out.1 <= self.spec_r(),
    {
        (scale_along(self.r, self.theta.sin()), scale_along(self.r, self.theta.cos()))
    }

    /// The offset from the anchor in canvas axes: the script offset with `y`
    /// negated.
    pub fn rel_svg_xy(&self) -> (out: (i64, i64))
        requires
            0 <= self.spec_r() <= 2 * MAX_COORD,
        ensures
            (out.0 as int, out.1 as int) == (self.spec_rel_xy().0, -self.spec_rel_xy().1),
            -self.spec_r() <= out.0 <= self.spec_r(),
            -self.spec_r() <= out.1 <= self.spec_r(),
    {
        let (x, y) = self.rel_xy();
        (x, -y)
    }
}

impl Default for POrd {
    /// The polar position of no length and no turn, without an anchor.
    fn default() -> (out: POrd)
        ensures
            out.spec_r() == 0,
            out.spec_theta().triple() == (0int, 0int, TRIG_ONE as int),
            out.spec_anchor() == None::<PordRef>,
    {
        POrd { r: 0, theta: Angle::zero(), anchor: None }
    }
}

/// The larger of the magnitudes of two coordinates.
pub open spec fn span(x: int, y: int) -> int {
    let ax = if x < 0 { -x } else { x };
    let ay = if y < 0 { -y } else { y };
    if ax < ay { ay } else { ax }
}

impl PordOrCord {
    /// The script origin as a canvas position.
    pub fn gal_origin(svg_origin: (i64, i64)) -> (out: PordOrCord)
        ensures
            out == PordOrCord::Cord(svg_origin.0, svg_origin.1),
    {
        PordOrCord::Cord(svg_origin.0, svg_origin.1)
    }

    /// The anchor of a polar position; nothing for the other shapes, or
    /// where the anchor is gone.
    pub fn get_anchor(&self) -> (out: Option<PordRef>)
        ensures
            out == match *self {
                PordOrCord::Pord(p) => p.spec_anchor(),
                _ => None,
            },
    {
        match self {
            PordOrCord::Pord(pord) => pord.anchor,
            _ => None,
        }
    }

    /// The position in script axes, relative to its own origin: the polar
    /// offset, the script coordinates, or the canvas coordinates with `y`
    /// turned upward.
    pub open spec fn spec_rel_xy(&self) -> (int, int) {
        match *self {
            PordOrCord::Pord(p) => p.spec_rel_xy(),
            PordOrCord::Cord(x, y) => (x as int, -y),
            PordOrCord::Gord(x, y) => (x as int, y as int),
        }
    }

    /// Whether the numbers of this position are small enough to draw with.
    pub open spec fn in_range(&self) -> bool {
        match *self {
            PordOrCord::Pord(p) => 0 <= p.spec_r() <= MAX_COORD && p.spec_theta().valid(),
            PordOrCord::Cord(x, y) => span(x as int, y as int) <= MAX_COORD,
            PordOrCord::Gord(x, y) => span(x as int, y as int) <= MAX_COORD,
        }
    }

    /// The position in script axes, relative to its own origin.
    pub fn rel_xy(&self) -> (out: (i64, i64))
        requires
            self.in_range(),
        ensures
            (out.0 as int, out.1 as int) == self.spec_rel_xy(),
            -MAX_COORD <= out.0 <= MAX_COORD,
            -MAX_COORD <= out.1 <= MAX_COORD,
    {
        match self {
            PordOrCord::Pord(pord) => pord.rel_xy(),
            PordOrCord::Cord(x, y) => (*x, -*y),
            PordOrCord::Gord(x, y) => (*x, *y),
        }
    }

    /// The position in canvas axes, relative to its own origin.
    pub fn rel_svg_xy(&self) -> (out: (i64, i64))
        requires
            self.in_range(),
        ensures
            (out.0 as int, out.1 as int) == (self.spec_rel_xy().0, -self.spec_rel_xy().1),
    {
        let (x, y) = self.rel_xy();
        (x, -y)
    }

    /// Whether this is the polar position of the given length, turn and anchor.
    pub open spec fn is_pord_of(&self, r: int, theta: Angle, anchor: Option<PordRef>) -> bool {
        match *self {
            PordOrCord::Pord(q) => q.spec_r() == r && q.spec_theta() == theta && q.spec_anchor()
                == anchor,
            _ => false,
        }
    }

    /// The length of a polar position, open to change; nothing for the
    /// other shapes, which stay as they are.
    pub fn get_r_mut(&mut self) -> (out: Option<&mut i64>)
        ensures
            match *old(self) {
                PordOrCord::Pord(p) => {
                    &&& out.is_some()
                    &&& *out.unwrap() == p.spec_r()
                    &&& final(self).is_pord_of(
                        *final(out.unwrap()) as int,
                        p.spec_theta(),
                        p.spec_anchor(),
                    )
                },
                _ => out.is_none() && *final(self) == *old(self),
            },
    {
        match self {
            PordOrCord::Pord(p) => Some(&mut p.r),
            _ => None,
        }
    }

    /// The turn of a polar position, open to change; nothing for the other
    /// shapes, which stay as they are.
    pub fn get_theta_mut(&mut self) -> (out: Option<&mut Angle>)
        ensures
            match *old(self) {
                PordOrCord::Pord(p) => {
                    &&& out.is_some()
                    &&& *out.unwrap() == p.spec_theta()
                    &&& final(self).is_pord_of(
                        p.spec_r(),
                        *final(out.unwrap()),
                        p.spec_anchor(),
                    )
                },
                _ => out.is_none() && *final(self) == *old(self),
            },
    {
        match self {
            PordOrCord::Pord(p) => Some(&mut p.theta),
            _ => None,
        }
    }
}

impl From<POrd> for PordOrCord {
    fn from(value: POrd) -> (out: Self) {
        PordOrCord::Pord(value)
    }
}

impl vstd::std_specs::convert::FromSpecImpl<POrd> for PordOrCord {
    open spec fn obeys_from_spec() -> bool {
        true
    }

    open spec fn from_spec(value: POrd) -> Self {
        PordOrCord::Pord(value)
    }
}

impl Default for PordOrCord {
    /// The canvas corner.
    fn default() -> (out: PordOrCord)
        ensures
            out == PordOrCord::Cord(0, 0),
    {
        PordOrCord::Cord(0, 0)
    }
}

/// The positions of a scene, oldest first.
#[derive(Debug)]
pub struct PordGraph {
    nodes: Vec<PordOrCord>,
}

/// How far the position at `at` can lie from where its anchor chain starts:
/// the lengths of the polar steps, plus the span of a Cartesian start.
pub open spec fn reach_at(nodes: Seq<PordOrCord>, at: int) -> int
    decreases at,
{
    if 0 <= at < nodes.len() {
        match nodes[at] {
            PordOrCord::Pord(p) => p.spec_r() + match p.spec_anchor() {
                Some(a) => if a.0 < at {
                    reach_at(nodes, a.0 as int)
                } else {
                    0
                },
                None => 0,
            },
            PordOrCord::Cord(x, y) => span(x as int, y as int),
            PordOrCord::Gord(x, y) => span(x as int, y as int),
        }
    } else {
        0
    }
}

/// How far `poc` would reach if it were the next position of `nodes`.
pub open spec fn reach_of(nodes: Seq<PordOrCord>, poc: PordOrCord) -> int {
    match poc {
        PordOrCord::Pord(p) => p.spec_r() + match p.spec_anchor() {
            Some(a) => reach_at(nodes, a.0 as int),
            None => 0,
        },
        PordOrCord::Cord(x, y) => span(x as int, y as int),
        PordOrCord::Gord(x, y) => span(x as int, y as int),
    }
}

/// Where the position at `at` lies on a canvas whose script origin is
/// `origin`. A canvas position is itself; a script position is mirrored
/// about the origin; a polar position is its anchor moved by
/// `(r sin, -r cos)`, the anchor being the origin where it is gone.
pub open spec fn abs_at(nodes: Seq<PordOrCord>, at: int, origin: (int, int)) -> (int, int)
    decreases at,
{
    if 0 <= at < nodes.len() {
        match nodes[at] {
            PordOrCord::Pord(p) => {
                let base = match p.spec_anchor() {
                    Some(a) => if a.0 < at {
                        abs_at(nodes, a.0 as int, origin)
                    } else {
                        origin
                    },
                    None => origin,
                };
                (base.0 + p.spec_rel_xy().0, base.1 - p.spec_rel_xy().1)
            },
            PordOrCord::Cord(x, y) => (x as int, y as int),
            PordOrCord::Gord(x, y) => (origin.0 + x, origin.1 - y),
        }
    } else {
        origin
    }
}

/// Whether `poc` may stand at index `at`: its numbers are in range and its
/// anchor, if it has one, is older than itself.
pub open spec fn fits_at(poc: PordOrCord, at: int) -> bool {
    &&& poc.in_range()
    &&& match poc {
        PordOrCord::Pord(p) => match p.spec_anchor() {
            Some(a) => a.0 < at,
            None => true,
        },
        _ => true,
    }
}

/// Whether the anchor relation of `nodes` is a forest of positions in
/// range, none reaching further than `MAX_COORD`.
pub open spec fn forest(nodes: Seq<PordOrCord>) -> bool {
    forall|i: int|
        0 <= i < nodes.len() ==> fits_at(#[trigger] nodes[i], i) && reach_at(nodes, i)
            <= MAX_COORD
}

/// Adding a position changes the reach of none that was there.
pub proof fn lemma_reach_push(nodes: Seq<PordOrCord>, poc: PordOrCord, at: int)
    requires
        0 <= at < nodes.len(),
    ensures
        reach_at(nodes.push(poc), at) == reach_at(nodes, at),
    decreases at,
{
    assert(nodes.push(poc)[at] == nodes[at]);
    if let PordOrCord::Pord(p) = nodes[at] {
        if let Some(a) = p.spec_anchor() {
            if a.0 < at {
                lemma_reach_push(nodes, poc, a.0 as int);
            }
        }
    }
}

/// Adding a position moves none that was there.
pub proof fn lemma_abs_push(nodes: Seq<PordOrCord>, poc: PordOrCord, at: int, origin: (int, int))
    requires
        0 <= at < nodes.len(),
    ensures
        abs_at(nodes.push(poc), at, origin) == abs_at(nodes, at, origin),
    decreases at,
{
    assert(nodes.push(poc)[at] == nodes[at]);
    if let PordOrCord::Pord(p) = nodes[at] {
        if let Some(a) = p.spec_anchor() {
            if a.0 < at {
                lemma_abs_push(nodes, poc, a.0 as int, origin);
            }
        }
    }
}

/// In a forest no reach is negative.
pub proof fn lemma_reach_nonnegative(nodes: Seq<PordOrCord>, at: int)
    requires
        forest(nodes),
    ensures
        0 <= reach_at(nodes, at),
    decreases at,
{
    if 0 <= at < nodes.len() {
        assert(fits_at(nodes[at], at));
        if let PordOrCord::Pord(p) = nodes[at] {
            if let Some(a) = p.spec_anchor() {
                lemma_reach_nonnegative(nodes, a.0 as int);
            }
        }
    }
}

/// A position lies no further from the canvas corner than the origin does,
/// plus its reach.
pub proof fn lemma_abs_within_reach(nodes: Seq<PordOrCord>, at: int, origin: (int, int))
    requires
        forest(nodes),
        0 <= at < nodes.len(),
    ensures
        span(abs_at(nodes, at, origin).0, abs_at(nodes, at, origin).1) <= span(origin.0, origin.1)
            + reach_at(nodes, at),
    decreases at,
{
    assert(fits_at(nodes[at], at));
    if let PordOrCord::Pord(p) = nodes[at] {
        lemma_along_bound(p.spec_r(), p.spec_theta().spec_sin());
        lemma_along_bound(p.spec_r(), p.spec_theta().spec_cos());
        if let Some(a) = p.spec_anchor() {
            lemma_abs_within_reach(nodes, a.0 as int, origin);
        }
    }
}

/// A step along a direction component is no longer than the step.
pub proof fn lemma_along_bound(r: int, component: int)
    requires
        0 <= r,
        -TRIG_ONE <= component <= TRIG_ONE,
    ensures
        -r <= along(r, component) <= r,
{
    assert(-r * 1_000_000 <= r * component <= r * 1_000_000) by (nonlinear_arith)
        requires
            0 <= r,
            -1_000_000 <= component <= 1_000_000,
    ;
}

impl PordGraph {
    /// The positions, oldest first.
    pub closed spec fn view(&self) -> Seq<PordOrCord> {
        self.nodes@
    }

    /// What holds of every graph that `new` and `add` have made: its anchor
    /// relation is a forest of positions in range.
    pub open spec fn wf(&self) -> bool {
        forest(self@)
    }

    /// Whether `at` names a position of this graph.
    pub open spec fn has(&self, at: PordRef) -> bool {
        at.0 < self@.len()
    }

    /// Whether `poc` may be added: its numbers are in range, its anchor is
    /// in the graph, and it reaches no further than `MAX_COORD`.
    pub open spec fn admits(&self, poc: PordOrCord) -> bool {
        &&& fits_at(poc, self@.len() as int)
        &&& reach_of(self@, poc) <= MAX_COORD
    }

    /// A graph without positions.
    pub fn new() -> (out: PordGraph)
        ensures
            out@ == Seq::<PordOrCord>::empty(),
            out.wf(),
    {
        PordGraph { nodes: Vec::new() }
    }

    pub fn len(&self) -> (out: usize)
        ensures
            out == self@.len(),
    {
        self.nodes.len()
    }

    /// The position named `at`.
    pub fn get(&self, at: PordRef) -> (out: PordOrCord)
        requires
            self.has(at),
        ensures
            out == self@[at.0 as int],
    {
        self.nodes[at.0]
    }

    /// Calls to mind that the position named `at` is in range.
    pub fn recall(&self, at: PordRef)
        requires
            self.wf(),
            self.has(at),
        ensures
            self@[at.0 as int].in_range(),
    {
        assert(fits_at(self@[at.0 as int], at.0 as int));
    }

    /// How far the position named `at` reaches.
    pub fn reach(&self, at: PordRef) -> (out: i64)
        requires
            self.wf(),
            self.has(at),
        ensures
            out == reach_at(self@, at.0 as int),
            0 <= out <= MAX_COORD,
        decreases at.0,
    {
        proof {
            lemma_reach_nonnegative(self@, at.0 as int);
            assert(fits_at(self@[at.0 as int], at.0 as int));
        }
        match self.nodes[at.0] {
            PordOrCord::Pord(p) => {
                let rest: i64 = match p.anchor() {
                    Some(a) => self.reach(a),
                    None => 0,
                };
                p.r() + rest
            },
            PordOrCord::Cord(x, y) => magnitude(x, y),
            PordOrCord::Gord(x, y) => magnitude(x, y),
        }
    }

    /// Whether `poc` may be added.
    pub fn can_add(&self, poc: &PordOrCord) -> (out: bool)
        requires
            self.wf(),
        ensures
            out == self.admits(*poc),
    {
        match poc {
            PordOrCord::Pord(p) => {
                p.theta().check();
                if p.r() < 0 || p.r() > MAX_COORD {
                    return false;
                }
                match p.anchor() {
                    Some(a) => a.0 < self.nodes.len() && p.r() + self.reach(a) <= MAX_COORD,
                    None => true,
                }
            },
            PordOrCord::Cord(x, y) => in_span(*x, *y),
            PordOrCord::Gord(x, y) => in_span(*x, *y),
        }
    }

    /// Adds a position and names it.
    pub fn add(&mut self, poc: PordOrCord) -> (out: PordRef)
        requires
            old(self).wf(),
            old(self).admits(poc),
        ensures
            out.0 == old(self)@.len(),
            final(self)@ == old(self)@.push(poc),
            final(self).wf(),
            forall|at: PordRef, origin: (i64, i64)|
                old(self).has(at) ==> #[trigger] final(self).spec_abs(at, origin) == old(self)
                    .spec_abs(at, origin),
    {
        let at = self.nodes.len();
        let ghost before = self.nodes@;
        self.nodes.push(poc);
        proof {
            let after = self.nodes@;
            assert(after == before.push(poc));
            assert forall|i: int| 0 <= i < after.len() implies fits_at(#[trigger] after[i], i)
                && reach_at(after, i) <= MAX_COORD by {
                if i < before.len() {
                    assert(fits_at(before[i], i));
                    lemma_reach_push(before, poc, i);
                } else {
                    if let PordOrCord::Pord(p) = poc {
                        if let Some(a) = p.spec_anchor() {
                            lemma_reach_push(before, poc, a.0 as int);
                        }
                    }
                }
            }
        }
        proof {
            assert forall|at: PordRef, origin: (i64, i64)| before.len() > at.0 implies abs_at(
                self.nodes@,
                at.0 as int,
                (origin.0 as int, origin.1 as int),
            ) == abs_at(before, at.0 as int, (origin.0 as int, origin.1 as int)) by {
                lemma_abs_push(before, poc, at.0 as int, (origin.0 as int, origin.1 as int));
            }
        }
        PordRef(at)
    }

    /// The squared distance between two positions is the same in both
    /// directions.
    pub proof fn lemma_dist_to_sq_symmetric(&self, a: PordRef, b: PordRef)
        ensures
            self.spec_dist_to_sq(a, b) == self.spec_dist_to_sq(b, a),
    {
        lemma_dist_sq_symmetric(self.spec_abs(a, (0, 0)), self.spec_abs(b, (0, 0)));
    }

    /// Where the position named `at` lies on the canvas.
    pub open spec fn spec_abs(&self, at: PordRef, origin: (i64, i64)) -> (int, int) {
        abs_at(self@, at.0 as int, (origin.0 as int, origin.1 as int))
    }

    /// Where the position named `at` lies on a canvas whose script origin is
    /// `svg_origin`, following the anchors down to a Cartesian position or
    /// to a missing anchor, which counts as the origin.
    pub fn abs_svg_xy(&self, at: PordRef, svg_origin: (i64, i64)) -> (out: (i64, i64))
        requires
            self.wf(),
            self.has(at),
            span(svg_origin.0 as int, svg_origin.1 as int) <= MAX_COORD,
        ensures
            (out.0 as int, out.1 as int) == self.spec_abs(at, svg_origin),
            span(out.0 as int, out.1 as int) <= 2 * MAX_COORD,
        decreases at.0,
    {
        proof {
            lemma_abs_within_reach(
                self@,
                at.0 as int,
                (svg_origin.0 as int, svg_origin.1 as int),
            );
            assert(fits_at(self@[at.0 as int], at.0 as int));
        }
        match self.nodes[at.0] {
            PordOrCord::Cord(x, y) => (x, y),
            PordOrCord::Gord(x, y) => (svg_origin.0 + x, svg_origin.1 - y),
            PordOrCord::Pord(p) => {
                let (x, y) = match self.anchor_abs_svg_xy(&p, at, svg_origin) {
                    Some(anchor_xy) => anchor_xy,
                    None => svg_origin,
                };
                let (x_rel, y_rel) = p.rel_svg_xy();
                (x + x_rel, y + y_rel)
            },
        }
    }

    /// Where `poc` would lie on the canvas if it were added to the graph.
    pub fn abs_svg_xy_of(&self, poc: &PordOrCord, svg_origin: (i64, i64)) -> (out: (i64, i64))
        requires
            self.wf(),
            self.admits(*poc),
            span(svg_origin.0 as int, svg_origin.1 as int) <= MAX_COORD,
        ensures
            (out.0 as int, out.1 as int) == abs_at(
                self@.push(*poc),
                self@.len() as int,
                (svg_origin.0 as int, svg_origin.1 as int),
            ),
            span(out.0 as int, out.1 as int) <= 2 * MAX_COORD,
    {
        let ghost origin = (svg_origin.0 as int, svg_origin.1 as int);
        assert(self@.push(*poc)[self@.len() as int] == *poc);
        match poc {
            PordOrCord::Cord(x, y) => (*x, *y),
            PordOrCord::Gord(x, y) => (svg_origin.0 + *x, svg_origin.1 - *y),
            PordOrCord::Pord(p) => {
                let (x, y) = match p.anchor() {
                    Some(a) => {
                        proof {
                            lemma_abs_push(self@, *poc, a.0 as int, origin);
                            lemma_abs_within_reach(self@, a.0 as int, origin);
                        }
                        self.abs_svg_xy(a, svg_origin)
                    },
                    None => svg_origin,
                };
                let (x_rel, y_rel) = p.rel_svg_xy();
                (x + x_rel, y + y_rel)
            },
        }
    }

    /// Where the anchor of the polar position `pord`, which stands at `at`,
    /// lies on the canvas; nothing where the anchor is gone.
    pub fn anchor_abs_svg_xy(&self, pord: &POrd, at: PordRef, svg_origin: (i64, i64)) -> (out:
        Option<(i64, i64)>)
        requires
            self.wf(),
            self.has(at),
            self@[at.0 as int] == PordOrCord::Pord(*pord),
            span(svg_origin.0 as int, svg_origin.1 as int) <= MAX_COORD,
        ensures
            match pord.spec_anchor() {
                Some(a) => out.is_some() && (out.unwrap().0 as int, out.unwrap().1 as int)
                    == self.spec_abs(a, svg_origin) && span(
                    out.unwrap().0 as int,
                    out.unwrap().1 as int,
                ) <= span(svg_origin.0 as int, svg_origin.1 as int) + reach_at(self@, a.0 as int),
                None => out.is_none(),
            },
        decreases at.0, 0nat,
    {
        proof {
            assert(fits_at(self@[at.0 as int], at.0 as int));
        }
        match pord.anchor() {
            Some(a) => {
                proof {
                    lemma_abs_within_reach(
                        self@,
                        a.0 as int,
                        (svg_origin.0 as int, svg_origin.1 as int),
                    );
                }
                Some(self.abs_svg_xy(a, svg_origin))
            },
            None => None,
        }
    }

    /// The canvas offset from one position to another.
    pub fn svg_xy_to(&self, from: PordRef, to: PordRef) -> (out: (i64, i64))
        requires
            self.wf(),
            self.has(from),
            self.has(to),
        ensures
            out.0 == self.spec_abs(to, (0, 0)).0 - self.spec_abs(from, (0, 0)).0,
            out.1 == self.spec_abs(to, (0, 0)).1 - self.spec_abs(from, (0, 0)).1,
    {
        let (self_x, self_y) = self.abs_svg_xy(from, (0, 0));
        let (other_x, other_y) = self.abs_svg_xy(to, (0, 0));
        (other_x - self_x, other_y - self_y)
    }

    /// The squared canvas distance between two positions.
    pub open spec fn spec_dist_to_sq(&self, from: PordRef, to: PordRef) -> int {
        dist_sq(self.spec_abs(from, (0, 0)), self.spec_abs(to, (0, 0)))
    }

    /// The squared canvas distance between two positions.
    pub fn dist_to_sq(&self, from: PordRef, to: PordRef) -> (out: i64)
        requires
            self.wf(),
            self.has(from),
            self.has(to),
        ensures
            out == self.spec_dist_to_sq(from, to),
            0 <= out <= MAX_DIST_SQ,
    {
        let a = self.abs_svg_xy(from, (0, 0));
        let b = self.abs_svg_xy(to, (0, 0));
        dist_sq_of(a, b)
    }

    /// The clockwise bearing from one position to another, in `[0, TAU)`.
    /// `arctan` is the arctangent of the canvas offset between them
    /// (`svg_xy_to`), `x` over `y`, as the caller has evaluated it; a
    /// negative one is moved a full turn on. Where the two positions lie
    /// at the same point the bearing is no turn.
    pub fn angle_to(&self, from: PordRef, to: PordRef, arctan: Angle) -> (out: Angle)
        requires
            self.wf(),
            self.has(from),
            self.has(to),
            -PI <= arctan.spec_rad() <= PI,
        ensures
            0 <= out.spec_rad() < TAU,
            out.triple() == if self.spec_abs(from, (0, 0)) == self.spec_abs(to, (0, 0)) {
                (0int, 0int, TRIG_ONE as int)
            } else if arctan.spec_rad() < 0 {
                (arctan.spec_rad() + TAU, arctan.spec_sin(), arctan.spec_cos())
            } else {
                arctan.triple()
            },
    {
        let (dx, dy) = self.svg_xy_to(from, to);
        if dx == 0 && dy == 0 {
            Angle::zero()
        } else {
            arctan.normalised()
        }
    }
}

/// What stands at a position of the graph, and so has a place on the canvas.
pub trait Cartesian {
    /// Where it stands.
    spec fn spec_pord(&self) -> PordRef;

    /// Where it stands.
    fn pord(&self) -> (out: PordRef)
        ensures
            out == self.spec_pord(),
    ;

    /// Its position in script axes, relative to the position's own origin.
    fn rel_xy(&self, graph: &PordGraph) -> (out: (i64, i64))
        requires
            graph.wf(),
            graph.has(self.spec_pord()),
        ensures
            (out.0 as int, out.1 as int) == graph@[self.spec_pord().0 as int].spec_rel_xy(),
    {
        let at = self.pord();
        graph.recall(at);
        graph.get(at).rel_xy()
    }

    /// Its position in canvas axes, relative to the position's own origin.
    fn rel_svg_xy(&self, graph: &PordGraph) -> (out: (i64, i64))
        requires
            graph.wf(),
            graph.has(self.spec_pord()),
        ensures
            out.0 == graph@[self.spec_pord().0 as int].spec_rel_xy().0,
            out.1 == -graph@[self.spec_pord().0 as int].spec_rel_xy().1,
    {
        let at = self.pord();
        graph.recall(at);
        graph.get(at).rel_svg_xy()
    }

    /// Where it lies on a canvas whose script origin is `svg_origin`.
    fn abs_svg_xy(&self, graph: &PordGraph, svg_origin: (i64, i64)) -> (out: (i64, i64))
        requires
            graph.wf(),
            graph.has(self.spec_pord()),
            span(svg_origin.0 as int, svg_origin.1 as int) <= MAX_COORD,
        ensures
            (out.0 as int, out.1 as int) == graph.spec_abs(self.spec_pord(), svg_origin),
    {
        graph.abs_svg_xy(self.pord(), svg_origin)
    }

    /// The canvas offset from it to the position `other`.
    fn svg_xy_to(&self, graph: &PordGraph, other: PordRef) -> (out: (i64, i64))
        requires
            graph.wf(),
            graph.has(self.spec_pord()),
            graph.has(other),
        ensures
            out.0 == graph.spec_abs(other, (0, 0)).0 - graph.spec_abs(self.spec_pord(), (0, 0)).0,
            out.1 == graph.spec_abs(other, (0, 0)).1 - graph.spec_abs(self.spec_pord(), (0, 0)).1,
    {
        graph.svg_xy_to(self.pord(), other)
    }

    /// The clockwise bearing from it to the position `other`, in
    /// `[0, TAU)`, given the arctangent of the canvas offset between them.
    fn angle_to(&self, graph: &PordGraph, other: PordRef, arctan: Angle) -> (out: Angle)
        requires
            graph.wf(),
            graph.has(self.spec_pord()),
            graph.has(other),
            -PI <= arctan.spec_rad() <= PI,
        ensures
            0 <= out.spec_rad() < TAU,
            out.triple() == if graph.spec_abs(self.spec_pord(), (0, 0)) == graph.spec_abs(
                other,
                (0, 0),
            ) {
                (0int, 0int, TRIG_ONE as int)
            } else if arctan.spec_rad() < 0 {
                (arctan.spec_rad() + TAU, arctan.spec_sin(), arctan.spec_cos())
            } else {
                arctan.triple()
            },
    {
        graph.angle_to(self.pord(), other, arctan)
    }

    /// The squared canvas distance from it to the position `other`.
    fn dist_to_sq(&self, graph: &PordGraph, other: PordRef) -> (out: i64)
        requires
            graph.wf(),
            graph.has(self.spec_pord()),
            graph.has(other),
        ensures
            out == graph.spec_dist_to_sq(self.spec_pord(), other),
            0 <= out <= MAX_DIST_SQ,
    {
        graph.dist_to_sq(self.pord(), other)
    }
}

impl Cartesian for PordRef {
    open spec fn spec_pord(&self) -> PordRef {
        *self
    }

    fn pord(&self) -> (out: PordRef) {
        *self
    }
}

/// The larger of the magnitudes of two coordinates in range.
fn magnitude(x: i64, y: i64) -> (out: i64)
    requires
        span(x as int, y as int) <= MAX_COORD,
    ensures
        out == span(x as int, y as int),
{
    let ax: i64 = if x < 0 { -x } else { x };
    let ay: i64 = if y < 0 { -y } else { y };
    if ax < ay { ay } else { ax }
}

/// Whether two coordinates are in range.
fn in_span(x: i64, y: i64) -> (out: bool)
    ensures
        out == (span(x as int, y as int) <= MAX_COORD),
{
    -MAX_COORD <= x && x <= MAX_COORD && -MAX_COORD <= y && y <= MAX_COORD
}

/// The squared distance between two canvas points.
pub open spec fn dist_sq(a: (int, int), b: (int, int)) -> int {
    (a.0 - b.0) * (a.0 - b.0) + (a.1 - b.1) * (a.1 - b.1)
}

/// Largest squared distance between two positions in range.
pub const MAX_DIST_SQ: i64 = 0x8000_0000_0000;

/// The squared distance between two canvas points in range.
pub fn dist_sq_of(a: (i64, i64), b: (i64, i64)) -> (out: i64)
    requires
        span(a.0 as int, a.1 as int) <= 2 * MAX_COORD,
        span(b.0 as int, b.1 as int) <= 2 * MAX_COORD,
    ensures
        out == dist_sq((a.0 as int, a.1 as int), (b.0 as int, b.1 as int)),
        0 <= out <= MAX_DIST_SQ,
{
    let dx: i64 = a.0 - b.0;
    let dy: i64 = a.1 - b.1;
    assert(0 <= dx * dx <= 0x80_0000 * 0x80_0000) by (nonlinear_arith)
        requires
            -0x80_0000 <= dx <= 0x80_0000,
    ;
    assert(0 <= dy * dy <= 0x80_0000 * 0x80_0000) by (nonlinear_arith)
        requires
            -0x80_0000 <= dy <= 0x80_0000,
    ;
    dx * dx + dy * dy
}

/// A polar position lies where its anchor lies, moved by
/// `(r sin theta, -r cos theta)`.
pub proof fn lemma_projection_round_trip(
    nodes: Seq<PordOrCord>,
    at: int,
    p: POrd,
    anchor: PordRef,
    origin: (int, int),
)
    requires
        forest(nodes),
        0 <= at < nodes.len(),
        nodes[at] == PordOrCord::Pord(p),
        p.spec_anchor() == Some(anchor),
    ensures
        abs_at(nodes, at, origin).0 == abs_at(nodes, anchor.0 as int, origin).0 + along(
            p.spec_r(),
            p.spec_theta().spec_sin(),
        ),
        abs_at(nodes, at, origin).1 == abs_at(nodes, anchor.0 as int, origin).1 - along(
            p.spec_r(),
            p.spec_theta().spec_cos(),
        ),
{
    assert(fits_at(nodes[at], at));
}

/// The squared distance is the same in both directions.
pub proof fn lemma_dist_sq_symmetric(a: (int, int), b: (int, int))
    ensures
        dist_sq(a, b) == dist_sq(b, a),
{
    assert((a.0 - b.0) * (a.0 - b.0) == (b.0 - a.0) * (b.0 - a.0)) by (nonlinear_arith);
    assert((a.1 - b.1) * (a.1 - b.1) == (b.1 - a.1) * (b.1 - a.1)) by (nonlinear_arith);
}

} // verus!
