//! Connector lines between anchors: a builder with three slots, and the
//! straight and circular lines it turns into.

use vstd::prelude::*;
use svg::Document;
use crate::basic::{arc_big_circle, arc_commands, arc_small_circle, path_node};
use crate::ctx::Context;
use crate::pord::{abs_at, PordGraph, PordRef};
use crate::nodes::{doc_add_line, line_of};
use crate::svgdoc::{doc_attrs, doc_nodes, SvgNode};
use crate::utils::SweepDirection;

verus! {

/// The three slots of a builder.
pub type Slots = (Option<PordRef>, Option<PordRef>, Option<PordRef>);

/// Up to three anchors, collected in first-empty-slot order.
#[derive(Debug)]
pub struct Linebuilder {
    pord1: Option<PordRef>,
    pord2: Option<PordRef>,
    pord3: Option<PordRef>,
    ctx: Context,
}

/// A straight line between two anchors.
#[derive(Debug)]
pub struct StraightLine {
    pord1: PordRef,
    pord2: PordRef,
    ctx: Context,
}

/// An arc between two anchors whose radius a third anchor sets.
#[derive(Debug)]
pub struct CirculcarLine {
    pord1: PordRef,
    pord2: PordRef,
    pord3: PordRef,
    ctx: Context,
}

/// The slots after `pord` was offered: it fills the first empty one of
/// slots 1, 2, 3, and is turned away where all three are full.
pub open spec fn slots_after_add(slots: Slots, pord: PordRef) -> (Slots, Result<(), PordRef>) {
    if slots.0.is_none() {
        ((Some(pord), slots.1, slots.2), Ok(()))
    } else if slots.1.is_none() {
        ((slots.0, Some(pord), slots.2), Ok(()))
    } else if slots.2.is_none() {
        ((slots.0, slots.1, Some(pord)), Ok(()))
    } else {
        (slots, Err(pord))
    }
}

impl Linebuilder {
    /// The three slots.
    pub closed spec fn slots(&self) -> Slots {
        (self.pord1, self.pord2, self.pord3)
    }

    pub closed spec fn spec_ctx(&self) -> Context {
        self.ctx
    }

    /// A builder with three empty slots that draws as `context` says.
    pub fn new(context: &Context) -> (out: Linebuilder)
        ensures
            out.slots() == (None::<PordRef>, None::<PordRef>, None::<PordRef>),
            out.spec_ctx() == *context,
    {
        Linebuilder { pord1: None, pord2: None, pord3: None, ctx: context.clone() }
    }

    /// Offers an anchor: it fills the first empty slot; where all three are
    /// full the anchor comes back.
    pub fn add_pord(&mut self, pord: PordRef) -> (out: Result<(), PordRef>)
        ensures
            (final(self).slots(), out) == slots_after_add(old(self).slots(), pord),
            final(self).spec_ctx() == old(self).spec_ctx(),
    {
        if self.pord1.is_none() {
            self.pord1 = Some(pord);
            Ok(())
        } else if self.pord2.is_none() {
            self.pord2 = Some(pord);
            Ok(())
        } else if self.pord3.is_none() {
            self.pord3 = Some(pord);
            Ok(())
        } else {
            Err(pord)
        }
    }

    /// Exchanges slots 1 and 2, empty or not.
    pub fn switch_pord_1_2(&mut self)
        ensures
            final(self).slots() == (old(self).slots().1, old(self).slots().0, old(self).slots().2),
            final(self).spec_ctx() == old(self).spec_ctx(),
    {
        let first = self.pord1;
        self.pord1 = self.pord2;
        self.pord2 = first;
    }

    /// The anchor in slot 1, if there is one.
    pub fn pord1(&self) -> (out: Option<PordRef>)
        ensures
            out == self.slots().0,
    {
        self.pord1
    }

    /// The anchor in slot 2, if there is one.
    pub fn pord2(&self) -> (out: Option<PordRef>)
        ensures
            out == self.slots().1,
    {
        self.pord2
    }

    /// The anchor in slot 3, if there is one.
    pub fn pord3(&self) -> (out: Option<PordRef>)
        ensures
            out == self.slots().2,
    {
        self.pord3
    }
}

impl Default for Linebuilder {
    /// A builder with three empty slots and the default context.
    fn default() -> (out: Linebuilder)
        ensures
            out.slots() == (None::<PordRef>, None::<PordRef>, None::<PordRef>),
            out.spec_ctx().spec_colour().spec_bg() == "white"@,
            out.spec_ctx().spec_colour().spec_fill() == "none"@,
            out.spec_ctx().spec_colour().spec_stroke() == "black"@,
            out.spec_ctx().spec_stroke().spec_i_stroke() == 0,
            out.spec_ctx().spec_stroke().spec_o_stroke() == 0,
            out.spec_ctx().spec_origin() == (0int, 0int),
    {
        Linebuilder { pord1: None, pord2: None, pord3: None, ctx: Context::default() }
    }
}

impl Clone for Linebuilder {
    fn clone(&self) -> (out: Linebuilder)
        ensures
            out == *self,
    {
        Linebuilder {
            pord1: self.pord1,
            pord2: self.pord2,
            pord3: self.pord3,
            ctx: self.ctx.clone(),
        }
    }
}

/// Three anchors offered to an empty builder fill slots 1, 2 and 3 in that
/// order, and a fourth is turned away.
pub proof fn lemma_slot_order(a: PordRef, b: PordRef, c: PordRef, d: PordRef)
    ensures
        ({
            let empty: Slots = (None, None, None);
            let one = slots_after_add(empty, a);
            let two = slots_after_add(one.0, b);
            let three = slots_after_add(two.0, c);
            let four = slots_after_add(three.0, d);
            &&& one == ((Some(a), None::<PordRef>, None::<PordRef>), Ok::<(), PordRef>(()))
            &&& two == ((Some(a), Some(b), None::<PordRef>), Ok::<(), PordRef>(()))
            &&& three == ((Some(a), Some(b), Some(c)), Ok::<(), PordRef>(()))
            &&& four == ((Some(a), Some(b), Some(c)), Err::<(), PordRef>(d))
        }),
{
}

impl StraightLine {
    /// The two ends.
    pub closed spec fn ends(&self) -> (PordRef, PordRef) {
        (self.pord1, self.pord2)
    }

    pub closed spec fn spec_ctx(&self) -> Context {
        self.ctx
    }

    /// What a builder turns into: the line between slots 1 and 2 where both
    /// are filled, slot 3 being dropped; the builder itself where not.
    pub closed spec fn from_builder(value: Linebuilder) -> Result<StraightLine, Linebuilder> {
        match (value.pord1, value.pord2) {
            (Some(pord1), Some(pord2)) => Ok(StraightLine { pord1, pord2, ctx: value.ctx }),
            _ => Err(value),
        }
    }

    /// `from_builder` in terms of what can be seen of the two values.
    pub proof fn lemma_from_builder(value: Linebuilder)
        ensures
            match StraightLine::from_builder(value) {
                Ok(line) => {
                    &&& value.slots().0 == Some(line.ends().0)
                    &&& value.slots().1 == Some(line.ends().1)
                    &&& line.spec_ctx() == value.spec_ctx()
                },
                Err(back) => {
                    &&& (value.slots().0.is_none() || value.slots().1.is_none())
                    &&& back == value
                },
            },
    {
    }

    /// The line as a document child.
    pub open spec fn node(&self, graph: &PordGraph) -> SvgNode {
        let origin = self.spec_ctx().spec_origin();
        let from = abs_at(graph@, self.ends().0.0 as int, origin);
        let to = abs_at(graph@, self.ends().1.0 as int, origin);
        line_of(
            self.spec_ctx().spec_colour().spec_stroke(),
            self.spec_ctx().spec_stroke().spec_i_stroke()
                + self.spec_ctx().spec_stroke().spec_o_stroke(),
            from.0,
            from.1,
            to.0,
            to.1,
        )
    }

    /// Adds the line to the document.
    pub fn draw(self, doc: Document, graph: &PordGraph) -> (out: Document)
        requires
            graph.wf(),
            graph.has(self.ends().0),
            graph.has(self.ends().1),
        ensures
            doc_nodes(out) == doc_nodes(doc).push(self.node(graph)),
            doc_attrs(out) == doc_attrs(doc),
    {
        let (x1, y1) = graph.abs_svg_xy(self.pord1, self.ctx.origin());
        let (x2, y2) = graph.abs_svg_xy(self.pord2, self.ctx.origin());
        doc_add_line(
            doc,
            self.ctx.colour().stroke(),
            self.ctx.stroke().strokewidth(),
            x1,
            y1,
            x2,
            y2,
        )
    }
}

impl TryFrom<Linebuilder> for StraightLine {
    type Error = Linebuilder;

    fn try_from(value: Linebuilder) -> (out: Result<Self, Self::Error>) {
        match (value.pord1, value.pord2) {
            (Some(pord1), Some(pord2)) => Ok(StraightLine { pord1, pord2, ctx: value.ctx }),
            _ => Err(value),
        }
    }
}

impl vstd::std_specs::convert::TryFromSpecImpl<Linebuilder> for StraightLine {
    open spec fn obeys_try_from_spec() -> bool {
        true
    }

    open spec fn try_from_spec(value: Linebuilder) -> Result<Self, Self::Error> {
        StraightLine::from_builder(value)
    }
}

impl CirculcarLine {
    /// The two ends and the control anchor.
    pub closed spec fn anchors(&self) -> (PordRef, PordRef, PordRef) {
        (self.pord1, self.pord2, self.pord3)
    }

    pub closed spec fn spec_ctx(&self) -> Context {
        self.ctx
    }

    /// What a builder turns into: the arc between slots 1 and 2 under the
    /// control of slot 3 where all three are filled; the builder itself
    /// where not.
    pub closed spec fn from_builder(value: Linebuilder) -> Result<CirculcarLine, Linebuilder> {
        match (value.pord1, value.pord2, value.pord3) {
            (Some(pord1), Some(pord2), Some(pord3)) => Ok(
                CirculcarLine { pord1, pord2, pord3, ctx: value.ctx },
            ),
            _ => Err(value),
        }
    }

    /// `from_builder` in terms of what can be seen of the two values.
    pub proof fn lemma_from_builder(value: Linebuilder)
        ensures
            match CirculcarLine::from_builder(value) {
                Ok(line) => {
                    &&& value.slots().0 == Some(line.anchors().0)
                    &&& value.slots().1 == Some(line.anchors().1)
                    &&& value.slots().2 == Some(line.anchors().2)
                    &&& line.spec_ctx() == value.spec_ctx()
                },
                Err(back) => {
                    &&& (value.slots().0.is_none() || value.slots().1.is_none()
                        || value.slots().2.is_none())
                    &&& back == value
                },
            },
    {
    }

    /// The mean of the squared distances from the two ends to the control
    /// anchor, rounded down.
    pub open spec fn mean_dist_sq(&self, graph: &PordGraph) -> int {
        (graph.spec_dist_to_sq(self.anchors().0, self.anchors().2) + graph.spec_dist_to_sq(
            self.anchors().1,
            self.anchors().2,
        )) / 2
    }

    /// The radius of the arc: the square root of `mean_dist_sq`, rounded down.
    pub open spec fn spec_radius(&self, graph: &PordGraph) -> int {
        crate::utils::floor_sqrt(self.mean_dist_sq(graph))
    }

    /// The arc as a document child.
    pub open spec fn node(&self, graph: &PordGraph, large_arc: bool) -> SvgNode {
        path_node(
            arc_commands(
                graph,
                self.anchors().0,
                self.anchors().1,
                self.spec_radius(graph) as i64,
                large_arc,
                SweepDirection(false),
                &self.spec_ctx(),
            ),
            &self.spec_ctx(),
        )
    }

    /// The radius of the arc.
    pub fn radius(&self, graph: &PordGraph) -> (out: i64)
        requires
            graph.wf(),
            graph.has(self.anchors().0),
            graph.has(self.anchors().1),
            graph.has(self.anchors().2),
        ensures
            out == self.spec_radius(graph),
            crate::utils::is_floor_sqrt(out as int, self.mean_dist_sq(graph)),
            0 <= out < crate::svgdoc::MAX_PATH_NUMBER,
    {
        let dist1 = graph.dist_to_sq(self.pord1, self.pord3);
        let dist2 = graph.dist_to_sq(self.pord2, self.pord3);
        let out = crate::utils::isqrt((dist1 + dist2) / 2);
        assert(out < 0x100_0000) by (nonlinear_arith)
            requires
                0 <= out,
                out * out <= 0x8000_0000_0000,
        ;
        out
    }

    /// Adds the small arc from the first end to the second, sweeping
    /// counter-clockwise.
    pub fn draw_small(self, doc: Document, graph: &PordGraph) -> (out: Document)
        requires
            graph.wf(),
            graph.has(self.anchors().0),
            graph.has(self.anchors().1),
            graph.has(self.anchors().2),
        ensures
            doc_nodes(out) == doc_nodes(doc).push(self.node(graph, false)),
            doc_attrs(out) == doc_attrs(doc),
    {
        let radius = self.radius(graph);
        arc_small_circle(doc, graph, self.pord1, self.pord2, radius, SweepDirection(false), &self.ctx)
    }

    /// Adds the large arc from the first end to the second, sweeping
    /// counter-clockwise.
    pub fn draw_big(self, doc: Document, graph: &PordGraph) -> (out: Document)
        requires
            graph.wf(),
            graph.has(self.anchors().0),
            graph.has(self.anchors().1),
            graph.has(self.anchors().2),
        ensures
            doc_nodes(out) == doc_nodes(doc).push(self.node(graph, true)),
            doc_attrs(out) == doc_attrs(doc),
    {
        let radius = self.radius(graph);
        arc_big_circle(doc, graph, self.pord1, self.pord2, radius, SweepDirection(false), &self.ctx)
    }
}

impl TryFrom<Linebuilder> for CirculcarLine {
    type Error = Linebuilder;

    fn try_from(value: Linebuilder) -> (out: Result<Self, Self::Error>) {
        match (value.pord1, value.pord2, value.pord3) {
            (Some(pord1), Some(pord2), Some(pord3)) => Ok(
                CirculcarLine { pord1, pord2, pord3, ctx: value.ctx },
            ),
            _ => Err(value),
        }
    }
}

impl vstd::std_specs::convert::TryFromSpecImpl<Linebuilder> for CirculcarLine {
    open spec fn obeys_try_from_spec() -> bool {
        true
    }

    open spec fn try_from_spec(value: Linebuilder) -> Result<Self, Self::Error> {
        CirculcarLine::from_builder(value)
    }
}

} // verus!
