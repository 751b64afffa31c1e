//! Plain shapes: a circle and three kinds of arc between two positions.

use vstd::prelude::*;
use svg::Document;
use crate::ctx::{Context, MAX_COORD};
use crate::pord::{PordGraph, PordRef};
use crate::nodes::{arc_command, circle_of, data_arc_to, doc_add_circle, doc_add_path, path_of};
use crate::svgdoc::{
    data_close,
    data_move_to,
    data_new,
    doc_attrs,
    doc_nodes,
    path_number,
    PathCommand,
    SvgNode,
};
use crate::utils::SweepDirection;

verus! {

/// The circle of the given radius about `center`, painted as `ctx` says.
pub open spec fn circle_node(graph: &PordGraph, center: PordRef, radius: i64, ctx: &Context)
    -> SvgNode {
    let origin = ctx.spec_origin();
    let at = crate::pord::abs_at(graph@, center.0 as int, origin);
    circle_of(
        ctx.spec_colour().spec_fill(),
        ctx.spec_colour().spec_stroke(),
        ctx.spec_stroke().spec_i_stroke() + ctx.spec_stroke().spec_o_stroke(),
        at.0,
        at.1,
        radius as int,
    )
}

/// The path with the given commands, painted as `ctx` says.
pub open spec fn path_node(d: Seq<PathCommand>, ctx: &Context) -> SvgNode {
    path_of(
        d,
        ctx.spec_colour().spec_fill(),
        ctx.spec_colour().spec_stroke(),
        ctx.spec_stroke().spec_i_stroke() + ctx.spec_stroke().spec_o_stroke(),
    )
}

/// The commands of one arc from `start` to `end`.
pub open spec fn arc_commands(
    graph: &PordGraph,
    start: PordRef,
    end: PordRef,
    radius: i64,
    large_arc: bool,
    sweep_dir: SweepDirection,
    ctx: &Context,
) -> Seq<PathCommand> {
    let origin = ctx.spec_origin();
    let from = crate::pord::abs_at(graph@, start.0 as int, origin);
    let to = crate::pord::abs_at(graph@, end.0 as int, origin);
    seq![
        PathCommand::Move { x: from.0, y: from.1 },
        arc_command(radius as int, large_arc, sweep_dir.0, to.0, to.1),
    ]
}

/// The commands of a closed band from `start` to `end` and back: out along
/// the radius widened by `thickness`, back along the radius narrowed by it,
/// sweeping the other way.
pub open spec fn arc_path_commands(
    graph: &PordGraph,
    thickness: i64,
    start: PordRef,
    end: PordRef,
    radius: i64,
    sweep_dir: SweepDirection,
    ctx: &Context,
) -> Seq<PathCommand> {
    let origin = ctx.spec_origin();
    let from = crate::pord::abs_at(graph@, start.0 as int, origin);
    let to = crate::pord::abs_at(graph@, end.0 as int, origin);
    seq![
        PathCommand::Move { x: from.0, y: from.1 },
        arc_command(radius + thickness, false, sweep_dir.0, to.0, to.1),
        arc_command(radius - thickness, false, !sweep_dir.0, from.0, from.1),
        PathCommand::Close,
    ]
}

/// Adds a circle about `center`.
pub fn circle(doc: Document, graph: &PordGraph, center: PordRef, radius: i64, ctx: &Context) -> (out:
    Document)
    requires
        graph.wf(),
        graph.has(center),
    ensures
        doc_nodes(out) == doc_nodes(doc).push(circle_node(graph, center, radius, ctx)),
        doc_attrs(out) == doc_attrs(doc),
{
    let center = graph.abs_svg_xy(center, ctx.origin());
    doc_add_circle(
        doc,
        ctx.colour().fill(),
        ctx.colour().stroke(),
        ctx.stroke().strokewidth(),
        center.0,
        center.1,
        radius,
    )
}

/// Adds one arc from `start` to `end` with the given large-arc flag.
fn arc_circle(
    doc: Document,
    graph: &PordGraph,
    start: PordRef,
    end: PordRef,
    radius: i64,
    large_arc: bool,
    sweep_dir: SweepDirection,
    ctx: &Context,
) -> (out: Document)
    requires
        graph.wf(),
        graph.has(start),
        graph.has(end),
        path_number(radius as int),
    ensures
        doc_nodes(out) == doc_nodes(doc).push(
            path_node(arc_commands(graph, start, end, radius, large_arc, sweep_dir, ctx), ctx),
        ),
        doc_attrs(out) == doc_attrs(doc),
{
    let from = graph.abs_svg_xy(start, ctx.origin());
    let to = graph.abs_svg_xy(end, ctx.origin());
    let data = data_new();
    let data = data_move_to(data, from.0, from.1);
    let data = data_arc_to(data, radius, large_arc, sweep_dir.0, to.0, to.1);
    assert(crate::svgdoc::data_commands(data) =~= arc_commands(
        graph,
        start,
        end,
        radius,
        large_arc,
        sweep_dir,
        ctx,
    ));
    doc_add_path(
        doc,
        data,
        ctx.colour().fill(),
        ctx.colour().stroke(),
        ctx.stroke().strokewidth(),
    )
}

/// Adds the large arc of the given radius from `start` to `end`.
pub fn arc_big_circle(
    doc: Document,
    graph: &PordGraph,
    start: PordRef,
    end: PordRef,
    radius: i64,
    sweep_dir: SweepDirection,
    ctx: &Context,
) -> (out: Document)
    requires
        graph.wf(),
        graph.has(start),
        graph.has(end),
        path_number(radius as int),
    ensures
        doc_nodes(out) == doc_nodes(doc).push(
            path_node(arc_commands(graph, start, end, radius, true, sweep_dir, ctx), ctx),
        ),
        doc_attrs(out) == doc_attrs(doc),
{
    arc_circle(doc, graph, start, end, radius, true, sweep_dir, ctx)
}

/// Adds the small arc of the given radius from `start` to `end`.
pub fn arc_small_circle(
    doc: Document,
    graph: &PordGraph,
    start: PordRef,
    end: PordRef,
    radius: i64,
    sweep_dir: SweepDirection,
    ctx: &Context,
) -> (out: Document)
    requires
        graph.wf(),
        graph.has(start),
        graph.has(end),
        path_number(radius as int),
    ensures
        doc_nodes(out) == doc_nodes(doc).push(
            path_node(arc_commands(graph, start, end, radius, false, sweep_dir, ctx), ctx),
        ),
        doc_attrs(out) == doc_attrs(doc),
{
    arc_circle(doc, graph, start, end, radius, false, sweep_dir, ctx)
}

/// Adds a closed band of half-width `thickness` about the arc of the given
/// radius from `start` to `end`.
pub fn arc_path(
    doc: Document,
    graph: &PordGraph,
    thickness: i64,
    start: PordRef,
    end: PordRef,
    radius: i64,
    sweep_dir: SweepDirection,
    ctx: &Context,
) -> (out: Document)
    requires
        graph.wf(),
        graph.has(start),
        graph.has(end),
        -MAX_COORD <= radius <= MAX_COORD,
        -MAX_COORD <= thickness <= MAX_COORD,
    ensures
        doc_nodes(out) == doc_nodes(doc).push(
            path_node(arc_path_commands(graph, thickness, start, end, radius, sweep_dir, ctx), ctx),
        ),
        doc_attrs(out) == doc_attrs(doc),
{
    let from = graph.abs_svg_xy(start, ctx.origin());
    let to = graph.abs_svg_xy(end, ctx.origin());
    let (o_radius, i_radius) = (radius + thickness, radius - thickness);
    let data = data_new();
    let data = data_move_to(data, from.0, from.1);
    let data = data_arc_to(data, o_radius, false, sweep_dir.0, to.0, to.1);
    let data = data_arc_to(data, i_radius, false, !sweep_dir.0, from.0, from.1);
    let data = data_close(data);
    assert(crate::svgdoc::data_commands(data) =~= arc_path_commands(
        graph,
        thickness,
        start,
        end,
        radius,
        sweep_dir,
        ctx,
    ));
    doc_add_path(
        doc,
        data,
        ctx.colour().fill(),
        ctx.colour().stroke(),
        ctx.stroke().strokewidth(),
    )
}

} // verus!
