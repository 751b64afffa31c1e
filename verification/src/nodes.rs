//! The elements this crate draws, and the path commands it draws with.

use vstd::prelude::*;
use svg::node::element::path::Data;
use svg::Document;
use crate::svgdoc::{
    data_commands,
    data_elliptical_arc_to,
    decimal,
    doc_add,
    doc_attrs,
    doc_nodes,
    element_new,
    element_set_data,
    element_set_signed,
    element_set_text,
    element_set_unsigned,
    path_number,
    path_text,
    PathCommand,
    SvgNode,
};

verus! {

/// A flag as path data holds it.
pub open spec fn flag(b: bool) -> int {
    if b {
        1
    } else {
        0
    }
}

/// A circular arc of the given radius to `(x, y)`, without rotation.
pub open spec fn arc_command(radius: int, large_arc: bool, sweep: bool, x: int, y: int)
    -> PathCommand {
    PathCommand::EllipticalArc {
        rx: radius,
        ry: radius,
        rotation: 0,
        large_arc: flag(large_arc),
        sweep: flag(sweep),
        x,
        y,
    }
}

/// A `rect` element.
pub open spec fn rect_of(
    x: int,
    y: int,
    width: int,
    height: int,
    fill: Seq<char>,
    stroke: Seq<char>,
) -> SvgNode {
    SvgNode {
        tag: "rect"@,
        attrs: Map::empty().insert("x"@, decimal(x)).insert(
            "y"@,
            decimal(y),
        ).insert("width"@, decimal(width)).insert(
            "height"@,
            decimal(height),
        ).insert("fill"@, fill).insert("stroke"@, stroke),
    }
}

/// A `circle` element.
pub open spec fn circle_of(
    fill: Seq<char>,
    stroke: Seq<char>,
    stroke_width: int,
    cx: int,
    cy: int,
    r: int,
) -> SvgNode {
    SvgNode {
        tag: "circle"@,
        attrs: Map::empty().insert("fill"@, fill).insert(
            "stroke"@,
            stroke,
        ).insert("stroke-width"@, decimal(stroke_width)).insert(
            "cx"@,
            decimal(cx),
        ).insert("cy"@, decimal(cy)).insert("r"@, decimal(r)),
    }
}

/// A `path` element.
pub open spec fn path_of(
    d: Seq<PathCommand>,
    fill: Seq<char>,
    stroke: Seq<char>,
    stroke_width: int,
) -> SvgNode {
    SvgNode {
        tag: "path"@,
        attrs: Map::empty().insert("d"@, path_text(d)).insert(
            "fill"@,
            fill,
        ).insert("stroke"@, stroke).insert(
            "stroke-width"@,
            decimal(stroke_width),
        ),
    }
}

/// A `line` element.
pub open spec fn line_of(
    stroke: Seq<char>,
    stroke_width: int,
    x1: int,
    y1: int,
    x2: int,
    y2: int,
) -> SvgNode {
    SvgNode {
        tag: "line"@,
        attrs: Map::empty().insert("stroke"@, stroke).insert(
            "stroke-width"@,
            decimal(stroke_width),
        ).insert("x1"@, decimal(x1)).insert("y1"@, decimal(y1)).insert(
            "x2"@,
            decimal(x2),
        ).insert("y2"@, decimal(y2)),
    }
}

/// Adds a circular arc to path data.
pub fn data_arc_to(data: Data, radius: i64, large_arc: bool, sweep: bool, x: i64, y: i64) -> (out:
    Data)
    requires
        path_number(radius as int),
        path_number(x as int),
        path_number(y as int),
    ensures
        data_commands(out) == data_commands(data).push(
            arc_command(radius as int, large_arc, sweep, x as int, y as int),
        ),
{
    data_elliptical_arc_to(
        data,
        radius,
        radius,
        0,
        if large_arc { 1 } else { 0 },
        if sweep { 1 } else { 0 },
        x,
        y,
    )
}

/// Appends a `rect` element at the canvas corner.
pub fn doc_add_rect(doc: Document, width: u64, height: u64, fill: &str, stroke: &str) -> (out:
    Document)
    ensures
        doc_nodes(out) == doc_nodes(doc).push(
            rect_of(0, 0, width as int, height as int, fill@, stroke@),
        ),
        doc_attrs(out) == doc_attrs(doc),
{
    let background = element_new("rect");
    let background = element_set_signed(background, "x", 0);
    let background = element_set_signed(background, "y", 0);
    let background = element_set_unsigned(background, "width", width);
    let background = element_set_unsigned(background, "height", height);
    let background = element_set_text(background, "fill", fill);
    let background = element_set_text(background, "stroke", stroke);
    doc_add(doc, background)
}

/// Appends a `circle` element.
pub fn doc_add_circle(
    doc: Document,
    fill: &str,
    stroke: &str,
    stroke_width: i64,
    cx: i64,
    cy: i64,
    r: i64,
) -> (out: Document)
    ensures
        doc_nodes(out) == doc_nodes(doc).push(
            circle_of(fill@, stroke@, stroke_width as int, cx as int, cy as int, r as int),
        ),
        doc_attrs(out) == doc_attrs(doc),
{
    let circle = element_new("circle");
    let circle = element_set_text(circle, "fill", fill);
    let circle = element_set_text(circle, "stroke", stroke);
    let circle = element_set_signed(circle, "stroke-width", stroke_width);
    let circle = element_set_signed(circle, "cx", cx);
    let circle = element_set_signed(circle, "cy", cy);
    let circle = element_set_signed(circle, "r", r);
    doc_add(doc, circle)
}

/// Appends a `path` element.
pub fn doc_add_path(doc: Document, data: Data, fill: &str, stroke: &str, stroke_width: i64) -> (out:
    Document)
    ensures
        doc_nodes(out) == doc_nodes(doc).push(
            path_of(data_commands(data), fill@, stroke@, stroke_width as int),
        ),
        doc_attrs(out) == doc_attrs(doc),
{
    let path = element_new("path");
    let path = element_set_data(path, "d", data);
    let path = element_set_text(path, "fill", fill);
    let path = element_set_text(path, "stroke", stroke);
    let path = element_set_signed(path, "stroke-width", stroke_width);
    doc_add(doc, path)
}

/// Appends a `line` element.
pub fn doc_add_line(
    doc: Document,
    stroke: &str,
    stroke_width: i64,
    x1: i64,
    y1: i64,
    x2: i64,
    y2: i64,
) -> (out: Document)
    ensures
        doc_nodes(out) == doc_nodes(doc).push(
            line_of(stroke@, stroke_width as int, x1 as int, y1 as int, x2 as int, y2 as int),
        ),
        doc_attrs(out) == doc_attrs(doc),
{
    let line = element_new("line");
    let line = element_set_text(line, "stroke", stroke);
    let line = element_set_signed(line, "stroke-width", stroke_width);
    let line = element_set_signed(line, "x1", x1);
    let line = element_set_signed(line, "y1", y1);
    let line = element_set_signed(line, "x2", x2);
    let line = element_set_signed(line, "y2", y2);
    doc_add(doc, line)
}

} // verus!
