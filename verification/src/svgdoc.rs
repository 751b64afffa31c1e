//! The boundary to the `svg` crate.
//!
//! Documents, elements and path data are values of the `svg` crate. What
//! they hold is named here by uninterpreted functions over plain models,
//! and every call into `svg` is made by one of the functions below, whose
//! contract is taken on trust from the source of `svg`. What is drawn,
//! with which tags, attributes and flags, is decided by the verified code
//! that calls them.

use vstd::prelude::*;
use svg::node::element::path::Data;
use svg::node::element::Element;
use svg::Document;
use svg::Node;

verus! {

#[verifier::external_type_specification]
#[verifier::external_body]
pub struct ExData(svg::node::element::path::Data);

/// Path data dereferences to a slice of commands, so the command type has
/// to be known wherever path data is; nothing here handles a command.
#[verifier::external_type_specification]
#[verifier::external_body]
pub struct ExCommand(svg::node::element::path::Command);

#[verifier::external_type_specification]
#[verifier::external_body]
pub struct ExElement(svg::node::element::Element);

#[verifier::external_type_specification]
#[verifier::external_body]
pub struct ExDocument(svg::node::element::SVG);

/// One command of a path, all coordinates absolute.
pub enum PathCommand {
    /// Start a new subpath at `(x, y)`.
    Move { x: int, y: int },
    /// An elliptical arc to `(x, y)`; the two flags are 0 or 1.
    EllipticalArc { rx: int, ry: int, rotation: int, large_arc: int, sweep: int, x: int, y: int },
    /// Close the current subpath.
    Close,
}

/// An element without children: its tag and its attributes, each
/// attribute value being the text it is held as.
pub struct SvgNode {
    pub tag: Seq<char>,
    pub attrs: Map<Seq<char>, Seq<char>>,
}

/// The character of a decimal digit.
pub open spec fn digit(d: int) -> char {
    if d == 0 {
        '0'
    } else if d == 1 {
        '1'
    } else if d == 2 {
        '2'
    } else if d == 3 {
        '3'
    } else if d == 4 {
        '4'
    } else if d == 5 {
        '5'
    } else if d == 6 {
        '6'
    } else if d == 7 {
        '7'
    } else if d == 8 {
        '8'
    } else {
        '9'
    }
}

/// The decimal digits of a number that is not negative, without leading
/// zeros.
pub open spec fn digits(n: int) -> Seq<char>
    decreases n,
{
    if n < 10 {
        seq![digit(n)]
    } else {
        digits(n / 10).push(digit(n % 10))
    }
}

/// A whole number written in decimal, with a minus sign where it is
/// negative.
pub open spec fn decimal(n: int) -> Seq<char> {
    if n < 0 {
        seq!['-'] + digits(-n)
    } else {
        digits(n)
    }
}

/// Four whole numbers written in decimal with one blank between them.
pub open spec fn quad_text(a: int, b: int, c: int, d: int) -> Seq<char> {
    decimal(a) + seq![' '] + decimal(b) + seq![' '] + decimal(c) + seq![' '] + decimal(d)
}

/// The text that path data with the given commands is written as.
pub uninterp spec fn path_text(commands: Seq<PathCommand>) -> Seq<char>;

/// The commands that a path data value holds, first to last.
pub uninterp spec fn data_commands(data: Data) -> Seq<PathCommand>;

/// The tag and the attributes of an element that has no children.
pub uninterp spec fn element_node(element: Element) -> SvgNode;

/// The children that a document holds, first to last.
pub uninterp spec fn doc_nodes(doc: Document) -> Seq<SvgNode>;

/// The attributes of a document.
pub uninterp spec fn doc_attrs(doc: Document) -> Map<Seq<char>, Seq<char>>;

/// Largest magnitude of a number in path data that the `svg` crate, which
/// holds such numbers in single precision, keeps as it is.
pub const MAX_PATH_NUMBER: i64 = 0x100_0000;

/// Whether a number can stand in path data unchanged.
pub open spec fn path_number(v: int) -> bool {
    -MAX_PATH_NUMBER <= v <= MAX_PATH_NUMBER
}

/// `Data::new`: path data without commands.
#[verifier::external_body]
pub(crate) fn data_new() -> (out: Data)
    ensures
        data_commands(out) == Seq::<PathCommand>::empty(),
{
    Data::new()
}

/// `Data::move_to`: pushes an absolute move command with the two
/// coordinates as its parameters. The parameters are cast to single
/// precision, which keeps whole numbers up to `MAX_PATH_NUMBER`.
#[verifier::external_body]
pub(crate) fn data_move_to(data: Data, x: i64, y: i64) -> (out: Data)
    requires
        path_number(x as int),
        path_number(y as int),
    ensures
        data_commands(out) == data_commands(data).push(
            PathCommand::Move { x: x as int, y: y as int },
        ),
{
    data.move_to((x, y))
}

/// `Data::elliptical_arc_to`: pushes an absolute arc command with the seven
/// numbers as its parameters. The parameters are cast to single precision,
/// which keeps whole numbers up to `MAX_PATH_NUMBER`.
#[verifier::external_body]
pub(crate) fn data_elliptical_arc_to(
    data: Data,
    rx: i64,
    ry: i64,
    rotation: i64,
    large_arc: u8,
    sweep: u8,
    x: i64,
    y: i64,
) -> (out: Data)
    requires
        path_number(rx as int),
        path_number(ry as int),
        path_number(rotation as int),
        path_number(x as int),
        path_number(y as int),
    ensures
        data_commands(out) == data_commands(data).push(
            PathCommand::EllipticalArc {
                rx: rx as int,
                ry: ry as int,
                rotation: rotation as int,
                large_arc: large_arc as int,
                sweep: sweep as int,
                x: x as int,
                y: y as int,
            },
        ),
{
    data.elliptical_arc_to((rx, ry, rotation, large_arc, sweep, x, y))
}

/// `Data::close`: pushes a close command.
#[verifier::external_body]
pub(crate) fn data_close(data: Data) -> (out: Data)
    ensures
        data_commands(out) == data_commands(data).push(PathCommand::Close),
{
    data.close()
}

/// `Element::new`: an element with the given tag, without attributes and
/// without children.
#[verifier::external_body]
pub(crate) fn element_new(tag: &str) -> (out: Element)
    ensures
        element_node(out) == (SvgNode { tag: tag@, attrs: Map::empty() }),
{
    Element::new(tag)
}

/// `Node::assign` of an element, with a text: sets the attribute `name` to
/// that text; tag and other attributes stay.
#[verifier::external_body]
pub(crate) fn element_set_text(element: Element, name: &str, value: &str) -> (out: Element)
    ensures
        element_node(out) == (SvgNode {
            tag: element_node(element).tag,
            attrs: element_node(element).attrs.insert(name@, value@),
        }),
{
    let mut element = element;
    element.assign(name, value);
    element
}

/// `Node::assign` of an element, with a signed number: sets the attribute
/// `name` to the number, written in decimal; tag and other attributes stay.
#[verifier::external_body]
pub(crate) fn element_set_signed(element: Element, name: &str, value: i64) -> (out: Element)
    ensures
        element_node(out) == (SvgNode {
            tag: element_node(element).tag,
            attrs: element_node(element).attrs.insert(name@, decimal(value as int)),
        }),
{
    let mut element = element;
    element.assign(name, value);
    element
}

/// `Node::assign` of an element, with an unsigned number: sets the
/// attribute `name` to the number, written in decimal; tag and other
/// attributes stay.
#[verifier::external_body]
pub(crate) fn element_set_unsigned(element: Element, name: &str, value: u64) -> (out: Element)
    ensures
        element_node(out) == (SvgNode {
            tag: element_node(element).tag,
            attrs: element_node(element).attrs.insert(name@, decimal(value as int)),
        }),
{
    let mut element = element;
    element.assign(name, value);
    element
}

/// `Node::assign` of an element, with path data: sets the attribute `name`
/// to the text the data is written as; tag and other attributes stay.
#[verifier::external_body]
pub(crate) fn element_set_data(element: Element, name: &str, value: Data) -> (out: Element)
    ensures
        element_node(out) == (SvgNode {
            tag: element_node(element).tag,
            attrs: element_node(element).attrs.insert(name@, path_text(data_commands(value))),
        }),
{
    let mut element = element;
    element.assign(name, value);
    element
}

/// The attributes of a document that was just made: `xmlns`, the SVG
/// namespace.
pub open spec fn fresh_doc_attrs() -> Map<Seq<char>, Seq<char>> {
    Map::empty().insert("xmlns"@, "http://www.w3.org/2000/svg"@)
}

/// `Document::new`: a document without children whose one attribute,
/// `xmlns`, is the SVG namespace.
#[verifier::external_body]
pub(crate) fn doc_new() -> (out: Document)
    ensures
        doc_nodes(out) == Seq::<SvgNode>::empty(),
        doc_attrs(out) == fresh_doc_attrs(),
{
    Document::new()
}

/// `Document::set`, with four numbers: sets the attribute `name` to the
/// four numbers written in decimal with blanks between them; children and
/// other attributes stay.
#[verifier::external_body]
pub(crate) fn doc_set_quad(doc: Document, name: &str, value: (i64, i64, u64, u64)) -> (out:
    Document)
    ensures
        doc_nodes(out) == doc_nodes(doc),
        doc_attrs(out) == doc_attrs(doc).insert(
            name@,
            quad_text(value.0 as int, value.1 as int, value.2 as int, value.3 as int),
        ),
{
    doc.set(name, value)
}

/// `Document::add`, with an element that has no children: appends the
/// element as the last child; the attributes stay.
#[verifier::external_body]
pub(crate) fn doc_add(doc: Document, element: Element) -> (out: Document)
    ensures
        doc_nodes(out) == doc_nodes(doc).push(element_node(element)),
        doc_attrs(out) == doc_attrs(doc),
{
    doc.add(element)
}

} // verus!
