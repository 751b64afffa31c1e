use gallifreyan::basic;
use gallifreyan::ctx::{ColourContext, Context, StrokeContext};
use gallifreyan::pord::{PordGraph, PordOrCord};
use gallifreyan::utils::SweepDirection;
use gallifreyan::{canvas_init, svg_str};

fn count(haystack: &str, needle: &str) -> usize {
    haystack.matches(needle).count()
}

#[test]
fn canvas_origin_is_the_middle() {
    let (_, origin) = canvas_init(2048, 1000, "yellow");
    assert_eq!(origin, (1024, 500));
    let (_, odd) = canvas_init(7, 9, "yellow");
    assert_eq!(odd, (3, 4));
}

#[test]
fn canvas_has_view_box_and_background() {
    let (doc, _) = canvas_init(2048, 1000, "yellow");
    let text = svg_str(&doc);
    assert!(text.contains("viewBox=\"0 0 2048 1000\""), "{}", text);
    assert!(text.starts_with("<svg "));
    assert!(text.contains("xmlns=\"http://www.w3.org/2000/svg\""));
    assert_eq!(count(&text, "<rect"), 1);
    assert!(text.contains("fill=\"yellow\""));
    assert!(text.contains("stroke=\"none\""));
    assert!(text.contains("width=\"2048\""));
    assert!(text.contains("height=\"1000\""));
    assert!(text.contains("x=\"0\""));
    assert!(text.contains("y=\"0\""));
}

#[test]
fn empty_canvas_with_one_circle() {
    let (doc, origin) = canvas_init(2048, 2048, "white");
    let mut graph = PordGraph::new();
    let gal_origin = graph.add(PordOrCord::Gord(0, 0));
    let ctx = Context::new(ColourContext::default(), StrokeContext::new(60), &origin);
    assert_eq!(ctx.stroke().i_stroke(), 30);
    assert_eq!(ctx.stroke().o_stroke(), 30);
    let doc = basic::circle(doc, &graph, gal_origin, 970, &ctx);
    let text = svg_str(&doc);
    assert_eq!(count(&text, "<rect"), 1);
    assert_eq!(count(&text, "<circle"), 1);
    assert!(text.contains("cx=\"1024\""), "{}", text);
    assert!(text.contains("cy=\"1024\""));
    assert!(text.contains("r=\"970\""));
    assert!(text.contains("stroke=\"black\""));
    assert!(text.contains("stroke-width=\"60\""));
    assert!(text.contains("fill=\"none\""));
}

#[test]
fn numbers_are_written_in_decimal_with_their_sign() {
    let (doc, _) = canvas_init(100, 100, "white");
    let mut graph = PordGraph::new();
    let at = graph.add(PordOrCord::Cord(-5, 0));
    let ctx = Context::new(ColourContext::new("white", "5", "1 2 3 4"), StrokeContext::new(0), &(0, 0));
    let doc = basic::circle(doc, &graph, at, 1_234_567_890, &ctx);
    let text = svg_str(&doc);
    let line = text.lines().find(|l| l.starts_with("<circle")).unwrap();
    assert_eq!(
        line,
        "<circle cx=\"-5\" cy=\"0\" fill=\"5\" r=\"1234567890\" stroke=\"1 2 3 4\" stroke-width=\"0\"/>"
    );
}

#[test]
fn big_and_small_arcs_differ_in_the_large_arc_flag() {
    let (doc, origin) = canvas_init(100, 100, "white");
    let mut graph = PordGraph::new();
    let a = graph.add(PordOrCord::Cord(10, 20));
    let b = graph.add(PordOrCord::Gord(30, 10));
    let ctx = Context::new(ColourContext::default(), StrokeContext::new(4), &origin);
    let big = basic::arc_big_circle(doc.clone(), &graph, a, b, 25, SweepDirection(false), &ctx);
    let text = svg_str(&big);
    assert!(text.contains("d=\"M10,20 A25,25,0,1,0,80,40\""), "{}", text);
    let small = basic::arc_small_circle(doc, &graph, a, b, 25, SweepDirection(true), &ctx);
    let text = svg_str(&small);
    assert!(text.contains("d=\"M10,20 A25,25,0,0,1,80,40\""), "{}", text);
    assert!(text.contains("stroke-width=\"4\""));
}

#[test]
fn arc_path_goes_out_and_back_and_closes() {
    let (doc, origin) = canvas_init(100, 100, "white");
    let mut graph = PordGraph::new();
    let a = graph.add(PordOrCord::Cord(10, 20));
    let b = graph.add(PordOrCord::Cord(40, 20));
    let ctx = Context::new(ColourContext::default_path(), StrokeContext::new(0), &origin);
    let doc = basic::arc_path(doc, &graph, 3, a, b, 30, SweepDirection(true), &ctx);
    let text = svg_str(&doc);
    assert!(text.contains("d=\"M10,20 A33,33,0,0,1,40,20 A27,27,0,0,0,10,20 z\""), "{}", text);
    assert!(text.contains("fill=\"black\""));
}
