use gallifreyan::canvas_init;
use gallifreyan::ctx::{ColourContext, Context, StrokeContext};
use gallifreyan::decorator::{CirculcarLine, Linebuilder, StraightLine};
use gallifreyan::pord::{PordGraph, PordOrCord, PordRef};
use gallifreyan::svg_str;

fn ctx() -> Context {
    Context::new(ColourContext::new("white", "none", "red"), StrokeContext::new(10), &(1024, 1024))
}

fn scene() -> (PordGraph, PordRef, PordRef, PordRef) {
    let mut graph = PordGraph::new();
    let a = graph.add(PordOrCord::Cord(100, 100));
    let b = graph.add(PordOrCord::Cord(400, 500));
    let c = graph.add(PordOrCord::Gord(0, 0));
    (graph, a, b, c)
}

#[test]
fn adds_fill_the_slots_in_order() {
    let (_, a, b, c) = scene();
    let mut lb = Linebuilder::new(&ctx());
    assert_eq!(lb.add_pord(a), Ok(()));
    assert_eq!(lb.add_pord(b), Ok(()));
    assert_eq!(lb.add_pord(c), Ok(()));
    assert_eq!(lb.add_pord(PordRef(9)), Err(PordRef(9)));
    assert_eq!(lb.add_pord(a), Err(a));
    let (graph, _, _, _) = scene();
    let line = CirculcarLine::try_from(lb).ok().unwrap();
    // slot 3 is the control anchor: |A - C|^2 = 100^2 + 100^2, |B - C|^2 = 400^2 + 500^2
    let mean = (100 * 100 + 100 * 100 + 400 * 400 + 500 * 500) / 2;
    let r = line.radius(&graph);
    assert!(r * r <= mean && mean < (r + 1) * (r + 1));
    assert_eq!(r, 463);
}

#[test]
fn two_anchors_make_a_straight_line() {
    let (graph, a, b, _) = scene();
    let mut lb = Linebuilder::new(&ctx());
    lb.add_pord(a).unwrap();
    lb.add_pord(b).unwrap();
    let line = StraightLine::try_from(lb).ok().unwrap();
    let (doc, _) = canvas_init(2048, 2048, "white");
    let text = svg_str(&line.draw(doc, &graph));
    assert!(text.contains("<line"), "{}", text);
    assert!(text.contains("x1=\"100\""));
    assert!(text.contains("y1=\"100\""));
    assert!(text.contains("x2=\"400\""));
    assert!(text.contains("y2=\"500\""));
    assert!(text.contains("stroke=\"red\""));
    assert!(text.contains("stroke-width=\"10\""));
}

#[test]
fn a_third_anchor_is_dropped_by_a_straight_line() {
    let (graph, a, b, c) = scene();
    let mut lb = Linebuilder::new(&ctx());
    lb.add_pord(a).unwrap();
    lb.add_pord(b).unwrap();
    lb.add_pord(c).unwrap();
    let line = StraightLine::try_from(lb).ok().unwrap();
    let (doc, _) = canvas_init(2048, 2048, "white");
    let text = svg_str(&line.draw(doc, &graph));
    assert_eq!(text.matches("<line").count(), 1);
    assert!(text.contains("x2=\"400\""));
}

#[test]
fn one_anchor_makes_no_line_and_the_builder_comes_back() {
    let (_, a, b, c) = scene();
    let mut lb = Linebuilder::new(&ctx());
    lb.add_pord(a).unwrap();
    let back = match CirculcarLine::try_from(lb) {
        Ok(_) => panic!("a line of one anchor"),
        Err(back) => back,
    };
    let mut back = match StraightLine::try_from(back) {
        Ok(_) => panic!("a line of one anchor"),
        Err(back) => back,
    };
    // the builder that came back still has its first slot filled, and only that
    assert_eq!(back.add_pord(b), Ok(()));
    assert_eq!(back.add_pord(c), Ok(()));
    assert_eq!(back.add_pord(a), Err(a));
    let empty = Linebuilder::new(&ctx());
    assert!(StraightLine::try_from(empty).is_err());
}

#[test]
fn two_anchors_make_no_circular_line() {
    let (_, a, b, _) = scene();
    let mut lb = Linebuilder::new(&ctx());
    lb.add_pord(a).unwrap();
    lb.add_pord(b).unwrap();
    assert!(CirculcarLine::try_from(lb).is_err());
}

#[test]
fn three_anchors_make_a_big_arc() {
    let (graph, a, b, c) = scene();
    let mut lb = Linebuilder::new(&ctx());
    lb.add_pord(a).unwrap();
    lb.add_pord(b).unwrap();
    lb.add_pord(c).unwrap();
    let line = CirculcarLine::try_from(lb).ok().unwrap();
    let (doc, _) = canvas_init(2048, 2048, "white");
    let text = svg_str(&line.draw_big(doc, &graph));
    assert!(text.contains("d=\"M100,100 A463,463,0,1,0,400,500\""), "{}", text);
    assert!(text.contains("stroke=\"red\""));
}

#[test]
fn three_anchors_make_a_small_arc() {
    let (graph, a, b, c) = scene();
    let mut lb = Linebuilder::new(&ctx());
    lb.add_pord(a).unwrap();
    lb.add_pord(b).unwrap();
    lb.add_pord(c).unwrap();
    let line = CirculcarLine::try_from(lb).ok().unwrap();
    let (doc, _) = canvas_init(2048, 2048, "white");
    let text = svg_str(&line.draw_small(doc, &graph));
    assert!(text.contains("d=\"M100,100 A463,463,0,0,0,400,500\""), "{}", text);
}

#[test]
fn switch_exchanges_the_first_two_slots() {
    let (graph, a, b, c) = scene();
    let mut lb = Linebuilder::new(&ctx());
    lb.add_pord(a).unwrap();
    lb.add_pord(b).unwrap();
    lb.add_pord(c).unwrap();
    lb.switch_pord_1_2();
    let line = StraightLine::try_from(lb).ok().unwrap();
    let (doc, _) = canvas_init(2048, 2048, "white");
    let text = svg_str(&line.draw(doc, &graph));
    assert!(text.contains("x1=\"400\""), "{}", text);
    assert!(text.contains("x2=\"100\""));
}

#[test]
fn switch_moves_a_lone_anchor_to_the_other_slot() {
    let (_, a, b, _) = scene();
    let mut lb = Linebuilder::new(&ctx());
    lb.add_pord(a).unwrap();
    lb.switch_pord_1_2();
    // slot 1 is empty now, so the next anchor goes there
    lb.add_pord(b).unwrap();
    let twin = lb.clone();
    let (graph, _, _, _) = scene();
    let line = StraightLine::try_from(twin).ok().unwrap();
    let (doc, _) = canvas_init(2048, 2048, "white");
    let text = svg_str(&line.draw(doc, &graph));
    assert!(text.contains("x1=\"400\""), "{}", text);
    assert!(text.contains("x2=\"100\""));
    assert_eq!((lb.pord1(), lb.pord2(), lb.pord3()), (Some(b), Some(a), None));
    lb.switch_pord_1_2();
    lb.switch_pord_1_2();
    assert_eq!((lb.pord1(), lb.pord2(), lb.pord3()), (Some(b), Some(a), None));
    assert!(StraightLine::try_from(lb).is_ok());
}
