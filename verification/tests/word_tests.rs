use gallifreyan::angle::{Angle, HALF_PI, PI, TAU};
use gallifreyan::canvas_init;
use gallifreyan::ctx::{ColourContext, Context, StrokeContext};
use gallifreyan::pord::{Cartesian, POrd, Polar, PordGraph, PordOrCord, PordRef};
use gallifreyan::svg_str;
use gallifreyan::utils::{PathBuilder, SvgPosition};
use gallifreyan::band::{
    draw_letter_arc, draw_stacked_letter_arc, make_band, Band, RadiusType,
};
use gallifreyan::glyph::{calc_thi_sides, cos_rule_angle_c, make_glyph, Sighting};
use gallifreyan::order::{settle_wrap, sort_by_bearing};
use gallifreyan::word::{
    place_dist, Bearings, LetterArc, Word, WordArc, WordCircle, WordError,
};
use gallifreyan::StemType;

fn ang(theta: f64) -> Angle {
    Angle::new(
        (theta * 1e6).round() as i64,
        (theta.sin() * 1e6) as i64,
        (theta.cos() * 1e6) as i64,
    )
}

fn measure(s: &Sighting) -> Bearings {
    let arctan = ang((s.offset.0 as f64).atan2(s.offset.1 as f64));
    let arccos = s.sides.map(|(a, b, c)| {
        let top = a as f64 + b as f64 - c as f64;
        let bot = 2.0 * (a as f64).sqrt() * (b as f64).sqrt();
        let ratio = if bot == 0.0 { 0.0 } else { (top / bot).clamp(-1.0, 1.0) };
        ang(ratio.acos())
    });
    Bearings::new(arctan, arccos)
}

fn bearings_at(bearing: f64) -> Bearings {
    let raw = if bearing > std::f64::consts::PI { bearing - 2.0 * std::f64::consts::PI } else { bearing };
    Bearings::new(ang(raw), [Angle::zero(); 5])
}

fn word_ctx() -> Context {
    Context::new(ColourContext::default(), StrokeContext::new(40), &(1024, 1024))
}

fn letter_ctx() -> Context {
    Context::new(ColourContext::new("white", "none", "blue"), StrokeContext::new(20), &(1024, 1024))
}

/// Places a letter at the given bearing from the word's centre and adds it.
fn add_at(
    word: &mut WordCircle,
    graph: &mut PordGraph,
    dist: i64,
    bearing: f64,
    radius: i64,
    stem: StemType,
) -> PordRef {
    let theta = ang(std::f64::consts::PI - bearing);
    let pord = graph.add(PordOrCord::Pord(POrd::new(dist, theta, word.pord())));
    let ctx = Some(letter_ctx());
    let seen = word.sight(graph, pord, radius, &ctx);
    word.new_letter(pord, radius, stem, ctx, measure(&seen))
}

fn text(builder: PathBuilder) -> String {
    svg::node::Value::from(builder.build_data()).to_string()
}

fn count(haystack: &str, needle: &str) -> usize {
    haystack.matches(needle).count()
}

fn paths(text: &str) -> Vec<String> {
    text.lines()
        .filter(|l| l.starts_with("<path"))
        .map(|l| {
            let from = l.find("d=\"").unwrap() + 3;
            let to = l[from..].find('"').unwrap() + from;
            l[from..to].to_string()
        })
        .collect()
}

#[test]
fn cos_rule_is_defined_for_triangles_only() {
    let a = Angle::quarter();
    assert_eq!(cos_rule_angle_c(9, 16, 25, a), Some(a));
    assert_eq!(cos_rule_angle_c(1, 1, 9, a), None);
    assert_eq!(cos_rule_angle_c(9, 1, 1, a), None);
    // degenerate triangles: c = a + b and c = |a - b|
    assert_eq!(cos_rule_angle_c(4, 9, 25, a), Some(a));
    assert_eq!(cos_rule_angle_c(4, 9, 26, a), None);
    assert_eq!(cos_rule_angle_c(25, 9, 4, a), Some(a));
    assert_eq!(cos_rule_angle_c(25, 9, 3, a), None);
    // no side a: defined exactly where b = c
    assert_eq!(cos_rule_angle_c(0, 7, 7, a), Some(a));
    assert_eq!(cos_rule_angle_c(0, 7, 8, a), None);
    // a squared side cannot be negative
    assert_eq!(cos_rule_angle_c(-1, 1, 0, a), None);
    assert_eq!(cos_rule_angle_c(1, -1, 0, a), None);
    assert_eq!(cos_rule_angle_c(4, 4, -1, a), None);
    // the largest squared sides there are
    assert_eq!(cos_rule_angle_c(i64::MAX, i64::MAX, i64::MAX, a), Some(a));
    assert_eq!(cos_rule_angle_c(i64::MAX, i64::MAX, 0, a), Some(a));
    assert_eq!(cos_rule_angle_c(i64::MAX, 1, 0, a), None);
    assert_eq!(cos_rule_angle_c(0, 0, i64::MAX, a), None);
    assert_eq!(cos_rule_angle_c(0, 0, 0, a), Some(a));
    // sides that are no whole numbers: a = b = sqrt(2), c = 2
    assert_eq!(cos_rule_angle_c(2, 2, 4, a), Some(a));
    assert_eq!(cos_rule_angle_c(2, 2, 8, a), Some(a));
    assert_eq!(cos_rule_angle_c(2, 2, 9, a), None);
}

#[test]
fn thi_sides_pair_the_boundaries_with_the_edges() {
    let band = Band { x: 0, y: 0, inner: 380, outer: 420 };
    let sides = calc_thi_sides(315 * 315, &band, 110, 130);
    assert_eq!(sides[0], (99225, 176400, 12100));
    assert_eq!(sides[1], (99225, 144400, 16900));
    assert_eq!(sides[2], (99225, 144400, 12100));
    assert_eq!(sides[3], (99225, 176400, 16900));
    assert_eq!(sides[4], (99225, 16900, 144400));
}

#[test]
fn band_points_lie_on_the_rings() {
    let band = Band { x: 1000, y: 2000, inner: 380, outer: 420 };
    assert_eq!(band.calc_word_arc_svg_point(&Angle::zero(), RadiusType::Inner).0, 1000);
    assert_eq!(band.calc_word_arc_svg_point(&Angle::zero(), RadiusType::Inner).1, 2380);
    let p = band.calc_word_arc_svg_point(&Angle::quarter(), RadiusType::Outer);
    assert_eq!((p.0, p.1), (1420, 2000));
    let p = band.calc_word_arc_svg_point(&Angle::half(), RadiusType::Average);
    assert_eq!((p.0, p.1), (1000, 2000 - 400));
    let p = band.calc_word_arc_svg_point(&Angle::new(523_599, 500_000, 866_025), RadiusType::Outer);
    assert_eq!((p.0, p.1), (1210, 2363));
}

#[test]
fn sort_key_rounds_to_the_sort_precision() {
    let l = LetterArc::new(PordRef(0), 10, StemType::J, None, bearings_at(1.0004));
    assert_eq!(l.sort_key(), 1000);
    let l = LetterArc::new(PordRef(0), 10, StemType::J, None, bearings_at(1.0005));
    assert_eq!(l.sort_key(), 1001);
    let l = LetterArc::new(PordRef(0), 10, StemType::J, None, bearings_at(6.0));
    assert_eq!(l.sort_key(), 6000);
    assert_eq!(l.bearing().rad(), 6_000_000);
    let l = LetterArc::new(PordRef(0), 10, StemType::J, None, bearings_at(0.0));
    assert_eq!(l.sort_key(), 0);
}

#[test]
fn sorting_orders_by_bearing_and_keeps_ties() {
    let letters = vec![
        LetterArc::new(PordRef(0), 10, StemType::J, None, bearings_at(3.0)),
        LetterArc::new(PordRef(1), 10, StemType::J, None, bearings_at(1.0002)),
        LetterArc::new(PordRef(2), 10, StemType::J, None, bearings_at(5.0)),
        LetterArc::new(PordRef(3), 10, StemType::J, None, bearings_at(1.0)),
        LetterArc::new(PordRef(4), 10, StemType::J, None, bearings_at(0.5)),
    ];
    let sorted = sort_by_bearing(letters);
    let order: Vec<usize> = sorted.iter().map(|l| l.pord().0).collect();
    // 1.0002 and 1.0 share a sort key and keep their order
    assert_eq!(order, vec![4, 1, 3, 0, 2]);
    let again = sort_by_bearing(sorted);
    let order: Vec<usize> = again.iter().map(|l| l.pord().0).collect();
    assert_eq!(order, vec![4, 1, 3, 0, 2]);
    assert!(sort_by_bearing(Vec::new()).is_empty());
}

#[test]
fn wrap_fix_moves_late_letters_behind_the_first() {
    let letters = || {
        vec![
            LetterArc::new(PordRef(0), 10, StemType::B, None, bearings_at(0.1)),
            LetterArc::new(PordRef(1), 10, StemType::J, None, bearings_at(3.0)),
            LetterArc::new(PordRef(2), 10, StemType::J, None, bearings_at(6.1)),
            LetterArc::new(PordRef(3), 10, StemType::J, None, bearings_at(6.2)),
        ]
    };
    let (fixed, settled) = settle_wrap(letters(), 6_050_000);
    assert!(settled);
    let order: Vec<usize> = fixed.iter().map(|l| l.pord().0).collect();
    assert_eq!(order, vec![0, 2, 3, 1]);
    let (kept, settled) = settle_wrap(letters(), 6_200_000);
    assert!(settled);
    let order: Vec<usize> = kept.iter().map(|l| l.pord().0).collect();
    assert_eq!(order, vec![0, 1, 2, 3]);
    // every letter but the first lies beyond the overlap: the fix never comes to rest
    let (_, settled) = settle_wrap(letters(), 2_000_000);
    assert!(!settled);
    let (none, settled) = settle_wrap(Vec::new(), 0);
    assert!(settled && none.is_empty());
}

#[test]
fn word_without_cutting_letters_is_a_plain_circle() {
    let (doc, origin) = canvas_init(2048, 2048, "white");
    let mut graph = PordGraph::new();
    let gal_origin = graph.add(PordOrCord::Gord(0, 0));
    let prime = Context::new(ColourContext::default(), StrokeContext::new(60), &origin);
    let w_ctx = prime.new_strokewidth(40);
    let l_ctx = prime.new_strokewidth(25);
    let word_pord = graph.add(PordOrCord::Pord(POrd::new(450, Angle::zero(), gal_origin)));
    let mut word = WordCircle::new("hello", word_pord, 400, w_ctx);
    let letter = word.new_letter_from_data(
        &mut graph,
        315,
        Angle::zero(),
        120,
        StemType::J,
        Some(l_ctx),
        bearings_at(std::f64::consts::PI),
    );
    assert_eq!(graph.abs_svg_xy(letter, origin), (1024, 259));
    assert_eq!(word.arcs().len(), 1);
    assert!(word.sorted());
    let text = svg_str(&word.draw(doc, &graph));
    assert_eq!(count(&text, "<circle"), 2);
    assert_eq!(count(&text, "<path"), 0);
    let lines: Vec<&str> = text.lines().collect();
    assert_eq!(
        lines[2],
        "<circle cx=\"1024\" cy=\"574\" fill=\"none\" r=\"400\" stroke=\"black\" stroke-width=\"40\"/>"
    );
    assert_eq!(
        lines[3],
        "<circle cx=\"1024\" cy=\"259\" fill=\"none\" r=\"120\" stroke=\"black\" stroke-width=\"25\"/>"
    );
}

#[test]
fn word_without_letters_is_a_plain_circle() {
    let (doc, _) = canvas_init(2048, 2048, "white");
    let mut graph = PordGraph::new();
    let centre = graph.add(PordOrCord::Cord(1000, 1000));
    let word = WordCircle::new("empty", centre, 400, word_ctx());
    assert!(word.get_first_letter().is_none());
    assert!(word.get_last_letter().is_none());
    let text = svg_str(&word.draw(doc, &graph));
    assert_eq!(count(&text, "<circle"), 1);
    assert!(text.contains("cx=\"1000\""));
    assert!(text.contains("r=\"400\""));
}

#[test]
fn letter_with_stem_s_is_moved_out_by_half_the_stroke() {
    assert_eq!(place_dist(200, StemType::S, &word_ctx()), 220);
    assert_eq!(place_dist(200, StemType::B, &word_ctx()), 200);
    assert_eq!(place_dist(200, StemType::J, &word_ctx()), 200);
    assert_eq!(place_dist(200, StemType::Z, &word_ctx()), 200);
    let mut graph = PordGraph::new();
    let centre = graph.add(PordOrCord::Cord(1000, 1000));
    let mut word = WordCircle::new("w", centre, 400, word_ctx());
    let at = word.new_letter_from_data(
        &mut graph,
        200,
        Angle::quarter(),
        80,
        StemType::S,
        None,
        bearings_at(HALF_PI as f64 / 1e6),
    );
    assert_eq!(graph.abs_svg_xy(at, (0, 0)), (1220, 1000));
    assert_eq!(word.get_radii(), (380, 420));
}

#[test]
fn band_with_one_cutting_letter_and_one_circle() {
    let (doc, _) = canvas_init(2048, 2048, "white");
    let mut graph = PordGraph::new();
    let centre = graph.add(PordOrCord::Cord(1000, 1000));
    let mut word = WordCircle::new("test", centre, 400, word_ctx());
    let b_pord = add_at(&mut word, &mut graph, 315, std::f64::consts::FRAC_PI_2, 120, StemType::B);
    assert!(word.sorted());
    add_at(&mut word, &mut graph, 130, 0.0, 40, StemType::J);
    assert!(!word.sorted());
    assert_eq!(graph.abs_svg_xy(b_pord, (0, 0)), (1315, 1000));

    let band = make_band(&graph, centre, 400, &word_ctx());
    assert_eq!(band, Band { x: 1000, y: 1000, inner: 380, outer: 420 });
    let glyph = make_glyph(&graph, centre, &band, &word_ctx(), &word.arcs()[0]);
    assert_eq!(glyph.inner_radius, 110);
    assert_eq!(glyph.outer_radius, 130);
    assert_eq!(glyph.bearing.rad(), HALF_PI);
    let outer_thi = glyph.thi.outer_thi.unwrap().rad();
    let inner_thi = glyph.thi.inner_thi.unwrap().rad();
    // acos(263525 / 264600) and acos(226725 / 239400)
    assert_eq!(outer_thi, 90_172);
    assert_eq!(inner_thi, 326_860);
    assert_eq!(inner_thi, ((226725.0f64 / 239400.0).acos() * 1e6).round() as i64);
    let (left, right) = (glyph.left_angle(), glyph.right_angle());
    assert_eq!(right.0 .0.rad() - left.0 .0.rad(), 2 * inner_thi);
    assert_eq!(right.1 .0.rad() - left.1 .0.rad(), 2 * outer_thi);
    assert_eq!(left.0 .0.rad(), HALF_PI - inner_thi);
    assert_eq!(right.1 .0.rad(), HALF_PI + outer_thi);

    let text = svg_str(&word.draw(doc, &graph));
    assert_eq!(count(&text, "<path"), 2);
    assert_eq!(count(&text, "<circle"), 1);
    let lines: Vec<&str> = text.lines().collect();
    assert!(lines[2].starts_with("<path") && lines[2].contains("fill=\"black\""), "{}", text);
    assert!(lines[2].contains("stroke=\"none\"") && lines[2].contains("stroke-width=\"0\""));
    assert!(lines[3].starts_with("<path") && lines[3].contains("fill=\"white\""));
    assert!(lines[4].starts_with("<circle") && lines[4].contains("stroke=\"blue\""));
    assert!(lines[4].contains("cx=\"1000\"") && lines[4].contains("cy=\"1130\"") && lines[4].contains("r=\"40\""));

    let pt = |a: &Angle, ring: RadiusType| {
        let p = band.calc_word_arc_svg_point(a, ring);
        format!("{},{}", p.0, p.1)
    };
    let inner = format!(
        "M1000,1380 A380,380,0,0,0,{} A130,130,0,1,1,{} A380,380,0,1,0,1000,1380",
        pt(&left.0 .0, RadiusType::Inner),
        pt(&right.0 .0, RadiusType::Inner),
    );
    let outer = format!(
        "M1000,1420 A420,420,0,0,0,{} A110,110,0,1,1,{} A420,420,0,1,0,1000,1420",
        pt(&left.1 .0, RadiusType::Outer),
        pt(&right.1 .0, RadiusType::Outer),
    );
    let back = format!(
        "M1000,1380 A380,380,0,1,1,{} A130,130,0,1,0,{} A380,380,0,0,1,1000,1380",
        pt(&right.0 .0, RadiusType::Inner),
        pt(&left.0 .0, RadiusType::Inner),
    );
    let d = paths(&text);
    assert_eq!(d[0], format!("{} {} z", outer, back));
    assert_eq!(d[1], format!("{} z", inner));
}

#[test]
fn stacked_cutting_letters_make_one_patch() {
    let (doc, _) = canvas_init(2048, 2048, "white");
    let mut graph = PordGraph::new();
    let centre = graph.add(PordOrCord::Cord(1000, 1000));
    let mut word = WordCircle::new("test", centre, 400, word_ctx());
    let shared = add_at(&mut word, &mut graph, 315, std::f64::consts::FRAC_PI_2, 120, StemType::B);
    let ctx = Some(letter_ctx());
    let seen = word.sight(&graph, shared, 150, &ctx);
    assert_eq!(word.new_letter(shared, 150, StemType::B, ctx, measure(&seen)), shared);
    assert!(word.sorted());
    assert_eq!(word.arcs().len(), 2);
    let text = svg_str(&word.draw(doc, &graph));
    assert_eq!(count(&text, "<path"), 3);
    assert_eq!(count(&text, "<circle"), 0);
    let d = paths(&text);
    // the band has one notch only
    assert_eq!(count(&d[1], "A130,130"), 1);
    assert_eq!(count(&d[1], " A"), 3);
    // the patch: a move, four arcs about the word and the letter in turn, closed
    let patch = &d[2];
    assert!(patch.starts_with('M') && patch.ends_with(" z"), "{}", patch);
    assert_eq!(count(patch, "M"), 1);
    assert_eq!(count(patch, " A"), 4);
    let arcs: Vec<&str> = patch.split(' ').filter(|c| c.starts_with('A')).collect();
    assert!(arcs[0].starts_with("A380,380,0,0,0,"));
    assert!(arcs[1].starts_with("A150,150,0,1,1,"));
    assert!(arcs[2].starts_with("A380,380,0,0,0,"));
    assert!(arcs[3].starts_with("A180,180,0,1,0,"));
    let lines: Vec<&str> = text.lines().collect();
    assert!(lines[4].contains("fill=\"black\""));
}

#[test]
fn letter_anchored_at_the_letter_before_is_stacked() {
    let (doc, _) = canvas_init(2048, 2048, "white");
    let mut graph = PordGraph::new();
    let centre = graph.add(PordOrCord::Cord(1000, 1000));
    let mut word = WordCircle::new("test", centre, 400, word_ctx());
    let first = add_at(&mut word, &mut graph, 315, 1.0, 120, StemType::B);
    let child = graph.add(PordOrCord::Pord(POrd::new(0, Angle::zero(), first)));
    let ctx = Some(letter_ctx());
    let seen = word.sight(&graph, child, 150, &ctx);
    assert_eq!(word.new_letter(child, 150, StemType::S, ctx, measure(&seen)), child);
    let text = svg_str(&word.draw(doc, &graph));
    assert_eq!(count(&text, "<path"), 3);
    let d = paths(&text);
    // stem S never takes the large arc
    let arcs: Vec<&str> = d[2].split(' ').filter(|c| c.starts_with('A')).collect();
    assert!(arcs[1].starts_with("A150,150,0,0,1,"), "{}", d[2]);
    assert!(arcs[3].starts_with("A180,180,0,0,0,"));
}

#[test]
fn letters_out_of_order_are_sorted_when_drawn() {
    let mut graph = PordGraph::new();
    let centre = graph.add(PordOrCord::Cord(1000, 1000));
    let mut word = WordCircle::new("test", centre, 400, word_ctx());
    let c = add_at(&mut word, &mut graph, 200, 4.0, 40, StemType::S);
    let a = add_at(&mut word, &mut graph, 200, 1.0, 40, StemType::J);
    let b = add_at(&mut word, &mut graph, 200, 2.0, 40, StemType::Z);
    assert!(!word.sorted());
    assert_eq!(word.get_first_letter().unwrap().pord(), c);
    assert_eq!(word.get_last_letter().unwrap().pord(), b);
    assert!(word.can_sort(&graph));
    word.sort_letters(&graph);
    assert!(word.sorted());
    let order: Vec<PordRef> = word.arcs().iter().map(|l| l.pord()).collect();
    assert_eq!(order, vec![a, b, c]);
    assert!(word.can_sort(&graph));
    word.sort_letters(&graph);
    let again: Vec<PordRef> = word.arcs().iter().map(|l| l.pord()).collect();
    assert_eq!(again, order);
}

#[test]
fn last_letter_over_the_first_notch_moves_behind_the_first() {
    let mut graph = PordGraph::new();
    let centre = graph.add(PordOrCord::Cord(1000, 1000));
    let mut word = WordCircle::new("test", centre, 400, word_ctx());
    let late = add_at(&mut word, &mut graph, 130, 6.2, 40, StemType::J);
    let mid = add_at(&mut word, &mut graph, 130, 3.0, 40, StemType::J);
    let first = add_at(&mut word, &mut graph, 315, 0.1, 120, StemType::B);
    assert!(word.can_sort(&graph));
    assert_eq!(word.draw_verdict(&graph), None);
    // the test leaves the letters as they were
    let held: Vec<PordRef> = word.arcs().iter().map(|l| l.pord()).collect();
    assert_eq!(held, vec![late, mid, first]);
    word.sort_letters(&graph);
    let order: Vec<PordRef> = word.arcs().iter().map(|l| l.pord()).collect();
    assert_eq!(order, vec![first, late, mid]);
}

#[test]
fn sorting_fails_where_the_fix_cannot_rest() {
    let mut graph = PordGraph::new();
    let centre = graph.add(PordOrCord::Cord(1000, 1000));
    let mut word = WordCircle::new("test", centre, 400, word_ctx());
    add_at(&mut word, &mut graph, 130, 6.2, 40, StemType::J);
    add_at(&mut word, &mut graph, 315, 0.1, 120, StemType::B);
    assert!(!word.sorted());
    assert!(!word.can_sort(&graph));
    let e = word.draw_verdict(&graph).unwrap();
    assert_eq!(e, WordError::SortFailed);
    assert_eq!(e.message(), "sorting failed, continuously looping");
    assert_eq!(word.arcs().len(), 2);
}

#[test]
fn arc_word_turns_away_letters_off_the_arc() {
    let mut graph = PordGraph::new();
    let centre = graph.add(PordOrCord::Cord(1000, 1000));
    let mut word = WordArc::new("arc", centre, 400, ang(1.0), ang(2.0), ang(0.1), word_ctx());
    assert_eq!(word.start_angle().rad(), 1_000_000);
    assert_eq!(word.end_angle().rad(), 2_000_000);
    let high = word.verdict(&ang(4.0)).unwrap();
    assert_eq!(high, WordError::BadAngleTooHigh);
    assert!(high.message().contains("bad angle"));
    let low = word.verdict(&ang(0.5)).unwrap();
    assert_eq!(low, WordError::BadAngleTooLow);
    assert!(low.message().contains("bad angle"));
    // a letter straight below the centre has no turn at all: before the start
    let below = graph.add(PordOrCord::Cord(1000, 1050));
    let bearing = LetterArc::new(below, 10, StemType::J, None, measure(&word.sight(&graph, below, 10, &None)))
        .bearing();
    assert_eq!(bearing.rad(), 0);
    assert_eq!(word.verdict(&bearing), Some(WordError::BadAngleTooLow));
    // within a tip's length of the ends
    assert_eq!(word.verdict(&ang(0.9)), None);
    assert_eq!(word.verdict(&ang(2.1)), None);
    assert_eq!(word.verdict(&ang(1.5)), None);
    assert_eq!(word.verdict(&ang(0.899_999)), Some(WordError::BadAngleTooLow));
    assert_eq!(word.verdict(&ang(2.100_001)), Some(WordError::BadAngleTooHigh));
    let at = graph.add(PordOrCord::Cord(0, 0));
    assert_eq!(word.new_letter(at, 40, StemType::J, None, bearings_at(0.9)), at);
    assert_eq!(word.new_letter(at, 40, StemType::J, None, bearings_at(2.1)), at);
    assert_eq!(word.new_letter(at, 40, StemType::J, None, bearings_at(1.5)), at);
    assert_eq!(word.arcs().len(), 3);
    assert!(!word.sorted());
    let order: Vec<i64> = word.arcs().iter().map(|l| l.bearing().rad()).collect();
    assert_eq!(order, vec![900_000, 2_100_000, 1_500_000]);
}

#[test]
fn circular_word_takes_a_letter_at_any_bearing() {
    let mut graph = PordGraph::new();
    let centre = graph.add(PordOrCord::Cord(1000, 1000));
    let word = WordCircle::new("w", centre, 400, word_ctx());
    for b in [0.0, 1.0, 3.0, 6.2] {
        assert_eq!(word.verdict(&ang(b)), None);
    }
}

#[test]
fn sighting_of_a_place_to_be_is_that_of_the_place() {
    let mut graph = PordGraph::new();
    let centre = graph.add(PordOrCord::Cord(1000, 1000));
    let word = WordCircle::new("w", centre, 400, word_ctx());
    let ctx = Some(letter_ctx());
    let poc = PordOrCord::Pord(POrd::new(315, ang(0.7), centre));
    assert!(graph.can_add(&poc));
    assert_eq!(graph.abs_svg_xy_of(&poc, (5, 5)), (1000 + 202, 1000 - 240));
    let before = word.sight_place(&graph, &poc, 120, &ctx);
    let at = graph.add(poc);
    let after = word.sight(&graph, at, 120, &ctx);
    assert_eq!(before, after);
    assert_eq!(before.offset, (202, -240));
    assert_eq!(before.sides[0], (202 * 202 + 240 * 240, 420 * 420, 110 * 110));
    let gord = PordOrCord::Gord(7, 9);
    assert_eq!(graph.abs_svg_xy_of(&gord, (100, 100)), (107, 91));
    let lost = PordOrCord::Pord(POrd::unanchored(10, Angle::quarter()));
    assert_eq!(graph.abs_svg_xy_of(&lost, (100, 100)), (110, 100));
}

#[test]
fn free_letter_leaves_the_band_paths_alone() {
    let mut graph = PordGraph::new();
    let centre = graph.add(PordOrCord::Cord(1000, 1000));
    let mut word = WordCircle::new("test", centre, 400, word_ctx());
    add_at(&mut word, &mut graph, 130, 2.0, 40, StemType::J);
    add_at(&mut word, &mut graph, 130, 3.0, 40, StemType::Z);
    add_at(&mut word, &mut graph, 315, 4.0, 120, StemType::S);
    let band = make_band(&graph, centre, 400, &word_ctx());
    for (i, cuts) in [(0usize, false), (1, false), (2, true)] {
        let glyph = make_glyph(&graph, centre, &band, &word_ctx(), &word.arcs()[i]);
        let mut inner = PathBuilder::new();
        inner.move_to(SvgPosition(1, 2));
        let mut outer = PathBuilder::new();
        outer.move_to(SvgPosition(3, 4));
        let ((inner, outer), end) = draw_letter_arc(&band, &glyph, (inner, outer));
        let (inner, outer) = (text(inner), text(outer));
        if cuts {
            assert!(inner.starts_with("M1,2 A130,130,0,0,1,"), "{}", inner);
            assert!(outer.starts_with("M3,4 A110,110,0,0,1,"), "{}", outer);
            assert!(end.0 .0.rad() > glyph.bearing.rad());
            assert!(draw_stacked_letter_arc(&band, &glyph).is_some());
        } else {
            assert_eq!(inner, "M1,2");
            assert_eq!(outer, "M3,4");
            assert_eq!(end.0 .0, glyph.bearing);
            assert_eq!(end.1 .0, glyph.bearing);
            assert!(draw_stacked_letter_arc(&band, &glyph).is_none());
        }
    }
}

#[test]
fn word_of_free_letters_only_has_one_circle_for_each() {
    let (doc, _) = canvas_init(2048, 2048, "white");
    let mut graph = PordGraph::new();
    let centre = graph.add(PordOrCord::Cord(1000, 1000));
    let mut word = WordCircle::new("test", centre, 400, word_ctx());
    add_at(&mut word, &mut graph, 130, 3.0, 40, StemType::J);
    add_at(&mut word, &mut graph, 130, 1.0, 50, StemType::Z);
    add_at(&mut word, &mut graph, 130, 2.0, 60, StemType::J);
    assert!(!word.sorted());
    let text = svg_str(&word.draw(doc, &graph));
    assert_eq!(count(&text, "<path"), 0);
    let radii: Vec<&str> = text
        .lines()
        .filter(|l| l.starts_with("<circle"))
        .map(|l| {
            let from = l.find(" r=\"").unwrap() + 4;
            let to = l[from..].find('"').unwrap() + from;
            &l[from..to]
        })
        .collect();
    assert_eq!(radii, vec!["400", "40", "50", "60"]);
}

#[test]
fn arc_word_without_letters_is_not_drawn() {
    let mut graph = PordGraph::new();
    let centre = graph.add(PordOrCord::Cord(1000, 1000));
    let word = WordArc::new("arc", centre, 400, ang(1.0), ang(2.0), ang(0.1), word_ctx());
    let e = word.draw_verdict(&graph).unwrap();
    assert_eq!(e, WordError::NoLetters);
    assert_eq!(e.message(), "no letters in word arc");
}

#[test]
fn arc_word_tapers_at_both_ends() {
    let (doc, _) = canvas_init(2048, 2048, "white");
    let mut graph = PordGraph::new();
    let centre = graph.add(PordOrCord::Cord(1000, 1000));
    let start = Angle::quarter();
    let end = Angle::half();
    let tip = ang(0.2);
    let mut word = WordArc::new("arc", centre, 400, start, end, tip, word_ctx());
    let pord = graph.add(PordOrCord::Pord(POrd::new(130, ang(std::f64::consts::PI - 2.0), centre)));
    let seen = word.sight(&graph, pord, 40, &None);
    assert_eq!(word.verdict(&measure(&seen).arctan().normalised()), None);
    assert_eq!(word.new_letter(pord, 40, StemType::J, None, measure(&seen)), pord);
    let band = make_band(&graph, centre, 400, &word_ctx());
    let pt = |a: &Angle, ring: RadiusType| {
        let p = band.calc_word_arc_svg_point(a, ring);
        format!("{},{}", p.0, p.1)
    };
    let tip_start = pt(&start.minus(&tip), RadiusType::Outer);
    let tip_end = pt(&end.plus(&tip), RadiusType::Outer);
    let bearing = word.arcs()[0].bearing();
    assert!((bearing.rad() - 2_000_000).abs() < 5_000);
    let at_inner = pt(&bearing, RadiusType::Inner);
    let at_outer = pt(&bearing, RadiusType::Outer);
    // tips meet on the radius 2 * 420 - 380; the band is led to the letter's
    // bearing and from there to the end
    let inner = format!(
        "M{} A460,460,0,0,0,1380,1000 A380,380,0,0,0,{} A380,380,0,0,0,1000,620 A460,460,0,0,0,{}",
        tip_start, at_inner, tip_end
    );
    let outer = format!(
        "M{} A420,420,0,0,0,1420,1000 A420,420,0,0,0,{} A420,420,0,0,0,1000,580 A420,420,0,0,0,{}",
        tip_start, at_outer, tip_end
    );
    let back = format!(
        "M{} A460,460,0,0,1,1000,620 A380,380,0,0,1,{} A380,380,0,0,1,1380,1000 A460,460,0,0,1,{}",
        tip_end, at_inner, tip_start
    );
    assert_eq!(tip_start, "1411,1083");
    assert_eq!(at_outer, "1381,826");
    let text = svg_str(&word.draw(doc, &graph));
    assert_eq!(count(&text, "<path"), 2);
    assert_eq!(count(&text, "<circle"), 1);
    let d = paths(&text);
    assert_eq!(d[0], format!("{} {} z", outer, back));
    assert_eq!(d[1], format!("{} z", inner));
}

#[test]
fn attachment_points_surround_the_letter() {
    let mut graph = PordGraph::new();
    let centre = graph.add(PordOrCord::Cord(1000, 1000));
    let mut word = WordCircle::new("test", centre, 400, word_ctx());
    let angles = vec![Angle::zero(), Angle::new(PI - 1, 0, -1_000_000)];
    let (at, points) = word.new_letter_with_attach(
        &mut graph,
        315,
        Angle::half(),
        120,
        StemType::B,
        None,
        bearings_at(0.0),
        2,
        &angles,
    );
    assert_eq!(graph.abs_svg_xy(at, (0, 0)), (1000, 1315));
    assert_eq!(points.len(), 2);
    assert_eq!(points[1].anchor(), Some(at));
    assert_eq!(points[1].r(), 120);
    assert_eq!(points[1].theta().rad(), 3_141_592);
    let mut moved = points[0];
    moved.add_dist(-65);
    let (dot, none) = word.new_letter_from_pord(
        &mut graph,
        moved,
        40,
        StemType::J,
        None,
        bearings_at(0.0),
        0,
        &Vec::new(),
    );
    assert!(none.is_empty());
    assert_eq!(graph.abs_svg_xy(dot, (0, 0)), (1000, 1260));
    let more =
        word.new_letter_from_pordorcord(at, 60, StemType::J, None, bearings_at(0.0), 2, &angles);
    assert_eq!(more.len(), 2);
    assert_eq!(word.arcs().len(), 3);
    assert_eq!(word.name(), "test");
    assert_eq!(word.radius(), 400);
    assert_eq!(word.abs_svg_xy(&graph, (5, 5)), (1000, 1000));
    assert_eq!(word.rel_xy(&graph), (1000, -1000));
    assert_eq!(word.default_word_start_angle().rad(), 0);
    assert_eq!(word.default_word_end_angle().rad(), TAU);
}
