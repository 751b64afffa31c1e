use gallifreyan::angle::{Angle, HALF_PI, PI, TAU, TRIG_ONE};
use gallifreyan::pord::{
    dist_sq_of, Cartesian, POrd, Polar, PordGraph, PordOrCord, PordRef,
};

fn ang(theta: f64) -> Angle {
    Angle::new(
        (theta * 1e6).round() as i64,
        (theta.sin() * 1e6) as i64,
        (theta.cos() * 1e6) as i64,
    )
}

#[test]
fn angle_constants_are_exact() {
    assert_eq!((Angle::zero().rad(), Angle::zero().sin(), Angle::zero().cos()), (0, 0, TRIG_ONE));
    assert_eq!(
        (Angle::quarter().rad(), Angle::quarter().sin(), Angle::quarter().cos()),
        (HALF_PI, TRIG_ONE, 0)
    );
    assert_eq!((Angle::half().rad(), Angle::half().sin(), Angle::half().cos()), (PI, 0, -TRIG_ONE));
    assert_eq!((Angle::full().rad(), Angle::full().sin(), Angle::full().cos()), (TAU, 0, TRIG_ONE));
}

#[test]
fn angle_sum_follows_the_addition_formulas() {
    let a = Angle::new(523_599, 500_000, 866_025);
    let b = Angle::new(1_047_198, 866_025, 500_000);
    let sum = a.plus(&b);
    assert_eq!(sum.rad(), 1_570_797);
    // (500000 * 500000 + 866025 * 866025) / 1000000, rounded toward zero
    assert_eq!(sum.sin(), 999_999);
    assert_eq!(sum.cos(), 0);
    let diff = a.minus(&b);
    assert_eq!(diff.rad(), -523_599);
    // (500000 * 500000 - 866025 * 866025) / 1000000
    assert_eq!(diff.sin(), -499_999);
    // (866025 * 500000 + 500000 * 866025) / 1000000
    assert_eq!(diff.cos(), 866_025);
}

#[test]
fn angle_sum_is_held_to_the_unit_range() {
    let a = Angle::new(0, 1_000_000, 1_000_000);
    let sum = a.plus(&a);
    assert_eq!(sum.sin(), 1_000_000);
    assert_eq!(sum.cos(), 0);
}

#[test]
fn normalised_moves_negative_turns_on() {
    let raw = Angle::new(-1_000_000, -841_470, 540_302);
    let n = raw.normalised();
    assert_eq!(n.rad(), TAU - 1_000_000);
    assert_eq!(n.sin(), -841_470);
    assert_eq!(n.cos(), 540_302);
    let kept = Angle::new(1_000_000, 841_470, 540_302).normalised();
    assert_eq!(kept.rad(), 1_000_000);
    let low = Angle::new(-PI, 0, -TRIG_ONE).normalised();
    assert_eq!(low.rad(), TAU - PI);
    assert!(low.rad() < TAU);
    let zero = Angle::zero().normalised();
    assert_eq!(zero.rad(), 0);
}

#[test]
fn cartesian_positions_project_directly() {
    let mut graph = PordGraph::new();
    let c = graph.add(PordOrCord::Cord(7, 9));
    let g = graph.add(PordOrCord::Gord(3, 4));
    assert_eq!(graph.abs_svg_xy(c, (10, 20)), (7, 9));
    assert_eq!(graph.abs_svg_xy(g, (10, 20)), (13, 16));
    assert_eq!(graph.get(c).rel_xy(), (7, -9));
    assert_eq!(graph.get(c).rel_svg_xy(), (7, 9));
    assert_eq!(graph.get(g).rel_xy(), (3, 4));
    assert_eq!(graph.get(g).rel_svg_xy(), (3, -4));
    assert_eq!(graph.abs_svg_xy(c, (0, 0)), graph.get(c).rel_svg_xy());
    assert_eq!(graph.abs_svg_xy(g, (0, 0)), graph.get(g).rel_svg_xy());
}

#[test]
fn polar_position_is_its_anchor_moved() {
    let origin = (1024, 1024);
    let mut graph = PordGraph::new();
    let a = graph.add(PordOrCord::Gord(100, 50));
    let up = graph.add(PordOrCord::Pord(POrd::new(200, Angle::zero(), a)));
    let right = graph.add(PordOrCord::Pord(POrd::new(200, Angle::quarter(), a)));
    let down = graph.add(PordOrCord::Pord(POrd::new(200, Angle::half(), a)));
    let slanted = graph.add(PordOrCord::Pord(POrd::new(1000, Angle::new(523_599, 500_000, 866_025), a)));
    let anchor_xy = graph.abs_svg_xy(a, origin);
    assert_eq!(anchor_xy, (1124, 974));
    assert_eq!(graph.abs_svg_xy(up, origin), (1124, 774));
    assert_eq!(graph.abs_svg_xy(right, origin), (1324, 974));
    assert_eq!(graph.abs_svg_xy(down, origin), (1124, 1174));
    assert_eq!(graph.abs_svg_xy(slanted, origin), (1124 + 500, 974 - 866));
    for (at, r, theta) in [(up, 200, Angle::zero()), (slanted, 1000, Angle::new(523_599, 500_000, 866_025))] {
        let p = graph.abs_svg_xy(at, origin);
        assert_eq!(p.0, anchor_xy.0 + r * theta.sin() / TRIG_ONE);
        assert_eq!(p.1, anchor_xy.1 - r * theta.cos() / TRIG_ONE);
    }
}

#[test]
fn polar_chain_adds_up() {
    let mut graph = PordGraph::new();
    let root = graph.add(PordOrCord::Cord(100, 100));
    let first = graph.add(PordOrCord::Pord(POrd::new(50, Angle::quarter(), root)));
    let second = graph.add(PordOrCord::Pord(POrd::new(30, Angle::half(), first)));
    assert_eq!(graph.abs_svg_xy(second, (0, 0)), (150, 130));
    assert_eq!(graph.reach(second), 180);
    let p = match graph.get(second) {
        PordOrCord::Pord(p) => p,
        _ => unreachable!(),
    };
    assert_eq!(graph.anchor_abs_svg_xy(&p, second, (0, 0)), Some((150, 100)));
}

#[test]
fn missing_anchor_counts_as_the_origin() {
    let mut graph = PordGraph::new();
    let lost = graph.add(PordOrCord::Pord(POrd::unanchored(100, Angle::zero())));
    assert_eq!(graph.abs_svg_xy(lost, (1024, 1024)), (1024, 924));
    let p = POrd::default();
    assert_eq!(p.anchor(), None);
    assert_eq!(p.r(), 0);
    let q = POrd::unanchored(100, Angle::zero());
    assert_eq!(graph.anchor_abs_svg_xy(&q, lost, (1024, 1024)), None);
    assert_eq!(graph.get(lost).get_anchor(), None);
}

#[test]
fn word_and_letter_positions_of_the_hello_scene() {
    let origin = (1024, 1024);
    let mut graph = PordGraph::new();
    let gal_origin = graph.add(PordOrCord::Gord(0, 0));
    let word = graph.add(PordOrCord::Pord(POrd::new(450, Angle::zero(), gal_origin)));
    let letter = graph.add(PordOrCord::Pord(POrd::new(315, Angle::zero(), word)));
    assert_eq!(graph.abs_svg_xy(gal_origin, origin), (1024, 1024));
    assert_eq!(graph.abs_svg_xy(word, origin), (1024, 574));
    assert_eq!(graph.abs_svg_xy(letter, origin), (1024, 259));
}

#[test]
fn distance_is_the_same_both_ways() {
    let mut graph = PordGraph::new();
    let a = graph.add(PordOrCord::Cord(3, -4));
    let b = graph.add(PordOrCord::Gord(10, 20));
    assert_eq!(graph.dist_to_sq(a, b), 49 + 256);
    assert_eq!(graph.dist_to_sq(a, b), graph.dist_to_sq(b, a));
    assert_eq!(graph.dist_to_sq(a, a), 0);
    assert_eq!(graph.svg_xy_to(a, b), (7, -16));
    assert_eq!(graph.svg_xy_to(b, a), (-7, 16));
    assert_eq!(dist_sq_of((0, 0), (3, 4)), 25);
    // the same through the positions themselves
    assert_eq!(a.dist_to_sq(&graph, b), b.dist_to_sq(&graph, a));
    assert_eq!(a.svg_xy_to(&graph, b), (7, -16));
    assert_eq!(b.abs_svg_xy(&graph, (100, 100)), (110, 80));
    assert_eq!(b.rel_xy(&graph), (10, 20));
    assert_eq!(b.rel_svg_xy(&graph), (10, -20));
    assert_eq!(a.pord(), a);
}

#[test]
fn angle_to_lies_in_the_full_turn() {
    let mut graph = PordGraph::new();
    let a = graph.add(PordOrCord::Cord(0, 0));
    let b = graph.add(PordOrCord::Cord(-10, 10));
    let (dx, dy) = graph.svg_xy_to(a, b);
    let raw = (dx as f64).atan2(dy as f64);
    assert!(raw < 0.0);
    let bearing = graph.angle_to(a, b, ang(raw));
    assert_eq!(bearing.rad(), TAU - 785_398);
    assert!(0 <= bearing.rad() && bearing.rad() < TAU);
    let c = graph.add(PordOrCord::Cord(10, 10));
    let (dx, dy) = graph.svg_xy_to(a, c);
    let bearing = graph.angle_to(a, c, ang((dx as f64).atan2(dy as f64)));
    assert_eq!(bearing.rad(), 785_398);
    // a position has no bearing from itself, whatever was measured
    let same = graph.add(PordOrCord::Gord(0, 0));
    assert_eq!(graph.angle_to(a, same, ang(1.0)), Angle::zero());
    assert_eq!(graph.angle_to(a, a, ang(-1.0)), Angle::zero());
}

#[test]
fn graph_admits_only_what_is_in_range() {
    let mut graph = PordGraph::new();
    assert!(graph.can_add(&PordOrCord::Cord(0x20_0000, -0x20_0000)));
    assert!(!graph.can_add(&PordOrCord::Cord(0x20_0001, 0)));
    assert!(!graph.can_add(&PordOrCord::Gord(0, -0x20_0001)));
    assert!(!graph.can_add(&PordOrCord::Pord(POrd::new(1, Angle::zero(), PordRef(0)))));
    assert!(!graph.can_add(&PordOrCord::Pord(POrd::unanchored(-1, Angle::zero()))));
    let far = graph.add(PordOrCord::Cord(0x20_0000, 0));
    assert_eq!(far, PordRef(0));
    assert_eq!(graph.len(), 1);
    assert!(graph.can_add(&PordOrCord::Pord(POrd::new(0, Angle::zero(), far))));
    assert!(!graph.can_add(&PordOrCord::Pord(POrd::new(1, Angle::zero(), far))));
}

#[test]
fn polar_values_can_be_changed_before_sharing() {
    let mut p = POrd::unanchored(100, Angle::zero());
    p.add_dist(-65);
    p.set_theta(Angle::half());
    assert_eq!(p.r(), 35);
    assert_eq!(p.theta(), Angle::half());
    let mut poc = PordOrCord::from(p);
    if let Some(r) = poc.get_r_mut() {
        *r = 40;
    }
    if let Some(theta) = poc.get_theta_mut() {
        *theta = Angle::quarter();
    }
    match poc {
        PordOrCord::Pord(q) => {
            assert_eq!(q.r(), 40);
            assert_eq!(q.theta(), Angle::quarter());
        }
        _ => unreachable!(),
    }
    let mut cord = PordOrCord::Cord(1, 2);
    assert!(cord.get_r_mut().is_none());
    assert!(cord.get_theta_mut().is_none());
    assert_eq!(cord.get_anchor(), None);
    assert_eq!(PordOrCord::default(), PordOrCord::Cord(0, 0));
    assert_eq!(PordOrCord::gal_origin((5, 6)), PordOrCord::Cord(5, 6));
    let anchored = PordOrCord::Pord(POrd::new(1, Angle::zero(), PordRef(3)));
    assert_eq!(anchored.get_anchor(), Some(PordRef(3)));
}
