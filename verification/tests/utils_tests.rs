use gallifreyan::angle::{Angle, TAU};
use gallifreyan::pord::{Polar, PordRef};
use gallifreyan::utils::{
    ang_iter, ang_iter_from_range, generate_pord_vector, isqrt, LargeArcFlag, PathBuilder,
    SvgPosition, SweepDirection,
};
use svg::node::element::path::Data;
use svg::node::Value;

fn text(data: Data) -> String {
    Value::from(data).to_string()
}

fn sample() -> PathBuilder {
    let mut b = PathBuilder::new();
    b.move_to(SvgPosition(1, 2));
    b.arc_to(SvgPosition(3, 4), 10, LargeArcFlag(false), SweepDirection(true));
    b.arc_to(SvgPosition(5, 6), 20, LargeArcFlag(true), SweepDirection(false));
    b
}

#[test]
fn ang_iter_parts_the_turn() {
    assert_eq!(ang_iter(4), vec![0, 1_570_796, 3_141_592, 4_712_388]);
    assert_eq!(ang_iter(3), vec![0, 2_094_395, 4_188_790]);
    assert_eq!(ang_iter(1), vec![0]);
    assert_eq!(ang_iter(0), Vec::<i64>::new());
}

#[test]
fn ang_iter_rises_and_stays_below_the_turn() {
    for n in [1usize, 2, 5, 7, 360, 1000] {
        let angles = ang_iter(n);
        assert_eq!(angles.len(), n);
        for pair in angles.windows(2) {
            assert!(pair[0] < pair[1]);
        }
        for a in &angles {
            assert!(0 <= *a && *a < TAU);
        }
        let last = *angles.last().unwrap() as i128;
        assert!(last * (n as i128) < (n as i128) * (TAU as i128) - 1_000_000);
    }
}

#[test]
fn ang_iter_rises_up_to_one_angle_for_each_microradian() {
    let angles = ang_iter(6_283_185);
    assert_eq!(angles.len(), 6_283_185);
    assert_eq!(angles[0], 0);
    assert_eq!(angles[1], 1);
    assert_eq!(angles[6_283_184], 6_283_184);
    for pair in angles.windows(2) {
        assert!(pair[0] < pair[1]);
    }
}

#[test]
fn ang_iter_from_range_parts_the_range() {
    assert_eq!(
        ang_iter_from_range(4, 1_000_000, 3_000_000),
        vec![1_000_000, 1_500_000, 2_000_000, 2_500_000]
    );
    assert_eq!(ang_iter_from_range(2, 3_000_000, 1_000_000), vec![3_000_000, 2_000_000]);
    assert_eq!(ang_iter_from_range(3, -10, 0), vec![-10, -7, -4]);
    assert_eq!(ang_iter_from_range(3, 0, -10), vec![0, -3, -6]);
    assert_eq!(ang_iter_from_range(0, 0, 10), Vec::<i64>::new());
}

#[test]
fn isqrt_rounds_down() {
    assert_eq!(isqrt(0), 0);
    assert_eq!(isqrt(1), 1);
    assert_eq!(isqrt(15), 3);
    assert_eq!(isqrt(16), 4);
    assert_eq!(isqrt(17), 4);
    assert_eq!(isqrt(1_000_000_000_000), 1_000_000);
    assert_eq!(isqrt(0x3fff_ffff_ffff_ffff), 0x7fff_ffff);
}

#[test]
fn build_data_keeps_the_order() {
    assert_eq!(text(sample().build_data()), "M1,2 A10,10,0,0,1,3,4 A20,20,0,1,0,5,6");
    assert_eq!(text(PathBuilder::new().build_data()), "");
}

#[test]
fn reverse_walks_back_and_inverts_the_sweeps() {
    let prefix = Data::new().move_to((9, 9));
    let both = sample().reverse_and_apphend(prefix);
    assert_eq!(text(both), "M9,9 M5,6 A20,20,0,1,1,3,4 A10,10,0,0,0,1,2");
    let closed = sample().reverse_and_apphend(sample().build_data()).close();
    assert_eq!(
        text(closed),
        "M1,2 A10,10,0,0,1,3,4 A20,20,0,1,0,5,6 M5,6 A20,20,0,1,1,3,4 A10,10,0,0,0,1,2 z"
    );
}

#[test]
fn reverse_of_a_single_move_is_a_move() {
    let mut b = PathBuilder::new();
    b.move_to(SvgPosition(7, 8));
    assert_eq!(text(b.reverse_and_apphend(Data::new())), "M7,8");
}

#[test]
fn reverse_turns_an_inner_move_into_a_move() {
    let mut b = PathBuilder::new();
    b.move_to(SvgPosition(1, 1));
    b.move_to(SvgPosition(2, 2));
    b.arc_to(SvgPosition(3, 3), 5, LargeArcFlag(false), SweepDirection(false));
    assert_eq!(text(b.reverse_and_apphend(Data::new())), "M3,3 A5,5,0,0,1,2,2 M1,1");
}

#[test]
fn builder_knows_whether_its_numbers_fit_path_data() {
    assert!(sample().can_build());
    assert!(PathBuilder::new().can_build());
    let mut far = sample();
    far.move_to(SvgPosition(0x100_0000, -0x100_0000));
    assert!(far.can_build());
    far.arc_to(SvgPosition(0, 0), 0x100_0001, LargeArcFlag(false), SweepDirection(false));
    assert!(!far.can_build());
    let mut wide = PathBuilder::new();
    wide.move_to(SvgPosition(0, -0x100_0001));
    assert!(!wide.can_build());
}

#[test]
fn path_data_keeps_large_numbers() {
    let mut b = PathBuilder::new();
    b.move_to(SvgPosition(0x100_0000, -0x100_0000));
    b.arc_to(SvgPosition(16_777_215, 1_024_000), 12_582_912, LargeArcFlag(false), SweepDirection(false));
    assert_eq!(
        text(b.build_data()),
        "M16777216,-16777216 A12582912,12582912,0,0,0,16777215,1024000"
    );
}

#[test]
fn clone_of_a_builder_builds_the_same() {
    let b = sample();
    let c = b.clone();
    assert_eq!(text(b.build_data()), text(c.build_data()));
}

#[test]
fn pord_vector_is_spaced_about_its_anchor() {
    let rads = ang_iter(4);
    let angles = vec![Angle::zero(), Angle::quarter(), Angle::new(rads[2], 0, -1_000_000), Angle::new(rads[3], -1_000_000, 0)];
    let pords = generate_pord_vector(4, PordRef(2), 120, &angles);
    assert_eq!(pords.len(), 4);
    for (i, p) in pords.iter().enumerate() {
        assert_eq!(p.r(), 120);
        assert_eq!(p.theta(), angles[i]);
        assert_eq!(p.theta().rad(), rads[i]);
        assert_eq!(p.anchor(), Some(PordRef(2)));
    }
    assert!(generate_pord_vector(0, PordRef(2), 120, &Vec::new()).is_empty());
}
