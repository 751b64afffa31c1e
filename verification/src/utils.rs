//! Path building and evenly spaced angles.

use vstd::prelude::*;
use svg::node::element::path::Data;
use crate::angle::{trunc_div, Angle, MAX_ANGLE, TAU};
use crate::pord::{POrd, PordRef};
use crate::nodes::{arc_command, data_arc_to};
use crate::svgdoc::{
    data_commands,
    data_move_to,
    data_new,
    path_number,
    PathCommand,
    MAX_PATH_NUMBER,
};

verus! {

/// The sweep flag of an arc: `true` is clockwise on the canvas.
#[derive(Debug, Clone, Copy, Hash, PartialEq, Eq, Structural)]
pub struct SweepDirection(pub bool);

/// The large-arc flag of an arc.
#[derive(Debug, Clone, Copy, Hash, PartialEq, Eq, Structural)]
pub struct LargeArcFlag(pub bool);

/// How a recorded point is reached.
#[derive(Debug, Clone, Copy, PartialEq, Eq, Structural)]
pub enum PathParameter {
    Move,
    Arc(i64, LargeArcFlag, SweepDirection),
}

/// A point of the canvas.
#[derive(Debug, Clone, Copy, PartialEq, Eq, Structural)]
pub struct SvgPosition(pub i64, pub i64);

/// An ordered record of points and of how each is reached.
#[derive(Debug)]
pub struct PathBuilder {
    steps: Vec<(SvgPosition, PathParameter)>,
}

/// Whether the numbers of a step can stand in path data unchanged.
pub open spec fn step_fits(step: (SvgPosition, PathParameter)) -> bool {
    &&& path_number(step.0.0 as int)
    &&& path_number(step.0.1 as int)
    &&& match step.1 {
        PathParameter::Move => true,
        PathParameter::Arc(radius, _, _) => path_number(radius as int),
    }
}

/// Whether the numbers of all steps can stand in path data unchanged.
pub open spec fn steps_fit(steps: Seq<(SvgPosition, PathParameter)>) -> bool {
    forall|i: int| 0 <= i < steps.len() ==> step_fits(#[trigger] steps[i])
}

/// The command that reaches `to` as `how` says; with `invert`, an arc
/// sweeps the other way.
pub open spec fn command_of(to: SvgPosition, how: PathParameter, invert: bool) -> PathCommand {
    match how {
        PathParameter::Move => PathCommand::Move { x: to.0 as int, y: to.1 as int },
        PathParameter::Arc(radius, arc, sweep) => arc_command(
            radius as int,
            arc.0,
            sweep.0 != invert,
            to.0 as int,
            to.1 as int,
        ),
    }
}

/// The commands of a record in the order of insertion.
pub open spec fn forward_commands(steps: Seq<(SvgPosition, PathParameter)>) -> Seq<PathCommand> {
    Seq::new(steps.len(), |i: int| command_of(steps[i].0, steps[i].1, false))
}

/// The commands that walk a record backwards: a move to its last point,
/// then, from the last step down to the second, each step's way of
/// travelling, inverted, to the point before it.
pub open spec fn reversed_commands(steps: Seq<(SvgPosition, PathParameter)>) -> Seq<PathCommand>
    recommends
        steps.len() > 0,
{
    let n = steps.len() as int;
    seq![PathCommand::Move { x: steps[n - 1].0.0 as int, y: steps[n - 1].0.1 as int }] + Seq::new(
        (n - 1) as nat,
        |k: int| command_of(steps[n - 2 - k].0, steps[n - 1 - k].1, true),
    )
}

impl PathBuilder {
    /// The recorded steps, first to last.
    pub closed spec fn view(&self) -> Seq<(SvgPosition, PathParameter)> {
        self.steps@
    }

    /// A record without steps.
    pub fn new() -> (out: PathBuilder)
        ensures
            out@ == Seq::<(SvgPosition, PathParameter)>::empty(),
    {
        PathBuilder { steps: Vec::new() }
    }

    /// Records a move to `to`.
    pub fn move_to(&mut self, to: SvgPosition)
        ensures
            final(self)@ == old(self)@.push((to, PathParameter::Move)),
    {
        self.steps.push((to, PathParameter::Move));
    }

    /// Records an arc to `to`.
    pub fn arc_to(&mut self, to: SvgPosition, radius: i64, arc: LargeArcFlag, sweep: SweepDirection)
        ensures
            final(self)@ == old(self)@.push((to, PathParameter::Arc(radius, arc, sweep))),
    {
        self.steps.push((to, PathParameter::Arc(radius, arc, sweep)));
    }

    /// The recorded steps walked backwards and added to `data`: a move to
    /// the last point, then each step from the last down to the second,
    /// travelled the other way, so that every arc sweeps opposite to how it
    /// was recorded. The first step's way of travelling is left out.
    pub fn reverse_and_apphend(self, data: Data) -> (out: Data)
        requires
            self@.len() > 0,
            steps_fit(self@),
        ensures
            data_commands(out) == data_commands(data) + reversed_commands(self@),
    {
        let n = self.steps.len();
        let last = self.steps[n - 1].0;
        assert(step_fits(self@[n - 1]));
        let mut data = data_move_to(data, last.0, last.1);
        let ghost start = data_commands(data);
        let mut k: usize = 0;
        while k < n - 1
            invariant
                n == self.steps@.len(),
                n > 0,
                k <= n - 1,
                steps_fit(self@),
                data_commands(data) == start + Seq::new(
                    k as nat,
                    |j: int| command_of(self@[n - 2 - j].0, self@[n - 1 - j].1, true),
                ),
            decreases n - 1 - k,
        {
            let pos = self.steps[n - 2 - k].0;
            let param = self.steps[n - 1 - k].1;
            assert(step_fits(self@[n - 2 - k]) && step_fits(self@[n - 1 - k]));
            let ghost before = data_commands(data);
            data = match param {
                PathParameter::Move => data_move_to(data, pos.0, pos.1),
                PathParameter::Arc(radius, LargeArcFlag(arc), SweepDirection(sweep)) => {
                    data_arc_to(data, radius, arc, !sweep, pos.0, pos.1)
                },
            };
            assert(data_commands(data) == before.push(command_of(pos, param, true)));
            assert(Seq::new(
                (k + 1) as nat,
                |j: int| command_of(self@[n - 2 - j].0, self@[n - 1 - j].1, true),
            ) =~= Seq::new(
                k as nat,
                |j: int| command_of(self@[n - 2 - j].0, self@[n - 1 - j].1, true),
            ).push(command_of(pos, param, true)));
            k += 1;
        }
        data
    }

    /// The recorded steps as path data, in the order of insertion.
    pub fn build_data(self) -> (out: Data)
        requires
            steps_fit(self@),
        ensures
            data_commands(out) == forward_commands(self@),
    {
        let n = self.steps.len();
        let mut data = data_new();
        let mut i: usize = 0;
        while i < n
            invariant
                n == self.steps@.len(),
                i <= n,
                steps_fit(self@),
                data_commands(data) == Seq::new(
                    i as nat,
                    |j: int| command_of(self@[j].0, self@[j].1, false),
                ),
            decreases n - i,
        {
            let (pos, param) = self.steps[i];
            assert(step_fits(self@[i as int]));
            let ghost before = data_commands(data);
            data = match param {
                PathParameter::Move => data_move_to(data, pos.0, pos.1),
                PathParameter::Arc(radius, LargeArcFlag(arc), SweepDirection(sweep)) => {
                    data_arc_to(data, radius, arc, sweep, pos.0, pos.1)
                },
            };
            assert(data_commands(data) == before.push(command_of(pos, param, false)));
            assert(Seq::new((i + 1) as nat, |j: int| command_of(self@[j].0, self@[j].1, false))
                =~= Seq::new(i as nat, |j: int| command_of(self@[j].0, self@[j].1, false)).push(
                command_of(pos, param, false),
            ));
            i += 1;
        }
        data
    }

    /// Whether the numbers of all steps can stand in path data unchanged.
    pub fn can_build(&self) -> (out: bool)
        ensures
            out == steps_fit(self@),
    {
        let mut i: usize = 0;
        while i < self.steps.len()
            invariant
                i <= self.steps@.len(),
                forall|j: int| 0 <= j < i ==> step_fits(#[trigger] self@[j]),
            decreases self.steps@.len() - i,
        {
            let (pos, param) = self.steps[i];
            let radius: i64 = match param {
                PathParameter::Move => 0,
                PathParameter::Arc(radius, _, _) => radius,
            };
            if !(fits_path(pos.0) && fits_path(pos.1) && fits_path(radius)) {
                return false;
            }
            i += 1;
        }
        true
    }
}

/// Walking a record backwards visits its points in reverse order, keeps
/// every radius and large-arc flag, and inverts every sweep flag: the
/// command after the opening move at place `k` is the step `n - 1 - k` of
/// the record, led to the point of step `n - 2 - k`.
pub proof fn lemma_reverse_inverts_sweeps(steps: Seq<(SvgPosition, PathParameter)>, k: int)
    requires
        0 <= k < steps.len() - 1,
    ensures
        reversed_commands(steps).len() == steps.len(),
        reversed_commands(steps)[0] == (PathCommand::Move {
            x: steps[steps.len() - 1].0.0 as int,
            y: steps[steps.len() - 1].0.1 as int,
        }),
        match steps[steps.len() - 1 - k].1 {
            PathParameter::Move => reversed_commands(steps)[k + 1] == (PathCommand::Move {
                x: steps[steps.len() - 2 - k].0.0 as int,
                y: steps[steps.len() - 2 - k].0.1 as int,
            }),
            PathParameter::Arc(radius, arc, sweep) => reversed_commands(steps)[k + 1]
                == arc_command(
                radius as int,
                arc.0,
                !sweep.0,
                steps[steps.len() - 2 - k].0.0 as int,
                steps[steps.len() - 2 - k].0.1 as int,
            ),
        },
{
}

/// The `i`-th of `n` angles that part a full turn evenly, in microradians.
pub open spec fn ang_at(i: int, n: int) -> int {
    (i * TAU) / n
}

/// The `i`-th of `n` angles that part `[min, max)` evenly, in microradians.
pub open spec fn ang_in_range_at(i: int, n: int, min: int, max: int) -> int {
    min + trunc_div(i * (max - min), n)
}

/// `num` angles that part the full turn evenly, starting at 0: each is
/// greater than the one before it and less than the full turn. There can be
/// no more of them than there are microradians in a turn.
pub fn ang_iter(num: usize) -> (out: Vec<i64>)
    requires
        num <= TAU,
    ensures
        out@.len() == num,
        forall|i: int| 0 <= i < num ==> #[trigger] out@[i] == ang_at(i, num as int),
        forall|i: int| 0 <= i < num ==> 0 <= #[trigger] out@[i] < TAU,
        forall|i: int, j: int| 0 <= i < j < num ==> out@[i] < out@[j],
        num > 0 ==> out@[num - 1] * num < num * TAU - 1_000_000,
{
    let mut out: Vec<i64> = Vec::new();
    let mut i: usize = 0;
    while i < num
        invariant
            i <= num,
            out@.len() == i,
            forall|j: int| 0 <= j < i ==> #[trigger] out@[j] == ang_at(j, num as int),
        decreases num - i,
    {
        let wide: u128 = (i as u128) * (TAU as u128);
        let n: u128 = num as u128;
        let q: u128 = wide / n;
        proof {
            lemma_ang_at_range(i as int, num as int);
        }
        out.push(q as i64);
        i += 1;
    }
    proof {
        assert forall|i: int| 0 <= i < num implies 0 <= #[trigger] out@[i] < TAU by {
            lemma_ang_at_range(i, num as int);
        }
        assert forall|i: int, j: int| 0 <= i < j < num implies out@[i] < out@[j] by {
            lemma_ang_at_increasing(i, j, num as int);
        }
        if num > 0 {
            lemma_ang_at_last(num as int);
        }
    }
    out
}

/// Each of the `n` angles lies in `[0, TAU)`.
pub proof fn lemma_ang_at_range(i: int, n: int)
    requires
        0 <= i < n,
    ensures
        0 <= ang_at(i, n) < TAU,
{
    assert(0 <= i * TAU < n * TAU) by (nonlinear_arith)
        requires
            0 <= i < n,
            TAU == 6_283_185,
    ;
    vstd::arithmetic::div_mod::lemma_div_pos_is_pos(i * TAU, n);
    vstd::arithmetic::div_mod::lemma_div_by_multiple_is_strongly_ordered(
        i * TAU,
        n * TAU,
        TAU as int,
        n,
    );
    vstd::arithmetic::div_mod::lemma_div_by_multiple(TAU as int, n);
}

/// While there are no more angles than microradians in a turn, a later
/// angle is greater than an earlier one.
pub proof fn lemma_ang_at_increasing(i: int, j: int, n: int)
    requires
        0 <= i < j < n,
        n <= TAU,
    ensures
        ang_at(i, n) < ang_at(j, n),
{
    assert(i * TAU + TAU <= j * TAU) by (nonlinear_arith)
        requires
            i + 1 <= j,
            TAU == 6_283_185,
    ;
    assert(0 <= i * TAU) by (nonlinear_arith)
        requires
            0 <= i,
            TAU == 6_283_185,
    ;
    vstd::arithmetic::div_mod::lemma_div_is_ordered(i * TAU + n, j * TAU, n);
    vstd::arithmetic::div_mod::lemma_div_plus_one(i * TAU, n);
}

/// The last of the `n` angles falls short of the full turn by more than a
/// radian's `n`-th part.
pub proof fn lemma_ang_at_last(n: int)
    requires
        0 < n,
    ensures
        ang_at(n - 1, n) * n < n * TAU - 1_000_000,
{
    let x = (n - 1) * TAU;
    assert((n - 1) * TAU == n * TAU - TAU) by (nonlinear_arith);
    vstd::arithmetic::div_mod::lemma_fundamental_div_mod(x, n);
    vstd::arithmetic::div_mod::lemma_mod_bound(x, n);
    assert(n * (x / n) == (x / n) * n) by (nonlinear_arith);
}

/// A share of a span is no longer than the span.
pub proof fn lemma_share_bound(i: int, n: int, d: int)
    requires
        0 <= i < n,
    ensures
        d >= 0 ==> 0 <= trunc_div(i * d, n) <= d,
        d < 0 ==> d <= trunc_div(i * d, n) <= 0,
{
    if d >= 0 {
        assert(0 <= i * d <= n * d) by (nonlinear_arith)
            requires
                0 <= i < n,
                d >= 0,
        ;
        vstd::arithmetic::div_mod::lemma_div_pos_is_pos(i * d, n);
        vstd::arithmetic::div_mod::lemma_div_is_ordered(i * d, n * d, n);
        vstd::arithmetic::div_mod::lemma_div_by_multiple(d, n);
        assert(n * d == d * n) by (nonlinear_arith);
    } else {
        assert(0 <= -(i * d) <= n * (-d)) by (nonlinear_arith)
            requires
                0 <= i < n,
                d < 0,
        ;
        vstd::arithmetic::div_mod::lemma_div_pos_is_pos(-(i * d), n);
        vstd::arithmetic::div_mod::lemma_div_is_ordered(-(i * d), n * (-d), n);
        vstd::arithmetic::div_mod::lemma_div_by_multiple(-d, n);
        assert(n * (-d) == (-d) * n) by (nonlinear_arith);
        if i * d >= 0 {
            assert(i * d == 0);
        }
    }
}

/// `num` angles that part `[min, max)` evenly, starting at `min`.
pub fn ang_iter_from_range(num: usize, min: i64, max: i64) -> (out: Vec<i64>)
    requires
        -MAX_ANGLE <= min <= MAX_ANGLE,
        -MAX_ANGLE <= max <= MAX_ANGLE,
    ensures
        out@.len() == num,
        forall|i: int|
            0 <= i < num ==> #[trigger] out@[i] == ang_in_range_at(
                i,
                num as int,
                min as int,
                max as int,
            ),
{
    let mut out: Vec<i64> = Vec::new();
    let d: i128 = (max - min) as i128;
    let mut i: usize = 0;
    while i < num
        invariant
            i <= num,
            d == max - min,
            -MAX_ANGLE <= min <= MAX_ANGLE,
            -MAX_ANGLE <= max <= MAX_ANGLE,
            out@.len() == i,
            forall|j: int|
                0 <= j < i ==> #[trigger] out@[j] == ang_in_range_at(
                    j,
                    num as int,
                    min as int,
                    max as int,
                ),
        decreases num - i,
    {
        proof {
            lemma_share_bound(i as int, num as int, d as int);
            assert(-0x1_0000_0000_0000_0000 * 0x200_0000_0000 <= (i as int) * (d as int)
                <= 0x1_0000_0000_0000_0000 * 0x200_0000_0000) by (nonlinear_arith)
                requires
                    0 <= i < 0x1_0000_0000_0000_0000,
                    -0x200_0000_0000 <= d <= 0x200_0000_0000,
            ;
        }
        let wide: i128 = (i as i128) * d;
        let share: i128 = wide / (num as i128);
        out.push(min + share as i64);
        i += 1;
    }
    out
}

/// `num` polar positions of length `radius` about `pord`, one at each of
/// the angles that part the full turn evenly. `angles` are those angles as
/// the caller has evaluated them.
pub fn generate_pord_vector(num: usize, pord: PordRef, radius: i64, angles: &Vec<Angle>) -> (out:
    Vec<POrd>)
    requires
        angles@.len() == num,
        forall|i: int| 0 <= i < num ==> (#[trigger] angles@[i]).spec_rad() == ang_at(i, num as int),
    ensures
        out@.len() == num,
        forall|i: int|
            0 <= i < num ==> (#[trigger] out@[i]) == POrd::spec_new(radius, angles@[i], Some(pord)),
{
    let mut out: Vec<POrd> = Vec::with_capacity(num);
    let mut i: usize = 0;
    while i < num
        invariant
            i <= num,
            angles@.len() == num,
            out@.len() == i,
            forall|j: int|
                0 <= j < i ==> (#[trigger] out@[j]) == POrd::spec_new(
                    radius,
                    angles@[j],
                    Some(pord),
                ),
        decreases num - i,
    {
        out.push(POrd::new(radius, angles[i], pord));
        i += 1;
    }
    out
}

/// Whether `r` is the square root of `n`, rounded down.
pub open spec fn is_floor_sqrt(r: int, n: int) -> bool {
    0 <= r && r * r <= n < (r + 1) * (r + 1)
}

/// The square root of `n`, rounded down.
pub open spec fn floor_sqrt(n: int) -> int {
    choose|r: int| is_floor_sqrt(r, n)
}

/// A number has one rounded-down square root at most.
pub proof fn lemma_floor_sqrt_unique(a: int, b: int, n: int)
    requires
        is_floor_sqrt(a, n),
        is_floor_sqrt(b, n),
    ensures
        a == b,
{
    if a < b {
        assert((a + 1) * (a + 1) <= b * b) by (nonlinear_arith)
            requires
                0 <= a,
                a + 1 <= b,
        ;
    } else if b < a {
        assert((b + 1) * (b + 1) <= a * a) by (nonlinear_arith)
            requires
                0 <= b,
                b + 1 <= a,
        ;
    }
}

/// The square root of `n`, rounded down.
pub fn isqrt(n: i64) -> (out: i64)
    requires
        0 <= n < 0x4000_0000_0000_0000,
    ensures
        is_floor_sqrt(out as int, n as int),
        out == floor_sqrt(n as int),
        out < 0x8000_0000,
{
    let mut lo: i64 = 0;
    let mut hi: i64 = 0x8000_0000;
    assert(0x8000_0000 * 0x8000_0000 == 0x4000_0000_0000_0000) by (nonlinear_arith);
    while hi - lo > 1
        invariant
            0 <= lo < hi <= 0x8000_0000,
            lo * lo <= n < hi * hi,
        decreases hi - lo,
    {
        let mid: i64 = lo + (hi - lo) / 2;
        assert(0 <= mid * mid <= 0x8000_0000 * 0x8000_0000) by (nonlinear_arith)
            requires
                0 <= mid <= 0x8000_0000,
        ;
        if mid * mid <= n {
            lo = mid;
        } else {
            hi = mid;
        }
    }
    proof {
        assert(is_floor_sqrt(lo as int, n as int));
        lemma_floor_sqrt_unique(lo as int, floor_sqrt(n as int), n as int);
    }
    lo
}

/// Whether a number can stand in path data unchanged.
fn fits_path(v: i64) -> (out: bool)
    ensures
        out == path_number(v as int),
{
    -MAX_PATH_NUMBER <= v && v <= MAX_PATH_NUMBER
}

impl Default for PathBuilder {
    /// A record without steps.
    fn default() -> (out: PathBuilder)
        ensures
            out@ == Seq::<(SvgPosition, PathParameter)>::empty(),
    {
        PathBuilder { steps: Vec::new() }
    }
}

impl Clone for PathBuilder {
    fn clone(&self) -> (out: PathBuilder)
        ensures
            out@ == self@,
    {
        let mut steps: Vec<(SvgPosition, PathParameter)> = Vec::new();
        let mut i: usize = 0;
        while i < self.steps.len()
            invariant
                i <= self.steps@.len(),
                steps@ == self.steps@.subrange(0, i as int),
            decreases self.steps@.len() - i,
        {
            steps.push(self.steps[i]);
            assert(steps@ =~= self.steps@.subrange(0, i + 1));
            i += 1;
        }
        assert(steps@ =~= self.steps@);
        PathBuilder { steps }
    }
}

} // verus!
