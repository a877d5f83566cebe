//! The simulation core: kinematics, the time sampler, and the
//! trajectory engine with its hit-detection rule.
//!
//! Quantities are fixed-point integers: positions in micrometers, times
//! in milliseconds, velocities in micrometers per millisecond (the same
//! as millimeters per second), gravity in nanometers per squared
//! millisecond (standard gravity is 9807).  The launch angle is not
//! part of this module: the caller decomposes the initial speed into
//! velocity components before the simulation starts, so every function
//! here is exact integer arithmetic.

use vstd::arithmetic::div_mod::lemma_div_non_zero;
use vstd::arithmetic::div_mod::lemma_fundamental_div_mod;
use vstd::arithmetic::mul::lemma_mul_inequality;
use vstd::prelude::*;

verus! {

/// Largest admitted magnitude of an initial coordinate, in micrometers
/// (one thousand kilometers).
pub const MAX_POS_UM: i64 = 1_000_000_000_000;

/// Largest admitted speed component, in micrometers per millisecond
/// (one kilometer per second).
pub const MAX_SPEED_UM_MS: i64 = 1_000_000;

/// Largest admitted simulation window, in milliseconds (one hour).
pub const MAX_TIME_MS: i64 = 3_600_000;

/// Largest admitted gravity, in nanometers per squared millisecond
/// (about ten times standard gravity).
pub const MAX_GRAVITY_NM_MS2: i64 = 100_000;

/// Standard gravity, 9.807 m/s^2, in nanometers per squared millisecond.
pub const GRAVITY_NM_MS2: i64 = 9_807;

/// Largest admitted capture radius, in micrometers (one kilometer).
pub const MAX_RADIUS_UM: i64 = 1_000_000_000;

/// Bound on any coordinate the kinematics can produce within the
/// admitted inputs; distances are computed below this magnitude.
pub const MAX_COORD_UM: i64 = 1_000_000_000_000_000;

/// The initial state of the throw: position and velocity components.
#[derive(Clone, Copy)]
pub struct LaunchParameters {
    /// Initial horizontal position, micrometers.
    pub x0_um: i64,
    /// Initial height, micrometers.
    pub y0_um: i64,
    /// Initial horizontal velocity, micrometers per millisecond.
    pub v0x_um_ms: i64,
    /// Initial vertical velocity, micrometers per millisecond.
    pub v0y_um_ms: i64,
}

impl LaunchParameters {
    /// Coordinates and velocity components are within the admitted
    /// bounds, and the initial speed is not zero.
    pub open spec fn wf(self) -> bool {
        &&& -MAX_POS_UM <= self.x0_um <= MAX_POS_UM
        &&& -MAX_POS_UM <= self.y0_um <= MAX_POS_UM
        &&& -MAX_SPEED_UM_MS <= self.v0x_um_ms <= MAX_SPEED_UM_MS
        &&& -MAX_SPEED_UM_MS <= self.v0y_um_ms <= MAX_SPEED_UM_MS
        &&& !(self.v0x_um_ms == 0 && self.v0y_um_ms == 0)
    }

    /// Validates the launch state; a zero velocity vector or an
    /// out-of-bounds coordinate is rejected.
    pub fn new(x0_um: i64, y0_um: i64, v0x_um_ms: i64, v0y_um_ms: i64) -> (r: Option<
        LaunchParameters,
    >)
        ensures
            r.is_some() <==> (LaunchParameters { x0_um, y0_um, v0x_um_ms, v0y_um_ms }).wf(),
            r.is_some() ==> r.unwrap() == (LaunchParameters { x0_um, y0_um, v0x_um_ms, v0y_um_ms }),
    {
        if -MAX_POS_UM <= x0_um && x0_um <= MAX_POS_UM && -MAX_POS_UM <= y0_um && y0_um
            <= MAX_POS_UM && -MAX_SPEED_UM_MS <= v0x_um_ms && v0x_um_ms <= MAX_SPEED_UM_MS
            && -MAX_SPEED_UM_MS <= v0y_um_ms && v0y_um_ms <= MAX_SPEED_UM_MS && !(v0x_um_ms == 0
            && v0y_um_ms == 0) {
            Some(LaunchParameters { x0_um, y0_um, v0x_um_ms, v0y_um_ms })
        } else {
            None
        }
    }
}

/// The basket: a target point and the capture radius around it within
/// which the ball counts as having entered.
#[derive(Clone, Copy)]
pub struct Target {
    /// Horizontal position of the target, micrometers.
    pub x_um: i64,
    /// Height of the target, micrometers.
    pub y_um: i64,
    /// Capture radius, micrometers.
    pub radius_um: i64,
}

impl Target {
    /// Position within bounds and a nonnegative radius.
    pub open spec fn wf(self) -> bool {
        &&& -MAX_POS_UM <= self.x_um <= MAX_POS_UM
        &&& -MAX_POS_UM <= self.y_um <= MAX_POS_UM
        &&& 0 <= self.radius_um <= MAX_RADIUS_UM
    }

    /// Validates the target geometry.
    pub fn new(x_um: i64, y_um: i64, radius_um: i64) -> (r: Option<Target>)
        ensures
            r.is_some() <==> (Target { x_um, y_um, radius_um }).wf(),
            r.is_some() ==> r.unwrap() == (Target { x_um, y_um, radius_um }),
    {
        if -MAX_POS_UM <= x_um && x_um <= MAX_POS_UM && -MAX_POS_UM <= y_um && y_um <= MAX_POS_UM
            && 0 <= radius_um && radius_um <= MAX_RADIUS_UM {
            Some(Target { x_um, y_um, radius_um })
        } else {
            None
        }
    }
}

/// The sampling resolution of one run: a total duration and the number
/// of time steps it is divided into.
#[derive(Clone, Copy)]
pub struct SimulationWindow {
    /// Total simulated duration, milliseconds.
    pub duration_ms: i64,
    /// Number of time samples, both endpoints included.
    pub steps: usize,
}

impl SimulationWindow {
    /// A positive duration, at least three steps, and at least one
    /// millisecond per step, so that the sample times are distinct at
    /// this resolution.
    pub open spec fn wf(self) -> bool {
        &&& 1 <= self.duration_ms <= MAX_TIME_MS
        &&& 3 <= self.steps
        &&& self.steps - 1 <= self.duration_ms
    }

    /// Validates the window; a step count of two or less, a
    /// non-positive duration, or a duration too short to give each step
    /// a whole millisecond is rejected.
    pub fn new(duration_ms: i64, steps: usize) -> (r: Option<SimulationWindow>)
        ensures
            r.is_some() <==> (SimulationWindow { duration_ms, steps }).wf(),
            r.is_some() ==> r.unwrap() == (SimulationWindow { duration_ms, steps }),
    {
        if 1 <= duration_ms && duration_ms <= MAX_TIME_MS && 3 <= steps && (steps - 1) as u64
            <= duration_ms as u64 {
            Some(SimulationWindow { duration_ms, steps })
        } else {
            None
        }
    }
}

/// A speed in micrometers per millisecond (equal to millimeters per
/// second), converted to hundredths of a kilometer per hour:
/// `v * 36 / 100`.
pub fn conv_meters_sec_to_km_hour(vel_um_ms: i64) -> (r: i64)
    requires
        0 <= vel_um_ms <= MAX_SPEED_UM_MS,
    ensures
        r == (vel_um_ms * 36) / 100,
{
    (vel_um_ms * 36) / 100
}

/// Horizontal position at time `t`: uniform motion from the initial
/// position.
pub open spec fn spec_pos_x(p: LaunchParameters, t: int) -> int {
    p.x0_um + p.v0x_um_ms * t
}

/// The height lost to gravity by time `t`, in micrometers:
/// `g * t^2 / 2`, with `g` in nanometers per squared millisecond.
pub open spec fn spec_half_g_t2(g: int, t: int) -> int {
    (g * t * t) / 2000
}

/// Height at time `t`: uniform vertical motion less the gravity drop.
pub open spec fn spec_pos_y(p: LaunchParameters, g: int, t: int) -> int {
    p.y0_um + p.v0y_um_ms * t - spec_half_g_t2(g, t)
}

/// Computes the closed-form position at time `t_ms`.
pub fn position(p: &LaunchParameters, gravity_nm_ms2: i64, t_ms: i64) -> (r: (i64, i64))
    requires
        p.wf(),
        0 <= gravity_nm_ms2 <= MAX_GRAVITY_NM_MS2,
        0 <= t_ms <= MAX_TIME_MS,
    ensures
        r.0 == spec_pos_x(*p, t_ms as int),
        r.1 == spec_pos_y(*p, gravity_nm_ms2 as int, t_ms as int),
{
    proof {
        lemma_position_bounds(*p, gravity_nm_ms2 as int, t_ms as int);
        assert(0 <= (gravity_nm_ms2 as int) * (t_ms as int) <= MAX_GRAVITY_NM_MS2 * MAX_TIME_MS)
            by (nonlinear_arith)
            requires
                0 <= gravity_nm_ms2 <= MAX_GRAVITY_NM_MS2,
                0 <= t_ms <= MAX_TIME_MS,
        ;
    }
    let x = p.x0_um + p.v0x_um_ms * t_ms;
    let gt2 = (gravity_nm_ms2 as u64) * (t_ms as u64) * (t_ms as u64);
    let half = (gt2 / 2000) as i64;
    let y = p.y0_um + p.v0y_um_ms * t_ms - half;
    (x, y)
}

/// The kinematic outputs stay far within the coordinate bound, and the
/// products involved stay within the machine range.
pub proof fn lemma_position_bounds(p: LaunchParameters, g: int, t: int)
    requires
        p.wf(),
        0 <= g <= MAX_GRAVITY_NM_MS2,
        0 <= t <= MAX_TIME_MS,
    ensures
        -MAX_SPEED_UM_MS * MAX_TIME_MS <= p.v0x_um_ms * t <= MAX_SPEED_UM_MS * MAX_TIME_MS,
        -MAX_SPEED_UM_MS * MAX_TIME_MS <= p.v0y_um_ms * t <= MAX_SPEED_UM_MS * MAX_TIME_MS,
        0 <= g * t * t <= MAX_GRAVITY_NM_MS2 * MAX_TIME_MS * MAX_TIME_MS,
        0 <= spec_half_g_t2(g, t) <= MAX_GRAVITY_NM_MS2 * MAX_TIME_MS * MAX_TIME_MS / 2000,
        -MAX_COORD_UM < spec_pos_x(p, t) < MAX_COORD_UM,
        -MAX_COORD_UM < spec_pos_y(p, g, t) < MAX_COORD_UM,
{
    assert(-MAX_SPEED_UM_MS * MAX_TIME_MS <= p.v0x_um_ms * t <= MAX_SPEED_UM_MS * MAX_TIME_MS)
        by (nonlinear_arith)
        requires
            -MAX_SPEED_UM_MS <= p.v0x_um_ms <= MAX_SPEED_UM_MS,
            0 <= t <= MAX_TIME_MS,
    ;
    assert(-MAX_SPEED_UM_MS * MAX_TIME_MS <= p.v0y_um_ms * t <= MAX_SPEED_UM_MS * MAX_TIME_MS)
        by (nonlinear_arith)
        requires
            -MAX_SPEED_UM_MS <= p.v0y_um_ms <= MAX_SPEED_UM_MS,
            0 <= t <= MAX_TIME_MS,
    ;
    assert(0 <= g * t * t <= MAX_GRAVITY_NM_MS2 * MAX_TIME_MS * MAX_TIME_MS) by (nonlinear_arith)
        requires
            0 <= g <= MAX_GRAVITY_NM_MS2,
            0 <= t <= MAX_TIME_MS,
    ;
    assert(0 <= (g * t * t) / 2000 <= MAX_GRAVITY_NM_MS2 * MAX_TIME_MS * MAX_TIME_MS / 2000) by {
        vstd::arithmetic::div_mod::lemma_div_is_ordered(g * t * t, MAX_GRAVITY_NM_MS2 * MAX_TIME_MS
            * MAX_TIME_MS, 2000);
        vstd::arithmetic::div_mod::lemma_div_pos_is_pos(g * t * t, 2000);
    }
}

/// Squared planar Euclidean distance.  The underlying geometry is
/// three dimensional, but the third coordinate of both the ball and
/// the target is held at zero, so it contributes nothing.
pub open spec fn spec_dist_sq(x1: int, y1: int, x2: int, y2: int) -> int {
    (x1 - x2) * (x1 - x2) + (y1 - y2) * (y1 - y2)
}

/// Whether a ball at `(x, y)` is within the capture radius of the
/// target: squared distance at most squared radius.
pub open spec fn spec_within(x: int, y: int, tgt: Target) -> bool {
    spec_dist_sq(x, y, tgt.x_um as int, tgt.y_um as int) <= tgt.radius_um * tgt.radius_um
}

/// Decides whether `(x_um, y_um)` is within the target's capture
/// radius, comparing squared distances so that no root is needed.
pub fn within_radius(x_um: i64, y_um: i64, tgt: &Target) -> (r: bool)
    requires
        tgt.wf(),
        -MAX_COORD_UM <= x_um <= MAX_COORD_UM,
        -MAX_COORD_UM <= y_um <= MAX_COORD_UM,
    ensures
        r == spec_within(x_um as int, y_um as int, *tgt),
{
    let dx = (x_um as i128) - (tgt.x_um as i128);
    let dy = (y_um as i128) - (tgt.y_um as i128);
    proof {
        let b = MAX_COORD_UM + MAX_POS_UM;
        assert(0 <= dx * dx <= b * b && 0 <= dy * dy <= b * b) by (nonlinear_arith)
            requires
                -b <= dx <= b,
                -b <= dy <= b,
                b == MAX_COORD_UM + MAX_POS_UM,
        ;
        assert(0 <= (tgt.radius_um as i128) * (tgt.radius_um as i128) <= MAX_RADIUS_UM
            * MAX_RADIUS_UM) by (nonlinear_arith)
            requires
                0 <= tgt.radius_um <= MAX_RADIUS_UM,
        ;
    }
    let d2 = dx * dx + dy * dy;
    let r2 = (tgt.radius_um as i128) * (tgt.radius_um as i128);
    d2 <= r2
}

/// The uniform step between consecutive sample times, in milliseconds.
pub open spec fn spec_delta(w: SimulationWindow) -> int {
    w.duration_ms as int / (w.steps - 1)
}

/// The `i`-th sample time: multiples of the step, except that the last
/// sample is pinned to the exact total duration.
pub open spec fn spec_step_time(w: SimulationWindow, i: int) -> int {
    if i == w.steps - 1 {
        w.duration_ms as int
    } else {
        i * spec_delta(w)
    }
}

/// Facts about the sample times of a well-formed window: the step is at
/// least one millisecond, every sample time lies within the window, and
/// the times are strictly increasing.
pub proof fn lemma_step_times(w: SimulationWindow)
    requires
        w.wf(),
    ensures
        1 <= spec_delta(w) <= w.duration_ms,
        forall|i: int| 0 <= i < w.steps ==> 0 <= #[trigger] spec_step_time(w, i) <= w.duration_ms,
        forall|i: int|
            0 < i < w.steps ==> #[trigger] spec_step_time(w, i - 1) < spec_step_time(w, i),
        spec_step_time(w, 0) == 0,
        spec_step_time(w, w.steps - 1) == w.duration_ms,
{
    let t = w.duration_ms as int;
    let n1 = w.steps - 1 as int;
    let d = spec_delta(w);
    lemma_div_non_zero(t, n1);
    lemma_fundamental_div_mod(t, n1);
    assert(n1 * d <= t);
    assert(d <= t) by (nonlinear_arith)
        requires
            n1 * d <= t,
            n1 >= 2,
            d >= 1,
    ;
    assert forall|i: int| 0 <= i < w.steps implies 0 <= #[trigger] spec_step_time(w, i)
        <= w.duration_ms by {
        if i < w.steps - 1 {
            lemma_mul_inequality(i, n1, d);
            assert(i * d >= 0) by (nonlinear_arith)
                requires
                    i >= 0,
                    d >= 1,
            ;
        }
    }
    assert forall|i: int| 0 < i < w.steps implies #[trigger] spec_step_time(w, i - 1)
        < spec_step_time(w, i) by {
        assert((i - 1) * d == i * d - d) by (nonlinear_arith);
        if i < w.steps - 1 {
        } else {
            lemma_mul_inequality(i, n1, d);
        }
    }
    assert(0 * d == 0);
}

/// Produces the sample times of a window: exactly `steps` values, the
/// first exactly zero, the last exactly the total duration, strictly
/// increasing, with all interior values at whole multiples of the step.
pub fn time_steps(w: &SimulationWindow) -> (r: Vec<i64>)
    requires
        w.wf(),
    ensures
        r@.len() == w.steps,
        forall|i: int| 0 <= i < w.steps ==> r@[i] == spec_step_time(*w, i),
        forall|i: int| 0 <= i < w.steps ==> 0 <= #[trigger] r@[i] <= w.duration_ms,
        r@[0] == 0,
        r@[w.steps - 1] == w.duration_ms,
        forall|i: int| 0 < i < w.steps ==> #[trigger] r@[i - 1] < r@[i],
{
    proof {
        lemma_step_times(*w);
    }
    let n1 = w.steps - 1;
    let delta = ((w.duration_ms as u64) / (n1 as u64)) as i64;
    let mut r: Vec<i64> = Vec::new();
    let mut i: usize = 0;
    while i < n1
        invariant
            i <= n1,
            n1 == w.steps - 1,
            w.wf(),
            delta == spec_delta(*w),
            1 <= delta <= w.duration_ms,
            r@.len() == i,
            forall|j: int| 0 <= j < i ==> r@[j] == spec_step_time(*w, j),
        decreases n1 - i,
    {
        proof {
            lemma_fundamental_div_mod(w.duration_ms as int, n1 as int);
            assert((n1 as int) * (delta as int) <= w.duration_ms);
            assert(0 <= (delta as int) * (i as int) && (delta as int) * (i as int)
                <= w.duration_ms) by (nonlinear_arith)
                requires
                    1 <= delta,
                    0 <= i as int <= n1 as int,
                    (n1 as int) * (delta as int) <= w.duration_ms as int,
            ;
        }
        let t = delta * (i as i64);
        proof {
            assert(t == (i as int) * spec_delta(*w)) by (nonlinear_arith)
                requires
                    t == (delta as int) * (i as int),
                    delta == spec_delta(*w),
            ;
            assert(t == spec_step_time(*w, i as int));
        }
        r.push(t);
        i += 1;
    }
    r.push(w.duration_ms);
    proof {
        lemma_step_times(*w);
        assert forall|i: int| 0 <= i < w.steps implies r@[i] == spec_step_time(*w, i) by {}
        assert forall|i: int| 0 <= i < w.steps implies 0 <= #[trigger] r@[i] <= w.duration_ms by {
            assert(r@[i] == spec_step_time(*w, i));
        }
        assert forall|i: int| 0 < i < w.steps implies #[trigger] r@[i - 1] < r@[i] by {
            assert(r@[i - 1] == spec_step_time(*w, i - 1));
            assert(r@[i] == spec_step_time(*w, i));
        }
    }
    r
}

/// One simulation record: the sample time, the position at that time,
/// and whether the ball is within the capture radius at that instant.
#[derive(Clone, Copy, Debug, PartialEq, Eq, Structural)]
pub struct Sample {
    /// Sample time, milliseconds.
    pub t_ms: i64,
    /// Horizontal position, micrometers.
    pub x_um: i64,
    /// Height, micrometers.
    pub y_um: i64,
    /// The ball is within the capture radius at this instant.
    pub entered: bool,
}

/// The outcome of one run: the retained samples in time order, and the
/// aggregate flag saying whether any retained sample entered the target.
#[derive(PartialEq, Eq)]
pub struct Trajectory {
    /// The retained samples, in strictly increasing time order.
    pub samples: Vec<Sample>,
    /// True exactly when some retained sample's `entered` flag is true.
    pub entered: bool,
}

/// Whether the ball is within the capture radius at step `i`.
pub open spec fn spec_entered_at(
    p: LaunchParameters,
    tgt: Target,
    g: int,
    w: SimulationWindow,
    i: int,
) -> bool {
    spec_within(spec_pos_x(p, spec_step_time(w, i)), spec_pos_y(p, g, spec_step_time(w, i)), tgt)
}

/// Whether the sample of step `i` is retained: the ball is at or above
/// the ground.
pub open spec fn spec_retained_at(
    p: LaunchParameters,
    g: int,
    w: SimulationWindow,
    i: int,
) -> bool {
    spec_pos_y(p, g, spec_step_time(w, i)) >= 0
}

/// The record produced for step `i`.
pub open spec fn spec_sample_at(
    p: LaunchParameters,
    tgt: Target,
    g: int,
    w: SimulationWindow,
    i: int,
) -> Sample {
    Sample {
        t_ms: spec_step_time(w, i) as i64,
        x_um: spec_pos_x(p, spec_step_time(w, i)) as i64,
        y_um: spec_pos_y(p, g, spec_step_time(w, i)) as i64,
        entered: spec_entered_at(p, tgt, g, w, i),
    }
}

/// The retained samples of the first `n` steps, in step order; a step
/// whose height is negative contributes nothing.
pub open spec fn spec_samples_upto(
    p: LaunchParameters,
    tgt: Target,
    g: int,
    w: SimulationWindow,
    n: int,
) -> Seq<Sample>
    decreases n,
{
    if n <= 0 {
        Seq::empty()
    } else {
        let rest = spec_samples_upto(p, tgt, g, w, n - 1);
        if spec_retained_at(p, g, w, n - 1) {
            rest.push(spec_sample_at(p, tgt, g, w, n - 1))
        } else {
            rest
        }
    }
}

/// Whether any of the first `n` steps is both retained and within the
/// capture radius: the monotone OR the engine accumulates.
pub open spec fn spec_entered_upto(
    p: LaunchParameters,
    tgt: Target,
    g: int,
    w: SimulationWindow,
    n: int,
) -> bool
    decreases n,
{
    if n <= 0 {
        false
    } else {
        spec_entered_upto(p, tgt, g, w, n - 1) || (spec_retained_at(p, g, w, n - 1)
            && spec_entered_at(p, tgt, g, w, n - 1))
    }
}

/// The full functional description of one run.
pub open spec fn spec_is_trajectory(
    r: Trajectory,
    p: LaunchParameters,
    tgt: Target,
    g: int,
    w: SimulationWindow,
) -> bool {
    &&& r.samples@ == spec_samples_upto(p, tgt, g, w, w.steps as int)
    &&& r.entered == spec_entered_upto(p, tgt, g, w, w.steps as int)
}

/// Every retained sample of the first `n` steps is at or above the
/// ground: the engine drops every sample whose height is negative.
pub proof fn lemma_samples_above_ground(
    p: LaunchParameters,
    tgt: Target,
    g: int,
    w: SimulationWindow,
    n: int,
)
    requires
        p.wf(),
        w.wf(),
        0 <= g <= MAX_GRAVITY_NM_MS2,
        n <= w.steps,
    ensures
        forall|i: int|
            0 <= i < spec_samples_upto(p, tgt, g, w, n).len() ==> #[trigger] spec_samples_upto(
                p,
                tgt,
                g,
                w,
                n,
            )[i].y_um >= 0,
    decreases n,
{
    if n > 0 {
        lemma_samples_above_ground(p, tgt, g, w, n - 1);
        let s = spec_samples_upto(p, tgt, g, w, n);
        let s1 = spec_samples_upto(p, tgt, g, w, n - 1);
        if spec_retained_at(p, g, w, n - 1) {
            lemma_step_times(w);
            lemma_position_bounds(p, g, spec_step_time(w, n - 1));
            assert forall|i: int| 0 <= i < s.len() implies #[trigger] s[i].y_um >= 0 by {
                if i < s1.len() {
                    assert(s[i] == s1[i]);
                } else {
                    assert(s[i] == spec_sample_at(p, tgt, g, w, n - 1));
                }
            }
        } else {
            assert(s == s1);
        }
    }
}

/// The retained samples of the first `n` steps come out in strictly
/// increasing time order, and none is later than the last step taken.
pub proof fn lemma_samples_times_increasing(
    p: LaunchParameters,
    tgt: Target,
    g: int,
    w: SimulationWindow,
    n: int,
)
    requires
        w.wf(),
        n <= w.steps,
    ensures
        forall|a: int, b: int|
            0 <= a < b < spec_samples_upto(p, tgt, g, w, n).len() ==> #[trigger] spec_samples_upto(
                p,
                tgt,
                g,
                w,
                n,
            )[a].t_ms < #[trigger] spec_samples_upto(p, tgt, g, w, n)[b].t_ms,
        n >= 1 ==> forall|a: int|
            0 <= a < spec_samples_upto(p, tgt, g, w, n).len() ==> #[trigger] spec_samples_upto(
                p,
                tgt,
                g,
                w,
                n,
            )[a].t_ms <= spec_step_time(w, n - 1),
    decreases n,
{
    if n > 0 {
        lemma_samples_times_increasing(p, tgt, g, w, n - 1);
        lemma_step_times(w);
        let s = spec_samples_upto(p, tgt, g, w, n);
        let s1 = spec_samples_upto(p, tgt, g, w, n - 1);
        if spec_retained_at(p, g, w, n - 1) {
            assert(s == s1.push(spec_sample_at(p, tgt, g, w, n - 1)));
            assert(s[s.len() - 1].t_ms == spec_step_time(w, n - 1));
            assert forall|a: int, b: int| 0 <= a < b < s.len() implies #[trigger] s[a].t_ms
                < #[trigger] s[b].t_ms by {
                if b < s.len() - 1 {
                    assert(s[a] == s1[a] && s[b] == s1[b]);
                } else {
                    assert(s[a] == s1[a]);
                    if n >= 2 {
                        assert(s1[a].t_ms <= spec_step_time(w, n - 2));
                        assert(spec_step_time(w, n - 2) < spec_step_time(w, n - 1));
                    }
                }
            }
            assert forall|a: int| 0 <= a < s.len() implies #[trigger] s[a].t_ms <= spec_step_time(
                w,
                n - 1,
            ) by {
                if a < s.len() - 1 {
                    assert(s[a] == s1[a]);
                    assert(spec_step_time(w, n - 2) < spec_step_time(w, n - 1));
                }
            }
        } else {
            assert(s == s1);
            if n >= 2 {
                assert(spec_step_time(w, n - 2) < spec_step_time(w, n - 1));
            }
        }
    }
}

/// The samples of a finished run are in strictly increasing time order.
pub proof fn lemma_trajectory_times_increasing(
    r: Trajectory,
    p: LaunchParameters,
    tgt: Target,
    g: int,
    w: SimulationWindow,
)
    requires
        spec_is_trajectory(r, p, tgt, g, w),
        w.wf(),
    ensures
        forall|a: int, b: int|
            0 <= a < b < r.samples@.len() ==> #[trigger] r.samples@[a].t_ms
                < #[trigger] r.samples@[b].t_ms,
{
    lemma_samples_times_increasing(p, tgt, g, w, w.steps as int);
}

/// The aggregate "ever entered" flag accumulated over the first `n`
/// steps holds exactly when some retained sample of those steps carries
/// a true instant flag.
pub proof fn lemma_entered_iff_flagged(
    p: LaunchParameters,
    tgt: Target,
    g: int,
    w: SimulationWindow,
    n: int,
)
    ensures
        spec_entered_upto(p, tgt, g, w, n) <==> exists|i: int|
            0 <= i < spec_samples_upto(p, tgt, g, w, n).len() && #[trigger] spec_samples_upto(
                p,
                tgt,
                g,
                w,
                n,
            )[i].entered,
    decreases n,
{
    let s = spec_samples_upto(p, tgt, g, w, n);
    if n > 0 {
        lemma_entered_iff_flagged(p, tgt, g, w, n - 1);
        let s1 = spec_samples_upto(p, tgt, g, w, n - 1);
        if spec_retained_at(p, g, w, n - 1) {
            assert(s == s1.push(spec_sample_at(p, tgt, g, w, n - 1)));
            if spec_entered_upto(p, tgt, g, w, n) {
                if spec_entered_upto(p, tgt, g, w, n - 1) {
                    let i = choose|i: int| 0 <= i < s1.len() && #[trigger] s1[i].entered;
                    assert(s[i].entered);
                } else {
                    assert(s[s.len() - 1].entered);
                }
            }
            if exists|i: int| 0 <= i < s.len() && #[trigger] s[i].entered {
                let i = choose|i: int| 0 <= i < s.len() && #[trigger] s[i].entered;
                if i < s1.len() {
                    assert(s1[i].entered);
                } else {
                    assert(spec_entered_at(p, tgt, g, w, n - 1));
                }
            }
        } else {
            assert(s == s1);
        }
    }
}

/// The flag of a finished run holds exactly when one of its samples is
/// flagged: the aggregate flag is the OR of the per-sample flags.
pub proof fn lemma_trajectory_flag_is_or_of_sample_flags(
    r: Trajectory,
    p: LaunchParameters,
    tgt: Target,
    g: int,
    w: SimulationWindow,
)
    requires
        spec_is_trajectory(r, p, tgt, g, w),
    ensures
        r.entered <==> exists|i: int|
            0 <= i < r.samples@.len() && #[trigger] r.samples@[i].entered,
{
    lemma_entered_iff_flagged(p, tgt, g, w, w.steps as int);
}

/// Every sample of a finished run is at or above the ground.
pub proof fn lemma_trajectory_above_ground(
    r: Trajectory,
    p: LaunchParameters,
    tgt: Target,
    g: int,
    w: SimulationWindow,
)
    requires
        spec_is_trajectory(r, p, tgt, g, w),
        p.wf(),
        w.wf(),
        0 <= g <= MAX_GRAVITY_NM_MS2,
    ensures
        forall|i: int| 0 <= i < r.samples@.len() ==> #[trigger] r.samples@[i].y_um >= 0,
{
    lemma_samples_above_ground(p, tgt, g, w, w.steps as int);
}

/// The engine is a pure function of its inputs: two runs over identical
/// inputs give identical sample sequences and identical flags.
pub proof fn lemma_simulate_deterministic(
    r1: Trajectory,
    r2: Trajectory,
    p: LaunchParameters,
    tgt: Target,
    g: int,
    w: SimulationWindow,
)
    requires
        spec_is_trajectory(r1, p, tgt, g, w),
        spec_is_trajectory(r2, p, tgt, g, w),
    ensures
        r1.samples@ == r2.samples@,
        r1.entered == r2.entered,
{
}

/// The trajectory engine: samples the window, evaluates the closed-form
/// position at each time, flags the instants within the capture radius,
/// drops samples below the ground, and accumulates the aggregate flag
/// over the retained samples.
#[verifier::loop_isolation(false)]
pub fn simulate_trajectory(
    p: &LaunchParameters,
    tgt: &Target,
    gravity_nm_ms2: i64,
    w: &SimulationWindow,
) -> (r: Trajectory)
    requires
        p.wf(),
        tgt.wf(),
        w.wf(),
        0 <= gravity_nm_ms2 <= MAX_GRAVITY_NM_MS2,
    ensures
        spec_is_trajectory(r, *p, *tgt, gravity_nm_ms2 as int, *w),
{
    let ghost g = gravity_nm_ms2 as int;
    let times = time_steps(w);
    let mut samples: Vec<Sample> = Vec::new();
    let mut entered = false;
    let n = w.steps;
    let mut i: usize = 0;
    while i < n
        invariant
            i <= n,
            samples@ == spec_samples_upto(*p, *tgt, g, *w, i as int),
            entered == spec_entered_upto(*p, *tgt, g, *w, i as int),
        decreases n - i,
    {
        let t = times[i];
        let (x, y) = position(p, gravity_nm_ms2, t);
        proof {
            lemma_position_bounds(*p, g, t as int);
        }
        let hit = within_radius(x, y, tgt);
        if y >= 0 {
            samples.push(Sample { t_ms: t, x_um: x, y_um: y, entered: hit });
            if hit {
                entered = true;
            }
        }
        i += 1;
    }
    Trajectory { samples, entered }
}

} // verus!
