//! The task-space PID controller.
//!
//! Every cycle the controller reads the joints, updates its reference pose
//! (integrating it while a velocity is commanded, freezing it once the
//! command falls to zero), takes the task-space error of the end effector
//! against the reference, forms the task-space command as feedforward plus
//! the three terms of the PID law, and maps it to joint rates by the
//! pseudo-inverse of the Jacobian.
//!
//! The linear part of a commanded velocity is given in the world frame. The
//! angular part is given in the frame of the end effector and in degrees per
//! second; it is converted to radians and rotated into the world frame
//! before it is used.

use vstd::prelude::*;
use crate::algebra::ControlAlgebra;
use crate::arm::{positions_set, velocities_set, Arm};
use crate::chain::chain_transforms_to;
use crate::error::{length_verdict, ConfigError};
use crate::joint::{Joint, JointType};
use crate::pid::PidState;
use crate::pose::pose_parts;
use crate::reference::{
    advanced, commands, due, held, CycleOutcome, ReferenceTracker, TrackerState,
    DEFAULT_ORTHONORM_INTERVAL,
};

verus! {

/// `next` is the position `position` after one step of Euler integration of
/// the velocity `v`: `position` + `v`·dt.
pub open spec fn position_advances_to<P, S, A: ControlAlgebra<P, S>>(
    algebra: A,
    position: A::Vector,
    v: A::Vector,
    dt: S,
    next: A::Vector,
) -> bool {
    exists|step: A::Vector| #[trigger]
        call_ensures(A::scale, (&algebra, &v, dt), step) && call_ensures(
            A::sum,
            (&algebra, &position, &step),
            next,
        )
}

/// `next` is the rotation `rotation` after one step of small-angle
/// integration of the angular rate `w`: ([w]×·dt + I) · `rotation`.
pub open spec fn orientation_advances_to<P, S, A: ControlAlgebra<P, S>>(
    algebra: A,
    rotation: A::Rotation,
    w: A::Vector,
    dt: S,
    next: A::Rotation,
) -> bool {
    exists|cross: A::Rotation, turn: A::Rotation, identity: A::Rotation, d_r: A::Rotation|
        {
            &&& #[trigger] call_ensures(A::skew, (&algebra, &w), cross)
            &&& #[trigger] call_ensures(A::scale_rotation, (&algebra, &cross, dt), turn)
            &&& #[trigger] call_ensures(A::identity_rotation, (&algebra,), identity)
            &&& #[trigger] call_ensures(A::sum_rotations, (&algebra, &turn, &identity), d_r)
            &&& call_ensures(A::compose_rotations, (&algebra, &d_r, &rotation), next)
        }
}

/// `e` is the orientation error of the rotation `current` against the
/// rotation `reference`: half the sum of the cross products of the
/// corresponding axes, 0.5·(x × x' + y × y' + z × z').
pub open spec fn orientation_error_of<P, S, A: ControlAlgebra<P, S>>(
    algebra: A,
    current: A::Rotation,
    reference: A::Rotation,
    e: A::Vector,
) -> bool {
    exists|
        x_e: A::Vector,
        y_e: A::Vector,
        z_e: A::Vector,
        x_r: A::Vector,
        y_r: A::Vector,
        z_r: A::Vector,
        x: A::Vector,
        y: A::Vector,
        z: A::Vector,
        x_y: A::Vector,
        all: A::Vector,
    |
        {
            &&& call_ensures(A::column, (&algebra, &current, 0usize), x_e)
            &&& call_ensures(A::column, (&algebra, &current, 1usize), y_e)
            &&& call_ensures(A::column, (&algebra, &current, 2usize), z_e)
            &&& call_ensures(A::column, (&algebra, &reference, 0usize), x_r)
            &&& call_ensures(A::column, (&algebra, &reference, 1usize), y_r)
            &&& call_ensures(A::column, (&algebra, &reference, 2usize), z_r)
            &&& #[trigger] call_ensures(A::cross, (&algebra, &x_e, &x_r), x)
            &&& #[trigger] call_ensures(A::cross, (&algebra, &y_e, &y_r), y)
            &&& #[trigger] call_ensures(A::cross, (&algebra, &z_e, &z_r), z)
            &&& #[trigger] call_ensures(A::sum, (&algebra, &x, &y), x_y)
            &&& #[trigger] call_ensures(A::sum, (&algebra, &x_y, &z), all)
            &&& call_ensures(A::half, (&algebra, &all), e)
        }
}

/// `next` is the integral `integral` after one Euler step with the error
/// `error`: `integral` + `error`·dt.
pub open spec fn accumulates_to<P, S, A: ControlAlgebra<P, S>>(
    algebra: A,
    integral: A::Twist,
    error: A::Twist,
    dt: S,
    next: A::Twist,
) -> bool {
    exists|step: A::Twist| #[trigger]
        call_ensures(A::scale_twist, (&algebra, &error, dt), step) && call_ensures(
            A::sum_twists,
            (&algebra, &integral, &step),
            next,
        )
}

/// `d_error` is the derivative of the error: (`error` − `previous`) / dt.
pub open spec fn derives_to<P, S, A: ControlAlgebra<P, S>>(
    algebra: A,
    error: A::Twist,
    previous: A::Twist,
    dt: S,
    d_error: A::Twist,
) -> bool {
    exists|change: A::Twist| #[trigger]
        call_ensures(A::difference_twists, (&algebra, &error, &previous), change) && call_ensures(
            A::divide_twist,
            (&algebra, &change, dt),
            d_error,
        )
}

/// `u` is the task-space command: `feedforward` + kp∘`error` +
/// ki∘`integral` + kd∘`d_error`, added from the left to the right, the gains
/// applied coordinate by coordinate.
pub open spec fn commands_to<P, S, A: ControlAlgebra<P, S>>(
    algebra: A,
    feedforward: A::Twist,
    kp: A::Twist,
    ki: A::Twist,
    kd: A::Twist,
    error: A::Twist,
    integral: A::Twist,
    d_error: A::Twist,
    u: A::Twist,
) -> bool {
    exists|p: A::Twist, i: A::Twist, d: A::Twist, with_p: A::Twist, with_i: A::Twist|
        {
            &&& #[trigger] call_ensures(A::component_mul, (&algebra, &kp, &error), p)
            &&& #[trigger] call_ensures(A::component_mul, (&algebra, &ki, &integral), i)
            &&& #[trigger] call_ensures(A::component_mul, (&algebra, &kd, &d_error), d)
            &&& #[trigger] call_ensures(A::sum_twists, (&algebra, &feedforward, &p), with_p)
            &&& #[trigger] call_ensures(A::sum_twists, (&algebra, &with_p, &i), with_i)
            &&& call_ensures(A::sum_twists, (&algebra, &with_i, &d), u)
        }
}

fn advance_position<P, S: Copy, A: ControlAlgebra<P, S>>(
    algebra: &A,
    position: &A::Vector,
    v: &A::Vector,
    dt: S,
) -> (next: A::Vector)
    ensures
        position_advances_to(*algebra, *position, *v, dt, next),
{
    let step = algebra.scale(v, dt);
    algebra.sum(position, &step)
}

fn advance_orientation<P, S: Copy, A: ControlAlgebra<P, S>>(
    algebra: &A,
    rotation: &A::Rotation,
    w: &A::Vector,
    dt: S,
) -> (next: A::Rotation)
    ensures
        orientation_advances_to(*algebra, *rotation, *w, dt, next),
{
    let cross = algebra.skew(w);
    let turn = algebra.scale_rotation(&cross, dt);
    let identity = algebra.identity_rotation();
    let d_r = algebra.sum_rotations(&turn, &identity);
    algebra.compose_rotations(&d_r, rotation)
}

fn orientation_error<P, S, A: ControlAlgebra<P, S>>(
    algebra: &A,
    current: &A::Rotation,
    reference: &A::Rotation,
) -> (e: A::Vector)
    ensures
        orientation_error_of(*algebra, *current, *reference, e),
{
    let x_e = algebra.column(current, 0);
    let y_e = algebra.column(current, 1);
    let z_e = algebra.column(current, 2);
    let x_r = algebra.column(reference, 0);
    let y_r = algebra.column(reference, 1);
    let z_r = algebra.column(reference, 2);
    let x = algebra.cross(&x_e, &x_r);
    let y = algebra.cross(&y_e, &y_r);
    let z = algebra.cross(&z_e, &z_r);
    let x_y = algebra.sum(&x, &y);
    let all = algebra.sum(&x_y, &z);
    algebra.half(&all)
}

fn accumulate<P, S: Copy, A: ControlAlgebra<P, S>>(
    algebra: &A,
    integral: &A::Twist,
    error: &A::Twist,
    dt: S,
) -> (next: A::Twist)
    ensures
        accumulates_to(*algebra, *integral, *error, dt, next),
{
    let step = algebra.scale_twist(error, dt);
    algebra.sum_twists(integral, &step)
}

fn derivative<P, S: Copy, A: ControlAlgebra<P, S>>(
    algebra: &A,
    error: &A::Twist,
    previous: &A::Twist,
    dt: S,
) -> (d_error: A::Twist)
    ensures
        derives_to(*algebra, *error, *previous, dt, d_error),
{
    let change = algebra.difference_twists(error, previous);
    algebra.divide_twist(&change, dt)
}

fn command<P, S, A: ControlAlgebra<P, S>>(
    algebra: &A,
    feedforward: &A::Twist,
    kp: &A::Twist,
    ki: &A::Twist,
    kd: &A::Twist,
    error: &A::Twist,
    integral: &A::Twist,
    d_error: &A::Twist,
) -> (u: A::Twist)
    ensures
        commands_to(*algebra, *feedforward, *kp, *ki, *kd, *error, *integral, *d_error, u),
{
    let p = algebra.component_mul(kp, error);
    let i = algebra.component_mul(ki, integral);
    let d = algebra.component_mul(kd, d_error);
    let with_p = algebra.sum_twists(feedforward, &p);
    let with_i = algebra.sum_twists(&with_p, &i);
    algebra.sum_twists(&with_i, &d)
}

/// `v`, `w_ee`, `w_world` and `feedforward` are the commanded velocity
/// `xd` as the controller reads it while the end effector has the pose
/// `pose`: the linear velocity in the world frame, the angular rate in the
/// frame of the end effector converted from degrees to radians, that rate
/// rotated into the world frame, and the twist of the two world-frame parts.
pub open spec fn velocity_of<P, S, A: ControlAlgebra<P, S>>(
    algebra: A,
    pose: A::Transform,
    xd: A::Twist,
    v: A::Vector,
    w_ee: A::Vector,
    w_world: A::Vector,
    feedforward: A::Twist,
) -> bool {
    exists|w_deg: A::Vector, r_curr: A::Rotation|
        {
            &&& call_ensures(A::linear_part, (&algebra, &xd), v)
            &&& #[trigger] call_ensures(A::angular_part, (&algebra, &xd), w_deg)
            &&& call_ensures(A::degrees_to_radians, (&algebra, &w_deg), w_ee)
            &&& #[trigger] call_ensures(A::rotation, (&algebra, &pose), r_curr)
            &&& call_ensures(A::rotate, (&algebra, &r_curr, &w_ee), w_world)
            &&& call_ensures(A::twist, (&algebra, &v, &w_world), feedforward)
        }
}

/// `next` is the reference `reference` integrated forward by one cycle: its
/// position by Euler integration of `v`, its rotation by small-angle
/// integration of `w_world`.
pub open spec fn integrates_to<P, S, A: ControlAlgebra<P, S>>(
    algebra: A,
    reference: (A::Vector, A::Rotation),
    v: A::Vector,
    w_world: A::Vector,
    dt: S,
    next: (A::Vector, A::Rotation),
) -> bool {
    &&& position_advances_to(algebra, reference.0, v, dt, next.0)
    &&& orientation_advances_to(algebra, reference.1, w_world, dt, next.1)
}

/// `next` is the reference `reference` with its rotation orthonormalized.
pub open spec fn renews_to<P, S, A: ControlAlgebra<P, S>>(
    algebra: A,
    reference: (A::Vector, A::Rotation),
    next: (A::Vector, A::Rotation),
) -> bool {
    &&& next.0 == reference.0
    &&& call_ensures(A::orthonormalize, (&algebra, &reference.1), next.1)
}

/// `after` is the state of the reference after a cycle in which the
/// velocity (`v`, `w_ee`) was commanded, and `outcome` is what the cycle did.
///
/// The velocity is a command if the norm of `v` or of `w_ee` is greater than
/// the threshold. Without command the reference holds: it is frozen at the
/// pose of the end effector on the first such cycle and untouched on later
/// ones. With a command the reference is integrated forward, and on every
/// `interval`-th tracking cycle its rotation is orthonormalized as well.
pub open spec fn reference_follows<P, S: PartialOrd + Copy, A: ControlAlgebra<P, S>>(
    algebra: A,
    pose: A::Transform,
    v: A::Vector,
    w_ee: A::Vector,
    w_world: A::Vector,
    dt: S,
    before: TrackerState<(A::Vector, A::Rotation), S>,
    after: TrackerState<(A::Vector, A::Rotation), S>,
    outcome: CycleOutcome,
) -> bool {
    exists|linear_speed: S, angular_speed: S, current: (A::Vector, A::Rotation)|
        {
            &&& #[trigger] call_ensures(A::norm, (&algebra, &v), linear_speed)
            &&& #[trigger] call_ensures(A::norm, (&algebra, &w_ee), angular_speed)
            &&& #[trigger] pose_parts(algebra, pose, current)
            &&& commands(linear_speed, angular_speed, before.epsilon, outcome.tracking())
            &&& if outcome.tracking() {
                &&& after == advanced(before, after.reference)
                &&& exists|integrated: (A::Vector, A::Rotation)| #[trigger]
                    integrates_to(algebra, before.reference, v, w_world, dt, integrated) && if due(
                        before.phase,
                        before.interval,
                    ) {
                        &&& renews_to(algebra, integrated, after.reference)
                        &&& outcome == CycleOutcome::Reorthonormalized
                    } else {
                        &&& after.reference == integrated
                        &&& outcome == CycleOutcome::Integrated
                    }
            } else {
                &&& after == held(before, current)
                &&& outcome == if before.holding {
                    CycleOutcome::Held
                } else {
                    CycleOutcome::Captured
                }
            }
        }
}

/// `error` is the task-space error of the end effector at `pose` against
/// the reference `reference`: the position error, reference minus current,
/// and the orientation error of the current rotation against the reference
/// rotation.
pub open spec fn error_of<P, S, A: ControlAlgebra<P, S>>(
    algebra: A,
    pose: A::Transform,
    reference: (A::Vector, A::Rotation),
    error: A::Twist,
) -> bool {
    exists|x: A::Vector, r_curr: A::Rotation, e_pos: A::Vector, e_ori: A::Vector|
        {
            &&& #[trigger] call_ensures(A::position, (&algebra, &pose), x)
            &&& #[trigger] call_ensures(A::rotation, (&algebra, &pose), r_curr)
            &&& call_ensures(A::difference, (&algebra, &reference.0, &x), e_pos)
            &&& orientation_error_of(algebra, r_curr, reference.1, e_ori)
            &&& #[trigger] call_ensures(A::twist, (&algebra, &e_pos, &e_ori), error)
        }
}

/// `u` is the task-space command of the PID law for the error `error`, and
/// `after` are the errors that the law remembers afterwards.
///
/// The integral is accumulated first; the derivative is taken against the
/// error of the cycle before; the command is the feedforward plus the three
/// terms of the law; and the error becomes the previous error.
pub open spec fn law_of<P, S, A: ControlAlgebra<P, S>>(
    algebra: A,
    kp: A::Twist,
    ki: A::Twist,
    kd: A::Twist,
    before: (A::Twist, A::Twist),
    feedforward: A::Twist,
    error: A::Twist,
    dt: S,
    after: (A::Twist, A::Twist),
    u: A::Twist,
) -> bool {
    &&& accumulates_to(algebra, before.0, error, dt, after.0)
    &&& after.1 == error
    &&& exists|d_error: A::Twist| #[trigger]
        derives_to(algebra, error, before.1, dt, d_error) && commands_to(
            algebra,
            feedforward,
            kp,
            ki,
            kd,
            error,
            after.0,
            d_error,
            u,
        )
}

/// `out` is the rate `rate` of a joint of kind `kind` as the controller
/// hands it out: in degrees per second for a revolute joint, as it is for a
/// prismatic joint.
pub open spec fn hands_out<P, S, A: ControlAlgebra<P, S>>(
    algebra: A,
    kind: JointType,
    rate: S,
    out: S,
) -> bool {
    match kind {
        JointType::Revolute => call_ensures(A::to_degrees, (&algebra, rate), out),
        JointType::Prismatic => out == rate,
    }
}

/// `result` are the joint velocity commands for the task-space command `u`:
/// the rates that the pseudo-inverse maps it to, one per joint, each handed
/// out in the unit of its joint. Rates that are not one per joint are
/// rejected.
pub open spec fn rates_of<P, S: PartialOrd + Copy, A: ControlAlgebra<P, S>>(
    algebra: A,
    inv_jacobian: A::Matrix,
    u: A::Twist,
    joints: Seq<Joint<S>>,
    result: Result<Vec<S>, ConfigError>,
) -> bool {
    exists|rates: Vec<S>| #[trigger]
        call_ensures(A::joint_rates, (&algebra, &inv_jacobian, &u), rates) && match length_verdict(
            joints.len() as usize,
            rates@.len() as usize,
        ) {
            Err(e) => result == Err::<Vec<S>, ConfigError>(e),
            Ok(()) => {
                &&& result matches Ok(out)
                &&& out@.len() == joints.len()
                &&& forall|i: int|
                    0 <= i < joints.len() ==> hands_out(
                        algebra,
                        joints[i]@.joint_type,
                        rates@[i],
                        #[trigger] out@[i],
                    )
            },
        }
}

/// `result` and the states `after_reference` and `after_errors` are what one
/// control cycle makes of the commanded velocity `xd` while the end effector
/// has the pose `pose`: the reference is updated, the error is taken against
/// the updated reference, the PID law forms the task-space command, and the
/// pseudo-inverse `inv_jacobian` maps it to joint rates.
pub open spec fn cycle_of<P, S: PartialOrd + Copy, A: ControlAlgebra<P, S>>(
    algebra: A,
    pose: A::Transform,
    xd: A::Twist,
    dt: S,
    kp: A::Twist,
    ki: A::Twist,
    kd: A::Twist,
    before_reference: TrackerState<(A::Vector, A::Rotation), S>,
    before_errors: (A::Twist, A::Twist),
    after_reference: TrackerState<(A::Vector, A::Rotation), S>,
    after_errors: (A::Twist, A::Twist),
    inv_jacobian: A::Matrix,
    joints: Seq<Joint<S>>,
    result: Result<Vec<S>, ConfigError>,
) -> bool {
    exists|
        v: A::Vector,
        w_ee: A::Vector,
        w_world: A::Vector,
        feedforward: A::Twist,
        outcome: CycleOutcome,
        error: A::Twist,
        u: A::Twist,
    |
        {
            &&& #[trigger] velocity_of(algebra, pose, xd, v, w_ee, w_world, feedforward)
            &&& #[trigger] reference_follows(
                algebra,
                pose,
                v,
                w_ee,
                w_world,
                dt,
                before_reference,
                after_reference,
                outcome,
            )
            &&& error_of(algebra, pose, after_reference.reference, error)
            &&& #[trigger] law_of(
                algebra,
                kp,
                ki,
                kd,
                before_errors,
                feedforward,
                error,
                dt,
                after_errors,
                u,
            )
            &&& rates_of(algebra, inv_jacobian, u, joints, result)
        }
}

/// The task-space PID controller: it tracks a commanded task-space velocity,
/// or holds the pose at which the command fell to zero, and maps the
/// corrected command to joint velocities.
pub struct TaskSpacePidController<W, V, R, S: PartialOrd + Copy> {
    kp: W,
    ki: W,
    kd: W,
    pid: PidState<W>,
    tracker: ReferenceTracker<(V, R), S>,
}

impl<W, V, R, S: PartialOrd + Copy> TaskSpacePidController<W, V, R, S> {
    /// The gains of the law: proportional, integral, derivative, each with
    /// one coordinate per task-space coordinate.
    pub closed spec fn gains(&self) -> (W, W, W) {
        (self.kp, self.ki, self.kd)
    }

    /// The integral of the error and the error of the cycle before.
    pub closed spec fn errors(&self) -> (W, W) {
        self.pid@
    }

    /// The reference pose with its mode and schedule.
    pub closed spec fn reference_state(&self) -> TrackerState<(V, R), S> {
        self.tracker@
    }

    /// A controller with the given gains that has accumulated nothing yet:
    /// both errors are zero, and the reference is at the origin, unrotated,
    /// and tracking.
    pub fn new<P, A: ControlAlgebra<P, S, Twist = W, Vector = V, Rotation = R>>(
        algebra: &A,
        kp: W,
        ki: W,
        kd: W,
    ) -> (controller: Self)
        ensures
            controller.gains() == (kp, ki, kd),
            call_ensures(A::zero_twist, (algebra,), controller.errors().0),
            call_ensures(A::zero_twist, (algebra,), controller.errors().1),
            call_ensures(A::zero, (algebra,), controller.reference_state().reference.0),
            call_ensures(
                A::identity_rotation,
                (algebra,),
                controller.reference_state().reference.1,
            ),
            call_ensures(A::velocity_epsilon, (algebra,), controller.reference_state().epsilon),
            !controller.reference_state().holding,
            controller.reference_state().phase == 0,
            controller.reference_state().interval == DEFAULT_ORTHONORM_INTERVAL,
    {
        let integral_error = algebra.zero_twist();
        let prev_error = algebra.zero_twist();
        let x_ref = algebra.zero();
        let r_ref = algebra.identity_rotation();
        let epsilon = algebra.velocity_epsilon();
        TaskSpacePidController {
            kp,
            ki,
            kd,
            pid: PidState::new(integral_error, prev_error),
            tracker: ReferenceTracker::new((x_ref, r_ref), epsilon),
        }
    }

    /// The proportional gains.
    pub fn kp(&self) -> (kp: &W)
        ensures
            *kp == self.gains().0,
    {
        &self.kp
    }

    /// The integral gains.
    pub fn ki(&self) -> (ki: &W)
        ensures
            *ki == self.gains().1,
    {
        &self.ki
    }

    /// The derivative gains.
    pub fn kd(&self) -> (kd: &W)
        ensures
            *kd == self.gains().2,
    {
        &self.kd
    }

    /// Replaces the gains and leaves everything else as it is.
    pub fn set_gains(&mut self, kp: W, ki: W, kd: W)
        ensures
            final(self).gains() == (kp, ki, kd),
            final(self).errors() == old(self).errors(),
            final(self).reference_state() == old(self).reference_state(),
    {
        self.kp = kp;
        self.ki = ki;
        self.kd = kd;
    }

    /// True while the reference pose is frozen.
    pub fn holding(&self) -> (holding: bool)
        ensures
            holding == self.reference_state().holding,
    {
        self.tracker.holding()
    }

    /// The reference pose: position and rotation.
    pub fn reference(&self) -> (reference: &(V, R))
        ensures
            *reference == self.reference_state().reference,
    {
        self.tracker.reference()
    }

    /// The accumulated integral of the task-space error.
    pub fn integral_error(&self) -> (integral_error: &W)
        ensures
            *integral_error == self.errors().0,
    {
        self.pid.integral_error()
    }

    /// The task-space error of the cycle before.
    pub fn prev_error(&self) -> (prev_error: &W)
        ensures
            *prev_error == self.errors().1,
    {
        self.pid.prev_error()
    }

    /// One control cycle.
    ///
    /// - `xd_des`: desired task-space velocity, the linear part in the world
    ///   frame, the angular part in the frame of the end effector and in
    ///   degrees per second
    /// - `motor_pos`: current joint positions, in internal units
    /// - `motor_vels`: current joint velocities
    /// - `dt`: time step for integration
    ///
    /// Returns the joint velocity commands, those of revolute joints in
    /// degrees per second. Arrays that are not one entry per joint are
    /// rejected, and nothing changes.
    pub fn compute<P, A: ControlAlgebra<P, S, Twist = W, Vector = V, Rotation = R>, K>(
        &mut self,
        arm: &mut Arm<P, S, A, K>,
        xd_des: &W,
        motor_pos: &[S],
        motor_vels: &[S],
        dt: S,
    ) -> (result: Result<Vec<S>, ConfigError>)
        ensures
            final(self).gains() == old(self).gains(),
            final(arm).unchanged_but_joints(*old(arm)),
            match length_verdict(
                old(arm).joint_states()@.len() as usize,
                motor_pos@.len() as usize,
            ) {
                Err(e) => Err::<(), ConfigError>(e),
                Ok(()) => length_verdict(
                    old(arm).joint_states()@.len() as usize,
                    motor_vels@.len() as usize,
                ),
            } matches Err(e) ==> {
                &&& result == Err::<Vec<S>, ConfigError>(e)
                &&& final(self).errors() == old(self).errors()
                &&& final(self).reference_state() == old(self).reference_state()
                &&& final(arm).joint_states() == old(arm).joint_states()
                &&& final(arm).kinematics() == old(arm).kinematics()
            },
            motor_pos@.len() == old(arm).joint_states()@.len() && motor_vels@.len() == old(
                arm,
            ).joint_states()@.len() ==> {
                &&& exists|moved: Seq<Joint<S>>| #[trigger]
                    positions_set(old(arm).joint_states()@, motor_pos@, moved) && velocities_set(
                        moved,
                        motor_vels@,
                        final(arm).joint_states()@,
                    )
                &&& final(arm).kinematics() is Some
                &&& final(arm).current(final(arm).kinematics()->0)
                &&& exists|pose: A::Transform|
                    chain_transforms_to(
                        final(arm).arithmetic(),
                        final(arm).table()@,
                        final(arm).joint_states()@,
                        pose,
                    ) && #[trigger] cycle_of(
                        final(arm).arithmetic(),
                        pose,
                        *xd_des,
                        dt,
                        old(self).gains().0,
                        old(self).gains().1,
                        old(self).gains().2,
                        old(self).reference_state(),
                        old(self).errors(),
                        final(self).reference_state(),
                        final(self).errors(),
                        (final(arm).kinematics()->0).1.matrix,
                        final(arm).joint_states()@,
                        result,
                    )
            },
    {
        // Update arm state from motor readings
        match arm.set_joint_positions_and_velocities(motor_pos, motor_vels) {
            Err(e) => {
                return Err(e);
            },
            Ok(()) => {},
        }
        arm.update();
        let algebra = arm.algebra();

        // Current end-effector pose
        let pose = arm.ee_pose();

        // Desired task-space velocity: linear in the world frame, angular
        // given in the frame of the end effector and rotated into the world
        let v = algebra.linear_part(xd_des);
        let w_deg = algebra.angular_part(xd_des);
        let w_ee = algebra.degrees_to_radians(&w_deg);
        let r_curr = algebra.rotation(&pose);
        let w_world = algebra.rotate(&r_curr, &w_ee);
        let feedforward = algebra.twist(&v, &w_world);
        assert(velocity_of(*algebra, pose, *xd_des, v, w_ee, w_world, feedforward));

        // Update the reference pose
        let linear_speed = algebra.norm(&v);
        let angular_speed = algebra.norm(&w_ee);
        let current = (algebra.position(&pose), algebra.rotation(&pose));
        assert(pose_parts(*algebra, pose, current));
        let integrate = |reference: &(V, R)| -> (next: (V, R))
            ensures
                integrates_to(*algebra, *reference, v, w_world, dt, next),
            {
                (
                    advance_position(algebra, &reference.0, &v, dt),
                    advance_orientation(algebra, &reference.1, &w_world, dt),
                )
            };
        let orthonormalize = |reference: (V, R)| -> (next: (V, R))
            ensures
                renews_to(*algebra, reference, next),
            {
                let rotation = algebra.orthonormalize(&reference.1);
                (reference.0, rotation)
            };
        let outcome = self.tracker.step(
            linear_speed,
            angular_speed,
            current,
            integrate,
            orthonormalize,
        );
        assert(reference_follows(
            *algebra,
            pose,
            v,
            w_ee,
            w_world,
            dt,
            old(self).tracker@,
            self.tracker@,
            outcome,
        ));

        // Task-space error against the updated reference
        let reference = self.tracker.reference();
        let x = algebra.position(&pose);
        let e_pos = algebra.difference(&reference.0, &x);
        let e_ori = orientation_error(algebra, &r_curr, &reference.1);
        let error = algebra.twist(&e_pos, &e_ori);
        assert(error_of(*algebra, pose, self.tracker@.reference, error));

        // PID law: feedforward plus correction
        let kp = &self.kp;
        let ki = &self.ki;
        let kd = &self.kd;
        let ghost taken = error;
        let integrate_error = |integral: &W, error: &W| -> (next: W)
            ensures
                accumulates_to(*algebra, *integral, *error, dt, next),
            { accumulate(algebra, integral, error, dt) };
        let law = |error: &W, integral: &W, previous: &W| -> (u: W)
            ensures
                exists|d_error: W| #[trigger]
                    derives_to(*algebra, *error, *previous, dt, d_error) && commands_to(
                        *algebra,
                        feedforward,
                        *kp,
                        *ki,
                        *kd,
                        *error,
                        *integral,
                        d_error,
                        u,
                    ),
            {
                let d_error = derivative(algebra, error, previous, dt);
                command(algebra, &feedforward, kp, ki, kd, error, integral, &d_error)
            };
        let u = self.pid.update(error, integrate_error, law);
        assert(law_of(
            *algebra,
            self.kp,
            self.ki,
            self.kd,
            old(self).pid@,
            feedforward,
            taken,
            dt,
            self.pid@,
            u,
        ));

        // Map to joint velocities, each in the unit of its joint
        let inv_jacobian = match arm.cached() {
            Some((_, inverse)) => &inverse.matrix,
            None => vstd::pervasive::unreached(),
        };
        let rates = algebra.joint_rates(inv_jacobian, &u);
        let joints = arm.joints();
        let result = if rates.len() != joints.len() {
            Err(ConfigError::LengthMismatch { expected: joints.len(), provided: rates.len() })
        } else {
            let mut out: Vec<S> = Vec::new();
            let mut i: usize = 0;
            while i < joints.len()
                invariant
                    0 <= i <= joints@.len(),
                    rates@.len() == joints@.len(),
                    out@.len() == i,
                    forall|k: int|
                        0 <= k < i ==> hands_out(
                            *algebra,
                            joints@[k]@.joint_type,
                            rates@[k],
                            #[trigger] out@[k],
                        ),
                decreases joints.len() - i,
            {
                let rate = rates[i];
                let handed = match joints[i].joint_type() {
                    JointType::Revolute => algebra.to_degrees(rate),
                    JointType::Prismatic => rate,
                };
                out.push(handed);
                i += 1;
            }
            Ok(out)
        };
        assert(rates_of(*algebra, *inv_jacobian, u, joints@, result));
        assert(cycle_of(
            arm.arithmetic(),
            pose,
            *xd_des,
            dt,
            old(self).gains().0,
            old(self).gains().1,
            old(self).gains().2,
            old(self).reference_state(),
            old(self).errors(),
            self.reference_state(),
            self.errors(),
            (arm.kinematics()->0).1.matrix,
            arm.joint_states()@,
            result,
        ));
        result
    }
}

} // verus!
