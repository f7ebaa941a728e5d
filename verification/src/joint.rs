//! Joints of a serial kinematic chain: their kinds, and the state of a joint
//! with its position limits.
//!
//! The state is generic over the scalar `S` in which positions and velocities
//! are measured. All that is asked of `S` is that its values can be copied
//! and compared; what a comparison returns is taken from `S` as it is.

use vstd::prelude::*;
use vstd::laws_cmp::obeys_partial_cmp_spec_properties;
use vstd::std_specs::cmp::PartialOrdSpec;
use crate::scalar::{above, answers_greater, answers_less, below};

verus! {

/// Type of joint in a kinematic chain.
#[derive(Clone, Copy, Debug, PartialEq, Eq, Structural)]
pub enum JointType {
    /// Turns about the z-axis of its frame; its position is an angle.
    Revolute,
    /// Slides along the z-axis of its frame; its position is a length.
    Prismatic,
}

/// The Denavit-Hartenberg parameter of a row that a joint's position is added to.
#[derive(Clone, Copy, Debug, PartialEq, Eq, Structural)]
pub enum JointVariable {
    /// The rotation `theta` about the z-axis.
    Theta,
    /// The offset `d` along the z-axis.
    D,
}

impl JointType {
    /// The one parameter that this kind of joint drives: a revolute joint adds
    /// its position to `theta`, a prismatic joint adds it to `d`.
    pub open spec fn driven(self) -> JointVariable {
        match self {
            JointType::Revolute => JointVariable::Theta,
            JointType::Prismatic => JointVariable::D,
        }
    }

    /// Returns the parameter that a joint of this kind drives.
    pub fn variable(&self) -> (v: JointVariable)
        ensures
            v == self.driven(),
    {
        match self {
            JointType::Revolute => JointVariable::Theta,
            JointType::Prismatic => JointVariable::D,
        }
    }
}

/// The position that a joint with the given limits takes when `position` is
/// commanded: a position below the lower limit is raised to it, and a
/// position that is then above the upper limit is lowered to that. A limit
/// that is not set does not bind.
pub open spec fn clamped<S: PartialOrd>(position: S, limit_min: Option<S>, limit_max: Option<S>) -> S {
    let raised = match limit_min {
        Some(min) => if below(position, min) {
            min
        } else {
            position
        },
        None => position,
    };
    match limit_max {
        Some(max) => if above(raised, max) {
            max
        } else {
            raised
        },
        None => raised,
    }
}

/// `raised` is what comparing `position` with the lower limit by `<` leaves.
pub open spec fn raises_to<S: PartialOrd>(position: S, limit_min: Option<S>, raised: S) -> bool {
    match limit_min {
        Some(min) => exists|less: bool| #[trigger]
            answers_less(position, min, less) && raised == if less {
                min
            } else {
                position
            },
        None => raised == position,
    }
}

/// `lowered` is what comparing `position` with the upper limit by `>` leaves.
pub open spec fn lowers_to<S: PartialOrd>(position: S, limit_max: Option<S>, lowered: S) -> bool {
    match limit_max {
        Some(max) => exists|greater: bool| #[trigger]
            answers_greater(position, max, greater) && lowered == if greater {
                max
            } else {
                position
            },
        None => lowered == position,
    }
}

/// `result` is a position that the comparisons of `S` clamp `position` to:
/// first against the lower limit, then against the upper.
pub open spec fn clamps_to<S: PartialOrd>(
    position: S,
    limit_min: Option<S>,
    limit_max: Option<S>,
    result: S,
) -> bool {
    exists|raised: S| #[trigger]
        raises_to(position, limit_min, raised) && lowers_to(raised, limit_max, result)
}

/// Where the comparisons of `S` are what its order says, clamping has one
/// result, and `clamped` names it.
pub proof fn lemma_clamps_to_clamped<S: PartialOrd>(
    position: S,
    limit_min: Option<S>,
    limit_max: Option<S>,
    result: S,
)
    requires
        S::obeys_partial_cmp_spec(),
        clamps_to(position, limit_min, limit_max, result),
    ensures
        result == clamped(position, limit_min, limit_max),
{
}

/// A clamped position lies within the limits: where the order of `S` is
/// lawful and the lower limit is not above the upper, the clamped position is
/// neither below the lower limit nor above the upper.
pub proof fn lemma_clamped_within_limits<S: PartialOrd>(position: S, min: S, max: S)
    requires
        obeys_partial_cmp_spec_properties::<S>(),
        !above(min, max),
    ensures
        !below(clamped(position, Some(min), Some(max)), min),
        !above(clamped(position, Some(min), Some(max)), max),
{
    reveal(obeys_partial_cmp_spec_properties);
    assert(!below(min, min)) by {
        if below(min, min) {
            assert(above(min, min));
        }
    }
    assert(!above(max, max)) by {
        if above(max, max) {
            assert(below(max, max));
        }
    }
    assert(below(max, min) ==> above(min, max));
}

/// A position within the limits is left where it is commanded.
pub proof fn lemma_clamped_keeps_inner_position<S: PartialOrd>(
    position: S,
    limit_min: Option<S>,
    limit_max: Option<S>,
)
    requires
        limit_min matches Some(min) ==> !below(position, min),
        limit_max matches Some(max) ==> !above(position, max),
    ensures
        clamped(position, limit_min, limit_max) == position,
{
}

/// Represents a joint with state and optional limits.
#[derive(Copy)]
pub struct Joint<S: PartialOrd + Copy> {
    joint_type: JointType,
    position: S,
    velocity: S,
    limit_min: Option<S>,
    limit_max: Option<S>,
    /// The commanded position that the current one was clamped from.
    commanded: Ghost<S>,
}

/// The state of a joint as contracts see it.
pub struct JointState<S> {
    pub joint_type: JointType,
    /// Revolute: an angle in radians. Prismatic: a length.
    pub position: S,
    pub velocity: S,
    pub limit_min: Option<S>,
    pub limit_max: Option<S>,
}

impl<S: PartialOrd + Copy> View for Joint<S> {
    type V = JointState<S>;

    closed spec fn view(&self) -> JointState<S> {
        JointState {
            joint_type: self.joint_type,
            position: self.position,
            velocity: self.velocity,
            limit_min: self.limit_min,
            limit_max: self.limit_max,
        }
    }
}

impl<S: PartialOrd + Copy> JointState<S> {
    /// The position is one that some commanded position was clamped to.
    pub open spec fn is_clamped(self) -> bool {
        exists|commanded: S| #[trigger]
            clamps_to(commanded, self.limit_min, self.limit_max, self.position)
    }

    /// `next` is this state after `position` was commanded: the position is
    /// clamped to the limits, everything else is as before.
    pub open spec fn moves_to(self, position: S, next: JointState<S>) -> bool {
        &&& clamps_to(position, self.limit_min, self.limit_max, next.position)
        &&& next.joint_type == self.joint_type
        &&& next.velocity == self.velocity
        &&& next.limit_min == self.limit_min
        &&& next.limit_max == self.limit_max
    }

    /// This state with another velocity.
    pub open spec fn with_velocity(self, velocity: S) -> JointState<S> {
        JointState { velocity, ..self }
    }
}

impl<S: PartialOrd + Copy> Clone for Joint<S> {
    fn clone(&self) -> (copy: Self)
        ensures
            copy == *self,
    {
        *self
    }
}

/// The position of a joint is always within its limits: where the
/// comparisons of `S` obey a lawful order, a clamped state whose lower limit
/// is not above its upper has its position neither below the lower limit nor
/// above the upper.
pub proof fn lemma_clamped_state_within_limits<S: PartialOrd + Copy>(
    state: JointState<S>,
    min: S,
    max: S,
)
    requires
        state.is_clamped(),
        state.limit_min == Some(min),
        state.limit_max == Some(max),
        S::obeys_partial_cmp_spec(),
        obeys_partial_cmp_spec_properties::<S>(),
        !above(min, max),
    ensures
        !below(state.position, min),
        !above(state.position, max),
{
    let commanded = choose|commanded: S| #[trigger]
        clamps_to(commanded, state.limit_min, state.limit_max, state.position);
    lemma_clamps_to_clamped(commanded, state.limit_min, state.limit_max, state.position);
    lemma_clamped_within_limits(commanded, min, max);
}

fn clamp<S: PartialOrd + Copy>(position: S, limit_min: Option<S>, limit_max: Option<S>) -> (result: S)
    ensures
        clamps_to(position, limit_min, limit_max, result),
        S::obeys_partial_cmp_spec() ==> result == clamped(position, limit_min, limit_max),
{
    let mut p = position;
    if let Some(min) = limit_min {
        let less = p < min;
        assert(answers_less(position, min, less));
        if less {
            p = min;
        }
    }
    let ghost raised = p;
    assert(raises_to(position, limit_min, raised));
    if let Some(max) = limit_max {
        let greater = p > max;
        assert(answers_greater(raised, max, greater));
        if greater {
            p = max;
        }
    }
    assert(lowers_to(raised, limit_max, p));
    p
}

impl<S: PartialOrd + Copy> Joint<S> {
    #[verifier::type_invariant]
    spec fn kept_clamped(self) -> bool {
        clamps_to(self.commanded@, self.limit_min, self.limit_max, self.position)
    }

    /// Create a joint with no limits, at position `rest` with velocity `still`.
    pub fn new(joint_type: JointType, rest: S, still: S) -> (joint: Self)
        ensures
            joint@ == (JointState {
                joint_type,
                position: rest,
                velocity: still,
                limit_min: None,
                limit_max: None,
            }),
    {
        assert(raises_to(rest, None, rest));
        Joint {
            joint_type,
            position: rest,
            velocity: still,
            limit_min: None,
            limit_max: None,
            commanded: Ghost(rest),
        }
    }

    /// Create a joint with limits (in internal units), with velocity `still`
    /// and at the position that `rest` is clamped to.
    pub fn new_with_limits(joint_type: JointType, rest: S, still: S, min: S, max: S) -> (joint: Self)
        ensures
            joint@.joint_type == joint_type,
            joint@.velocity == still,
            joint@.limit_min == Some(min),
            joint@.limit_max == Some(max),
            clamps_to(rest, Some(min), Some(max), joint@.position),
            S::obeys_partial_cmp_spec() ==> joint@.position == clamped(rest, Some(min), Some(max)),
    {
        let position = clamp(rest, Some(min), Some(max));
        Joint {
            joint_type,
            position,
            velocity: still,
            limit_min: Some(min),
            limit_max: Some(max),
            commanded: Ghost(rest),
        }
    }

    /// The kind of the joint.
    pub fn joint_type(&self) -> (joint_type: JointType)
        ensures
            joint_type == self@.joint_type,
    {
        self.joint_type
    }

    /// Current joint position: radians for a revolute joint, a length for a
    /// prismatic joint. It is always a clamped position.
    pub fn position(&self) -> (position: S)
        ensures
            position == self@.position,
            self@.is_clamped(),
    {
        proof {
            use_type_invariant(self);
            assert(clamps_to(
                self.commanded@,
                self@.limit_min,
                self@.limit_max,
                self@.position,
            ));
        }
        self.position
    }

    /// Current joint velocity.
    pub fn velocity(&self) -> (velocity: S)
        ensures
            velocity == self@.velocity,
    {
        self.velocity
    }

    /// Lower position limit.
    pub fn limit_min(&self) -> (limit: Option<S>)
        ensures
            limit == self@.limit_min,
    {
        self.limit_min
    }

    /// Upper position limit.
    pub fn limit_max(&self) -> (limit: Option<S>)
        ensures
            limit == self@.limit_max,
    {
        self.limit_max
    }

    /// Sets the position, clamped to the limits that are set.
    pub fn set_position(&mut self, pos: S)
        ensures
            old(self)@.moves_to(pos, final(self)@),
            S::obeys_partial_cmp_spec() ==> final(self)@.position == clamped(
                pos,
                old(self)@.limit_min,
                old(self)@.limit_max,
            ),
    {
        let position = clamp(pos, self.limit_min, self.limit_max);
        *self = Joint { position, commanded: Ghost(pos), ..*self };
    }

    pub fn set_velocity(&mut self, vel: S)
        ensures
            final(self)@ == old(self)@.with_velocity(vel),
    {
        proof {
            use_type_invariant(&*self);
        }
        self.velocity = vel;
    }

    /// Sets the position of a revolute joint from degrees: the angle is
    /// converted by `to_radians` and then set as a position is. A prismatic
    /// joint has no angle to set.
    pub fn set_position_deg<F: FnOnce(S) -> S>(&mut self, deg: S, to_radians: F)
        requires
            old(self)@.joint_type is Revolute,
            call_requires(to_radians, (deg,)),
        ensures
            exists|radians: S| #[trigger]
                call_ensures(to_radians, (deg,), radians) && old(self)@.moves_to(
                    radians,
                    final(self)@,
                ),
    {
        let radians = to_radians(deg);
        self.set_position(radians);
    }

    /// The position of a revolute joint in degrees, converted by
    /// `to_degrees`. A prismatic joint has no angle to give.
    pub fn position_deg<F: FnOnce(S) -> S>(&self, to_degrees: F) -> (deg: S)
        requires
            self@.joint_type is Revolute,
            call_requires(to_degrees, (self@.position,)),
        ensures
            call_ensures(to_degrees, (self@.position,), deg),
    {
        to_degrees(self.position)
    }
}

} // verus!
