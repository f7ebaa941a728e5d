//! Inverse kinematics: the interface of a solver, and the closed-form solver
//! of the six-joint arm with a spherical wrist.
//!
//! The closed-form solution decouples position from orientation. The wrist
//! center is the target moved back along its approach axis by the length of
//! the last two links. The base angle points at the wrist center; elbow and
//! shoulder follow from the law of cosines on the distances from the
//! shoulder to the wrist center; the three wrist angles follow from the
//! target rotation and the three angles found so far. The arithmetic of each
//! step is the caller's.

use vstd::prelude::*;
use crate::error::IkError;
use crate::scalar::answers_greater;

verus! {

/// Number of link parameters that the closed-form solver needs.
pub const URT_LINK_PARAMETERS: usize = 5;

/// Number of joint angles that the closed-form solver returns.
pub const URT_JOINTS: usize = 6;

/// Defines the interface that all inverse-kinematics solvers must implement.
///
/// `S` is the scalar type, `R` the type of a rotation matrix, `A` the
/// arithmetic that the solver computes with.
pub trait IkSolver<S, R, A> {
    /// Solves the inverse kinematics problem for the target position
    /// (x, y, z) with the rotation `r`, for an arm with the given link
    /// lengths. The number of required link lengths is specific to the
    /// solver. Returns the joint angles, or the reason why there are none.
    fn solve_ik(&self, arithmetic: &A, x: S, y: S, z: S, r: &R, link_lengths: &[S]) -> Result<
        [S; 6],
        IkError,
    >;
}

/// The steps of the closed-form solution, for scalars `S` and rotation
/// matrices `R`.
pub trait UrtArithmetic<S, R> {
    /// The position of the wrist center.
    type WristCenter;

    /// The wrist center of the target (x, y, z) with rotation `r`: the target
    /// moved back by `l4 + l5` along its approach axis, the third column of
    /// `r`.
    fn wrist_center(&self, x: S, y: S, z: S, r: &R, l4: S, l5: S) -> Self::WristCenter;

    /// The base angle: atan2(wrist_y, wrist_x).
    fn base_angle(&self, wrist: &Self::WristCenter) -> S;

    /// The cosine of the elbow angle by the law of cosines, from the radial
    /// distance of the wrist center, its height above the shoulder at `l1`,
    /// and the link lengths `l2` and `l3`.
    fn elbow_cosine(&self, wrist: &Self::WristCenter, l1: S, l2: S, l3: S) -> S;

    /// The absolute value of a scalar.
    fn magnitude(&self, value: S) -> S;

    /// The scalar 1.
    fn one(&self) -> S;

    /// The elbow angle of the given cosine, on the branch on which its sine
    /// is not negative.
    fn elbow_angle(&self, cosine: S) -> S;

    /// The shoulder angle by the geometry of two links in a plane.
    fn shoulder_angle(&self, wrist: &Self::WristCenter, cosine: S, l1: S, l2: S, l3: S) -> S;

    /// The three wrist angles: the Euler angles of `r` that remain once the
    /// rotation of base, shoulder and elbow is taken out of it.
    fn wrist_angles(&self, r: &R, base: S, shoulder: S, elbow: S) -> (S, S, S);

    /// Tells whether an angle is a finite number.
    fn is_finite(&self, angle: S) -> bool;
}

/// The closed-form inverse-kinematics solver of the six-joint arm with a
/// spherical wrist. It returns one solution branch, the one with a
/// non-negative sine of the third joint angle.
#[derive(Clone, Copy, Debug, PartialEq, Eq, Structural)]
pub struct UrtIkSolver;

/// What the solver answers to a number of link parameters.
pub open spec fn link_parameter_verdict(provided: usize) -> Result<(), IkError> {
    if provided == URT_LINK_PARAMETERS {
        Ok(())
    } else {
        Err(IkError::LinkParameterCount { expected: URT_LINK_PARAMETERS, provided })
    }
}

/// `unreachable` tells whether the target with the wrist center `wrist` is
/// out of reach: whether the magnitude of `cosine`, the cosine of its elbow
/// angle, is greater than 1.
pub open spec fn reach_of<S: PartialOrd + Copy, R, A: UrtArithmetic<S, R>>(
    arithmetic: A,
    wrist: A::WristCenter,
    links: Seq<S>,
    cosine: S,
    unreachable: bool,
) -> bool {
    exists|magnitude: S, one: S|
        {
            &&& call_ensures(A::elbow_cosine, (&arithmetic, &wrist, links[0], links[1], links[2]), cosine)
            &&& #[trigger] call_ensures(A::magnitude, (&arithmetic, cosine), magnitude)
            &&& #[trigger] call_ensures(A::one, (&arithmetic,), one)
            &&& answers_greater(magnitude, one, unreachable)
        }
}

/// `angles` are the joint angles of the target with rotation `r`, wrist
/// center `wrist` and elbow cosine `cosine`: base, shoulder, elbow, and the
/// three wrist angles.
pub open spec fn angles_of<S: PartialOrd + Copy, R, A: UrtArithmetic<S, R>>(
    arithmetic: A,
    r: R,
    wrist: A::WristCenter,
    links: Seq<S>,
    cosine: S,
    angles: Seq<S>,
) -> bool {
    &&& angles.len() == 6
    &&& call_ensures(A::base_angle, (&arithmetic, &wrist), angles[0])
    &&& call_ensures(A::elbow_angle, (&arithmetic, cosine), angles[2])
    &&& call_ensures(
        A::shoulder_angle,
        (&arithmetic, &wrist, cosine, links[0], links[1], links[2]),
        angles[1],
    )
    &&& call_ensures(
        A::wrist_angles,
        (&arithmetic, &r, angles[0], angles[1], angles[2]),
        (angles[3], angles[4], angles[5]),
    )
}

/// `finite` tells of each of the angles whether it is finite.
pub open spec fn finiteness_of<S: PartialOrd + Copy, R, A: UrtArithmetic<S, R>>(
    arithmetic: A,
    angles: Seq<S>,
    finite: Seq<bool>,
) -> bool {
    &&& finite.len() == angles.len()
    &&& forall|i: int|
        0 <= i < angles.len() ==> call_ensures(
            A::is_finite,
            (&arithmetic, angles[i]),
            #[trigger] finite[i],
        )
}

/// `result` is what the closed-form solver returns for the target (x, y, z)
/// with rotation `r` and the link lengths `links`.
///
/// Any number of link lengths but five is rejected. A target whose elbow
/// cosine has a magnitude above 1 is outside the workspace. A target within
/// reach has the angles computed for it if all six are finite, and is
/// degenerate if one is not.
pub open spec fn urt_solves_to<S: PartialOrd + Copy, R, A: UrtArithmetic<S, R>>(
    arithmetic: A,
    x: S,
    y: S,
    z: S,
    r: R,
    links: Seq<S>,
    result: Result<[S; 6], IkError>,
) -> bool {
    if links.len() != URT_LINK_PARAMETERS {
        result == Err::<[S; 6], IkError>(
            IkError::LinkParameterCount {
                expected: URT_LINK_PARAMETERS,
                provided: links.len() as usize,
            },
        )
    } else {
        exists|wrist: A::WristCenter, cosine: S, unreachable: bool|
            {
                &&& call_ensures(A::wrist_center, (&arithmetic, x, y, z, &r, links[3], links[4]), wrist)
                &&& #[trigger] reach_of(arithmetic, wrist, links, cosine, unreachable)
                &&& if unreachable {
                    result == Err::<[S; 6], IkError>(IkError::OutOfWorkspace)
                } else {
                    exists|angles: Seq<S>, finite: Seq<bool>|
                        {
                            &&& #[trigger] angles_of(arithmetic, r, wrist, links, cosine, angles)
                            &&& #[trigger] finiteness_of(arithmetic, angles, finite)
                            &&& if forall|i: int| 0 <= i < 6 ==> finite[i] {
                                result matches Ok(found) && found@ == angles
                            } else {
                                result == Err::<[S; 6], IkError>(IkError::DegenerateOrientation)
                            }
                        }
                }
            }
    }
}

impl UrtIkSolver {
    /// Accepts exactly five link parameters.
    pub fn check_link_parameters(&self, provided: usize) -> (r: Result<(), IkError>)
        ensures
            r == link_parameter_verdict(provided),
    {
        if provided == URT_LINK_PARAMETERS {
            Ok(())
        } else {
            Err(IkError::LinkParameterCount { expected: URT_LINK_PARAMETERS, provided })
        }
    }
}

impl<S: PartialOrd + Copy, R, A: UrtArithmetic<S, R>> IkSolver<S, R, A> for UrtIkSolver {
    /// Solves IK for the six-joint arm, which requires exactly 5 link
    /// lengths: the height of the shoulder, the lengths of upper arm and
    /// forearm, and the lengths of the last two links.
    fn solve_ik(&self, arithmetic: &A, x: S, y: S, z: S, r: &R, link_lengths: &[S]) -> (result:
        Result<[S; 6], IkError>)
        ensures
            urt_solves_to(*arithmetic, x, y, z, *r, link_lengths@, result),
    {
        match self.check_link_parameters(link_lengths.len()) {
            Err(e) => {
                return Err(e);
            },
            Ok(()) => {},
        }
        let l1 = link_lengths[0];
        let l2 = link_lengths[1];
        let l3 = link_lengths[2];
        let l4 = link_lengths[3];
        let l5 = link_lengths[4];

        let wrist = arithmetic.wrist_center(x, y, z, r, l4, l5);
        let cosine = arithmetic.elbow_cosine(&wrist, l1, l2, l3);
        let magnitude = arithmetic.magnitude(cosine);
        let one = arithmetic.one();
        let unreachable = magnitude > one;
        assert(answers_greater(magnitude, one, unreachable));
        assert(reach_of(*arithmetic, wrist, link_lengths@, cosine, unreachable));
        if unreachable {
            return Err(IkError::OutOfWorkspace);
        }
        let base = arithmetic.base_angle(&wrist);
        let elbow = arithmetic.elbow_angle(cosine);
        let shoulder = arithmetic.shoulder_angle(&wrist, cosine, l1, l2, l3);
        let (roll, pitch, yaw) = arithmetic.wrist_angles(r, base, shoulder, elbow);
        let thetas = [base, shoulder, elbow, roll, pitch, yaw];
        assert(angles_of(*arithmetic, *r, wrist, link_lengths@, cosine, thetas@));

        let mut usable = true;
        let ghost mut finite: Seq<bool> = Seq::empty();
        let mut i: usize = 0;
        while i < 6
            invariant
                0 <= i <= 6,
                thetas@.len() == 6,
                finite.len() == i,
                forall|k: int|
                    0 <= k < i ==> call_ensures(
                        A::is_finite,
                        (arithmetic, thetas@[k]),
                        #[trigger] finite[k],
                    ),
                usable == (forall|k: int| 0 <= k < i ==> finite[k]),
            decreases 6 - i,
        {
            let answer = arithmetic.is_finite(thetas[i]);
            proof {
                let before = finite;
                finite = finite.push(answer);
                assert forall|k: int| 0 <= k < i + 1 implies call_ensures(
                    A::is_finite,
                    (arithmetic, thetas@[k]),
                    #[trigger] finite[k],
                ) by {
                    if k < i {
                        assert(finite[k] == before[k]);
                    }
                }
                if usable && answer {
                    assert forall|k: int| 0 <= k < i + 1 implies finite[k] by {
                        if k < i {
                            assert(finite[k] == before[k]);
                        }
                    }
                } else if !answer {
                    assert(!finite[i as int]);
                } else {
                    let bad = choose|k: int| 0 <= k < i && !before[k];
                    assert(finite[bad] == before[bad]);
                }
            }
            if !answer {
                usable = false;
            }
            i += 1;
        }
        assert(finiteness_of(*arithmetic, thetas@, finite));
        if usable {
            Ok(thetas)
        } else {
            Err(IkError::DegenerateOrientation)
        }
    }
}

} // verus!
