//! The geometric Jacobian of a chain and the damped Moore-Penrose
//! pseudo-inverse that maps task-space commands to joint rates.
//!
//! The Jacobian has six rows, three linear above three angular, and one
//! column per joint, in chain order; fixed frames contribute none. The
//! pseudo-inverse is taken in the form that inverts the smaller of the two
//! products of the Jacobian with its transpose, with λ² added to its
//! diagonal.

use vstd::prelude::*;
use crate::algebra::Algebra;
use crate::chain::poses_of;
use crate::dh::{joint_rows, lemma_joint_rows_exact, lemma_joint_rows_step, DHRow, DHTable};
use crate::joint::{Joint, JointType};

verus! {

/// Number of task-space coordinates: three linear followed by three angular.
pub const TASK_DIMENSION: usize = 6;

/// Which product of the Jacobian J with its transpose is damped and inverted.
#[derive(Clone, Copy, Debug, PartialEq, Eq, Structural)]
pub enum PseudoInverseForm {
    /// Jᵀ(JJᵀ + λ²I)⁻¹, for a chain with six joints or more.
    Right,
    /// (JᵀJ + λ²I)⁻¹Jᵀ, for a chain with fewer than six joints.
    Left,
}

impl PseudoInverseForm {
    /// The form for a chain of `num_joints` joints.
    pub open spec fn chosen(num_joints: int) -> PseudoInverseForm {
        if num_joints >= TASK_DIMENSION as int {
            PseudoInverseForm::Right
        } else {
            PseudoInverseForm::Left
        }
    }

    /// The order of the square matrix that this form inverts: JJᵀ has the
    /// order of the task space, JᵀJ the order of the joint space.
    pub open spec fn inverted_order(self, num_joints: usize) -> usize {
        match self {
            PseudoInverseForm::Right => TASK_DIMENSION,
            PseudoInverseForm::Left => num_joints,
        }
    }

    /// Chooses the form by the number of joints: the right inverse from six
    /// joints on, the left inverse below.
    pub fn for_joints(num_joints: usize) -> (form: Self)
        ensures
            form == Self::chosen(num_joints as int),
    {
        if num_joints >= TASK_DIMENSION {
            PseudoInverseForm::Right
        } else {
            PseudoInverseForm::Left
        }
    }

    /// The order of the damped matrix: 6 for the right inverse, the number of
    /// joints for the left inverse.
    pub fn matrix_order(&self, num_joints: usize) -> (order: usize)
        ensures
            order == self.inverted_order(num_joints),
    {
        match self {
            PseudoInverseForm::Right => TASK_DIMENSION,
            PseudoInverseForm::Left => num_joints,
        }
    }
}

/// The form chosen for a chain always inverts the smaller matrix: its order is
/// the lesser of the task dimension and the number of joints.
pub proof fn lemma_smaller_matrix_inverted(num_joints: usize)
    ensures
        PseudoInverseForm::chosen(num_joints as int).inverted_order(num_joints) <= num_joints,
        PseudoInverseForm::chosen(num_joints as int).inverted_order(num_joints) <= TASK_DIMENSION,
        PseudoInverseForm::chosen(num_joints as int).inverted_order(num_joints) == num_joints
            || PseudoInverseForm::chosen(num_joints as int).inverted_order(num_joints)
            == TASK_DIMENSION,
{
}

/// A pseudo-inverse together with the warning that it is degenerate.
#[derive(Debug)]
pub struct PseudoInverse<M> {
    /// The pseudo-inverse, or the zero matrix if none could be computed.
    pub matrix: M,
    /// Set when the damped matrix was singular all the same. The matrix is
    /// then zero, and no safe motion command can be derived from it.
    pub degenerate: bool,
}

/// One column of the geometric Jacobian: the linear and the angular velocity
/// of the end effector per unit rate of one joint.
#[derive(Debug)]
pub struct JacobianColumn<V> {
    pub linear: V,
    pub angular: V,
}

/// `column` is the Jacobian column of a joint of kind `kind` whose frame has
/// the pose `at`, while the tip of the chain is at `tip`.
///
/// With z the z-axis of the frame and p its position: the column of a
/// revolute joint is (z × (tip − p), z), the column of a prismatic joint is
/// (z, 0).
pub open spec fn column_of<P, S, A: Algebra<P, S>>(
    algebra: A,
    kind: JointType,
    at: A::Transform,
    tip: A::Vector,
    column: JacobianColumn<A::Vector>,
) -> bool {
    match kind {
        JointType::Revolute => exists|p: A::Vector, offset: A::Vector|
            {
                &&& call_ensures(A::z_axis, (&algebra, &at), column.angular)
                &&& #[trigger] call_ensures(A::position, (&algebra, &at), p)
                &&& #[trigger] call_ensures(A::difference, (&algebra, &tip, &p), offset)
                &&& call_ensures(A::cross, (&algebra, &column.angular, &offset), column.linear)
            },
        JointType::Prismatic => {
            &&& call_ensures(A::z_axis, (&algebra, &at), column.linear)
            &&& call_ensures(A::zero, (&algebra,), column.angular)
        },
    }
}

/// `columns` are the Jacobian columns of `rows` at the poses `poses`, with
/// the tip of the chain at `tip`: one column per moving row, in chain order,
/// each taken at the pose of its own row.
pub open spec fn columns_from<P, S, A: Algebra<P, S>>(
    algebra: A,
    rows: Seq<DHRow<P>>,
    poses: Seq<A::Transform>,
    tip: A::Vector,
    columns: Seq<JacobianColumn<A::Vector>>,
) -> bool {
    &&& columns.len() == joint_rows(rows).len()
    &&& forall|c: int|
        0 <= c < columns.len() ==> column_of(
            algebra,
            rows[joint_rows(rows)[c]].frame_type.joint_kind()->0,
            poses[joint_rows(rows)[c]],
            tip,
            #[trigger] columns[c],
        )
}

/// `columns` are the Jacobian columns of `rows` with the joints as they are
/// in `joints`: the columns at the poses of all frames, the tip being at the
/// position of the last frame. A chain without frames has no columns.
pub open spec fn columns_of<P, S: PartialOrd + Copy, A: Algebra<P, S>>(
    algebra: A,
    rows: Seq<DHRow<P>>,
    joints: Seq<Joint<S>>,
    columns: Seq<JacobianColumn<A::Vector>>,
) -> bool {
    if rows.len() == 0 {
        columns.len() == 0
    } else {
        exists|poses: Seq<A::Transform>, tip: A::Vector|
            {
                &&& poses_of(algebra, rows, joints, poses)
                &&& call_ensures(A::position, (&algebra, &poses[rows.len() - 1]), tip)
                &&& #[trigger] columns_from(algebra, rows, poses, tip, columns)
            }
    }
}

/// `matrix` is the Jacobian of `rows` with the joints as they are in
/// `joints`: its columns, assembled.
pub open spec fn jacobian_of<P, S: PartialOrd + Copy, A: Algebra<P, S>>(
    algebra: A,
    rows: Seq<DHRow<P>>,
    joints: Seq<Joint<S>>,
    matrix: A::Matrix,
) -> bool {
    exists|columns: Vec<JacobianColumn<A::Vector>>|
        columns_of(algebra, rows, joints, columns@) && #[trigger] call_ensures(
            A::assemble,
            (&algebra, &columns),
            matrix,
        )
}

/// `result` is the damped pseudo-inverse of the Jacobian `j` of a chain with
/// `num_joints` joints, for the damping `lambda`.
///
/// With six joints or more it is Jᵀ(JJᵀ + λ²I)⁻¹, with fewer it is
/// (JᵀJ + λ²I)⁻¹Jᵀ. Where the damped matrix has no inverse, it is the zero
/// matrix of the same shape, and the result is marked as degenerate.
pub open spec fn pseudo_inverts_to<P, S, A: Algebra<P, S>>(
    algebra: A,
    num_joints: usize,
    j: A::Matrix,
    lambda: S,
    result: PseudoInverse<A::Matrix>,
) -> bool {
    let form = PseudoInverseForm::chosen(num_joints as int);
    exists|jt: A::Matrix, gram: A::Matrix, damped: A::Matrix, inverse: Option<A::Matrix>|
        {
            &&& #[trigger] call_ensures(A::transpose, (&algebra, &j), jt)
            &&& match form {
                PseudoInverseForm::Right => call_ensures(A::multiply, (&algebra, &j, &jt), gram),
                PseudoInverseForm::Left => call_ensures(A::multiply, (&algebra, &jt, &j), gram),
            }
            &&& #[trigger] call_ensures(
                A::damp,
                (&algebra, &gram, form.inverted_order(num_joints), lambda),
                damped,
            )
            &&& #[trigger] call_ensures(A::try_inverse, (&algebra, &damped), inverse)
            &&& match inverse {
                Some(inverted) => {
                    &&& !result.degenerate
                    &&& match form {
                        PseudoInverseForm::Right => call_ensures(
                            A::multiply,
                            (&algebra, &jt, &inverted),
                            result.matrix,
                        ),
                        PseudoInverseForm::Left => call_ensures(
                            A::multiply,
                            (&algebra, &inverted, &jt),
                            result.matrix,
                        ),
                    }
                },
                None => {
                    &&& result.degenerate
                    &&& call_ensures(
                        A::zeros,
                        (&algebra, num_joints, TASK_DIMENSION),
                        result.matrix,
                    )
                },
            }
        }
}

/// `lambda` is the damping that is used where `named` is asked for: the
/// named damping itself, or the default damping where none is named.
pub open spec fn damping_of<P, S, A: Algebra<P, S>>(algebra: A, named: Option<S>, lambda: S) -> bool {
    match named {
        Some(value) => lambda == value,
        None => call_ensures(A::default_damping, (&algebra,), lambda),
    }
}

/// The angular part of a revolute joint's column is the z-axis of that
/// joint's own frame, and the linear part of a prismatic joint's column is.
pub proof fn lemma_column_carries_axis<P, S, A: Algebra<P, S>>(
    algebra: A,
    rows: Seq<DHRow<P>>,
    poses: Seq<A::Transform>,
    tip: A::Vector,
    columns: Seq<JacobianColumn<A::Vector>>,
    c: int,
)
    requires
        columns_from(algebra, rows, poses, tip, columns),
        0 <= c < columns.len(),
    ensures
        0 <= joint_rows(rows)[c] < rows.len(),
        !(rows[joint_rows(rows)[c]].frame_type is Fixed),
        rows[joint_rows(rows)[c]].frame_type is Revolute ==> call_ensures(
            A::z_axis,
            (&algebra, &poses[joint_rows(rows)[c]]),
            columns[c].angular,
        ),
        rows[joint_rows(rows)[c]].frame_type is Prismatic ==> call_ensures(
            A::z_axis,
            (&algebra, &poses[joint_rows(rows)[c]]),
            columns[c].linear,
        ),
{
    lemma_joint_rows_exact(rows);
    assert(column_of(
        algebra,
        rows[joint_rows(rows)[c]].frame_type.joint_kind()->0,
        poses[joint_rows(rows)[c]],
        tip,
        columns[c],
    ));
}

impl<P> DHTable<P> {
    /// Computes the columns of the Jacobian from one pass over the chain:
    /// the poses of all frames are computed once, the position of the tip
    /// is read from the last of them, and every joint's column is taken
    /// from the pose of its own frame.
    pub fn jacobian_columns<S: PartialOrd + Copy, A: Algebra<P, S>>(
        &self,
        algebra: &A,
        joints: &[Joint<S>],
    ) -> (columns: Vec<JacobianColumn<A::Vector>>)
        ensures
            columns_of(*algebra, self@, joints@, columns@),
    {
        let frames: usize = self.num_frames();
        let mut columns: Vec<JacobianColumn<A::Vector>> = Vec::new();
        if frames == 0 {
            return columns;
        }
        let poses = self.all_poses(algebra, joints);
        let tip = algebra.position(&poses[frames - 1]);
        let mut k: usize = 0;
        while k < frames
            invariant
                0 <= k <= frames,
                frames == self@.len(),
                poses@.len() == frames,
                columns@.len() == joint_rows(self@.take(k as int)).len(),
                forall|c: int|
                    0 <= c < columns@.len() ==> column_of(
                        *algebra,
                        self@[joint_rows(self@.take(k as int))[c]].frame_type.joint_kind()->0,
                        poses@[joint_rows(self@.take(k as int))[c]],
                        tip,
                        #[trigger] columns@[c],
                    ),
            decreases frames - k,
        {
            let ghost before = columns@;
            let ghost listed = joint_rows(self@.take(k as int));
            proof {
                lemma_joint_rows_step(self@, k as int);
            }
            match self.row(k).frame_type.joint_type() {
                Some(JointType::Revolute) => {
                    let z = algebra.z_axis(&poses[k]);
                    let p = algebra.position(&poses[k]);
                    let offset = algebra.difference(&tip, &p);
                    let linear = algebra.cross(&z, &offset);
                    let column = JacobianColumn { linear, angular: z };
                    assert(column_of(*algebra, JointType::Revolute, poses@[k as int], tip, column));
                    columns.push(column);
                },
                Some(JointType::Prismatic) => {
                    let z = algebra.z_axis(&poses[k]);
                    let column = JacobianColumn { linear: z, angular: algebra.zero() };
                    columns.push(column);
                },
                None => {},
            }
            proof {
                let now = joint_rows(self@.take(k + 1));
                assert forall|c: int| 0 <= c < columns@.len() implies column_of(
                    *algebra,
                    self@[now[c]].frame_type.joint_kind()->0,
                    poses@[now[c]],
                    tip,
                    #[trigger] columns@[c],
                ) by {
                    if c < before.len() {
                        assert(columns@[c] == before[c]);
                        assert(now[c] == listed[c]);
                    }
                }
            }
            k += 1;
        }
        assert(self@.take(k as int) == self@);
        assert(columns_from(*algebra, self@, poses@, tip, columns@));
        columns
    }

    /// Computes the geometric Jacobian: six rows, one column per joint.
    pub fn compute_jacobian<S: PartialOrd + Copy, A: Algebra<P, S>>(
        &self,
        algebra: &A,
        joints: &[Joint<S>],
    ) -> (j: A::Matrix)
        ensures
            jacobian_of(*algebra, self@, joints@, j),
    {
        let columns = self.jacobian_columns(algebra, joints);
        algebra.assemble(&columns)
    }

    /// Computes the damped Moore-Penrose pseudo-inverse of the Jacobian
    /// `maybe_j`, or of the Jacobian of the chain with the joints as they are
    /// in `joints` if none is given, in the form that fits the number of
    /// joints, with the damping `lambda`, or with the default damping if
    /// none is given. If the damped matrix has no inverse, the result is the
    /// zero matrix, marked as degenerate.
    pub fn damped_moore_penrose_pseudo_inverse<S: PartialOrd + Copy, A: Algebra<P, S>>(
        &self,
        algebra: &A,
        joints: &[Joint<S>],
        maybe_j: Option<&A::Matrix>,
        lambda: Option<S>,
    ) -> (result: PseudoInverse<A::Matrix>)
        ensures
            exists|j: A::Matrix, lambda_val: S|
                {
                    &&& match maybe_j {
                        Some(given) => j == *given,
                        None => jacobian_of(*algebra, self@, joints@, j),
                    }
                    &&& damping_of(*algebra, lambda, lambda_val)
                    &&& #[trigger] pseudo_inverts_to(
                        *algebra,
                        joint_rows(self@).len() as usize,
                        j,
                        lambda_val,
                        result,
                    )
                },
    {
        let lambda_val = match lambda {
            Some(value) => value,
            None => algebra.default_damping(),
        };
        match maybe_j {
            Some(j) => self.pseudo_inverse_of(algebra, j, lambda_val),
            None => {
                let j = self.compute_jacobian(algebra, joints);
                self.pseudo_inverse_of(algebra, &j, lambda_val)
            },
        }
    }

    /// Computes the Jacobian and its damped pseudo-inverse, with the damping
    /// `lambda`, or with the default damping if none is given.
    pub fn jacobian_and_inverse<S: PartialOrd + Copy, A: Algebra<P, S>>(
        &self,
        algebra: &A,
        joints: &[Joint<S>],
        lambda: Option<S>,
    ) -> (pair: (A::Matrix, PseudoInverse<A::Matrix>))
        ensures
            jacobian_of(*algebra, self@, joints@, pair.0),
            exists|lambda_val: S|
                damping_of(*algebra, lambda, lambda_val) && #[trigger] pseudo_inverts_to(
                    *algebra,
                    joint_rows(self@).len() as usize,
                    pair.0,
                    lambda_val,
                    pair.1,
                ),
    {
        let j = self.compute_jacobian(algebra, joints);
        let lambda_val = match lambda {
            Some(value) => value,
            None => algebra.default_damping(),
        };
        let inv_j = self.pseudo_inverse_of(algebra, &j, lambda_val);
        let pair = (j, inv_j);
        assert(pseudo_inverts_to(
            *algebra,
            joint_rows(self@).len() as usize,
            pair.0,
            lambda_val,
            pair.1,
        ));
        pair
    }

    fn pseudo_inverse_of<S, A: Algebra<P, S>>(&self, algebra: &A, j: &A::Matrix, lambda: S) -> (result:
        PseudoInverse<A::Matrix>)
        ensures
            pseudo_inverts_to(*algebra, joint_rows(self@).len() as usize, *j, lambda, result),
    {
        let num_joints: usize = self.num_joints();
        let form = PseudoInverseForm::for_joints(num_joints);
        let jt = algebra.transpose(j);
        let gram = match form {
            PseudoInverseForm::Right => algebra.multiply(j, &jt),
            PseudoInverseForm::Left => algebra.multiply(&jt, j),
        };
        let damped = algebra.damp(&gram, form.matrix_order(num_joints), lambda);
        let inverse = algebra.try_inverse(&damped);
        match inverse {
            Some(inverted) => {
                let matrix = match form {
                    PseudoInverseForm::Right => algebra.multiply(&jt, &inverted),
                    PseudoInverseForm::Left => algebra.multiply(&inverted, &jt),
                };
                PseudoInverse { matrix, degenerate: false }
            },
            None => PseudoInverse {
                matrix: algebra.zeros(num_joints, TASK_DIMENSION),
                degenerate: true,
            },
        }
    }
}

} // verus!
