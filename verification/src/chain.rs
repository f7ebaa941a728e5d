//! The composition of row transforms along the chain.
//!
//! The transform over a range of rows is the identity multiplied by the
//! transform of each row of the range, in chain order. The poses of all
//! frames relative to the base are the running products of that composition
//! over the whole chain, so that a chain of F frames costs F products.

use vstd::prelude::*;
use crate::algebra::Algebra;
use crate::dh::{DHRow, DHTable};
use crate::joint::Joint;

verus! {

/// `after` is `before` multiplied from the right by the transform of `row`
/// with its joint at `q`.
pub open spec fn advances<P, S, A: Algebra<P, S>>(
    algebra: A,
    row: DHRow<P>,
    q: Option<S>,
    before: A::Transform,
    after: A::Transform,
) -> bool {
    exists|transform: A::Transform|
        row.transforms_to(algebra, q, transform) && #[trigger] call_ensures(
            A::compose,
            (&algebra, &before, &transform),
            after,
        )
}

/// `out` is the identity multiplied by the transforms of `rows`, in order,
/// each row with its joint as it is in `joints`.
pub open spec fn chain_transforms_to<P, S: PartialOrd + Copy, A: Algebra<P, S>>(
    algebra: A,
    rows: Seq<DHRow<P>>,
    joints: Seq<Joint<S>>,
    out: A::Transform,
) -> bool
    decreases rows.len(),
{
    if rows.len() == 0 {
        call_ensures(A::identity, (&algebra,), out)
    } else {
        exists|before: A::Transform|
            chain_transforms_to(algebra, rows.drop_last(), joints, before) && #[trigger] advances(
                algebra,
                rows.last(),
                rows.last().joint_variable_of(joints),
                before,
                out,
            )
    }
}

/// `poses` are the running products over `rows` that start from `start`:
/// every pose is the pose before it (the first is `start`) multiplied by the
/// transform of the row at its index.
pub open spec fn poses_from<P, S: PartialOrd + Copy, A: Algebra<P, S>>(
    algebra: A,
    rows: Seq<DHRow<P>>,
    joints: Seq<Joint<S>>,
    start: A::Transform,
    poses: Seq<A::Transform>,
) -> bool {
    &&& poses.len() == rows.len()
    &&& forall|k: int|
        0 <= k < rows.len() ==> advances(
            algebra,
            rows[k],
            rows[k].joint_variable_of(joints),
            if k == 0 {
                start
            } else {
                poses[k - 1]
            },
            #[trigger] poses[k],
        )
}

/// `poses` are the poses of all frames of `rows` relative to the base: the
/// running products that start from the identity.
pub open spec fn poses_of<P, S: PartialOrd + Copy, A: Algebra<P, S>>(
    algebra: A,
    rows: Seq<DHRow<P>>,
    joints: Seq<Joint<S>>,
    poses: Seq<A::Transform>,
) -> bool {
    exists|start: A::Transform| #[trigger]
        call_ensures(A::identity, (&algebra,), start) && poses_from(
            algebra,
            rows,
            joints,
            start,
            poses,
        )
}

/// The transform over no rows is the identity.
pub proof fn lemma_chain_of_none<P, S: PartialOrd + Copy, A: Algebra<P, S>>(
    algebra: A,
    rows: Seq<DHRow<P>>,
    joints: Seq<Joint<S>>,
    out: A::Transform,
)
    requires
        rows.len() == 0,
    ensures
        chain_transforms_to(algebra, rows, joints, out) <==> call_ensures(
            A::identity,
            (&algebra,),
            out,
        ),
{
}

/// The transform over at least one row is the transform over all rows but
/// the last, multiplied by the transform of the last row.
pub proof fn lemma_chain_of_last<P, S: PartialOrd + Copy, A: Algebra<P, S>>(
    algebra: A,
    rows: Seq<DHRow<P>>,
    joints: Seq<Joint<S>>,
    out: A::Transform,
)
    requires
        rows.len() > 0,
    ensures
        chain_transforms_to(algebra, rows, joints, out) <==> exists|before: A::Transform|
            chain_transforms_to(algebra, rows.drop_last(), joints, before) && #[trigger] advances(
                algebra,
                rows.last(),
                rows.last().joint_variable_of(joints),
                before,
                out,
            ),
{
}

/// Every pose is the transform from the base through its own frame: the
/// pose of frame `k` is the identity multiplied by the transforms of the
/// rows 0 to `k`.
pub proof fn lemma_pose_is_chain<P, S: PartialOrd + Copy, A: Algebra<P, S>>(
    algebra: A,
    rows: Seq<DHRow<P>>,
    joints: Seq<Joint<S>>,
    start: A::Transform,
    poses: Seq<A::Transform>,
    k: int,
)
    requires
        call_ensures(A::identity, (&algebra,), start),
        poses_from(algebra, rows, joints, start, poses),
        0 <= k < rows.len(),
    ensures
        chain_transforms_to(algebra, rows.take(k + 1), joints, poses[k]),
    decreases k,
{
    let upto = rows.take(k + 1);
    assert(upto.drop_last() == rows.take(k));
    assert(upto.last() == rows[k]);
    if k == 0 {
        assert(chain_transforms_to(algebra, rows.take(0), joints, start));
        assert(advances(algebra, rows[0], rows[0].joint_variable_of(joints), start, poses[0]));
    } else {
        lemma_pose_is_chain(algebra, rows, joints, start, poses, k - 1);
        assert(advances(
            algebra,
            rows[k],
            rows[k].joint_variable_of(joints),
            poses[k - 1],
            poses[k],
        ));
    }
}

/// The operations that compose a chain have one result each: the algebra
/// computes the identity, the four elementary transforms of a row and the
/// product of two transforms as functions of their arguments.
pub open spec fn single_valued<P, S, A: Algebra<P, S>>(algebra: A) -> bool {
    &&& forall|a: A::Transform, b: A::Transform|
        #![trigger
            call_ensures(A::identity, (&algebra,), a),
            call_ensures(A::identity, (&algebra,), b)
        ]
        call_ensures(A::identity, (&algebra,), a) && call_ensures(A::identity, (&algebra,), b)
            ==> a == b
    &&& forall|params: P, a: A::Transform, b: A::Transform|
        #![trigger
            call_ensures(A::translate_x, (&algebra, &params), a),
            call_ensures(A::translate_x, (&algebra, &params), b)
        ]
        call_ensures(A::translate_x, (&algebra, &params), a) && call_ensures(
            A::translate_x,
            (&algebra, &params),
            b,
        ) ==> a == b
    &&& forall|params: P, a: A::Transform, b: A::Transform|
        #![trigger
            call_ensures(A::rotate_x, (&algebra, &params), a),
            call_ensures(A::rotate_x, (&algebra, &params), b)
        ]
        call_ensures(A::rotate_x, (&algebra, &params), a) && call_ensures(
            A::rotate_x,
            (&algebra, &params),
            b,
        ) ==> a == b
    &&& forall|params: P, q: Option<S>, a: A::Transform, b: A::Transform|
        #![trigger
            call_ensures(A::translate_z, (&algebra, &params, q), a),
            call_ensures(A::translate_z, (&algebra, &params, q), b)
        ]
        call_ensures(A::translate_z, (&algebra, &params, q), a) && call_ensures(
            A::translate_z,
            (&algebra, &params, q),
            b,
        ) ==> a == b
    &&& forall|params: P, q: Option<S>, a: A::Transform, b: A::Transform|
        #![trigger
            call_ensures(A::rotate_z, (&algebra, &params, q), a),
            call_ensures(A::rotate_z, (&algebra, &params, q), b)
        ]
        call_ensures(A::rotate_z, (&algebra, &params, q), a) && call_ensures(
            A::rotate_z,
            (&algebra, &params, q),
            b,
        ) ==> a == b
    &&& forall|left: A::Transform, right: A::Transform, a: A::Transform, b: A::Transform|
        #![trigger
            call_ensures(A::compose, (&algebra, &left, &right), a),
            call_ensures(A::compose, (&algebra, &left, &right), b)
        ]
        call_ensures(A::compose, (&algebra, &left, &right), a) && call_ensures(
            A::compose,
            (&algebra, &left, &right),
            b,
        ) ==> a == b
}

/// With operations that have one result each, a row has one transform.
pub proof fn lemma_row_transform_unique<P, S, A: Algebra<P, S>>(
    algebra: A,
    row: DHRow<P>,
    q: Option<S>,
    a: A::Transform,
    b: A::Transform,
)
    requires
        single_valued(algebra),
        row.transforms_to(algebra, q, a),
        row.transforms_to(algebra, q, b),
    ensures
        a == b,
{
}

/// With operations that have one result each, the transform over given rows
/// with given joints is one value: whichever way it is computed, as a
/// transform over a range or as one of the poses of all frames, it is the
/// same.
pub proof fn lemma_chain_unique<P, S: PartialOrd + Copy, A: Algebra<P, S>>(
    algebra: A,
    rows: Seq<DHRow<P>>,
    joints: Seq<Joint<S>>,
    a: A::Transform,
    b: A::Transform,
)
    requires
        single_valued(algebra),
        chain_transforms_to(algebra, rows, joints, a),
        chain_transforms_to(algebra, rows, joints, b),
    ensures
        a == b,
    decreases rows.len(),
{
    if rows.len() > 0 {
        let q = rows.last().joint_variable_of(joints);
        let before_a = choose|before: A::Transform|
            chain_transforms_to(algebra, rows.drop_last(), joints, before) && #[trigger] advances(
                algebra,
                rows.last(),
                q,
                before,
                a,
            );
        let before_b = choose|before: A::Transform|
            chain_transforms_to(algebra, rows.drop_last(), joints, before) && #[trigger] advances(
                algebra,
                rows.last(),
                q,
                before,
                b,
            );
        lemma_chain_unique(algebra, rows.drop_last(), joints, before_a, before_b);
        let step_a = choose|transform: A::Transform|
            rows.last().transforms_to(algebra, q, transform) && #[trigger] call_ensures(
                A::compose,
                (&algebra, &before_a, &transform),
                a,
            );
        let step_b = choose|transform: A::Transform|
            rows.last().transforms_to(algebra, q, transform) && #[trigger] call_ensures(
                A::compose,
                (&algebra, &before_b, &transform),
                b,
            );
        lemma_row_transform_unique(algebra, rows.last(), q, step_a, step_b);
    }
}

/// A chain of fixed frames does not depend on the joints: whatever the
/// states of the joints are, the transform over rows that are all fixed is
/// the same product of the same constant row transforms.
pub proof fn lemma_fixed_chain_ignores_joints<P, S: PartialOrd + Copy, A: Algebra<P, S>>(
    algebra: A,
    rows: Seq<DHRow<P>>,
    joints: Seq<Joint<S>>,
    others: Seq<Joint<S>>,
    out: A::Transform,
)
    requires
        forall|k: int| 0 <= k < rows.len() ==> (#[trigger] rows[k]).frame_type is Fixed,
        chain_transforms_to(algebra, rows, joints, out),
    ensures
        chain_transforms_to(algebra, rows, others, out),
    decreases rows.len(),
{
    if rows.len() > 0 {
        let before = choose|before: A::Transform|
            chain_transforms_to(algebra, rows.drop_last(), joints, before) && #[trigger] advances(
                algebra,
                rows.last(),
                rows.last().joint_variable_of(joints),
                before,
                out,
            );
        assert(rows.last() == rows[rows.len() - 1]);
        assert forall|k: int| 0 <= k < rows.drop_last().len() implies (#[trigger] rows.drop_last()[k]).frame_type is Fixed by {
            assert(rows.drop_last()[k] == rows[k]);
        }
        lemma_fixed_chain_ignores_joints(algebra, rows.drop_last(), joints, others, before);
        assert(rows.last().joint_variable_of(joints) == rows.last().joint_variable_of(others));
        assert(advances(
            algebra,
            rows.last(),
            rows.last().joint_variable_of(others),
            before,
            out,
        ));
    }
}

/// The transform of a row does not depend on a joint that does not drive
/// it: a fixed row has the same transform whatever joint variable it is
/// evaluated with.
pub proof fn lemma_fixed_row_ignores_joint_variable<P, S, A: Algebra<P, S>>(
    algebra: A,
    row: DHRow<P>,
    q: Option<S>,
    other: Option<S>,
    out: A::Transform,
)
    requires
        row.frame_type is Fixed,
        row.transforms_to(algebra, q, out),
    ensures
        row.transforms_to(algebra, other, out),
{
    assert(row.frame_type.d_term(q) == row.frame_type.d_term(other));
    assert(row.frame_type.theta_term(q) == row.frame_type.theta_term(other));
}

impl<P> DHTable<P> {
    /// The transform from frame `initial_row_index` to frame
    /// `final_row_index`: the identity multiplied by the transform of each
    /// row of the range, in chain order, with the joints as they are in
    /// `joints`.
    pub fn transformation_matrix_j_i<S: PartialOrd + Copy, A: Algebra<P, S>>(
        &self,
        algebra: &A,
        joints: &[Joint<S>],
        initial_row_index: usize,
        final_row_index: usize,
    ) -> (transform: A::Transform)
        requires
            initial_row_index < final_row_index <= self@.len(),
        ensures
            chain_transforms_to(
                *algebra,
                self@.subrange(initial_row_index as int, final_row_index as int),
                joints@,
                transform,
            ),
    {
        let ghost range = self@.subrange(initial_row_index as int, final_row_index as int);
        let mut transform = algebra.identity();
        assert(chain_transforms_to(*algebra, range.take(0), joints@, transform));
        let mut f: usize = initial_row_index;
        while f < final_row_index
            invariant
                initial_row_index <= f <= final_row_index <= self@.len(),
                range == self@.subrange(initial_row_index as int, final_row_index as int),
                chain_transforms_to(
                    *algebra,
                    range.take(f - initial_row_index),
                    joints@,
                    transform,
                ),
            decreases final_row_index - f,
        {
            let ghost done = range.take(f - initial_row_index);
            let ghost more = range.take(f - initial_row_index + 1);
            let row = self.row(f);
            let q = row.joint_variable(joints);
            let row_transform = row.get_row_trans_mat(algebra, q);
            let next = algebra.compose(&transform, &row_transform);
            proof {
                assert(more.drop_last() == done);
                assert(more.last() == self@[f as int]);
                assert(advances(*algebra, more.last(), q, transform, next));
            }
            transform = next;
            f += 1;
        }
        assert(range.take(final_row_index - initial_row_index) == range);
        transform
    }

    /// The transform from the base to the tip of the chain.
    pub fn forward_kinematics<S: PartialOrd + Copy, A: Algebra<P, S>>(
        &self,
        algebra: &A,
        joints: &[Joint<S>],
    ) -> (transform: A::Transform)
        requires
            self@.len() > 0,
        ensures
            chain_transforms_to(*algebra, self@, joints@, transform),
    {
        assert(self@.subrange(0, self@.len() as int) == self@);
        self.transformation_matrix_j_i(algebra, joints, 0, self.num_frames())
    }

    /// Computes the pose of every frame relative to the base in one pass:
    /// each pose is the pose before it multiplied by the transform of one
    /// row, so a chain of F frames costs F products of poses.
    pub fn all_poses<S: PartialOrd + Copy, A: Algebra<P, S>>(
        &self,
        algebra: &A,
        joints: &[Joint<S>],
    ) -> (poses: Vec<A::Transform>)
        ensures
            poses_of(*algebra, self@, joints@, poses@),
    {
        let start = algebra.identity();
        let mut poses: Vec<A::Transform> = Vec::new();
        let frames: usize = self.num_frames();
        let mut k: usize = 0;
        while k < frames
            invariant
                0 <= k <= frames,
                frames == self@.len(),
                poses@.len() == k,
                forall|i: int|
                    0 <= i < k ==> advances(
                        *algebra,
                        self@[i],
                        self@[i].joint_variable_of(joints@),
                        if i == 0 {
                            start
                        } else {
                            poses@[i - 1]
                        },
                        #[trigger] poses@[i],
                    ),
            decreases frames - k,
        {
            let row = self.row(k);
            let q = row.joint_variable(joints);
            let row_transform = row.get_row_trans_mat(algebra, q);
            let next = if k == 0 {
                algebra.compose(&start, &row_transform)
            } else {
                algebra.compose(&poses[k - 1], &row_transform)
            };
            poses.push(next);
            k += 1;
        }
        assert(poses_from(*algebra, self@, joints@, start, poses@));
        poses
    }
}

} // verus!
