//! Poses: the position and the rotation of a frame.

use vstd::prelude::*;
use crate::algebra::ControlAlgebra;
use crate::chain::chain_transforms_to;
use crate::dh::DHTable;
use crate::joint::Joint;

verus! {

/// Position and rotation of a frame relative to another.
#[derive(Debug)]
pub struct Pose<V, R> {
    pub position: V,
    pub rotation: R,
}

/// `parts` are the position and the rotation of the pose `pose`.
pub open spec fn pose_parts<P, S, A: ControlAlgebra<P, S>>(
    algebra: A,
    pose: A::Transform,
    parts: (A::Vector, A::Rotation),
) -> bool {
    &&& call_ensures(A::position, (&algebra, &pose), parts.0)
    &&& call_ensures(A::rotation, (&algebra, &pose), parts.1)
}

/// `out` is the rotation of the Euler angles yaw (about z), pitch (about y)
/// and roll (about x): RotateZ(yaw) · RotateY(pitch) · RotateX(roll).
pub open spec fn orients_to<P, S, A: ControlAlgebra<P, S>>(
    algebra: A,
    yaw: S,
    pitch: S,
    roll: S,
    out: A::Rotation,
) -> bool {
    exists|x_rot: A::Rotation, y_rot: A::Rotation, z_rot: A::Rotation, z_y: A::Rotation|
        {
            &&& #[trigger] call_ensures(A::rotation_x, (&algebra, roll), x_rot)
            &&& #[trigger] call_ensures(A::rotation_y, (&algebra, pitch), y_rot)
            &&& #[trigger] call_ensures(A::rotation_z, (&algebra, yaw), z_rot)
            &&& #[trigger] call_ensures(A::compose_rotations, (&algebra, &z_rot, &y_rot), z_y)
            &&& call_ensures(A::compose_rotations, (&algebra, &z_y, &x_rot), out)
        }
}

impl<V, R> Pose<V, R> {
    pub fn new(position: V, rotation: R) -> (pose: Self)
        ensures
            pose == (Pose { position, rotation }),
    {
        Pose { position, rotation }
    }

    /// The homogeneous transform of this pose.
    pub fn to_homogeneous<P, S, A: ControlAlgebra<P, S, Vector = V, Rotation = R>>(
        &self,
        algebra: &A,
    ) -> (m: A::Transform)
        ensures
            call_ensures(A::homogeneous, (algebra, &self.rotation, &self.position), m),
    {
        algebra.homogeneous(&self.rotation, &self.position)
    }

    /// The pose of a homogeneous transform: its position and its rotation.
    pub fn from_homogeneous<P, S, A: ControlAlgebra<P, S, Vector = V, Rotation = R>>(
        algebra: &A,
        m: &A::Transform,
    ) -> (pose: Self)
        ensures
            pose_parts(*algebra, *m, (pose.position, pose.rotation)),
    {
        let rotation = algebra.rotation(m);
        let position = algebra.position(m);
        Pose { position, rotation }
    }

    /// Returns the x-axis of this frame: the first column of its rotation.
    pub fn x_axis<P, S, A: ControlAlgebra<P, S, Vector = V, Rotation = R>>(&self, algebra: &A) -> (axis:
        V)
        ensures
            call_ensures(A::column, (algebra, &self.rotation, 0usize), axis),
    {
        algebra.column(&self.rotation, 0)
    }

    /// Returns the y-axis of this frame: the second column of its rotation.
    pub fn y_axis<P, S, A: ControlAlgebra<P, S, Vector = V, Rotation = R>>(&self, algebra: &A) -> (axis:
        V)
        ensures
            call_ensures(A::column, (algebra, &self.rotation, 1usize), axis),
    {
        algebra.column(&self.rotation, 1)
    }

    /// Returns the z-axis of this frame (the joint axis direction): the
    /// third column of its rotation.
    pub fn z_axis<P, S, A: ControlAlgebra<P, S, Vector = V, Rotation = R>>(&self, algebra: &A) -> (axis:
        V)
        ensures
            call_ensures(A::column, (algebra, &self.rotation, 2usize), axis),
    {
        algebra.column(&self.rotation, 2)
    }

    /// Compute the orientation matrix from yaw (about z), pitch (about y)
    /// and roll (about x).
    pub fn orientation_mat<P, S, A: ControlAlgebra<P, S, Vector = V, Rotation = R>>(
        algebra: &A,
        yaw: S,
        pitch: S,
        roll: S,
    ) -> (out: R)
        ensures
            orients_to(*algebra, yaw, pitch, roll, out),
    {
        let x_rot = algebra.rotation_x(roll);
        let y_rot = algebra.rotation_y(pitch);
        let z_rot = algebra.rotation_z(yaw);
        let z_y = algebra.compose_rotations(&z_rot, &y_rot);
        algebra.compose_rotations(&z_y, &x_rot)
    }
}

impl<P> DHTable<P> {
    /// Get pose between frame j and frame i (exclusive i index convention):
    /// the position and the rotation of the transform over the rows j to
    /// i − 1.
    pub fn pose_between_j_i<S: PartialOrd + Copy, A: ControlAlgebra<P, S>>(
        &self,
        algebra: &A,
        joints: &[Joint<S>],
        j: usize,
        i: usize,
    ) -> (pose: Pose<A::Vector, A::Rotation>)
        requires
            j < i <= self@.len(),
        ensures
            exists|transform: A::Transform|
                chain_transforms_to(*algebra, self@.subrange(j as int, i as int), joints@, transform)
                    && #[trigger] pose_parts(
                    *algebra,
                    transform,
                    (pose.position, pose.rotation),
                ),
    {
        let transform = self.transformation_matrix_j_i(algebra, joints, j, i);
        Pose::from_homogeneous(algebra, &transform)
    }
}

} // verus!
