//! The arithmetic that the kinematics of a chain is computed with.
//!
//! The crate composes transforms, builds Jacobian columns and forms
//! pseudo-inverses, but it multiplies no numbers itself. Whoever uses it
//! implements `Algebra` for the number and matrix types of their choice, one
//! method per elementary operation. The contracts of the crate then say which
//! operations were applied to which values, and in what order.

use vstd::prelude::*;
use crate::jacobian::JacobianColumn;

verus! {

/// Elementary operations on homogeneous transforms, 3-vectors and matrices.
///
/// `P` is the type of the four parameters (a, alpha, d, theta) of a
/// Denavit-Hartenberg row, `S` the scalar type of joint positions and of the
/// damping.
pub trait Algebra<P, S> {
    /// A homogeneous transform between two frames.
    type Transform;

    /// A vector of three coordinates.
    type Vector;

    /// A matrix of any shape.
    type Matrix;

    /// An angle given in degrees, in radians.
    fn to_radians(&self, degrees: S) -> S;

    /// An angle given in radians, in degrees.
    fn to_degrees(&self, radians: S) -> S;

    /// The parameters of a row: the link length `a`, the link twist `alpha`,
    /// the link offset `d` and the joint angle `theta`, angles in radians.
    fn parameters(&self, a: S, alpha: S, d: S, theta: S) -> P;

    /// The four parameters a, alpha, d, theta of a row, angles in radians.
    fn components(&self, params: &P) -> (S, S, S, S);

    /// The transform that changes nothing.
    fn identity(&self) -> Self::Transform;

    /// The translation by `a` along the x-axis: Translate(a, 0, 0).
    fn translate_x(&self, params: &P) -> Self::Transform;

    /// The rotation by `alpha` about the x-axis: RotateX(alpha).
    fn rotate_x(&self, params: &P) -> Self::Transform;

    /// The translation along the z-axis by `d`, and by the joint variable in
    /// addition if one is given: Translate(0, 0, d + q).
    fn translate_z(&self, params: &P, joint_variable: Option<S>) -> Self::Transform;

    /// The rotation about the z-axis by `theta`, and by the joint variable in
    /// addition if one is given: RotateZ(theta + q).
    fn rotate_z(&self, params: &P, joint_variable: Option<S>) -> Self::Transform;

    /// The product `left` · `right` of two transforms.
    fn compose(&self, left: &Self::Transform, right: &Self::Transform) -> Self::Transform;

    /// The direction of the z-axis of a frame, given its pose.
    fn z_axis(&self, pose: &Self::Transform) -> Self::Vector;

    /// The position of the origin of a frame, given its pose.
    fn position(&self, pose: &Self::Transform) -> Self::Vector;

    /// The difference `minuend` − `subtrahend`.
    fn difference(&self, minuend: &Self::Vector, subtrahend: &Self::Vector) -> Self::Vector;

    /// The cross product `left` × `right`.
    fn cross(&self, left: &Self::Vector, right: &Self::Vector) -> Self::Vector;

    /// The zero vector.
    fn zero(&self) -> Self::Vector;

    /// The matrix of six rows whose columns are the given ones, the linear
    /// part of each above its angular part.
    fn assemble(&self, columns: &Vec<JacobianColumn<Self::Vector>>) -> Self::Matrix;

    /// The transpose of a matrix.
    fn transpose(&self, matrix: &Self::Matrix) -> Self::Matrix;

    /// The product `left` · `right` of two matrices.
    fn multiply(&self, left: &Self::Matrix, right: &Self::Matrix) -> Self::Matrix;

    /// The damping λ of the pseudo-inverse where none is named.
    fn default_damping(&self) -> S;

    /// The square matrix of the given order with λ² added to each entry of
    /// the diagonal: `matrix` + λ²·I.
    fn damp(&self, matrix: &Self::Matrix, order: usize, lambda: S) -> Self::Matrix;

    /// The inverse of a square matrix, or nothing if it has no usable inverse.
    fn try_inverse(&self, matrix: &Self::Matrix) -> Option<Self::Matrix>;

    /// The matrix of the given shape whose entries are all zero.
    fn zeros(&self, rows: usize, columns: usize) -> Self::Matrix;
}

/// The operations of poses and of the task-space controller, on top of
/// those of the chain.
///
/// A twist is a vector of six coordinates, three linear followed by three
/// angular; the gains of the controller are twists as well.
pub trait ControlAlgebra<P, S>: Algebra<P, S> {
    /// A rotation matrix.
    type Rotation;

    /// A task-space velocity, error or gain.
    type Twist;

    /// The speed below which a commanded velocity counts as zero.
    fn velocity_epsilon(&self) -> S;

    /// The twist whose coordinates are all zero.
    fn zero_twist(&self) -> Self::Twist;

    /// The rotation that turns nothing.
    fn identity_rotation(&self) -> Self::Rotation;

    /// The rotation of a frame relative to the base, given its pose.
    fn rotation(&self, pose: &Self::Transform) -> Self::Rotation;

    /// The pose with the given rotation and position.
    fn homogeneous(&self, rotation: &Self::Rotation, position: &Self::Vector) -> Self::Transform;

    /// The three coordinates x, y, z of a vector.
    fn coordinates(&self, vector: &Self::Vector) -> (S, S, S);

    /// The three linear coordinates of a twist.
    fn linear_part(&self, twist: &Self::Twist) -> Self::Vector;

    /// The three angular coordinates of a twist.
    fn angular_part(&self, twist: &Self::Twist) -> Self::Vector;

    /// The twist with the given linear and angular coordinates.
    fn twist(&self, linear: &Self::Vector, angular: &Self::Vector) -> Self::Twist;

    /// An angular rate given in degrees per second, in radians per second.
    fn degrees_to_radians(&self, rate: &Self::Vector) -> Self::Vector;

    /// The Euclidean norm of a vector.
    fn norm(&self, vector: &Self::Vector) -> S;

    /// The sum of two vectors.
    fn sum(&self, left: &Self::Vector, right: &Self::Vector) -> Self::Vector;

    /// The vector `vector` · `factor`.
    fn scale(&self, vector: &Self::Vector, factor: S) -> Self::Vector;

    /// Half the vector.
    fn half(&self, vector: &Self::Vector) -> Self::Vector;

    /// The vector `vector` of the frame with the given rotation, seen from
    /// the base: `rotation` · `vector`.
    fn rotate(&self, rotation: &Self::Rotation, vector: &Self::Vector) -> Self::Vector;

    /// The column of a rotation with the given index, 0 to 2: an axis of the
    /// rotated frame.
    fn column(&self, rotation: &Self::Rotation, index: usize) -> Self::Vector;

    /// The skew-symmetric matrix [ω]× of a vector ω.
    fn skew(&self, vector: &Self::Vector) -> Self::Rotation;

    /// The sum of two 3×3 matrices.
    fn sum_rotations(&self, left: &Self::Rotation, right: &Self::Rotation) -> Self::Rotation;

    /// The 3×3 matrix `matrix` · `factor`.
    fn scale_rotation(&self, matrix: &Self::Rotation, factor: S) -> Self::Rotation;

    /// The product `left` · `right` of two 3×3 matrices.
    fn compose_rotations(&self, left: &Self::Rotation, right: &Self::Rotation) -> Self::Rotation;

    /// The orthonormal matrix nearest to `rotation`: U·Vᵗ of its singular
    /// value decomposition.
    fn orthonormalize(&self, rotation: &Self::Rotation) -> Self::Rotation;

    /// The rotation by `angle` about the x-axis.
    fn rotation_x(&self, angle: S) -> Self::Rotation;

    /// The rotation by `angle` about the y-axis.
    fn rotation_y(&self, angle: S) -> Self::Rotation;

    /// The rotation by `angle` about the z-axis.
    fn rotation_z(&self, angle: S) -> Self::Rotation;

    /// The sum of two twists.
    fn sum_twists(&self, left: &Self::Twist, right: &Self::Twist) -> Self::Twist;

    /// The difference `minuend` − `subtrahend` of two twists.
    fn difference_twists(&self, minuend: &Self::Twist, subtrahend: &Self::Twist) -> Self::Twist;

    /// The twist `twist` · `factor`.
    fn scale_twist(&self, twist: &Self::Twist, factor: S) -> Self::Twist;

    /// The twist `twist` / `divisor`.
    fn divide_twist(&self, twist: &Self::Twist, divisor: S) -> Self::Twist;

    /// The product of two twists, coordinate by coordinate.
    fn component_mul(&self, left: &Self::Twist, right: &Self::Twist) -> Self::Twist;

    /// The joint rates that the pseudo-inverse of the Jacobian maps a
    /// task-space command to, one per joint: `inv_jacobian` · `command`.
    fn joint_rates(&self, inv_jacobian: &Self::Matrix, command: &Self::Twist) -> Vec<S>;
}

} // verus!
