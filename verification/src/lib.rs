//! The verified core of a kinematics engine for serial-link manipulators that
//! are described by Denavit-Hartenberg rows.
//!
//! The crate holds what such an engine computes, and proves its structure:
//! the transform of a row and the composition of transforms along the chain,
//! the columns of the geometric Jacobian, the damped pseudo-inverse in the
//! form that fits the number of joints, the state of a joint and the clamp
//! of its position, the arm with its cache of kinematics, the closed-form
//! inverse kinematics of a six-joint arm, and the task-space PID controller
//! with its reference pose that is held or tracked.
//!
//! The crate does no arithmetic of its own. Scalars are values of a type `S`
//! that can be copied and compared; vectors, matrices and transforms are
//! values of types that the caller chooses, and every elementary operation
//! on them (a product, a sine, an inverse) is a method of a trait that the
//! caller implements: `Algebra` for the chain, `ControlAlgebra` for poses and
//! the controller, `UrtArithmetic` for the inverse kinematics. A contract
//! says which operations were applied to which values, and in which order:
//! it states the formula, and leaves the numbers to the caller.

pub mod error;
pub mod scalar;
pub mod algebra;
pub mod joint;
pub mod dh;
pub mod chain;
pub mod jacobian;
pub mod arm;
pub mod inverse_kinematics_solvers;
pub mod pose;
pub mod reference;
pub mod pid;
pub mod task_space_pid_controller;
