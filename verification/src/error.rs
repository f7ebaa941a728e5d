//! The failures that the kinematics core reports instead of aborting.

use vstd::prelude::*;

verus! {

/// A chain, or an array handed to it, that is put together wrongly.
#[derive(Clone, Copy, Debug, PartialEq, Eq, Structural)]
pub enum ConfigError {
    /// The chain has no frame at all.
    EmptyChain,
    /// An array has another length than the chain asks for.
    LengthMismatch { expected: usize, provided: usize },
    /// The frame at this index moves, but names no joint of the joint array.
    InvalidJointReference { frame: usize },
}

/// Why an inverse-kinematics request produced no joint angles.
#[derive(Clone, Copy, Debug, PartialEq, Eq, Structural)]
pub enum IkError {
    /// The solver was handed another number of link parameters than it needs.
    LinkParameterCount { expected: usize, provided: usize },
    /// The target lies outside the reachable workspace.
    OutOfWorkspace,
    /// The target is reachable, but an angle of the solution is not finite.
    DegenerateOrientation,
}

/// What `check_length` returns for the two lengths.
pub open spec fn length_verdict(expected: usize, provided: usize) -> Result<(), ConfigError> {
    if expected == provided {
        Ok(())
    } else {
        Err(ConfigError::LengthMismatch { expected, provided })
    }
}

/// Accepts an array of `provided` entries where `expected` are needed, and
/// rejects every other length with both numbers.
pub fn check_length(expected: usize, provided: usize) -> (r: Result<(), ConfigError>)
    ensures
        r == length_verdict(expected, provided),
{
    if expected == provided {
        Ok(())
    } else {
        Err(ConfigError::LengthMismatch { expected, provided })
    }
}

impl ConfigError {
    /// A short description of the failure.
    pub fn message(&self) -> (text: &'static str)
        ensures
            text@ == match *self {
                ConfigError::EmptyChain => "DH table is empty"@,
                ConfigError::LengthMismatch { .. } => "Array length mismatch"@,
                ConfigError::InvalidJointReference { .. } => "Joint index out of bounds"@,
            },
    {
        match self {
            ConfigError::EmptyChain => "DH table is empty",
            ConfigError::LengthMismatch { .. } => "Array length mismatch",
            ConfigError::InvalidJointReference { .. } => "Joint index out of bounds",
        }
    }
}

impl IkError {
    /// A short description of the failure.
    pub fn message(&self) -> (text: &'static str)
        ensures
            text@ == match *self {
                IkError::LinkParameterCount { .. } => "Wrong number of link parameters"@,
                IkError::OutOfWorkspace => "Target out of workspace"@,
                IkError::DegenerateOrientation => "One or more joint angles are invalid"@,
            },
    {
        match self {
            IkError::LinkParameterCount { .. } => "Wrong number of link parameters",
            IkError::OutOfWorkspace => "Target out of workspace",
            IkError::DegenerateOrientation => "One or more joint angles are invalid",
        }
    }
}

} // verus!
