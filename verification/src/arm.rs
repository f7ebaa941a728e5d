//! The arm: a chain, the state of its joints, and the cache of its derived
//! kinematics.
//!
//! An arm keeps its Jacobian and the pseudo-inverse of it between control
//! cycles. Both are computed on demand and kept until the joint state changes:
//! every setter of joint state invalidates the cache, and the next access
//! computes both matrices again, once. What the cache holds is therefore
//! always the Jacobian of the arm as it stands.

use vstd::prelude::*;
use crate::algebra::{Algebra, ControlAlgebra};
use crate::chain::{chain_transforms_to, poses_of};
use crate::dh::{chain_verdict, joint_rows, DHRow, DHTable};
use crate::error::{length_verdict, ConfigError, IkError};
use crate::inverse_kinematics_solvers::IkSolver;
use crate::jacobian::{damping_of, jacobian_of, pseudo_inverts_to, PseudoInverse};
use crate::joint::Joint;
use crate::pose::{orients_to, Pose};

verus! {

/// The Jacobian and its pseudo-inverse, or the knowledge that they are stale.
pub struct KinematicsCache<J, I> {
    jacobian: Option<J>,
    inv_jacobian: Option<I>,
    dirty: bool,
}

impl<J, I> View for KinematicsCache<J, I> {
    /// The pair (Jacobian, pseudo-inverse) while it is valid, `None` while the
    /// cache is stale.
    type V = Option<(J, I)>;

    closed spec fn view(&self) -> Option<(J, I)> {
        if self.dirty {
            None
        } else {
            Some((self.jacobian->0, self.inv_jacobian->0))
        }
    }
}

impl<J, I> KinematicsCache<J, I> {
    #[verifier::type_invariant]
    spec fn filled_when_clean(self) -> bool {
        !self.dirty ==> self.jacobian is Some && self.inv_jacobian is Some
    }

    /// A cache that holds nothing yet.
    pub fn new() -> (cache: Self)
        ensures
            cache@ is None,
    {
        KinematicsCache { jacobian: None, inv_jacobian: None, dirty: true }
    }

    /// A cache that holds the given pair as valid.
    pub fn filled(jacobian: J, inv_jacobian: I) -> (cache: Self)
        ensures
            cache@ == Some((jacobian, inv_jacobian)),
    {
        KinematicsCache { jacobian: Some(jacobian), inv_jacobian: Some(inv_jacobian), dirty: false }
    }

    /// Marks the cached matrices as stale. To be called whenever a joint
    /// position or velocity is set.
    pub fn invalidate(&mut self)
        ensures
            final(self)@ is None,
    {
        self.dirty = true;
    }

    /// True when the joint state changed since the matrices were computed.
    pub fn is_dirty(&self) -> (dirty: bool)
        ensures
            dirty == (self@ is None),
    {
        self.dirty
    }

    /// Brings the cache up to date: a stale cache is filled with the pair
    /// that `compute` returns, a valid one is left alone and `compute` is not
    /// called.
    pub fn update<F: FnOnce() -> (J, I)>(&mut self, compute: F)
        requires
            call_requires(compute, ()),
        ensures
            match old(self)@ {
                Some(pair) => final(self)@ == Some(pair),
                None => final(self)@ is Some && call_ensures(compute, (), final(self)@->0),
            },
    {
        if self.dirty {
            let (jacobian, inv_jacobian) = compute();
            self.jacobian = Some(jacobian);
            self.inv_jacobian = Some(inv_jacobian);
            self.dirty = false;
        }
    }

    /// The current Jacobian, computed first if the cache is stale.
    pub fn jacobian<F: FnOnce() -> (J, I)>(&mut self, compute: F) -> (jacobian: &J)
        requires
            call_requires(compute, ()),
        ensures
            match old(self)@ {
                Some(pair) => final(self)@ == Some(pair),
                None => final(self)@ is Some && call_ensures(compute, (), final(self)@->0),
            },
            *jacobian == (final(self)@->0).0,
    {
        self.update(compute);
        proof {
            use_type_invariant(&*self);
        }
        self.jacobian.as_ref().unwrap()
    }

    /// The current pseudo-inverse of the Jacobian, computed first if the
    /// cache is stale.
    pub fn inv_jacobian<F: FnOnce() -> (J, I)>(&mut self, compute: F) -> (inv_jacobian: &I)
        requires
            call_requires(compute, ()),
        ensures
            match old(self)@ {
                Some(pair) => final(self)@ == Some(pair),
                None => final(self)@ is Some && call_ensures(compute, (), final(self)@->0),
            },
            *inv_jacobian == (final(self)@->0).1,
    {
        self.update(compute);
        proof {
            use_type_invariant(&*self);
        }
        self.inv_jacobian.as_ref().unwrap()
    }

    /// The cached pair, if it is valid.
    pub fn cached(&self) -> (pair: Option<(&J, &I)>)
        ensures
            pair is Some == self@ is Some,
            pair matches Some((jacobian, inv_jacobian)) ==> self@ == Some((*jacobian, *inv_jacobian)),
    {
        proof {
            use_type_invariant(self);
        }
        if self.dirty {
            None
        } else {
            Some((self.jacobian.as_ref().unwrap(), self.inv_jacobian.as_ref().unwrap()))
        }
    }
}

/// `updated` is `joints` after the positions `positions` were commanded:
/// every joint has moved to the position at its index, clamped to its limits,
/// and is otherwise as it was.
pub open spec fn positions_set<S: PartialOrd + Copy>(
    joints: Seq<Joint<S>>,
    positions: Seq<S>,
    updated: Seq<Joint<S>>,
) -> bool {
    &&& updated.len() == joints.len()
    &&& forall|i: int|
        0 <= i < joints.len() ==> joints[i]@.moves_to(positions[i], #[trigger] updated[i]@)
}

/// `updated` is `joints` with the velocities `velocities`, and otherwise as
/// it was.
pub open spec fn velocities_set<S: PartialOrd + Copy>(
    joints: Seq<Joint<S>>,
    velocities: Seq<S>,
    updated: Seq<Joint<S>>,
) -> bool {
    &&& updated.len() == joints.len()
    &&& forall|i: int|
        0 <= i < joints.len() ==> (#[trigger] updated[i]@) == joints[i]@.with_velocity(
            velocities[i],
        )
}

/// A serial arm: the rows of its chain, one state per joint, the damping of
/// its pseudo-inverse, the arithmetic it computes with, the cached Jacobian
/// with its pseudo-inverse, and the solver of its inverse kinematics with
/// the link parameters that the solver needs.
///
/// Every arm has at least one frame, as many joint states as its chain has
/// moving frames, and no moving frame that names a joint it does not have.
pub struct Arm<P, S: PartialOrd + Copy, A: Algebra<P, S>, K> {
    dh_table: DHTable<P>,
    joints: Vec<Joint<S>>,
    cache: KinematicsCache<A::Matrix, PseudoInverse<A::Matrix>>,
    damping: S,
    algebra: A,
    ik_solver: K,
    ik_link_parameters: Vec<S>,
}

impl<P, S: PartialOrd + Copy, A: Algebra<P, S>, K> Arm<P, S, A, K> {
    #[verifier::type_invariant]
    spec fn consistent(self) -> bool {
        &&& chain_verdict(self.dh_table@, self.joints@.len() as usize, Ok(()))
        &&& self.cache@ matches Some(pair) ==> self.current(pair)
    }

    /// The chain of the arm.
    pub closed spec fn table(&self) -> DHTable<P> {
        self.dh_table
    }

    /// The states of the joints.
    pub closed spec fn joint_states(&self) -> Vec<Joint<S>> {
        self.joints
    }

    /// The damping of the pseudo-inverse.
    pub closed spec fn lambda(&self) -> S {
        self.damping
    }

    /// The arithmetic of the arm.
    pub closed spec fn arithmetic(&self) -> A {
        self.algebra
    }

    /// The valid pair (Jacobian, pseudo-inverse), if there is one.
    pub closed spec fn kinematics(&self) -> Option<(A::Matrix, PseudoInverse<A::Matrix>)> {
        self.cache@
    }

    /// The solver of the inverse kinematics.
    pub closed spec fn solver(&self) -> K {
        self.ik_solver
    }

    /// The link parameters that the solver is handed.
    pub closed spec fn link_parameters(&self) -> Vec<S> {
        self.ik_link_parameters
    }

    /// `pair` is the Jacobian of the arm as it stands, with the damped
    /// pseudo-inverse of that Jacobian.
    pub open spec fn current(&self, pair: (A::Matrix, PseudoInverse<A::Matrix>)) -> bool {
        &&& jacobian_of(self.arithmetic(), self.table()@, self.joint_states()@, pair.0)
        &&& pseudo_inverts_to(
            self.arithmetic(),
            joint_rows(self.table()@).len() as usize,
            pair.0,
            self.lambda(),
            pair.1,
        )
    }

    /// This arm is `other` but for the states of its joints and for what it
    /// has cached.
    pub open spec fn unchanged_but_joints(&self, other: Self) -> bool {
        &&& self.table() == other.table()
        &&& self.lambda() == other.lambda()
        &&& self.arithmetic() == other.arithmetic()
        &&& self.solver() == other.solver()
        &&& self.link_parameters() == other.link_parameters()
    }

    /// This arm is `other` but for what it has cached.
    pub open spec fn unchanged_but_cache(&self, other: Self) -> bool {
        &&& self.unchanged_but_joints(other)
        &&& self.joint_states() == other.joint_states()
    }

    /// Makes an arm of a chain, the states of its joints, the damping of its
    /// pseudo-inverse (the default damping if none is given), its
    /// arithmetic, and the solver of its inverse kinematics with the link
    /// parameters for it, with nothing cached. A chain that `check_chain`
    /// rejects for this number of joints is rejected here with the same
    /// error.
    pub fn new(
        dh_table: DHTable<P>,
        joints: Vec<Joint<S>>,
        damping: Option<S>,
        algebra: A,
        ik_solver: K,
        ik_link_parameters: Vec<S>,
    ) -> (r: Result<Self, ConfigError>)
        ensures
            match r {
                Ok(arm) => {
                    &&& arm.table() == dh_table
                    &&& arm.joint_states() == joints
                    &&& damping_of(algebra, damping, arm.lambda())
                    &&& arm.arithmetic() == algebra
                    &&& arm.solver() == ik_solver
                    &&& arm.link_parameters() == ik_link_parameters
                    &&& arm.kinematics() is None
                    &&& chain_verdict(dh_table@, joints@.len() as usize, Ok(()))
                },
                Err(e) => chain_verdict(dh_table@, joints@.len() as usize, Err(e)),
            },
    {
        match dh_table.check_chain(joints.len()) {
            Ok(()) => {
                let damping = match damping {
                    Some(value) => value,
                    None => algebra.default_damping(),
                };
                Ok(
                    Arm {
                        dh_table,
                        joints,
                        cache: KinematicsCache::new(),
                        damping,
                        algebra,
                        ik_solver,
                        ik_link_parameters,
                    },
                )
            },
            Err(e) => Err(e),
        }
    }

    pub fn dh_table(&self) -> (table: &DHTable<P>)
        ensures
            *table == self.table(),
            chain_verdict(table@, self.joint_states()@.len() as usize, Ok(())),
    {
        proof {
            use_type_invariant(self);
        }
        &self.dh_table
    }

    pub fn joints(&self) -> (joints: &Vec<Joint<S>>)
        ensures
            *joints == self.joint_states(),
    {
        &self.joints
    }

    /// The damping of the pseudo-inverse.
    pub fn damping(&self) -> (damping: S)
        ensures
            damping == self.lambda(),
    {
        self.damping
    }

    /// The arithmetic that the arm computes with.
    pub fn algebra(&self) -> (algebra: &A)
        ensures
            *algebra == self.arithmetic(),
    {
        &self.algebra
    }

    /// The state of the joint that drives `row`: none for a fixed row, and
    /// none for a row that names no joint of this arm.
    pub fn joint_of(&self, row: &DHRow<P>) -> (joint: Option<&Joint<S>>)
        ensures
            match joint {
                Some(state) => {
                    &&& !row.dangling(self.joint_states()@.len() as int)
                    &&& row.frame_type.moves()
                    &&& *state == self.joint_states()@[row.joint_index->0 as int]
                },
                None => !row.frame_type.moves() || row.dangling(self.joint_states()@.len() as int),
            },
    {
        row.joint_in(self.joints.as_slice())
    }

    /// The positions of all joints, in internal units.
    pub fn joint_positions(&self) -> (positions: Vec<S>)
        ensures
            positions@.len() == self.joint_states()@.len(),
            forall|i: int|
                0 <= i < positions@.len() ==> (#[trigger] positions@[i])
                    == self.joint_states()@[i]@.position,
    {
        let mut positions: Vec<S> = Vec::new();
        let mut i: usize = 0;
        while i < self.joints.len()
            invariant
                0 <= i <= self.joints@.len(),
                positions@.len() == i,
                forall|k: int|
                    0 <= k < i ==> (#[trigger] positions@[k]) == self.joints@[k]@.position,
            decreases self.joints.len() - i,
        {
            positions.push(self.joints[i].position());
            i += 1;
        }
        positions
    }

    /// The velocities of all joints.
    pub fn joint_velocities(&self) -> (velocities: Vec<S>)
        ensures
            velocities@.len() == self.joint_states()@.len(),
            forall|i: int|
                0 <= i < velocities@.len() ==> (#[trigger] velocities@[i])
                    == self.joint_states()@[i]@.velocity,
    {
        let mut velocities: Vec<S> = Vec::new();
        let mut i: usize = 0;
        while i < self.joints.len()
            invariant
                0 <= i <= self.joints@.len(),
                velocities@.len() == i,
                forall|k: int|
                    0 <= k < i ==> (#[trigger] velocities@[k]) == self.joints@[k]@.velocity,
            decreases self.joints.len() - i,
        {
            velocities.push(self.joints[i].velocity());
            i += 1;
        }
        velocities
    }

    /// Updates the position of all joints, in internal units, and marks the
    /// cached kinematics as stale. Every position is clamped to the limits of
    /// its joint. An array of another length than the joint array is
    /// rejected, and nothing changes.
    pub fn set_joint_positions(&mut self, positions: &[S]) -> (r: Result<(), ConfigError>)
        ensures
            r == length_verdict(
                old(self).joint_states()@.len() as usize,
                positions@.len() as usize,
            ),
            final(self).unchanged_but_joints(*old(self)),
            match r {
                Ok(()) => {
                    &&& positions_set(
                        old(self).joint_states()@,
                        positions@,
                        final(self).joint_states()@,
                    )
                    &&& final(self).kinematics() is None
                },
                Err(_) => {
                    &&& final(self).joint_states() == old(self).joint_states()
                    &&& final(self).kinematics() == old(self).kinematics()
                },
            },
    {
        proof {
            use_type_invariant(&*self);
        }
        let count: usize = self.joints.len();
        if positions.len() != count {
            return Err(ConfigError::LengthMismatch { expected: count, provided: positions.len() });
        }
        let mut updated: Vec<Joint<S>> = Vec::new();
        let mut i: usize = 0;
        while i < count
            invariant
                0 <= i <= count,
                count == self.joints@.len(),
                count == positions@.len(),
                self.joints == old(self).joints,
                updated@.len() == i,
                forall|k: int|
                    0 <= k < i ==> self.joints@[k]@.moves_to(positions@[k], #[trigger] updated@[k]@),
            decreases count - i,
        {
            let mut joint = self.joints[i];
            joint.set_position(positions[i]);
            updated.push(joint);
            i += 1;
        }
        self.cache = KinematicsCache::new();
        self.joints = updated;
        Ok(())
    }

    /// Updates the velocity of all joints and marks the cached kinematics as
    /// stale. An array of another length than the joint array is rejected,
    /// and nothing changes.
    pub fn set_joint_velocities(&mut self, velocities: &[S]) -> (r: Result<(), ConfigError>)
        ensures
            r == length_verdict(
                old(self).joint_states()@.len() as usize,
                velocities@.len() as usize,
            ),
            final(self).unchanged_but_joints(*old(self)),
            match r {
                Ok(()) => {
                    &&& velocities_set(
                        old(self).joint_states()@,
                        velocities@,
                        final(self).joint_states()@,
                    )
                    &&& final(self).kinematics() is None
                },
                Err(_) => {
                    &&& final(self).joint_states() == old(self).joint_states()
                    &&& final(self).kinematics() == old(self).kinematics()
                },
            },
    {
        proof {
            use_type_invariant(&*self);
        }
        let count: usize = self.joints.len();
        if velocities.len() != count {
            return Err(ConfigError::LengthMismatch { expected: count, provided: velocities.len() });
        }
        let mut updated: Vec<Joint<S>> = Vec::new();
        let mut i: usize = 0;
        while i < count
            invariant
                0 <= i <= count,
                count == self.joints@.len(),
                count == velocities@.len(),
                self.joints == old(self).joints,
                updated@.len() == i,
                forall|k: int|
                    0 <= k < i ==> (#[trigger] updated@[k]@) == self.joints@[k]@.with_velocity(
                        velocities@[k],
                    ),
            decreases count - i,
        {
            let mut joint = self.joints[i];
            joint.set_velocity(velocities[i]);
            updated.push(joint);
            i += 1;
        }
        self.cache = KinematicsCache::new();
        self.joints = updated;
        Ok(())
    }

    /// Updates both joint positions and velocities. Both arrays must have one
    /// entry per joint; if either has not, nothing changes.
    pub fn set_joint_positions_and_velocities(&mut self, positions: &[S], velocities: &[S]) -> (r:
        Result<(), ConfigError>)
        ensures
            r == match length_verdict(
                old(self).joint_states()@.len() as usize,
                positions@.len() as usize,
            ) {
                Ok(()) => length_verdict(
                    old(self).joint_states()@.len() as usize,
                    velocities@.len() as usize,
                ),
                Err(e) => Err(e),
            },
            final(self).unchanged_but_joints(*old(self)),
            match r {
                Ok(()) => {
                    &&& exists|moved: Seq<Joint<S>>| #[trigger]
                        positions_set(old(self).joint_states()@, positions@, moved)
                            && velocities_set(moved, velocities@, final(self).joint_states()@)
                    &&& final(self).kinematics() is None
                },
                Err(_) => {
                    &&& final(self).joint_states() == old(self).joint_states()
                    &&& final(self).kinematics() == old(self).kinematics()
                },
            },
    {
        let count: usize = self.joints.len();
        if positions.len() != count {
            return Err(ConfigError::LengthMismatch { expected: count, provided: positions.len() });
        }
        if velocities.len() != count {
            return Err(ConfigError::LengthMismatch { expected: count, provided: velocities.len() });
        }
        match self.set_joint_positions(positions) {
            Ok(()) => {
                let ghost moved = self.joints@;
                let r = self.set_joint_velocities(velocities);
                assert(positions_set(old(self).joint_states()@, positions@, moved));
                r
            },
            Err(e) => Err(e),
        }
    }

    /// Brings the cached kinematics up to date. If they are stale, the
    /// Jacobian of the arm as it stands and its damped pseudo-inverse are
    /// computed and kept; if they are valid, nothing is computed.
    pub fn update(&mut self)
        ensures
            final(self).unchanged_but_cache(*old(self)),
            final(self).kinematics() is Some,
            final(self).current(final(self).kinematics()->0),
            old(self).kinematics() is Some ==> final(self).kinematics() == old(self).kinematics(),
    {
        proof {
            use_type_invariant(&*self);
        }
        if self.cache.is_dirty() {
            let j = self.dh_table.compute_jacobian(&self.algebra, self.joints.as_slice());
            let inv_j = self.dh_table.damped_moore_penrose_pseudo_inverse(
                &self.algebra,
                self.joints.as_slice(),
                Some(&j),
                Some(self.damping),
            );
            self.cache = KinematicsCache::filled(j, inv_j);
        }
    }

    /// Get the current Jacobian (computes if stale).
    pub fn jacobian(&mut self) -> (jacobian: &A::Matrix)
        ensures
            final(self).unchanged_but_cache(*old(self)),
            final(self).kinematics() is Some,
            final(self).current(final(self).kinematics()->0),
            old(self).kinematics() is Some ==> final(self).kinematics() == old(self).kinematics(),
            *jacobian == (final(self).kinematics()->0).0,
    {
        self.update();
        match self.cache.cached() {
            Some((jacobian, _)) => jacobian,
            None => vstd::pervasive::unreached(),
        }
    }

    /// Get the current pseudo-inverse of the Jacobian (computes if stale). It
    /// is the zero matrix if the arm is degenerate.
    pub fn inv_jacobian(&mut self) -> (inv_jacobian: &A::Matrix)
        ensures
            final(self).unchanged_but_cache(*old(self)),
            final(self).kinematics() is Some,
            final(self).current(final(self).kinematics()->0),
            old(self).kinematics() is Some ==> final(self).kinematics() == old(self).kinematics(),
            *inv_jacobian == (final(self).kinematics()->0).1.matrix,
    {
        self.update();
        match self.cache.cached() {
            Some((_, inv_jacobian)) => &inv_jacobian.matrix,
            None => vstd::pervasive::unreached(),
        }
    }

    /// Tells whether the damped matrix of the arm as it stands has no
    /// inverse (computes if stale). No safe motion command can be derived
    /// from the pseudo-inverse of a degenerate arm.
    pub fn is_degenerate(&mut self) -> (degenerate: bool)
        ensures
            final(self).unchanged_but_cache(*old(self)),
            final(self).kinematics() is Some,
            final(self).current(final(self).kinematics()->0),
            old(self).kinematics() is Some ==> final(self).kinematics() == old(self).kinematics(),
            degenerate == (final(self).kinematics()->0).1.degenerate,
    {
        self.update();
        match self.cache.cached() {
            Some((_, inv_jacobian)) => inv_jacobian.degenerate,
            None => vstd::pervasive::unreached(),
        }
    }

    /// The cached pair (Jacobian, pseudo-inverse), if it is valid. What is
    /// cached belongs to the arm as it stands.
    pub fn cached(&self) -> (pair: Option<(&A::Matrix, &PseudoInverse<A::Matrix>)>)
        ensures
            pair is Some == self.kinematics() is Some,
            pair matches Some((jacobian, inv_jacobian)) ==> {
                &&& self.kinematics() == Some((*jacobian, *inv_jacobian))
                &&& self.current((*jacobian, *inv_jacobian))
            },
    {
        proof {
            use_type_invariant(self);
        }
        self.cache.cached()
    }

    /// The pose of every frame relative to the base.
    pub fn frame_poses(&self) -> (poses: Vec<A::Transform>)
        ensures
            poses@.len() > 0,
            poses_of(self.arithmetic(), self.table()@, self.joint_states()@, poses@),
    {
        proof {
            use_type_invariant(self);
        }
        self.dh_table.all_poses(&self.algebra, self.joints.as_slice())
    }

    /// The pose of frame `frame_index` relative to the base: the identity
    /// multiplied by the transforms of the rows up to and including that
    /// frame.
    pub fn frame_pose(&self, frame_index: usize) -> (pose: A::Transform)
        requires
            frame_index < self.table()@.len(),
        ensures
            chain_transforms_to(
                self.arithmetic(),
                self.table()@.take(frame_index + 1),
                self.joint_states()@,
                pose,
            ),
    {
        let frames: usize = self.dh_table.num_frames();
        assert(frame_index < frames);
        assert(self.table()@.subrange(0, frame_index + 1) == self.table()@.take(frame_index + 1));
        self.dh_table.transformation_matrix_j_i(
            &self.algebra,
            self.joints.as_slice(),
            0,
            frame_index + 1,
        )
    }

    /// Get the current end-effector pose: the transform from the base to the
    /// tip. An arm always has a last frame.
    pub fn ee_pose(&self) -> (pose: A::Transform)
        ensures
            chain_transforms_to(self.arithmetic(), self.table()@, self.joint_states()@, pose),
    {
        proof {
            use_type_invariant(self);
        }
        self.dh_table.forward_kinematics(&self.algebra, self.joints.as_slice())
    }
}

impl<P, S: PartialOrd + Copy, A: ControlAlgebra<P, S>, K> Arm<P, S, A, K> {
    /// Solves the inverse kinematics for the target pose (position and
    /// rotation) of the end effector: the solver of the arm is handed the
    /// coordinates of the position, the rotation, and the link parameters of
    /// the arm.
    pub fn solve_ik_from_pose<U>(
        &self,
        arithmetic: &U,
        target_pose: &Pose<A::Vector, A::Rotation>,
    ) -> (result: Result<[S; 6], IkError>) where K: IkSolver<S, A::Rotation, U>
        ensures
            exists|x: S, y: S, z: S, links: &[S]|
                {
                    &&& links@ == self.link_parameters()@
                    &&& call_ensures(
                        A::coordinates,
                        (&self.arithmetic(), &target_pose.position),
                        (x, y, z),
                    )
                    &&& #[trigger] call_ensures(
                        K::solve_ik,
                        (&self.solver(), arithmetic, x, y, z, &target_pose.rotation, links),
                        result,
                    )
                },
    {
        let at = self.algebra.coordinates(&target_pose.position);
        let links = self.ik_link_parameters.as_slice();
        let result = self.ik_solver.solve_ik(
            arithmetic,
            at.0,
            at.1,
            at.2,
            &target_pose.rotation,
            links,
        );
        assert(at == (at.0, at.1, at.2));
        assert(call_ensures(
            K::solve_ik,
            (&self.solver(), arithmetic, at.0, at.1, at.2, &target_pose.rotation, links),
            result,
        ));
        result
    }

    /// Solves the inverse kinematics for the target position (x, y, z) and
    /// the Euler angles yaw, pitch and roll of the end effector: the solver
    /// of the arm is handed the position, the rotation of the angles, and the
    /// link parameters of the arm.
    pub fn solve_ik_from_components<U>(
        &self,
        arithmetic: &U,
        x: S,
        y: S,
        z: S,
        yaw: S,
        pitch: S,
        roll: S,
    ) -> (result: Result<[S; 6], IkError>) where K: IkSolver<S, A::Rotation, U>
        ensures
            exists|r: A::Rotation, links: &[S]|
                {
                    &&& links@ == self.link_parameters()@
                    &&& orients_to(self.arithmetic(), yaw, pitch, roll, r)
                    &&& #[trigger] call_ensures(
                        K::solve_ik,
                        (&self.solver(), arithmetic, x, y, z, &r, links),
                        result,
                    )
                },
    {
        let r = Pose::<A::Vector, A::Rotation>::orientation_mat(&self.algebra, yaw, pitch, roll);
        let links = self.ik_link_parameters.as_slice();
        let result = self.ik_solver.solve_ik(arithmetic, x, y, z, &r, links);
        assert(call_ensures(
            K::solve_ik,
            (&self.solver(), arithmetic, x, y, z, &r, links),
            result,
        ));
        result
    }
}

} // verus!
