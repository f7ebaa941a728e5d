//! Denavit-Hartenberg rows and the table that owns them.
//!
//! A row carries its four geometric parameters as a value of the caller's
//! type `P`, together with what the chain needs to know of it: whether the
//! frame moves, with which kind of joint, and which joint of the arm it is.

use vstd::prelude::*;
use crate::algebra::Algebra;
use crate::error::ConfigError;
use crate::joint::{Joint, JointType, JointVariable};

verus! {

/// How a frame relates to the frame before it.
#[derive(Clone, Copy, Debug, PartialEq, Eq, Structural)]
pub enum FrameType {
    /// The frame turns with a revolute joint.
    Revolute,
    /// The frame slides with a prismatic joint.
    Prismatic,
    /// The frame is a constant offset, such as a tool mount.
    Fixed,
}

impl FrameType {
    /// A frame moves when a joint drives it.
    pub open spec fn moves(self) -> bool {
        self is Revolute || self is Prismatic
    }

    /// The kind of joint behind a moving frame.
    pub open spec fn joint_kind(self) -> Option<JointType> {
        match self {
            FrameType::Revolute => Some(JointType::Revolute),
            FrameType::Prismatic => Some(JointType::Prismatic),
            FrameType::Fixed => None,
        }
    }

    /// The parameter of the row that carries the joint's position: `theta` for
    /// a revolute frame, `d` for a prismatic frame, none for a fixed frame.
    pub open spec fn driven_parameter(self) -> Option<JointVariable> {
        match self.joint_kind() {
            Some(kind) => Some(kind.driven()),
            None => None,
        }
    }

    /// What is added to `d` of a row of this type whose joint is at `q`:
    /// the joint variable of a prismatic frame, nothing otherwise.
    pub open spec fn d_term<S>(self, q: Option<S>) -> Option<S> {
        if self.driven_parameter() == Some(JointVariable::D) {
            q
        } else {
            None
        }
    }

    /// What is added to `theta` of a row of this type whose joint is at `q`:
    /// the joint variable of a revolute frame, nothing otherwise.
    pub open spec fn theta_term<S>(self, q: Option<S>) -> Option<S> {
        if self.driven_parameter() == Some(JointVariable::Theta) {
            q
        } else {
            None
        }
    }

    pub fn is_joint(&self) -> (r: bool)
        ensures
            r == self.moves(),
    {
        match self {
            FrameType::Revolute => true,
            FrameType::Prismatic => true,
            FrameType::Fixed => false,
        }
    }

    pub fn is_fixed(&self) -> (r: bool)
        ensures
            r == (*self is Fixed),
            r == !self.moves(),
    {
        match self {
            FrameType::Fixed => true,
            _ => false,
        }
    }

    /// The kind of joint that drives this frame, if any does.
    pub fn joint_type(&self) -> (r: Option<JointType>)
        ensures
            r == self.joint_kind(),
    {
        match self {
            FrameType::Revolute => Some(JointType::Revolute),
            FrameType::Prismatic => Some(JointType::Prismatic),
            FrameType::Fixed => None,
        }
    }

    /// The parameter that the joint's position is added to when the row's
    /// transform is evaluated. Exactly one parameter of a moving row is
    /// perturbed; a fixed row is evaluated from its constants alone.
    pub fn joint_variable(&self) -> (r: Option<JointVariable>)
        ensures
            r == self.driven_parameter(),
    {
        match self {
            FrameType::Revolute => Some(JointVariable::Theta),
            FrameType::Prismatic => Some(JointVariable::D),
            FrameType::Fixed => None,
        }
    }
}

/// One frame of the chain: its parameters, its classification, and the index
/// of the joint that drives it.
#[derive(Debug)]
pub struct DHRow<P> {
    /// The geometric parameters (a, alpha, d, theta), in the caller's representation.
    pub params: P,
    pub frame_type: FrameType,
    /// Index into the joint array; meaningful for moving frames only.
    pub joint_index: Option<usize>,
}

impl<P: Clone> Clone for DHRow<P> {
    fn clone(&self) -> (copy: Self)
        ensures
            call_ensures(P::clone, (&self.params,), copy.params),
            copy.frame_type == self.frame_type,
            copy.joint_index == self.joint_index,
    {
        DHRow {
            params: self.params.clone(),
            frame_type: self.frame_type,
            joint_index: self.joint_index,
        }
    }
}

impl<P> DHRow<P> {
    pub fn new(params: P, frame_type: FrameType, joint_index: Option<usize>) -> (row: Self)
        ensures
            row == (DHRow { params, frame_type, joint_index }),
    {
        DHRow { params, frame_type, joint_index }
    }

    /// `row` is the row with the parameters `a`, `alpha`, `d`, `theta`, of
    /// which the angles `alpha` and `theta` are given in degrees: its
    /// parameters hold the lengths as they are and the angles in radians.
    pub open spec fn made_from_degrees<S, A: Algebra<P, S>>(
        algebra: A,
        a: S,
        alpha: S,
        d: S,
        theta: S,
        frame_type: FrameType,
        joint_index: Option<usize>,
        row: Self,
    ) -> bool {
        &&& row.frame_type == frame_type
        &&& row.joint_index == joint_index
        &&& exists|alpha_rad: S, theta_rad: S|
            {
                &&& #[trigger] call_ensures(A::to_radians, (&algebra, alpha), alpha_rad)
                &&& #[trigger] call_ensures(A::to_radians, (&algebra, theta), theta_rad)
                &&& call_ensures(
                    A::parameters,
                    (&algebra, a, alpha_rad, d, theta_rad),
                    row.params,
                )
            }
    }

    /// Makes a row from its four parameters, with `alpha` and `theta` given
    /// in degrees. The angles are stored in radians.
    pub fn from_degrees<S, A: Algebra<P, S>>(
        algebra: &A,
        a: S,
        alpha: S,
        d: S,
        theta: S,
        frame_type: FrameType,
        joint_index: Option<usize>,
    ) -> (row: Self)
        ensures
            Self::made_from_degrees(*algebra, a, alpha, d, theta, frame_type, joint_index, row),
    {
        let alpha_rad = algebra.to_radians(alpha);
        let theta_rad = algebra.to_radians(theta);
        let params = algebra.parameters(a, alpha_rad, d, theta_rad);
        DHRow { params, frame_type, joint_index }
    }

    /// `after` are the parameters `before` with the link length `a`, the
    /// link twist `alpha`, the link offset `d` or the joint angle `theta`
    /// replaced: each of the four is the new value where one is given, and
    /// the old value where none is. Angles are in radians.
    pub open spec fn reparametrized<S, A: Algebra<P, S>>(
        algebra: A,
        before: P,
        new_a: Option<S>,
        new_alpha: Option<S>,
        new_d: Option<S>,
        new_theta: Option<S>,
        after: P,
    ) -> bool {
        exists|a: S, alpha: S, d: S, theta: S| #[trigger]
            call_ensures(A::components, (&algebra, &before), (a, alpha, d, theta)) && call_ensures(
                A::parameters,
                (
                    &algebra,
                    if new_a is Some {
                        new_a->0
                    } else {
                        a
                    },
                    if new_alpha is Some {
                        new_alpha->0
                    } else {
                        alpha
                    },
                    if new_d is Some {
                        new_d->0
                    } else {
                        d
                    },
                    if new_theta is Some {
                        new_theta->0
                    } else {
                        theta
                    },
                ),
                after,
            )
    }

    /// Replaces the link length `a` of the row.
    pub fn set_new_a<S, A: Algebra<P, S>>(&mut self, algebra: &A, new_a: S)
        ensures
            final(self).frame_type == old(self).frame_type,
            final(self).joint_index == old(self).joint_index,
            Self::reparametrized(
                *algebra,
                old(self).params,
                Some(new_a),
                None,
                None,
                None,
                final(self).params,
            ),
    {
        let parts = algebra.components(&self.params);
        assert(parts == (parts.0, parts.1, parts.2, parts.3));
        self.params = algebra.parameters(new_a, parts.1, parts.2, parts.3);
    }

    /// Replaces the link twist `alpha` of the row by an angle given in degrees.
    pub fn set_new_alpha<S, A: Algebra<P, S>>(&mut self, algebra: &A, new_alpha: S)
        ensures
            final(self).frame_type == old(self).frame_type,
            final(self).joint_index == old(self).joint_index,
            exists|radians: S| #[trigger]
                call_ensures(A::to_radians, (algebra, new_alpha), radians) && Self::reparametrized(
                    *algebra,
                    old(self).params,
                    None,
                    Some(radians),
                    None,
                    None,
                    final(self).params,
                ),
    {
        let radians = algebra.to_radians(new_alpha);
        let parts = algebra.components(&self.params);
        assert(parts == (parts.0, parts.1, parts.2, parts.3));
        self.params = algebra.parameters(parts.0, radians, parts.2, parts.3);
    }

    /// Replaces the joint angle `theta` of the row by an angle given in degrees.
    pub fn set_new_theta<S, A: Algebra<P, S>>(&mut self, algebra: &A, new_theta: S)
        ensures
            final(self).frame_type == old(self).frame_type,
            final(self).joint_index == old(self).joint_index,
            exists|radians: S| #[trigger]
                call_ensures(A::to_radians, (algebra, new_theta), radians) && Self::reparametrized(
                    *algebra,
                    old(self).params,
                    None,
                    None,
                    None,
                    Some(radians),
                    final(self).params,
                ),
    {
        let radians = algebra.to_radians(new_theta);
        let parts = algebra.components(&self.params);
        assert(parts == (parts.0, parts.1, parts.2, parts.3));
        self.params = algebra.parameters(parts.0, parts.1, parts.2, radians);
    }

    /// Replaces the link offset `d` of the row.
    pub fn set_new_d<S, A: Algebra<P, S>>(&mut self, algebra: &A, new_d: S)
        ensures
            final(self).frame_type == old(self).frame_type,
            final(self).joint_index == old(self).joint_index,
            Self::reparametrized(
                *algebra,
                old(self).params,
                None,
                None,
                Some(new_d),
                None,
                final(self).params,
            ),
    {
        let parts = algebra.components(&self.params);
        assert(parts == (parts.0, parts.1, parts.2, parts.3));
        self.params = algebra.parameters(parts.0, parts.1, new_d, parts.3);
    }

    /// The link twist `alpha` of the row in degrees.
    pub fn alpha_deg<S, A: Algebra<P, S>>(&self, algebra: &A) -> (degrees: S)
        ensures
            exists|a: S, alpha: S, d: S, theta: S| #[trigger]
                call_ensures(A::components, (algebra, &self.params), (a, alpha, d, theta))
                    && call_ensures(A::to_degrees, (algebra, alpha), degrees),
    {
        let parts = algebra.components(&self.params);
        assert(parts == (parts.0, parts.1, parts.2, parts.3));
        algebra.to_degrees(parts.1)
    }

    /// The joint angle `theta` of the row in degrees.
    pub fn theta_deg<S, A: Algebra<P, S>>(&self, algebra: &A) -> (degrees: S)
        ensures
            exists|a: S, alpha: S, d: S, theta: S| #[trigger]
                call_ensures(A::components, (algebra, &self.params), (a, alpha, d, theta))
                    && call_ensures(A::to_degrees, (algebra, theta), degrees),
    {
        let parts = algebra.components(&self.params);
        assert(parts == (parts.0, parts.1, parts.2, parts.3));
        algebra.to_degrees(parts.3)
    }

    /// A moving row is dangling when it names no joint among `joint_count` joints.
    pub open spec fn dangling(self, joint_count: int) -> bool {
        self.frame_type.moves() && !(self.joint_index matches Some(k) && k < joint_count)
    }

    /// The state of the joint that drives this row, looked up in `joints`:
    /// none for a fixed row, and none for a row that names no entry of `joints`.
    pub fn joint_in<'a, Q>(&self, joints: &'a [Q]) -> (joint: Option<&'a Q>)
        ensures
            match joint {
                Some(state) => {
                    &&& self.frame_type.moves()
                    &&& !self.dangling(joints@.len() as int)
                    &&& *state == joints@[self.joint_index->0 as int]
                },
                None => !self.frame_type.moves() || self.dangling(joints@.len() as int),
            },
    {
        if self.frame_type.is_joint() {
            match self.joint_index {
                Some(k) => {
                    if k < joints.len() {
                        Some(&joints[k])
                    } else {
                        None
                    }
                },
                None => None,
            }
        } else {
            None
        }
    }

    /// The position of the joint that drives this row, among the joints
    /// `joints`: none for a row that no joint of them drives.
    pub open spec fn joint_variable_of<S: PartialOrd + Copy>(self, joints: Seq<Joint<S>>) -> Option<S> {
        if self.frame_type.moves() && !self.dangling(joints.len() as int) {
            Some(joints[self.joint_index->0 as int]@.position)
        } else {
            None
        }
    }

    /// Reads the position of the joint that drives this row.
    pub fn joint_variable<S: PartialOrd + Copy>(&self, joints: &[Joint<S>]) -> (q: Option<S>)
        ensures
            q == self.joint_variable_of(joints@),
    {
        match self.joint_in(joints) {
            Some(joint) => Some(joint.position()),
            None => None,
        }
    }

    /// `out` is the transform of this row with its joint at `q`:
    /// Translate(a,0,0) · RotateX(alpha) · Translate(0,0,d) · RotateZ(theta),
    /// multiplied from the left to the right, where the joint variable is
    /// added to `d` of a prismatic row, to `theta` of a revolute row, and to
    /// nothing of a fixed row.
    pub open spec fn transforms_to<S, A: Algebra<P, S>>(
        self,
        algebra: A,
        q: Option<S>,
        out: A::Transform,
    ) -> bool {
        exists|
            tx: A::Transform,
            rx: A::Transform,
            tz: A::Transform,
            rz: A::Transform,
            tx_rx: A::Transform,
            tx_rx_tz: A::Transform,
        |
            {
                &&& call_ensures(A::translate_x, (&algebra, &self.params), tx)
                &&& call_ensures(A::rotate_x, (&algebra, &self.params), rx)
                &&& call_ensures(
                    A::translate_z,
                    (&algebra, &self.params, self.frame_type.d_term(q)),
                    tz,
                )
                &&& call_ensures(
                    A::rotate_z,
                    (&algebra, &self.params, self.frame_type.theta_term(q)),
                    rz,
                )
                &&& #[trigger] call_ensures(A::compose, (&algebra, &tx, &rx), tx_rx)
                &&& #[trigger] call_ensures(A::compose, (&algebra, &tx_rx, &tz), tx_rx_tz)
                &&& #[trigger] call_ensures(A::compose, (&algebra, &tx_rx_tz, &rz), out)
            }
    }

    /// Computes the transform of this row with its joint at `joint_variable`.
    /// Exactly one parameter of a moving row takes the joint variable; a
    /// fixed row is evaluated from its constants alone.
    pub fn get_row_trans_mat<S, A: Algebra<P, S>>(&self, algebra: &A, joint_variable: Option<S>) -> (out:
        A::Transform)
        ensures
            self.transforms_to(*algebra, joint_variable, out),
    {
        let (d_term, theta_term) = match self.frame_type.joint_variable() {
            Some(JointVariable::Theta) => (None, joint_variable),
            Some(JointVariable::D) => (joint_variable, None),
            None => (None, None),
        };
        let tx = algebra.translate_x(&self.params);
        let rx = algebra.rotate_x(&self.params);
        let tz = algebra.translate_z(&self.params, d_term);
        let rz = algebra.rotate_z(&self.params, theta_term);
        let tx_rx = algebra.compose(&tx, &rx);
        let tx_rx_tz = algebra.compose(&tx_rx, &tz);
        algebra.compose(&tx_rx_tz, &rz)
    }

    /// Tells whether this row fails to name one of `joint_count` joints although it moves.
    pub fn is_dangling(&self, joint_count: usize) -> (r: bool)
        ensures
            r == self.dangling(joint_count as int),
    {
        if self.frame_type.is_joint() {
            match self.joint_index {
                Some(k) => k >= joint_count,
                None => true,
            }
        } else {
            false
        }
    }
}

/// The indices of the moving rows, in chain order.
pub open spec fn joint_rows<P>(rows: Seq<DHRow<P>>) -> Seq<int>
    decreases rows.len(),
{
    if rows.len() == 0 {
        Seq::empty()
    } else {
        let before = joint_rows(rows.drop_last());
        if rows.last().frame_type.moves() {
            before.push(rows.len() - 1)
        } else {
            before
        }
    }
}

/// What `check_chain` answers for the rows and a number of joints: the first
/// failure in the order empty chain, joint count, dangling frame.
pub open spec fn chain_verdict<P>(
    rows: Seq<DHRow<P>>,
    joint_count: usize,
    r: Result<(), ConfigError>,
) -> bool {
    match r {
        Ok(()) => {
            &&& rows.len() > 0
            &&& joint_rows(rows).len() == joint_count
            &&& forall|k: int| 0 <= k < rows.len() ==> !(#[trigger] rows[k]).dangling(joint_count as int)
        },
        Err(ConfigError::EmptyChain) => rows.len() == 0,
        Err(ConfigError::LengthMismatch { expected, provided }) => {
            &&& rows.len() > 0
            &&& expected == joint_rows(rows).len()
            &&& provided == joint_count
            &&& expected != provided
        },
        Err(ConfigError::InvalidJointReference { frame }) => {
            &&& joint_rows(rows).len() == joint_count
            &&& frame < rows.len()
            &&& rows[frame as int].dangling(joint_count as int)
            &&& forall|k: int| 0 <= k < frame ==> !(#[trigger] rows[k]).dangling(joint_count as int)
        },
    }
}

/// The moving rows are numbered by no more indices than there are rows.
pub proof fn lemma_joint_rows_bounded<P>(rows: Seq<DHRow<P>>)
    ensures
        joint_rows(rows).len() <= rows.len(),
    decreases rows.len(),
{
    if rows.len() > 0 {
        lemma_joint_rows_bounded(rows.drop_last());
    }
}

/// `joint_rows` lists exactly the moving rows, each once, in ascending order:
/// every entry is the index of a moving row, entries grow strictly, and every
/// moving row is listed.
pub proof fn lemma_joint_rows_exact<P>(rows: Seq<DHRow<P>>)
    ensures
        forall|c: int|
            0 <= c < joint_rows(rows).len() ==> {
                &&& 0 <= (#[trigger] joint_rows(rows)[c]) < rows.len()
                &&& rows[joint_rows(rows)[c]].frame_type.moves()
            },
        forall|a: int, b: int|
            0 <= a < b < joint_rows(rows).len() ==> joint_rows(rows)[a] < joint_rows(rows)[b],
        forall|k: int|
            0 <= k < rows.len() && (#[trigger] rows[k]).frame_type.moves() ==> joint_rows(
                rows,
            ).contains(k),
    decreases rows.len(),
{
    if rows.len() > 0 {
        let front = rows.drop_last();
        let before = joint_rows(front);
        let all = joint_rows(rows);
        lemma_joint_rows_exact(front);
        let last = rows.len() - 1;
        assert forall|c: int| 0 <= c < all.len() implies {
            &&& 0 <= (#[trigger] all[c]) < rows.len()
            &&& rows[all[c]].frame_type.moves()
        } by {
            if c < before.len() {
                assert(all[c] == before[c]);
                assert(front[before[c]] == rows[before[c]]);
            }
        }
        assert forall|a: int, b: int| 0 <= a < b < all.len() implies all[a] < all[b] by {
            assert(all[a] == before[a]);
            if b < before.len() {
                assert(all[b] == before[b]);
            }
        }
        assert forall|k: int| 0 <= k < rows.len() && (#[trigger] rows[k]).frame_type.moves() implies all.contains(
            k,
        ) by {
            if k < last {
                assert(front[k] == rows[k]);
                let c = choose|c: int| 0 <= c < before.len() && before[c] == k;
                assert(all[c] == k);
            } else {
                assert(all[all.len() - 1] == k);
            }
        }
    }
}

/// Taking one more row appends its index to the moving rows if it moves, and
/// leaves them as they are if it is fixed.
pub proof fn lemma_joint_rows_step<P>(rows: Seq<DHRow<P>>, k: int)
    requires
        0 <= k < rows.len(),
    ensures
        joint_rows(rows.take(k + 1)) == if rows[k].frame_type.moves() {
            joint_rows(rows.take(k)).push(k)
        } else {
            joint_rows(rows.take(k))
        },
{
    assert(rows.take(k + 1).drop_last() == rows.take(k));
}

/// The answer of `check_chain` is determined by the rows and the number of
/// joints: two answers that both fit are the same answer.
pub proof fn lemma_chain_verdict_unique<P>(
    rows: Seq<DHRow<P>>,
    joint_count: usize,
    first: Result<(), ConfigError>,
    second: Result<(), ConfigError>,
)
    requires
        chain_verdict(rows, joint_count, first),
        chain_verdict(rows, joint_count, second),
    ensures
        first == second,
{
    match (first, second) {
        (
            Err(ConfigError::InvalidJointReference { frame: a }),
            Err(ConfigError::InvalidJointReference { frame: b }),
        ) => {
            if a < b {
                assert(!rows[a as int].dangling(joint_count as int));
            } else if b < a {
                assert(!rows[b as int].dangling(joint_count as int));
            }
        },
        (Err(ConfigError::InvalidJointReference { frame: a }), Ok(())) => {
            assert(!rows[a as int].dangling(joint_count as int));
        },
        (Ok(()), Err(ConfigError::InvalidJointReference { frame: b })) => {
            assert(!rows[b as int].dangling(joint_count as int));
        },
        (Ok(a), Ok(b)) => {
            assert(a == b);
        },
        _ => {},
    }
}

/// The ordered rows of a chain, base first.
#[derive(Debug)]
pub struct DHTable<P> {
    rows: Vec<DHRow<P>>,
    num_joints: usize,
}

impl<P> View for DHTable<P> {
    type V = Seq<DHRow<P>>;

    closed spec fn view(&self) -> Seq<DHRow<P>> {
        self.rows@
    }
}

impl<P> DHTable<P> {
    #[verifier::type_invariant]
    spec fn counted(self) -> bool {
        self.num_joints == joint_rows(self.rows@).len()
    }

    /// A table without rows. It becomes a chain with the first inserted row.
    pub fn new_empty() -> (table: Self)
        ensures
            table@ == Seq::<DHRow<P>>::empty(),
    {
        DHTable { rows: Vec::new(), num_joints: 0 }
    }

    /// Appends `row` as the new tip of the chain.
    pub fn insert_row(&mut self, row: DHRow<P>)
        ensures
            final(self)@ == old(self)@.push(row),
    {
        // The rows and their count change together, so the table is rebuilt
        // from its parts rather than updated field by field.
        let mut taken = DHTable { rows: Vec::new(), num_joints: 0 };
        core::mem::swap(&mut taken, self);
        proof {
            use_type_invariant(&taken);
            lemma_joint_rows_bounded(taken.rows@);
        }
        let DHTable { rows, num_joints } = taken;
        let mut rows = rows;
        let moving = row.frame_type.is_joint();
        rows.push(row);
        let frames: usize = rows.len();
        assert(num_joints < frames);
        assert(rows@.drop_last() == old(self).rows@);
        let count: usize = if moving {
            num_joints + 1
        } else {
            num_joints
        };
        *self = DHTable { rows, num_joints: count };
    }

    /// Number of joints: how many revolute and prismatic rows there are.
    pub fn num_joints(&self) -> (n: usize)
        ensures
            n == joint_rows(self@).len(),
    {
        proof {
            use_type_invariant(self);
        }
        self.num_joints
    }

    pub fn num_frames(&self) -> (n: usize)
        ensures
            n == self@.len(),
    {
        self.rows.len()
    }

    /// The row of frame `index`.
    pub fn row(&self, index: usize) -> (row: &DHRow<P>)
        requires
            index < self@.len(),
        ensures
            *row == self@[index as int],
    {
        &self.rows[index]
    }

    /// Returns the indices of the rows that correspond to joints (revolute or
    /// prismatic), in chain order.
    pub fn joint_indices(&self) -> (indices: Vec<usize>)
        ensures
            indices@.len() == joint_rows(self@).len(),
            forall|c: int| 0 <= c < indices@.len() ==> indices@[c] == joint_rows(self@)[c],
    {
        let mut indices: Vec<usize> = Vec::new();
        let mut k: usize = 0;
        while k < self.rows.len()
            invariant
                0 <= k <= self.rows.len(),
                indices@.len() == joint_rows(self@.take(k as int)).len(),
                forall|c: int|
                    0 <= c < indices@.len() ==> indices@[c] == joint_rows(self@.take(k as int))[c],
            decreases self.rows.len() - k,
        {
            proof {
                lemma_joint_rows_step(self@, k as int);
            }
            if self.rows[k].frame_type.is_joint() {
                indices.push(k);
            }
            k += 1;
        }
        assert(self@.take(k as int) == self@);
        indices
    }

    /// Checks that the table can serve an arm with `joint_count` joints: it
    /// has at least one frame, as many moving frames as there are joints, and
    /// every moving frame names one of the joints. The first of these that
    /// fails is reported, a dangling frame by the lowest index.
    pub fn check_chain(&self, joint_count: usize) -> (r: Result<(), ConfigError>)
        ensures
            chain_verdict(self@, joint_count, r),
    {
        proof {
            use_type_invariant(self);
        }
        if self.rows.len() == 0 {
            return Err(ConfigError::EmptyChain);
        }
        if self.num_joints != joint_count {
            return Err(
                ConfigError::LengthMismatch { expected: self.num_joints, provided: joint_count },
            );
        }
        let mut k: usize = 0;
        while k < self.rows.len()
            invariant
                0 <= k <= self.rows.len(),
                self@.len() > 0,
                joint_rows(self@).len() == joint_count,
                forall|i: int| 0 <= i < k ==> !(#[trigger] self@[i]).dangling(joint_count as int),
            decreases self.rows.len() - k,
        {
            if self.rows[k].is_dangling(joint_count) {
                return Err(ConfigError::InvalidJointReference { frame: k });
            }
            k += 1;
        }
        Ok(())
    }
}

} // verus!
