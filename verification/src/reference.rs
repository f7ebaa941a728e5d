//! The reference pose of the task-space controller and its two modes.
//!
//! While a task-space velocity is commanded the controller is tracking: the
//! reference is integrated forward every cycle, and its rotation is
//! re-orthonormalized every `orthonorm_interval` tracking cycles. Once the
//! command falls to zero the controller is holding: the reference is set to
//! the pose of the end effector, once, and then stays as it is until a
//! velocity is commanded again.
//!
//! The reference pose is a value of the caller's type `R`, a speed a value of
//! the caller's scalar type `S`.

use vstd::prelude::*;
use vstd::std_specs::cmp::PartialOrdSpec;
use crate::scalar::{above, answers_greater};

verus! {

/// Number of tracking cycles between two re-orthonormalizations, unless the
/// tracker is made with another.
pub const DEFAULT_ORTHONORM_INTERVAL: usize = 50;

/// What a control cycle did to the reference.
#[derive(Clone, Copy, Debug, PartialEq, Eq, Structural)]
pub enum CycleOutcome {
    /// Holding before and after: the reference is untouched.
    Held,
    /// Tracking turned into holding: the reference is now the current pose.
    Captured,
    /// Tracking: the reference was integrated forward.
    Integrated,
    /// Tracking: the reference was integrated forward and re-orthonormalized.
    Reorthonormalized,
}

impl CycleOutcome {
    /// The cycle took the commanded velocity for a command.
    pub open spec fn tracking(self) -> bool {
        self is Integrated || self is Reorthonormalized
    }

    /// True if the reference was integrated in this cycle.
    pub fn is_tracking(&self) -> (tracking: bool)
        ensures
            tracking == self.tracking(),
    {
        match self {
            CycleOutcome::Integrated => true,
            CycleOutcome::Reorthonormalized => true,
            _ => false,
        }
    }
}

/// The state of a tracker as contracts see it.
pub struct TrackerState<R, S> {
    pub reference: R,
    pub holding: bool,
    /// The speed that a commanded velocity must exceed to count as a command.
    pub epsilon: S,
    /// Tracking cycles since the reference was last re-orthonormalized.
    pub phase: nat,
    /// Tracking cycles between two re-orthonormalizations.
    pub interval: nat,
}

/// A velocity is commanded when its linear or its angular speed is above the
/// threshold; the controller holds only when neither is.
pub open spec fn commanded<S: PartialOrd>(linear_speed: S, angular_speed: S, epsilon: S) -> bool {
    above(linear_speed, epsilon) || above(angular_speed, epsilon)
}

/// `active` is what comparing both speeds with the threshold by `>` gives:
/// true if either comparison answers true.
pub open spec fn commands<S: PartialOrd>(
    linear_speed: S,
    angular_speed: S,
    epsilon: S,
    active: bool,
) -> bool {
    exists|linear: bool, angular: bool|
        {
            &&& #[trigger] answers_greater(linear_speed, epsilon, linear)
            &&& #[trigger] answers_greater(angular_speed, epsilon, angular)
            &&& active == (linear || angular)
        }
}

/// A tracking cycle in this phase ends with a re-orthonormalization.
pub open spec fn due(phase: nat, interval: nat) -> bool {
    phase + 1 == interval
}

/// The phase after one more tracking cycle.
pub open spec fn next_phase(phase: nat, interval: nat) -> nat {
    if due(phase, interval) {
        0
    } else {
        phase + 1
    }
}

/// The state after a cycle without command, with the end effector at `current`.
pub open spec fn held<R, S>(state: TrackerState<R, S>, current: R) -> TrackerState<R, S> {
    TrackerState {
        reference: if state.holding {
            state.reference
        } else {
            current
        },
        holding: true,
        ..state
    }
}

/// The state after a tracking cycle that left the reference at `reference`.
pub open spec fn advanced<R, S>(state: TrackerState<R, S>, reference: R) -> TrackerState<R, S> {
    TrackerState {
        reference,
        holding: false,
        phase: next_phase(state.phase, state.interval),
        ..state
    }
}

/// The state after as many cycles without command as `currents` has entries,
/// the end effector being at `currents[k]` in cycle `k`.
pub open spec fn held_through<R, S>(state: TrackerState<R, S>, currents: Seq<R>) -> TrackerState<
    R,
    S,
>
    decreases currents.len(),
{
    if currents.len() == 0 {
        state
    } else {
        held(held_through(state, currents.drop_last()), currents.last())
    }
}

/// The phase after `cycles` tracking cycles in a row.
pub open spec fn phase_after(phase: nat, interval: nat, cycles: nat) -> nat
    decreases cycles,
{
    if cycles == 0 {
        phase
    } else {
        next_phase(phase_after(phase, interval, (cycles - 1) as nat), interval)
    }
}

/// Holding is stable. From the first cycle without command on the tracker
/// is holding, and however many such cycles follow and wherever the end
/// effector moves meanwhile, the reference stays exactly what the first of
/// them left: the old reference if the tracker was holding already, else the
/// pose at that first cycle. The phase does not advance.
pub proof fn lemma_hold_keeps_reference<R, S>(state: TrackerState<R, S>, currents: Seq<R>)
    requires
        currents.len() >= 1,
    ensures
        held_through(state, currents) == held(state, currents[0]),
        held_through(state, currents).holding,
    decreases currents.len(),
{
    let front = currents.drop_last();
    if front.len() == 0 {
        assert(held_through(state, front) == state);
    } else {
        lemma_hold_keeps_reference(state, front);
        assert(front[0] == currents[0]);
    }
}

/// The phase counts tracking cycles modulo the interval, so that of the
/// tracking cycles that follow a re-orthonormalization (or the start), the
/// ones that re-orthonormalize are exactly the multiples of the interval: the
/// `interval`-th cycle does, and no cycle before it.
pub proof fn lemma_orthonormalization_schedule(interval: nat, cycle: nat)
    requires
        interval > 0,
        cycle > 0,
    ensures
        phase_after(0, interval, cycle) == cycle % interval,
        due(phase_after(0, interval, (cycle - 1) as nat), interval) <==> cycle % interval == 0,
    decreases cycle,
{
    let before = (cycle - 1) as nat;
    if before > 0 {
        lemma_orthonormalization_schedule(interval, before);
    }
    assert(phase_after(0, interval, before) == before % interval) by {
        if before == 0 {
            vstd::arithmetic::div_mod::lemma_small_mod(0, interval);
        }
    }
    lemma_successor_modulo(before, interval);
}

/// The remainder of a successor: it wraps to zero exactly where the remainder
/// was one below the modulus.
proof fn lemma_successor_modulo(n: nat, m: nat)
    requires
        m > 0,
    ensures
        (n + 1) % m == if n % m + 1 == m {
            0
        } else {
            n % m + 1
        },
{
    vstd::arithmetic::div_mod::lemma_fundamental_div_mod(n as int, m as int);
    vstd::arithmetic::div_mod::lemma_mod_bound(n as int, m as int);
    let q = n as int / m as int;
    let r = n as int % m as int;
    if r + 1 == m {
        assert(n + 1 == (q + 1) * m) by (nonlinear_arith)
            requires
                n == m * q + r,
                r + 1 == m,
        ;
        vstd::arithmetic::div_mod::lemma_mod_multiples_basic(q + 1, m as int);
    } else {
        assert(n + 1 == q * m + (r + 1)) by (nonlinear_arith)
            requires
                n == m * q + r,
        ;
        vstd::arithmetic::div_mod::lemma_fundamental_div_mod_converse(
            n as int + 1,
            m as int,
            q,
            r + 1,
        );
    }
}

/// The reference pose of a task-space controller, with its mode and the
/// schedule of re-orthonormalizations.
pub struct ReferenceTracker<R, S: PartialOrd + Copy> {
    reference: R,
    holding: bool,
    epsilon: S,
    cycle_count: usize,
    orthonorm_interval: usize,
}

impl<R, S: PartialOrd + Copy> View for ReferenceTracker<R, S> {
    type V = TrackerState<R, S>;

    closed spec fn view(&self) -> TrackerState<R, S> {
        TrackerState {
            reference: self.reference,
            holding: self.holding,
            epsilon: self.epsilon,
            phase: self.cycle_count as nat,
            interval: self.orthonorm_interval as nat,
        }
    }
}

impl<R, S: PartialOrd + Copy> ReferenceTracker<R, S> {
    #[verifier::type_invariant]
    spec fn scheduled(self) -> bool {
        self.cycle_count < self.orthonorm_interval
    }

    /// A tracker that starts out tracking from `initial`, takes speeds above
    /// `epsilon` for commands, and has the default interval between
    /// re-orthonormalizations.
    pub fn new(initial: R, epsilon: S) -> (tracker: Self)
        ensures
            tracker@ == (TrackerState {
                reference: initial,
                holding: false,
                epsilon,
                phase: 0,
                interval: DEFAULT_ORTHONORM_INTERVAL as nat,
            }),
    {
        ReferenceTracker {
            reference: initial,
            holding: false,
            epsilon,
            cycle_count: 0,
            orthonorm_interval: DEFAULT_ORTHONORM_INTERVAL,
        }
    }

    /// A tracker that re-orthonormalizes every `orthonorm_interval` tracking
    /// cycles. The interval must be at least one cycle.
    pub fn with_interval(initial: R, epsilon: S, orthonorm_interval: usize) -> (tracker: Self)
        requires
            orthonorm_interval > 0,
        ensures
            tracker@ == (TrackerState {
                reference: initial,
                holding: false,
                epsilon,
                phase: 0,
                interval: orthonorm_interval as nat,
            }),
    {
        ReferenceTracker {
            reference: initial,
            holding: false,
            epsilon,
            cycle_count: 0,
            orthonorm_interval,
        }
    }

    /// True while the reference is frozen.
    pub fn holding(&self) -> (holding: bool)
        ensures
            holding == self@.holding,
    {
        self.holding
    }

    /// The reference pose.
    pub fn reference(&self) -> (reference: &R)
        ensures
            *reference == self@.reference,
    {
        &self.reference
    }

    /// The speed that a commanded velocity must exceed to count as a command.
    pub fn epsilon(&self) -> (epsilon: S)
        ensures
            epsilon == self@.epsilon,
    {
        self.epsilon
    }

    /// Tracking cycles between two re-orthonormalizations.
    pub fn orthonorm_interval(&self) -> (interval: usize)
        ensures
            interval == self@.interval,
            interval > 0,
    {
        proof {
            use_type_invariant(self);
        }
        self.orthonorm_interval
    }

    /// Tracking cycles since the last re-orthonormalization.
    pub fn cycle_count(&self) -> (count: usize)
        ensures
            count == self@.phase,
            count < self@.interval,
    {
        proof {
            use_type_invariant(self);
        }
        self.cycle_count
    }

    /// Runs the reference through one control cycle.
    ///
    /// `linear_speed` and `angular_speed` are the norms of the commanded
    /// linear and angular velocity, and `current` is the pose of the end
    /// effector in this cycle. A velocity is a command if either speed is
    /// greater than the threshold of the tracker.
    ///
    /// Without command the tracker holds: on the first such cycle the
    /// reference becomes `current`, on later ones it is left untouched.
    /// With a command the tracker tracks: the reference is replaced by what
    /// `integrate` makes of it, and on every `orthonorm_interval`-th tracking
    /// cycle that result is passed through `orthonormalize` as well.
    pub fn step<I: FnOnce(&R) -> R, N: FnOnce(R) -> R>(
        &mut self,
        linear_speed: S,
        angular_speed: S,
        current: R,
        integrate: I,
        orthonormalize: N,
    ) -> (outcome: CycleOutcome)
        requires
            call_requires(integrate, (&old(self)@.reference,)),
            forall|integrated: R|
                call_ensures(integrate, (&old(self)@.reference,), integrated) ==> call_requires(
                    orthonormalize,
                    (integrated,),
                ),
        ensures
            commands(linear_speed, angular_speed, old(self)@.epsilon, outcome.tracking()),
            S::obeys_partial_cmp_spec() ==> outcome.tracking() == commanded(
                linear_speed,
                angular_speed,
                old(self)@.epsilon,
            ),
            !outcome.tracking() ==> {
                &&& final(self)@ == held(old(self)@, current)
                &&& outcome == if old(self)@.holding {
                    CycleOutcome::Held
                } else {
                    CycleOutcome::Captured
                }
            },
            outcome.tracking() ==> {
                &&& final(self)@ == advanced(old(self)@, final(self)@.reference)
                &&& exists|integrated: R| #[trigger]
                    call_ensures(integrate, (&old(self)@.reference,), integrated) && if due(
                        old(self)@.phase,
                        old(self)@.interval,
                    ) {
                        &&& call_ensures(orthonormalize, (integrated,), final(self)@.reference)
                        &&& outcome == CycleOutcome::Reorthonormalized
                    } else {
                        &&& final(self)@.reference == integrated
                        &&& outcome == CycleOutcome::Integrated
                    }
            },
    {
        proof {
            use_type_invariant(&*self);
        }
        let linear = linear_speed > self.epsilon;
        let angular = angular_speed > self.epsilon;
        assert(answers_greater(linear_speed, self.epsilon, linear));
        assert(answers_greater(angular_speed, self.epsilon, angular));
        if linear || angular {
            let integrated = integrate(&self.reference);
            self.holding = false;
            if self.cycle_count + 1 == self.orthonorm_interval {
                let renewed = orthonormalize(integrated);
                self.reference = renewed;
                self.cycle_count = 0;
                CycleOutcome::Reorthonormalized
            } else {
                self.reference = integrated;
                self.cycle_count = self.cycle_count + 1;
                CycleOutcome::Integrated
            }
        } else if self.holding {
            CycleOutcome::Held
        } else {
            self.reference = current;
            self.holding = true;
            CycleOutcome::Captured
        }
    }
}

} // verus!
