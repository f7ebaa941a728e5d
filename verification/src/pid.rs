//! The memory of a PID law: the integral of the error, and the error of the
//! cycle before, against which the derivative is taken.

use vstd::prelude::*;

verus! {

/// The errors that a PID law carries from one cycle to the next.
pub struct PidState<E> {
    integral_error: E,
    prev_error: E,
}

impl<E> View for PidState<E> {
    /// The pair (integral of the error, error of the cycle before).
    type V = (E, E);

    closed spec fn view(&self) -> (E, E) {
        (self.integral_error, self.prev_error)
    }
}

impl<E> PidState<E> {
    /// A state with the given integral and previous error, both zero for a
    /// controller that starts afresh.
    pub fn new(integral_error: E, prev_error: E) -> (state: Self)
        ensures
            state@ == (integral_error, prev_error),
    {
        PidState { integral_error, prev_error }
    }

    /// Forgets what was accumulated: the integral and the previous error are
    /// set to the given values.
    pub fn reset(&mut self, integral_error: E, prev_error: E)
        ensures
            final(self)@ == (integral_error, prev_error),
    {
        self.integral_error = integral_error;
        self.prev_error = prev_error;
    }

    /// The accumulated integral of the error.
    pub fn integral_error(&self) -> (integral_error: &E)
        ensures
            *integral_error == self@.0,
    {
        &self.integral_error
    }

    /// The error of the cycle before.
    pub fn prev_error(&self) -> (prev_error: &E)
        ensures
            *prev_error == self@.1,
    {
        &self.prev_error
    }

    /// One cycle of the law for the error `error`.
    ///
    /// The integral is accumulated first: `accumulate` makes the new
    /// integral of the old one and the error. The command is then what `law`
    /// makes of the error, the new integral, and the error of the cycle
    /// before, against which it takes the derivative. Last, the error is
    /// remembered for the next cycle.
    pub fn update<U, A: FnOnce(&E, &E) -> E, L: FnOnce(&E, &E, &E) -> U>(
        &mut self,
        error: E,
        accumulate: A,
        law: L,
    ) -> (command: U)
        requires
            call_requires(accumulate, (&old(self)@.0, &error)),
            forall|integral: E|
                call_ensures(accumulate, (&old(self)@.0, &error), integral) ==> call_requires(
                    law,
                    (&error, &integral, &old(self)@.1),
                ),
        ensures
            call_ensures(accumulate, (&old(self)@.0, &error), final(self)@.0),
            call_ensures(law, (&error, &final(self)@.0, &old(self)@.1), command),
            final(self)@.1 == error,
    {
        let integral = accumulate(&self.integral_error, &error);
        let command = law(&error, &integral, &self.prev_error);
        self.integral_error = integral;
        self.prev_error = error;
        command
    }
}

} // verus!
