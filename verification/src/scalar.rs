//! The order of the scalars in which positions, velocities and speeds are
//! measured.
//!
//! The crate is generic over the scalar type `S`. It compares scalars with
//! `<` and `>` and takes the answers as the type gives them. Contracts speak
//! of the answers in two ways: through the comparison that was made, which
//! holds for every `S`, and through the order that `S` specifies, which holds
//! where the comparisons of `S` obey that specification.

use vstd::prelude::*;
use vstd::std_specs::cmp::PartialOrdSpec;
use core::cmp::Ordering;

verus! {

/// `x` is less than `y` in the order of `S`.
pub open spec fn below<S: PartialOrd>(x: S, y: S) -> bool {
    x.partial_cmp_spec(&y) == Some(Ordering::Less)
}

/// `x` is greater than `y` in the order of `S`.
pub open spec fn above<S: PartialOrd>(x: S, y: S) -> bool {
    x.partial_cmp_spec(&y) == Some(Ordering::Greater)
}

/// `answer` is what `x < y` can evaluate to.
pub open spec fn answers_less<S: PartialOrd>(x: S, y: S, answer: bool) -> bool {
    call_ensures(S::lt, (&x, &y), answer)
}

/// `answer` is what `x > y` can evaluate to.
pub open spec fn answers_greater<S: PartialOrd>(x: S, y: S, answer: bool) -> bool {
    call_ensures(S::gt, (&x, &y), answer)
}

/// Where the comparisons of `S` obey its order, `x < y` answers whether `x`
/// is below `y`, and `x > y` whether `x` is above `y`.
pub proof fn lemma_answers_follow_order<S: PartialOrd>(x: S, y: S, answer: bool)
    requires
        S::obeys_partial_cmp_spec(),
    ensures
        answers_less(x, y, answer) ==> answer == below(x, y),
        answers_greater(x, y, answer) ==> answer == above(x, y),
{
}

} // verus!
