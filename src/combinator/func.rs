//! What the combinators ask of the functions they are given, and how they call them.
use vstd::prelude::*;

use crate::Parser;

verus! {

/// `f` can be called on every value of its argument type.
pub open spec fn total<A, U, F: Fn(A) -> U>(f: F) -> bool {
    forall|a: A| #[trigger] f.requires((a,))
}

/// `f` gives one result for outputs of `P` that have one model.
pub open spec fn respects_model<'input, P: Parser<'input>, U, F: Fn(P::Output) -> U>(f: F) -> bool {
    forall|a: P::Output, b: P::Output, x: U, y: U|
        P::model(a) == P::model(b) && #[trigger] f.ensures((a,), x) && #[trigger] f.ensures((b,), y)
            ==> x == y
}

/// `f` returns `y` on some output of `P` whose model is `model`.
pub open spec fn returns_on_model<'input, P: Parser<'input>, U, F: Fn(P::Output) -> U>(
    f: F,
    model: P::Model,
    y: U,
) -> bool {
    exists|a: P::Output| P::model(a) == model && #[trigger] f.ensures((a,), y)
}

/// What `f` returns on an output of `P` whose model is `model`.
pub open spec fn apply_on_model<'input, P: Parser<'input>, U, F: Fn(P::Output) -> U>(
    f: F,
    model: P::Model,
) -> U {
    choose|y: U| #[trigger] returns_on_model::<'input, P, U, F>(f, model, y)
}

/// Calls `f` on `value`; the result is what the specification gives for the value's model.
pub fn call_on_value<'input, P: Parser<'input>, U, F: Fn(P::Output) -> U>(
    f: F,
    value: P::Output,
) -> (r: U)
    requires
        total(f),
        respects_model::<'input, P, U, F>(f),
    ensures
        r == apply_on_model::<'input, P, U, F>(f, P::model(value)),
{
    let r = f(value);
    proof {
        let m = P::model(value);
        assert(f.ensures((value,), r));
        assert(returns_on_model::<'input, P, U, F>(f, m, r));
        let y = apply_on_model::<'input, P, U, F>(f, m);
        let b = choose|b: P::Output| P::model(b) == m && #[trigger] f.ensures((b,), y);
        assert(f.ensures((value,), r) && f.ensures((b,), y));
    }
    r
}

/// The predicate `f` can be called on every value of its argument type.
pub open spec fn pred_total<A, F: Fn(&A) -> bool>(f: F) -> bool {
    forall|a: A| #[trigger] f.requires((&a,))
}

/// The predicate `f` gives one answer for outputs of `P` that have one model.
pub open spec fn pred_respects_model<'input, P: Parser<'input>, F: Fn(&P::Output) -> bool>(
    f: F,
) -> bool {
    forall|a: P::Output, b: P::Output, x: bool, y: bool|
        P::model(a) == P::model(b) && #[trigger] f.ensures((&a,), x) && #[trigger] f.ensures(
            (&b,),
            y,
        ) ==> x == y
}

/// The predicate `f` holds of an output of `P` whose model is `model`.
pub open spec fn holds_on_model<'input, P: Parser<'input>, F: Fn(&P::Output) -> bool>(
    f: F,
    model: P::Model,
) -> bool {
    exists|a: P::Output| P::model(a) == model && #[trigger] f.ensures((&a,), true)
}

/// The predicate `f` on models.
pub open spec fn keep_by<'input, P: Parser<'input>, F: Fn(&P::Output) -> bool>(f: F) -> spec_fn(
    P::Model,
) -> bool {
    |m: P::Model| holds_on_model::<'input, P, F>(f, m)
}

/// Calls the predicate `f` on `value`; the answer is what the specification gives for the
/// value's model.
pub fn call_predicate<'input, 'v, P: Parser<'input>, F: Fn(&P::Output) -> bool>(
    f: &'v F,
    value: &'v P::Output,
) -> (r: bool)
    where
        F: 'v,
        P::Output: 'v,
    requires
        pred_total(*f),
        pred_respects_model::<'input, P, F>(*f),
    ensures
        r == holds_on_model::<'input, P, F>(*f, P::model(*value)),
        r == keep_by::<'input, P, F>(*f)(P::model(*value)),
{
    let r = f(value);
    proof {
        if !r && holds_on_model::<'input, P, F>(*f, P::model(*value)) {
            let a = choose|a: P::Output| P::model(a) == P::model(*value) && #[trigger] f.ensures((&a,), true);
            assert(f.ensures((value,), r) && f.ensures((&a,), true));
        }
    }
    r
}

/// `f` gives one result for each argument.
pub open spec fn functional<A, U, F: Fn(A) -> U>(f: F) -> bool {
    forall|a: A, x: U, y: U| #[trigger] f.ensures((a,), x) && #[trigger] f.ensures((a,), y) ==> x
        == y
}

/// What `f` returns on `a`.
pub open spec fn apply<A, U, F: Fn(A) -> U>(f: F, a: A) -> U {
    choose|y: U| #[trigger] f.ensures((a,), y)
}

/// Calls `f` on `a`; the result is [`apply`] of it.
pub fn call<A, U, F: Fn(A) -> U>(f: F, a: A) -> (r: U)
    requires
        total(f),
        functional(f),
    ensures
        r == apply(f, a),
{
    let r = f(a);
    proof {
        assert(f.ensures((a,), r));
        let y = apply(f, a);
        assert(f.ensures((a,), y));
    }
    r
}

/// The observer `f` can be called on every value of its argument type.
pub open spec fn observer_total<A, F: Fn(&A)>(f: F) -> bool {
    forall|a: A| #[trigger] f.requires((&a,))
}

} // verus!
