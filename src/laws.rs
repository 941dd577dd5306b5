//! Properties that hold of every parser and of the combinators, proved from their
//! specifications.
use vstd::prelude::*;

use crate::combinator::func::apply_on_model;
use crate::combinator::repeat::{
    keep_all, lemma_greedy_suffix, lemma_times_suffix, spec_greedy, spec_times,
};
use crate::combinator::{And, Mapped, NToM, Optional, Or};
use crate::parser::agrees;
use crate::{Either, Parser, ParserResult};

verus! {

/// What a successful parse leaves is no longer than its input, and is the input's tail.
pub proof fn lemma_consumption_monotone<'input, P: Parser<'input>>(p: P, input: Seq<u8>)
    ensures
        p.spec_parse(input) matches Ok((rest, _)) ==> rest.len() <= input.len() && rest
            == input.subrange(input.len() - rest.len(), input.len() as int),
{
    p.lemma_consumes_prefix(input);
}

/// Two runs of one parser on one input that fail, fail with the same error: every run agrees
/// with the parser's specification, which depends on the input alone.
pub proof fn lemma_failure_repeatable<'input, P: Parser<'input>>(
    p: P,
    input: &'input [u8],
    first: ParserResult<'input, P::Output, P::Error>,
    second: ParserResult<'input, P::Output, P::Error>,
)
    requires
        agrees::<'input, P>(first, p.spec_parse(input@)),
        agrees::<'input, P>(second, p.spec_parse(input@)),
        first is Err,
    ensures
        second is Err,
        first == second,
{
}

/// Where `p1.and(p2)` succeeds, `p1` succeeded on the input and `p2` on what `p1` left, and the
/// bytes consumed in all are those `p1` consumed and those `p2` consumed.
pub proof fn lemma_and_consumption<'input, P1: Parser<'input>, P2: Parser<'input>>(
    p1: P1,
    p2: P2,
    input: Seq<u8>,
)
    ensures
        (And { first: p1, second: p2 }).spec_parse(input) matches Ok((rest, _)) ==> {
            &&& p1.spec_parse(input) matches Ok((mid, _))
            &&& p2.spec_parse(mid) matches Ok((rest2, _))
            &&& rest2 == rest
            &&& input.len() - rest.len() == (input.len() - mid.len()) + (mid.len() - rest.len())
            &&& mid.len() <= input.len()
            &&& rest.len() <= mid.len()
        },
{
    p1.lemma_consumes_prefix(input);
    if let Ok((mid, _)) = p1.spec_parse(input) {
        p2.lemma_consumes_prefix(mid);
    }
}

/// Where `p1` succeeds, `p1.or(p2)` gives `p1`'s outcome as `Either::A`, whatever the second
/// parser is: the second is not consulted.
pub proof fn lemma_or_short_circuit<'input, P1: Parser<'input>, P2: Parser<'input>>(
    p1: P1,
    p2: P2,
    other: P2,
    input: Seq<u8>,
)
    requires
        p1.spec_parse(input) is Ok,
    ensures
        (Or { first: p1, second: p2 }).spec_parse(input) == (Or {
            first: p1,
            second: other,
        }).spec_parse(input),
        (Or { first: p1, second: p2 }).spec_parse(input) == Ok::<_, (P1::Error, P2::Error)>(
            (
                p1.spec_parse(input)->Ok_0.0,
                Either::<P1::Model, P2::Model>::A(p1.spec_parse(input)->Ok_0.1),
            ),
        ),
{
}

/// `n` mandatory runs fail exactly where fewer than `n` runs succeed in a row.
pub proof fn lemma_times_fail_iff_short<'input, P: Parser<'input>>(p: P, input: Seq<u8>, n: nat)
    ensures
        spec_times(p, input, n) is Err <==> spec_greedy(p, keep_all(), input, n, false).1.len()
            < n,
        spec_times(p, input, n) matches Ok((rest, vs)) ==> spec_greedy(
            p,
            keep_all(),
            input,
            n,
            false,
        ) == (rest, vs),
    decreases n,
{
    if n > 0 {
        if let Ok((rest, v)) = p.spec_parse(input) {
            lemma_times_fail_iff_short(p, rest, (n - 1) as nat);
            assert(keep_all::<P::Model>()(v));
        }
    }
}

/// A successful `n_to_m(n, m)` with `n <= m` produces between `n` and `m` values, and it fails
/// exactly where fewer than `n` runs of the parser succeed in a row.
pub proof fn lemma_n_to_m_bounds<'input, P: Parser<'input>>(
    p: P,
    n: usize,
    m: usize,
    input: Seq<u8>,
)
    requires
        n <= m,
    ensures
        (NToM { parser: p, n, m }).spec_parse(input) matches Ok((_, vs)) ==> n <= vs.len() <= m,
        (NToM { parser: p, n, m }).spec_parse(input) is Err <==> spec_greedy(
            p,
            keep_all(),
            input,
            n as nat,
            false,
        ).1.len() < n,
{
    lemma_times_suffix(p, input, n as nat);
    lemma_times_fail_iff_short(p, input, n as nat);
    if let Ok((rest, vs)) = spec_times(p, input, n as nat) {
        lemma_greedy_suffix(p, keep_all(), rest, (m - n) as nat, false);
    }
}

/// `optional` never fails, and where the parser fails it leaves the input as it was.
pub proof fn lemma_optional_never_fails<'input, P: Parser<'input>>(p: P, input: Seq<u8>)
    ensures
        (Optional { parser: p }).spec_parse(input) is Ok,
        p.spec_parse(input) is Err ==> (Optional { parser: p }).spec_parse(input) == Ok::<
            _,
            core::convert::Infallible,
        >((input, None::<P::Model>)),
{
}

/// Mapping with `f` and then with `g` is mapping with `h`, where `h` returns on a value exactly
/// what `g` returns on what `f` returns on it.
pub proof fn lemma_map_fusion<
    'input,
    P: Parser<'input>,
    U,
    V,
    F: Fn(P::Output) -> U + Copy,
    G: Fn(U) -> V + Copy,
    H: Fn(P::Output) -> V + Copy,
>(p: P, f: F, g: G, h: H, input: Seq<u8>)
    requires
        (Mapped { parser: Mapped { parser: p, f }, f: g }).wf(),
        (Mapped { parser: p, f: h }).wf(),
        forall|a: P::Output, z: V| #[trigger]
            h.ensures((a,), z) <==> exists|y: U| #[trigger] f.ensures((a,), y) && g.ensures((y,), z),
        forall|a: P::Output| #[trigger] f.requires((a,)) ==> exists|y: U| f.ensures((a,), y),
        forall|y: U| #[trigger] g.requires((y,)) ==> exists|z: V| g.ensures((y,), z),
        p.spec_parse(input) matches Ok((_, m)) ==> exists|a: P::Output| P::model(a) == m,
    ensures
        (Mapped { parser: Mapped { parser: p, f }, f: g }).spec_parse(input) == (Mapped {
            parser: p,
            f: h,
        }).spec_parse(input),
{
    if let Ok((rest, m)) = p.spec_parse(input) {
        let a = choose|a: P::Output| P::model(a) == m;
        assert(f.requires((a,)));
        let y0 = choose|y: U| f.ensures((a,), y);
        assert(crate::combinator::func::returns_on_model::<'input, P, U, F>(f, m, y0));
        let y = apply_on_model::<'input, P, U, F>(f, m);
        let a1 = choose|a1: P::Output| P::model(a1) == m && #[trigger] f.ensures((a1,), y);
        assert(g.requires((y,)));
        let z0 = choose|z: V| g.ensures((y,), z);
        assert(h.ensures((a1,), z0));
        assert(crate::combinator::func::returns_on_model::<'input, Mapped<P, F>, V, G>(g, y, z0));
        assert(crate::combinator::func::returns_on_model::<'input, P, V, H>(h, m, z0));
        let z1 = apply_on_model::<'input, Mapped<P, F>, V, G>(g, y);
        let z2 = apply_on_model::<'input, P, V, H>(h, m);
        let a2 = choose|a2: P::Output| P::model(a2) == m && #[trigger] h.ensures((a2,), z2);
        let y2 = choose|y2: U| f.ensures((a2,), y2) && g.ensures((y2,), z2);
        assert(y2 == y);
        assert(z1 == z2);
    }
}

} // verus!
