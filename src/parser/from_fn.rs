use core::marker::PhantomData;
use vstd::prelude::*;

use crate::parser::{is_suffix, SpecResult};
use crate::{Parser, ParserResult};

verus! {

/// A function used as a parser: `f` of the input is the outcome.
pub struct FromFn<F, O, E> {
    pub f: F,
    /// The value and error types that `f` returns.
    pub results: PhantomData<(O, E)>,
}

impl<F: Copy, O, E> Clone for FromFn<F, O, E> {
    fn clone(&self) -> (r: Self)
        ensures
            r == *self,
    {
        *self
    }
}

impl<F: Copy, O, E> Copy for FromFn<F, O, E> {

}

pub fn from_fn<'input, O, E, F: Fn(&'input [u8]) -> ParserResult<'input, O, E> + Copy>(f: F) -> (r:
    FromFn<F, O, E>)
    ensures
        r.f == f,
{
    FromFn { f, results: PhantomData }
}

/// The specified outcome of a run that returned `r` on `input`.
pub open spec fn outcome_of<'input, O, E>(
    r: ParserResult<'input, O, E>,
    input: Seq<u8>,
) -> SpecResult<O, E> {
    match r {
        Ok(item) => if is_suffix(item.input@, input) {
            Ok((item.input@, item.value))
        } else {
            Ok((input, item.value))
        },
        Err(e) => Err(e),
    }
}

/// `f` can be called on every input, leaves a suffix of it, and gives one outcome for inputs of
/// equal bytes.
pub open spec fn parser_fn<'input, O, E, F: Fn(&'input [u8]) -> ParserResult<'input, O, E>>(
    f: F,
) -> bool {
    &&& forall|s: &'input [u8]| #[trigger] f.requires((s,))
    &&& forall|s: &'input [u8], r: ParserResult<'input, O, E>| #[trigger]
        f.ensures((s,), r) ==> (r matches Ok(item) ==> is_suffix(item.input@, s@))
    &&& forall|
        s1: &'input [u8],
        s2: &'input [u8],
        r1: ParserResult<'input, O, E>,
        r2: ParserResult<'input, O, E>,
    |
        s1@ == s2@ && #[trigger] f.ensures((s1,), r1) && #[trigger] f.ensures((s2,), r2)
            ==> outcome_of(r1, s1@) == outcome_of(r2, s2@)
}

/// `f` returns `r` on some input whose bytes are `input`.
pub open spec fn returns_on<'input, O, E, F: Fn(&'input [u8]) -> ParserResult<'input, O, E>>(
    f: F,
    input: Seq<u8>,
    r: ParserResult<'input, O, E>,
) -> bool {
    exists|s: &'input [u8]| s@ == input && #[trigger] f.ensures((s,), r)
}

impl<'input, O, E, F> Parser<'input> for FromFn<F, O, E> where
    F: Fn(&'input [u8]) -> ParserResult<'input, O, E> + Copy,
 {
    type Output = O;
    type Error = E;
    type Model = O;

    open spec fn model(value: O) -> O {
        value
    }

    open spec fn wf(&self) -> bool {
        parser_fn(self.f)
    }

    open spec fn spec_parse(&self, input: Seq<u8>) -> SpecResult<O, E> {
        outcome_of(choose|r: ParserResult<'input, O, E>| #[trigger] returns_on(self.f, input, r), input)
    }

    proof fn lemma_consumes_prefix(&self, input: Seq<u8>) {
        crate::combinator::repeat::lemma_suffix_refl(input);
    }

    fn parse(self, input: &'input [u8]) -> (r: ParserResult<'input, O, E>) {
        let r = (self.f)(input);
        proof {
            assert(returns_on(self.f, input@, r));
            let c = choose|c: ParserResult<'input, O, E>| #[trigger] returns_on(self.f, input@, c);
            let s = choose|s: &'input [u8]| s@ == input@ && #[trigger] self.f.ensures((s,), c);
            assert(self.f.ensures((input,), r) && self.f.ensures((s,), c));
        }
        r
    }
}

} // verus!
