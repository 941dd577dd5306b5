use core::marker::PhantomData;
use vstd::prelude::*;

use crate::combinator::func::{apply_on_model, call_on_value, respects_model, total};
use crate::parser::SpecResult;
use crate::{Combinator, Either, ParsedItem, Parser, ParserResult};

verus! {

/// Runs `parser` and hands its value to `f`: `Ok(u)` becomes the value `u`, `Err(e)` the error
/// `Either::A(e)`. A failure of `parser` is `Either::B`.
pub struct FilterMapped<P, F, U, E> {
    pub parser: P,
    pub f: F,
    /// The value and error types that `f` returns.
    pub results: PhantomData<(U, E)>,
}

impl<P: Copy, F: Copy, U, E> Clone for FilterMapped<P, F, U, E> {
    fn clone(&self) -> (r: Self)
        ensures
            r == *self,
    {
        *self
    }
}

impl<P: Copy, F: Copy, U, E> Copy for FilterMapped<P, F, U, E> {

}

impl<'input, P, U, E, F> Parser<'input> for FilterMapped<P, F, U, E> where
    P: Parser<'input>,
    F: Fn(P::Output) -> Result<U, E> + Copy,
 {
    type Output = U;
    type Error = Either<E, P::Error>;
    type Model = U;

    open spec fn model(value: U) -> U {
        value
    }

    open spec fn wf(&self) -> bool {
        self.parser.wf() && total(self.f) && respects_model::<'input, P, Result<U, E>, F>(self.f)
    }

    open spec fn spec_parse(&self, input: Seq<u8>) -> SpecResult<U, Self::Error> {
        match self.parser.spec_parse(input) {
            Ok((rest, v)) => match apply_on_model::<'input, P, Result<U, E>, F>(self.f, v) {
                Ok(u) => Ok((rest, u)),
                Err(e) => Err(Either::A(e)),
            },
            Err(e) => Err(Either::B(e)),
        }
    }

    proof fn lemma_consumes_prefix(&self, input: Seq<u8>) {
        self.parser.lemma_consumes_prefix(input);
    }

    fn parse(self, input: &'input [u8]) -> (r: ParserResult<'input, U, Self::Error>) {
        match self.parser.parse(input) {
            Ok(parsed) => {
                let (rest, value) = parsed.into_parts();
                let mapped: Result<U, E> = call_on_value::<'input, P, Result<U, E>, F>(self.f, value);
                match mapped {
                    Ok(u) => Ok(ParsedItem::<'input, U>::from_parts(rest, u)),
                    Err(e) => Err(Either::<E, P::Error>::A(e)),
                }
            },
            Err(e) => Err(Either::<E, P::Error>::B(e)),
        }
    }
}

/// The combinator that maps a parser's value with `f`, which may fail.
#[derive(Debug, Clone, Copy)]
pub struct FilterMapWith<F> {
    pub f: F,
}

pub fn filter_map<F>(f: F) -> (r: FilterMapWith<F>)
    ensures
        r.f == f,
{
    FilterMapWith { f }
}

impl<'input, P, U, E, F> Combinator<'input, P> for FilterMapWith<F> where
    P: Parser<'input>,
    F: Fn(P::Output) -> Result<U, E> + Copy,
 {
    type Applied = FilterMapped<P, F, U, E>;

    open spec fn spec_apply(&self, parser: P) -> FilterMapped<P, F, U, E> {
        FilterMapped { parser, f: self.f, results: PhantomData }
    }

    fn apply_to(&self, parser: P) -> (r: FilterMapped<P, F, U, E>) {
        FilterMapped { parser, f: self.f, results: PhantomData }
    }
}

} // verus!
