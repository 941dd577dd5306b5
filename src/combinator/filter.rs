use vstd::prelude::*;

use crate::combinator::func::{call_predicate, holds_on_model, pred_respects_model, pred_total};
use crate::error;
use crate::parser::SpecResult;
use crate::{Combinator, Either, Parser, ParserResult};

verus! {

/// Runs `parser` and keeps its value where `f` holds of it; where it does not, fails with
/// `Either::A(Filter)`. A failure of `parser` is `Either::B`.
#[derive(Debug, Clone, Copy)]
pub struct Filtered<P, F> {
    pub parser: P,
    pub f: F,
}

impl<'input, P, F> Parser<'input> for Filtered<P, F> where
    P: Parser<'input>,
    F: Fn(&P::Output) -> bool + Copy,
 {
    type Output = P::Output;
    type Error = Either<error::Filter, P::Error>;
    type Model = P::Model;

    open spec fn model(value: P::Output) -> P::Model {
        P::model(value)
    }

    open spec fn wf(&self) -> bool {
        self.parser.wf() && pred_total(self.f) && pred_respects_model::<'input, P, F>(self.f)
    }

    open spec fn spec_parse(&self, input: Seq<u8>) -> SpecResult<P::Model, Self::Error> {
        match self.parser.spec_parse(input) {
            Ok((rest, v)) => if holds_on_model::<'input, P, F>(self.f, v) {
                Ok((rest, v))
            } else {
                Err(Either::A(error::Filter))
            },
            Err(e) => Err(Either::B(e)),
        }
    }

    proof fn lemma_consumes_prefix(&self, input: Seq<u8>) {
        self.parser.lemma_consumes_prefix(input);
    }

    fn parse(self, input: &'input [u8]) -> (r: ParserResult<'input, P::Output, Self::Error>) {
        match self.parser.parse(input) {
            Ok(parsed) => {
                if call_predicate::<'input, '_, P, F>(&self.f, &parsed.value) {
                    Ok(parsed)
                } else {
                    Err(Either::A(error::Filter))
                }
            },
            Err(e) => Err(Either::B(e)),
        }
    }
}

/// The combinator that keeps a parser's values of which `f` holds.
#[derive(Debug, Clone, Copy)]
pub struct FilterWith<F> {
    pub f: F,
}

pub fn filter<F>(f: F) -> (r: FilterWith<F>)
    ensures
        r.f == f,
{
    FilterWith { f }
}

impl<'input, P, F> Combinator<'input, P> for FilterWith<F> where
    P: Parser<'input>,
    F: Fn(&P::Output) -> bool + Copy,
 {
    type Applied = Filtered<P, F>;

    open spec fn spec_apply(&self, parser: P) -> Filtered<P, F> {
        Filtered { parser, f: self.f }
    }

    fn apply_to(&self, parser: P) -> (r: Filtered<P, F>) {
        Filtered { parser, f: self.f }
    }
}

} // verus!
