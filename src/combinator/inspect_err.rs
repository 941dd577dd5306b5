use vstd::prelude::*;

use crate::combinator::func::observer_total;
use crate::parser::SpecResult;
use crate::{Combinator, Parser, ParserResult};

verus! {

/// Runs `parser` and hands an error to the observer `f`; the outcome is that of
/// `parser`.
#[derive(Debug, Clone, Copy)]
pub struct InspectedErr<P, F> {
    pub parser: P,
    pub f: F,
}

impl<'input, P: Parser<'input>, F: Fn(&P::Error) + Copy> Parser<'input> for InspectedErr<P, F> {
    type Output = P::Output;
    type Error = P::Error;
    type Model = P::Model;

    open spec fn model(value: P::Output) -> P::Model {
        P::model(value)
    }

    open spec fn wf(&self) -> bool {
        self.parser.wf() && observer_total(self.f)
    }

    open spec fn spec_parse(&self, input: Seq<u8>) -> SpecResult<P::Model, P::Error> {
        self.parser.spec_parse(input)
    }

    proof fn lemma_consumes_prefix(&self, input: Seq<u8>) {
        self.parser.lemma_consumes_prefix(input);
    }

    fn parse(self, input: &'input [u8]) -> (r: ParserResult<'input, P::Output, P::Error>) {
        match self.parser.parse(input) {
            Ok(parsed) => Ok(parsed),
            Err(e) => {
                (self.f)(&e);
                Err(e)
            },
        }
    }
}

/// The combinator that shows a parser's errors to `f`.
#[derive(Debug, Clone, Copy)]
pub struct InspectErrWith<F> {
    pub f: F,
}

pub fn inspect_err<F>(f: F) -> (r: InspectErrWith<F>)
    ensures
        r.f == f,
{
    InspectErrWith { f }
}

impl<'input, P, F> Combinator<'input, P> for InspectErrWith<F> where
    P: Parser<'input>,
    F: Fn(&P::Error) + Copy,
 {
    type Applied = InspectedErr<P, F>;

    open spec fn spec_apply(&self, parser: P) -> InspectedErr<P, F> {
        InspectedErr { parser, f: self.f }
    }

    fn apply_to(&self, parser: P) -> (r: InspectedErr<P, F>) {
        InspectedErr { parser, f: self.f }
    }
}

} // verus!
