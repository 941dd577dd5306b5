use vstd::prelude::*;

use crate::combinator::func::observer_total;
use crate::parser::SpecResult;
use crate::{Combinator, Parser, ParserResult};

verus! {

/// Runs `parser` and hands a successful value to the observer `f`; the outcome is that of
/// `parser`.
#[derive(Debug, Clone, Copy)]
pub struct Inspected<P, F> {
    pub parser: P,
    pub f: F,
}

impl<'input, P: Parser<'input>, F: Fn(&P::Output) + Copy> Parser<'input> for Inspected<P, F> {
    type Output = P::Output;
    type Error = P::Error;
    type Model = P::Model;

    open spec fn model(value: P::Output) -> P::Model {
        P::model(value)
    }

    open spec fn wf(&self) -> bool {
        self.parser.wf() && observer_total(self.f)
    }

    open spec fn spec_parse(&self, input: Seq<u8>) -> SpecResult<P::Model, P::Error> {
        self.parser.spec_parse(input)
    }

    proof fn lemma_consumes_prefix(&self, input: Seq<u8>) {
        self.parser.lemma_consumes_prefix(input);
    }

    fn parse(self, input: &'input [u8]) -> (r: ParserResult<'input, P::Output, P::Error>) {
        match self.parser.parse(input) {
            Ok(parsed) => {
                (self.f)(&parsed.value);
                Ok(parsed)
            },
            Err(e) => Err(e),
        }
    }
}

/// The combinator that shows a parser's values to `f`.
#[derive(Debug, Clone, Copy)]
pub struct InspectWith<F> {
    pub f: F,
}

pub fn inspect<F>(f: F) -> (r: InspectWith<F>)
    ensures
        r.f == f,
{
    InspectWith { f }
}

impl<'input, P: Parser<'input>, F: Fn(&P::Output) + Copy> Combinator<'input, P> for InspectWith<F> {
    type Applied = Inspected<P, F>;

    open spec fn spec_apply(&self, parser: P) -> Inspected<P, F> {
        Inspected { parser, f: self.f }
    }

    fn apply_to(&self, parser: P) -> (r: Inspected<P, F>) {
        Inspected { parser, f: self.f }
    }
}

} // verus!
