use vstd::prelude::*;

use crate::parser::SpecResult;
use crate::combinator::func::{apply_on_model, call_on_value, respects_model, total};
use crate::{Combinator, ParsedItem, Parser, ParserResult};

verus! {

/// Replaces the value of `parser` by `f` of it. Consumption and failure are those of `parser`.
#[derive(Debug, Clone, Copy)]
pub struct Mapped<P, F> {
    pub parser: P,
    pub f: F,
}

impl<'input, P: Parser<'input>, U, F: Fn(P::Output) -> U + Copy> Parser<'input> for Mapped<P, F> {
    type Output = U;
    type Error = P::Error;
    type Model = U;

    open spec fn model(value: U) -> U {
        value
    }

    open spec fn wf(&self) -> bool {
        self.parser.wf() && total(self.f) && respects_model::<'input, P, U, F>(self.f)
    }

    open spec fn spec_parse(&self, input: Seq<u8>) -> SpecResult<U, P::Error> {
        match self.parser.spec_parse(input) {
            Ok((rest, m)) => Ok((rest, apply_on_model::<'input, P, U, F>(self.f, m))),
            Err(e) => Err(e),
        }
    }

    proof fn lemma_consumes_prefix(&self, input: Seq<u8>) {
        self.parser.lemma_consumes_prefix(input);
    }

    fn parse(self, input: &'input [u8]) -> (r: ParserResult<'input, U, P::Error>) {
        match self.parser.parse(input) {
            Ok(parsed) => {
                let (input, value) = parsed.into_parts();
                Ok(ParsedItem::from_parts(input, call_on_value::<'input, P, U, F>(self.f, value)))
            },
            Err(e) => Err(e),
        }
    }
}

/// The combinator that maps a parser's value with `f`.
#[derive(Debug, Clone, Copy)]
pub struct MapWith<F> {
    pub f: F,
}

pub fn map<F>(f: F) -> (r: MapWith<F>)
    ensures
        r.f == f,
{
    MapWith { f }
}

impl<'input, P, U, F> Combinator<'input, P> for MapWith<F> where
    P: Parser<'input>,
    F: Fn(P::Output) -> U + Copy,
 {
    type Applied = Mapped<P, F>;

    open spec fn spec_apply(&self, parser: P) -> Mapped<P, F> {
        Mapped { parser, f: self.f }
    }

    fn apply_to(&self, parser: P) -> (r: Mapped<P, F>) {
        Mapped { parser, f: self.f }
    }
}

} // verus!
