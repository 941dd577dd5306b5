use vstd::prelude::*;

use crate::combinator::func::{apply, call, functional, total};
use crate::parser::SpecResult;
use crate::{Combinator, Parser, ParserResult};

verus! {

/// Runs `parser` and replaces its error by `f` of it. Consumption and value are those of
/// `parser`.
#[derive(Debug, Clone, Copy)]
pub struct MappedErr<P, F> {
    pub parser: P,
    pub f: F,
}

impl<'input, P: Parser<'input>, E, F: Fn(P::Error) -> E + Copy> Parser<'input> for MappedErr<P, F> {
    type Output = P::Output;
    type Error = E;
    type Model = P::Model;

    open spec fn model(value: P::Output) -> P::Model {
        P::model(value)
    }

    open spec fn wf(&self) -> bool {
        self.parser.wf() && total(self.f) && functional(self.f)
    }

    open spec fn spec_parse(&self, input: Seq<u8>) -> SpecResult<P::Model, E> {
        match self.parser.spec_parse(input) {
            Ok((rest, v)) => Ok((rest, v)),
            Err(e) => Err(apply(self.f, e)),
        }
    }

    proof fn lemma_consumes_prefix(&self, input: Seq<u8>) {
        self.parser.lemma_consumes_prefix(input);
    }

    fn parse(self, input: &'input [u8]) -> (r: ParserResult<'input, P::Output, E>) {
        match self.parser.parse(input) {
            Ok(parsed) => Ok(parsed),
            Err(e) => Err(call(self.f, e)),
        }
    }
}

/// The combinator that maps a parser's error with `f`.
#[derive(Debug, Clone, Copy)]
pub struct MapErrWith<F> {
    pub f: F,
}

pub fn map_err<F>(f: F) -> (r: MapErrWith<F>)
    ensures
        r.f == f,
{
    MapErrWith { f }
}

impl<'input, P, E, F> Combinator<'input, P> for MapErrWith<F> where
    P: Parser<'input>,
    F: Fn(P::Error) -> E + Copy,
 {
    type Applied = MappedErr<P, F>;

    open spec fn spec_apply(&self, parser: P) -> MappedErr<P, F> {
        MappedErr { parser, f: self.f }
    }

    fn apply_to(&self, parser: P) -> (r: MappedErr<P, F>) {
        MappedErr { parser, f: self.f }
    }
}

} // verus!
