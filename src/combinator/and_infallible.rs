use core::convert::Infallible;
use vstd::prelude::*;

use crate::parser::SpecResult;
use crate::{Combinator, ParsedItem, Parser, ParserResult};

verus! {

/// `parser` succeeds on every input.
pub open spec fn never_fails<'input, P: Parser<'input>>(parser: P) -> bool {
    forall|input: Seq<u8>| #[trigger] parser.spec_parse(input) is Ok
}

/// Runs `first`, then `second` on what `first` left, where `second` cannot fail: the error is
/// that of `first` alone. Verus does not know `Infallible` to be empty, so `wf` asks that
/// `second` succeed on every input.
#[derive(Debug, Clone, Copy)]
pub struct AndInfallible<P1, P2> {
    pub first: P1,
    pub second: P2,
}

impl<'input, P1, P2> Parser<'input> for AndInfallible<P1, P2> where
    P1: Parser<'input>,
    P2: Parser<'input, Error = Infallible>,
 {
    type Output = (P1::Output, P2::Output);
    type Error = P1::Error;
    type Model = (P1::Model, P2::Model);

    open spec fn model(value: Self::Output) -> Self::Model {
        (P1::model(value.0), P2::model(value.1))
    }

    open spec fn wf(&self) -> bool {
        self.first.wf() && self.second.wf() && never_fails(self.second)
    }

    open spec fn spec_parse(&self, input: Seq<u8>) -> SpecResult<Self::Model, P1::Error> {
        match self.first.spec_parse(input) {
            Err(e) => Err(e),
            Ok((rest, v1)) => match self.second.spec_parse(rest) {
                Ok((rest2, v2)) => Ok((rest2, (v1, v2))),
                Err(_) => Ok((rest, (v1, vstd::pervasive::arbitrary()))),
            },
        }
    }

    proof fn lemma_consumes_prefix(&self, input: Seq<u8>) {
        self.first.lemma_consumes_prefix(input);
        if let Ok((rest, _)) = self.first.spec_parse(input) {
            self.second.lemma_consumes_prefix(rest);
            if let Ok((rest2, _)) = self.second.spec_parse(rest) {
                assert(rest2 =~= input.subrange(input.len() - rest2.len(), input.len() as int));
            }
        }
    }

    fn parse(self, input: &'input [u8]) -> (r: ParserResult<'input, Self::Output, P1::Error>) {
        let (input, first) = match self.first.parse(input) {
            Ok(parsed) => parsed.into_parts(),
            Err(e) => return Err(e),
        };
        let (input, second) = match self.second.parse(input) {
            Ok(parsed) => parsed.into_parts(),
            Err(_) => {
                assert(self.second.spec_parse(input@) is Ok);
                return vstd::pervasive::unreached();
            },
        };
        Ok(ParsedItem::from_parts(input, (first, second)))
    }
}

/// The combinator that sequences a parser with `second`, which cannot fail.
#[derive(Debug, Clone, Copy)]
pub struct AndInfallibleWith<P2> {
    pub second: P2,
}

pub fn and_infallible<P2>(second: P2) -> (r: AndInfallibleWith<P2>)
    ensures
        r.second == second,
{
    AndInfallibleWith { second }
}

impl<'input, P1, P2> Combinator<'input, P1> for AndInfallibleWith<P2> where
    P1: Parser<'input>,
    P2: Parser<'input, Error = Infallible>,
 {
    type Applied = AndInfallible<P1, P2>;

    open spec fn spec_apply(&self, parser: P1) -> AndInfallible<P1, P2> {
        AndInfallible { first: parser, second: self.second }
    }

    fn apply_to(&self, parser: P1) -> (r: AndInfallible<P1, P2>) {
        AndInfallible { first: parser, second: self.second }
    }
}

} // verus!
