use vstd::prelude::*;

use crate::parser::SpecResult;
use crate::{Combinator, Either, ParsedItem, Parser, ParserResult};

verus! {

/// Runs `first`; where it fails, runs `second` on the same input. The value of `first` becomes
/// `Either::A`, that of `second` `Either::B`. Where both fail, the error is the pair of their
/// errors.
#[derive(Debug, Clone, Copy)]
pub struct Or<P1, P2> {
    pub first: P1,
    pub second: P2,
}

impl<'input, P1: Parser<'input>, P2: Parser<'input>> Parser<'input> for Or<P1, P2> {
    type Output = Either<P1::Output, P2::Output>;
    type Error = (P1::Error, P2::Error);
    type Model = Either<P1::Model, P2::Model>;

    open spec fn model(value: Self::Output) -> Self::Model {
        match value {
            Either::A(a) => Either::A(P1::model(a)),
            Either::B(b) => Either::B(P2::model(b)),
        }
    }

    open spec fn wf(&self) -> bool {
        self.first.wf() && self.second.wf()
    }

    open spec fn spec_parse(&self, input: Seq<u8>) -> SpecResult<Self::Model, Self::Error> {
        match self.first.spec_parse(input) {
            Ok((rest, v)) => Ok((rest, Either::A(v))),
            Err(e1) => match self.second.spec_parse(input) {
                Ok((rest, v)) => Ok((rest, Either::B(v))),
                Err(e2) => Err((e1, e2)),
            },
        }
    }

    proof fn lemma_consumes_prefix(&self, input: Seq<u8>) {
        self.first.lemma_consumes_prefix(input);
        self.second.lemma_consumes_prefix(input);
    }

    fn parse(self, input: &'input [u8]) -> (r: ParserResult<'input, Self::Output, Self::Error>) {
        match self.first.parse(input) {
            Ok(parsed) => {
                let (rest, value) = parsed.into_parts();
                Ok(ParsedItem::from_parts(rest, Either::A(value)))
            },
            Err(e1) => match self.second.parse(input) {
                Ok(parsed) => {
                    let (rest, value) = parsed.into_parts();
                    Ok(ParsedItem::from_parts(rest, Either::B(value)))
                },
                Err(e2) => Err((e1, e2)),
            },
        }
    }
}

/// The combinator that tries a parser and, where it fails, `second`.
#[derive(Debug, Clone, Copy)]
pub struct OrWith<P2> {
    pub second: P2,
}

pub fn or<P2>(second: P2) -> (r: OrWith<P2>)
    ensures
        r.second == second,
{
    OrWith { second }
}

impl<'input, P1: Parser<'input>, P2: Parser<'input>> Combinator<'input, P1> for OrWith<P2> {
    type Applied = Or<P1, P2>;

    open spec fn spec_apply(&self, parser: P1) -> Or<P1, P2> {
        Or { first: parser, second: self.second }
    }

    fn apply_to(&self, parser: P1) -> (r: Or<P1, P2>) {
        Or { first: parser, second: self.second }
    }
}

} // verus!
