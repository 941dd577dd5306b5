use vstd::prelude::*;

use crate::parser::SpecResult;
use crate::{Combinator, Either, ParsedItem, Parser, ParserResult};

verus! {

/// Runs `first`, then `second` on what `first` left. The value is the pair of both values; an
/// error of `first` is `Either::A`, one of `second` is `Either::B`.
#[derive(Debug, Clone, Copy)]
pub struct And<P1, P2> {
    pub first: P1,
    pub second: P2,
}

impl<'input, P1: Parser<'input>, P2: Parser<'input>> Parser<'input> for And<P1, P2> {
    type Output = (P1::Output, P2::Output);
    type Error = Either<P1::Error, P2::Error>;
    type Model = (P1::Model, P2::Model);

    open spec fn model(value: Self::Output) -> Self::Model {
        (P1::model(value.0), P2::model(value.1))
    }

    open spec fn wf(&self) -> bool {
        self.first.wf() && self.second.wf()
    }

    open spec fn spec_parse(&self, input: Seq<u8>) -> SpecResult<Self::Model, Self::Error> {
        match self.first.spec_parse(input) {
            Err(e) => Err(Either::A(e)),
            Ok((rest, v1)) => match self.second.spec_parse(rest) {
                Err(e) => Err(Either::B(e)),
                Ok((rest2, v2)) => Ok((rest2, (v1, v2))),
            },
        }
    }

    proof fn lemma_consumes_prefix(&self, input: Seq<u8>) {
        self.first.lemma_consumes_prefix(input);
        if let Ok((rest, _)) = self.first.spec_parse(input) {
            self.second.lemma_consumes_prefix(rest);
            if let Ok((rest2, _)) = self.second.spec_parse(rest) {
                assert(rest2 =~= input.subrange(input.len() - rest2.len(), input.len() as int));
            }
        }
    }

    fn parse(self, input: &'input [u8]) -> (r: ParserResult<'input, Self::Output, Self::Error>) {
        let (input, first) = match self.first.parse(input) {
            Ok(parsed) => parsed.into_parts(),
            Err(e) => return Err(Either::A(e)),
        };
        let (input, second) = match self.second.parse(input) {
            Ok(parsed) => parsed.into_parts(),
            Err(e) => return Err(Either::B(e)),
        };
        Ok(ParsedItem::from_parts(input, (first, second)))
    }
}

/// The combinator that sequences a parser with `second`.
#[derive(Debug, Clone, Copy)]
pub struct AndWith<P2> {
    pub second: P2,
}

pub fn and<P2>(second: P2) -> (r: AndWith<P2>)
    ensures
        r.second == second,
{
    AndWith { second }
}

impl<'input, P1: Parser<'input>, P2: Parser<'input>> Combinator<'input, P1> for AndWith<P2> {
    type Applied = And<P1, P2>;

    open spec fn spec_apply(&self, parser: P1) -> And<P1, P2> {
        And { first: parser, second: self.second }
    }

    fn apply_to(&self, parser: P1) -> (r: And<P1, P2>) {
        And { first: parser, second: self.second }
    }
}

} // verus!
