use core::convert::Infallible;
use vstd::prelude::*;

use crate::combinator::repeat::lemma_suffix_refl;
use crate::parser::SpecResult;
use crate::{ParsedItem, Parser, ParserResult};

verus! {

/// Runs `parser`. Its value becomes `Some`; its failure becomes `None`, with nothing consumed.
/// Never fails.
#[derive(Debug, Clone, Copy)]
pub struct Optional<P> {
    pub parser: P,
}

pub fn optional<P>(parser: P) -> (r: Optional<P>)
    ensures
        r.parser == parser,
{
    Optional { parser }
}

impl<'input, P: Parser<'input>> Parser<'input> for Optional<P> {
    type Output = Option<P::Output>;
    type Error = Infallible;
    type Model = Option<P::Model>;

    open spec fn model(value: Option<P::Output>) -> Option<P::Model> {
        match value {
            Some(v) => Some(P::model(v)),
            None => None,
        }
    }

    open spec fn wf(&self) -> bool {
        self.parser.wf()
    }

    open spec fn spec_parse(&self, input: Seq<u8>) -> SpecResult<Option<P::Model>, Infallible> {
        match self.parser.spec_parse(input) {
            Ok((rest, v)) => Ok((rest, Some(v))),
            Err(_) => Ok((input, None)),
        }
    }

    proof fn lemma_consumes_prefix(&self, input: Seq<u8>) {
        self.parser.lemma_consumes_prefix(input);
        lemma_suffix_refl(input);
    }

    fn parse(self, input: &'input [u8]) -> (r: ParserResult<'input, Option<P::Output>, Infallible>) {
        match self.parser.parse(input) {
            Ok(parsed) => {
                let (rest, value) = parsed.into_parts();
                Ok(ParsedItem::from_parts(rest, Some(value)))
            },
            Err(_) => Ok(ParsedItem::from_parts(input, None)),
        }
    }
}

} // verus!
