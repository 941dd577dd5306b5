use vstd::prelude::*;

use crate::parser::SpecResult;
use crate::{ParsedItem, Parser, ParserResult};

verus! {

/// Runs `parser` and drops its value.
#[derive(Debug, Clone, Copy)]
pub struct Discarded<P> {
    pub parser: P,
}

pub fn discard<P>(parser: P) -> (r: Discarded<P>)
    ensures
        r.parser == parser,
{
    Discarded { parser }
}

impl<'input, P: Parser<'input>> Parser<'input> for Discarded<P> {
    type Output = ();
    type Error = P::Error;
    type Model = ();

    open spec fn model(value: ()) -> () {
        value
    }

    open spec fn wf(&self) -> bool {
        self.parser.wf()
    }

    open spec fn spec_parse(&self, input: Seq<u8>) -> SpecResult<(), P::Error> {
        match self.parser.spec_parse(input) {
            Ok((rest, _)) => Ok((rest, ())),
            Err(e) => Err(e),
        }
    }

    proof fn lemma_consumes_prefix(&self, input: Seq<u8>) {
        self.parser.lemma_consumes_prefix(input);
    }

    fn parse(self, input: &'input [u8]) -> (r: ParserResult<'input, (), P::Error>) {
        match self.parser.parse(input) {
            Ok(parsed) => Ok(ParsedItem::from_parts(parsed.input, ())),
            Err(e) => Err(e),
        }
    }
}

} // verus!
