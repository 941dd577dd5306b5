use vstd::prelude::*;

use crate::error;
use crate::parser::SpecResult;
use crate::{ParsedItem, Parser, ParserResult};

verus! {

/// Succeeds, consuming nothing, exactly on empty input.
pub open spec fn spec_end_of_input(input: Seq<u8>) -> SpecResult<(), error::NotEndOfInput> {
    if input.len() == 0 {
        Ok((input, ()))
    } else {
        Err(error::NotEndOfInput)
    }
}

pub fn end_of_input(input: &[u8]) -> (r: ParserResult<'_, (), error::NotEndOfInput>)
    ensures
        match (r, spec_end_of_input(input@)) {
            (Ok(item), Ok((rest, _))) => item.input@ == rest,
            (Err(e), Err(f)) => e == f,
            _ => false,
        },
{
    if input.len() == 0 {
        Ok(ParsedItem::from_parts(input, ()))
    } else {
        Err(error::NotEndOfInput)
    }
}

/// The parser that [`end_of_input`] runs.
#[derive(Debug, Clone, Copy)]
pub struct AtEnd;

impl<'input> Parser<'input> for AtEnd {
    type Output = ();
    type Error = error::NotEndOfInput;
    type Model = ();

    open spec fn model(value: ()) -> () {
        value
    }

    open spec fn wf(&self) -> bool {
        true
    }

    open spec fn spec_parse(&self, input: Seq<u8>) -> SpecResult<(), error::NotEndOfInput> {
        spec_end_of_input(input)
    }

    proof fn lemma_consumes_prefix(&self, input: Seq<u8>) {
        assert(input =~= input.subrange(0, input.len() as int));
    }

    fn parse(self, input: &'input [u8]) -> (r: ParserResult<'input, (), error::NotEndOfInput>) {
        end_of_input(input)
    }
}

} // verus!
