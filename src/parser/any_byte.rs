use vstd::prelude::*;

use crate::error;
use crate::parser::SpecResult;
use crate::{ParsedItem, Parser, ParserResult};

verus! {

/// One byte of any value.
pub open spec fn spec_any_byte(input: Seq<u8>) -> SpecResult<u8, error::EndOfInput> {
    if input.len() == 0 {
        Err(error::EndOfInput)
    } else {
        Ok((input.drop_first(), input[0]))
    }
}

/// Consume exactly one byte.
pub fn any_byte(input: &[u8]) -> (r: ParserResult<'_, u8, error::EndOfInput>)
    ensures
        match (r, spec_any_byte(input@)) {
            (Ok(item), Ok((rest, value))) => item.input@ == rest && item.value == value,
            (Err(e), Err(f)) => e == f,
            _ => false,
        },
{
    if input.len() == 0 {
        Err(error::EndOfInput)
    } else {
        let rest = vstd::slice::slice_subrange(input, 1, input.len());
        assert(rest@ =~= input@.drop_first());
        Ok(ParsedItem::from_parts(rest, input[0]))
    }
}

/// The parser that [`any_byte`] runs.
#[derive(Debug, Clone, Copy)]
pub struct AnyByte;

impl<'input> Parser<'input> for AnyByte {
    type Output = u8;
    type Error = error::EndOfInput;
    type Model = u8;

    open spec fn model(value: u8) -> u8 {
        value
    }

    open spec fn wf(&self) -> bool {
        true
    }

    open spec fn spec_parse(&self, input: Seq<u8>) -> SpecResult<u8, error::EndOfInput> {
        spec_any_byte(input)
    }

    proof fn lemma_consumes_prefix(&self, input: Seq<u8>) {
        if input.len() > 0 {
            assert(input.drop_first() =~= input.subrange(1, input.len() as int));
        }
    }

    fn parse(self, input: &'input [u8]) -> (r: ParserResult<'input, u8, error::EndOfInput>) {
        any_byte(input)
    }
}

} // verus!
