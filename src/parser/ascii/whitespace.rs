use vstd::prelude::*;

use crate::error;
use crate::parser::ascii::is_whitespace;
use crate::parser::SpecResult;
use crate::{Either, ParsedItem, Parser, ParserResult};

verus! {

pub open spec fn spec_whitespace(input: Seq<u8>) -> SpecResult<
    char,
    Either<error::AsciiWhitespace, error::EndOfInput>,
> {
    if input.len() == 0 {
        Err(Either::B(error::EndOfInput))
    } else {
        let b = input[0];
        if is_whitespace(b) {
            Ok((input.drop_first(), b as char))
        } else {
            Err(Either::A(error::AsciiWhitespace))
        }
    }
}

/// Consume exactly one ASCII whitespace character.
pub fn whitespace(input: &[u8]) -> (r: ParserResult<
    '_,
    char,
    Either<error::AsciiWhitespace, error::EndOfInput>,
>)
    ensures
        match (r, spec_whitespace(input@)) {
            (Ok(item), Ok((rest, value))) => item.input@ == rest && item.value == value,
            (Err(e), Err(f)) => e == f,
            _ => false,
        },
{
    if input.len() == 0 {
        return Err(Either::B(error::EndOfInput));
    }
    let b = input[0];
    if b == 32 || b == 9 || b == 10 || b == 12 || b == 13 {
        let rest = vstd::slice::slice_subrange(input, 1, input.len());
        assert(rest@ =~= input@.drop_first());
        Ok(ParsedItem::from_parts(rest, b as char))
    } else {
        Err(Either::A(error::AsciiWhitespace))
    }
}

/// The parser that [`whitespace`] runs.
#[derive(Debug, Clone, Copy)]
pub struct Whitespace;

impl<'input> Parser<'input> for Whitespace {
    type Output = char;
    type Error = Either<error::AsciiWhitespace, error::EndOfInput>;
    type Model = char;

    open spec fn model(value: char) -> char {
        value
    }

    open spec fn wf(&self) -> bool {
        true
    }

    open spec fn spec_parse(&self, input: Seq<u8>) -> SpecResult<char, Self::Error> {
        spec_whitespace(input)
    }

    proof fn lemma_consumes_prefix(&self, input: Seq<u8>) {
        if input.len() > 0 {
            assert(input.drop_first() =~= input.subrange(1, input.len() as int));
        }
    }

    fn parse(self, input: &'input [u8]) -> (r: ParserResult<'input, char, Self::Error>) {
        whitespace(input)
    }
}

} // verus!
