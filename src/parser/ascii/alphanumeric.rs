use vstd::prelude::*;

use crate::error;
use crate::parser::ascii::{is_alphabetic, is_digit};
use crate::parser::SpecResult;
use crate::{Either, ParsedItem, Parser, ParserResult};

verus! {

pub open spec fn spec_alphanumeric(input: Seq<u8>) -> SpecResult<
    char,
    Either<error::AsciiAlphanumeric, error::EndOfInput>,
> {
    if input.len() == 0 {
        Err(Either::B(error::EndOfInput))
    } else {
        let b = input[0];
        if is_digit(b) || is_alphabetic(b) {
            Ok((input.drop_first(), b as char))
        } else {
            Err(Either::A(error::AsciiAlphanumeric))
        }
    }
}

/// Consume exactly one ASCII letter or digit.
pub fn alphanumeric(input: &[u8]) -> (r: ParserResult<
    '_,
    char,
    Either<error::AsciiAlphanumeric, error::EndOfInput>,
>)
    ensures
        match (r, spec_alphanumeric(input@)) {
            (Ok(item), Ok((rest, value))) => item.input@ == rest && item.value == value,
            (Err(e), Err(f)) => e == f,
            _ => false,
        },
{
    if input.len() == 0 {
        return Err(Either::B(error::EndOfInput));
    }
    let b = input[0];
    if (48 <= b && b <= 57) || (65 <= b && b <= 90) || (97 <= b && b <= 122) {
        let rest = vstd::slice::slice_subrange(input, 1, input.len());
        assert(rest@ =~= input@.drop_first());
        Ok(ParsedItem::from_parts(rest, b as char))
    } else {
        Err(Either::A(error::AsciiAlphanumeric))
    }
}

/// The parser that [`alphanumeric`] runs.
#[derive(Debug, Clone, Copy)]
pub struct Alphanumeric;

impl<'input> Parser<'input> for Alphanumeric {
    type Output = char;
    type Error = Either<error::AsciiAlphanumeric, error::EndOfInput>;
    type Model = char;

    open spec fn model(value: char) -> char {
        value
    }

    open spec fn wf(&self) -> bool {
        true
    }

    open spec fn spec_parse(&self, input: Seq<u8>) -> SpecResult<char, Self::Error> {
        spec_alphanumeric(input)
    }

    proof fn lemma_consumes_prefix(&self, input: Seq<u8>) {
        if input.len() > 0 {
            assert(input.drop_first() =~= input.subrange(1, input.len() as int));
        }
    }

    fn parse(self, input: &'input [u8]) -> (r: ParserResult<'input, char, Self::Error>) {
        alphanumeric(input)
    }
}

} // verus!
