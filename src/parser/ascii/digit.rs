use vstd::prelude::*;

use crate::error;
use crate::parser::ascii::is_digit;
use crate::parser::SpecResult;
use crate::{Either, ParsedItem, Parser, ParserResult};

verus! {

pub open spec fn spec_digit(input: Seq<u8>) -> SpecResult<
    u8,
    Either<error::AsciiDigit, error::EndOfInput>,
> {
    if input.len() == 0 {
        Err(Either::B(error::EndOfInput))
    } else {
        let b = input[0];
        if is_digit(b) {
            Ok((input.drop_first(), (b - 48) as u8))
        } else {
            Err(Either::A(error::AsciiDigit))
        }
    }
}

/// Consume exactly one ASCII digit; the value is the digit's value.
pub fn digit(input: &[u8]) -> (r: ParserResult<
    '_,
    u8,
    Either<error::AsciiDigit, error::EndOfInput>,
>)
    ensures
        match (r, spec_digit(input@)) {
            (Ok(item), Ok((rest, value))) => item.input@ == rest && item.value == value,
            (Err(e), Err(f)) => e == f,
            _ => false,
        },
{
    if input.len() == 0 {
        return Err(Either::B(error::EndOfInput));
    }
    let b = input[0];
    if 48 <= b && b <= 57 {
        let rest = vstd::slice::slice_subrange(input, 1, input.len());
        assert(rest@ =~= input@.drop_first());
        Ok(ParsedItem::from_parts(rest, b - 48))
    } else {
        Err(Either::A(error::AsciiDigit))
    }
}

/// The parser that [`digit`] runs.
#[derive(Debug, Clone, Copy)]
pub struct Digit;

impl<'input> Parser<'input> for Digit {
    type Output = u8;
    type Error = Either<error::AsciiDigit, error::EndOfInput>;
    type Model = u8;

    open spec fn model(value: u8) -> u8 {
        value
    }

    open spec fn wf(&self) -> bool {
        true
    }

    open spec fn spec_parse(&self, input: Seq<u8>) -> SpecResult<u8, Self::Error> {
        spec_digit(input)
    }

    proof fn lemma_consumes_prefix(&self, input: Seq<u8>) {
        if input.len() > 0 {
            assert(input.drop_first() =~= input.subrange(1, input.len() as int));
        }
    }

    fn parse(self, input: &'input [u8]) -> (r: ParserResult<'input, u8, Self::Error>) {
        digit(input)
    }
}

} // verus!
