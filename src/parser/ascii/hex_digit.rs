use vstd::prelude::*;

use crate::error;
use crate::parser::ascii::{exec_hex_value, hex_value, is_hex_digit};
use crate::parser::SpecResult;
use crate::{Either, ParsedItem, Parser, ParserResult};

verus! {

pub open spec fn spec_hex_digit(input: Seq<u8>) -> SpecResult<
    u8,
    Either<error::AsciiHexDigit, error::EndOfInput>,
> {
    if input.len() == 0 {
        Err(Either::B(error::EndOfInput))
    } else {
        let b = input[0];
        if is_hex_digit(b) {
            Ok((input.drop_first(), hex_value(b)))
        } else {
            Err(Either::A(error::AsciiHexDigit))
        }
    }
}

/// Consume exactly one ASCII hex digit; the value is the digit's value.
pub fn hex_digit(input: &[u8]) -> (r: ParserResult<
    '_,
    u8,
    Either<error::AsciiHexDigit, error::EndOfInput>,
>)
    ensures
        match (r, spec_hex_digit(input@)) {
            (Ok(item), Ok((rest, value))) => item.input@ == rest && item.value == value,
            (Err(e), Err(f)) => e == f,
            _ => false,
        },
{
    if input.len() == 0 {
        return Err(Either::B(error::EndOfInput));
    }
    let b = input[0];
    if (48 <= b && b <= 57) || (97 <= b && b <= 102) || (65 <= b && b <= 70) {
        let rest = vstd::slice::slice_subrange(input, 1, input.len());
        assert(rest@ =~= input@.drop_first());
        Ok(ParsedItem::from_parts(rest, exec_hex_value(b)))
    } else {
        Err(Either::A(error::AsciiHexDigit))
    }
}

/// The parser that [`hex_digit`] runs.
#[derive(Debug, Clone, Copy)]
pub struct HexDigit;

impl<'input> Parser<'input> for HexDigit {
    type Output = u8;
    type Error = Either<error::AsciiHexDigit, error::EndOfInput>;
    type Model = u8;

    open spec fn model(value: u8) -> u8 {
        value
    }

    open spec fn wf(&self) -> bool {
        true
    }

    open spec fn spec_parse(&self, input: Seq<u8>) -> SpecResult<u8, Self::Error> {
        spec_hex_digit(input)
    }

    proof fn lemma_consumes_prefix(&self, input: Seq<u8>) {
        if input.len() > 0 {
            assert(input.drop_first() =~= input.subrange(1, input.len() as int));
        }
    }

    fn parse(self, input: &'input [u8]) -> (r: ParserResult<'input, u8, Self::Error>) {
        hex_digit(input)
    }
}

} // verus!
