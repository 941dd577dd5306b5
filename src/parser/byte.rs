use vstd::prelude::*;

use crate::error;
use crate::parser::{any_byte, SpecResult};
use crate::{Either, ParsedItem, Parser, ParserResult};

verus! {

/// Consumes the byte `expected` and produces it.
#[derive(Debug, Clone, Copy)]
pub struct ExactByte {
    pub expected: u8,
}

/// Consume the exact byte.
pub fn byte(expected: u8) -> (r: ExactByte)
    ensures
        r.expected == expected,
{
    ExactByte { expected }
}

impl<'input> Parser<'input> for ExactByte {
    type Output = u8;
    type Error = Either<error::Byte, error::EndOfInput>;
    type Model = u8;

    open spec fn model(value: u8) -> u8 {
        value
    }

    open spec fn wf(&self) -> bool {
        true
    }

    open spec fn spec_parse(&self, input: Seq<u8>) -> SpecResult<u8, Self::Error> {
        if input.len() == 0 {
            Err(Either::B(error::EndOfInput))
        } else if input[0] != self.expected {
            Err(Either::A(error::Byte))
        } else {
            Ok((input.drop_first(), self.expected))
        }
    }

    proof fn lemma_consumes_prefix(&self, input: Seq<u8>) {
        if input.len() > 0 {
            assert(input.drop_first() =~= input.subrange(1, input.len() as int));
        }
    }

    fn parse(self, input: &'input [u8]) -> (r: ParserResult<'input, u8, Self::Error>) {
        match any_byte(input) {
            Ok(item) => {
                if item.value == self.expected {
                    Ok(item)
                } else {
                    Err(Either::A(error::Byte))
                }
            },
            Err(e) => Err(Either::B(e)),
        }
    }
}

} // verus!
