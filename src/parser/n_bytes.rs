use vstd::prelude::*;

use crate::error;
use crate::parser::SpecResult;
use crate::{ParsedItem, Parser, ParserResult};

verus! {

/// Consumes the next `n` bytes and produces them.
#[derive(Debug, Clone, Copy)]
pub struct NBytes {
    pub n: usize,
}

pub fn n_bytes(n: usize) -> (r: NBytes)
    ensures
        r.n == n,
{
    NBytes { n }
}

impl<'input> Parser<'input> for NBytes {
    type Output = &'input [u8];
    type Error = error::EndOfInput;
    type Model = Seq<u8>;

    open spec fn model(value: &'input [u8]) -> Seq<u8> {
        value@
    }

    open spec fn wf(&self) -> bool {
        true
    }

    open spec fn spec_parse(&self, input: Seq<u8>) -> SpecResult<Seq<u8>, error::EndOfInput> {
        if input.len() < self.n {
            Err(error::EndOfInput)
        } else {
            Ok((input.subrange(self.n as int, input.len() as int), input.subrange(0, self.n as int)))
        }
    }

    proof fn lemma_consumes_prefix(&self, input: Seq<u8>) {
    }

    fn parse(self, input: &'input [u8]) -> (r: ParserResult<'input, &'input [u8], error::EndOfInput>) {
        if input.len() < self.n {
            return Err(error::EndOfInput);
        }
        let (value, rest) = input.split_at(self.n);
        Ok(ParsedItem::from_parts(rest, value))
    }
}

} // verus!
