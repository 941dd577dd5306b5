use core::convert::Infallible;
use vstd::prelude::*;

use crate::parser::SpecResult;
use crate::{ParsedItem, Parser, ParserResult};

verus! {

/// Consumes nothing and produces `value`; never fails.
#[derive(Debug, Clone, Copy)]
pub struct Succeed<T> {
    pub value: T,
}

pub fn success<T: Copy>(value: T) -> (r: Succeed<T>)
    ensures
        r.value == value,
{
    Succeed { value }
}

impl<'input, T: Copy> Parser<'input> for Succeed<T> {
    type Output = T;
    type Error = Infallible;
    type Model = T;

    open spec fn model(value: T) -> T {
        value
    }

    open spec fn wf(&self) -> bool {
        true
    }

    open spec fn spec_parse(&self, input: Seq<u8>) -> SpecResult<T, Infallible> {
        Ok((input, self.value))
    }

    proof fn lemma_consumes_prefix(&self, input: Seq<u8>) {
        assert(input =~= input.subrange(0, input.len() as int));
    }

    fn parse(self, input: &'input [u8]) -> (r: ParserResult<'input, T, Infallible>) {
        Ok(ParsedItem::from_parts(input, self.value))
    }
}

} // verus!
