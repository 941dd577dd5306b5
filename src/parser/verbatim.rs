use vstd::prelude::*;

use crate::error;
use crate::parser::SpecResult;
use crate::{Either, ParsedItem, Parser, ParserResult};

verus! {

/// `input` starts with `expected`.
pub open spec fn starts_with(input: Seq<u8>, expected: Seq<u8>) -> bool {
    expected.len() <= input.len() && input.subrange(0, expected.len() as int) == expected
}

/// Whether `input` starts with `expected`.
pub fn has_prefix(input: &[u8], expected: &[u8]) -> (r: bool)
    ensures
        r == starts_with(input@, expected@),
{
    if input.len() < expected.len() {
        return false;
    }
    let mut i: usize = 0;
    while i < expected.len()
        invariant
            i <= expected@.len() <= input@.len(),
            forall|j: int| 0 <= j < i ==> input@[j] == expected@[j],
        decreases expected.len() - i,
    {
        if input[i] != expected[i] {
            assert(input@.subrange(0, expected.len() as int)[i as int] != expected@[i as int]);
            return false;
        }
        i = i + 1;
    }
    assert(input@.subrange(0, expected.len() as int) =~= expected@);
    true
}

/// Consumes the bytes `expected` and produces them.
#[derive(Debug, Clone, Copy)]
pub struct Verbatim<'expected> {
    pub expected: &'expected [u8],
}

pub fn verbatim(expected: &[u8]) -> (r: Verbatim<'_>)
    ensures
        r.expected == expected,
{
    Verbatim { expected }
}

impl<'input, 'expected> Parser<'input> for Verbatim<'expected> {
    type Output = &'expected [u8];
    type Error = Either<error::NonMatchingInput, error::EndOfInput>;
    type Model = Seq<u8>;

    open spec fn model(value: &'expected [u8]) -> Seq<u8> {
        value@
    }

    open spec fn wf(&self) -> bool {
        true
    }

    open spec fn spec_parse(&self, input: Seq<u8>) -> SpecResult<Seq<u8>, Self::Error> {
        if input.len() < self.expected@.len() {
            Err(Either::B(error::EndOfInput))
        } else if starts_with(input, self.expected@) {
            Ok((input.subrange(self.expected@.len() as int, input.len() as int), self.expected@))
        } else {
            Err(Either::A(error::NonMatchingInput))
        }
    }

    proof fn lemma_consumes_prefix(&self, input: Seq<u8>) {
    }

    fn parse(self, input: &'input [u8]) -> (r: ParserResult<'input, &'expected [u8], Self::Error>) {
        if input.len() < self.expected.len() {
            return Err(Either::B(error::EndOfInput));
        }
        if has_prefix(input, self.expected) {
            let rest = vstd::slice::slice_subrange(input, self.expected.len(), input.len());
            Ok(ParsedItem::from_parts(rest, self.expected))
        } else {
            Err(Either::A(error::NonMatchingInput))
        }
    }
}

} // verus!
