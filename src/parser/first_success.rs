use vstd::prelude::*;

use crate::parser::{is_suffix, SpecResult};
use crate::{Parser, ParserResult};

verus! {

/// The outcome of the first of `parsers[i..]` that succeeds on `input`, if any does.
pub open spec fn first_ok<'input, P: Parser<'input>>(
    parsers: Seq<P>,
    input: Seq<u8>,
    i: int,
) -> Option<(Seq<u8>, P::Model)>
    decreases parsers.len() - i,
{
    if i < 0 || i >= parsers.len() {
        None
    } else {
        match parsers[i].spec_parse(input) {
            Ok(outcome) => Some(outcome),
            Err(_) => first_ok(parsers, input, i + 1),
        }
    }
}

proof fn lemma_first_ok_suffix<'input, P: Parser<'input>>(parsers: Seq<P>, input: Seq<u8>, i: int)
    ensures
        first_ok(parsers, input, i) matches Some((rest, _)) ==> is_suffix(rest, input),
    decreases parsers.len() - i,
{
    if 0 <= i < parsers.len() {
        parsers[i].lemma_consumes_prefix(input);
        lemma_first_ok_suffix(parsers, input, i + 1);
    }
}

/// Tries each of `parsers` on the same input, in order, and gives the outcome of the first that
/// succeeds. Where all fail, the error is that of the first.
pub struct FirstSuccess<P, const N: usize> {
    pub parsers: [P; N],
}

impl<P: Copy, const N: usize> Clone for FirstSuccess<P, N> {
    fn clone(&self) -> (r: Self)
        ensures
            r == *self,
    {
        *self
    }
}

impl<P: Copy, const N: usize> Copy for FirstSuccess<P, N> {

}

pub fn first_success<P, const N: usize>(parsers: [P; N]) -> (r: FirstSuccess<P, N>)
    requires
        N > 0,
    ensures
        r.parsers == parsers,
{
    FirstSuccess { parsers }
}

impl<'input, P: Parser<'input>, const N: usize> Parser<'input> for FirstSuccess<P, N> {
    type Output = P::Output;
    type Error = P::Error;
    type Model = P::Model;

    open spec fn model(value: P::Output) -> P::Model {
        P::model(value)
    }

    open spec fn wf(&self) -> bool {
        &&& N > 0
        &&& forall|i: int| 0 <= i < N ==> (#[trigger] self.parsers@[i]).wf()
    }

    open spec fn spec_parse(&self, input: Seq<u8>) -> SpecResult<P::Model, P::Error> {
        match self.parsers@[0].spec_parse(input) {
            Ok(outcome) => Ok(outcome),
            Err(e) => match first_ok(self.parsers@, input, 1) {
                Some(outcome) => Ok(outcome),
                None => Err(e),
            },
        }
    }

    proof fn lemma_consumes_prefix(&self, input: Seq<u8>) {
        self.parsers@[0].lemma_consumes_prefix(input);
        lemma_first_ok_suffix(self.parsers@, input, 1);
    }

    fn parse(self, input: &'input [u8]) -> (r: ParserResult<'input, P::Output, P::Error>) {
        let first_error = match self.parsers[0].parse(input) {
            Ok(parsed) => return Ok(parsed),
            Err(e) => e,
        };
        let mut i: usize = 1;
        while i < N
            invariant
                1 <= i <= N,
                self.wf(),
                self.parsers@[0].spec_parse(input@) == Err::<(Seq<u8>, P::Model), P::Error>(first_error),
                first_ok(self.parsers@, input@, 1) == first_ok(self.parsers@, input@, i as int),
            decreases N - i,
        {
            assert(self.parsers@[i as int].wf());
            match self.parsers[i].parse(input) {
                Ok(parsed) => return Ok(parsed),
                Err(_) => {},
            }
            i = i + 1;
        }
        Err(first_error)
    }
}

} // verus!
