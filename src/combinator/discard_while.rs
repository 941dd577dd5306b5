use core::convert::Infallible;
use vstd::prelude::*;

use crate::combinator::func::{keep_by, pred_respects_model, pred_total};
use crate::combinator::repeat::{greedy_while_skip, lemma_greedy_suffix, spec_greedy};
use crate::parser::SpecResult;
use crate::{Combinator, ParsedItem, Parser, ParserResult};

verus! {

/// Runs `parser` as [`crate::combinator::ConsumeWhile`] does; the value is the number of runs
/// taken. Never fails.
#[derive(Debug, Clone, Copy)]
pub struct DiscardWhile<P, F> {
    pub parser: P,
    pub f: F,
}

impl<'input, P, F> Parser<'input> for DiscardWhile<P, F> where
    P: Parser<'input>,
    F: Fn(&P::Output) -> bool + Copy,
 {
    type Output = usize;
    type Error = Infallible;
    type Model = usize;

    open spec fn model(value: usize) -> usize {
        value
    }

    open spec fn wf(&self) -> bool {
        self.parser.wf() && pred_total(self.f) && pred_respects_model::<'input, P, F>(self.f)
    }

    open spec fn spec_parse(&self, input: Seq<u8>) -> SpecResult<usize, Infallible> {
        let (rest, vs) = spec_greedy(
            self.parser,
            keep_by::<'input, P, F>(self.f),
            input,
            usize::MAX as nat,
            true,
        );
        Ok((rest, vs.len() as usize))
    }

    proof fn lemma_consumes_prefix(&self, input: Seq<u8>) {
        lemma_greedy_suffix(self.parser, keep_by::<'input, P, F>(self.f), input, usize::MAX as nat, true);
    }

    fn parse(self, input: &'input [u8]) -> (r: ParserResult<'input, usize, Infallible>) {
        let (rest, count) = greedy_while_skip(self.parser, &self.f, input, usize::MAX, true);
        Ok(ParsedItem::from_parts(rest, count))
    }
}

/// The combinator that counts the runs of a parser while `f` holds of its values.
#[derive(Debug, Clone, Copy)]
pub struct DiscardWhileWith<F> {
    pub f: F,
}

/// Discard items from the input while the predicate returns `true`.
pub fn discard_while<F>(f: F) -> (r: DiscardWhileWith<F>)
    ensures
        r.f == f,
{
    DiscardWhileWith { f }
}

impl<'input, P, F> Combinator<'input, P> for DiscardWhileWith<F> where
    P: Parser<'input>,
    F: Fn(&P::Output) -> bool + Copy,
 {
    type Applied = DiscardWhile<P, F>;

    open spec fn spec_apply(&self, parser: P) -> DiscardWhile<P, F> {
        DiscardWhile { parser, f: self.f }
    }

    fn apply_to(&self, parser: P) -> (r: DiscardWhile<P, F>) {
        DiscardWhile { parser, f: self.f }
    }
}

} // verus!
