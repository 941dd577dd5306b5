use core::convert::Infallible;
use vstd::prelude::*;

use crate::combinator::repeat::{greedy_collect, keep_all, lemma_greedy_suffix, models, spec_greedy};
use crate::parser::SpecResult;
use crate::{Combinator, ParsedItem, Parser, ParserResult};

verus! {

/// Runs `parser` up to `n` times, each run on what the one before left, and stops at the first
/// failure, which is not taken. Never fails. The value is the vector of the values, in order.
#[derive(Debug, Clone, Copy)]
pub struct AtMostN<P> {
    pub parser: P,
    pub n: usize,
}

impl<'input, P: Parser<'input>> Parser<'input> for AtMostN<P> {
    type Output = Vec<P::Output>;
    type Error = Infallible;
    type Model = Seq<P::Model>;

    open spec fn model(value: Vec<P::Output>) -> Seq<P::Model> {
        models::<'input, P>(value@)
    }

    open spec fn wf(&self) -> bool {
        self.parser.wf()
    }

    open spec fn spec_parse(&self, input: Seq<u8>) -> SpecResult<Seq<P::Model>, Infallible> {
        Ok(spec_greedy(self.parser, keep_all(), input, self.n as nat, false))
    }

    proof fn lemma_consumes_prefix(&self, input: Seq<u8>) {
        lemma_greedy_suffix(self.parser, keep_all(), input, self.n as nat, false);
    }

    fn parse(self, input: &'input [u8]) -> (r: ParserResult<'input, Vec<P::Output>, Infallible>) {
        let mut output: Vec<P::Output> = Vec::new();
        assert(models::<'input, P>(output@) =~= Seq::empty());
        let rest = greedy_collect(self.parser, input, self.n, false, &mut output);
        Ok(ParsedItem::from_parts(rest, output))
    }
}

/// The combinator that repeats a parser at most `n` times.
#[derive(Debug, Clone, Copy)]
pub struct AtMostNWith {
    pub n: usize,
}

pub fn at_most_n(n: usize) -> (r: AtMostNWith)
    ensures
        r.n == n,
{
    AtMostNWith { n }
}

impl<'input, P: Parser<'input>> Combinator<'input, P> for AtMostNWith {
    type Applied = AtMostN<P>;

    open spec fn spec_apply(&self, parser: P) -> AtMostN<P> {
        AtMostN { parser, n: self.n }
    }

    fn apply_to(&self, parser: P) -> (r: AtMostN<P>) {
        AtMostN { parser, n: self.n }
    }
}

} // verus!
