use core::convert::Infallible;
use vstd::prelude::*;

use crate::combinator::n_to_m_raw::consumed;
use crate::combinator::repeat::{greedy_skip, keep_all, lemma_greedy_suffix, spec_greedy};
use crate::parser::SpecResult;
use crate::{Combinator, ParsedItem, Parser, ParserResult};

verus! {

/// Runs `parser` as [`crate::combinator::AtMostN`] does; the value is the input that the runs
/// consumed, not their values.
#[derive(Debug, Clone, Copy)]
pub struct AtMostNRaw<P> {
    pub parser: P,
    pub n: usize,
}

impl<'input, P: Parser<'input>> Parser<'input> for AtMostNRaw<P> {
    type Output = &'input [u8];
    type Error = Infallible;
    type Model = Seq<u8>;

    open spec fn model(value: &'input [u8]) -> Seq<u8> {
        value@
    }

    open spec fn wf(&self) -> bool {
        self.parser.wf()
    }

    open spec fn spec_parse(&self, input: Seq<u8>) -> SpecResult<Seq<u8>, Infallible> {
        let rest = spec_greedy(self.parser, keep_all(), input, self.n as nat, false).0;
        Ok((rest, consumed(input, rest)))
    }

    proof fn lemma_consumes_prefix(&self, input: Seq<u8>) {
        lemma_greedy_suffix(self.parser, keep_all(), input, self.n as nat, false);
    }

    fn parse(self, input: &'input [u8]) -> (r: ParserResult<'input, &'input [u8], Infallible>) {
        proof {
            self.lemma_consumes_prefix(input@);
        }
        let (rest, _) = greedy_skip(self.parser, input, self.n, false);
        let output = vstd::slice::slice_subrange(input, 0, input.len() - rest.len());
        Ok(ParsedItem::from_parts(rest, output))
    }
}

/// The combinator that repeats a parser at most `n` times and keeps the input consumed.
#[derive(Debug, Clone, Copy)]
pub struct AtMostNRawWith {
    pub n: usize,
}

pub fn at_most_n_raw(n: usize) -> (r: AtMostNRawWith)
    ensures
        r.n == n,
{
    AtMostNRawWith { n }
}

impl<'input, P: Parser<'input>> Combinator<'input, P> for AtMostNRawWith {
    type Applied = AtMostNRaw<P>;

    open spec fn spec_apply(&self, parser: P) -> AtMostNRaw<P> {
        AtMostNRaw { parser, n: self.n }
    }

    fn apply_to(&self, parser: P) -> (r: AtMostNRaw<P>) {
        AtMostNRaw { parser, n: self.n }
    }
}

} // verus!
