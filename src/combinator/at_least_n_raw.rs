use vstd::prelude::*;

use crate::combinator::n_to_m_raw::consumed;
use crate::combinator::repeat::{
    greedy_skip, keep_all, lemma_greedy_suffix, lemma_suffix_trans, lemma_times_suffix,
    spec_greedy, spec_times, times_skip,
};
use crate::parser::SpecResult;
use crate::{Combinator, ParsedItem, Parser, ParserResult};

verus! {

/// Runs `parser` as [`crate::combinator::AtLeastN`] does; the value is the input that the runs
/// consumed, not their values.
#[derive(Debug, Clone, Copy)]
pub struct AtLeastNRaw<P> {
    pub parser: P,
    pub n: usize,
}

impl<'input, P: Parser<'input>> Parser<'input> for AtLeastNRaw<P> {
    type Output = &'input [u8];
    type Error = P::Error;
    type Model = Seq<u8>;

    open spec fn model(value: &'input [u8]) -> Seq<u8> {
        value@
    }

    open spec fn wf(&self) -> bool {
        self.parser.wf()
    }

    open spec fn spec_parse(&self, input: Seq<u8>) -> SpecResult<Seq<u8>, P::Error> {
        match spec_times(self.parser, input, self.n as nat) {
            Err(e) => Err(e),
            Ok((rest, _)) => {
                let rest2 = spec_greedy(self.parser, keep_all(), rest, usize::MAX as nat, true).0;
                Ok((rest2, consumed(input, rest2)))
            },
        }
    }

    proof fn lemma_consumes_prefix(&self, input: Seq<u8>) {
        lemma_times_suffix(self.parser, input, self.n as nat);
        if let Ok((rest, _)) = spec_times(self.parser, input, self.n as nat) {
            lemma_greedy_suffix(self.parser, keep_all(), rest, usize::MAX as nat, true);
            lemma_suffix_trans(
                spec_greedy(self.parser, keep_all(), rest, usize::MAX as nat, true).0,
                rest,
                input,
            );
        }
    }

    fn parse(self, input: &'input [u8]) -> (r: ParserResult<'input, &'input [u8], P::Error>) {
        proof {
            self.lemma_consumes_prefix(input@);
        }
        let rest = match times_skip(self.parser, input, self.n) {
            Ok(rest) => rest,
            Err(e) => return Err(e),
        };
        let (rest, _) = greedy_skip(self.parser, rest, usize::MAX, true);
        let output = vstd::slice::slice_subrange(input, 0, input.len() - rest.len());
        Ok(ParsedItem::from_parts(rest, output))
    }
}

/// The combinator that repeats a parser at least `n` times and keeps the input consumed.
#[derive(Debug, Clone, Copy)]
pub struct AtLeastNRawWith {
    pub n: usize,
}

pub fn at_least_n_raw(n: usize) -> (r: AtLeastNRawWith)
    ensures
        r.n == n,
{
    AtLeastNRawWith { n }
}

impl<'input, P: Parser<'input>> Combinator<'input, P> for AtLeastNRawWith {
    type Applied = AtLeastNRaw<P>;

    open spec fn spec_apply(&self, parser: P) -> AtLeastNRaw<P> {
        AtLeastNRaw { parser, n: self.n }
    }

    fn apply_to(&self, parser: P) -> (r: AtLeastNRaw<P>) {
        AtLeastNRaw { parser, n: self.n }
    }
}

} // verus!
