use vstd::prelude::*;

use crate::combinator::n_to_m::optional_runs;
use crate::combinator::repeat::{
    greedy_skip, keep_all, lemma_greedy_suffix, lemma_suffix_trans, lemma_times_suffix,
    spec_greedy, spec_times, times_skip,
};
use crate::parser::SpecResult;
use crate::{Combinator, ParsedItem, Parser, ParserResult};

verus! {

/// The prefix of `input` that was consumed, where `rest` is left.
pub open spec fn consumed(input: Seq<u8>, rest: Seq<u8>) -> Seq<u8> {
    input.subrange(0, input.len() - rest.len())
}

/// Runs `parser` as [`crate::combinator::NToM`] does; the value is the input that the runs
/// consumed, not their values.
#[derive(Debug, Clone, Copy)]
pub struct NToMRaw<P> {
    pub parser: P,
    pub n: usize,
    pub m: usize,
}

impl<'input, P: Parser<'input>> Parser<'input> for NToMRaw<P> {
    type Output = &'input [u8];
    type Error = P::Error;
    type Model = Seq<u8>;

    open spec fn model(value: &'input [u8]) -> Seq<u8> {
        value@
    }

    open spec fn wf(&self) -> bool {
        self.parser.wf()
    }

    open spec fn spec_parse(&self, input: Seq<u8>) -> SpecResult<Seq<u8>, P::Error> {
        match spec_times(self.parser, input, self.n as nat) {
            Err(e) => Err(e),
            Ok((rest, _)) => {
                let rest2 = spec_greedy(
                    self.parser,
                    keep_all(),
                    rest,
                    optional_runs(self.n, self.m),
                    false,
                ).0;
                Ok((rest2, consumed(input, rest2)))
            },
        }
    }

    proof fn lemma_consumes_prefix(&self, input: Seq<u8>) {
        lemma_times_suffix(self.parser, input, self.n as nat);
        if let Ok((rest, _)) = spec_times(self.parser, input, self.n as nat) {
            let extra = optional_runs(self.n, self.m);
            lemma_greedy_suffix(self.parser, keep_all(), rest, extra, false);
            lemma_suffix_trans(spec_greedy(self.parser, keep_all(), rest, extra, false).0, rest, input);
        }
    }

    fn parse(self, input: &'input [u8]) -> (r: ParserResult<'input, &'input [u8], P::Error>) {
        proof {
            self.lemma_consumes_prefix(input@);
        }
        let rest = match times_skip(self.parser, input, self.n) {
            Ok(rest) => rest,
            Err(e) => return Err(e),
        };
        let extra = if self.n <= self.m {
            self.m - self.n
        } else {
            0
        };
        let (rest, _) = greedy_skip(self.parser, rest, extra, false);
        let output = vstd::slice::slice_subrange(input, 0, input.len() - rest.len());
        Ok(ParsedItem::from_parts(rest, output))
    }
}

/// The combinator that repeats a parser between `n` and `m` times and keeps the input consumed.
#[derive(Debug, Clone, Copy)]
pub struct NToMRawWith {
    pub n: usize,
    pub m: usize,
}

pub fn n_to_m_raw(n: usize, m: usize) -> (r: NToMRawWith)
    ensures
        r.n == n,
        r.m == m,
{
    NToMRawWith { n, m }
}

impl<'input, P: Parser<'input>> Combinator<'input, P> for NToMRawWith {
    type Applied = NToMRaw<P>;

    open spec fn spec_apply(&self, parser: P) -> NToMRaw<P> {
        NToMRaw { parser, n: self.n, m: self.m }
    }

    fn apply_to(&self, parser: P) -> (r: NToMRaw<P>) {
        NToMRaw { parser, n: self.n, m: self.m }
    }
}

} // verus!
