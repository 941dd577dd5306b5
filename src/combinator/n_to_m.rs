use vstd::prelude::*;

use crate::combinator::repeat::{
    greedy_collect, keep_all, lemma_greedy_suffix, lemma_suffix_trans, lemma_times_suffix, models,
    spec_greedy, spec_times, times_collect,
};
use crate::parser::SpecResult;
use crate::{Combinator, ParsedItem, Parser, ParserResult};

verus! {

/// How many optional runs follow the `n` mandatory ones: `m - n`, and none where `m < n`.
pub open spec fn optional_runs(n: usize, m: usize) -> nat {
    if n <= m {
        (m - n) as nat
    } else {
        0
    }
}

/// Runs `parser` `n` times, each run on what the one before left; a failure among these is the
/// error. Then up to `m - n` more runs, while they succeed. The value is the vector of all the
/// values, in order. Where `m < n`, exactly `n` runs are made.
#[derive(Debug, Clone, Copy)]
pub struct NToM<P> {
    pub parser: P,
    pub n: usize,
    pub m: usize,
}

impl<'input, P: Parser<'input>> Parser<'input> for NToM<P> {
    type Output = Vec<P::Output>;
    type Error = P::Error;
    type Model = Seq<P::Model>;

    open spec fn model(value: Vec<P::Output>) -> Seq<P::Model> {
        models::<'input, P>(value@)
    }

    open spec fn wf(&self) -> bool {
        self.parser.wf()
    }

    open spec fn spec_parse(&self, input: Seq<u8>) -> SpecResult<Seq<P::Model>, P::Error> {
        match spec_times(self.parser, input, self.n as nat) {
            Err(e) => Err(e),
            Ok((rest, vs)) => {
                let (rest2, ws) = spec_greedy(
                    self.parser,
                    keep_all(),
                    rest,
                    optional_runs(self.n, self.m),
                    false,
                );
                Ok((rest2, vs + ws))
            },
        }
    }

    proof fn lemma_consumes_prefix(&self, input: Seq<u8>) {
        lemma_times_suffix(self.parser, input, self.n as nat);
        if let Ok((rest, _)) = spec_times(self.parser, input, self.n as nat) {
            let extra = optional_runs(self.n, self.m);
            lemma_greedy_suffix(self.parser, keep_all(), rest, extra, false);
            lemma_suffix_trans(spec_greedy(self.parser, keep_all(), rest, extra, false).0, rest, input);
        }
    }

    fn parse(self, input: &'input [u8]) -> (r: ParserResult<'input, Vec<P::Output>, P::Error>) {
        let mut output: Vec<P::Output> = Vec::new();
        assert(models::<'input, P>(output@) =~= Seq::empty());
        let rest = match times_collect(self.parser, input, self.n, &mut output) {
            Ok(rest) => rest,
            Err(e) => return Err(e),
        };
        let extra = if self.n <= self.m {
            self.m - self.n
        } else {
            0
        };
        let rest = greedy_collect(self.parser, rest, extra, false, &mut output);
        Ok(ParsedItem::from_parts(rest, output))
    }
}

/// The combinator that repeats a parser between `n` and `m` times.
#[derive(Debug, Clone, Copy)]
pub struct NToMWith {
    pub n: usize,
    pub m: usize,
}

pub fn n_to_m(n: usize, m: usize) -> (r: NToMWith)
    ensures
        r.n == n,
        r.m == m,
{
    NToMWith { n, m }
}

impl<'input, P: Parser<'input>> Combinator<'input, P> for NToMWith {
    type Applied = NToM<P>;

    open spec fn spec_apply(&self, parser: P) -> NToM<P> {
        NToM { parser, n: self.n, m: self.m }
    }

    fn apply_to(&self, parser: P) -> (r: NToM<P>) {
        NToM { parser, n: self.n, m: self.m }
    }
}

} // verus!
