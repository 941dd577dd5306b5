use vstd::prelude::*;

use crate::combinator::repeat::{
    greedy_collect, keep_all, lemma_greedy_suffix, lemma_suffix_trans, lemma_times_suffix, models,
    spec_greedy, spec_times, times_collect,
};
use crate::parser::SpecResult;
use crate::{Combinator, ParsedItem, Parser, ParserResult};

verus! {

/// Runs `parser` `n` times, each run on what the one before left; a failure among these is the
/// error. Then more runs for as long as they succeed and consume input: a run that fails, or
/// succeeds without consuming anything, ends the repetition and is not taken. The value is the
/// vector of all the values, in order.
#[derive(Debug, Clone, Copy)]
pub struct AtLeastN<P> {
    pub parser: P,
    pub n: usize,
}

impl<'input, P: Parser<'input>> Parser<'input> for AtLeastN<P> {
    type Output = Vec<P::Output>;
    type Error = P::Error;
    type Model = Seq<P::Model>;

    open spec fn model(value: Vec<P::Output>) -> Seq<P::Model> {
        models::<'input, P>(value@)
    }

    open spec fn wf(&self) -> bool {
        self.parser.wf()
    }

    open spec fn spec_parse(&self, input: Seq<u8>) -> SpecResult<Seq<P::Model>, P::Error> {
        match spec_times(self.parser, input, self.n as nat) {
            Err(e) => Err(e),
            Ok((rest, vs)) => {
                let (rest2, ws) = spec_greedy(self.parser, keep_all(), rest, usize::MAX as nat, true);
                Ok((rest2, vs + ws))
            },
        }
    }

    proof fn lemma_consumes_prefix(&self, input: Seq<u8>) {
        lemma_times_suffix(self.parser, input, self.n as nat);
        if let Ok((rest, _)) = spec_times(self.parser, input, self.n as nat) {
            lemma_greedy_suffix(self.parser, keep_all(), rest, usize::MAX as nat, true);
            lemma_suffix_trans(
                spec_greedy(self.parser, keep_all(), rest, usize::MAX as nat, true).0,
                rest,
                input,
            );
        }
    }

    fn parse(self, input: &'input [u8]) -> (r: ParserResult<'input, Vec<P::Output>, P::Error>) {
        let mut output: Vec<P::Output> = Vec::new();
        assert(models::<'input, P>(output@) =~= Seq::empty());
        let rest = match times_collect(self.parser, input, self.n, &mut output) {
            Ok(rest) => rest,
            Err(e) => return Err(e),
        };
        let rest = greedy_collect(self.parser, rest, usize::MAX, true, &mut output);
        Ok(ParsedItem::from_parts(rest, output))
    }
}

/// The combinator that repeats a parser at least `n` times.
#[derive(Debug, Clone, Copy)]
pub struct AtLeastNWith {
    pub n: usize,
}

pub fn at_least_n(n: usize) -> (r: AtLeastNWith)
    ensures
        r.n == n,
{
    AtLeastNWith { n }
}

impl<'input, P: Parser<'input>> Combinator<'input, P> for AtLeastNWith {
    type Applied = AtLeastN<P>;

    open spec fn spec_apply(&self, parser: P) -> AtLeastN<P> {
        AtLeastN { parser, n: self.n }
    }

    fn apply_to(&self, parser: P) -> (r: AtLeastN<P>) {
        AtLeastN { parser, n: self.n }
    }
}

} // verus!
