use vstd::prelude::*;

use crate::combinator::repeat::{
    greedy_skip, keep_all, lemma_greedy_suffix, lemma_suffix_trans, lemma_times_suffix,
    spec_greedy, spec_times, times_skip,
};
use crate::parser::SpecResult;
use crate::{Combinator, ParsedItem, Parser, ParserResult};

verus! {

/// Runs `parser` as [`crate::combinator::AtLeastN`] does, but for the count: the value is the
/// number of runs taken, and the runs after the first `n` stop where the count would pass
/// `usize::MAX`.
#[derive(Debug, Clone, Copy)]
pub struct DiscardAtLeastN<P> {
    pub parser: P,
    pub n: usize,
}

impl<'input, P: Parser<'input>> Parser<'input> for DiscardAtLeastN<P> {
    type Output = usize;
    type Error = P::Error;
    type Model = usize;

    open spec fn model(value: usize) -> usize {
        value
    }

    open spec fn wf(&self) -> bool {
        self.parser.wf()
    }

    open spec fn spec_parse(&self, input: Seq<u8>) -> SpecResult<usize, P::Error> {
        match spec_times(self.parser, input, self.n as nat) {
            Err(e) => Err(e),
            Ok((rest, _)) => {
                let (rest2, ws) = spec_greedy(
                    self.parser,
                    keep_all(),
                    rest,
                    (usize::MAX - self.n) as nat,
                    true,
                );
                Ok((rest2, (self.n + ws.len()) as usize))
            },
        }
    }

    proof fn lemma_consumes_prefix(&self, input: Seq<u8>) {
        lemma_times_suffix(self.parser, input, self.n as nat);
        if let Ok((rest, _)) = spec_times(self.parser, input, self.n as nat) {
            let extra = (usize::MAX - self.n) as nat;
            lemma_greedy_suffix(self.parser, keep_all(), rest, extra, true);
            lemma_suffix_trans(spec_greedy(self.parser, keep_all(), rest, extra, true).0, rest, input);
        }
    }

    fn parse(self, input: &'input [u8]) -> (r: ParserResult<'input, usize, P::Error>) {
        let rest = match times_skip(self.parser, input, self.n) {
            Ok(rest) => rest,
            Err(e) => return Err(e),
        };
        let (rest2, count) = greedy_skip(self.parser, rest, usize::MAX - self.n, true);
        proof {
            lemma_greedy_suffix(self.parser, keep_all(), rest@, (usize::MAX - self.n) as nat, true);
        }
        Ok(ParsedItem::from_parts(rest2, self.n + count))
    }
}

/// The combinator that counts at least `n` runs of a parser.
#[derive(Debug, Clone, Copy)]
pub struct DiscardAtLeastNWith {
    pub n: usize,
}

pub fn discard_at_least_n(n: usize) -> (r: DiscardAtLeastNWith)
    ensures
        r.n == n,
{
    DiscardAtLeastNWith { n }
}

impl<'input, P: Parser<'input>> Combinator<'input, P> for DiscardAtLeastNWith {
    type Applied = DiscardAtLeastN<P>;

    open spec fn spec_apply(&self, parser: P) -> DiscardAtLeastN<P> {
        DiscardAtLeastN { parser, n: self.n }
    }

    fn apply_to(&self, parser: P) -> (r: DiscardAtLeastN<P>) {
        DiscardAtLeastN { parser, n: self.n }
    }
}

} // verus!
