use core::convert::Infallible;
use vstd::prelude::*;

use crate::combinator::func::{keep_by, pred_respects_model, pred_total};
use crate::combinator::repeat::{greedy_while_collect, lemma_greedy_suffix, models, spec_greedy};
use crate::parser::SpecResult;
use crate::{Combinator, ParsedItem, Parser, ParserResult};

verus! {

/// Runs `parser` for as long as it succeeds, consumes input and `f` holds of its value; the run
/// that ends this is not taken. Never fails. The value is the vector of the values taken.
#[derive(Debug, Clone, Copy)]
pub struct ConsumeWhile<P, F> {
    pub parser: P,
    pub f: F,
}

impl<'input, P, F> Parser<'input> for ConsumeWhile<P, F> where
    P: Parser<'input>,
    F: Fn(&P::Output) -> bool + Copy,
 {
    type Output = Vec<P::Output>;
    type Error = Infallible;
    type Model = Seq<P::Model>;

    open spec fn model(value: Vec<P::Output>) -> Seq<P::Model> {
        models::<'input, P>(value@)
    }

    open spec fn wf(&self) -> bool {
        self.parser.wf() && pred_total(self.f) && pred_respects_model::<'input, P, F>(self.f)
    }

    open spec fn spec_parse(&self, input: Seq<u8>) -> SpecResult<Seq<P::Model>, Infallible> {
        Ok(spec_greedy(self.parser, keep_by::<'input, P, F>(self.f), input, usize::MAX as nat, true))
    }

    proof fn lemma_consumes_prefix(&self, input: Seq<u8>) {
        lemma_greedy_suffix(self.parser, keep_by::<'input, P, F>(self.f), input, usize::MAX as nat, true);
    }

    fn parse(self, input: &'input [u8]) -> (r: ParserResult<'input, Vec<P::Output>, Infallible>) {
        let mut output: Vec<P::Output> = Vec::new();
        assert(models::<'input, P>(output@) =~= Seq::empty());
        let rest = greedy_while_collect(self.parser, &self.f, input, usize::MAX, true, &mut output);
        Ok(ParsedItem::from_parts(rest, output))
    }
}

/// The combinator that repeats a parser while `f` holds of its values.
#[derive(Debug, Clone, Copy)]
pub struct ConsumeWhileWith<F> {
    pub f: F,
}

/// Consume items from the input while the predicate returns `true`.
pub fn consume_while<F>(f: F) -> (r: ConsumeWhileWith<F>)
    ensures
        r.f == f,
{
    ConsumeWhileWith { f }
}

impl<'input, P, F> Combinator<'input, P> for ConsumeWhileWith<F> where
    P: Parser<'input>,
    F: Fn(&P::Output) -> bool + Copy,
 {
    type Applied = ConsumeWhile<P, F>;

    open spec fn spec_apply(&self, parser: P) -> ConsumeWhile<P, F> {
        ConsumeWhile { parser, f: self.f }
    }

    fn apply_to(&self, parser: P) -> (r: ConsumeWhile<P, F>) {
        ConsumeWhile { parser, f: self.f }
    }
}

} // verus!
