use vstd::prelude::*;

use crate::combinator::{NToM, NToMRaw};
use crate::{Combinator, Parser};

verus! {

/// The combinator that repeats a parser exactly `n` times: [`NToM`] with `m == n`.
#[derive(Debug, Clone, Copy)]
pub struct ExactlyNWith {
    pub n: usize,
}

pub fn exactly_n(n: usize) -> (r: ExactlyNWith)
    ensures
        r.n == n,
{
    ExactlyNWith { n }
}

impl<'input, P: Parser<'input>> Combinator<'input, P> for ExactlyNWith {
    type Applied = NToM<P>;

    open spec fn spec_apply(&self, parser: P) -> NToM<P> {
        NToM { parser, n: self.n, m: self.n }
    }

    fn apply_to(&self, parser: P) -> (r: NToM<P>) {
        NToM { parser, n: self.n, m: self.n }
    }
}

/// The combinator that repeats a parser exactly `n` times and keeps the input consumed:
/// [`NToMRaw`] with `m == n`.
#[derive(Debug, Clone, Copy)]
pub struct ExactlyNRawWith {
    pub n: usize,
}

pub fn exactly_n_raw(n: usize) -> (r: ExactlyNRawWith)
    ensures
        r.n == n,
{
    ExactlyNRawWith { n }
}

impl<'input, P: Parser<'input>> Combinator<'input, P> for ExactlyNRawWith {
    type Applied = NToMRaw<P>;

    open spec fn spec_apply(&self, parser: P) -> NToMRaw<P> {
        NToMRaw { parser, n: self.n, m: self.n }
    }

    fn apply_to(&self, parser: P) -> (r: NToMRaw<P>) {
        NToMRaw { parser, n: self.n, m: self.n }
    }
}

} // verus!
