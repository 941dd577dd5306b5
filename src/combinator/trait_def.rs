use vstd::prelude::*;

use crate::Parser;

verus! {

/// A transformation of one parser into another.
pub trait Combinator<'input, P: Parser<'input>> {
    type Applied: Parser<'input>;

    spec fn spec_apply(&self, parser: P) -> Self::Applied;

    fn apply_to(&self, parser: P) -> (r: Self::Applied)
        ensures
            r == self.spec_apply(parser),
    ;
}

} // verus!
