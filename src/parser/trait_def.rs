use vstd::prelude::*;

use core::convert::Infallible;
use core::marker::PhantomData;

use crate::combinator::{
    and, and_infallible, at_least_n, at_least_n_raw, at_most_n, at_most_n_raw, consume_while,
    discard_at_least_n, discard_while, exactly_n, exactly_n_raw, filter, filter_map, inspect,
    inspect_err, map_err, n_to_m, n_to_m_raw, or, And, AndInfallible, AtLeastN, AtLeastNRaw,
    AtMostN, AtMostNRaw, Combinator, ConsumeWhile, DiscardAtLeastN, DiscardWhile, Discarded,
    FilterMapped, Filtered, Inspected, InspectedErr, Mapped, MappedErr, NToM, NToMRaw, Optional,
    Or,
};
use crate::ParsedItem;

verus! {

/// What running a parser returns.
pub type ParserResult<'input, Output, Error> = Result<ParsedItem<'input, Output>, Error>;

/// The specification of a parse: the input that is left and the model of the value, or the
/// error.
pub type SpecResult<Model, Error> = Result<(Seq<u8>, Model), Error>;

/// `rest` is what is left of `input` after a prefix of it was consumed.
pub open spec fn is_suffix(rest: Seq<u8>, input: Seq<u8>) -> bool {
    rest.len() <= input.len() && rest == input.subrange(
        input.len() - rest.len(),
        input.len() as int,
    )
}

/// The outcome `r` of a run is the one that `s` specifies: the same error, or the same remaining
/// input and a value whose model is the specified one.
pub open spec fn agrees<'input, P: Parser<'input>>(
    r: ParserResult<'input, P::Output, P::Error>,
    s: SpecResult<P::Model, P::Error>,
) -> bool {
    match (r, s) {
        (Ok(item), Ok((rest, model))) => item.input@ == rest && P::model(item.value) == model,
        (Err(e), Err(f)) => e == f,
        _ => false,
    }
}

/// A type that is capable of consuming input and producing a parsed item.
///
/// A parser is a plain value that can be copied and run any number of times. Its behaviour is
/// the specification function [`Parser::spec_parse`], of the input bytes alone, so that two runs
/// on the same input have the same outcome.
pub trait Parser<'input>: Copy + Sized {
    type Output;
    type Error;
    /// What the contracts say of an output. For most parsers it is the output itself; for a
    /// vector it is the sequence of the models of its items, for a slice its bytes.
    type Model;

    spec fn model(value: Self::Output) -> Self::Model;

    /// The conditions under which the parser may run: the functions it holds are defined on
    /// every argument and give one result for arguments of equal model.
    spec fn wf(&self) -> bool;

    /// The outcome of parsing `input`.
    spec fn spec_parse(&self, input: Seq<u8>) -> SpecResult<Self::Model, Self::Error>;

    /// A parse consumes a prefix of its input and hands the rest on.
    proof fn lemma_consumes_prefix(&self, input: Seq<u8>)
        ensures
            self.spec_parse(input) matches Ok((rest, _)) ==> is_suffix(rest, input),
    ;

    fn parse(self, input: &'input [u8]) -> (r: ParserResult<'input, Self::Output, Self::Error>)
        requires
            self.wf(),
        ensures
            match (r, self.spec_parse(input@)) {
                (Ok(item), Ok((rest, model))) => item.input@ == rest && Self::model(item.value)
                    == model,
                (Err(e), Err(f)) => e == f,
                _ => false,
            },
    ;
}

/// A parser that cannot fail: its error type has no values.
pub trait InfallibleParser<'input>: Parser<'input, Error = Infallible> {

}

impl<'input, P: Parser<'input, Error = Infallible>> InfallibleParser<'input> for P {

}

/// The combinators as methods of every parser.
pub trait ParserExt<'input>: Parser<'input> {
    /// Applies a combinator to this parser.
    fn with<C: Combinator<'input, Self>>(self, combinator: &C) -> (r: C::Applied)
        ensures
            r == combinator.spec_apply(self),
    ;

    /// Runs this parser and then `other` on what is left.
    fn and<P2: Parser<'input>>(self, other: P2) -> (r: And<Self, P2>)
        ensures
            r == (And { first: self, second: other }),
    ;

    /// Runs this parser and then `other`, which cannot fail, on what is left.
    fn and_infallible<P2: InfallibleParser<'input>>(
        self,
        other: P2,
    ) -> (r: AndInfallible<Self, P2>)
        ensures
            r == (AndInfallible { first: self, second: other }),
    ;

    /// Repeats this parser at least `n` times; the value is the input consumed.
    fn at_least_n_raw(self, n: usize) -> (r: AtLeastNRaw<Self>)
        ensures
            r == (AtLeastNRaw { parser: self, n }),
    ;

    /// Repeats this parser at least `n` times.
    fn at_least_n(self, n: usize) -> (r: AtLeastN<Self>)
        ensures
            r == (AtLeastN { parser: self, n }),
    ;

    /// Repeats this parser at most `n` times; the value is the input consumed.
    fn at_most_n_raw(self, n: usize) -> (r: AtMostNRaw<Self>)
        ensures
            r == (AtMostNRaw { parser: self, n }),
    ;

    /// Repeats this parser at most `n` times.
    fn at_most_n(self, n: usize) -> (r: AtMostN<Self>)
        ensures
            r == (AtMostN { parser: self, n }),
    ;

    /// Repeats this parser while `f` holds of its values.
    fn consume_while<F: Fn(&Self::Output) -> bool + Copy>(
        self,
        f: F,
    ) -> (r: ConsumeWhile<Self, F>)
        ensures
            r == (ConsumeWhile { parser: self, f }),
    ;

    /// Repeats this parser at least `n` times; the value is the count.
    fn discard_at_least_n(self, n: usize) -> (r: DiscardAtLeastN<Self>)
        ensures
            r == (DiscardAtLeastN { parser: self, n }),
    ;

    /// Repeats this parser while `f` holds of its values; the value is the count.
    fn discard_while<F: Fn(&Self::Output) -> bool + Copy>(
        self,
        f: F,
    ) -> (r: DiscardWhile<Self, F>)
        ensures
            r == (DiscardWhile { parser: self, f }),
    ;

    /// Drops the value of this parser.
    fn discard(self) -> (r: Discarded<Self>)
        ensures
            r == (Discarded { parser: self }),
    ;

    /// Repeats this parser exactly `n` times; the value is the input consumed.
    fn exactly_n_raw(self, n: usize) -> (r: NToMRaw<Self>)
        ensures
            r == (NToMRaw { parser: self, n, m: n }),
    ;

    /// Repeats this parser exactly `n` times.
    fn exactly_n(self, n: usize) -> (r: NToM<Self>)
        ensures
            r == (NToM { parser: self, n, m: n }),
    ;

    /// Keeps the values of which `f` holds; the others are an error.
    fn filter<F: Fn(&Self::Output) -> bool + Copy>(self, f: F) -> (r: Filtered<Self, F>)
        ensures
            r == (Filtered { parser: self, f }),
    ;

    /// Maps the value with `f`, whose error becomes the parser's.
    fn filter_map<U, E, F: Fn(Self::Output) -> Result<U, E> + Copy>(
        self,
        f: F,
    ) -> (r: FilterMapped<Self, F, U, E>)
        ensures
            r == (FilterMapped::<Self, F, U, E> { parser: self, f, results: PhantomData }),
    ;

    /// Shows each error to `f`.
    fn inspect_err<F: Fn(&Self::Error) + Copy>(self, f: F) -> (r: InspectedErr<Self, F>)
        ensures
            r == (InspectedErr { parser: self, f }),
    ;

    /// Shows each value to `f`.
    fn inspect<F: Fn(&Self::Output) + Copy>(self, f: F) -> (r: Inspected<Self, F>)
        ensures
            r == (Inspected { parser: self, f }),
    ;

    /// Maps the value with `f`.
    fn map<U, F: Fn(Self::Output) -> U + Copy>(self, f: F) -> (r: Mapped<Self, F>)
        ensures
            r == (Mapped { parser: self, f }),
    ;

    /// Maps the error with `f`.
    fn map_err<E, F: Fn(Self::Error) -> E + Copy>(self, f: F) -> (r: MappedErr<Self, F>)
        ensures
            r == (MappedErr { parser: self, f }),
    ;

    /// Repeats this parser between `n` and `m` times; the value is the input consumed.
    fn n_to_m_raw(self, n: usize, m: usize) -> (r: NToMRaw<Self>)
        ensures
            r == (NToMRaw { parser: self, n, m }),
    ;

    /// Repeats this parser between `n` and `m` times.
    fn n_to_m(self, n: usize, m: usize) -> (r: NToM<Self>)
        ensures
            r == (NToM { parser: self, n, m }),
    ;

    /// Turns a failure into `None`.
    fn optional(self) -> (r: Optional<Self>)
        ensures
            r == (Optional { parser: self }),
    ;

    /// Tries this parser and, where it fails, `other`.
    fn or<P2: Parser<'input>>(self, other: P2) -> (r: Or<Self, P2>)
        ensures
            r == (Or { first: self, second: other }),
    ;
}

impl<'input, P: Parser<'input>> ParserExt<'input> for P {
    fn with<C: Combinator<'input, Self>>(self, combinator: &C) -> (r: C::Applied) {
        combinator.apply_to(self)
    }

    fn and<P2: Parser<'input>>(self, other: P2) -> (r: And<Self, P2>) {
        self.with(&and(other))
    }

    fn and_infallible<P2: InfallibleParser<'input>>(
        self,
        other: P2,
    ) -> (r: AndInfallible<Self, P2>) {
        self.with(&and_infallible(other))
    }

    fn at_least_n_raw(self, n: usize) -> (r: AtLeastNRaw<Self>) {
        self.with(&at_least_n_raw(n))
    }

    fn at_least_n(self, n: usize) -> (r: AtLeastN<Self>) {
        self.with(&at_least_n(n))
    }

    fn at_most_n_raw(self, n: usize) -> (r: AtMostNRaw<Self>) {
        self.with(&at_most_n_raw(n))
    }

    fn at_most_n(self, n: usize) -> (r: AtMostN<Self>) {
        self.with(&at_most_n(n))
    }

    fn consume_while<F: Fn(&Self::Output) -> bool + Copy>(
        self,
        f: F,
    ) -> (r: ConsumeWhile<Self, F>) {
        self.with(&consume_while(f))
    }

    fn discard_at_least_n(self, n: usize) -> (r: DiscardAtLeastN<Self>) {
        self.with(&discard_at_least_n(n))
    }

    fn discard_while<F: Fn(&Self::Output) -> bool + Copy>(
        self,
        f: F,
    ) -> (r: DiscardWhile<Self, F>) {
        self.with(&discard_while(f))
    }

    fn discard(self) -> (r: Discarded<Self>) {
        Discarded { parser: self }
    }

    fn exactly_n_raw(self, n: usize) -> (r: NToMRaw<Self>) {
        self.with(&exactly_n_raw(n))
    }

    fn exactly_n(self, n: usize) -> (r: NToM<Self>) {
        self.with(&exactly_n(n))
    }

    fn filter<F: Fn(&Self::Output) -> bool + Copy>(self, f: F) -> (r: Filtered<Self, F>) {
        self.with(&filter(f))
    }

    fn filter_map<U, E, F: Fn(Self::Output) -> Result<U, E> + Copy>(
        self,
        f: F,
    ) -> (r: FilterMapped<Self, F, U, E>) {
        self.with(&filter_map(f))
    }

    fn inspect_err<F: Fn(&Self::Error) + Copy>(self, f: F) -> (r: InspectedErr<Self, F>) {
        self.with(&inspect_err(f))
    }

    fn inspect<F: Fn(&Self::Output) + Copy>(self, f: F) -> (r: Inspected<Self, F>) {
        self.with(&inspect(f))
    }

    fn map<U, F: Fn(Self::Output) -> U + Copy>(self, f: F) -> (r: Mapped<Self, F>) {
        self.with(&crate::combinator::map::map(f))
    }

    fn map_err<E, F: Fn(Self::Error) -> E + Copy>(self, f: F) -> (r: MappedErr<Self, F>) {
        self.with(&map_err(f))
    }

    fn n_to_m_raw(self, n: usize, m: usize) -> (r: NToMRaw<Self>) {
        self.with(&n_to_m_raw(n, m))
    }

    fn n_to_m(self, n: usize, m: usize) -> (r: NToM<Self>) {
        self.with(&n_to_m(n, m))
    }

    fn optional(self) -> (r: Optional<Self>) {
        Optional { parser: self }
    }

    fn or<P2: Parser<'input>>(self, other: P2) -> (r: Or<Self, P2>) {
        self.with(&or(other))
    }
}

} // verus!
