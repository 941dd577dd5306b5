//! The markers that leaf parsers fail with, and one enumeration of them all.
use vstd::prelude::*;

use crate::Either;

verus! {

/// A value was rejected by a predicate.
#[derive(Debug, Clone, Copy, PartialEq, Eq)]
pub struct Filter;

/// The end of input was reached while trying to parse the value.
#[derive(Debug, Clone, Copy, PartialEq, Eq)]
pub struct EndOfInput;

#[derive(Debug, Clone, Copy, PartialEq, Eq)]
pub struct AsciiDigit;

#[derive(Debug, Clone, Copy, PartialEq, Eq)]
pub struct AsciiAlphabetic;

#[derive(Debug, Clone, Copy, PartialEq, Eq)]
pub struct AsciiAlphanumeric;

#[derive(Debug, Clone, Copy, PartialEq, Eq)]
pub struct AsciiWhitespace;

#[derive(Debug, Clone, Copy, PartialEq, Eq)]
pub struct AsciiHexDigit;

/// The text is not a decimal integer of the requested type.
#[derive(Debug, Clone, Copy, PartialEq, Eq)]
pub struct AsciiInteger;

#[derive(Debug, Clone, Copy, PartialEq, Eq)]
pub struct Byte;

#[derive(Debug, Clone, Copy, PartialEq, Eq)]
pub struct NotEndOfInput;

#[derive(Debug, Clone, Copy, PartialEq, Eq)]
pub struct NonMatchingInput;

#[derive(Debug, Clone, Copy, PartialEq, Eq)]
pub struct Utf8Char;

/// Any one of the markers above.
#[non_exhaustive]
#[derive(Debug, Clone, Copy, PartialEq, Eq)]
pub enum Error {
    Filter(Filter),
    EndOfInput(EndOfInput),
    AsciiDigit(AsciiDigit),
    AsciiAlphabetic(AsciiAlphabetic),
    AsciiAlphanumeric(AsciiAlphanumeric),
    AsciiWhitespace(AsciiWhitespace),
    AsciiHexDigit(AsciiHexDigit),
    AsciiInteger(AsciiInteger),
    Byte(Byte),
    NotEndOfInput(NotEndOfInput),
    NonMatchingInput(NonMatchingInput),
    Utf8Char(Utf8Char),
}

/// A failure that can be reported as one [`Error`]: a marker, or an `Either` of two such.
pub trait Normalize {
    spec fn spec_normalize(&self) -> Error;

    fn normalize(self) -> (r: Error)
        ensures
            r == self.spec_normalize(),
    ;
}

impl<A: Normalize, B: Normalize> Normalize for Either<A, B> {
    open spec fn spec_normalize(&self) -> Error {
        match self {
            Either::A(a) => a.spec_normalize(),
            Either::B(b) => b.spec_normalize(),
        }
    }

    fn normalize(self) -> (r: Error) {
        match self {
            Either::A(a) => a.normalize(),
            Either::B(b) => b.normalize(),
        }
    }
}

impl<A: Normalize, B: Normalize> From<Either<A, B>> for Error {
    fn from(e: Either<A, B>) -> (r: Error) {
        e.normalize()
    }
}

impl<A: Normalize, B: Normalize> vstd::std_specs::convert::FromSpecImpl<Either<A, B>> for Error {
    open spec fn obeys_from_spec() -> bool {
        true
    }

    open spec fn from_spec(e: Either<A, B>) -> Error {
        e.spec_normalize()
    }
}

impl Normalize for Filter {
    open spec fn spec_normalize(&self) -> Error {
        Error::Filter(*self)
    }

    fn normalize(self) -> (r: Error) {
        Error::Filter(self)
    }
}

impl From<Filter> for Error {
    fn from(e: Filter) -> (r: Error) {
        Error::Filter(e)
    }
}

impl vstd::std_specs::convert::FromSpecImpl<Filter> for Error {
    open spec fn obeys_from_spec() -> bool {
        true
    }

    open spec fn from_spec(e: Filter) -> Error {
        Error::Filter(e)
    }
}

impl Normalize for EndOfInput {
    open spec fn spec_normalize(&self) -> Error {
        Error::EndOfInput(*self)
    }

    fn normalize(self) -> (r: Error) {
        Error::EndOfInput(self)
    }
}

impl From<EndOfInput> for Error {
    fn from(e: EndOfInput) -> (r: Error) {
        Error::EndOfInput(e)
    }
}

impl vstd::std_specs::convert::FromSpecImpl<EndOfInput> for Error {
    open spec fn obeys_from_spec() -> bool {
        true
    }

    open spec fn from_spec(e: EndOfInput) -> Error {
        Error::EndOfInput(e)
    }
}

impl Normalize for AsciiDigit {
    open spec fn spec_normalize(&self) -> Error {
        Error::AsciiDigit(*self)
    }

    fn normalize(self) -> (r: Error) {
        Error::AsciiDigit(self)
    }
}

impl From<AsciiDigit> for Error {
    fn from(e: AsciiDigit) -> (r: Error) {
        Error::AsciiDigit(e)
    }
}

impl vstd::std_specs::convert::FromSpecImpl<AsciiDigit> for Error {
    open spec fn obeys_from_spec() -> bool {
        true
    }

    open spec fn from_spec(e: AsciiDigit) -> Error {
        Error::AsciiDigit(e)
    }
}

impl Normalize for AsciiAlphabetic {
    open spec fn spec_normalize(&self) -> Error {
        Error::AsciiAlphabetic(*self)
    }

    fn normalize(self) -> (r: Error) {
        Error::AsciiAlphabetic(self)
    }
}

impl From<AsciiAlphabetic> for Error {
    fn from(e: AsciiAlphabetic) -> (r: Error) {
        Error::AsciiAlphabetic(e)
    }
}

impl vstd::std_specs::convert::FromSpecImpl<AsciiAlphabetic> for Error {
    open spec fn obeys_from_spec() -> bool {
        true
    }

    open spec fn from_spec(e: AsciiAlphabetic) -> Error {
        Error::AsciiAlphabetic(e)
    }
}

impl Normalize for AsciiAlphanumeric {
    open spec fn spec_normalize(&self) -> Error {
        Error::AsciiAlphanumeric(*self)
    }

    fn normalize(self) -> (r: Error) {
        Error::AsciiAlphanumeric(self)
    }
}

impl From<AsciiAlphanumeric> for Error {
    fn from(e: AsciiAlphanumeric) -> (r: Error) {
        Error::AsciiAlphanumeric(e)
    }
}

impl vstd::std_specs::convert::FromSpecImpl<AsciiAlphanumeric> for Error {
    open spec fn obeys_from_spec() -> bool {
        true
    }

    open spec fn from_spec(e: AsciiAlphanumeric) -> Error {
        Error::AsciiAlphanumeric(e)
    }
}

impl Normalize for AsciiWhitespace {
    open spec fn spec_normalize(&self) -> Error {
        Error::AsciiWhitespace(*self)
    }

    fn normalize(self) -> (r: Error) {
        Error::AsciiWhitespace(self)
    }
}

impl From<AsciiWhitespace> for Error {
    fn from(e: AsciiWhitespace) -> (r: Error) {
        Error::AsciiWhitespace(e)
    }
}

impl vstd::std_specs::convert::FromSpecImpl<AsciiWhitespace> for Error {
    open spec fn obeys_from_spec() -> bool {
        true
    }

    open spec fn from_spec(e: AsciiWhitespace) -> Error {
        Error::AsciiWhitespace(e)
    }
}

impl Normalize for AsciiHexDigit {
    open spec fn spec_normalize(&self) -> Error {
        Error::AsciiHexDigit(*self)
    }

    fn normalize(self) -> (r: Error) {
        Error::AsciiHexDigit(self)
    }
}

impl From<AsciiHexDigit> for Error {
    fn from(e: AsciiHexDigit) -> (r: Error) {
        Error::AsciiHexDigit(e)
    }
}

impl vstd::std_specs::convert::FromSpecImpl<AsciiHexDigit> for Error {
    open spec fn obeys_from_spec() -> bool {
        true
    }

    open spec fn from_spec(e: AsciiHexDigit) -> Error {
        Error::AsciiHexDigit(e)
    }
}

impl Normalize for AsciiInteger {
    open spec fn spec_normalize(&self) -> Error {
        Error::AsciiInteger(*self)
    }

    fn normalize(self) -> (r: Error) {
        Error::AsciiInteger(self)
    }
}

impl From<AsciiInteger> for Error {
    fn from(e: AsciiInteger) -> (r: Error) {
        Error::AsciiInteger(e)
    }
}

impl vstd::std_specs::convert::FromSpecImpl<AsciiInteger> for Error {
    open spec fn obeys_from_spec() -> bool {
        true
    }

    open spec fn from_spec(e: AsciiInteger) -> Error {
        Error::AsciiInteger(e)
    }
}

impl Normalize for Byte {
    open spec fn spec_normalize(&self) -> Error {
        Error::Byte(*self)
    }

    fn normalize(self) -> (r: Error) {
        Error::Byte(self)
    }
}

impl From<Byte> for Error {
    fn from(e: Byte) -> (r: Error) {
        Error::Byte(e)
    }
}

impl vstd::std_specs::convert::FromSpecImpl<Byte> for Error {
    open spec fn obeys_from_spec() -> bool {
        true
    }

    open spec fn from_spec(e: Byte) -> Error {
        Error::Byte(e)
    }
}

impl Normalize for NotEndOfInput {
    open spec fn spec_normalize(&self) -> Error {
        Error::NotEndOfInput(*self)
    }

    fn normalize(self) -> (r: Error) {
        Error::NotEndOfInput(self)
    }
}

impl From<NotEndOfInput> for Error {
    fn from(e: NotEndOfInput) -> (r: Error) {
        Error::NotEndOfInput(e)
    }
}

impl vstd::std_specs::convert::FromSpecImpl<NotEndOfInput> for Error {
    open spec fn obeys_from_spec() -> bool {
        true
    }

    open spec fn from_spec(e: NotEndOfInput) -> Error {
        Error::NotEndOfInput(e)
    }
}

impl Normalize for NonMatchingInput {
    open spec fn spec_normalize(&self) -> Error {
        Error::NonMatchingInput(*self)
    }

    fn normalize(self) -> (r: Error) {
        Error::NonMatchingInput(self)
    }
}

impl From<NonMatchingInput> for Error {
    fn from(e: NonMatchingInput) -> (r: Error) {
        Error::NonMatchingInput(e)
    }
}

impl vstd::std_specs::convert::FromSpecImpl<NonMatchingInput> for Error {
    open spec fn obeys_from_spec() -> bool {
        true
    }

    open spec fn from_spec(e: NonMatchingInput) -> Error {
        Error::NonMatchingInput(e)
    }
}

impl Normalize for Utf8Char {
    open spec fn spec_normalize(&self) -> Error {
        Error::Utf8Char(*self)
    }

    fn normalize(self) -> (r: Error) {
        Error::Utf8Char(self)
    }
}

impl From<Utf8Char> for Error {
    fn from(e: Utf8Char) -> (r: Error) {
        Error::Utf8Char(e)
    }
}

impl vstd::std_specs::convert::FromSpecImpl<Utf8Char> for Error {
    open spec fn obeys_from_spec() -> bool {
        true
    }

    open spec fn from_spec(e: Utf8Char) -> Error {
        Error::Utf8Char(e)
    }
}

} // verus!
