use vstd::prelude::*;

verus! {

/// What a successful parse step produces: the input that is left and the value.
#[derive(Debug, Clone, Copy, PartialEq, Eq)]
pub struct ParsedItem<'input, T> {
    pub input: &'input [u8],
    pub value: T,
}

impl<'input, T> ParsedItem<'input, T> {
    pub fn from_parts(input: &'input [u8], value: T) -> (r: Self)
        ensures
            r.input == input,
            r.value == value,
    {
        ParsedItem { input, value }
    }

    pub fn input(&self) -> (r: &'input [u8])
        ensures
            r == self.input,
    {
        self.input
    }

    pub fn value(&self) -> (r: &T)
        ensures
            *r == self.value,
    {
        &self.value
    }

    pub fn into_value(self) -> (r: T)
        ensures
            r == self.value,
    {
        self.value
    }

    pub fn into_parts(self) -> (r: (&'input [u8], T))
        ensures
            r.0 == self.input,
            r.1 == self.value,
    {
        (self.input, self.value)
    }

    /// Replaces the value by `f` of it; the remaining input is kept.
    pub fn map_value<F, U>(self, f: F) -> (r: ParsedItem<'input, U>)
        where
            F: FnOnce(T) -> U,
        requires
            f.requires((self.value,)),
        ensures
            r.input == self.input,
            f.ensures((self.value,), r.value),
    {
        ParsedItem::from_parts(self.input, f(self.value))
    }

    /// Replaces the value by what `f` makes of it, or fails with `f`'s error.
    pub fn filter_map_value<F, U, E>(self, f: F) -> (r: Result<ParsedItem<'input, U>, E>)
        where
            F: FnOnce(T) -> Result<U, E>,
        requires
            f.requires((self.value,)),
        ensures
            match r {
                Ok(item) => item.input == self.input && f.ensures((self.value,), Ok(item.value)),
                Err(e) => f.ensures((self.value,), Err(e)),
            },
    {
        let input = self.input;
        match f(self.value) {
            Ok(value) => Ok(ParsedItem::from_parts(input, value)),
            Err(e) => Err(e),
        }
    }
}

} // verus!
