use core::marker::PhantomData;
use vstd::prelude::*;

use crate::error;
use crate::parser::ascii::is_digit;
use crate::parser::SpecResult;
use crate::{Either, ParsedItem, Parser, ParserResult};

verus! {

/// A primitive integer type that [`integer`] can produce.
pub trait Integer: Copy {
    spec fn spec_signed() -> bool;

    spec fn spec_min() -> int;

    spec fn spec_max() -> int;

    /// How many digits, after leading zeros, are read at most.
    spec fn spec_max_digits() -> nat;

    spec fn as_int(self) -> int;

    proof fn lemma_bounds(self)
        ensures
            Self::spec_min() <= self.as_int() <= Self::spec_max(),
            Self::spec_min() <= 0 < Self::spec_max(),
            !Self::spec_signed() ==> Self::spec_min() == 0,
    ;

    fn is_signed() -> (r: bool)
        ensures
            r == Self::spec_signed(),
    ;

    fn max_digits() -> (r: usize)
        ensures
            r == Self::spec_max_digits(),
    ;

    fn zero() -> (r: Self)
        ensures
            r.as_int() == 0,
    ;

    /// `self * 10 + digit`, or `None` where that is out of the type's range.
    fn try_push_digit(self, digit: i8) -> (r: Option<Self>)
        requires
            -9 <= digit <= 9,
            (self.as_int() >= 0 && digit >= 0) || (self.as_int() <= 0 && digit <= 0),
        ensures
            match r {
                Some(v) => v.as_int() == self.as_int() * 10 + digit,
                None => !(Self::spec_min() <= self.as_int() * 10 + digit <= Self::spec_max()),
            },
    ;
}

impl Integer for u8 {
    open spec fn spec_signed() -> bool {
        false
    }

    open spec fn spec_min() -> int {
        u8::MIN as int
    }

    open spec fn spec_max() -> int {
        u8::MAX as int
    }

    open spec fn spec_max_digits() -> nat {
        3
    }

    open spec fn as_int(self) -> int {
        self as int
    }

    proof fn lemma_bounds(self) {
    }

    fn is_signed() -> (r: bool) {
        false
    }

    fn max_digits() -> (r: usize) {
        3
    }

    fn zero() -> (r: Self) {
        0
    }

    fn try_push_digit(self, digit: i8) -> (r: Option<Self>) {
        if digit < 0 {
            return None;
        }
        match self.checked_mul(10) {
            Some(v) => v.checked_add(digit as u8),
            None => None,
        }
    }
}

impl Integer for i8 {
    open spec fn spec_signed() -> bool {
        true
    }

    open spec fn spec_min() -> int {
        i8::MIN as int
    }

    open spec fn spec_max() -> int {
        i8::MAX as int
    }

    open spec fn spec_max_digits() -> nat {
        3
    }

    open spec fn as_int(self) -> int {
        self as int
    }

    proof fn lemma_bounds(self) {
    }

    fn is_signed() -> (r: bool) {
        true
    }

    fn max_digits() -> (r: usize) {
        3
    }

    fn zero() -> (r: Self) {
        0
    }

    fn try_push_digit(self, digit: i8) -> (r: Option<Self>) {
        match self.checked_mul(10) {
            Some(v) => v.checked_add(digit as i8),
            None => None,
        }
    }
}

impl Integer for u16 {
    open spec fn spec_signed() -> bool {
        false
    }

    open spec fn spec_min() -> int {
        u16::MIN as int
    }

    open spec fn spec_max() -> int {
        u16::MAX as int
    }

    open spec fn spec_max_digits() -> nat {
        5
    }

    open spec fn as_int(self) -> int {
        self as int
    }

    proof fn lemma_bounds(self) {
    }

    fn is_signed() -> (r: bool) {
        false
    }

    fn max_digits() -> (r: usize) {
        5
    }

    fn zero() -> (r: Self) {
        0
    }

    fn try_push_digit(self, digit: i8) -> (r: Option<Self>) {
        if digit < 0 {
            return None;
        }
        match self.checked_mul(10) {
            Some(v) => v.checked_add(digit as u16),
            None => None,
        }
    }
}

impl Integer for i16 {
    open spec fn spec_signed() -> bool {
        true
    }

    open spec fn spec_min() -> int {
        i16::MIN as int
    }

    open spec fn spec_max() -> int {
        i16::MAX as int
    }

    open spec fn spec_max_digits() -> nat {
        5
    }

    open spec fn as_int(self) -> int {
        self as int
    }

    proof fn lemma_bounds(self) {
    }

    fn is_signed() -> (r: bool) {
        true
    }

    fn max_digits() -> (r: usize) {
        5
    }

    fn zero() -> (r: Self) {
        0
    }

    fn try_push_digit(self, digit: i8) -> (r: Option<Self>) {
        match self.checked_mul(10) {
            Some(v) => v.checked_add(digit as i16),
            None => None,
        }
    }
}

impl Integer for u32 {
    open spec fn spec_signed() -> bool {
        false
    }

    open spec fn spec_min() -> int {
        u32::MIN as int
    }

    open spec fn spec_max() -> int {
        u32::MAX as int
    }

    open spec fn spec_max_digits() -> nat {
        10
    }

    open spec fn as_int(self) -> int {
        self as int
    }

    proof fn lemma_bounds(self) {
    }

    fn is_signed() -> (r: bool) {
        false
    }

    fn max_digits() -> (r: usize) {
        10
    }

    fn zero() -> (r: Self) {
        0
    }

    fn try_push_digit(self, digit: i8) -> (r: Option<Self>) {
        if digit < 0 {
            return None;
        }
        match self.checked_mul(10) {
            Some(v) => v.checked_add(digit as u32),
            None => None,
        }
    }
}

impl Integer for i32 {
    open spec fn spec_signed() -> bool {
        true
    }

    open spec fn spec_min() -> int {
        i32::MIN as int
    }

    open spec fn spec_max() -> int {
        i32::MAX as int
    }

    open spec fn spec_max_digits() -> nat {
        10
    }

    open spec fn as_int(self) -> int {
        self as int
    }

    proof fn lemma_bounds(self) {
    }

    fn is_signed() -> (r: bool) {
        true
    }

    fn max_digits() -> (r: usize) {
        10
    }

    fn zero() -> (r: Self) {
        0
    }

    fn try_push_digit(self, digit: i8) -> (r: Option<Self>) {
        match self.checked_mul(10) {
            Some(v) => v.checked_add(digit as i32),
            None => None,
        }
    }
}

impl Integer for u64 {
    open spec fn spec_signed() -> bool {
        false
    }

    open spec fn spec_min() -> int {
        u64::MIN as int
    }

    open spec fn spec_max() -> int {
        u64::MAX as int
    }

    open spec fn spec_max_digits() -> nat {
        20
    }

    open spec fn as_int(self) -> int {
        self as int
    }

    proof fn lemma_bounds(self) {
    }

    fn is_signed() -> (r: bool) {
        false
    }

    fn max_digits() -> (r: usize) {
        20
    }

    fn zero() -> (r: Self) {
        0
    }

    fn try_push_digit(self, digit: i8) -> (r: Option<Self>) {
        if digit < 0 {
            return None;
        }
        match self.checked_mul(10) {
            Some(v) => v.checked_add(digit as u64),
            None => None,
        }
    }
}

impl Integer for i64 {
    open spec fn spec_signed() -> bool {
        true
    }

    open spec fn spec_min() -> int {
        i64::MIN as int
    }

    open spec fn spec_max() -> int {
        i64::MAX as int
    }

    open spec fn spec_max_digits() -> nat {
        20
    }

    open spec fn as_int(self) -> int {
        self as int
    }

    proof fn lemma_bounds(self) {
    }

    fn is_signed() -> (r: bool) {
        true
    }

    fn max_digits() -> (r: usize) {
        20
    }

    fn zero() -> (r: Self) {
        0
    }

    fn try_push_digit(self, digit: i8) -> (r: Option<Self>) {
        match self.checked_mul(10) {
            Some(v) => v.checked_add(digit as i64),
            None => None,
        }
    }
}

impl Integer for u128 {
    open spec fn spec_signed() -> bool {
        false
    }

    open spec fn spec_min() -> int {
        u128::MIN as int
    }

    open spec fn spec_max() -> int {
        u128::MAX as int
    }

    open spec fn spec_max_digits() -> nat {
        39
    }

    open spec fn as_int(self) -> int {
        self as int
    }

    proof fn lemma_bounds(self) {
    }

    fn is_signed() -> (r: bool) {
        false
    }

    fn max_digits() -> (r: usize) {
        39
    }

    fn zero() -> (r: Self) {
        0
    }

    fn try_push_digit(self, digit: i8) -> (r: Option<Self>) {
        if digit < 0 {
            return None;
        }
        match self.checked_mul(10) {
            Some(v) => v.checked_add(digit as u128),
            None => None,
        }
    }
}

impl Integer for i128 {
    open spec fn spec_signed() -> bool {
        true
    }

    open spec fn spec_min() -> int {
        i128::MIN as int
    }

    open spec fn spec_max() -> int {
        i128::MAX as int
    }

    open spec fn spec_max_digits() -> nat {
        39
    }

    open spec fn as_int(self) -> int {
        self as int
    }

    proof fn lemma_bounds(self) {
    }

    fn is_signed() -> (r: bool) {
        true
    }

    fn max_digits() -> (r: usize) {
        39
    }

    fn zero() -> (r: Self) {
        0
    }

    fn try_push_digit(self, digit: i8) -> (r: Option<Self>) {
        match self.checked_mul(10) {
            Some(v) => v.checked_add(digit as i128),
            None => None,
        }
    }
}

/// The number of `'0'` bytes that `s` starts with.
pub open spec fn leading_zeros(s: Seq<u8>) -> nat
    decreases s.len(),
{
    if s.len() > 0 && s[0] == 48 {
        1 + leading_zeros(s.drop_first())
    } else {
        0
    }
}

/// The number of ASCII digits that `s` starts with.
pub open spec fn leading_digits(s: Seq<u8>) -> nat
    decreases s.len(),
{
    if s.len() > 0 && is_digit(s[0]) {
        1 + leading_digits(s.drop_first())
    } else {
        0
    }
}

/// The value of a sequence of ASCII digits, read in base ten.
pub open spec fn decimal_value(digits: Seq<u8>) -> int
    decreases digits.len(),
{
    if digits.len() == 0 {
        0
    } else {
        decimal_value(digits.drop_last()) * 10 + (digits.last() - 48)
    }
}

/// A decimal integer of type `T`: an optional `-` (an error for an unsigned type), any number of
/// leading zeros, then at most `T`'s number of digits. Digits past that number are left in the
/// input. The value must lie in `T`'s range. The model is the value as an integer.
pub open spec fn spec_int<T: Integer>(input: Seq<u8>) -> SpecResult<
    int,
    Either<error::AsciiInteger, error::EndOfInput>,
> {
    if input.len() == 0 {
        Err(Either::B(error::EndOfInput))
    } else if input[0] == 45 && !T::spec_signed() {
        Err(Either::A(error::AsciiInteger))
    } else {
        let negative = input[0] == 45;
        let unsigned = if negative {
            input.drop_first()
        } else {
            input
        };
        let zeros = leading_zeros(unsigned);
        let after = unsigned.subrange(zeros as int, unsigned.len() as int);
        let count = if leading_digits(after) < T::spec_max_digits() {
            leading_digits(after)
        } else {
            T::spec_max_digits()
        };
        let rest = after.subrange(count as int, after.len() as int);
        let magnitude = decimal_value(after.subrange(0, count as int));
        let value = if negative {
            -magnitude
        } else {
            magnitude
        };
        if count == 0 && zeros == 0 {
            Err(Either::A(error::AsciiInteger))
        } else if T::spec_min() <= value <= T::spec_max() {
            Ok((rest, value))
        } else {
            Err(Either::A(error::AsciiInteger))
        }
    }
}

proof fn lemma_decimal_monotone(s: Seq<u8>, i: int, j: int)
    requires
        0 <= i <= j <= s.len(),
        forall|k: int| 0 <= k < s.len() ==> is_digit(#[trigger] s[k]),
    ensures
        0 <= decimal_value(s.subrange(0, i)) <= decimal_value(s.subrange(0, j)),
    decreases j,
{
    if j > 0 {
        assert(s.subrange(0, j).drop_last() =~= s.subrange(0, j - 1));
        if i < j {
            lemma_decimal_monotone(s, i, j - 1);
        } else {
            lemma_decimal_monotone(s, i - 1, j - 1);
            assert(s.subrange(0, i).drop_last() =~= s.subrange(0, i - 1));
        }
    }
}

/// Parse a decimal integer of type `T`; see [`spec_int`].
pub fn integer<T: Integer>(input: &[u8]) -> (r: ParserResult<
    '_,
    T,
    Either<error::AsciiInteger, error::EndOfInput>,
>)
    ensures
        match (r, spec_int::<T>(input@)) {
            (Ok(item), Ok((rest, value))) => item.input@ == rest && item.value.as_int() == value,
            (Err(e), Err(f)) => e == f,
            _ => false,
        },
{
    if input.len() == 0 {
        return Err(Either::B(error::EndOfInput));
    }
    let negative = input[0] == 45;
    if negative && !T::is_signed() {
        return Err(Either::A(error::AsciiInteger));
    }
    let unsigned = if negative {
        vstd::slice::slice_subrange(input, 1, input.len())
    } else {
        input
    };
    assert(negative ==> unsigned@ =~= input@.drop_first());

    let mut zeros: usize = 0;
    assert(unsigned@.subrange(0, unsigned@.len() as int) =~= unsigned@);
    while zeros < unsigned.len() && unsigned[zeros] == 48
        invariant
            zeros <= unsigned@.len(),
            leading_zeros(unsigned@) == zeros + leading_zeros(
                unsigned@.subrange(zeros as int, unsigned@.len() as int),
            ),
        decreases unsigned.len() - zeros,
    {
        let ghost tail = unsigned@.subrange(zeros as int, unsigned@.len() as int);
        assert(tail.drop_first() =~= unsigned@.subrange(zeros + 1, unsigned@.len() as int));
        zeros = zeros + 1;
    }
    proof {
        let tail = unsigned@.subrange(zeros as int, unsigned@.len() as int);
        assert(leading_zeros(tail) == 0);
    }
    let after = vstd::slice::slice_subrange(unsigned, zeros, unsigned.len());

    let max_digits = T::max_digits();
    let mut count: usize = 0;
    assert(after@.subrange(0, after@.len() as int) =~= after@);
    while count < max_digits && count < after.len() && 48 <= after[count] && after[count] <= 57
        invariant
            count <= max_digits,
            count <= after@.len(),
            leading_digits(after@) == count + leading_digits(
                after@.subrange(count as int, after@.len() as int),
            ),
            forall|k: int| 0 <= k < count ==> is_digit(#[trigger] after@[k]),
        decreases after.len() - count,
    {
        let ghost tail = after@.subrange(count as int, after@.len() as int);
        assert(tail.drop_first() =~= after@.subrange(count + 1, after@.len() as int));
        count = count + 1;
    }
    proof {
        let tail = after@.subrange(count as int, after@.len() as int);
        assert(count == max_digits || leading_digits(tail) == 0);
    }
    let rest = vstd::slice::slice_subrange(after, count, after.len());
    if count == 0 {
        if zeros == 0 {
            return Err(Either::A(error::AsciiInteger));
        }
        assert(after@.subrange(0, 0) =~= Seq::<u8>::empty());
        let zero = T::zero();
        proof {
            zero.lemma_bounds();
        }
        return Ok(ParsedItem::from_parts(rest, zero));
    }

    let ghost digits = after@.subrange(0, count as int);
    let ghost target = if negative {
        -decimal_value(digits)
    } else {
        decimal_value(digits)
    };
    let ghost outcome = spec_int::<T>(input@);
    assert(outcome == if T::spec_min() <= target <= T::spec_max() {
        Ok::<_, Either<error::AsciiInteger, error::EndOfInput>>((rest@, target))
    } else {
        Err(Either::A(error::AsciiInteger))
    });
    let mut value = T::zero();
    let mut i: usize = 0;
    while i < count
        invariant
            i <= count <= after@.len(),
            digits == after@.subrange(0, count as int),
            target == if negative {
                -decimal_value(digits)
            } else {
                decimal_value(digits)
            },
            outcome == spec_int::<T>(input@),
            outcome == if T::spec_min() <= target <= T::spec_max() {
                Ok::<_, Either<error::AsciiInteger, error::EndOfInput>>((rest@, target))
            } else {
                Err(Either::A(error::AsciiInteger))
            },
            forall|k: int| 0 <= k < count ==> is_digit(#[trigger] after@[k]),
            value.as_int() == if negative {
                -decimal_value(digits.subrange(0, i as int))
            } else {
                decimal_value(digits.subrange(0, i as int))
            },
        decreases count - i,
    {
        proof {
            assert forall|k: int| 0 <= k < digits.len() implies is_digit(#[trigger] digits[k]) by {
                assert(digits[k] == after@[k]);
            }
            lemma_decimal_monotone(digits, i as int, i as int);
            assert(digits.subrange(0, i + 1).drop_last() =~= digits.subrange(0, i as int));
            assert(digits[i as int] == after@[i as int]);
        }
        let d = (after[i] - 48) as i8;
        let d = if negative {
            -d
        } else {
            d
        };
        match value.try_push_digit(d) {
            Some(v) => value = v,
            None => {
                proof {
                    value.lemma_bounds();
                    lemma_decimal_monotone(digits, i + 1, count as int);
                    assert(digits.subrange(0, count as int) =~= digits);
                }
                return Err(Either::A(error::AsciiInteger));
            },
        }
        i = i + 1;
    }
    proof {
        value.lemma_bounds();
        assert(digits.subrange(0, count as int) =~= digits);
    }
    Ok(ParsedItem::from_parts(rest, value))
}

/// The parser that [`integer`] runs for `T`.
pub struct AsciiInt<T> {
    pub target: PhantomData<T>,
}

impl<T> Clone for AsciiInt<T> {
    fn clone(&self) -> (r: Self)
        ensures
            r == *self,
    {
        *self
    }
}

impl<T> Copy for AsciiInt<T> {

}

impl<'input, T: Integer> Parser<'input> for AsciiInt<T> {
    type Output = T;
    type Error = Either<error::AsciiInteger, error::EndOfInput>;
    type Model = int;

    open spec fn model(value: T) -> int {
        value.as_int()
    }

    open spec fn wf(&self) -> bool {
        true
    }

    open spec fn spec_parse(&self, input: Seq<u8>) -> SpecResult<int, Self::Error> {
        spec_int::<T>(input)
    }

    proof fn lemma_consumes_prefix(&self, input: Seq<u8>) {
        if input.len() > 0 {
            let negative = input[0] == 45;
            let unsigned = if negative {
                input.drop_first()
            } else {
                input
            };
            let zeros = leading_zeros(unsigned);
            lemma_leading_zeros_bound(unsigned);
            let after = unsigned.subrange(zeros as int, unsigned.len() as int);
            lemma_leading_digits_bound(after);
            assert(negative ==> unsigned =~= input.subrange(1, input.len() as int));
            if let Ok((rest, _)) = spec_int::<T>(input) {
                assert(rest =~= input.subrange(input.len() - rest.len(), input.len() as int));
            }
        }
    }

    fn parse(self, input: &'input [u8]) -> (r: ParserResult<'input, T, Self::Error>) {
        integer::<T>(input)
    }
}

proof fn lemma_leading_zeros_bound(s: Seq<u8>)
    ensures
        leading_zeros(s) <= s.len(),
    decreases s.len(),
{
    if s.len() > 0 {
        lemma_leading_zeros_bound(s.drop_first());
    }
}

proof fn lemma_leading_digits_bound(s: Seq<u8>)
    ensures
        leading_digits(s) <= s.len(),
    decreases s.len(),
{
    if s.len() > 0 {
        lemma_leading_digits_bound(s.drop_first());
    }
}

} // verus!
