//! Integers read from their bytes in big-endian, little-endian or the machine's order.
use core::marker::PhantomData;
use vstd::prelude::*;

use crate::error;
use crate::parser::NBytes;
use crate::parser::SpecResult;
use crate::{ParsedItem, Parser, ParserResult};

verus! {

/// `256` to the power `n`.
pub open spec fn pow256(n: nat) -> nat
    decreases n,
{
    if n == 0 {
        1
    } else {
        (256 * pow256((n - 1) as nat)) as nat
    }
}

/// The bytes read as an unsigned number, most significant first.
pub open spec fn be_value(bytes: Seq<u8>) -> nat
    decreases bytes.len(),
{
    if bytes.len() == 0 {
        0
    } else {
        (be_value(bytes.drop_last()) * 256 + bytes.last()) as nat
    }
}

/// The bytes read as an unsigned number, least significant first.
pub open spec fn le_value(bytes: Seq<u8>) -> nat
    decreases bytes.len(),
{
    if bytes.len() == 0 {
        0
    } else {
        (le_value(bytes.drop_first()) * 256 + bytes[0]) as nat
    }
}

proof fn lemma_be_bound(bytes: Seq<u8>)
    ensures
        be_value(bytes) < pow256(bytes.len()),
    decreases bytes.len(),
{
    if bytes.len() > 0 {
        lemma_be_bound(bytes.drop_last());
    }
}

proof fn lemma_le_bound(bytes: Seq<u8>)
    ensures
        le_value(bytes) < pow256(bytes.len()),
    decreases bytes.len(),
{
    if bytes.len() > 0 {
        lemma_le_bound(bytes.drop_first());
    }
}

/// A primitive integer type that can be read from its bytes.
pub trait Integer: Copy {
    /// The number of bytes of the type.
    spec fn spec_size() -> nat;

    spec fn spec_signed() -> bool;

    spec fn as_int(self) -> int;

    fn size() -> (r: usize)
        ensures
            r == Self::spec_size(),
            1 <= r <= 16,
    ;

    /// The value of the type whose bits are those of the unsigned number `raw`.
    fn from_raw(raw: u128) -> (r: Self)
        requires
            raw < pow256(Self::spec_size()),
        ensures
            r.as_int() == if Self::spec_signed() && raw >= pow256(Self::spec_size()) / 2 {
                raw - pow256(Self::spec_size())
            } else {
                raw as int
            },
    ;
}

impl Integer for u8 {
    open spec fn spec_size() -> nat {
        1
    }

    open spec fn spec_signed() -> bool {
        false
    }

    open spec fn as_int(self) -> int {
        self as int
    }

    fn size() -> (r: usize) {
        1
    }

    fn from_raw(raw: u128) -> (r: Self) {
        proof {
            lemma_pow256_values();
        }
        raw as u8
    }
}

impl Integer for i8 {
    open spec fn spec_size() -> nat {
        1
    }

    open spec fn spec_signed() -> bool {
        true
    }

    open spec fn as_int(self) -> int {
        self as int
    }

    fn size() -> (r: usize) {
        1
    }

    fn from_raw(raw: u128) -> (r: Self) {
        proof {
            lemma_pow256_values();
        }
        if raw >= 0x80 {
            ((raw - 0x80) as i8) + i8::MIN
        } else {
            raw as i8
        }
    }
}

impl Integer for u16 {
    open spec fn spec_size() -> nat {
        2
    }

    open spec fn spec_signed() -> bool {
        false
    }

    open spec fn as_int(self) -> int {
        self as int
    }

    fn size() -> (r: usize) {
        2
    }

    fn from_raw(raw: u128) -> (r: Self) {
        proof {
            lemma_pow256_values();
        }
        raw as u16
    }
}

impl Integer for i16 {
    open spec fn spec_size() -> nat {
        2
    }

    open spec fn spec_signed() -> bool {
        true
    }

    open spec fn as_int(self) -> int {
        self as int
    }

    fn size() -> (r: usize) {
        2
    }

    fn from_raw(raw: u128) -> (r: Self) {
        proof {
            lemma_pow256_values();
        }
        if raw >= 0x8000 {
            ((raw - 0x8000) as i16) + i16::MIN
        } else {
            raw as i16
        }
    }
}

impl Integer for u32 {
    open spec fn spec_size() -> nat {
        4
    }

    open spec fn spec_signed() -> bool {
        false
    }

    open spec fn as_int(self) -> int {
        self as int
    }

    fn size() -> (r: usize) {
        4
    }

    fn from_raw(raw: u128) -> (r: Self) {
        proof {
            lemma_pow256_values();
        }
        raw as u32
    }
}

impl Integer for i32 {
    open spec fn spec_size() -> nat {
        4
    }

    open spec fn spec_signed() -> bool {
        true
    }

    open spec fn as_int(self) -> int {
        self as int
    }

    fn size() -> (r: usize) {
        4
    }

    fn from_raw(raw: u128) -> (r: Self) {
        proof {
            lemma_pow256_values();
        }
        if raw >= 0x80000000 {
            ((raw - 0x80000000) as i32) + i32::MIN
        } else {
            raw as i32
        }
    }
}

impl Integer for u64 {
    open spec fn spec_size() -> nat {
        8
    }

    open spec fn spec_signed() -> bool {
        false
    }

    open spec fn as_int(self) -> int {
        self as int
    }

    fn size() -> (r: usize) {
        8
    }

    fn from_raw(raw: u128) -> (r: Self) {
        proof {
            lemma_pow256_values();
        }
        raw as u64
    }
}

impl Integer for i64 {
    open spec fn spec_size() -> nat {
        8
    }

    open spec fn spec_signed() -> bool {
        true
    }

    open spec fn as_int(self) -> int {
        self as int
    }

    fn size() -> (r: usize) {
        8
    }

    fn from_raw(raw: u128) -> (r: Self) {
        proof {
            lemma_pow256_values();
        }
        if raw >= 0x8000000000000000 {
            ((raw - 0x8000000000000000) as i64) + i64::MIN
        } else {
            raw as i64
        }
    }
}

impl Integer for u128 {
    open spec fn spec_size() -> nat {
        16
    }

    open spec fn spec_signed() -> bool {
        false
    }

    open spec fn as_int(self) -> int {
        self as int
    }

    fn size() -> (r: usize) {
        16
    }

    fn from_raw(raw: u128) -> (r: Self) {
        proof {
            lemma_pow256_values();
        }
        raw as u128
    }
}

impl Integer for i128 {
    open spec fn spec_size() -> nat {
        16
    }

    open spec fn spec_signed() -> bool {
        true
    }

    open spec fn as_int(self) -> int {
        self as int
    }

    fn size() -> (r: usize) {
        16
    }

    fn from_raw(raw: u128) -> (r: Self) {
        proof {
            lemma_pow256_values();
        }
        if raw >= 0x80000000000000000000000000000000 {
            ((raw - 0x80000000000000000000000000000000) as i128) + i128::MIN
        } else {
            raw as i128
        }
    }
}

/// The value of `T` whose bits, read as an unsigned number, are `raw`: two's complement where
/// `T` is signed.
pub open spec fn from_bits<T: Integer>(raw: nat) -> int {
    if T::spec_signed() && raw >= pow256(T::spec_size()) / 2 {
        raw - pow256(T::spec_size())
    } else {
        raw as int
    }
}

/// Reads `bytes`, most significant first, as an unsigned number.
fn be_raw(bytes: &[u8]) -> (r: u128)
    requires
        bytes@.len() <= 16,
    ensures
        r == be_value(bytes@),
{
    let mut value: u128 = 0;
    let mut i: usize = 0;
    while i < bytes.len()
        invariant
            i <= bytes@.len() <= 16,
            value == be_value(bytes@.subrange(0, i as int)),
        decreases bytes.len() - i,
    {
        proof {
            lemma_be_bound(bytes@.subrange(0, i as int));
            lemma_pow256_le(i as nat, 15);
            lemma_pow256_values();
            assert(bytes@.subrange(0, i + 1).drop_last() =~= bytes@.subrange(0, i as int));
        }
        value = value * 256 + bytes[i] as u128;
        i = i + 1;
    }
    assert(bytes@.subrange(0, bytes@.len() as int) =~= bytes@);
    value
}

/// Reads `bytes`, least significant first, as an unsigned number.
fn le_raw(bytes: &[u8]) -> (r: u128)
    requires
        bytes@.len() <= 16,
    ensures
        r == le_value(bytes@),
{
    let mut value: u128 = 0;
    let mut i: usize = bytes.len();
    assert(bytes@.subrange(i as int, i as int) =~= Seq::<u8>::empty());
    while i > 0
        invariant
            i <= bytes@.len() <= 16,
            value == le_value(bytes@.subrange(i as int, bytes@.len() as int)),
        decreases i,
    {
        proof {
            let tail = bytes@.subrange(i as int, bytes@.len() as int);
            lemma_le_bound(tail);
            lemma_pow256_le(tail.len(), 15);
            lemma_pow256_values();
            assert(bytes@.subrange(i - 1, bytes@.len() as int).drop_first() =~= tail);
        }
        value = value * 256 + bytes[i - 1] as u128;
        i = i - 1;
    }
    assert(bytes@.subrange(0, bytes@.len() as int) =~= bytes@);
    value
}

proof fn lemma_pow256_le(n: nat, m: nat)
    requires
        n <= m,
    ensures
        pow256(n) <= pow256(m),
    decreases m,
{
    if n < m {
        lemma_pow256_le(n, (m - 1) as nat);
    }
}

pub proof fn lemma_pow256_values()
    ensures
        pow256(1) == 0x100,
        pow256(2) == 0x1_0000,
        pow256(4) == 0x1_0000_0000,
        pow256(8) == 0x1_0000_0000_0000_0000,
        pow256(15) == 0x1_0000_0000_0000_0000_0000_0000_0000_00,
        pow256(16) == 0x1_0000_0000_0000_0000_0000_0000_0000_0000,
{
    reveal_with_fuel(pow256, 17);
}

/// An integer of type `T` from the first bytes of the input, most significant first.
pub open spec fn spec_int_be<T: Integer>(input: Seq<u8>) -> SpecResult<int, error::EndOfInput> {
    if input.len() < T::spec_size() {
        Err(error::EndOfInput)
    } else {
        Ok(
            (
                input.subrange(T::spec_size() as int, input.len() as int),
                from_bits::<T>(be_value(input.subrange(0, T::spec_size() as int))),
            ),
        )
    }
}

/// An integer of type `T` from the first bytes of the input, least significant first.
pub open spec fn spec_int_le<T: Integer>(input: Seq<u8>) -> SpecResult<int, error::EndOfInput> {
    if input.len() < T::spec_size() {
        Err(error::EndOfInput)
    } else {
        Ok(
            (
                input.subrange(T::spec_size() as int, input.len() as int),
                from_bits::<T>(le_value(input.subrange(0, T::spec_size() as int))),
            ),
        )
    }
}

pub fn int_be<T: Integer>(input: &[u8]) -> (r: ParserResult<'_, T, error::EndOfInput>)
    ensures
        match (r, spec_int_be::<T>(input@)) {
            (Ok(item), Ok((rest, value))) => item.input@ == rest && item.value.as_int() == value,
            (Err(e), Err(f)) => e == f,
            _ => false,
        },
{
    let size = T::size();
    match (NBytes { n: size }).parse(input) {
        Ok(parsed) => {
            let (rest, bytes) = parsed.into_parts();
            proof {
                lemma_be_bound(bytes@);
            }
            let value = T::from_raw(be_raw(bytes));
            Ok(ParsedItem::from_parts(rest, value))
        },
        Err(e) => Err(e),
    }
}

pub fn int_le<T: Integer>(input: &[u8]) -> (r: ParserResult<'_, T, error::EndOfInput>)
    ensures
        match (r, spec_int_le::<T>(input@)) {
            (Ok(item), Ok((rest, value))) => item.input@ == rest && item.value.as_int() == value,
            (Err(e), Err(f)) => e == f,
            _ => false,
        },
{
    let size = T::size();
    match (NBytes { n: size }).parse(input) {
        Ok(parsed) => {
            let (rest, bytes) = parsed.into_parts();
            proof {
                lemma_le_bound(bytes@);
            }
            let value = T::from_raw(le_raw(bytes));
            Ok(ParsedItem::from_parts(rest, value))
        },
        Err(e) => Err(e),
    }
}

/// Relies on `u16::from_ne_bytes`: it reads `[1, 0]` in the machine's byte order, so the result
/// is 1 on a little-endian machine and 256 on a big-endian one.
#[verifier::external_body]
fn native_one_zero() -> (r: u16)
    ensures
        r == 1 || r == 256,
{
    u16::from_ne_bytes([1, 0])
}

/// An integer of type `T` from the first bytes of the input in the machine's byte order: what
/// [`int_le`] gives on a little-endian machine, and [`int_be`] on a big-endian one.
pub fn int_ne<T: Integer>(input: &[u8]) -> (r: ParserResult<'_, T, error::EndOfInput>)
    ensures
        match r {
            Ok(item) => {
                ||| spec_int_le::<T>(input@) == Ok::<_, error::EndOfInput>((item.input@, item.value.as_int()))
                ||| spec_int_be::<T>(input@) == Ok::<_, error::EndOfInput>((item.input@, item.value.as_int()))
            },
            Err(e) => input@.len() < T::spec_size() && e == error::EndOfInput,
        },
        r is Ok <==> input@.len() >= T::spec_size(),
{
    if native_one_zero() == 1 {
        int_le::<T>(input)
    } else {
        int_be::<T>(input)
    }
}

/// The parser that [`int_be`] runs for `T`.
pub struct IntBe<T> {
    pub target: PhantomData<T>,
}

impl<T> Clone for IntBe<T> {
    fn clone(&self) -> (r: Self)
        ensures
            r == *self,
    {
        *self
    }
}

impl<T> Copy for IntBe<T> {

}

impl<'input, T: Integer> Parser<'input> for IntBe<T> {
    type Output = T;
    type Error = error::EndOfInput;
    type Model = int;

    open spec fn model(value: T) -> int {
        value.as_int()
    }

    open spec fn wf(&self) -> bool {
        true
    }

    open spec fn spec_parse(&self, input: Seq<u8>) -> SpecResult<int, error::EndOfInput> {
        spec_int_be::<T>(input)
    }

    proof fn lemma_consumes_prefix(&self, input: Seq<u8>) {
    }

    fn parse(self, input: &'input [u8]) -> (r: ParserResult<'input, T, error::EndOfInput>) {
        int_be::<T>(input)
    }
}

/// The parser that [`int_le`] runs for `T`.
pub struct IntLe<T> {
    pub target: PhantomData<T>,
}

impl<T> Clone for IntLe<T> {
    fn clone(&self) -> (r: Self)
        ensures
            r == *self,
    {
        *self
    }
}

impl<T> Copy for IntLe<T> {

}

impl<'input, T: Integer> Parser<'input> for IntLe<T> {
    type Output = T;
    type Error = error::EndOfInput;
    type Model = int;

    open spec fn model(value: T) -> int {
        value.as_int()
    }

    open spec fn wf(&self) -> bool {
        true
    }

    open spec fn spec_parse(&self, input: Seq<u8>) -> SpecResult<int, error::EndOfInput> {
        spec_int_le::<T>(input)
    }

    proof fn lemma_consumes_prefix(&self, input: Seq<u8>) {
    }

    fn parse(self, input: &'input [u8]) -> (r: ParserResult<'input, T, error::EndOfInput>) {
        int_le::<T>(input)
    }
}

} // verus!
