use std::cell::Cell;

use parcom::error::Normalize;
use parcom::parser::ascii::{integer, Alphabetic};
use parcom::parser::{byte, first_success, verbatim, AnyByte};
use parcom::{error, Either, Error, ParsedItem, Parser, ParserExt};

#[test]
fn sequence_of_two_bytes() {
    let parser = byte(b'a').and(byte(b'b'));
    assert_eq!(
        parser.parse(b"abc").map(ParsedItem::into_parts),
        Ok((b"c".as_ref(), (b'a', b'b')))
    );
}

#[test]
fn byte_on_empty_input() {
    assert_eq!(byte(b'a').parse(b""), Err(Either::B(error::EndOfInput)));
}

#[test]
fn alphabetic_at_least_two() {
    assert_eq!(
        Alphabetic.at_least_n(2).parse(b"ab0").map(ParsedItem::into_parts),
        Ok((b"0".as_ref(), vec!['a', 'b']))
    );
}

#[test]
fn integer_overflow_and_minimum() {
    assert_eq!(integer::<u8>(b"256"), Err(Either::A(error::AsciiInteger)));
    assert_eq!(
        integer::<i8>(b"-128").map(ParsedItem::into_parts),
        Ok((b"".as_ref(), -128))
    );
}

#[test]
fn first_success_reports_first_error() {
    let parser = first_success([verbatim(b"a"), verbatim(b"b"), verbatim(b"ab")]);
    assert_eq!(parser.parse(b"c"), Err(Either::A(error::NonMatchingInput)));
}

#[test]
fn remaining_input_is_a_suffix() {
    let input = b"hello world";
    let (rest, _) = Alphabetic.at_least_n(1).parse(input).unwrap().into_parts();
    assert!(rest.len() <= input.len());
    assert_eq!(rest, &input[input.len() - rest.len()..]);
    assert_eq!(rest, b" world".as_ref());
}

#[test]
fn failure_repeats_identically() {
    let parser = byte(b'x').and(byte(b'y'));
    let first = parser.parse(b"xz");
    let second = parser.parse(b"xz");
    assert_eq!(first, Err(Either::B(Either::A(error::Byte))));
    assert_eq!(first, second);
}

#[test]
fn sequence_consumes_the_sum() {
    let input = b"abcdef";
    let p1 = verbatim(b"ab");
    let p2 = verbatim(b"cde");
    let (mid, _) = p1.parse(input).unwrap().into_parts();
    let (after, _) = p2.parse(mid).unwrap().into_parts();
    let (rest, _) = p1.and(p2).parse(input).unwrap().into_parts();
    assert_eq!(rest, after);
    assert_eq!(input.len() - rest.len(), (input.len() - mid.len()) + (mid.len() - after.len()));
    assert_eq!(input.len() - rest.len(), 5);
}

#[test]
fn alternation_skips_second_after_success() {
    let calls = Cell::new(0);
    let second = byte(b'a').inspect(|_| calls.set(calls.get() + 1));
    let parser = byte(b'a').or(second);
    assert_eq!(
        parser.parse(b"ab").map(ParsedItem::into_parts),
        Ok((b"b".as_ref(), Either::A(b'a')))
    );
    assert_eq!(calls.get(), 0);
    assert_eq!(parser.parse(b"b"), Err((Either::A(error::Byte), Either::A(error::Byte))));
}

#[test]
fn bounded_repetition_stays_in_bounds() {
    let parser = byte(b'a').n_to_m(2, 3);
    assert_eq!(
        parser.parse(b"aaaaa").map(ParsedItem::into_parts),
        Ok((b"aa".as_ref(), b"aaa".to_vec()))
    );
    assert_eq!(
        parser.parse(b"aab").map(ParsedItem::into_parts),
        Ok((b"b".as_ref(), b"aa".to_vec()))
    );
    assert_eq!(parser.parse(b"ab"), Err(Either::A(error::Byte)));
}

#[test]
fn optional_keeps_input_on_failure() {
    assert_eq!(
        byte(b'a').optional().parse(b"zz").map(ParsedItem::into_parts),
        Ok((b"zz".as_ref(), None))
    );
    assert_eq!(
        byte(b'a').optional().parse(b"az").map(ParsedItem::into_parts),
        Ok((b"z".as_ref(), Some(b'a')))
    );
}

#[test]
fn mapping_twice_is_mapping_once() {
    let f = |b: u8| b as u32 + 1;
    let g = |x: u32| x * 3;
    let twice = AnyByte.map(f).map(g);
    let once = AnyByte.map(move |b: u8| g(f(b)));
    for input in [b"a".as_ref(), b"".as_ref(), b"\x07rest".as_ref()] {
        assert_eq!(
            twice.parse(input).map(ParsedItem::into_parts),
            once.parse(input).map(ParsedItem::into_parts)
        );
    }
    assert_eq!(twice.parse(b"\x07").map(ParsedItem::into_value), Ok(24));
}

#[test]
fn zero_length_matches_end_unbounded_repetition() {
    let parser = byte(b'a').optional().at_least_n(1);
    assert_eq!(
        parser.parse(b"aab").map(ParsedItem::into_parts),
        Ok((b"b".as_ref(), vec![Some(b'a'), Some(b'a')]))
    );
    assert_eq!(
        parser.parse(b"b").map(ParsedItem::into_parts),
        Ok((b"b".as_ref(), vec![None]))
    );
    assert_eq!(
        byte(b'a').optional().discard_while(|_| true).parse(b"aaz").map(ParsedItem::into_parts),
        Ok((b"z".as_ref(), 2))
    );
}

#[test]
fn errors_normalize_to_one_enumeration() {
    assert_eq!(Error::from(error::Byte), Error::Byte(error::Byte));
    assert_eq!(
        Error::from(Either::<error::Byte, error::EndOfInput>::B(error::EndOfInput)),
        Error::EndOfInput(error::EndOfInput)
    );
    let nested: Either<Either<error::Filter, error::AsciiDigit>, error::Utf8Char> =
        Either::A(Either::B(error::AsciiDigit));
    assert_eq!(nested.normalize(), Error::AsciiDigit(error::AsciiDigit));
}
