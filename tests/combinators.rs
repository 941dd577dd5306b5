use std::cell::Cell;

use parcom::combinator::{and, at_least_n, discard, n_to_m, optional, or};
use parcom::parser::ascii;
use parcom::parser::{any_byte, byte, from_fn, n_bytes, success, verbatim, AnyByte};
use parcom::{error, Combinator, Either, ParsedItem, Parser, ParserExt};

#[test]
fn test_and_success() {
    let parser = AnyByte.and(AnyByte);

    assert_eq!(
        parser.parse(b"abc").map(ParsedItem::into_parts),
        Ok((b"c".as_ref(), (b'a', b'b')))
    );
}

#[test]
fn test_and_error() {
    let parser = AnyByte.and(AnyByte);

    assert_eq!(parser.parse(b""), Err(Either::A(error::EndOfInput)));
    assert_eq!(parser.parse(b"a"), Err(Either::B(error::EndOfInput)));
}

#[test]
fn test_and_infallible_success() {
    let parser = AnyByte.and_infallible(success(()));

    assert_eq!(
        parser.parse(b"abc").map(ParsedItem::into_parts),
        Ok((b"bc".as_ref(), (b'a', ())))
    );
}

#[test]
fn test_and_infallible_error() {
    let parser = AnyByte.and_infallible(success(()));

    assert_eq!(parser.parse(b""), Err(error::EndOfInput));
}

#[test]
fn test_at_least_n_success() {
    let parser = AnyByte.filter(u8::is_ascii_alphabetic).at_least_n(2);

    assert_eq!(
        parser.parse(b"abc").map(ParsedItem::into_parts),
        Ok((b"".as_ref(), b"abc".to_vec()))
    );
    assert_eq!(
        parser.parse(b"ab0").map(ParsedItem::into_parts),
        Ok((b"0".as_ref(), b"ab".to_vec()))
    );
}

#[test]
fn test_at_least_n_error() {
    let parser = AnyByte.filter(u8::is_ascii_alphabetic).at_least_n(2);

    assert_eq!(parser.parse(b""), Err(Either::B(error::EndOfInput)));
}

#[test]
fn test_at_least_n_raw_success() {
    let parser = AnyByte.filter(u8::is_ascii_alphabetic).at_least_n_raw(2);

    assert_eq!(
        parser.parse(b"abc").map(ParsedItem::into_parts),
        Ok((b"".as_ref(), b"abc".as_ref()))
    );
    assert_eq!(
        parser.parse(b"ab0").map(ParsedItem::into_parts),
        Ok((b"0".as_ref(), b"ab".as_ref()))
    );
}

#[test]
fn test_at_least_n_raw_error() {
    let parser = AnyByte.filter(u8::is_ascii_alphabetic).at_least_n_raw(2);

    assert_eq!(parser.parse(b""), Err(Either::B(error::EndOfInput)));
}

#[test]
fn test_at_most_n() {
    let parser = AnyByte.filter(u8::is_ascii_alphabetic).at_most_n(2);

    assert_eq!(
        parser.parse(b"a").map(ParsedItem::into_parts),
        Ok((b"".as_ref(), b"a".to_vec()))
    );
    assert_eq!(
        parser.parse(b"ab").map(ParsedItem::into_parts),
        Ok((b"".as_ref(), b"ab".to_vec()))
    );
    assert_eq!(
        parser.parse(b"abc").map(ParsedItem::into_parts),
        Ok((b"c".as_ref(), b"ab".to_vec()))
    );
    assert_eq!(
        parser.parse(b"ab0").map(ParsedItem::into_parts),
        Ok((b"0".as_ref(), b"ab".to_vec()))
    );
}

#[test]
fn test_at_most_n_raw() {
    let parser = AnyByte.filter(u8::is_ascii_alphabetic).at_most_n_raw(2);

    assert_eq!(
        parser.parse(b"a").map(ParsedItem::into_parts),
        Ok((b"".as_ref(), b"a".as_ref()))
    );
    assert_eq!(
        parser.parse(b"ab").map(ParsedItem::into_parts),
        Ok((b"".as_ref(), b"ab".as_ref()))
    );
    assert_eq!(
        parser.parse(b"abc").map(ParsedItem::into_parts),
        Ok((b"c".as_ref(), b"ab".as_ref()))
    );
    assert_eq!(
        parser.parse(b"ab0").map(ParsedItem::into_parts),
        Ok((b"0".as_ref(), b"ab".as_ref()))
    );
}

#[test]
fn test_consume_while() {
    let parser = AnyByte.consume_while(u8::is_ascii_alphabetic);

    assert_eq!(
        parser.parse(b"abc").map(ParsedItem::into_parts),
        Ok((b"".as_ref(), b"abc".to_vec()))
    );
    assert_eq!(
        parser.parse(b"ab0").map(ParsedItem::into_parts),
        Ok((b"0".as_ref(), b"ab".to_vec()))
    );
}

#[test]
fn test_discard_success() {
    let parser = AnyByte.discard();

    assert_eq!(
        parser.parse(b"a").map(ParsedItem::into_parts),
        Ok((b"".as_ref(), ()))
    );
    assert_eq!(
        parser.parse(b"ab").map(ParsedItem::into_parts),
        Ok((b"b".as_ref(), ()))
    );
}

#[test]
fn test_discard_error() {
    let parser = AnyByte.discard();

    assert_eq!(parser.parse(b""), Err(error::EndOfInput));
}

#[test]
fn test_discard_at_least_n_success() {
    let parser = ascii::Alphabetic.discard_at_least_n(2);

    assert_eq!(
        parser.parse(b"ab").map(ParsedItem::into_parts),
        Ok((b"".as_ref(), 2))
    );
    assert_eq!(
        parser.parse(b"abc").map(ParsedItem::into_parts),
        Ok((b"".as_ref(), 3))
    );
    assert_eq!(
        parser.parse(b"abc0").map(ParsedItem::into_parts),
        Ok((b"0".as_ref(), 3))
    );
}

#[test]
fn test_discard_at_least_n_error() {
    let parser = ascii::Alphabetic.discard_at_least_n(2);

    assert_eq!(parser.parse(b""), Err(Either::B(error::EndOfInput)));
    assert_eq!(
        parser.parse(b"a").map(ParsedItem::into_parts),
        Err(Either::B(error::EndOfInput))
    );
}

#[test]
fn test_discard_while() {
    let parser = AnyByte.discard_while(|&byte| byte == b'a');

    assert_eq!(
        parser.parse(b"").map(ParsedItem::into_parts),
        Ok((b"".as_ref(), 0))
    );
    assert_eq!(
        parser.parse(b"a").map(ParsedItem::into_parts),
        Ok((b"".as_ref(), 1))
    );
    assert_eq!(
        parser.parse(b"ab").map(ParsedItem::into_parts),
        Ok((b"b".as_ref(), 1))
    );
}

#[test]
fn test_exactly_n_success() {
    let parser = ascii::Alphabetic.exactly_n(2);

    assert_eq!(
        parser.parse(b"ab").map(ParsedItem::into_parts),
        Ok((b"".as_ref(), vec!['a', 'b']))
    );
    assert_eq!(
        parser.parse(b"abc").map(ParsedItem::into_parts),
        Ok((b"c".as_ref(), vec!['a', 'b']))
    );
}

#[test]
fn test_exactly_n_error() {
    let parser = ascii::Alphabetic.exactly_n(2);

    assert_eq!(parser.parse(b""), Err(Either::B(error::EndOfInput)));
    assert_eq!(parser.parse(b"a"), Err(Either::B(error::EndOfInput)));
}

#[test]
fn test_exactly_n_raw_success() {
    let parser = ascii::Alphabetic.exactly_n_raw(2);

    assert_eq!(
        parser.parse(b"ab").map(ParsedItem::into_parts),
        Ok((b"".as_ref(), b"ab".as_ref()))
    );
    assert_eq!(
        parser.parse(b"abc").map(ParsedItem::into_parts),
        Ok((b"c".as_ref(), b"ab".as_ref()))
    );
}

#[test]
fn test_exactly_n_raw_error() {
    let parser = ascii::Alphabetic.exactly_n_raw(2);

    assert_eq!(parser.parse(b""), Err(Either::B(error::EndOfInput)));
    assert_eq!(parser.parse(b"a"), Err(Either::B(error::EndOfInput)));
}

#[test]
fn filter_test_filter_map_success() {
    assert_eq!(
        AnyByte
            .filter(|&b| b == b'a')
            .parse(b"a")
            .map(ParsedItem::into_parts),
        Ok((b"".as_ref(), b'a'))
    );
}

#[test]
fn filter_test_filter_map_filtered() {
    assert_eq!(
        AnyByte.filter(|&b| b == b'a').parse(b"b"),
        Err(Either::A(error::Filter))
    );
}

#[test]
fn filter_test_filter_map_error() {
    assert_eq!(
        n_bytes(2).filter(|&b| b == b"ab").parse(b"a"),
        Err(Either::B(error::EndOfInput))
    );
}

#[test]
fn filter_map_test_filter_map_success() {
    assert_eq!(
        AnyByte
            .filter_map(|b| if b == b'a' { Err(()) } else { Ok(b) })
            .parse(b"b")
            .map(ParsedItem::into_parts),
        Ok((b"".as_ref(), b'b'))
    );
}

#[test]
fn filter_map_test_filter_map_filtered() {
    assert_eq!(
        AnyByte
            .filter_map(|b| if b == b'a' { Err(()) } else { Ok(b) })
            .parse(b"a"),
        Err(Either::A(()))
    );
}

#[test]
fn filter_map_test_filter_map_error() {
    assert_eq!(
        n_bytes(2).filter_map(Ok).parse(b"a"),
        Err(Either::<(), _>::B(error::EndOfInput))
    );
}

#[test]
fn test_inspect() {
    let val = Cell::new(0);
    let parser = byte(b'a').inspect(|_| val.set(val.get() + 1));

    assert_eq!(
        parser.parse(b"abc").map(ParsedItem::into_parts),
        Ok((b"bc".as_ref(), b'a'))
    );
    assert_eq!(val.get(), 1);
    assert_eq!(
        parser.parse(b"abc").map(ParsedItem::into_parts),
        Ok((b"bc".as_ref(), b'a'))
    );
    assert_eq!(val.get(), 2);
    assert_eq!(parser.parse(b"bc"), Err(Either::A(error::Byte)));
    assert_eq!(val.get(), 2);
}

#[test]
fn test_inspect_err() {
    let val = Cell::new(0);
    let parser = byte(b'a').inspect_err(|_| val.set(val.get() + 1));

    assert_eq!(
        parser.parse(b"abc").map(ParsedItem::into_parts),
        Ok((b"bc".as_ref(), b'a'))
    );
    assert_eq!(val.get(), 0);
    assert_eq!(
        parser.parse(b"abc").map(ParsedItem::into_parts),
        Ok((b"bc".as_ref(), b'a'))
    );
    assert_eq!(val.get(), 0);
    assert_eq!(parser.parse(b"bc"), Err(Either::A(error::Byte)));
    assert_eq!(val.get(), 1);
}

#[test]
fn test_map_success() {
    assert_eq!(
        AnyByte
            .map(|b| b + 1)
            .parse(b"a")
            .map(ParsedItem::into_parts),
        Ok((b"".as_ref(), b'b'))
    );
}

#[test]
fn test_map_error() {
    assert_eq!(n_bytes(2).map(Some).parse(b"a"), Err(error::EndOfInput));
}

#[test]
fn test_map_err_success() {
    assert_eq!(
        AnyByte
            .map_err(Some)
            .parse(b"a")
            .map(ParsedItem::into_parts),
        Ok((b"".as_ref(), b'a'))
    );
}

#[test]
fn test_map_err_error() {
    assert_eq!(n_bytes(2).map_err(|_| ()).parse(b"a"), Err(()));
}

#[test]
fn test_n_to_m_valid() {
    assert_eq!(
        byte(b'a')
            .n_to_m(2, 4)
            .parse(b"aa")
            .map(ParsedItem::into_parts),
        Ok((b"".as_ref(), b"aa".to_vec()))
    );
    assert_eq!(
        byte(b'a')
            .n_to_m(2, 4)
            .parse(b"aaa")
            .map(ParsedItem::into_parts),
        Ok((b"".as_ref(), b"aaa".to_vec()))
    );
    assert_eq!(
        byte(b'a')
            .n_to_m(2, 4)
            .parse(b"aaaa")
            .map(ParsedItem::into_parts),
        Ok((b"".as_ref(), b"aaaa".to_vec()))
    );
}

#[test]
fn test_n_to_m_invalid() {
    assert_eq!(
        byte(b'a')
            .n_to_m(2, 4)
            .parse(b"b")
            .map(ParsedItem::into_parts),
        Err(Either::A(error::Byte))
    );
}

#[test]
fn test_n_to_m_end_of_input() {
    assert_eq!(
        byte(b'a')
            .n_to_m(2, 4)
            .parse(b"a")
            .map(ParsedItem::into_parts),
        Err(Either::B(error::EndOfInput))
    );
}

#[test]
fn test_n_to_m_raw_valid() {
    assert_eq!(
        byte(b'a')
            .n_to_m_raw(2, 4)
            .parse(b"aa")
            .map(ParsedItem::into_parts),
        Ok((b"".as_ref(), b"aa".as_ref()))
    );
    assert_eq!(
        byte(b'a')
            .n_to_m_raw(2, 4)
            .parse(b"aaa")
            .map(ParsedItem::into_parts),
        Ok((b"".as_ref(), b"aaa".as_ref()))
    );
    assert_eq!(
        byte(b'a')
            .n_to_m_raw(2, 4)
            .parse(b"aaaa")
            .map(ParsedItem::into_parts),
        Ok((b"".as_ref(), b"aaaa".as_ref()))
    );
}

#[test]
fn test_n_to_m_raw_invalid() {
    assert_eq!(
        byte(b'a')
            .n_to_m_raw(2, 4)
            .parse(b"b")
            .map(ParsedItem::into_parts),
        Err(Either::A(error::Byte))
    );
}

#[test]
fn test_n_to_m_raw_end_of_input() {
    assert_eq!(
        byte(b'a')
            .n_to_m_raw(2, 4)
            .parse(b"a")
            .map(ParsedItem::into_parts),
        Err(Either::B(error::EndOfInput))
    );
}

#[test]
fn test_optional_valid() {
    assert_eq!(
        AnyByte.optional().parse(b"a").map(ParsedItem::into_parts),
        Ok((b"".as_ref(), Some(b'a')))
    );
}

#[test]
fn test_optional_invalid() {
    assert_eq!(
        AnyByte.optional().parse(b"").map(ParsedItem::into_parts),
        Ok((b"".as_ref(), None))
    );
}

#[test]
fn test_or_valid() {
    assert_eq!(
        byte(b'a')
            .or(verbatim(b"bc"))
            .parse(b"a")
            .map(ParsedItem::into_parts),
        Ok((b"".as_ref(), Either::A(b'a')))
    );
    assert_eq!(
        byte(b'a')
            .or(verbatim(b"bc"))
            .parse(b"bc")
            .map(ParsedItem::into_parts),
        Ok((b"".as_ref(), Either::B(b"bc".as_ref())))
    );
}

#[test]
fn test_or_invalid() {
    assert_eq!(
        byte(b'a')
            .or(verbatim(b"bc"))
            .parse(b"b")
            .map(ParsedItem::into_parts),
        Err((Either::A(error::Byte), Either::B(error::EndOfInput)))
    );
}

#[test]
fn combinator_values_apply_through_with() {
    let sequenced = and(AnyByte).apply_to(AnyByte);
    assert_eq!(
        sequenced.parse(b"xyz").map(ParsedItem::into_parts),
        Ok((b"z".as_ref(), (b'x', b'y')))
    );
    let repeated = AnyByte.with(&at_least_n(1));
    assert_eq!(
        repeated.parse(b"xy").map(ParsedItem::into_parts),
        Ok((b"".as_ref(), b"xy".to_vec()))
    );
    let bounded = byte(b'a').with(&n_to_m(1, 2));
    assert_eq!(
        bounded.parse(b"aaa").map(ParsedItem::into_parts),
        Ok((b"a".as_ref(), b"aa".to_vec()))
    );
    let mapped = AnyByte.with(&parcom::combinator::map::map(|b: u8| b as u32 * 2));
    assert_eq!(
        mapped.parse(b"\x05").map(ParsedItem::into_parts),
        Ok((b"".as_ref(), 10))
    );
    let alternative = byte(b'a').with(&or(byte(b'b')));
    assert_eq!(
        alternative.parse(b"b").map(ParsedItem::into_parts),
        Ok((b"".as_ref(), Either::B(b'b')))
    );
    assert_eq!(
        optional(AnyByte).parse(b"").map(ParsedItem::into_parts),
        Ok((b"".as_ref(), None))
    );
    assert_eq!(
        discard(AnyByte).parse(b"q").map(ParsedItem::into_parts),
        Ok((b"".as_ref(), ()))
    );
    assert_eq!(any_byte(b"q").map(ParsedItem::into_parts), Ok((b"".as_ref(), b'q')));
}

#[test]
fn functions_act_as_parsers() {
    let parser = from_fn(any_byte).and(from_fn(|input| byte(b'-').parse(input)));
    assert_eq!(
        parser.parse(b"x-y").map(ParsedItem::into_parts),
        Ok((b"y".as_ref(), (b'x', b'-')))
    );
    assert_eq!(
        parser.parse(b"xy"),
        Err(Either::B(Either::A(error::Byte)))
    );
    let digits = from_fn(ascii::digit).at_least_n(1);
    assert_eq!(
        digits.parse(b"407a").map(ParsedItem::into_parts),
        Ok((b"a".as_ref(), vec![4, 0, 7]))
    );
}
