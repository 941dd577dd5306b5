use std::convert::Infallible;

use parcom::parser::ascii::{alphabetic, alphanumeric, digit, hex_digit, whitespace};
use parcom::parser::{any_byte, byte, end_of_input, n_bytes, success, utf8_char, verbatim, AtEnd};
use parcom::{error, Either, ParsedItem, Parser};

#[test]
fn into_a() {
    assert_eq!(Either::<u8, Infallible>::A(0).into_a(), 0);
}

#[test]
fn into_b() {
    assert_eq!(Either::<Infallible, u8>::B(0).into_b(), 0);
}

#[test]
fn unify() {
    assert_eq!(Either::<u8, u8>::A(0).unify(), 0);
    assert_eq!(Either::<u8, u8>::B(1).unify(), 1);
}

#[test]
fn map_a() {
    let f = |x: u8| x + 2;

    assert_eq!(Either::<u8, u8>::A(0).map_a(f), Either::A(2));
    assert_eq!(Either::<u8, u8>::B(1).map_a(f), Either::B(1));
}

#[test]
fn map_b() {
    let f = |x: u8| x + 2;

    assert_eq!(Either::<u8, u8>::A(0).map_b(f), Either::A(0));
    assert_eq!(Either::<u8, u8>::B(1).map_b(f), Either::B(3));
}

#[test]
fn test_parsed_item_input() {
    let item: ParsedItem<'_, u8> = ParsedItem::from_parts(b"abc", 0);
    assert_eq!(item.input(), b"abc");
}

#[test]
fn test_parsed_item_value() {
    let item: ParsedItem<'_, u8> = ParsedItem::from_parts(b"abc", 0);
    assert_eq!(item.value(), &0);
}

#[test]
fn test_parsed_item_into_value() {
    let item: ParsedItem<'_, u8> = ParsedItem::from_parts(b"abc", 0);
    assert_eq!(item.into_value(), 0);
}

#[test]
fn test_parsed_item_into_parts() {
    let item: ParsedItem<'_, u8> = ParsedItem::from_parts(b"abc", 0);
    assert_eq!(item.into_parts(), (b"abc".as_ref(), 0));
}

#[test]
fn test_parsed_item_map_value() {
    let item: ParsedItem<'_, u8> = ParsedItem::from_parts(b"abc", 0);
    assert_eq!(item.map_value(|v| v + 1).into_value(), 1);
}

#[test]
fn parsed_item_filter_map_value_keeps_input() {
    let item: ParsedItem<'_, u8> = ParsedItem::from_parts(b"abc", 4);
    assert_eq!(
        item.filter_map_value(|v| if v > 3 { Ok(v * 2) } else { Err("small") })
            .map(ParsedItem::into_parts),
        Ok((b"abc".as_ref(), 8))
    );
    assert_eq!(
        item.filter_map_value(|v| if v > 5 { Ok(v) } else { Err("small") }),
        Err("small")
    );
}

#[test]
fn test_any_byte_success() {
    assert_eq!(
        any_byte(b"abc").map(ParsedItem::into_parts),
        Ok((b"bc".as_ref(), b'a'))
    );
}

#[test]
fn test_any_byte_end_of_input() {
    assert_eq!(any_byte(b""), Err(error::EndOfInput));
}

#[test]
fn test_alphabetic_valid() {
    assert_eq!(
        alphabetic(b"abc").map(ParsedItem::into_parts),
        Ok((b"bc".as_ref(), 'a'))
    );
}

#[test]
fn test_alphabetic_error_invalid() {
    assert_eq!(alphabetic(b"123"), Err(Either::A(error::AsciiAlphabetic)));
}

#[test]
fn test_alphabetic_error_end_of_input() {
    assert_eq!(alphabetic(b""), Err(Either::B(error::EndOfInput)));
}

#[test]
fn test_alphanumeric_valid() {
    assert_eq!(
        alphanumeric(b"abc").map(ParsedItem::into_parts),
        Ok((b"bc".as_ref(), 'a'))
    );
    assert_eq!(
        alphanumeric(b"123").map(ParsedItem::into_parts),
        Ok((b"23".as_ref(), '1'))
    );
}

#[test]
fn test_alphanumeric_invalid() {
    assert_eq!(
        alphanumeric(b"/abc").map(ParsedItem::into_parts),
        Err(Either::A(error::AsciiAlphanumeric))
    );
}

#[test]
fn test_alphanumeric_end_of_input() {
    assert_eq!(alphanumeric(b""), Err(Either::B(error::EndOfInput)));
}

#[test]
fn test_digit_valid() {
    assert_eq!(digit(b"0").map(ParsedItem::into_parts), Ok((b"".as_ref(), 0)));
    assert_eq!(
        digit(b"123").map(ParsedItem::into_parts),
        Ok((b"23".as_ref(), 1))
    );
}

#[test]
fn test_digit_invalid() {
    assert_eq!(
        digit(b"a").map(ParsedItem::into_parts),
        Err(Either::A(error::AsciiDigit))
    );
}

#[test]
fn test_digit_end_of_input() {
    assert_eq!(digit(b""), Err(Either::B(error::EndOfInput)));
}

#[test]
fn test_hex_digit_valid() {
    assert_eq!(hex_digit(b"1").map(ParsedItem::into_parts), Ok((b"".as_ref(), 1)));
    assert_eq!(hex_digit(b"a").map(ParsedItem::into_parts), Ok((b"".as_ref(), 10)));
    assert_eq!(hex_digit(b"F").map(ParsedItem::into_parts), Ok((b"".as_ref(), 15)));
}

#[test]
fn test_hex_digit_invalid() {
    assert_eq!(hex_digit(b"g"), Err(Either::A(error::AsciiHexDigit)));
}

#[test]
fn test_hex_digit_end_of_input() {
    assert_eq!(hex_digit(b""), Err(Either::B(error::EndOfInput)));
}

#[test]
fn test_whitespace_valid() {
    assert_eq!(whitespace(b" ").map(ParsedItem::into_parts), Ok((b"".as_ref(), ' ')));
    assert_eq!(whitespace(b"\t").map(ParsedItem::into_parts), Ok((b"".as_ref(), '\t')));
    assert_eq!(whitespace(b"\n").map(ParsedItem::into_parts), Ok((b"".as_ref(), '\n')));
    assert_eq!(whitespace(b"\r").map(ParsedItem::into_parts), Ok((b"".as_ref(), '\r')));
    assert_eq!(
        whitespace(b"\x0C").map(ParsedItem::into_parts),
        Ok((b"".as_ref(), '\x0C'))
    );
}

#[test]
fn test_whitespace_invalid() {
    assert_eq!(whitespace(b"1"), Err(Either::A(error::AsciiWhitespace)));
}

#[test]
fn test_byte_valid() {
    assert_eq!(
        byte(b'a').parse(b"a").map(ParsedItem::into_parts),
        Ok((b"".as_ref(), b'a'))
    );
}

#[test]
fn test_byte_invalid() {
    assert_eq!(byte(b'a').parse(b"b"), Err(Either::A(error::Byte)));
}

#[test]
fn test_byte_end_of_input() {
    assert_eq!(byte(b'a').parse(b""), Err(Either::B(error::EndOfInput)));
}

#[test]
fn test_end_of_input() {
    assert_eq!(
        AtEnd.parse(b"").map(ParsedItem::into_parts),
        Ok((b"".as_ref(), ()))
    );
    assert_eq!(AtEnd.parse(b"a"), Err(error::NotEndOfInput));
    assert_eq!(end_of_input(b"a"), Err(error::NotEndOfInput));
}

#[test]
fn test_n_bytes() {
    assert_eq!(
        n_bytes(3).parse(b"hello").map(ParsedItem::into_parts),
        Ok((b"lo".as_ref(), b"hel".as_ref()))
    );
}

#[test]
fn test_n_bytes_end_of_input() {
    assert_eq!(n_bytes(3).parse(b"he"), Err(error::EndOfInput));
}

#[test]
fn test_success() {
    assert_eq!(
        success(()).parse(b"abc").map(ParsedItem::into_parts),
        Ok((b"abc".as_ref(), ()))
    );
}

#[test]
fn test_utf8_char_valid() {
    assert_eq!(
        utf8_char('$').parse(b"$0").map(ParsedItem::into_parts),
        Ok((b"0".as_ref(), '$'))
    );
    assert_eq!(
        utf8_char('\u{a3}')
            .parse("\u{a3}0".as_bytes())
            .map(ParsedItem::into_parts),
        Ok((b"0".as_ref(), '\u{a3}'))
    );
    assert_eq!(
        utf8_char('\u{20ac}')
            .parse("\u{20ac}0".as_bytes())
            .map(ParsedItem::into_parts),
        Ok((b"0".as_ref(), '\u{20ac}'))
    );
    assert_eq!(
        utf8_char('\u{1f980}')
            .parse("\u{1f980}0".as_bytes())
            .map(ParsedItem::into_parts),
        Ok((b"0".as_ref(), '\u{1f980}'))
    );
}

#[test]
fn test_utf8_char_invalid() {
    assert_eq!(utf8_char('a').parse(b"bcd"), Err(Either::A(error::Utf8Char)));
}

#[test]
fn test_utf8_char_end_of_input() {
    assert_eq!(utf8_char('$').parse(b""), Err(Either::B(error::EndOfInput)));
    assert_eq!(utf8_char('\u{a3}').parse(b"a"), Err(Either::B(error::EndOfInput)));
    assert_eq!(utf8_char('\u{20ac}').parse(b"ab"), Err(Either::B(error::EndOfInput)));
    assert_eq!(utf8_char('\u{1f980}').parse(b"abc"), Err(Either::B(error::EndOfInput)));
}

#[test]
fn test_verbatim_valid() {
    assert_eq!(
        verbatim(b"abc").parse(b"abcdef").map(ParsedItem::into_parts),
        Ok((b"def".as_ref(), b"abc".as_ref()))
    );
}

#[test]
fn test_verbatim_invalid() {
    assert_eq!(
        verbatim(b"abc").parse(b"def"),
        Err(Either::A(error::NonMatchingInput))
    );
}

#[test]
fn test_verbatim_end_of_input() {
    assert_eq!(
        verbatim(b"abc").parse(b"ab"),
        Err(Either::B(error::EndOfInput))
    );
}
