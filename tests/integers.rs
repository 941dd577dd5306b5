use std::marker::PhantomData;

use parcom::parser::ascii::{integer, AsciiInt};
use parcom::parser::binary::{IntBe, IntLe};
use parcom::parser::{first_success, int_be, int_le, int_ne, verbatim, AnyByte};
use parcom::{error, Either, ParsedItem, Parser, ParserExt};

#[test]
fn test_integer_u8() {
    assert_eq!(integer::<u8>(b"0").map(ParsedItem::into_parts), Ok((b"".as_ref(), 0)));
    assert_eq!(integer::<u8>(b"1").map(ParsedItem::into_parts), Ok((b"".as_ref(), 1)));
    assert_eq!(integer::<u8>(b"9").map(ParsedItem::into_parts), Ok((b"".as_ref(), 9)));
    assert_eq!(integer::<u8>(b"10").map(ParsedItem::into_parts), Ok((b"".as_ref(), 10)));
    assert_eq!(integer::<u8>(b"00255").map(ParsedItem::into_parts), Ok((b"".as_ref(), 255)));
    assert_eq!(integer::<u8>(b"256").map(ParsedItem::into_parts), Err(Either::A(error::AsciiInteger)));
    assert_eq!(integer::<u8>(b"300").map(ParsedItem::into_parts), Err(Either::A(error::AsciiInteger)));
    assert_eq!(integer::<u8>(b"-0").map(ParsedItem::into_parts), Err(Either::A(error::AsciiInteger)));
    assert_eq!(integer::<u8>(b"-1").map(ParsedItem::into_parts), Err(Either::A(error::AsciiInteger)));
    assert_eq!(integer::<u8>(b"-9").map(ParsedItem::into_parts), Err(Either::A(error::AsciiInteger)));
    assert_eq!(integer::<u8>(b"-10").map(ParsedItem::into_parts), Err(Either::A(error::AsciiInteger)));
    assert_eq!(integer::<u8>(b"-255").map(ParsedItem::into_parts), Err(Either::A(error::AsciiInteger)));
    assert_eq!(integer::<u8>(b"-256").map(ParsedItem::into_parts), Err(Either::A(error::AsciiInteger)));
    assert_eq!(integer::<u8>(b"").map(ParsedItem::into_parts), Err(Either::B(error::EndOfInput)));
    assert_eq!(integer::<u8>(b"a").map(ParsedItem::into_parts), Err(Either::A(error::AsciiInteger)));
}

#[test]
fn test_integer_i8() {
    assert_eq!(integer::<i8>(b"0").map(ParsedItem::into_parts), Ok((b"".as_ref(), 0)));
    assert_eq!(integer::<i8>(b"1").map(ParsedItem::into_parts), Ok((b"".as_ref(), 1)));
    assert_eq!(integer::<i8>(b"9").map(ParsedItem::into_parts), Ok((b"".as_ref(), 9)));
    assert_eq!(integer::<i8>(b"10").map(ParsedItem::into_parts), Ok((b"".as_ref(), 10)));
    assert_eq!(integer::<i8>(b"00127").map(ParsedItem::into_parts), Ok((b"".as_ref(), 127)));
    assert_eq!(integer::<i8>(b"128").map(ParsedItem::into_parts), Err(Either::A(error::AsciiInteger)));
    assert_eq!(integer::<i8>(b"300").map(ParsedItem::into_parts), Err(Either::A(error::AsciiInteger)));
    assert_eq!(integer::<i8>(b"-0").map(ParsedItem::into_parts), Ok((b"".as_ref(), 0)));
    assert_eq!(integer::<i8>(b"-1").map(ParsedItem::into_parts), Ok((b"".as_ref(), -1)));
    assert_eq!(integer::<i8>(b"-9").map(ParsedItem::into_parts), Ok((b"".as_ref(), -9)));
    assert_eq!(integer::<i8>(b"-10").map(ParsedItem::into_parts), Ok((b"".as_ref(), -10)));
    assert_eq!(integer::<i8>(b"-127").map(ParsedItem::into_parts), Ok((b"".as_ref(), -127)));
    assert_eq!(integer::<i8>(b"-128").map(ParsedItem::into_parts), Ok((b"".as_ref(), -128)));
    assert_eq!(integer::<i8>(b"-129").map(ParsedItem::into_parts), Err(Either::A(error::AsciiInteger)));
    assert_eq!(integer::<i8>(b"").map(ParsedItem::into_parts), Err(Either::B(error::EndOfInput)));
    assert_eq!(integer::<i8>(b"a").map(ParsedItem::into_parts), Err(Either::A(error::AsciiInteger)));
}


#[test]
fn test_integer_u16() {
    assert_eq!(
        integer::<u16>(b"65535").map(ParsedItem::into_parts),
        Ok((b"".as_ref(), u16::MAX))
    );
    assert_eq!(integer::<u16>(b"65536"), Err(Either::A(error::AsciiInteger)));
}

#[test]
fn test_integer_i16() {
    assert_eq!(
        integer::<i16>(b"32767").map(ParsedItem::into_parts),
        Ok((b"".as_ref(), i16::MAX))
    );
    assert_eq!(integer::<i16>(b"32768"), Err(Either::A(error::AsciiInteger)));
    assert_eq!(
        integer::<i16>(b"-32768").map(ParsedItem::into_parts),
        Ok((b"".as_ref(), i16::MIN))
    );
    assert_eq!(integer::<i16>(b"-32769"), Err(Either::A(error::AsciiInteger)));
}

#[test]
fn test_integer_u32() {
    assert_eq!(
        integer::<u32>(b"4294967295").map(ParsedItem::into_parts),
        Ok((b"".as_ref(), u32::MAX))
    );
    assert_eq!(
        integer::<u32>(b"4294967296"),
        Err(Either::A(error::AsciiInteger))
    );
}

#[test]
fn test_integer_i32() {
    assert_eq!(
        integer::<i32>(b"2147483647").map(ParsedItem::into_parts),
        Ok((b"".as_ref(), i32::MAX))
    );
    assert_eq!(
        integer::<i32>(b"2147483648"),
        Err(Either::A(error::AsciiInteger))
    );
    assert_eq!(
        integer::<i32>(b"-2147483648").map(ParsedItem::into_parts),
        Ok((b"".as_ref(), i32::MIN))
    );
    assert_eq!(
        integer::<i32>(b"-2147483649"),
        Err(Either::A(error::AsciiInteger))
    );
}

#[test]
fn test_integer_u64() {
    assert_eq!(
        integer::<u64>(b"18446744073709551615").map(ParsedItem::into_parts),
        Ok((b"".as_ref(), u64::MAX))
    );
    assert_eq!(
        integer::<u64>(b"18446744073709551616"),
        Err(Either::A(error::AsciiInteger))
    );
}

#[test]
fn test_integer_i64() {
    assert_eq!(
        integer::<i64>(b"9223372036854775807").map(ParsedItem::into_parts),
        Ok((b"".as_ref(), i64::MAX))
    );
    assert_eq!(
        integer::<i64>(b"9223372036854775808"),
        Err(Either::A(error::AsciiInteger))
    );
    assert_eq!(
        integer::<i64>(b"-9223372036854775808").map(ParsedItem::into_parts),
        Ok((b"".as_ref(), i64::MIN))
    );
    assert_eq!(
        integer::<i64>(b"-9223372036854775809"),
        Err(Either::A(error::AsciiInteger))
    );
}

#[test]
fn test_integer_u128() {
    assert_eq!(
        integer::<u128>(b"340282366920938463463374607431768211455").map(ParsedItem::into_parts),
        Ok((b"".as_ref(), u128::MAX))
    );
    assert_eq!(
        integer::<u128>(b"340282366920938463463374607431768211456"),
        Err(Either::A(error::AsciiInteger))
    );
}

#[test]
fn test_integer_i128() {
    assert_eq!(
        integer::<i128>(b"170141183460469231731687303715884105727").map(ParsedItem::into_parts),
        Ok((b"".as_ref(), i128::MAX))
    );
    assert_eq!(
        integer::<i128>(b"170141183460469231731687303715884105728"),
        Err(Either::A(error::AsciiInteger))
    );
    assert_eq!(
        integer::<i128>(b"-170141183460469231731687303715884105728").map(ParsedItem::into_parts),
        Ok((b"".as_ref(), i128::MIN))
    );
    assert_eq!(
        integer::<i128>(b"-170141183460469231731687303715884105729"),
        Err(Either::A(error::AsciiInteger))
    );
}

#[test]
fn test_int_be() {
    let input = [
        0x12, 0x34, 0x56, 0x78, 0x9a, 0xbc, 0xde, 0xf0, 0x12, 0x34, 0x56, 0x78, 0x9a, 0xbc, 0xde,
        0xf0,
    ];

    assert_eq!(
        int_be::<u8>(&input[..1]).map(ParsedItem::into_parts),
        Ok((b"".as_ref(), 0x12))
    );
    assert_eq!(
        int_be::<u16>(&input[..2]).map(ParsedItem::into_parts),
        Ok((b"".as_ref(), 0x1234))
    );
    assert_eq!(
        int_be::<u32>(&input[..4]).map(ParsedItem::into_parts),
        Ok((b"".as_ref(), 0x12345678))
    );
    assert_eq!(
        int_be::<u64>(&input[..8]).map(ParsedItem::into_parts),
        Ok((b"".as_ref(), 0x123456789abcdef0))
    );
    assert_eq!(
        int_be::<u128>(&input).map(ParsedItem::into_parts),
        Ok((b"".as_ref(), 0x123456789abcdef0123456789abcdef0))
    );
    assert_eq!(int_be::<u8>(b""), Err(error::EndOfInput));
}

#[test]
fn test_int_le() {
    let input = [
        0x12, 0x34, 0x56, 0x78, 0x9a, 0xbc, 0xde, 0xf0, 0x12, 0x34, 0x56, 0x78, 0x9a, 0xbc, 0xde,
        0xf0,
    ];

    assert_eq!(
        int_le::<u8>(&input[..1]).map(ParsedItem::into_parts),
        Ok((b"".as_ref(), 0x12))
    );
    assert_eq!(
        int_le::<u16>(&input[..2]).map(ParsedItem::into_parts),
        Ok((b"".as_ref(), 0x3412))
    );
    assert_eq!(
        int_le::<u32>(&input[..4]).map(ParsedItem::into_parts),
        Ok((b"".as_ref(), 0x78563412))
    );
    assert_eq!(
        int_le::<u64>(&input[..8]).map(ParsedItem::into_parts),
        Ok((b"".as_ref(), 0xf0debc9a78563412))
    );
    assert_eq!(
        int_le::<u128>(&input).map(ParsedItem::into_parts),
        Ok((b"".as_ref(), 0xf0debc9a78563412f0debc9a78563412))
    );
    assert_eq!(int_le::<u8>(b""), Err(error::EndOfInput));
}

#[test]
fn int_test_int_ne() {
    let input = [
        0x12, 0x34, 0x56, 0x78, 0x9a, 0xbc, 0xde, 0xf0, 0x12, 0x34, 0x56, 0x78, 0x9a, 0xbc, 0xde,
        0xf0,
    ];
    let little = u16::from_ne_bytes([1, 0]) == 1;

    assert_eq!(
        int_ne::<u8>(&input[..1]).map(ParsedItem::into_parts),
        Ok((b"".as_ref(), 0x12))
    );
    assert_eq!(
        int_ne::<u16>(&input[..2]).map(ParsedItem::into_parts),
        Ok((b"".as_ref(), if little { 0x3412 } else { 0x1234 }))
    );
    assert_eq!(
        int_ne::<u32>(&input[..4]).map(ParsedItem::into_parts),
        Ok((b"".as_ref(), if little { 0x78563412 } else { 0x12345678 }))
    );
    assert_eq!(
        int_ne::<u64>(&input[..8]).map(ParsedItem::into_parts),
        Ok((
            b"".as_ref(),
            if little { 0xf0debc9a78563412 } else { 0x123456789abcdef0 }
        ))
    );
    assert_eq!(
        int_ne::<u128>(&input).map(ParsedItem::into_parts),
        Ok((
            b"".as_ref(),
            if little {
                0xf0debc9a78563412f0debc9a78563412
            } else {
                0x123456789abcdef0123456789abcdef0
            }
        ))
    );
    assert_eq!(int_ne::<u8>(b""), Err(error::EndOfInput));
}

#[test]
fn signed_binary_integers_use_twos_complement() {
    assert_eq!(
        int_be::<i16>(&[0xff, 0xfe, 0x07]).map(ParsedItem::into_parts),
        Ok((b"\x07".as_ref(), -2))
    );
    assert_eq!(
        int_le::<i32>(&[0x00, 0x00, 0x00, 0x80]).map(ParsedItem::into_parts),
        Ok((b"".as_ref(), i32::MIN))
    );
    assert_eq!(
        int_be::<i8>(&[0x7f]).map(ParsedItem::into_parts),
        Ok((b"".as_ref(), 127))
    );
    assert_eq!(int_le::<i64>(&[1, 2, 3]), Err(error::EndOfInput));
}

#[test]
fn test_first_success_valid() {
    let parser = first_success([verbatim(b"a"), verbatim(b"b"), verbatim(b"ab")]);
    assert_eq!(
        parser.parse(b"a").map(ParsedItem::into_parts),
        Ok((b"".as_ref(), b"a".as_ref()))
    );
    assert_eq!(
        parser.parse(b"b").map(ParsedItem::into_parts),
        Ok((b"".as_ref(), b"b".as_ref()))
    );
    assert_eq!(
        parser.parse(b"ab").map(ParsedItem::into_parts),
        Ok((b"b".as_ref(), b"a".as_ref()))
    );
}

#[test]
fn test_first_success_invalid() {
    let parser = first_success([verbatim(b"a"), verbatim(b"b"), verbatim(b"ab")]);
    assert_eq!(parser.parse(b"c"), Err(Either::A(error::NonMatchingInput)));
    assert_eq!(parser.parse(&[]), Err(Either::B(error::EndOfInput)));
}

#[test]
fn integer_leaves_digits_past_the_type_width() {
    assert_eq!(
        integer::<u8>(b"0001234").map(ParsedItem::into_parts),
        Ok((b"4".as_ref(), 123))
    );
    assert_eq!(
        integer::<i8>(b"-").map(ParsedItem::into_parts),
        Err(Either::A(error::AsciiInteger))
    );
    assert_eq!(
        integer::<i16>(b"-00x").map(ParsedItem::into_parts),
        Ok((b"x".as_ref(), 0))
    );
    assert_eq!(
        integer::<u32>(b"42 rest").map(ParsedItem::into_parts),
        Ok((b" rest".as_ref(), 42))
    );
}

#[test]
fn binary_integer_parsers_compose() {
    let parser = IntBe::<u16> { target: PhantomData }.and(IntLe::<u16> { target: PhantomData });
    assert_eq!(
        parser.parse(&[0x01, 0x02, 0x01, 0x02, 0xff]).map(ParsedItem::into_parts),
        Ok((b"\xff".as_ref(), (0x0102, 0x0201)))
    );
    assert_eq!(parser.parse(&[0x01, 0x02, 0x01]), Err(Either::B(error::EndOfInput)));
    let ascii = AsciiInt::<i32> { target: PhantomData }.and(AnyByte);
    assert_eq!(
        ascii.parse(b"-17;").map(ParsedItem::into_parts),
        Ok((b"".as_ref(), (-17, b';')))
    );
}
