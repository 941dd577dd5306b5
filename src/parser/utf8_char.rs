use vstd::prelude::*;
use vstd::utf8::{
    encode_scalar, has_width_1_encoding, has_width_2_encoding, has_width_3_encoding,
    last_continuation_byte, leading_byte_width_1, leading_byte_width_2, leading_byte_width_3,
    leading_byte_width_4, second_last_continuation_byte, third_last_continuation_byte,
};

use crate::error;
use crate::parser::{has_prefix, starts_with};
use crate::parser::SpecResult;
use crate::{Either, ParsedItem, Parser, ParserResult};

verus! {

/// The UTF-8 encoding of `c` in the first bytes of an array, and how many bytes it takes.
pub fn encode_char(c: char) -> (r: ([u8; 4], usize))
    ensures
        1 <= r.1 <= 4,
        r.0@.subrange(0, r.1 as int) == encode_scalar(c as u32),
{
    let v = c as u32;
    proof {
        vstd::utf8::char_is_scalar(c);
    }
    if v <= 0x7F {
        let r = [(v & 0x7F) as u8, 0, 0, 0];
        assert(r@.subrange(0, 1) =~= seq![leading_byte_width_1(v)]);
        (r, 1)
    } else if v <= 0x7FF {
        let r = [0xC0 | ((v >> 6) & 0x1F) as u8, 0x80 | (v & 0x3F) as u8, 0, 0];
        assert(r@.subrange(0, 2) =~= seq![leading_byte_width_2(v), last_continuation_byte(v)]);
        (r, 2)
    } else if v <= 0xFFFF {
        let r = [
            0xE0 | ((v >> 12) & 0x0F) as u8,
            0x80 | ((v >> 6) & 0x3F) as u8,
            0x80 | (v & 0x3F) as u8,
            0,
        ];
        assert(r@.subrange(0, 3) =~= seq![
            leading_byte_width_3(v),
            second_last_continuation_byte(v),
            last_continuation_byte(v),
        ]);
        (r, 3)
    } else {
        let r = [
            0xF0 | ((v >> 18) & 0x7) as u8,
            0x80 | ((v >> 12) & 0x3F) as u8,
            0x80 | ((v >> 6) & 0x3F) as u8,
            0x80 | (v & 0x3F) as u8,
        ];
        assert(r@ =~= seq![
            leading_byte_width_4(v),
            third_last_continuation_byte(v),
            second_last_continuation_byte(v),
            last_continuation_byte(v),
        ]);
        assert(r@.subrange(0, 4) =~= r@);
        (r, 4)
    }
}

/// Consumes the UTF-8 encoding of `expected` and produces the character.
#[derive(Debug, Clone, Copy)]
pub struct ExactChar {
    pub expected: char,
}

pub fn utf8_char(c: char) -> (r: ExactChar)
    ensures
        r.expected == c,
{
    ExactChar { expected: c }
}

impl<'input> Parser<'input> for ExactChar {
    type Output = char;
    type Error = Either<error::Utf8Char, error::EndOfInput>;
    type Model = char;

    open spec fn model(value: char) -> char {
        value
    }

    open spec fn wf(&self) -> bool {
        true
    }

    open spec fn spec_parse(&self, input: Seq<u8>) -> SpecResult<char, Self::Error> {
        let bytes = encode_scalar(self.expected as u32);
        if input.len() < bytes.len() {
            Err(Either::B(error::EndOfInput))
        } else if starts_with(input, bytes) {
            Ok((input.subrange(bytes.len() as int, input.len() as int), self.expected))
        } else {
            Err(Either::A(error::Utf8Char))
        }
    }

    proof fn lemma_consumes_prefix(&self, input: Seq<u8>) {
    }

    fn parse(self, input: &'input [u8]) -> (r: ParserResult<'input, char, Self::Error>) {
        let (buf, len) = encode_char(self.expected);
        if input.len() < len {
            return Err(Either::B(error::EndOfInput));
        }
        let bytes = vstd::slice::slice_subrange(buf.as_slice(), 0, len);
        if has_prefix(input, bytes) {
            let rest = vstd::slice::slice_subrange(input, len, input.len());
            Ok(ParsedItem::from_parts(rest, self.expected))
        } else {
            Err(Either::A(error::Utf8Char))
        }
    }
}

} // verus!
