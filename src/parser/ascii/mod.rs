mod alphabetic;
mod alphanumeric;
mod digit;
mod hex_digit;
mod integer;
mod whitespace;

pub use self::alphabetic::{alphabetic, spec_alphabetic, Alphabetic};
pub use self::alphanumeric::{alphanumeric, spec_alphanumeric, Alphanumeric};
pub use self::digit::{digit, spec_digit, Digit};
pub use self::hex_digit::{hex_digit, spec_hex_digit, HexDigit};
pub use self::integer::{
    decimal_value, integer, leading_digits, leading_zeros, spec_int, AsciiInt, Integer,
};
pub use self::whitespace::{spec_whitespace, whitespace, Whitespace};

use vstd::prelude::*;

verus! {

pub open spec fn is_digit(b: u8) -> bool {
    48 <= b <= 57
}

pub open spec fn is_alphabetic(b: u8) -> bool {
    (65 <= b <= 90) || (97 <= b <= 122)
}

/// Space, tab, line feed, form feed and carriage return.
pub open spec fn is_whitespace(b: u8) -> bool {
    b == 32 || b == 9 || b == 10 || b == 12 || b == 13
}

pub open spec fn is_hex_digit(b: u8) -> bool {
    is_digit(b) || (97 <= b <= 102) || (65 <= b <= 70)
}

/// The value of a hex digit.
pub open spec fn hex_value(b: u8) -> u8 {
    if is_digit(b) {
        (b - 48) as u8
    } else if 97 <= b <= 102 {
        (b - 97 + 10) as u8
    } else {
        (b - 65 + 10) as u8
    }
}

pub fn exec_hex_value(b: u8) -> (r: u8)
    requires
        is_hex_digit(b),
    ensures
        r == hex_value(b),
{
    if 48 <= b && b <= 57 {
        b - 48
    } else if 97 <= b && b <= 102 {
        b - 97 + 10
    } else {
        b - 65 + 10
    }
}

} // verus!
