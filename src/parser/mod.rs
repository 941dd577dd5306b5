mod any_byte;
pub mod ascii;
pub mod binary;
mod byte;
mod end_of_input;
mod first_success;
mod from_fn;
mod n_bytes;
mod success;
mod trait_def;
mod utf8_char;
mod verbatim;

pub use self::any_byte::{any_byte, spec_any_byte, AnyByte};
pub use self::binary::{int_be, int_le, int_ne};
pub use self::byte::{byte, ExactByte};
pub use self::end_of_input::{end_of_input, spec_end_of_input, AtEnd};
pub use self::first_success::{first_ok, first_success, FirstSuccess};
pub use self::from_fn::{from_fn, outcome_of, parser_fn, returns_on, FromFn};
pub use self::n_bytes::{n_bytes, NBytes};
pub use self::success::{success, Succeed};
pub use self::trait_def::{
    agrees, is_suffix, InfallibleParser, Parser, ParserExt, ParserResult, SpecResult,
};
pub use self::utf8_char::{encode_char, utf8_char, ExactChar};
pub use self::verbatim::{has_prefix, starts_with, verbatim, Verbatim};
