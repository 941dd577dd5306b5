//! A parser combinator library over byte slices.
//!
//! A parser turns the remaining input into a [`ParsedItem`] (what is left of the input and the
//! value produced) or into an error. Combinators build larger parsers out of smaller ones. Every
//! parser states its behaviour as a specification function, `Parser::spec_parse`, and its
//! `parse` method is proved to agree with it.
pub mod combinator;
mod either;
pub mod error;
pub mod laws;
mod parsed_item;
pub mod parser;

pub use self::combinator::Combinator;
pub use self::either::Either;
pub use self::error::Error;
pub use self::parsed_item::ParsedItem;
pub use self::parser::{Parser, ParserExt, ParserResult};
