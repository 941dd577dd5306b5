mod and;
mod and_infallible;
mod at_least_n;
mod at_least_n_raw;
mod at_most_n;
mod at_most_n_raw;
mod consume_while;
mod discard;
mod discard_at_least_n;
mod discard_while;
mod exactly_n;
mod filter;
mod filter_map;
pub mod func;
mod inspect;
mod inspect_err;
pub mod map;
mod map_err;
mod n_to_m;
mod n_to_m_raw;
mod optional;
mod or;
pub mod repeat;
mod trait_def;

pub use self::and::{and, And, AndWith};
pub use self::and_infallible::{and_infallible, never_fails, AndInfallible, AndInfallibleWith};
pub use self::at_least_n::{at_least_n, AtLeastN, AtLeastNWith};
pub use self::at_least_n_raw::{at_least_n_raw, AtLeastNRaw, AtLeastNRawWith};
pub use self::at_most_n::{at_most_n, AtMostN, AtMostNWith};
pub use self::at_most_n_raw::{at_most_n_raw, AtMostNRaw, AtMostNRawWith};
pub use self::consume_while::{consume_while, ConsumeWhile, ConsumeWhileWith};
pub use self::discard::{discard, Discarded};
pub use self::discard_at_least_n::{discard_at_least_n, DiscardAtLeastN, DiscardAtLeastNWith};
pub use self::discard_while::{discard_while, DiscardWhile, DiscardWhileWith};
pub use self::exactly_n::{exactly_n, exactly_n_raw, ExactlyNRawWith, ExactlyNWith};
pub use self::filter::{filter, FilterWith, Filtered};
pub use self::filter_map::{filter_map, FilterMapWith, FilterMapped};
pub use self::inspect::{inspect, InspectWith, Inspected};
pub use self::inspect_err::{inspect_err, InspectErrWith, InspectedErr};
pub use self::map::{Mapped, MapWith};
pub use self::map_err::{map_err, MapErrWith, MappedErr};
pub use self::n_to_m::{n_to_m, optional_runs, NToM, NToMWith};
pub use self::n_to_m_raw::{consumed, n_to_m_raw, NToMRaw, NToMRawWith};
pub use self::optional::{optional, Optional};
pub use self::or::{or, Or, OrWith};
pub use self::trait_def::Combinator;
