//! Binary serialization of fixed-width scalars and their compositions.
//!
//! Values declare their wire shape through the [`PackTo`] and [`UnpackFrom`]
//! traits: a scalar is written as its fixed-width bytes under a caller-chosen
//! [`ByteOrder`], and composite values (tuples, runs of same-typed values)
//! are the concatenation of their components' bytes in declared order, with
//! no separators and no padding.  Encoding targets a [`Sink`], a byte
//! destination that may run out of room; decoding draws from a [`Source`],
//! a byte origin that may run short.

pub mod error;
pub mod laws;
pub mod order;
pub mod pack;
pub mod scalar;
pub mod sink;
pub mod source;
pub mod tuple;
pub mod unpack;

pub use error::PackError;
pub use error::UnpackError;
pub use order::ByteOrder;
pub use pack::PackTo;
pub use sink::Sink;
pub use source::Source;
pub use unpack::UnpackFrom;
