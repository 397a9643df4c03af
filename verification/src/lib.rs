//! A type-directed decoder: it turns a dynamic, self-describing value tree
//! into whatever statically shaped target a visitor stands for.
//!
//! The tree is a [`Value`]. A target supplies a [`Visitor`]; the bridge in
//! [`de`] looks at the value and calls the visitor, handing sequences,
//! mappings and enum variants over as decoders that the visitor reads
//! element by element. Every contract speaks of the mathematical model of a
//! value, its [`value::Tree`].

pub mod de;
pub mod enum_de;
pub mod error;
pub mod map_de;
pub mod mapping;
pub mod number;
pub mod seq_de;
pub mod value;
pub mod value_visitor;
pub mod visitor;

pub use enum_de::{EnumDeserializer, UnitVisitor, VariantDeserializer};
pub use error::{Error, Unexpected, UnexpectedBuf};
pub use map_de::MapDeserializer;
pub use mapping::Mapping;
pub use seq_de::SeqDeserializer;
pub use value::Value;
pub use value_visitor::{ValueSeed, ValueVisitor};
pub use visitor::{require_exhausted, DeserializeSeed, Visitor};
