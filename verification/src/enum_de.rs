//! The decoder of an externally tagged variant: a tag and, for a variant that
//! carries data, its payload.

use vstd::prelude::*;

use crate::error::{Error, Failure, Shape, Unexpected};
use crate::map_de::{mapping_answer, MapDeserializer};
use crate::seq_de::{sequence_answer, SeqDeserializer};
use crate::value::{Tree, Value};
use crate::visitor::{DeserializeSeed, Visit, Visitor};

verus! {

/// A resolved variant: its tag, and its payload where it has one.
#[derive(Debug)]
pub struct EnumDeserializer {
    variant: Value,
    value: Option<Value>,
}

/// The payload of a resolved variant, where it has one.
#[derive(Debug)]
pub struct VariantDeserializer {
    value: Option<Value>,
}

/// The target shape of a unit value: it accepts a unit and declines anything
/// else as an invalid type where "unit" was expected.
#[derive(Clone, Copy, Debug)]
pub struct UnitVisitor;

impl Visitor for UnitVisitor {
    type Value = ();

    open spec fn answers(self, visit: Visit, r: Result<(), Error>) -> bool {
        match visit {
            Visit::Unit => r is Ok,
            _ => r matches Err(e) && e@ == (Failure::InvalidType {
                unexpected: visit.shape(),
                expected: "unit"@,
            }),
        }
    }

    fn visit_bool(self, v: bool) -> (r: Result<(), Error>) {
        Err(Error::invalid_type(Unexpected::Bool(v), "unit"))
    }

    fn visit_i64(self, v: i64) -> (r: Result<(), Error>) {
        Err(Error::invalid_type(Unexpected::Signed(v), "unit"))
    }

    fn visit_u64(self, v: u64) -> (r: Result<(), Error>) {
        Err(Error::invalid_type(Unexpected::Unsigned(v), "unit"))
    }

    fn visit_f64(self, bits: u64) -> (r: Result<(), Error>) {
        Err(Error::invalid_type(Unexpected::Float(bits), "unit"))
    }

    fn visit_str(self, v: &str) -> (r: Result<(), Error>) {
        Err(Error::invalid_type(Unexpected::Str(v), "unit"))
    }

    fn visit_string(self, v: String) -> (r: Result<(), Error>) {
        Err(Error::invalid_type(Unexpected::Str(v.as_str()), "unit"))
    }

    fn visit_unit(self) -> (r: Result<(), Error>) {
        Ok(())
    }

    fn visit_none(self) -> (r: Result<(), Error>) {
        Err(Error::invalid_type(Unexpected::Option, "unit"))
    }

    fn visit_some(self, _value: Value) -> (r: Result<(), Error>) {
        Err(Error::invalid_type(Unexpected::Option, "unit"))
    }

    fn visit_newtype_struct(self, _value: Value) -> (r: Result<(), Error>) {
        Err(Error::invalid_type(Unexpected::NewtypeStruct, "unit"))
    }

    fn visit_seq(self, _seq: &mut SeqDeserializer) -> (r: Result<(), Error>) {
        Err(Error::invalid_type(Unexpected::Sequence, "unit"))
    }

    fn visit_map(self, _map: &mut MapDeserializer) -> (r: Result<(), Error>) {
        Err(Error::invalid_type(Unexpected::Mapping, "unit"))
    }

    fn visit_enum(self, _data: EnumDeserializer) -> (r: Result<(), Error>) {
        Err(Error::invalid_type(Unexpected::Enum, "unit"))
    }
}

impl EnumDeserializer {
    /// The tag.
    pub closed spec fn variant(&self) -> Tree {
        self.variant@
    }

    /// The payload, where the variant has one.
    pub closed spec fn payload(&self) -> Option<Tree> {
        match self.value {
            Some(value) => Some(value@),
            None => None,
        }
    }

    /// The variant with the tag `variant` and the payload `value`.
    pub fn new(variant: Value, value: Option<Value>) -> (r: Self)
        ensures
            r.variant() == variant@,
            r.payload() == match value {
                Some(payload) => Some(payload@),
                None => None,
            },
    {
        EnumDeserializer { variant, value }
    }

    /// Decodes the tag as `seed` asks and returns it with the payload's
    /// decoder.
    pub fn variant_seed<V: DeserializeSeed>(self, seed: V) -> (r: Result<
        (V::Value, VariantDeserializer),
        Error,
    >)
        ensures
            match r {
                Ok((tag, access)) => seed.answers(self.variant(), Ok(tag)) && access.payload()
                    == self.payload(),
                Err(e) => seed.answers(self.variant(), Err(e)),
            },
    {
        let visitor = VariantDeserializer { value: self.value };
        match seed.deserialize(self.variant) {
            Ok(tag) => Ok((tag, visitor)),
            Err(e) => Err(e),
        }
    }
}

impl VariantDeserializer {
    /// The payload, where the variant has one.
    pub closed spec fn payload(&self) -> Option<Tree> {
        match self.value {
            Some(value) => Some(value@),
            None => None,
        }
    }

    /// Accepts a variant without data: no payload, or one that decodes as a
    /// unit value.
    pub fn unit_variant(self) -> (r: Result<(), Error>)
        ensures
            match self.payload() {
                None => r is Ok,
                Some(payload) => if payload is Null {
                    r is Ok
                } else {
                    r matches Err(e) && e@ == (Failure::InvalidType {
                        unexpected: payload.shape(),
                        expected: "unit"@,
                    })
                },
            },
    {
        match self.value {
            Some(value) => value.deserialize_any(UnitVisitor),
            None => Ok(()),
        }
    }

    /// Decodes the payload of a variant that wraps one value as `seed` asks.
    pub fn newtype_variant_seed<T: DeserializeSeed>(self, seed: T) -> (r: Result<T::Value, Error>)
        ensures
            match self.payload() {
                Some(payload) => seed.answers(payload, r),
                None => r matches Err(e) && e@ == (Failure::InvalidType {
                    unexpected: Shape::UnitVariant,
                    expected: "newtype variant"@,
                }),
            },
    {
        match self.value {
            Some(value) => seed.deserialize(value),
            None => Err(Error::invalid_type(Unexpected::UnitVariant, "newtype variant")),
        }
    }

    /// Decodes the payload of a variant that carries a tuple: the payload has
    /// to be a sequence.
    pub fn tuple_variant<V: Visitor>(self, _len: usize, visitor: V) -> (r: Result<V::Value, Error>)
        ensures
            match self.payload() {
                Some(Tree::Sequence(items)) => sequence_answer(items, visitor, r),
                Some(other) => r matches Err(e) && e@ == (Failure::InvalidType {
                    unexpected: other.shape(),
                    expected: "tuple variant"@,
                }),
                None => r matches Err(e) && e@ == (Failure::InvalidType {
                    unexpected: Shape::UnitVariant,
                    expected: "tuple variant"@,
                }),
            },
    {
        match self.value {
            Some(Value::Sequence(v)) => SeqDeserializer::new(v).deserialize_any(visitor),
            Some(other) => Err(Error::invalid_type(other.unexpected(), "tuple variant")),
            None => Err(Error::invalid_type(Unexpected::UnitVariant, "tuple variant")),
        }
    }

    /// Decodes the payload of a variant that carries named fields: the
    /// payload has to be a mapping.
    pub fn struct_variant<V: Visitor>(self, _fields: &[&str], visitor: V) -> (r: Result<
        V::Value,
        Error,
    >)
        ensures
            match self.payload() {
                Some(Tree::Mapping(entries)) => mapping_answer(entries, None, visitor, r),
                Some(other) => r matches Err(e) && e@ == (Failure::InvalidType {
                    unexpected: other.shape(),
                    expected: "struct variant"@,
                }),
                None => r matches Err(e) && e@ == (Failure::InvalidType {
                    unexpected: Shape::UnitVariant,
                    expected: "struct variant"@,
                }),
            },
    {
        match self.value {
            Some(Value::Mapping(v)) => MapDeserializer::new(v).deserialize_any(visitor),
            Some(other) => Err(Error::invalid_type(other.unexpected(), "struct variant")),
            None => Err(Error::invalid_type(Unexpected::UnitVariant, "struct variant")),
        }
    }
}

} // verus!
