//! The bridge from a value tree to a target shape: it looks at the value and
//! calls the visitor that stands for the target.

use vstd::prelude::*;

use crate::enum_de::EnumDeserializer;
use crate::error::{Error, Failure, Shape, Unexpected};
use crate::map_de::MapDeserializer;
use crate::seq_de::SeqDeserializer;
use crate::value::{Tree, Value};
use crate::visitor::{
    require_exhausted, whole_mapping_answer, whole_sequence_answer, Visit, Visitor,
};

verus! {

/// Whether `r` may be the result of decoding `value` with no hint of the
/// target's shape. A scalar goes to the visitor's call for it and the answer
/// stands. A sequence or a mapping is handed over as a decoder, and a
/// success of the visitor stands only where it read the decoder to its end.
pub open spec fn any_answer<V: Visitor>(value: Tree, visitor: V, r: Result<V::Value, Error>) -> bool {
    match value {
        Tree::Null => visitor.answers(Visit::Unit, r),
        Tree::Bool(b) => visitor.answers(Visit::Bool(b), r),
        Tree::I64(i) => visitor.answers(Visit::I64(i), r),
        Tree::F64(bits) => visitor.answers(Visit::F64(bits), r),
        Tree::String(s) => visitor.answers(Visit::String(s), r),
        Tree::Sequence(items) => whole_sequence_answer(items, visitor, r),
        Tree::Mapping(entries) => whole_mapping_answer(entries, visitor, r),
    }
}

/// Whether `r` may be the result of decoding `value` into an optional
/// target: a null is absent, anything else is present and offered whole.
pub open spec fn option_answer<V: Visitor>(value: Tree, visitor: V, r: Result<V::Value, Error>) -> bool {
    match value {
        Tree::Null => visitor.answers(Visit::Absent, r),
        _ => visitor.answers(Visit::Present(value), r),
    }
}

/// Whether `r` may be the result of decoding `value` into an enum: a string
/// is the tag of a variant without payload, a mapping of one entry is a tag
/// with its payload, and nothing else is a variant.
pub open spec fn enum_answer<V: Visitor>(value: Tree, visitor: V, r: Result<V::Value, Error>) -> bool {
    match value {
        Tree::Mapping(entries) => if entries.len() == 1 {
            visitor.answers(
                Visit::Enum { variant: entries[0].0, payload: Some(entries[0].1) },
                r,
            )
        } else {
            r matches Err(e) && e@ == (Failure::InvalidValue {
                unexpected: Shape::Mapping,
                expected: "map with a single key"@,
            })
        },
        Tree::String(s) => visitor.answers(
            Visit::Enum { variant: Tree::String(s), payload: None },
            r,
        ),
        _ => r matches Err(e) && e@ == (Failure::InvalidType {
            unexpected: value.shape(),
            expected: "string or map"@,
        }),
    }
}

impl Value {
    /// Decodes the value with no hint of the target's shape.
    pub fn deserialize_any<V: Visitor>(self, visitor: V) -> (r: Result<V::Value, Error>)
        ensures
            any_answer(self@, visitor, r),
    {
        match self {
            Value::Null => visitor.visit_unit(),
            Value::Bool(v) => visitor.visit_bool(v),
            Value::I64(i) => visitor.visit_i64(i),
            Value::F64(bits) => visitor.visit_f64(bits),
            Value::String(v) => visitor.visit_string(v),
            Value::Sequence(v) => {
                let len = v.len();
                let mut deserializer = SeqDeserializer::new(v);
                let seq = visitor.visit_seq(&mut deserializer);
                let remaining = deserializer.len();
                require_exhausted(len, remaining, "fewer elements in sequence", seq)
            },
            Value::Mapping(v) => {
                let len = v.len();
                let mut deserializer = MapDeserializer::new(v);
                let map = visitor.visit_map(&mut deserializer);
                let remaining = deserializer.len();
                require_exhausted(len, remaining, "fewer elements in map", map)
            },
        }
    }

    /// Decodes the value into an optional target.
    pub fn deserialize_option<V: Visitor>(self, visitor: V) -> (r: Result<V::Value, Error>)
        ensures
            option_answer(self@, visitor, r),
    {
        match self {
            Value::Null => visitor.visit_none(),
            _ => visitor.visit_some(self),
        }
    }

    /// Decodes the value into an enum whose variants are tagged from
    /// outside.
    pub fn deserialize_enum<V: Visitor>(
        self,
        _name: &str,
        _variants: &[&str],
        visitor: V,
    ) -> (r: Result<V::Value, Error>)
        ensures
            enum_answer(self@, visitor, r),
    {
        let (variant, value) = match self {
            Value::Mapping(value) => {
                let mut entries = value.into_entries();
                let (variant, value) = match entries.pop() {
                    Some(entry) => entry,
                    None => {
                        return Err(
                            Error::invalid_value(Unexpected::Mapping, "map with a single key"),
                        );
                    },
                };
                if !entries.is_empty() {
                    return Err(Error::invalid_value(Unexpected::Mapping, "map with a single key"));
                }
                (variant, Some(value))
            },
            Value::String(variant) => (Value::String(variant), None),
            other => {
                return Err(Error::invalid_type(other.unexpected(), "string or map"));
            },
        };
        visitor.visit_enum(EnumDeserializer::new(variant, value))
    }

    /// Decodes the value into a wrapper that adds no shape of its own: the
    /// value goes to the visitor unchanged.
    pub fn deserialize_newtype_struct<V: Visitor>(self, _name: &str, visitor: V) -> (r: Result<
        V::Value,
        Error,
    >)
        ensures
            visitor.answers(Visit::Newtype(self@), r),
    {
        visitor.visit_newtype_struct(self)
    }
}

} // verus!
