//! Decoding into a value tree: the target shape that accepts whatever it is
//! offered and builds the tree that stands for it.

use vstd::prelude::*;

use crate::de::any_answer;
use crate::enum_de::EnumDeserializer;
use crate::error::{Error, Failure, Unexpected};
use crate::map_de::MapDeserializer;
use crate::mapping::{distinct_keys, has_key, inserted, Mapping};
use crate::number::{decimal, decimal_string, to_i64};
use crate::seq_de::SeqDeserializer;
use crate::value::{
    lemma_total_pair_size_bounds, lemma_total_size_bounds, total_pair_size, total_size, trees,
    Tree, Value,
};
use crate::visitor::{require_exhausted, DeserializeSeed, Visit, Visitor};

verus! {

/// The entries of the mapping that is filled with `entries` one after the
/// other.
pub open spec fn collected(entries: Seq<(Tree, Tree)>) -> Seq<(Tree, Tree)>
    decreases entries.len(),
{
    if entries.len() == 0 {
        Seq::empty()
    } else {
        inserted(collected(entries.drop_last()), entries.last().0, entries.last().1)
    }
}

/// Entries whose keys are pairwise different are collected as they are.
pub proof fn lemma_collected_distinct(entries: Seq<(Tree, Tree)>)
    requires
        distinct_keys(entries),
    ensures
        collected(entries) == entries,
    decreases entries.len(),
{
    if entries.len() > 0 {
        let front = entries.drop_last();
        lemma_collected_distinct(front);
        assert(!has_key(front, entries.last().0)) by {
            if has_key(front, entries.last().0) {
                let i = choose|i: int| 0 <= i < front.len() && (#[trigger] front[i]).0
                    == entries.last().0;
                assert(entries[i].0 == entries[entries.len() - 1].0);
            }
        }
        assert(front.push(entries.last()) =~= entries);
    }
}

/// The tree that a value tree as target builds from what it is offered, or
/// `None` for a call that it declines.
pub open spec fn built(visit: Visit) -> Option<Tree> {
    match visit {
        Visit::Bool(b) => Some(Tree::Bool(b)),
        Visit::I64(i) => Some(Tree::I64(i)),
        Visit::U64(u) => if u <= i64::MAX {
            Some(Tree::I64(u as i64))
        } else {
            Some(Tree::String(decimal(u as nat)))
        },
        Visit::F64(bits) => Some(Tree::F64(bits)),
        Visit::Str(s) => Some(Tree::String(s)),
        Visit::String(s) => Some(Tree::String(s)),
        Visit::Unit => Some(Tree::Null),
        Visit::Absent => Some(Tree::Null),
        Visit::Present(value) => Some(value),
        Visit::Newtype(_) => None,
        Visit::Sequence { items, .. } => Some(Tree::Sequence(items)),
        Visit::Mapping { entries, .. } => Some(Tree::Mapping(collected(entries))),
        Visit::Enum { .. } => None,
    }
}

/// The target shape of a value tree.
#[derive(Clone, Copy, Debug)]
pub struct ValueVisitor;

/// The request to decode a value as a value tree.
#[derive(Clone, Copy, Debug)]
pub struct ValueSeed;

impl Visitor for ValueVisitor {
    type Value = Value;

    /// A wrapper and an enum are declined, everything else is accepted; a
    /// sequence and a mapping are read to their end.
    open spec fn answers(self, visit: Visit, r: Result<Value, Error>) -> bool {
        match built(visit) {
            Some(tree) => r matches Ok(v) && v@ == tree && visit.left() == 0,
            None => r matches Err(e) && e@ == (Failure::InvalidType {
                unexpected: visit.shape(),
                expected: "any YAML value"@,
            }),
        }
    }

    fn visit_bool(self, v: bool) -> (r: Result<Value, Error>) {
        Ok(Value::Bool(v))
    }

    fn visit_i64(self, v: i64) -> (r: Result<Value, Error>) {
        Ok(Value::I64(v))
    }

    /// A number that a signed 64-bit integer cannot hold is kept as its
    /// decimal text.
    fn visit_u64(self, v: u64) -> (r: Result<Value, Error>) {
        match to_i64(v) {
            Some(i) => Ok(Value::I64(i)),
            None => Ok(Value::String(decimal_string(v))),
        }
    }

    fn visit_f64(self, bits: u64) -> (r: Result<Value, Error>) {
        Ok(Value::F64(bits))
    }

    fn visit_str(self, v: &str) -> (r: Result<Value, Error>) {
        Ok(Value::String(v.to_owned()))
    }

    fn visit_string(self, v: String) -> (r: Result<Value, Error>) {
        Ok(Value::String(v))
    }

    fn visit_unit(self) -> (r: Result<Value, Error>) {
        Ok(Value::Null)
    }

    fn visit_none(self) -> (r: Result<Value, Error>) {
        Ok(Value::Null)
    }

    fn visit_some(self, value: Value) -> (r: Result<Value, Error>) {
        Value::deserialize(value)
    }

    fn visit_newtype_struct(self, _value: Value) -> (r: Result<Value, Error>) {
        Err(Error::invalid_type(Unexpected::NewtypeStruct, "any YAML value"))
    }

    fn visit_seq(self, seq: &mut SeqDeserializer) -> (r: Result<Value, Error>)
        decreases total_size(old(seq)@), 1int,
    {
        let mut vec: Vec<Value> = Vec::new();
        loop
            invariant
                vec@.len() <= old(seq)@.len(),
                seq@ == old(seq)@.skip(vec@.len() as int),
                trees(vec@) == old(seq)@.take(vec@.len() as int),
            ensures
                seq@.len() == 0,
            decreases seq@.len(),
        {
            let ghost at = vec@.len() as int;
            match seq.next_value() {
                Some(value) => {
                    proof {
                        lemma_total_size_bounds(old(seq)@, at);
                    }
                    match Value::deserialize(value) {
                        Ok(element) => {
                            vec.push(element);
                            proof {
                                assert(trees(vec@) =~= old(seq)@.take(at + 1));
                                assert(seq@ =~= old(seq)@.skip(at + 1));
                            }
                        },
                        Err(e) => {
                            return Err(e);
                        },
                    }
                },
                None => {
                    break;
                },
            }
        }
        assert(trees(vec@) =~= old(seq)@);
        Ok(Value::Sequence(vec))
    }

    fn visit_map(self, map: &mut MapDeserializer) -> (r: Result<Value, Error>)
        decreases total_pair_size(old(map)@), 1int,
    {
        let mut values = Mapping::new();
        let ghost mut done: int = 0;
        loop
            invariant
                0 <= done <= old(map)@.len(),
                map@ == old(map)@.skip(done),
                values@ == collected(old(map)@.take(done)),
            ensures
                map@.len() == 0,
                done == old(map)@.len(),
            decreases map@.len(),
        {
            match map.next_key() {
                Some(key) => {
                    proof {
                        lemma_total_pair_size_bounds(old(map)@, done);
                    }
                    let value = map.next_value();
                    let key = match Value::deserialize(key) {
                        Ok(key) => key,
                        Err(e) => {
                            return Err(e);
                        },
                    };
                    let value = match Value::deserialize(value) {
                        Ok(value) => value,
                        Err(e) => {
                            return Err(e);
                        },
                    };
                    values.insert(key, value);
                    proof {
                        assert(old(map)@.take(done + 1).drop_last() =~= old(map)@.take(done));
                        assert(map@ =~= old(map)@.skip(done + 1));
                        done = done + 1;
                    }
                },
                None => {
                    break;
                },
            }
        }
        assert(old(map)@.take(done) =~= old(map)@);
        Ok(Value::Mapping(values))
    }

    fn visit_enum(self, _data: EnumDeserializer) -> (r: Result<Value, Error>) {
        Err(Error::invalid_type(Unexpected::Enum, "any YAML value"))
    }
}

impl Value {
    /// Decodes a value tree into a value tree: the result is the tree that
    /// was given.
    ///
    /// The calls on `ValueVisitor` are written out here, and not left to
    /// `deserialize_any`, because the visitor decodes the elements of a
    /// sequence and of a mapping through this function: Verus follows a
    /// recursion through direct calls only, not through a call that is
    /// generic in the visitor.
    pub fn deserialize(value: Value) -> (r: Result<Value, Error>)
        ensures
            r matches Ok(v) && v@ == value@,
        decreases value@.size(), 0int,
    {
        match value {
            Value::Null => ValueVisitor.visit_unit(),
            Value::Bool(v) => ValueVisitor.visit_bool(v),
            Value::I64(i) => ValueVisitor.visit_i64(i),
            Value::F64(bits) => ValueVisitor.visit_f64(bits),
            Value::String(v) => ValueVisitor.visit_string(v),
            Value::Sequence(v) => {
                let len = v.len();
                let mut deserializer = SeqDeserializer::new(v);
                let seq = ValueVisitor.visit_seq(&mut deserializer);
                let remaining = deserializer.len();
                require_exhausted(len, remaining, "fewer elements in sequence", seq)
            },
            Value::Mapping(v) => {
                proof {
                    use_type_invariant(&v);
                    lemma_collected_distinct(v@);
                }
                let len = v.len();
                let mut deserializer = MapDeserializer::new(v);
                let map = ValueVisitor.visit_map(&mut deserializer);
                let remaining = deserializer.len();
                require_exhausted(len, remaining, "fewer elements in map", map)
            },
        }
    }
}

/// Decoding a value tree with no hint of the target's shape, into a value
/// tree as target, returns the tree that was given. The keys of a mapping
/// are pairwise different, as they are in every `Mapping`.
pub proof fn lemma_any_value_round_trip(value: Tree, r: Result<Value, Error>)
    requires
        any_answer(value, ValueVisitor, r),
        value matches Tree::Mapping(entries) ==> distinct_keys(entries),
    ensures
        r matches Ok(v) && v@ == value,
{
    match value {
        Tree::Mapping(entries) => {
            lemma_collected_distinct(entries);
        },
        _ => {},
    }
}

/// An unsigned number within the range of a signed 64-bit integer is built
/// as that integer, and one above it as its decimal text, never as another
/// integer.
pub proof fn lemma_unsigned_fallback(u: u64, r: Result<Value, Error>)
    requires
        ValueVisitor.answers(Visit::U64(u), r),
    ensures
        r matches Ok(v) && v@ == if u <= i64::MAX {
            Tree::I64(u as i64)
        } else {
            Tree::String(decimal(u as nat))
        },
{
}

impl DeserializeSeed for ValueSeed {
    type Value = Value;

    open spec fn answers(self, value: Tree, r: Result<Value, Error>) -> bool {
        r matches Ok(v) && v@ == value
    }

    fn deserialize(self, value: Value) -> (r: Result<Value, Error>) {
        Value::deserialize(value)
    }
}

} // verus!
