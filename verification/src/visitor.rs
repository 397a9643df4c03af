//! What a target shape supplies to the decoder, and what the decoder owes it.

use vstd::prelude::*;

use crate::enum_de::EnumDeserializer;
use crate::error::{Error, Failure, Shape};
use crate::map_de::MapDeserializer;
use crate::seq_de::SeqDeserializer;
use crate::value::{Tree, Value};

verus! {

/// One call that a decoder makes on a visitor, with what it handed over.
pub enum Visit {
    Bool(bool),
    I64(i64),
    U64(u64),
    /// The bit pattern of a double-precision number.
    F64(u64),
    Str(Seq<char>),
    String(Seq<char>),
    Unit,
    /// No value is present.
    Absent,
    /// A value is present; it is offered whole.
    Present(Tree),
    /// The value behind a wrapper that adds no shape of its own.
    Newtype(Tree),
    /// A sequence decoder that held `items`, of which the visitor left the
    /// last `left` unread.
    Sequence { items: Seq<Tree>, left: nat },
    /// A mapping decoder that held `entries` and the value `pending` of a key
    /// read before; the visitor left the last `left` entries untouched.
    Mapping { entries: Seq<(Tree, Tree)>, pending: Option<Tree>, left: nat },
    /// A variant tag with its payload, where it has one.
    Enum { variant: Tree, payload: Option<Tree> },
}

impl Visit {
    /// The number of elements that the visitor left unread; none where the
    /// call hands over no decoder.
    pub open spec fn left(self) -> nat {
        match self {
            Visit::Sequence { left, .. } => left,
            Visit::Mapping { left, .. } => left,
            _ => 0,
        }
    }

    /// How a visitor that declines a call names what it was offered.
    pub open spec fn shape(self) -> Shape {
        match self {
            Visit::Bool(b) => Shape::Bool(b),
            Visit::I64(i) => Shape::Signed(i),
            Visit::U64(u) => Shape::Unsigned(u),
            Visit::F64(bits) => Shape::Float(bits),
            Visit::Str(s) => Shape::Str(s),
            Visit::String(s) => Shape::Str(s),
            Visit::Unit => Shape::Unit,
            Visit::Absent => Shape::Option,
            Visit::Present(_) => Shape::Option,
            Visit::Newtype(_) => Shape::NewtypeStruct,
            Visit::Sequence { .. } => Shape::Sequence,
            Visit::Mapping { .. } => Shape::Mapping,
            Visit::Enum { .. } => Shape::Enum,
        }
    }
}

/// A target shape: it receives what the decoder found and builds its value
/// or declines.
pub trait Visitor: Sized {
    /// What the visitor builds.
    type Value;

    /// Whether `r` is an answer that this visitor may give to `visit`. A
    /// visitor that states nothing may give any answer.
    open spec fn answers(self, visit: Visit, r: Result<Self::Value, Error>) -> bool {
        true
    }

    /// Receives a boolean.
    fn visit_bool(self, v: bool) -> (r: Result<Self::Value, Error>)
        ensures
            self.answers(Visit::Bool(v), r),
    ;

    /// Receives a signed integer.
    fn visit_i64(self, v: i64) -> (r: Result<Self::Value, Error>)
        ensures
            self.answers(Visit::I64(v), r),
    ;

    /// Receives an unsigned integer.
    fn visit_u64(self, v: u64) -> (r: Result<Self::Value, Error>)
        ensures
            self.answers(Visit::U64(v), r),
    ;

    /// Receives the bit pattern of a double-precision number.
    fn visit_f64(self, bits: u64) -> (r: Result<Self::Value, Error>)
        ensures
            self.answers(Visit::F64(bits), r),
    ;

    /// Receives text that the caller keeps.
    fn visit_str(self, v: &str) -> (r: Result<Self::Value, Error>)
        ensures
            self.answers(Visit::Str(v@), r),
    ;

    /// Receives text that the visitor may keep.
    fn visit_string(self, v: String) -> (r: Result<Self::Value, Error>)
        ensures
            self.answers(Visit::String(v@), r),
    ;

    /// Receives a unit value.
    fn visit_unit(self) -> (r: Result<Self::Value, Error>)
        ensures
            self.answers(Visit::Unit, r),
    ;

    /// Learns that an optional value is absent.
    fn visit_none(self) -> (r: Result<Self::Value, Error>)
        ensures
            self.answers(Visit::Absent, r),
    ;

    /// Receives the value of an optional that is present, to decode it as
    /// the wrapped target asks.
    fn visit_some(self, value: Value) -> (r: Result<Self::Value, Error>)
        ensures
            self.answers(Visit::Present(value@), r),
    ;

    /// Receives the value behind a wrapper, to decode it as the wrapped
    /// target asks.
    fn visit_newtype_struct(self, value: Value) -> (r: Result<Self::Value, Error>)
        ensures
            self.answers(Visit::Newtype(value@), r),
    ;

    /// Receives a sequence as a decoder to read its elements from.
    fn visit_seq(self, seq: &mut SeqDeserializer) -> (r: Result<Self::Value, Error>)
        ensures
            self.answers(Visit::Sequence { items: old(seq)@, left: final(seq)@.len() }, r),
    ;

    /// Receives a mapping as a decoder to read its keys and values from.
    fn visit_map(self, map: &mut MapDeserializer) -> (r: Result<Self::Value, Error>)
        ensures
            self.answers(
                Visit::Mapping {
                    entries: old(map)@,
                    pending: old(map).pending(),
                    left: final(map)@.len(),
                },
                r,
            ),
    ;

    /// Receives a variant: its tag, and its payload where it has one.
    fn visit_enum(self, data: EnumDeserializer) -> (r: Result<Self::Value, Error>)
        ensures
            self.answers(Visit::Enum { variant: data.variant(), payload: data.payload() }, r),
    ;
}

/// A request to decode one value, with whatever the decode needs to know.
pub trait DeserializeSeed: Sized {
    /// What the request yields.
    type Value;

    /// Whether `r` is an answer that this request may give for `value`. A
    /// request that states nothing may give any answer.
    open spec fn answers(self, value: Tree, r: Result<Self::Value, Error>) -> bool {
        true
    }

    /// Decodes `value` as the request asks.
    fn deserialize(self, value: Value) -> (r: Result<Self::Value, Error>)
        ensures
            self.answers(value@, r),
    ;
}

/// Whether `r` is what a decoder of `len` elements returns once a visitor
/// answered `inner` and left `left` elements unread: a failure of the visitor
/// stays as it is, a success stands only where nothing is left.
pub open spec fn closes<T>(
    len: nat,
    left: nat,
    expected: Seq<char>,
    inner: Result<T, Error>,
    r: Result<T, Error>,
) -> bool {
    match inner {
        Err(_) => r == inner,
        Ok(_) => if left == 0 {
            r == inner
        } else {
            r matches Err(e) && e@ == (Failure::InvalidLength { len, expected })
        },
    }
}

/// Whether `r` may be the result of offering a decoder of `items` to the
/// visitor and asking that it be read to its end.
pub open spec fn whole_sequence_answer<V: Visitor>(
    items: Seq<Tree>,
    visitor: V,
    r: Result<V::Value, Error>,
) -> bool {
    exists|left: nat, inner: Result<V::Value, Error>|
        #[trigger] visitor.answers(Visit::Sequence { items, left }, inner) && closes(
            items.len(),
            left,
            "fewer elements in sequence"@,
            inner,
            r,
        )
}

/// Whether `r` may be the result of offering a decoder of `entries`, with no
/// value waiting, to the visitor and asking that it be read to its end.
pub open spec fn whole_mapping_answer<V: Visitor>(
    entries: Seq<(Tree, Tree)>,
    visitor: V,
    r: Result<V::Value, Error>,
) -> bool {
    exists|left: nat, inner: Result<V::Value, Error>|
        #[trigger] visitor.answers(Visit::Mapping { entries, pending: None, left }, inner)
            && closes(entries.len(), left, "fewer elements in map"@, inner, r)
}

/// Turns the answer of a visitor into the result of the decode: where the
/// visitor succeeded and `left` elements are unread, the result is an error
/// of kind `InvalidLength` that carries the length `len` at the start.
pub fn require_exhausted<T>(len: usize, left: usize, expected: &str, inner: Result<T, Error>) -> (r:
    Result<T, Error>)
    ensures
        closes(len as nat, left as nat, expected@, inner, r),
{
    match inner {
        Err(e) => Err(e),
        Ok(value) => if left == 0 {
            Ok(value)
        } else {
            Err(Error::invalid_length(len, expected))
        },
    }
}

} // verus!
