//! The decoder of a mapping: a forward cursor over owned entries with one
//! slot for the value of the key that was read last.

use vstd::prelude::*;

use crate::error::Error;
use crate::mapping::Mapping;
use crate::seq_de::reversed;
use crate::value::{pairs, Tree, Value};
use crate::visitor::{DeserializeSeed, Visit, Visitor};

verus! {

/// Hands out the entries of a mapping one by one, each key before its value
/// and each at most once.
#[derive(Debug)]
pub struct MapDeserializer {
    /// The untouched entries, the next one last.
    iter: Vec<(Value, Value)>,
    /// The value of the key that was handed out last, until it is asked for.
    value: Option<Value>,
}

impl View for MapDeserializer {
    type V = Seq<(Tree, Tree)>;

    /// The untouched entries, the next one first.
    closed spec fn view(&self) -> Seq<(Tree, Tree)> {
        pairs(self.iter@).reverse()
    }
}

/// Whether `r` may be the result when a mapping decoder that holds `entries`
/// and the value `pending` is asked to decode with no hint of the target's
/// shape: the visitor's answer stands, whatever it left unread.
pub open spec fn mapping_answer<V: Visitor>(
    entries: Seq<(Tree, Tree)>,
    pending: Option<Tree>,
    visitor: V,
    r: Result<V::Value, Error>,
) -> bool {
    exists|left: nat| #[trigger] visitor.answers(Visit::Mapping { entries, pending, left }, r)
}

impl MapDeserializer {
    /// The value that waits to be asked for, where a key was handed out and
    /// its value was not.
    pub closed spec fn pending(&self) -> Option<Tree> {
        match self.value {
            Some(value) => Some(value@),
            None => None,
        }
    }

    /// A decoder of all the entries of `map`, with no value waiting.
    pub fn new(map: Mapping) -> (r: Self)
        ensures
            r@ == map@,
            r.pending() is None,
    {
        let entries = map.into_entries();
        let iter = reversed(entries);
        assert(pairs(iter@).reverse() =~= pairs(entries@));
        MapDeserializer { iter, value: None }
    }

    /// The number of untouched entries.
    pub fn len(&self) -> (r: usize)
        ensures
            r == self@.len(),
    {
        self.iter.len()
    }

    /// Whether a value waits to be asked for.
    pub fn has_pending(&self) -> (r: bool)
        ensures
            r == self.pending() is Some,
    {
        self.value.is_some()
    }

    /// Moves the key of the next entry out, undecoded, and keeps the entry's
    /// value for the next call of `next_value`. A value that waited before is
    /// given up.
    pub fn next_key(&mut self) -> (r: Option<Value>)
        ensures
            match r {
                Some(key) => old(self)@.len() > 0 && key@ == old(self)@[0].0 && final(self).pending() == Some(old(self)@[0].1) && final(self)@ == old(self)@.drop_first(),
                None => old(self)@.len() == 0 && final(self)@ == old(self)@ && final(self).pending() == old(self).pending(),
            },
    {
        match self.iter.pop() {
            Some((key, value)) => {
                self.value = Some(value);
                proof {
                    assert(pairs(self.iter@).reverse() =~= pairs(
                        old(self).iter@,
                    ).reverse().drop_first());
                }
                Some(key)
            },
            None => None,
        }
    }

    /// Moves the waiting value out, undecoded.
    pub fn next_value(&mut self) -> (r: Value)
        requires
            old(self).pending() is Some,
        ensures
            Some(r@) == old(self).pending(),
            final(self).pending() is None,
            final(self)@ == old(self)@,
    {
        match self.value.take() {
            Some(value) => value,
            None => vstd::pervasive::unreached(),
        }
    }

    /// Moves the key of the next entry out and decodes it as `seed` asks; the
    /// entry's value waits for `next_value_seed`. Returns `Ok(None)` where no
    /// entry is left.
    pub fn next_key_seed<T: DeserializeSeed>(&mut self, seed: T) -> (r: Result<
        Option<T::Value>,
        Error,
    >)
        ensures
            old(self)@.len() == 0 ==> r == Ok::<Option<T::Value>, Error>(None) && final(self)@
                == old(self)@ && final(self).pending() == old(self).pending(),
            old(self)@.len() > 0 ==> final(self)@ == old(self)@.drop_first() && final(self).pending() == Some(old(self)@[0].1) && match r {
                Ok(Some(key)) => seed.answers(old(self)@[0].0, Ok(key)),
                Ok(None) => false,
                Err(e) => seed.answers(old(self)@[0].0, Err(e)),
            },
    {
        match self.next_key() {
            Some(key) => match seed.deserialize(key) {
                Ok(key) => Ok(Some(key)),
                Err(e) => Err(e),
            },
            None => Ok(None),
        }
    }

    /// Moves the waiting value out and decodes it as `seed` asks. A key must
    /// have been handed out before, and its value not yet.
    pub fn next_value_seed<T: DeserializeSeed>(&mut self, seed: T) -> (r: Result<T::Value, Error>)
        requires
            old(self).pending() is Some,
        ensures
            seed.answers(old(self).pending()->0, r),
            final(self).pending() is None,
            final(self)@ == old(self)@,
    {
        let value = self.next_value();
        seed.deserialize(value)
    }

    /// The exact number of untouched entries.
    pub fn size_hint(&self) -> (r: Option<usize>)
        ensures
            r == Some(self@.len() as usize),
    {
        Some(self.iter.len())
    }

    /// Decodes with no hint of the target's shape: the decoder is offered as
    /// a mapping, and nothing is asked of what the visitor leaves unread.
    pub fn deserialize_any<V: Visitor>(self, visitor: V) -> (r: Result<V::Value, Error>)
        ensures
            mapping_answer(self@, self.pending(), visitor, r),
    {
        let mut this = self;
        visitor.visit_map(&mut this)
    }
}

} // verus!
