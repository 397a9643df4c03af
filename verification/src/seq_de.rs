//! The decoder of a sequence: a forward cursor over owned elements.

use vstd::prelude::*;

use crate::error::Error;
use crate::value::{trees, Tree, Value};
use crate::visitor::{require_exhausted, whole_sequence_answer, DeserializeSeed, Visit, Visitor};

verus! {

/// The elements of `v` in the opposite order.
pub(crate) fn reversed<T>(v: Vec<T>) -> (r: Vec<T>)
    ensures
        r@ == v@.reverse(),
{
    let ghost all = v@;
    let mut rest = v;
    let mut out: Vec<T> = Vec::new();
    loop
        invariant
            rest@.len() + out@.len() == all.len(),
            rest@ == all.subrange(0, rest@.len() as int),
            forall|i: int| 0 <= i < out@.len() ==> out@[i] == all[all.len() - 1 - i],
        ensures
            rest@.len() == 0,
        decreases rest@.len(),
    {
        match rest.pop() {
            Some(x) => {
                out.push(x);
            },
            None => {
                break;
            },
        }
    }
    assert(out@ =~= all.reverse());
    out
}

/// Hands out the elements of a sequence one by one, each at most once.
#[derive(Debug)]
pub struct SeqDeserializer {
    /// The unread elements, the next one last.
    iter: Vec<Value>,
}

impl View for SeqDeserializer {
    type V = Seq<Tree>;

    /// The unread elements, the next one first.
    closed spec fn view(&self) -> Seq<Tree> {
        trees(self.iter@).reverse()
    }
}

/// Whether `r` may be the result when a sequence decoder that holds `items`
/// is asked to decode with no hint of the target's shape.
pub open spec fn sequence_answer<V: Visitor>(
    items: Seq<Tree>,
    visitor: V,
    r: Result<V::Value, Error>,
) -> bool {
    if items.len() == 0 {
        visitor.answers(Visit::Unit, r)
    } else {
        whole_sequence_answer(items, visitor, r)
    }
}

impl SeqDeserializer {
    /// A decoder of all the elements of `vec`.
    pub fn new(vec: Vec<Value>) -> (r: Self)
        ensures
            r@ == trees(vec@),
    {
        let iter = reversed(vec);
        assert(trees(iter@).reverse() =~= trees(vec@));
        SeqDeserializer { iter }
    }

    /// The number of unread elements.
    pub fn len(&self) -> (r: usize)
        ensures
            r == self@.len(),
    {
        self.iter.len()
    }

    /// Moves the next element out, undecoded.
    pub fn next_value(&mut self) -> (r: Option<Value>)
        ensures
            match r {
                Some(value) => old(self)@.len() > 0 && value@ == old(self)@[0] && final(self)@
                    == old(self)@.drop_first(),
                None => old(self)@.len() == 0 && final(self)@ == old(self)@,
            },
    {
        let r = self.iter.pop();
        assert(r is Some ==> trees(self.iter@).reverse() =~= trees(
            old(self).iter@,
        ).reverse().drop_first());
        r
    }

    /// Moves the next element out and decodes it as `seed` asks. Returns
    /// `Ok(None)` where no element is left.
    pub fn next_element_seed<T: DeserializeSeed>(&mut self, seed: T) -> (r: Result<
        Option<T::Value>,
        Error,
    >)
        ensures
            old(self)@.len() == 0 ==> r == Ok::<Option<T::Value>, Error>(None) && final(self)@
                == old(self)@,
            old(self)@.len() > 0 ==> final(self)@ == old(self)@.drop_first() && match r {
                Ok(Some(element)) => seed.answers(old(self)@[0], Ok(element)),
                Ok(None) => false,
                Err(e) => seed.answers(old(self)@[0], Err(e)),
            },
    {
        match self.next_value() {
            Some(value) => match seed.deserialize(value) {
                Ok(element) => Ok(Some(element)),
                Err(e) => Err(e),
            },
            None => Ok(None),
        }
    }

    /// The exact number of unread elements.
    pub fn size_hint(&self) -> (r: Option<usize>)
        ensures
            r == Some(self@.len() as usize),
    {
        Some(self.iter.len())
    }

    /// Decodes with no hint of the target's shape: an empty decoder is a unit
    /// value, any other is offered as a sequence that the visitor has to read
    /// to its end.
    pub fn deserialize_any<V: Visitor>(self, visitor: V) -> (r: Result<V::Value, Error>)
        ensures
            sequence_answer(self@, visitor, r),
    {
        let mut this = self;
        let len = this.iter.len();
        if len == 0 {
            visitor.visit_unit()
        } else {
            let inner = visitor.visit_seq(&mut this);
            let remaining = this.iter.len();
            require_exhausted(len, remaining, "fewer elements in sequence", inner)
        }
    }
}

} // verus!
