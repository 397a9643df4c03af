//! The value tree and its mathematical model.

use vstd::prelude::*;

use crate::error::{Shape, Unexpected};
use crate::mapping::Mapping;

verus! {

/// The mathematical model of a value tree.
pub enum Tree {
    Null,
    Bool(bool),
    I64(i64),
    F64(u64),
    String(Seq<char>),
    Sequence(Seq<Tree>),
    Mapping(Seq<(Tree, Tree)>),
}

/// A dynamic, self-describing value.
///
/// A floating-point number is held as the bit pattern of its IEEE 754
/// double-precision encoding, and two of them are the same where their bit
/// patterns are. Two values are equal where the trees that they stand for
/// are: their views.
#[derive(Debug)]
pub enum Value {
    Null,
    Bool(bool),
    I64(i64),
    F64(u64),
    String(String),
    Sequence(Vec<Value>),
    Mapping(Mapping),
}

/// The models of a sequence of values, in order.
pub open spec fn trees(values: Seq<Value>) -> Seq<Tree>
    decreases values,
{
    Seq::new(
        values.len(),
        |i: int|
            if 0 <= i < values.len() {
                values[i].view()
            } else {
                Tree::Null
            },
    )
}

/// The models of a sequence of key/value pairs, in order.
pub open spec fn pairs(entries: Seq<(Value, Value)>) -> Seq<(Tree, Tree)>
    decreases entries,
{
    Seq::new(
        entries.len(),
        |i: int|
            if 0 <= i < entries.len() {
                (entries[i].0.view(), entries[i].1.view())
            } else {
                (Tree::Null, Tree::Null)
            },
    )
}

impl View for Value {
    type V = Tree;

    open spec fn view(&self) -> Tree
        decreases self,
    {
        match self {
            Value::Null => Tree::Null,
            Value::Bool(b) => Tree::Bool(*b),
            Value::I64(i) => Tree::I64(*i),
            Value::F64(bits) => Tree::F64(*bits),
            Value::String(s) => Tree::String(s@),
            Value::Sequence(v) => Tree::Sequence(trees(v@)),
            Value::Mapping(m) => Tree::Mapping(m.view()),
        }
    }
}

impl Tree {
    /// How a tree is named where another shape was required.
    pub open spec fn shape(self) -> Shape {
        match self {
            Tree::Null => Shape::Unit,
            Tree::Bool(b) => Shape::Bool(b),
            Tree::I64(i) => Shape::Signed(i),
            Tree::F64(bits) => Shape::Float(bits),
            Tree::String(s) => Shape::Str(s),
            Tree::Sequence(_) => Shape::Sequence,
            Tree::Mapping(_) => Shape::Mapping,
        }
    }

    /// The number of nodes of a tree.
    pub open spec fn size(self) -> nat
        decreases self,
    {
        match self {
            Tree::Sequence(items) => 1 + total_size(items),
            Tree::Mapping(entries) => 1 + total_pair_size(entries),
            _ => 1,
        }
    }
}

/// The number of nodes of all the trees of a sequence.
pub open spec fn total_size(items: Seq<Tree>) -> nat
    decreases items,
{
    if items.len() == 0 {
        0
    } else {
        items[0].size() + total_size(items.drop_first())
    }
}

/// The number of nodes of all the keys and values of a sequence of pairs.
pub open spec fn total_pair_size(entries: Seq<(Tree, Tree)>) -> nat
    decreases entries,
{
    if entries.len() == 0 {
        0
    } else {
        entries[0].0.size() + entries[0].1.size() + total_pair_size(entries.drop_first())
    }
}

impl Value {
    /// Classifies the value for an error message. The text of a string is
    /// borrowed.
    pub fn unexpected(&self) -> (r: Unexpected<'_>)
        ensures
            r@ == self@.shape(),
    {
        match self {
            Value::Null => Unexpected::Unit,
            Value::Bool(b) => Unexpected::Bool(*b),
            Value::I64(i) => Unexpected::Signed(*i),
            Value::F64(bits) => Unexpected::Float(*bits),
            Value::String(s) => Unexpected::Str(s.as_str()),
            Value::Sequence(_) => Unexpected::Sequence,
            Value::Mapping(_) => Unexpected::Mapping,
        }
    }
}

/// A tree of a sequence is no larger than the whole sequence.
pub proof fn lemma_total_size_bounds(items: Seq<Tree>, i: int)
    requires
        0 <= i < items.len(),
    ensures
        items[i].size() <= total_size(items),
    decreases items.len(),
{
    if i > 0 {
        lemma_total_size_bounds(items.drop_first(), i - 1);
    }
}

/// A pair of a sequence is no larger than the whole sequence.
pub proof fn lemma_total_pair_size_bounds(entries: Seq<(Tree, Tree)>, i: int)
    requires
        0 <= i < entries.len(),
    ensures
        entries[i].0.size() + entries[i].1.size() <= total_pair_size(entries),
    decreases entries.len(),
{
    if i > 0 {
        lemma_total_pair_size_bounds(entries.drop_first(), i - 1);
    }
}

/// Whether two values are the same tree.
pub(crate) fn eq_values(a: &Value, b: &Value) -> (r: bool)
    ensures
        r == (a@ == b@),
    decreases a@.size(), 0int,
{
    match a {
        Value::Null => match b {
            Value::Null => true,
            _ => false,
        },
        Value::Bool(x) => match b {
            Value::Bool(y) => *x == *y,
            _ => false,
        },
        Value::I64(x) => match b {
            Value::I64(y) => *x == *y,
            _ => false,
        },
        Value::F64(x) => match b {
            Value::F64(y) => *x == *y,
            _ => false,
        },
        Value::String(x) => match b {
            Value::String(y) => *x == *y,
            _ => false,
        },
        Value::Sequence(x) => match b {
            Value::Sequence(y) => eq_sequences(x, y),
            _ => false,
        },
        Value::Mapping(x) => match b {
            Value::Mapping(y) => eq_entries(x.entries(), y.entries()),
            _ => false,
        },
    }
}

/// Whether two sequences hold the same trees in the same order.
pub(crate) fn eq_sequences(a: &Vec<Value>, b: &Vec<Value>) -> (r: bool)
    ensures
        r == (trees(a@) == trees(b@)),
    decreases total_size(trees(a@)), 1int,
{
    if a.len() != b.len() {
        return false;
    }
    let mut i: usize = 0;
    while i < a.len()
        invariant
            0 <= i <= a.len(),
            a.len() == b.len(),
            forall|j: int| 0 <= j < i ==> a@[j]@ == b@[j]@,
        decreases a.len() - i,
    {
        proof {
            lemma_total_size_bounds(trees(a@), i as int);
        }
        if !eq_values(&a[i], &b[i]) {
            assert(trees(a@)[i as int] != trees(b@)[i as int]);
            return false;
        }
        i += 1;
    }
    assert(trees(a@) =~= trees(b@));
    true
}

/// Whether two sequences of pairs hold the same keys and values in the same
/// order.
pub(crate) fn eq_entries(a: &Vec<(Value, Value)>, b: &Vec<(Value, Value)>) -> (r: bool)
    ensures
        r == (pairs(a@) == pairs(b@)),
    decreases total_pair_size(pairs(a@)), 1int,
{
    if a.len() != b.len() {
        return false;
    }
    let mut i: usize = 0;
    while i < a.len()
        invariant
            0 <= i <= a.len(),
            a.len() == b.len(),
            forall|j: int| 0 <= j < i ==> a@[j].0@ == b@[j].0@ && a@[j].1@ == b@[j].1@,
        decreases a.len() - i,
    {
        proof {
            lemma_total_pair_size_bounds(pairs(a@), i as int);
        }
        if !eq_values(&a[i].0, &b[i].0) || !eq_values(&a[i].1, &b[i].1) {
            assert(pairs(a@)[i as int] != pairs(b@)[i as int]);
            return false;
        }
        i += 1;
    }
    assert(pairs(a@) =~= pairs(b@));
    true
}

/// A copy of a sequence of values.
pub(crate) fn clone_sequence(values: &Vec<Value>) -> (r: Vec<Value>)
    ensures
        trees(r@) == trees(values@),
    decreases total_size(trees(values@)), 1int,
{
    let mut out: Vec<Value> = Vec::new();
    let mut i: usize = 0;
    while i < values.len()
        invariant
            0 <= i <= values.len(),
            out@.len() == i,
            forall|j: int| 0 <= j < i ==> out@[j]@ == values@[j]@,
        decreases values.len() - i,
    {
        proof {
            lemma_total_size_bounds(trees(values@), i as int);
        }
        out.push(values[i].clone());
        i += 1;
    }
    assert(trees(out@) =~= trees(values@));
    out
}

/// A copy of a sequence of key/value pairs.
pub(crate) fn clone_entries(entries: &Vec<(Value, Value)>) -> (r: Vec<(Value, Value)>)
    ensures
        pairs(r@) == pairs(entries@),
    decreases total_pair_size(pairs(entries@)), 1int,
{
    let mut out: Vec<(Value, Value)> = Vec::new();
    let mut i: usize = 0;
    while i < entries.len()
        invariant
            0 <= i <= entries.len(),
            out@.len() == i,
            forall|j: int| 0 <= j < i ==> out@[j].0@ == entries@[j].0@ && out@[j].1@ == entries@[j].1@,
        decreases entries.len() - i,
    {
        proof {
            lemma_total_pair_size_bounds(pairs(entries@), i as int);
        }
        let key = entries[i].0.clone();
        let value = entries[i].1.clone();
        out.push((key, value));
        i += 1;
    }
    assert(pairs(out@) =~= pairs(entries@));
    out
}

impl Clone for Value {
    /// An independent copy of the whole tree.
    fn clone(&self) -> (r: Value)
        ensures
            r@ == self@,
        decreases self@.size(), 0int,
    {
        match self {
            Value::Null => Value::Null,
            Value::Bool(b) => Value::Bool(*b),
            Value::I64(i) => Value::I64(*i),
            Value::F64(bits) => Value::F64(*bits),
            Value::String(s) => Value::String(s.clone()),
            Value::Sequence(v) => Value::Sequence(clone_sequence(v)),
            Value::Mapping(m) => Value::Mapping(m.clone()),
        }
    }
}

impl PartialEq for Value {
    fn eq(&self, other: &Value) -> (r: bool) {
        eq_values(self, other)
    }
}

impl vstd::std_specs::cmp::PartialEqSpecImpl for Value {
    open spec fn obeys_eq_spec() -> bool {
        true
    }

    open spec fn eq_spec(&self, other: &Value) -> bool {
        self@ == other@
    }
}

} // verus!
