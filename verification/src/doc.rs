//! The generic document model: an ordered sequence of key/value
//! entries, where a value is a string, a 32-bit integer, a 64-bit
//! integer, a boolean, null, an array of values, or a nested document.
//!
//! `GValue` is the mathematical model of a value, used by every
//! contract; `Value` and `Document` are the executable forms, related
//! to the model by `gview`.

use vstd::prelude::*;

verus! {

broadcast use vstd::std_specs::vec::group_vec_axioms;

/// The mathematical model of a document value.
#[verifier::ext_equal]
pub enum GValue {
    Str(Seq<char>),
    I32(i32),
    I64(i64),
    Bool(bool),
    Null,
    Arr(Seq<GValue>),
    Doc(Seq<(Seq<char>, GValue)>),
}

/// An executable document value.
#[derive(Debug, PartialEq)]
pub enum Value {
    Str(String),
    I32(i32),
    I64(i64),
    Bool(bool),
    Null,
    Arr(Vec<Value>),
    Doc(Document),
}

/// An executable document: key/value entries in insertion order.
#[derive(Debug, PartialEq)]
pub struct Document {
    pub entries: Vec<(String, Value)>,
}

impl Value {
    /// The model of this value.
    pub open spec fn gview(self) -> GValue
        decreases self,
    {
        match self {
            Value::Str(s) => GValue::Str(s@),
            Value::I32(n) => GValue::I32(n),
            Value::I64(n) => GValue::I64(n),
            Value::Bool(b) => GValue::Bool(b),
            Value::Null => GValue::Null,
            Value::Arr(vs) => GValue::Arr(
                Seq::new(
                    vs@.len(),
                    |i: int|
                        if 0 <= i < vs@.len() {
                            vs@[i].gview()
                        } else {
                            GValue::Null
                        },
                ),
            ),
            Value::Doc(d) => GValue::Doc(
                Seq::new(
                    d.entries@.len(),
                    |i: int|
                        if 0 <= i < d.entries@.len() {
                            (d.entries@[i].0@, d.entries@[i].1.gview())
                        } else {
                            (Seq::<char>::empty(), GValue::Null)
                        },
                ),
            ),
        }
    }
}

impl Document {
    /// The model of this document: its entries as key/value pairs.
    pub open spec fn gview(self) -> Seq<(Seq<char>, GValue)> {
        Seq::new(self.entries@.len(), |i: int| (self.entries@[i].0@, self.entries@[i].1.gview()))
    }

    /// The keys of a modelled document, in order.
    pub open spec fn keys_of(entries: Seq<(Seq<char>, GValue)>) -> Seq<Seq<char>> {
        entries.map_values(|e: (Seq<char>, GValue)| e.0)
    }

    /// An empty document.
    pub fn new() -> (d: Document)
        ensures
            d.gview() =~= Seq::<(Seq<char>, GValue)>::empty(),
    {
        Document { entries: Vec::new() }
    }

    /// Appends one entry; keys are never deduplicated, so insertion
    /// order is exactly entry order.
    pub fn insert(&mut self, key: &str, value: Value)
        ensures
            final(self).gview() =~= old(self).gview() + seq![(key@, value.gview())],
    {
        self.entries.push((String::from_str(key), value));
    }

    /// The number of entries.
    pub fn len(&self) -> (n: usize)
        ensures
            n == self.gview().len(),
    {
        self.entries.len()
    }
}

} // verus!
