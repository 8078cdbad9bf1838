//! The result sink: an append-only sequence of named typed values.

use crate::value::TypedValue;
use crate::value::WireValue;
use vstd::prelude::*;

verus! {

/// One pair of a sink: a column's name and the value coerced for it.
#[derive(Clone, Debug, PartialEq, Eq)]
pub struct Entry {
    pub name: String,
    pub value: TypedValue,
}

impl View for Entry {
    type V = (Seq<char>, WireValue);

    open spec fn view(&self) -> (Seq<char>, WireValue) {
        (self.name@, self.value@)
    }
}

/// The sequence that receives coerced values, in the order in which they
/// were appended.
pub struct Sink {
    entries: Vec<Entry>,
}

impl View for Sink {
    type V = Seq<(Seq<char>, WireValue)>;

    closed spec fn view(&self) -> Seq<(Seq<char>, WireValue)> {
        Seq::new(self.entries@.len(), |i: int| self.entries@[i]@)
    }
}

impl Sink {
    /// A sink that holds nothing.
    pub fn new() -> (s: Sink)
        ensures
            s@ == Seq::<(Seq<char>, WireValue)>::empty(),
    {
        let s = Sink { entries: Vec::new() };
        assert(s@ =~= Seq::<(Seq<char>, WireValue)>::empty());
        s
    }

    /// Appends one pair behind all that the sink holds.
    pub fn put(&mut self, name: String, value: TypedValue)
        ensures
            final(self)@ == old(self)@.push((name@, value@)),
    {
        self.entries.push(Entry { name, value });
        assert(self@ =~= old(self)@.push((name@, value@)));
    }

    /// How many pairs the sink holds.
    pub fn len(&self) -> (n: usize)
        ensures
            n == self@.len(),
    {
        self.entries.len()
    }

    /// The pair at position `i`, counted from the first that was appended;
    /// `None` where the sink holds no more than `i` pairs.
    pub fn get(&self, i: usize) -> (e: Option<&Entry>)
        ensures
            e is Some <==> i < self@.len(),
            e is Some ==> e->0@ == self@[i as int],
    {
        if i < self.entries.len() {
            Some(&self.entries[i])
        } else {
            None
        }
    }
}

} // verus!
