//! The schema directory: which type pattern a column of a given name has.

use crate::text::str_eq;
use crate::value::TypeTag;
use vstd::prelude::*;

verus! {

/// A column's name and the type pattern declared for it.
pub struct Field {
    pub name: String,
    pub pattern: TypeTag,
}

impl View for Field {
    type V = (Seq<char>, TypeTag);

    open spec fn view(&self) -> (Seq<char>, TypeTag) {
        (self.name@, self.pattern)
    }
}

/// The pattern of the first field named `name`, if there is one.
pub open spec fn lookup(fields: Seq<(Seq<char>, TypeTag)>, name: Seq<char>) -> Option<TypeTag>
    decreases fields.len(),
{
    if fields.len() == 0 {
        None
    } else if fields[0].0 == name {
        Some(fields[0].1)
    } else {
        lookup(fields.drop_first(), name)
    }
}

/// The fields of a schema, in the order of their definition.
pub struct Schema {
    fields: Vec<Field>,
}

impl View for Schema {
    type V = Seq<(Seq<char>, TypeTag)>;

    closed spec fn view(&self) -> Seq<(Seq<char>, TypeTag)> {
        Seq::new(self.fields@.len(), |i: int| self.fields@[i]@)
    }
}

impl Schema {
    /// A schema without fields.
    pub fn new() -> (s: Schema)
        ensures
            s@ == Seq::<(Seq<char>, TypeTag)>::empty(),
    {
        let s = Schema { fields: Vec::new() };
        assert(s@ =~= Seq::<(Seq<char>, TypeTag)>::empty());
        s
    }

    /// Declares the pattern of a column. A name that is already defined
    /// keeps its first pattern.
    pub fn define(&mut self, name: String, pattern: TypeTag)
        ensures
            final(self)@ == old(self)@.push((name@, pattern)),
    {
        self.fields.push(Field { name, pattern });
        assert(self@ =~= old(self)@.push((name@, pattern)));
    }

    /// The pattern declared for the column `name`.
    pub fn get_field_by_name(&self, name: &str) -> (r: Option<TypeTag>)
        ensures
            r == lookup(self@, name@),
    {
        let n: usize = self.fields.len();
        let mut i: usize = 0;
        assert(self@.skip(0) =~= self@);
        while i < n
            invariant
                i <= n,
                n == self.fields@.len(),
                n == self@.len(),
                lookup(self@, name@) == lookup(self@.skip(i as int), name@),
            decreases n - i,
        {
            let field: &Field = &self.fields[i];
            assert(self@.skip(i as int)[0] == field@);
            assert(self@.skip(i as int).drop_first() =~= self@.skip(i + 1));
            if str_eq(field.name.as_str(), name) {
                return Some(field.pattern);
            }
            i = i + 1;
        }
        None
    }
}

/// A name that no field bears has no pattern.
pub proof fn lemma_lookup_absent(fields: Seq<(Seq<char>, TypeTag)>, name: Seq<char>)
    requires
        forall|i: int| 0 <= i < fields.len() ==> fields[i].0 != name,
    ensures
        lookup(fields, name) is None,
    decreases fields.len(),
{
    if fields.len() > 0 {
        lemma_lookup_absent(fields.drop_first(), name);
    }
}

} // verus!
