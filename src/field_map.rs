use vstd::prelude::*;

verus! {

/// The caller's mapping from snake-case field names to column references of
/// type `C`; a later entry for a name replaces an earlier one.
pub struct FieldColumnMap<C> {
    entries: Vec<(String, C)>,
}

/// The column of the last entry for `name`, if any.
pub open spec fn resolve_in<C>(entries: Seq<(String, C)>, name: Seq<char>) -> Option<C>
    decreases entries.len(),
{
    if entries.len() == 0 {
        None
    } else if entries.last().0@ == name {
        Some(entries.last().1)
    } else {
        resolve_in(entries.drop_last(), name)
    }
}

impl<C> FieldColumnMap<C> {
    /// The column that a field name resolves to, if any.
    pub closed spec fn resolve(&self, name: Seq<char>) -> Option<C> {
        resolve_in(self.entries@, name)
    }
}

impl<C: Copy> FieldColumnMap<C> {
    /// A mapping that resolves no name.
    pub fn new() -> (r: Self)
        ensures
            forall|name: Seq<char>| #[trigger] r.resolve(name) is None,
    {
        FieldColumnMap { entries: Vec::new() }
    }

    /// Maps `field` to `column`, replacing what it was mapped to before.
    pub fn insert(&mut self, field: String, column: C)
        ensures
            forall|name: Seq<char>|
                #[trigger] final(self).resolve(name) == if name == field@ {
                    Some(column)
                } else {
                    old(self).resolve(name)
                },
    {
        let ghost before = self.entries@;
        let ghost key = field@;
        self.entries.push((field, column));
        assert forall|name: Seq<char>|
            #[trigger] self.resolve(name) == if name == key {
                Some(column)
            } else {
                resolve_in(before, name)
            } by {
            assert(self.entries@.drop_last() =~= before);
        }
    }

    /// The column that `field` resolves to, if any.
    pub fn get(&self, field: &String) -> (r: Option<C>)
        ensures
            r == self.resolve(field@),
    {
        let mut i: usize = self.entries.len();
        assert(self.entries@.take(i as int) =~= self.entries@);
        while i > 0
            invariant
                i <= self.entries.len(),
                resolve_in(self.entries@, field@) == resolve_in(self.entries@.take(i as int), field@),
            decreases i,
        {
            let ghost prefix = self.entries@.take(i as int);
            assert(prefix.drop_last() =~= self.entries@.take(i - 1));
            if self.entries[i - 1].0 == *field {
                return Some(self.entries[i - 1].1);
            }
            i = i - 1;
        }
        None
    }
}

} // verus!
