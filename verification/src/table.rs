//! Values filed under resource names, the latest entry under a name first.
use crate::name::ResourceName;
use vstd::prelude::*;

verus! {

/// One entry of a [`Table`].
#[derive(Debug)]
pub struct Row<V> {
    pub name: ResourceName,
    pub value: V,
}

/// Entries in the order they were filed. A later entry under a name stands in
/// place of an earlier one.
#[derive(Debug)]
pub struct Table<V> {
    pub rows: Vec<Row<V>>,
}

/// What each name stands for after some entries.
pub open spec fn filed_under<V>(rows: Seq<Row<V>>) -> Map<Seq<char>, V>
    decreases rows.len(),
{
    if rows.len() == 0 {
        Map::empty()
    } else {
        filed_under(rows.drop_last()).insert(rows.last().name@, rows.last().value)
    }
}

impl<V> View for Table<V> {
    type V = Map<Seq<char>, V>;

    open spec fn view(&self) -> Map<Seq<char>, V> {
        filed_under(self.rows@)
    }
}

impl<V> Table<V> {
    pub fn new() -> (table: Self)
        ensures
            table@ == Map::<Seq<char>, V>::empty(),
    {
        Table { rows: Vec::new() }
    }

    /// Files a value under a name.
    pub fn insert(&mut self, name: ResourceName, value: V)
        ensures
            final(self)@ == old(self)@.insert(name@, value),
    {
        let ghost before = self.rows@;
        self.rows.push(Row { name, value });
        assert(self.rows@.drop_last() =~= before);
    }

    /// What is filed under a name.
    pub fn get(&self, name: &ResourceName) -> (found: Option<&V>)
        ensures
            match found {
                Some(value) => self@.contains_key(name@) && *value == self@[name@],
                None => !self@.contains_key(name@),
            },
    {
        let mut left: usize = self.rows.len();
        assert(self.rows@.take(left as int) =~= self.rows@);
        while left > 0
            invariant
                left <= self.rows@.len(),
                self@.contains_key(name@) == filed_under(self.rows@.take(left as int)).contains_key(
                    name@,
                ),
                self@.contains_key(name@) ==> self@[name@] == filed_under(
                    self.rows@.take(left as int),
                )[name@],
            decreases left,
        {
            let at: usize = left - 1;
            proof {
                let front = self.rows@.take(left as int);
                assert(front.drop_last() =~= self.rows@.take(at as int));
                assert(front.last() == self.rows@[at as int]);
            }
            if self.rows[at].name.same(name) {
                return Some(&self.rows[at].value);
            }
            left = at;
        }
        None
    }
}

} // verus!
