//! One result row: column names paired with rendered text, in column order,
//! looked up by name.

use vstd::prelude::*;
use vstd::string::StringExecFns;

verus! {

/// The view of one column pair: the name's characters and the rendered
/// value's characters.
pub open spec fn pair_view(p: (String, String)) -> (Seq<char>, Seq<char>) {
    (p.0@, p.1@)
}

/// One materialized row: column-name / rendered-value pairs in column
/// order. Lookup is by name; the first pair carrying the name answers.
pub struct Row {
    pairs: Vec<(String, String)>,
}

impl View for Row {
    type V = Seq<(Seq<char>, Seq<char>)>;

    closed spec fn view(&self) -> Seq<(Seq<char>, Seq<char>)> {
        self.pairs@.map_values(|p: (String, String)| pair_view(p))
    }
}

/// The value under `name` in a row view: the first pair that carries the
/// name, if any pair does.
pub open spec fn lookup(row: Seq<(Seq<char>, Seq<char>)>, name: Seq<char>) -> Option<Seq<char>>
    decreases row.len(),
{
    if row.len() == 0 {
        None
    } else if row[0].0 == name {
        Some(row[0].1)
    } else {
        lookup(row.skip(1), name)
    }
}

impl Row {
    /// Wraps ready pairs as a row.
    pub fn from_pairs(pairs: Vec<(String, String)>) -> (r: Row)
        ensures
            r@ == pairs@.map_values(|p: (String, String)| pair_view(p)),
    {
        Row { pairs }
    }

    /// The number of columns.
    pub fn len(&self) -> (n: usize)
        ensures
            n == self@.len(),
    {
        self.pairs.len()
    }

    /// The name of column `i`.
    pub fn name_at(&self, i: usize) -> (s: String)
        requires
            i < self@.len(),
        ensures
            s@ == self@[i as int].0,
    {
        self.pairs[i].0.clone()
    }

    /// The rendered value of column `i`.
    pub fn value_at(&self, i: usize) -> (s: String)
        requires
            i < self@.len(),
        ensures
            s@ == self@[i as int].1,
    {
        self.pairs[i].1.clone()
    }

    /// The rendered value under `name`, if the row has such a column.
    pub fn get(&self, name: &str) -> (r: Option<String>)
        ensures
            match r {
                Some(v) => lookup(self@, name@) == Some(v@),
                None => lookup(self@, name@) is None,
            },
    {
        let key = String::from_str(name);
        let mut i: usize = 0;
        proof {
            assert(self@.skip(0) =~= self@);
        }
        while i < self.pairs.len()
            invariant
                i <= self.pairs@.len(),
                key@ == name@,
                lookup(self@, name@) == lookup(self@.skip(i as int), name@),
            decreases self.pairs@.len() - i,
        {
            if self.pairs[i].0 == key {
                let v = self.pairs[i].1.clone();
                proof {
                    assert(self@.skip(i as int)[0] == pair_view(self.pairs@[i as int]));
                }
                return Some(v);
            }
            proof {
                assert(self@.skip(i as int)[0] == pair_view(self.pairs@[i as int]));
                assert(self@.skip(i as int).skip(1) =~= self@.skip(i as int + 1));
            }
            i = i + 1;
        }
        proof {
            assert(self@.skip(i as int) =~= Seq::<(Seq<char>, Seq<char>)>::empty());
        }
        None
    }
}

} // verus!
