//! The dynamically typed configuration values that an outer loader hands over,
//! and the ordered key/value table they come in.

use vstd::prelude::*;
use crate::text::str_eq;

verus! {

/// A dynamically typed configuration value. Only strings, booleans and nested
/// tables are ever read by the validator; every other kind of value (numbers,
/// arrays, dates, ...) is only ever rejected, so the kinds the validator never
/// looks into are folded into `Integer` and `Other`.
#[derive(Debug)]
pub enum Value {
    String(String),
    Integer(i64),
    Boolean(bool),
    Table(Table),
    Other,
}

/// A configuration table: key/value pairs in the order the loader produced
/// them. Lookups find the first entry with a given key.
#[derive(Debug)]
pub struct Table {
    entries: Vec<(String, Value)>,
}

impl View for Table {
    type V = Seq<(String, Value)>;

    closed spec fn view(&self) -> Seq<(String, Value)> {
        self.entries@
    }
}

/// Index of the first entry of `s` whose key reads `k`, or `s.len()` if no
/// entry has that key.
pub open spec fn index_of_key<T>(s: Seq<(String, T)>, k: Seq<char>) -> int
    decreases s.len(),
{
    if s.len() == 0 {
        0
    } else if s[0].0@ == k {
        0
    } else {
        1 + index_of_key(s.drop_first(), k)
    }
}

/// Whether some entry of `s` has key `k`.
pub open spec fn has_key<T>(s: Seq<(String, T)>, k: Seq<char>) -> bool {
    index_of_key(s, k) < s.len()
}

/// The value of the first entry of `s` with key `k`.
pub open spec fn key_value<T>(s: Seq<(String, T)>, k: Seq<char>) -> T {
    s[index_of_key(s, k)].1
}

pub proof fn lemma_index_of_key<T>(s: Seq<(String, T)>, k: Seq<char>)
    ensures
        0 <= index_of_key(s, k) <= s.len(),
        index_of_key(s, k) < s.len() ==> s[index_of_key(s, k)].0@ == k,
        forall|j: int| 0 <= j < index_of_key(s, k) ==> (#[trigger] s[j]).0@ != k,
        (exists|j: int| 0 <= j < s.len() && (#[trigger] s[j]).0@ == k) ==> index_of_key(s, k)
            < s.len(),
    decreases s.len(),
{
    if s.len() == 0 {
    } else if s[0].0@ == k {
    } else {
        lemma_index_of_key(s.drop_first(), k);
        assert forall|j: int| 0 <= j < index_of_key(s, k) implies (#[trigger] s[j]).0@ != k by {
            if j > 0 {
                assert(s.drop_first()[j - 1] == s[j]);
            }
        }
        assert forall|j: int| 0 <= j < s.len() && (#[trigger] s[j]).0@ == k implies index_of_key(
            s,
            k,
        ) < s.len() by {
            assert(s.drop_first()[j - 1] == s[j]);
        }
    }
}

impl Table {
    /// The empty table.
    pub fn new() -> (t: Table)
        ensures
            t@ == Seq::<(String, Value)>::empty(),
    {
        Table { entries: Vec::new() }
    }

    /// Appends one key/value pair. The loader that builds a table never
    /// produces two entries with the same key.
    pub fn push(&mut self, k: String, v: Value)
        ensures
            final(self)@ == old(self)@.push((k, v)),
    {
        self.entries.push((k, v));
    }

    /// How many entries the table holds.
    pub fn len(&self) -> (n: usize)
        ensures
            n == self@.len(),
    {
        self.entries.len()
    }

    /// The entry at position `i`, in table order.
    pub fn entry_at(&self, i: usize) -> (e: &(String, Value))
        requires
            i < self@.len(),
        ensures
            *e == self@[i as int],
    {
        &self.entries[i]
    }

    /// The value of the first entry with key `k`, if any entry has that key.
    pub fn get<'a>(&'a self, k: &str) -> (r: Option<&'a Value>)
        ensures
            match r {
                Some(v) => has_key(self@, k@) && *v == key_value(self@, k@),
                None => !has_key(self@, k@),
            },
    {
        let n = self.entries.len();
        let mut i: usize = 0;
        while i < n
            invariant
                n == self@.len(),
                i <= n,
                forall|j: int| 0 <= j < i ==> (#[trigger] self@[j]).0@ != k@,
            decreases n - i,
        {
            if str_eq(self.entries[i].0.as_str(), k) {
                proof {
                    lemma_index_of_key(self@, k@);
                }
                return Some(&self.entries[i].1);
            }
            i += 1;
        }
        proof {
            lemma_index_of_key(self@, k@);
        }
        None
    }
}

} // verus!
