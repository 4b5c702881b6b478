//! Typed argument values, and the name-to-value map a parsed command hands
//! to validation.

use crate::text::{owned, str_eq};
use vstd::prelude::*;

verus! {

/// Typed argument value payload.
#[derive(Debug)]
pub enum ArgValue {
    Bool(bool),
    Str(String),
    Int(i64),
    /// A floating-point value, carried as its IEEE-754 bits (`f64::to_bits`).
    Float(u64),
    /// Validated token from `ArgValueType::Enum`.
    Enum(String),
    /// For `Cardinality::Repeated` args.
    List(Vec<ArgValue>),
    /// Occurrence count for `Cardinality::Repeated` flags.
    Count(u32),
}

/// The value given for `name`: the first entry under that name.
pub open spec fn value_of(entries: Seq<(Seq<char>, ArgValue)>, name: Seq<char>) -> Option<ArgValue>
    decreases entries.len(),
{
    if entries.len() == 0 {
        None
    } else if entries[0].0 == name {
        Some(entries[0].1)
    } else {
        value_of(entries.subrange(1, entries.len() as int), name)
    }
}

/// Whether a value was given for `name`.
pub open spec fn has_value(entries: Seq<(Seq<char>, ArgValue)>, name: Seq<char>) -> bool {
    value_of(entries, name) is Some
}

/// Argument values by name. Inserting under a name already present
/// replaces its value.
#[derive(Debug, Default)]
pub struct ArgValues {
    entries: Vec<(String, ArgValue)>,
}

impl View for ArgValues {
    type V = Seq<(Seq<char>, ArgValue)>;

    closed spec fn view(&self) -> Seq<(Seq<char>, ArgValue)> {
        self.entries@.map_values(|p: (String, ArgValue)| (p.0@, p.1))
    }
}

/// The entries after `insert(name, v)`: the value under `name` replaced in
/// place, or the pair appended.
pub open spec fn values_insert(entries: Seq<(Seq<char>, ArgValue)>, name: Seq<char>, v: ArgValue) -> Seq<
    (Seq<char>, ArgValue),
> {
    let i = index_of_name(entries, name);
    if i < entries.len() {
        entries.update(i, (name, v))
    } else {
        entries.push((name, v))
    }
}

/// The position of the first entry under `name`, the length when there is none.
pub open spec fn index_of_name(entries: Seq<(Seq<char>, ArgValue)>, name: Seq<char>) -> int
    decreases entries.len(),
{
    if entries.len() == 0 {
        0
    } else if entries[0].0 == name {
        0
    } else {
        1 + index_of_name(entries.subrange(1, entries.len() as int), name)
    }
}

proof fn lemma_index_of_name(entries: Seq<(Seq<char>, ArgValue)>, name: Seq<char>)
    ensures
        0 <= index_of_name(entries, name) <= entries.len(),
        index_of_name(entries, name) < entries.len() ==> entries[index_of_name(entries, name)].0 == name
            && value_of(entries, name) == Some(entries[index_of_name(entries, name)].1),
        index_of_name(entries, name) == entries.len() ==> value_of(entries, name) is None,
        forall|j: int| 0 <= j < index_of_name(entries, name) ==> entries[j].0 != name,
    decreases entries.len(),
{
    if entries.len() > 0 && entries[0].0 != name {
        let t = entries.subrange(1, entries.len() as int);
        lemma_index_of_name(t, name);
        assert forall|j: int| 0 <= j < index_of_name(entries, name) implies entries[j].0 != name by {
            if j > 0 {
                assert(entries[j] == t[j - 1]);
            }
        }
    }
}

proof fn lemma_value_at_first(entries: Seq<(Seq<char>, ArgValue)>, name: Seq<char>, k: int)
    requires
        0 <= k <= entries.len(),
        forall|j: int| 0 <= j < k ==> entries[j].0 != name,
        k < entries.len() ==> entries[k].0 == name,
    ensures
        index_of_name(entries, name) == k,
{
    lemma_index_of_name(entries, name);
    let f = index_of_name(entries, name);
    if f < k {
        assert(entries[f].0 == name);
    } else if f > k {
        assert(entries[k].0 != name);
    }
}

impl ArgValues {
    /// No values.
    pub fn new() -> (m: Self)
        ensures
            m@ == Seq::<(Seq<char>, ArgValue)>::empty(),
    {
        let m = ArgValues { entries: Vec::new() };
        assert(m@ =~= Seq::<(Seq<char>, ArgValue)>::empty());
        m
    }

    fn position(&self, name: &str) -> (i: usize)
        ensures
            i as int == index_of_name(self@, name@),
    {
        let mut i: usize = 0;
        while i < self.entries.len()
            invariant
                i <= self.entries@.len(),
                forall|j: int| 0 <= j < i ==> self@[j].0 != name@,
            decreases self.entries.len() - i,
        {
            assert(self@[i as int].0 == self.entries@[i as int].0@);
            if str_eq(self.entries[i].0.as_str(), name) {
                proof {
                    lemma_value_at_first(self@, name@, i as int);
                }
                return i;
            }
            i = i + 1;
        }
        proof {
            lemma_value_at_first(self@, name@, i as int);
        }
        i
    }

    /// Set `name` to `v`, replacing an earlier value.
    pub fn insert(&mut self, name: String, v: ArgValue)
        ensures
            final(self)@ == values_insert(old(self)@, name@, v),
    {
        let i = self.position(name.as_str());
        let ghost before = self@;
        if i < self.entries.len() {
            self.entries.set(i, (name, v));
        } else {
            self.entries.push((name, v));
        }
        assert(self@ =~= values_insert(before, name@, v));
    }

    /// The value given for `name`.
    pub fn get(&self, name: &str) -> (r: Option<&ArgValue>)
        ensures
            match r {
                Some(v) => value_of(self@, name@) == Some(*v),
                None => value_of(self@, name@) is None,
            },
    {
        proof {
            lemma_index_of_name(self@, name@);
        }
        let i = self.position(name);
        if i < self.entries.len() {
            Some(&self.entries[i].1)
        } else {
            None
        }
    }

    /// Whether a value was given for `name`.
    pub fn contains_key(&self, name: &str) -> (r: bool)
        ensures
            r == has_value(self@, name@),
    {
        self.get(name).is_some()
    }

    /// How many names have a value.
    pub fn len(&self) -> (n: usize)
        ensures
            n == self@.len(),
    {
        self.entries.len()
    }
}

/// Reading back a name just inserted gives the value inserted.
pub proof fn law_get_after_insert(entries: Seq<(Seq<char>, ArgValue)>, name: Seq<char>, v: ArgValue)
    ensures
        value_of(values_insert(entries, name, v), name) == Some(v),
{
    lemma_index_of_name(entries, name);
    let i = index_of_name(entries, name);
    let after = values_insert(entries, name, v);
    lemma_value_at_first(after, name, i);
    lemma_index_of_name(after, name);
}

} // verus!
