//! Per-function symbol table: a flat mapping from identifier to its
//! compile-time binding. There are no nested scopes; a later binding of the
//! same name replaces the earlier one.
use vstd::prelude::*;

verus! {

/// What a name is bound to. Constants are the only binding the language
/// supports today; the mutable `Int` tag is reserved for future use.
#[derive(Clone, Copy, Debug, PartialEq, Eq, Structural)]
pub enum DataType {
    ConstInt(i32),
    Int,
}

/// The mapping a sequence of bindings denotes: bindings are applied in
/// order, so a later entry for the same name wins.
pub open spec fn bindings_map(s: Seq<(String, DataType)>) -> Map<Seq<char>, DataType>
    decreases s.len(),
{
    if s.len() == 0 {
        Map::empty()
    } else {
        bindings_map(s.drop_last()).insert(s.last().0@, s.last().1)
    }
}

/// The binding a sequence of entries yields for `name`: the last entry with
/// that name, if any.
pub open spec fn lookup_seq(s: Seq<(String, DataType)>, name: Seq<char>) -> Option<DataType>
    decreases s.len(),
{
    if s.len() == 0 {
        None
    } else if s.last().0@ == name {
        Some(s.last().1)
    } else {
        lookup_seq(s.drop_last(), name)
    }
}

/// Scanning for the last matching entry agrees with the denoted map.
proof fn lemma_lookup_seq_agrees(s: Seq<(String, DataType)>, name: Seq<char>)
    ensures
        match lookup_seq(s, name) {
            Some(d) => bindings_map(s).contains_key(name) && bindings_map(s)[name] == d,
            None => !bindings_map(s).contains_key(name),
        },
    decreases s.len(),
{
    if s.len() > 0 {
        lemma_lookup_seq_agrees(s.drop_last(), name);
    }
}

/// Symbol table of one function body: created empty once per compilation of
/// the function and discarded afterwards.
pub struct SymbolTable {
    entries: Vec<(String, DataType)>,
}

impl View for SymbolTable {
    type V = Map<Seq<char>, DataType>;

    closed spec fn view(&self) -> Map<Seq<char>, DataType> {
        bindings_map(self.entries@)
    }
}

impl SymbolTable {
    /// A table with no bindings.
    pub fn new() -> (r: Self)
        ensures
            r@ == Map::<Seq<char>, DataType>::empty(),
    {
        SymbolTable { entries: Vec::new() }
    }

    /// Binds `name` to `val`, replacing any earlier binding of `name`.
    pub fn insert(&mut self, name: String, val: DataType)
        ensures
            final(self)@ == old(self)@.insert(name@, val),
    {
        let ghost pre = self.entries@;
        let ghost key = name@;
        self.entries.push((name, val));
        proof {
            assert(self.entries@.drop_last() =~= pre);
            assert(self.entries@.last().0@ == key);
        }
    }

    /// The current binding of `name`: `Some` exactly when the table holds
    /// one, and then the one bound last.
    pub fn lookup(&self, name: &String) -> (r: Option<DataType>)
        ensures
            match r {
                Some(d) => self@.contains_key(name@) && self@[name@] == d,
                None => !self@.contains_key(name@),
            },
    {
        let mut i: usize = self.entries.len();
        proof {
            assert(self.entries@.take(i as int) =~= self.entries@);
        }
        while i > 0
            invariant
                i <= self.entries.len(),
                lookup_seq(self.entries@, name@) == lookup_seq(
                    self.entries@.take(i as int),
                    name@,
                ),
            decreases i,
        {
            let e = &self.entries[i - 1];
            proof {
                assert(self.entries@.take(i as int).last() == self.entries@[i - 1]);
                assert(self.entries@.take(i as int).drop_last() =~= self.entries@.take(
                    i as int - 1,
                ));
            }
            if e.0 == *name {
                proof {
                    lemma_lookup_seq_agrees(self.entries@, name@);
                }
                return Some(e.1);
            }
            i = i - 1;
        }
        proof {
            lemma_lookup_seq_agrees(self.entries@, name@);
        }
        None
    }
}

} // verus!
