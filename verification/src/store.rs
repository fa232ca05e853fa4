//! What travels between a call and the document store.
//!
//! The engine does not talk to the store. It hands the caller a request,
//! the text of a query beside the values bound to its parameters, and takes
//! back what the store answered.

use crate::json::JsonMap;
use vstd::prelude::*;

verus! {

/// The values bound to the parameters of a query, by bind key, in the
/// order in which they were bound.
#[derive(Debug, PartialEq)]
pub struct BindTable {
    pub entries: Vec<(String, String)>,
}

impl View for BindTable {
    type V = Seq<(Seq<char>, Seq<char>)>;

    open spec fn view(&self) -> Seq<(Seq<char>, Seq<char>)> {
        Seq::new(self.entries@.len(), |i: int| (self.entries@[i].0@, self.entries@[i].1@))
    }
}

/// The value bound first under `key`, if there is one.
pub open spec fn bound_value(binds: Seq<(Seq<char>, Seq<char>)>, key: Seq<char>) -> Option<
    Seq<char>,
>
    decreases binds.len(),
{
    if binds.len() == 0 {
        None
    } else if binds[0].0 == key {
        Some(binds[0].1)
    } else {
        bound_value(binds.subrange(1, binds.len() as int), key)
    }
}

impl BindTable {
    /// A table that binds nothing.
    pub fn new() -> (table: BindTable)
        ensures
            table@ == Seq::<(Seq<char>, Seq<char>)>::empty(),
    {
        let table = BindTable { entries: Vec::new() };
        assert(table@ =~= Seq::<(Seq<char>, Seq<char>)>::empty());
        table
    }

    /// Binds `value` under `key`, behind what is bound already.
    pub fn bind_var(&mut self, key: String, value: String)
        ensures
            final(self)@ == old(self)@.push((key@, value@)),
    {
        self.entries.push((key, value));
        assert(self@ =~= old(self)@.push((key@, value@)));
    }

    /// Looks up the value bound under `key`.
    pub fn get(&self, key: &str) -> (found: Option<&String>)
        ensures
            match found {
                Some(v) => bound_value(self@, key@) == Some(v@),
                None => bound_value(self@, key@).is_none(),
            },
    {
        let wanted = String::from_str(key);
        let mut i: usize = 0;
        assert(self@.subrange(0, self@.len() as int) =~= self@);
        while i < self.entries.len()
            invariant
                i <= self.entries.len(),
                wanted@ == key@,
                bound_value(self@, key@) == bound_value(
                    self@.subrange(i as int, self@.len() as int),
                    key@,
                ),
            decreases self.entries.len() - i,
        {
            let ghost rest = self@.subrange(i as int, self@.len() as int);
            assert(rest[0] == self@[i as int]);
            assert(rest.subrange(1, rest.len() as int) =~= self@.subrange(
                i as int + 1,
                self@.len() as int,
            ));
            if self.entries[i].0 == wanted {
                return Some(&self.entries[i].1);
            }
            i += 1;
        }
        None
    }
}

/// A query for the store to execute: its text and the values of its bind
/// parameters.
#[derive(Debug, PartialEq)]
pub struct StoreRequest {
    pub query: String,
    pub bind_vars: BindTable,
}

/// Why the store could not execute a query.
#[derive(Debug, PartialEq)]
pub struct StoreError {
    pub message: String,
}

/// The store's answer: the documents it found, in its order, or why it
/// found none.
pub type StoreResponse = Result<Vec<JsonMap>, StoreError>;

} // verus!
