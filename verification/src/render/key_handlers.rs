//! The table that says which handler a key calls.

use std::collections::HashMap;
use vstd::prelude::*;

verus! {

broadcast use vstd::std_specs::hash::group_hash_axioms;

/// A table from key codes to handlers. A handler is named by a value of `A`,
/// which the screen that owns the table knows how to carry out; so one table
/// never holds the handlers of two kinds of screen.
pub struct KeyHandlers<A> {
    table: HashMap<i32, A>,
}

impl<A> View for KeyHandlers<A> {
    type V = Map<i32, A>;

    closed spec fn view(&self) -> Map<i32, A> {
        self.table@
    }
}

impl<A: Copy> KeyHandlers<A> {
    /// The table that binds no key.
    pub fn new() -> (handlers: Self)
        ensures
            handlers@ == Map::<i32, A>::empty(),
    {
        KeyHandlers { table: HashMap::new() }
    }

    /// Binds `key` to `handler`. Of two registrations for one key the later
    /// wins; several keys may call one handler.
    pub fn insert(&mut self, key: i32, handler: A)
        ensures
            final(self)@ == old(self)@.insert(key, handler),
    {
        self.table.insert(key, handler);
    }

    /// The handler that `key` calls, if it calls one.
    pub fn get(&self, key: i32) -> (handler: Option<A>)
        ensures
            handler == (if self@.contains_key(key) {
                Some(self@[key])
            } else {
                None
            }),
    {
        match self.table.get(&key) {
            Some(handler) => Some(*handler),
            None => None,
        }
    }

    /// The number of keys that are bound.
    pub fn len(&self) -> (len: usize)
        ensures
            len == self@.len(),
    {
        self.table.len()
    }
}

} // verus!
