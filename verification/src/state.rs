//! The state the service keeps: one name.
//!
//! Here the state is a plain value, and the rule of one writer or many
//! readers is the rule of its references: reading asks for `&SharedState`,
//! writing for `&mut SharedState`. Callers that share one state across
//! threads reach it through a [`Store`](crate::store::Store), whose lock
//! hands out exactly these two kinds of reference.

use crate::text::{initial_name, unknown};
use vstd::prelude::*;

verus! {

/// The one value the service keeps: a name.
pub struct SharedState {
    name: String,
}

impl View for SharedState {
    type V = Seq<char>;

    /// The name held.
    closed spec fn view(&self) -> Seq<char> {
        self.name@
    }
}

impl SharedState {
    /// A state that holds the initial name, `Unknown`.
    pub fn new() -> (state: Self)
        ensures
            state@ == initial_name(),
    {
        SharedState { name: unknown() }
    }

    /// A copy of the name held.
    pub fn read(&self) -> (name: String)
        ensures
            name@ == self@,
    {
        self.name.clone()
    }

    /// Puts `new_value` in place of the name held. Every text is a name, the
    /// empty one too.
    pub fn write(&mut self, new_value: String)
        ensures
            final(self)@ == new_value@,
    {
        self.name = new_value;
    }
}

} // verus!
