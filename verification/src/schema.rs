//! The two roots of the schema: what each operation does with the state once
//! it has been handed a reference to it.

use crate::operation::{next_name, reply, OperationView};
use crate::state::SharedState;
use crate::text::{acknowledge, greet, greeting};
use vstd::prelude::*;

verus! {

/// The read-only operations.
pub struct Query;

/// The operations that change the name held.
pub struct Mutation;

impl Query {
    /// Greets `world`. Every text is accepted; the empty one gives `Hello !`.
    pub fn hello_world(world: String) -> (text: String)
        ensures
            text@ == greeting(world@),
    {
        greet(world.as_str())
    }

    /// Greets the name that `context` holds, and leaves it as it is.
    pub fn hello(context: &SharedState) -> (text: String)
        ensures
            text@ == reply(context@, OperationView::Hello),
    {
        let name = context.read();
        greet(name.as_str())
    }
}

impl Mutation {
    /// Puts `name` in place of the name that `context` holds and confirms
    /// it. The confirmation is the same for every name.
    pub fn set_name(name: String, context: &mut SharedState) -> (text: String)
        ensures
            text@ == reply(old(context)@, OperationView::SetName(name@)),
            final(context)@ == next_name(old(context)@, OperationView::SetName(name@)),
    {
        context.write(name);
        acknowledge()
    }
}

} // verus!
