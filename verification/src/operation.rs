//! The operations of the service, and what each means for the name held: the
//! text it answers with and the name it leaves behind.
//!
//! The whole service is one small state machine. Its state is the name held,
//! `Unknown` at first. `SetName` moves it to the name given; the two queries
//! leave it where it is.

use crate::text::{acknowledgement, greeting};
use vstd::prelude::*;

verus! {

/// One request to the service, with its arguments already bound.
#[derive(Debug, PartialEq, Eq)]
pub enum Operation {
    /// Query: greet the given text. Does not look at the name held.
    HelloWorld(String),
    /// Query: greet the name held.
    Hello,
    /// Mutation: put the given name in place of the name held.
    SetName(String),
}

/// An operation as a mathematical value: its arguments are sequences of
/// characters.
pub enum OperationView {
    /// Greet the given text.
    HelloWorld(Seq<char>),
    /// Greet the name held.
    Hello,
    /// Put the given name in place of the name held.
    SetName(Seq<char>),
}

impl View for Operation {
    type V = OperationView;

    open spec fn view(&self) -> OperationView {
        match self {
            Operation::HelloWorld(world) => OperationView::HelloWorld(world@),
            Operation::Hello => OperationView::Hello,
            Operation::SetName(name) => OperationView::SetName(name@),
        }
    }
}

impl OperationView {
    /// Whether the operation only reads: every operation but `SetName`.
    pub open spec fn is_query(self) -> bool {
        !(self is SetName)
    }
}

/// The text that `op` answers with when it meets the name `held`.
pub open spec fn reply(held: Seq<char>, op: OperationView) -> Seq<char> {
    match op {
        OperationView::HelloWorld(world) => greeting(world),
        OperationView::Hello => greeting(held),
        OperationView::SetName(_) => acknowledgement(),
    }
}

/// The name held once `op` has met the name `held`.
pub open spec fn next_name(held: Seq<char>, op: OperationView) -> Seq<char> {
    match op {
        OperationView::SetName(name) => name,
        _ => held,
    }
}

/// The name held once the operations `ops` have met the name `held`, one
/// after the other.
pub open spec fn name_after(held: Seq<char>, ops: Seq<OperationView>) -> Seq<char>
    decreases ops.len(),
{
    if ops.len() == 0 {
        held
    } else {
        next_name(name_after(held, ops.drop_last()), ops.last())
    }
}

/// Setting a name is confirmed by the same text whatever the name set and
/// whatever the name held before.
pub proof fn lemma_set_name_acknowledges(held: Seq<char>, name: Seq<char>)
    ensures
        reply(held, OperationView::SetName(name)) == acknowledgement(),
{
}

/// Once a name has been set, greeting the name held greets that name.
pub proof fn lemma_hello_after_set_name(held: Seq<char>, name: Seq<char>)
    ensures
        reply(next_name(held, OperationView::SetName(name)), OperationView::Hello) == greeting(
            name,
        ),
{
}

/// Queries have no effect: however many follow one another, the name held
/// stays as it was.
pub proof fn lemma_queries_keep_name(held: Seq<char>, queries: Seq<OperationView>)
    requires
        forall|i: int| 0 <= i < queries.len() ==> (#[trigger] queries[i]).is_query(),
    ensures
        name_after(held, queries) == held,
    decreases queries.len(),
{
    if queries.len() > 0 {
        lemma_queries_keep_name(held, queries.drop_last());
    }
}

/// Greeting the name held gives the same answer again as long as no name is
/// set in between.
pub proof fn lemma_hello_repeats(held: Seq<char>, between: Seq<OperationView>)
    requires
        forall|i: int| 0 <= i < between.len() ==> (#[trigger] between[i]).is_query(),
    ensures
        reply(name_after(held, between), OperationView::Hello) == reply(
            held,
            OperationView::Hello,
        ),
{
    lemma_queries_keep_name(held, between);
}

} // verus!
