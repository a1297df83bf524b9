//! A query-resolution service in miniature: two queries and one mutation
//! over a single name.
//!
//! * `HelloWorld(world)` greets the text it is given.
//! * `Hello` greets the name held, `Unknown` until one is set.
//! * `SetName(name)` puts a new name in place of the name held and confirms
//!   it with a fixed text.
//!
//! The library has two layers.
//!
//! The inner one is sequential. [`state::SharedState`] is a plain value that
//! holds the name, [`schema::Query`] and [`schema::Mutation`] carry out the
//! operations on a reference to it, and their contracts say exactly what
//! each answers and what name it leaves behind, in terms of the state
//! machine of [`operation`]. The laws of that machine are proved beside it.
//!
//! The outer one is concurrent. A [`store::Store`] keeps one state behind a
//! reader-writer lock, and [`store::resolve`] carries out an operation under
//! that lock: queries beside one another, the mutation alone. A poisoned
//! lock surfaces as [`store::Failure::InternalError`] and is never retried.
//!
//! # How long a store lives
//!
//! Operations see each other's writes only through one and the same store.
//! A store is therefore meant to be made once and to outlive every
//! operation that is to observe another: one per process for a service that
//! remembers the name across requests. Whoever makes a store for each
//! request gets `Unknown` from every `Hello`.
//!
//! # What is outside
//!
//! Transport is not part of this library. It is handed an [`Operation`]
//! whose arguments are already parsed and typed, and hands back a text or a
//! [`Failure`](store::Failure).

pub mod operation;
pub mod schema;
pub mod state;
pub mod store;
pub mod text;

pub use operation::Operation;
pub use schema::{Mutation, Query};
pub use state::SharedState;
pub use store::{resolve, Failure, Store};
