//! The store: one shared state behind a reader-writer lock.
//!
//! Any number of readers may hold the lock together; a writer holds it
//! alone. Every operation takes the lock at most once, carries out its part
//! of [`schema`](crate::schema) on the state behind it, and gives the lock
//! back before it returns. Nothing that runs under the lock takes a lock,
//! so no operation can wait for itself.
//!
//! A store is reached through shared references, and the name behind its
//! lock may change between any two calls when another holder of a reference
//! writes. A contract cannot speak of a value that changes under a shared
//! reference, so none here speaks of the name a store holds: an answer is
//! tied to *some* name, the one found behind the lock. What follows from
//! that name is stated, and proved, in [`state`](crate::state) and
//! [`schema`](crate::schema), which work on the state once the lock has
//! handed it out.
//!
//! The lock is `std::sync::RwLock`. Its functions are taken on trust, and
//! nothing is assumed of what they return.

use crate::operation::{reply, Operation};
use crate::schema::{Mutation, Query};
use crate::state::SharedState;
use std::ops::{Deref, DerefMut};
use std::sync::{LockResult, PoisonError, RwLock, RwLockReadGuard, RwLockWriteGuard};
use vstd::prelude::*;
use vstd::std_specs::convert::FromSpecImpl;

verus! {

/// `std::sync::RwLock`, carried as an opaque value: nothing in it is visible
/// to a proof.
#[verifier::external_type_specification]
#[verifier::external_body]
#[verifier::reject_recursive_types(T)]
pub struct ExRwLock<T: ?Sized>(std::sync::RwLock<T>);

/// `std::sync::RwLockReadGuard`, carried as an opaque value. While one
/// lives, the lock is held for reading.
#[verifier::external_type_specification]
#[verifier::external_body]
#[verifier::reject_recursive_types(T)]
pub struct ExRwLockReadGuard<'a, T: ?Sized>(std::sync::RwLockReadGuard<'a, T>);

/// `std::sync::RwLockWriteGuard`, carried as an opaque value. While one
/// lives, the lock is held for writing.
#[verifier::external_type_specification]
#[verifier::external_body]
#[verifier::reject_recursive_types(T)]
pub struct ExRwLockWriteGuard<'a, T: ?Sized + 'a>(std::sync::RwLockWriteGuard<'a, T>);

/// `std::sync::PoisonError`, carried as an opaque value. One that comes from
/// a lock holds the guard, and with it the lock, until it is dropped.
#[verifier::external_type_specification]
#[verifier::external_body]
#[verifier::reject_recursive_types(T)]
pub struct ExPoisonError<T>(std::sync::PoisonError<T>);

/// `RwLock::new` puts a value behind a new lock, unlocked and not poisoned.
/// Nothing is claimed of the lock it returns.
pub assume_specification<T>[ RwLock::<T>::new ](t: T) -> RwLock<T>;

/// `RwLock::read` waits until no writer holds the lock and returns a guard
/// that shares the lock with other readers until it is dropped. If a writer
/// has panicked while it held the lock, the lock is poisoned and the guard
/// comes inside an error.
///
/// Nothing is claimed of the outcome: it depends on what other threads have
/// done. `read` may panic, or never return, when the calling thread already
/// holds the lock; this library never calls it while it holds a guard.
pub assume_specification<'a, T: ?Sized>[ RwLock::<T>::read ](lock: &'a RwLock<T>) -> LockResult<
    RwLockReadGuard<'a, T>,
>;

/// `RwLock::write` waits until no reader and no other writer holds the lock
/// and returns a guard that holds the lock alone until it is dropped. If a
/// writer has panicked while it held the lock, the lock is poisoned and the
/// guard comes inside an error.
///
/// Nothing is claimed of the outcome: it depends on what other threads have
/// done. `write` may panic, or never return, when the calling thread already
/// holds the lock; this library never calls it while it holds a guard.
pub assume_specification<'a, T: ?Sized>[ RwLock::<T>::write ](lock: &'a RwLock<T>) -> LockResult<
    RwLockWriteGuard<'a, T>,
>;

/// `Deref::deref` of a read guard lends the value behind the lock for as
/// long as the guard is borrowed. Nothing is claimed of the value: it is
/// whatever the last writer left.
pub assume_specification<'a, T: ?Sized, 'b>[ <RwLockReadGuard<'a, T> as Deref>::deref ](
    guard: &'b RwLockReadGuard<'a, T>,
) -> &'b T;

/// `DerefMut::deref_mut` of a write guard lends the value behind the lock,
/// to be changed in place, for as long as the guard is borrowed. Nothing is
/// claimed of the value: it is whatever the last writer left.
pub assume_specification<'a, T: ?Sized, 'b>[ <RwLockWriteGuard<'a, T> as DerefMut>::deref_mut ](
    guard: &'b mut RwLockWriteGuard<'a, T>,
) -> &'b mut T;

/// Why an operation failed.
#[derive(Clone, Copy, Debug, PartialEq, Eq, Structural)]
pub enum Failure {
    /// The lock of the store is poisoned. The operation was given up and not
    /// tried again; the name held is as it was.
    InternalError,
}

impl Failure {
    /// The text shown for a failure.
    pub open spec fn message_text() -> Seq<char> {
        "internal error"@
    }

    /// A text for whoever sent the operation. It is the same for every
    /// failure and says nothing of the lock.
    pub fn message(&self) -> (text: String)
        ensures
            text@ == Self::message_text(),
    {
        "internal error".to_owned()
    }
}

impl<T> From<PoisonError<T>> for Failure {
    /// A poisoned lock is an internal error. The guard inside `poisoned` is
    /// dropped, which gives the lock back.
    fn from(poisoned: PoisonError<T>) -> (failure: Failure) {
        Failure::InternalError
    }
}

impl<T> FromSpecImpl<PoisonError<T>> for Failure {
    open spec fn obeys_from_spec() -> bool {
        true
    }

    open spec fn from_spec(poisoned: PoisonError<T>) -> Failure {
        Failure::InternalError
    }
}

/// One shared state, for everyone who holds a reference to the store.
pub struct Store {
    lock: RwLock<SharedState>,
}

impl Store {
    /// A store whose state holds the initial name, `Unknown`.
    ///
    /// The state goes behind the lock as [`SharedState::new`] makes it.
    /// Behind the lock it is out of a contract's reach, so none is given.
    pub fn new() -> (store: Self) {
        Store { lock: RwLock::new(SharedState::new()) }
    }

    /// A copy of the name held, taken under the read lock.
    ///
    /// Which name the lock holds, and whether it is poisoned, is up to the
    /// other holders of the store, so nothing is promised of the answer.
    /// Given the state that the lock lends, the name is the one that
    /// [`SharedState::read`] returns; given a poisoned lock, the failure is
    /// the one that [`Failure::from`] returns.
    pub fn read(&self) -> (answer: Result<String, Failure>) {
        match self.lock.read() {
            Ok(guard) => {
                let state: &SharedState = &guard;
                Ok(state.read())
            },
            Err(poisoned) => Err(Failure::from(poisoned)),
        }
    }

    /// Puts `new_value` in place of the name held, under the write lock.
    ///
    /// Whether the lock is poisoned is up to the other holders of the store,
    /// and what it holds afterwards cannot be told through a shared
    /// reference, so nothing is promised of the answer. Given the state that
    /// the lock lends, [`SharedState::write`] leaves `new_value` in it; given
    /// a poisoned lock, the state is left alone and the failure is the one
    /// that [`Failure::from`] returns.
    pub fn write(&self, new_value: String) -> (answer: Result<(), Failure>) {
        match self.lock.write() {
            Ok(mut guard) => {
                let state: &mut SharedState = &mut guard;
                state.write(new_value);
                Ok(())
            },
            Err(poisoned) => Err(Failure::from(poisoned)),
        }
    }
}

/// Carries out `op` against `store` and gives its answer.
///
/// `HelloWorld` never touches the store and always succeeds. `Hello` is
/// carried out under the read lock and `SetName` under the write lock; each
/// fails only if the lock is poisoned. An answer that is given is the one
/// that `op` gives to the name found behind the lock.
pub fn resolve(store: &Store, op: Operation) -> (answer: Result<String, Failure>)
    ensures
        op@ is HelloWorld ==> answer is Ok,
        answer matches Ok(text) ==> exists|held: Seq<char>| text@ == reply(held, op@),
{
    match op {
        Operation::HelloWorld(world) => {
            let text = Query::hello_world(world);
            // The answer is the same for every name held; the empty one will do.
            assert(text@ == reply(Seq::empty(), op@));
            Ok(text)
        },
        Operation::Hello => match store.lock.read() {
            Ok(guard) => {
                let state: &SharedState = &guard;
                Ok(Query::hello(state))
            },
            Err(poisoned) => Err(Failure::from(poisoned)),
        },
        Operation::SetName(name) => match store.lock.write() {
            Ok(mut guard) => {
                let state: &mut SharedState = &mut guard;
                Ok(Mutation::set_name(name, state))
            },
            Err(poisoned) => Err(Failure::from(poisoned)),
        },
    }
}

} // verus!
