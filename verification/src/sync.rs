//! The lock and the wake slot that the bridge is built on, as Verus is told
//! of them.
//!
//! Both are shared between threads and change behind a shared reference, so
//! no contract here says what either holds at a given moment: whatever one
//! thread learnt may be out of date before it acts on it. What is stated is
//! what cannot change: the value that a lock was created holding, the lock
//! that a read access was taken from, the one value that a read access
//! shows for as long as it is held, and what has been done, which the calls
//! hand back as records: that a value was stored, that a slot was notified
//! after it, that a task was registered. A record is made by the call that
//! it tells of and by nothing else, so that whoever holds one holds it
//! after that call. What the steps on lock and slot amount to, taken in any
//! order, is the subject of [`crate::model`].

use vstd::prelude::*;
use std::sync::Arc;

verus! {

/// `futures::task::AtomicTask`: a slot for one task to be notified.
#[verifier::external_type_specification]
#[verifier::external_body]
pub struct ExAtomicTask(futures::task::AtomicTask);

/// `futures::task::Task`: a handle by which a task is notified.
#[verifier::external_type_specification]
#[verifier::external_body]
pub struct ExTask(futures::task::Task);

/// `parking_lot::RawRwLock`: the lock word of a `parking_lot::RwLock`.
#[verifier::external_type_specification]
#[verifier::external_body]
pub struct ExRawRwLock(parking_lot::RawRwLock);

/// `lock_api::RwLock`, of which `parking_lot::RwLock<T>` is the instance
/// with `parking_lot::RawRwLock`.
#[verifier::external_type_specification]
#[verifier::external_body]
#[verifier::reject_recursive_types(R)]
#[verifier::reject_recursive_types(T)]
pub struct ExRwLock<R, T: ?Sized>(parking_lot::lock_api::RwLock<R, T>);

/// A `parking_lot::RwLock` together with the value that it was created
/// holding. That value is a label of the lock: stores replace what the lock
/// holds, and leave the label as it is.
#[verifier::reject_recursive_types(T)]
pub struct Seeded<T> {
    lock: parking_lot::RwLock<T>,
    first: Ghost<T>,
}

impl<T> Seeded<T> {
    /// The value that the lock was created holding.
    pub closed spec fn first(&self) -> T {
        self.first@
    }

    /// An unlocked lock that holds `value`.
    pub fn new(value: T) -> (made: Self)
        ensures
            made.first() == value,
    {
        lock_new(value)
    }
}

/// The record of one store: `value` was stored in `lock`, as a whole and
/// unchanged, before this record came to be.
#[verifier::reject_recursive_types(T)]
pub struct Stored<T> {
    lock: Ghost<Seeded<T>>,
    value: Ghost<T>,
}

impl<T> Stored<T> {
    /// The lock that was stored to.
    pub closed spec fn lock(&self) -> Seeded<T> {
        self.lock@
    }

    /// The value that was stored.
    pub closed spec fn value(&self) -> T {
        self.value@
    }
}

/// The record of one push: the store that `stored` tells of was made, and
/// after it `slot` was notified.
#[verifier::reject_recursive_types(T)]
pub struct Pushed<T> {
    stored: Ghost<Stored<T>>,
    slot: Ghost<futures::task::AtomicTask>,
}

impl<T> Pushed<T> {
    /// The store that came first.
    pub closed spec fn stored(&self) -> Stored<T> {
        self.stored@
    }

    /// The slot that was notified after the store.
    pub closed spec fn slot(&self) -> futures::task::AtomicTask {
        self.slot@
    }
}

/// What was done about the wake slot before a read access was taken.
pub enum Before {
    /// Nothing: the slot was not touched.
    Unasked,
    /// The running task was asked for, and none was found: nothing was
    /// registered.
    NoTask,
    /// The task was registered in the slot.
    Registered(futures::task::AtomicTask, futures::task::Task),
}

/// The record of one registration, or of the finding that no task runs.
pub struct Registration {
    before: Ghost<Before>,
}

impl Registration {
    /// What this record tells of.
    pub closed spec fn before(&self) -> Before {
        self.before@
    }
}

/// A `parking_lot::RwLockReadGuard`: while it lives, the lock that it was
/// taken from admits no writer.
#[verifier::external_body]
#[verifier::reject_recursive_types(T)]
pub struct Held<'a, T> {
    guard: parking_lot::RwLockReadGuard<'a, T>,
}

/// Shared access to what a lock holds. The lock admits no writer until this
/// value is dropped, on whatever path that happens, so that the access shows
/// one and the same value throughout.
#[verifier::reject_recursive_types(T)]
pub struct ReadGuard<'a, T> {
    held: Held<'a, T>,
    source: Ghost<Seeded<T>>,
    shown: Ghost<T>,
    after: Ghost<Option<Registration>>,
}

impl<'a, T> ReadGuard<'a, T> {
    /// The lock that this access was taken from, and that it keeps locked.
    pub closed spec fn lock(&self) -> Seeded<T> {
        self.source@
    }

    /// The value that this access shows: what the lock held when the access
    /// was taken.
    pub closed spec fn shown(&self) -> T {
        self.shown@
    }

    /// What had been done about the wake slot when this access was taken.
    pub closed spec fn after(&self) -> Before {
        match self.after@ {
            Some(done) => done.before(),
            None => Before::Unasked,
        }
    }
}

impl<'a, T> std::ops::Deref for ReadGuard<'a, T> {
    type Target = T;

    /// `Deref::deref` of `parking_lot::RwLockReadGuard`: a reference to the
    /// value behind the lock. No writer gets the lock while the guard lives,
    /// so every call on one guard shows the value that the first one showed.
    #[verifier::external_body]
    fn deref(&self) -> (value: &T)
        ensures
            *value == self.shown(),
    {
        &self.held.guard
    }
}

/// `AtomicTask::new` makes a slot in which no task is registered. Nothing is
/// claimed of the result.
pub assume_specification[ futures::task::AtomicTask::new ]() -> (slot: futures::task::AtomicTask);

/// `futures::task::current` gives a handle to the task that is running on
/// this thread, and panics where none is. It is called only where
/// `futures::task::is_in_task` has answered that one is running; elsewhere
/// the result is the record that none was found. That answer is read from
/// the task storage that the crate `futures` keeps for each thread: in a
/// process that has installed a task storage of its own through
/// `futures::task::init` it is no, also inside a task. Which of the two
/// results comes depends on where the call is made, so nothing more is
/// claimed.
#[verifier::external_body]
pub(crate) fn current_task() -> (found: Result<futures::task::Task, Registration>)
    ensures
        found matches Err(none) ==> none.before() == Before::NoTask,
{
    if futures::task::is_in_task() {
        Ok(futures::task::current())
    } else {
        Err(Registration { before: Ghost(Before::NoTask) })
    }
}

/// `AtomicTask::register_task` puts `task` into the slot, in place of any
/// task registered before. The record tells which slot and which task.
#[verifier::external_body]
pub(crate) fn register_task(slot: &futures::task::AtomicTask, task: futures::task::Task) -> (done:
    Registration)
    ensures
        done.before() == Before::Registered(*slot, task),
{
    let done = Registration { before: Ghost(Before::Registered(*slot, task)) };
    slot.register_task(task);
    done
}

/// `AtomicTask::notify` takes the registered task out of the slot and
/// notifies it; with no task registered it does nothing. The call takes the
/// record of a store, so that it is made after that store.
#[verifier::external_body]
pub(crate) fn notify_after<T>(slot: &futures::task::AtomicTask, stored: Stored<T>) -> (done: Pushed<
    T,
>)
    ensures
        done.stored() == stored,
        done.slot() == *slot,
{
    slot.notify();
    Pushed { stored: Ghost(stored), slot: Ghost(*slot) }
}

/// `parking_lot::RwLock::new` makes an unlocked lock that holds `value`.
#[verifier::external_body]
fn lock_new<T>(value: T) -> (made: Seeded<T>)
    ensures
        made.first() == value,
{
    Seeded { first: Ghost(value), lock: parking_lot::RwLock::new(value) }
}

/// `parking_lot::RwLock::read` waits until no writer holds or awaits the
/// lock and returns a guard that refers to the lock it was called on. The
/// call takes the record of what was done about the wake slot, if anything
/// was, so that the guard is taken after that. Which value the guard shows
/// depends on what other threads have stored, so nothing is claimed of
/// that. The call can wait for ever where the calling thread still holds a
/// guard of this lock and a writer waits.
#[verifier::external_body]
pub(crate) fn lock_read<T>(lock: &Seeded<T>, before: Option<Registration>) -> (guard: ReadGuard<
    '_,
    T,
>)
    ensures
        guard.lock() == *lock,
        guard.after() == match before {
            Some(done) => done.before(),
            None => Before::Unasked,
        },
{
    let guard = lock.lock.read();
    ReadGuard {
        shown: Ghost(*guard),
        source: Ghost(*lock),
        after: Ghost(before),
        held: Held { guard },
    }
}

/// `parking_lot::RwLock::write` waits until nobody else holds the lock; the
/// value behind it is then replaced by `value` as a whole and the lock
/// released. It does not return while the calling thread itself still holds
/// a guard of this lock.
#[verifier::external_body]
pub(crate) fn lock_store<T>(lock: &Seeded<T>, value: T) -> (done: Stored<T>)
    ensures
        done.lock() == *lock,
        done.value() == value,
{
    let done = Stored { lock: Ghost(*lock), value: Ghost(value) };
    *lock.lock.write() = value;
    done
}

/// `Arc::clone` makes a second owner of the same allocation: both point to
/// one value.
#[verifier::external_body]
pub(crate) fn share<T>(owner: &Arc<T>) -> (other: Arc<T>)
    ensures
        other == *owner,
{
    Arc::clone(owner)
}

} // verus!
