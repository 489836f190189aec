//! The shared cell and its two views.

use vstd::prelude::*;
use std::sync::Arc;
use futures::task::AtomicTask;
use crate::model::{get_steps, update_steps, Step};
use crate::state::State;
use crate::sync::{
    current_task, lock_read, lock_store, notify_after, register_task, share, Before, Pushed,
    ReadGuard, Registration, Seeded,
};

verus! {

/// The steps of the state machine that one push has taken: the store of
/// the value pushed, then the notification.
pub open spec fn push_steps<H>(done: Pushed<State<H>>) -> Seq<Step<H>> {
    update_steps(done.stored().value())
}

/// The steps of the state machine that the taking of a read handle has
/// taken, `before` telling what came before the load: the registration of
/// the task and the load, or the load alone.
pub open spec fn read_steps<H>(before: Before) -> Seq<Step<H>> {
    match before {
        Before::Registered(_, task) => get_steps(task),
        _ => seq![Step::Load],
    }
}

/// Round state bridged across rounds: the snapshot behind a lock, and the
/// slot for the one task that waits for the next snapshot.
///
/// The cell is changed behind a shared reference, by whichever thread holds
/// a view, so the contracts of its methods cannot say what it holds before
/// or after a call. They say what does not change: which lock guards the
/// snapshot, which snapshot the cell was created holding, the one that
/// [`crate::model::Cell::seeded`] starts from, and which steps a call has
/// taken and in which order. [`crate::model::Cell`] states what each step
/// does to the cell, and the laws there state what follows for every order
/// in which the steps of the two sides can fall.
#[verifier::reject_recursive_types(H)]
pub struct Bridged<H> {
    inner: Seeded<State<H>>,
    task: AtomicTask,
}

impl<H> Bridged<H> {
    /// The lock that guards the snapshot.
    pub closed spec fn lock(&self) -> Seeded<State<H>> {
        self.inner
    }

    /// The slot for the task that waits.
    pub closed spec fn slot(&self) -> AtomicTask {
        self.task
    }

    /// The snapshot that the cell was created holding.
    pub open spec fn first(&self) -> State<H> {
        self.lock().first()
    }

    /// A cell around the lock `inner` and the snapshot in it, with no task
    /// registered.
    pub fn new(inner: Seeded<State<H>>) -> (cell: Self)
        ensures
            cell.lock() == inner,
    {
        Bridged { inner, task: AtomicTask::new() }
    }

    /// Replaces the snapshot by `new`, whatever it was, and then notifies
    /// the registered task. The record returned tells of both: `new` was
    /// stored in this cell's lock, whole and unchanged, and this cell's slot
    /// was notified after that. Does not return while the calling thread
    /// itself holds a [`ReadGuard`] of this cell, and waits while another
    /// thread holds one.
    pub fn write(&self, new: State<H>) -> (done: Pushed<State<H>>)
        ensures
            done.stored().lock() == self.lock(),
            done.stored().value() == new,
            done.slot() == self.slot(),
            push_steps(done) == update_steps(new),
    {
        let stored = lock_store(&self.inner, new);
        notify_after(&self.task, stored)
    }

    /// Shared access to the current snapshot, with nothing done about the
    /// wake slot: the step [`crate::model::Step::Load`] alone. The access
    /// is to this cell's lock; which snapshot it shows depends on what has
    /// been written by then. A thread that still holds a [`ReadGuard`] of
    /// this cell and takes a second one can wait for ever, if a
    /// [`Bridged::write`] has begun to wait in between.
    pub fn read(&self) -> (guard: ReadGuard<'_, State<H>>)
        ensures
            guard.lock() == self.lock(),
            guard.after() == Before::Unasked,
            read_steps::<H>(guard.after()) == seq![Step::<H>::Load],
    {
        lock_read(&self.inner, None)
    }

    /// Registers the task running on this thread as the one that the next
    /// [`Bridged::write`] notifies, in place of any task registered before:
    /// the step [`crate::model::Step::Register`]. Where no task is running
    /// there is nobody to wake, and nothing is registered. Nothing is
    /// registered either, and no wake follows, in a process that has
    /// installed a task storage of its own through `futures::task::init`:
    /// there the running task is not found. The record returned tells which
    /// of the two happened, and that the slot is this cell's.
    pub fn register_waiter(&self) -> (done: Registration)
        ensures
            match done.before() {
                Before::Registered(slot, _) => slot == self.slot(),
                Before::NoTask => true,
                Before::Unasked => false,
            },
    {
        match current_task() {
            Ok(task) => register_task(&self.task, task),
            Err(none) => none,
        }
    }
}

/// A prior view of a round-state: the handle of the round that produces it.
#[verifier::reject_recursive_types(H)]
pub struct PriorView<H>(Arc<Bridged<H>>);

impl<H> PriorView<H> {
    /// The cell that this view writes to.
    pub closed spec fn cell(&self) -> Bridged<H> {
        *self.0
    }

    /// Push an update to the latter view: `new` replaces the snapshot,
    /// whether or not it is further along than the one before, and the task
    /// that waits on the latter view is notified. The record returned tells
    /// of both: `new` was stored in the lock of this view's cell, whole and
    /// unchanged, and the cell's slot was notified after that. These are the
    /// steps [`crate::model::update_steps`]. Does not return while the
    /// calling thread itself holds a handle from the latter view, and waits
    /// while another thread holds one.
    pub fn update(&self, new: State<H>) -> (done: Pushed<State<H>>)
        ensures
            done.stored().lock() == self.cell().lock(),
            done.stored().value() == new,
            done.slot() == self.cell().slot(),
            push_steps(done) == update_steps(new),
    {
        self.0.write(new)
    }
}

/// A latter view of a round-state: the handle of the round that follows.
#[verifier::reject_recursive_types(H)]
pub struct LatterView<H>(Arc<Bridged<H>>);

impl<H> LatterView<H> {
    /// The cell that this view reads from.
    pub closed spec fn cell(&self) -> Bridged<H> {
        *self.0
    }

    /// Fetch a handle to the last round-state. The running task is
    /// registered first and the snapshot read second, on every call, so an
    /// update that this read does not see yet finds the task registered and
    /// wakes it: these are the steps [`crate::model::get_steps`]. A call
    /// outside a task registers nothing and only reads, as
    /// [`Bridged::register_waiter`] tells. The handle is to the lock of
    /// this view's cell, and it was taken after the registration in the
    /// cell's slot, or after the finding that no task runs; which snapshot
    /// it shows depends on what the prior view has pushed by then. A thread
    /// that still holds a handle and asks for a second one can wait for
    /// ever, if an update has begun to wait in between.
    pub fn get(&self) -> (guard: ReadGuard<'_, State<H>>)
        ensures
            guard.lock() == self.cell().lock(),
            match guard.after() {
                Before::Registered(slot, task) => slot == self.cell().slot() && read_steps::<H>(
                    guard.after(),
                ) == get_steps::<H>(task),
                Before::NoTask => read_steps::<H>(guard.after()) == seq![Step::<H>::Load],
                Before::Unasked => false,
            },
    {
        let done = self.0.register_waiter();
        lock_read(&self.0.inner, Some(done))
    }
}

/// Constructs two views of a bridged round-state.
///
/// The prior view is held by a round which produces the state and pushes
/// updates to a latter view. When updating, the latter view's task is
/// notified.
///
/// The latter view is held by the subsequent round, which blocks certain
/// activity while waiting for events on an older round.
///
/// Both views are of one cell, created holding `initial`.
pub fn bridge_state<H>(initial: State<H>) -> (views: (PriorView<H>, LatterView<H>))
    ensures
        views.0.cell() == views.1.cell(),
        views.1.cell().first() == initial,
{
    let inner = Arc::new(Bridged::new(Seeded::new(initial)));
    (PriorView(share(&inner)), LatterView(inner))
}

} // verus!
