//! The bridge as a state machine: what the shared cell holds, the atomic
//! steps that change it, and what every trace of such steps guarantees.
//!
//! A trace is one total order of the steps that the producer and the
//! consumer take. The model rests on what the lock and the wake slot are
//! relied on to provide and what nothing in this crate proves: that each
//! store, load, registration and notification takes effect at one moment, so
//! that a run of the two sides, however their threads interleave, is one
//! such trace. For registrations this holds only of one registering thread
//! at a time: of two registrations that race in the slot one is dropped, so
//! the model assumes that reads through the latter view do not run at the
//! same time on several threads. The wake slot may notify a task more often
//! than its trace tells, as if further notifications stood in it.
//!
//! The laws below hold of every trace. They are stated of traces, not of
//! the running views: the views' contracts name the steps that each call
//! has taken (see `push_steps` and `read_steps` beside the views), but they
//! cannot say where those steps fall among the steps of the other side, nor
//! what a load shows.

use vstd::prelude::*;
use futures::task::Task;
use crate::state::State;

verus! {

/// The shared cell: the latest snapshot, and the task waiting to be woken.
pub struct Cell<H> {
    /// The snapshot that a load returns.
    pub snapshot: State<H>,
    /// The task that the next notification wakes, if one is registered.
    pub waiter: Option<Task>,
}

/// One atomic step on the cell.
pub enum Step<H> {
    /// The producer replaces the snapshot.
    Store(State<H>),
    /// The producer signals the wake slot.
    Notify,
    /// The consumer registers a task in the wake slot.
    Register(Task),
    /// The consumer reads the snapshot.
    Load,
}

/// What a step lets the outside observe.
pub enum Effect<H> {
    /// Nothing.
    Silent,
    /// The task was scheduled to run again.
    Woke(Task),
    /// The reader was handed this snapshot.
    Saw(State<H>),
}

impl<H> Cell<H> {
    /// The cell as the bridge is created: `initial` stored, nobody waiting.
    pub open spec fn seeded(initial: State<H>) -> Cell<H> {
        Cell { snapshot: initial, waiter: None }
    }

    /// The cell after one step. A store replaces the snapshot whatever it
    /// was; a registration replaces the waiter whoever it was; a
    /// notification empties the slot; a load changes nothing.
    pub open spec fn step(self, step: Step<H>) -> Cell<H> {
        match step {
            Step::Store(new) => Cell { snapshot: new, waiter: self.waiter },
            Step::Notify => Cell { snapshot: self.snapshot, waiter: None },
            Step::Register(task) => Cell { snapshot: self.snapshot, waiter: Some(task) },
            Step::Load => self,
        }
    }

    /// What one step taken on this cell lets the outside observe.
    pub open spec fn effect(self, step: Step<H>) -> Effect<H> {
        match step {
            Step::Notify => match self.waiter {
                Some(task) => Effect::Woke(task),
                None => Effect::Silent,
            },
            Step::Load => Effect::Saw(self.snapshot),
            _ => Effect::Silent,
        }
    }

    /// The cell after all of `steps`, taken in order.
    pub open spec fn run(self, steps: Seq<Step<H>>) -> Cell<H>
        decreases steps.len(),
    {
        if steps.len() == 0 {
            self
        } else {
            self.run(steps.drop_last()).step(steps.last())
        }
    }

    /// What step `at` of the trace `steps`, started on this cell, lets the
    /// outside observe.
    pub open spec fn effect_at(self, steps: Seq<Step<H>>, at: int) -> Effect<H>
        recommends
            0 <= at < steps.len(),
    {
        self.run(steps.take(at)).effect(steps[at])
    }
}

/// The steps of one update by the producer: store, then notify.
pub open spec fn update_steps<H>(new: State<H>) -> Seq<Step<H>> {
    seq![Step::Store(new), Step::Notify]
}

/// The steps of one read by the consumer running as `task`: register, then
/// load.
pub open spec fn get_steps<H>(task: Task) -> Seq<Step<H>> {
    seq![Step::Register(task), Step::Load]
}

/// The steps of one update for each of `values`, in order.
pub open spec fn updates_steps<H>(values: Seq<State<H>>) -> Seq<Step<H>>
    decreases values.len(),
{
    if values.len() == 0 {
        Seq::empty()
    } else {
        updates_steps(values.drop_last()) + update_steps(values.last())
    }
}

/// No step of `steps` from `from` up to, not including, `to` is a store.
pub open spec fn no_store<H>(steps: Seq<Step<H>>, from: int, to: int) -> bool {
    forall|k: int| from <= k < to ==> !(#[trigger] steps[k] is Store)
}

/// Every registration among `steps` from `from` up to, not including, `to`
/// is for `task`.
pub open spec fn only_waiter<H>(steps: Seq<Step<H>>, task: Task, from: int, to: int) -> bool {
    forall|k: int|
        from <= k < to && #[trigger] steps[k] is Register ==> steps[k] == Step::<H>::Register(task)
}

proof fn lemma_run_take<H>(cell: Cell<H>, steps: Seq<Step<H>>, at: int)
    requires
        0 <= at < steps.len(),
    ensures
        cell.run(steps.take(at + 1)) == cell.run(steps.take(at)).step(steps[at]),
{
    assert(steps.take(at + 1).drop_last() =~= steps.take(at));
}

proof fn lemma_snapshot_kept<H>(cell: Cell<H>, steps: Seq<Step<H>>, from: int, to: int)
    requires
        0 <= from <= to <= steps.len(),
        no_store(steps, from, to),
    ensures
        cell.run(steps.take(to)).snapshot == cell.run(steps.take(from)).snapshot,
    decreases to - from,
{
    if from < to {
        lemma_snapshot_kept(cell, steps, from, to - 1);
        lemma_run_take(cell, steps, to - 1);
        assert(!(steps[to - 1] is Store));
    }
}

/// Visibility: a load sees the snapshot of the latest store before it. In
/// every trace in which step `store` stores `value`, step `load` is a later
/// load and no step between the two is a store, that load is handed `value`.
pub proof fn law_visibility<H>(
    cell: Cell<H>,
    steps: Seq<Step<H>>,
    store: int,
    load: int,
    value: State<H>,
)
    requires
        0 <= store < load < steps.len(),
        steps[store] == Step::Store(value),
        steps[load] is Load,
        no_store(steps, store + 1, load),
    ensures
        cell.effect_at(steps, load) == Effect::Saw(value),
{
    lemma_run_take(cell, steps, store);
    lemma_snapshot_kept(cell, steps, store + 1, load);
}

/// An update followed by a read hands the reader what was written, whatever
/// the cell held before.
pub proof fn law_update_then_get<H>(cell: Cell<H>, value: State<H>, task: Task)
    ensures
        cell.effect_at(update_steps(value) + get_steps(task), 3) == Effect::Saw(value),
{
    let steps = update_steps(value) + get_steps::<H>(task);
    assert(steps[0] == Step::Store(value));
    assert(steps[1] is Notify);
    assert(steps[2] is Register);
    assert(steps[3] is Load);
    law_visibility(cell, steps, 0, 3, value);
}

proof fn lemma_updates_shape<H>(values: Seq<State<H>>)
    ensures
        updates_steps(values).len() == 2 * values.len(),
        forall|k: int|
            0 <= k < values.len() ==> #[trigger] updates_steps(values)[2 * k] == Step::Store(
                values[k],
            ),
        forall|k: int| 0 <= k < values.len() ==> #[trigger] updates_steps(values)[2 * k + 1] is Notify,
    decreases values.len(),
{
    if values.len() > 0 {
        let front = values.drop_last();
        lemma_updates_shape(front);
        let steps = updates_steps(values);
        assert(steps == updates_steps(front) + update_steps(values.last()));
        assert forall|k: int| 0 <= k < values.len() implies #[trigger] steps[2 * k] == Step::Store(
            values[k],
        ) && steps[2 * k + 1] is Notify by {
            if k < front.len() {
                assert(updates_steps(front)[2 * k] == Step::Store(front[k]));
                assert(updates_steps(front)[2 * k + 1] is Notify);
            }
        }
    }
}

/// Last write wins: after any number of updates with no read between them,
/// the next read is handed the snapshot of the last update, and none of the
/// earlier ones.
pub proof fn law_last_write_wins<H>(cell: Cell<H>, values: Seq<State<H>>, task: Task)
    requires
        values.len() > 0,
    ensures
        cell.effect_at(updates_steps(values) + get_steps(task), (2 * values.len() + 1) as int)
            == Effect::Saw(values.last()),
{
    let writes = updates_steps(values);
    let steps = writes + get_steps::<H>(task);
    let n = values.len() as int;
    lemma_updates_shape(values);
    assert(steps[2 * (n - 1)] == writes[2 * (n - 1)]);
    assert(steps[2 * (n - 1) + 1] == writes[2 * (n - 1) + 1]);
    assert(steps[2 * n] is Register);
    assert(steps[2 * n + 1] is Load);
    assert(no_store(steps, 2 * (n - 1) + 1, 2 * n + 1));
    law_visibility(cell, steps, 2 * (n - 1), 2 * n + 1, values.last());
}

/// Stability: as long as nothing is stored, every load is handed the
/// snapshot that the bridge was created with.
pub proof fn law_no_update_stability<H>(initial: State<H>, steps: Seq<Step<H>>, load: int)
    requires
        0 <= load < steps.len(),
        steps[load] is Load,
        no_store(steps, 0, load),
    ensures
        Cell::seeded(initial).effect_at(steps, load) == Effect::Saw(initial),
{
    lemma_snapshot_kept(Cell::seeded(initial), steps, 0, load);
    assert(steps.take(0) =~= Seq::empty());
}

/// The snapshot is never torn or invented: in every trace, however the
/// steps of the two sides interleave, what a load is handed is the snapshot
/// that the bridge was created with or the whole snapshot of one earlier
/// store.
pub proof fn law_reads_are_writes<H>(initial: State<H>, steps: Seq<Step<H>>, load: int)
    requires
        0 <= load < steps.len(),
        steps[load] is Load,
    ensures
        ({
            let seen = Cell::seeded(initial).run(steps.take(load)).snapshot;
            &&& Cell::seeded(initial).effect_at(steps, load) == Effect::Saw(seen)
            &&& seen == initial || exists|store: int|
                0 <= store < load && steps[store] == Step::Store(seen)
        }),
{
    lemma_snapshot_origin(initial, steps, load);
}

proof fn lemma_snapshot_origin<H>(initial: State<H>, steps: Seq<Step<H>>, upto: int)
    requires
        0 <= upto <= steps.len(),
    ensures
        ({
            let held = Cell::seeded(initial).run(steps.take(upto)).snapshot;
            held == initial || exists|store: int|
                0 <= store < upto && steps[store] == Step::Store(held)
        }),
    decreases upto,
{
    if upto == 0 {
        assert(steps.take(0) =~= Seq::empty());
    } else {
        lemma_snapshot_origin(initial, steps, upto - 1);
        lemma_run_take(Cell::seeded(initial), steps, upto - 1);
        let before = Cell::seeded(initial).run(steps.take(upto - 1)).snapshot;
        let held = Cell::seeded(initial).run(steps.take(upto)).snapshot;
        match steps[upto - 1] {
            Step::Store(new) => {
                assert(steps[upto - 1] == Step::Store(held));
            },
            _ => {
                assert(held == before);
                if before != initial {
                    let store = choose|store: int|
                        0 <= store < upto - 1 && steps[store] == Step::Store(before);
                    assert(0 <= store < upto && steps[store] == Step::Store(held));
                }
            },
        }
    }
}

proof fn lemma_waiter_kept<H>(cell: Cell<H>, steps: Seq<Step<H>>, task: Task, from: int, to: int)
    requires
        0 <= from <= to <= steps.len(),
        cell.run(steps.take(from)).waiter == Some(task),
        only_waiter(steps, task, from, to),
        forall|k: int| from <= k < to ==> !(#[trigger] steps[k] is Notify),
    ensures
        cell.run(steps.take(to)).waiter == Some(task),
    decreases to - from,
{
    if from < to {
        lemma_waiter_kept(cell, steps, task, from, to - 1);
        lemma_run_take(cell, steps, to - 1);
        assert(!(steps[to - 1] is Notify));
        if steps[to - 1] is Register {
            assert(steps[to - 1] == Step::<H>::Register(task));
        }
    }
}

/// The first notification among `steps` from `from` on, at or before `upto`.
proof fn lemma_first_notify<H>(steps: Seq<Step<H>>, from: int, upto: int) -> (first: int)
    requires
        0 <= from <= upto < steps.len(),
        steps[upto] is Notify,
    ensures
        from <= first <= upto,
        steps[first] is Notify,
        forall|k: int| from <= k < first ==> !(#[trigger] steps[k] is Notify),
    decreases upto - from,
{
    if steps[from] is Notify {
        from
    } else {
        lemma_first_notify(steps, from + 1, upto)
    }
}

/// Wake: a registered task does not miss a notification. In every trace in
/// which step `register` registers `task`, step `notify` is a later
/// notification and no other task registers between the two, some step
/// after `register` and no later than `notify` wakes `task`.
pub proof fn law_wake<H>(
    cell: Cell<H>,
    steps: Seq<Step<H>>,
    register: int,
    notify: int,
    task: Task,
) -> (woken: int)
    requires
        0 <= register < notify < steps.len(),
        steps[register] == Step::<H>::Register(task),
        steps[notify] is Notify,
        only_waiter(steps, task, register + 1, notify),
    ensures
        register < woken <= notify,
        cell.effect_at(steps, woken) == Effect::<H>::Woke(task),
{
    let first = lemma_first_notify(steps, register + 1, notify);
    lemma_run_take(cell, steps, register);
    lemma_waiter_kept(cell, steps, task, register + 1, first);
    first
}

/// No update is missed, because a read registers before it loads. Take a
/// read by `task`, which registers at step `register` and loads at step
/// `load`, and an update of `value`, which stores at step `store` and
/// notifies at step `notify`, in any trace in which no other task registers
/// before that notification. If the store comes first, and no other store
/// between it and the load, the load is handed `value`. If the load comes
/// first, a step after the registration and no later than the notification
/// wakes `task`, so that it reads again.
pub proof fn law_no_missed_update<H>(
    cell: Cell<H>,
    steps: Seq<Step<H>>,
    register: int,
    load: int,
    store: int,
    notify: int,
    task: Task,
    value: State<H>,
) -> (woken: int)
    requires
        0 <= register < load < steps.len(),
        0 <= store < notify < steps.len(),
        steps[register] == Step::<H>::Register(task),
        steps[load] is Load,
        steps[store] == Step::Store(value),
        steps[notify] is Notify,
        no_store(steps, store + 1, load),
        only_waiter(steps, task, register + 1, notify),
    ensures
        store < load ==> cell.effect_at(steps, load) == Effect::Saw(value),
        load < store ==> register < woken <= notify && cell.effect_at(steps, woken)
            == Effect::<H>::Woke(task),
{
    if store < load {
        law_visibility(cell, steps, store, load, value);
        0
    } else {
        law_wake(cell, steps, register, notify, task)
    }
}

/// An update wakes the reader that came before it: after a read by `task`
/// and then an update, the update's notification wakes `task`.
pub proof fn law_get_then_update<H>(cell: Cell<H>, value: State<H>, task: Task)
    ensures
        cell.effect_at(get_steps(task) + update_steps(value), 3) == Effect::<H>::Woke(task),
{
    let steps = get_steps::<H>(task) + update_steps(value);
    assert(steps[0] == Step::<H>::Register(task));
    assert(steps[1] is Load);
    assert(steps[2] is Store);
    assert(steps[3] is Notify);
    let woken = law_wake(cell, steps, 0, 3, task);
    assert(cell.effect_at(steps, 1) is Saw);
    assert(cell.effect_at(steps, 2) is Silent);
}

} // verus!
