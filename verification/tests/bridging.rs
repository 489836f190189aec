use std::sync::atomic::{AtomicUsize, Ordering};
use std::sync::Arc;

use futures::executor::{self, Notify};
use futures::future::poll_fn;
use futures::{Async, Future, Poll};
use round_bridge::{bridge_state, Bridged, LatterView, PriorView, Seeded, State};

struct Wakes(AtomicUsize);

impl Wakes {
    fn new() -> Arc<Wakes> {
        Arc::new(Wakes(AtomicUsize::new(0)))
    }

    fn count(&self) -> usize {
        self.0.load(Ordering::SeqCst)
    }
}

impl Notify for Wakes {
    fn notify(&self, _id: usize) {
        self.0.fetch_add(1, Ordering::SeqCst);
    }
}

fn empty() -> State<&'static str> {
    State {
        prevote_ghost: None,
        finalized: None,
        estimate: None,
        completable: false,
    }
}

fn finalized(hash: &'static str, number: usize) -> State<&'static str> {
    State {
        prevote_ghost: Some((hash, number)),
        finalized: Some((hash, number)),
        estimate: Some((hash, number)),
        completable: true,
    }
}

fn needs_send_and_sync<T: Send + Sync>(value: T) -> T {
    value
}

fn poll_finality(latter: &LatterView<&'static str>) -> Poll<(), ()> {
    if latter.get().finalized.is_some() {
        Ok(Async::Ready(()))
    } else {
        Ok(Async::NotReady)
    }
}

#[test]
fn bridging_state() {
    let initial = State {
        prevote_ghost: None,
        finalized: None,
        estimate: None,
        completable: false,
    };

    let (prior, latter) = bridge_state(initial);
    let latter = Arc::new(latter);
    let polled = latter.clone();
    let waits_for_finality = poll_fn(move || -> Poll<(), ()> {
        if polled.get().finalized.is_some() {
            Ok(Async::Ready(()))
        } else {
            Ok(Async::NotReady)
        }
    });

    let wakes = Wakes::new();
    let mut task = executor::spawn(waits_for_finality);
    assert_eq!(task.poll_future_notify(&wakes, 0), Ok(Async::NotReady));

    prior.update(State {
        prevote_ghost: Some(("5", 5)),
        finalized: Some(("1", 1)),
        estimate: Some(("3", 3)),
        completable: true,
    });

    assert!(wakes.count() >= 1);
    assert_eq!(task.poll_future_notify(&wakes, 0), Ok(Async::Ready(())));

    let seen = latter.get();
    assert_eq!(seen.finalized, Some(("1", 1)));
    assert_eq!(seen.prevote_ghost, Some(("5", 5)));
    assert_eq!(seen.estimate, Some(("3", 3)));
    assert!(seen.completable);
}

#[test]
fn waiting_returns_at_once_when_already_finalized() {
    let (prior, latter) = bridge_state(empty());
    prior.update(finalized("1", 1));
    let waits_for_finality = poll_fn(move || poll_finality(&latter));
    waits_for_finality.wait().unwrap();
}

#[test]
fn update_is_visible_to_the_next_get() {
    let (prior, latter) = bridge_state(empty());
    prior.update(finalized("1", 1));
    assert_eq!(*latter.get(), finalized("1", 1));
    assert_eq!(latter.get().finalized, Some(("1", 1)));
}

#[test]
fn last_update_wins() {
    let (prior, latter) = bridge_state(empty());
    prior.update(finalized("1", 1));
    prior.update(finalized("2", 2));
    prior.update(finalized("3", 3));
    assert_eq!(*latter.get(), finalized("3", 3));
}

#[test]
fn get_without_update_returns_initial() {
    let initial = State {
        prevote_ghost: Some(("7", 7)),
        finalized: None,
        estimate: Some(("6", 6)),
        completable: false,
    };
    let (_prior, latter) = bridge_state(initial.clone());
    for _ in 0..100 {
        assert_eq!(*latter.get(), initial);
    }
}

#[test]
fn older_snapshot_may_replace_newer() {
    let (prior, latter) = bridge_state(finalized("9", 9));
    prior.update(finalized("2", 2));
    assert_eq!(*latter.get(), finalized("2", 2));
    prior.update(empty());
    assert_eq!(*latter.get(), empty());
}

#[test]
fn both_views_are_of_one_cell() {
    let (prior, latter) = bridge_state(empty());
    assert_eq!(*latter.get(), empty());
    prior.update(finalized("4", 4));
    assert_ne!(*latter.get(), empty());
    assert_eq!(latter.get().estimate, Some(("4", 4)));
}

#[test]
fn get_outside_a_task_only_reads() {
    assert!(!futures::task::is_in_task());
    let (prior, latter) = bridge_state(empty());
    assert_eq!(*latter.get(), empty());
    prior.update(finalized("1", 1));
    assert_eq!(*latter.get(), finalized("1", 1));
}

#[test]
fn update_wakes_the_registered_task() {
    let (prior, latter) = bridge_state(empty());
    let wakes = Wakes::new();
    let mut task = executor::spawn(poll_fn(move || poll_finality(&latter)));

    assert_eq!(task.poll_future_notify(&wakes, 0), Ok(Async::NotReady));
    assert_eq!(wakes.count(), 0);

    prior.update(finalized("1", 1));
    assert_eq!(wakes.count(), 1);
    assert_eq!(task.poll_future_notify(&wakes, 0), Ok(Async::Ready(())));
}

#[test]
fn update_without_a_waiter_wakes_nobody() {
    let (prior, latter) = bridge_state(empty());
    prior.update(finalized("1", 1));
    prior.update(finalized("2", 2));
    assert_eq!(*latter.get(), finalized("2", 2));
}

#[test]
fn one_registration_is_woken_once() {
    let (prior, latter) = bridge_state(empty());
    let wakes = Wakes::new();
    let mut task = executor::spawn(poll_fn(move || -> Poll<(), ()> {
        if latter.get().completable {
            Ok(Async::Ready(()))
        } else {
            Ok(Async::NotReady)
        }
    }));

    assert_eq!(task.poll_future_notify(&wakes, 0), Ok(Async::NotReady));
    prior.update(empty());
    assert_eq!(wakes.count(), 1);
    prior.update(empty());
    assert_eq!(wakes.count(), 1);

    assert_eq!(task.poll_future_notify(&wakes, 0), Ok(Async::NotReady));
    prior.update(finalized("1", 1));
    assert_eq!(wakes.count(), 2);
    assert_eq!(task.poll_future_notify(&wakes, 0), Ok(Async::Ready(())));
}

#[test]
fn later_registration_replaces_the_earlier() {
    let (prior, latter) = bridge_state(empty());
    let latter = Arc::new(latter);
    let first_view = latter.clone();
    let second_view = latter.clone();
    let first_wakes = Wakes::new();
    let second_wakes = Wakes::new();
    let mut first = executor::spawn(poll_fn(move || poll_finality(&first_view)));
    let mut second = executor::spawn(poll_fn(move || poll_finality(&second_view)));

    assert_eq!(first.poll_future_notify(&first_wakes, 0), Ok(Async::NotReady));
    assert_eq!(second.poll_future_notify(&second_wakes, 0), Ok(Async::NotReady));

    prior.update(finalized("1", 1));
    assert_eq!(first_wakes.count(), 0);
    assert_eq!(second_wakes.count(), 1);
}

#[test]
fn cell_write_then_read() {
    let cell = Bridged::new(Seeded::new(empty()));
    assert_eq!(*cell.read(), empty());
    cell.register_waiter();
    cell.write(finalized("8", 8));
    assert_eq!(*cell.read(), finalized("8", 8));
    assert_eq!(cell.read().prevote_ghost, Some(("8", 8)));
}

#[test]
fn cell_write_wakes_the_registered_task() {
    let cell = Arc::new(Bridged::new(Seeded::new(empty())));
    let polled = cell.clone();
    let wakes = Wakes::new();
    let mut task = executor::spawn(poll_fn(move || -> Poll<(), ()> {
        polled.register_waiter();
        if polled.read().finalized.is_some() {
            Ok(Async::Ready(()))
        } else {
            Ok(Async::NotReady)
        }
    }));

    assert_eq!(task.poll_future_notify(&wakes, 0), Ok(Async::NotReady));
    cell.write(finalized("1", 1));
    assert_eq!(wakes.count(), 1);
    assert_eq!(task.poll_future_notify(&wakes, 0), Ok(Async::Ready(())));
}

#[test]
fn readers_share_the_lock() {
    let (_prior, latter) = bridge_state(finalized("1", 1));
    let first = latter.get();
    let second = latter.get();
    assert_eq!(*first, *second);
    assert_eq!(first.finalized, Some(("1", 1)));
}

#[test]
fn every_read_is_one_whole_written_snapshot() {
    let (prior, latter) = bridge_state(empty());
    assert_eq!(*latter.get(), empty());
    let rounds: usize = 200;
    for number in 1..=rounds {
        prior.update(State {
            prevote_ghost: Some(("a", number)),
            finalized: Some(("b", number)),
            estimate: Some(("c", number)),
            completable: true,
        });
        let seen = latter.get();
        assert_eq!(seen.prevote_ghost, Some(("a", number)));
        assert_eq!(seen.finalized, Some(("b", number)));
        assert_eq!(seen.estimate, Some(("c", number)));
        assert!(seen.completable);
    }
}

#[test]
fn views_can_be_handed_to_other_threads() {
    let (prior, latter) = bridge_state(empty());
    let prior: PriorView<&'static str> = needs_send_and_sync(prior);
    let latter: LatterView<&'static str> = needs_send_and_sync(latter);
    prior.update(finalized("1", 1));
    assert_eq!(*latter.get(), finalized("1", 1));
}

#[test]
fn handle_shows_its_own_cell() {
    let (first_prior, first_latter) = bridge_state(empty());
    let (second_prior, second_latter) = bridge_state(finalized("2", 2));

    first_prior.update(finalized("1", 1));
    assert_eq!(*first_latter.get(), finalized("1", 1));
    assert_eq!(*second_latter.get(), finalized("2", 2));

    second_prior.update(empty());
    assert_eq!(*first_latter.get(), finalized("1", 1));
    assert_eq!(*second_latter.get(), empty());

    let first = Bridged::new(Seeded::new(finalized("3", 3)));
    let second = Bridged::new(Seeded::new(finalized("4", 4)));
    assert_eq!(first.read().finalized, Some(("3", 3)));
    assert_eq!(second.read().finalized, Some(("4", 4)));
}

#[test]
fn new_cell_holds_what_its_lock_was_made_with() {
    let seed = State {
        prevote_ghost: Some(("7", 7)),
        finalized: None,
        estimate: Some(("6", 6)),
        completable: false,
    };
    let cell = Bridged::new(Seeded::new(seed.clone()));
    assert_eq!(*cell.read(), seed);
    assert_ne!(*cell.read(), empty());

    let (_prior, latter) = bridge_state(seed.clone());
    assert_eq!(*latter.get(), seed);
    assert_eq!(latter.get().estimate, Some(("6", 6)));
}

#[test]
fn handle_keeps_showing_one_snapshot() {
    let (prior, latter) = bridge_state(empty());
    prior.update(finalized("1", 1));
    let handle = latter.get();
    let first_look = (*handle).clone();
    let second_look = (*handle).clone();
    assert_eq!(first_look, finalized("1", 1));
    assert_eq!(second_look, first_look);
    assert_eq!(handle.finalized, Some(("1", 1)));
    assert_eq!(handle.estimate, Some(("1", 1)));
}

#[test]
fn registration_outside_a_task_is_skipped() {
    assert!(!futures::task::is_in_task());
    let cell = Bridged::new(Seeded::new(empty()));
    cell.register_waiter();
    cell.register_waiter();
    cell.write(finalized("1", 1));
    assert_eq!(*cell.read(), finalized("1", 1));
}

#[test]
fn push_stores_before_it_notifies() {
    let (prior, latter) = bridge_state(empty());
    let latter = Arc::new(latter);
    let polled = latter.clone();
    let wakes = Wakes::new();
    let mut task = executor::spawn(poll_fn(move || poll_finality(&polled)));

    assert_eq!(task.poll_future_notify(&wakes, 0), Ok(Async::NotReady));
    let _pushed = prior.update(finalized("1", 1));
    assert_eq!(wakes.count(), 1);
    assert_eq!(*latter.get(), finalized("1", 1));
    assert_eq!(task.poll_future_notify(&wakes, 0), Ok(Async::Ready(())));
}

#[test]
fn every_get_in_a_task_registers_again() {
    let (prior, latter) = bridge_state(empty());
    let wakes = Wakes::new();
    let mut task = executor::spawn(poll_fn(move || -> Poll<(), ()> {
        let _seen = latter.get();
        Ok(Async::NotReady)
    }));

    for round in 1..=5 {
        assert_eq!(task.poll_future_notify(&wakes, 0), Ok(Async::NotReady));
        prior.update(finalized("1", round));
        assert_eq!(wakes.count(), round);
    }
}
