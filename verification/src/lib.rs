//! A bridge that hands the evolving state of one voting round to the round
//! that follows it.
//!
//! The earlier round holds a [`PriorView`] and pushes snapshots of its state
//! through it. The later round holds a [`LatterView`]; each time it looks at
//! the snapshot it first registers its task to be woken by the next push, so
//! that it can wait for progress of the earlier round without polling.
//!
//! [`model`] describes the cell that the two views share as a state machine
//! and proves what every trace of its steps guarantees.

pub mod bridge;
pub mod model;
pub mod state;
pub mod sync;

pub use bridge::{bridge_state, push_steps, read_steps, Bridged, LatterView, PriorView};
pub use state::State;
pub use sync::{Before, Pushed, ReadGuard, Registration, Seeded, Stored};
