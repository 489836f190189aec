//! The snapshot of a round that travels over the bridge.

use vstd::prelude::*;

verus! {

/// What a round knows of itself at one moment. `H` identifies a block; the
/// number beside it is the block's height.
#[derive(Clone, Debug, PartialEq, Eq)]
pub struct State<H> {
    /// The block that the prevotes support best.
    pub prevote_ghost: Option<(H, usize)>,
    /// The block that the round has finalized.
    pub finalized: Option<(H, usize)>,
    /// The round's estimate.
    pub estimate: Option<(H, usize)>,
    /// Whether the round can be completed.
    pub completable: bool,
}

} // verus!
