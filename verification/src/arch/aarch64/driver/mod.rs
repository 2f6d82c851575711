//! Bring-up of the drivers that every ARM64 board has.

use vstd::prelude::*;

use crate::init_state::InitState;

verus! {

/// A driver that bring-up starts.
#[derive(Clone, Copy, Debug, PartialEq, Eq, Structural)]
pub enum Driver {
    /// The drivers of the board itself.
    Board,
    /// The console.
    Console,
}

/// The drivers that bring-up starts, in the order in which it starts them.
pub open spec fn init_order() -> Seq<Driver> {
    seq![Driver::Board, Driver::Console]
}

/// Bring-up of the common drivers: marks it as run and hands out the drivers
/// to start, in order. It runs once; with `state` already `Initialized` the
/// caller has to stop for good.
pub fn init(state: &mut InitState) -> (drivers: [Driver; 2])
    requires
        old(state).may_begin(),
    ensures
        *final(state) == old(state).begun(),
        drivers@ == init_order(),
{
    state.begin();
    [Driver::Board, Driver::Console]
}

} // verus!
