//! The one-shot bring-up flag.

use vstd::prelude::*;

verus! {

/// Whether bring-up has run. The only transition is from `Uninitialized` to
/// `Initialized`, and it happens at most once.
#[derive(Debug, PartialEq, Eq, Structural)]
pub enum InitState {
    Uninitialized,
    Initialized,
}

impl InitState {
    /// Whether bring-up may still run.
    pub open spec fn may_begin(self) -> bool {
        self is Uninitialized
    }

    /// The state that bring-up leaves behind.
    pub open spec fn begun(self) -> InitState {
        InitState::Initialized
    }

    /// The state before bring-up.
    pub fn new() -> (state: InitState)
        ensures
            state is Uninitialized,
    {
        InitState::Uninitialized
    }

    /// Whether bring-up has already run.
    pub fn is_initialized(&self) -> (done: bool)
        ensures
            done == (*self is Initialized),
    {
        match self {
            InitState::Uninitialized => false,
            InitState::Initialized => true,
        }
    }

    /// Records that bring-up runs now. A caller that cannot show that the
    /// state is still `Uninitialized` has to test it with `is_initialized`
    /// and stop for good if it is not.
    pub fn begin(&mut self)
        requires
            old(self).may_begin(),
        ensures
            *final(self) == old(self).begun(),
    {
        *self = InitState::Initialized;
    }
}

/// Bring-up is one-shot: in the state that a bring-up leaves behind, no
/// second one may begin.
pub proof fn lemma_bring_up_is_one_shot(state: InitState)
    requires
        state.may_begin(),
    ensures
        !state.begun().may_begin(),
{
}

} // verus!
