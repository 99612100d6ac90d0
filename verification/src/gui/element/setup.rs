//! The wallet setup wizard.

use vstd::prelude::*;

pub mod wallet;

verus! {

/// The step of the wizard that is shown.
#[derive(Debug, Clone, Copy, PartialEq, Eq, Structural)]
pub enum Mode {
    /// The first step, where the wizard starts.
    Init,
    /// The step that asks for the password of the new wallet.
    CreateWallet,
}

/// The state of the wizard as a whole.
#[derive(Debug)]
pub struct StateContainer {
    pub mode: Mode,
}

impl Default for StateContainer {
    fn default() -> (state: StateContainer)
        ensures
            state.mode == Mode::Init,
    {
        StateContainer { mode: Mode::Init }
    }
}

} // verus!
