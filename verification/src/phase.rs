//! The phases of the application.

use vstd::prelude::*;

verus! {

/// The stage of the application's life. `Setup` lasts until both pending
/// containers are fully loaded; `Finished` is terminal.
#[derive(Clone, Copy, Debug, PartialEq, Eq, Structural, Hash)]
pub enum ApplicationPhase {
    Setup,
    Finished,
}

impl Default for ApplicationPhase {
    fn default() -> (phase: Self)
        ensures
            phase == ApplicationPhase::Setup,
    {
        ApplicationPhase::Setup
    }
}

impl ApplicationPhase {
    /// Whether no transition leaves this phase.
    pub fn is_terminal(&self) -> (terminal: bool)
        ensures
            terminal == (*self == ApplicationPhase::Finished),
    {
        match self {
            ApplicationPhase::Setup => false,
            ApplicationPhase::Finished => true,
        }
    }
}

} // verus!
