use vstd::prelude::*;

verus! {

/// What an application asks of the host after handling an event.
#[derive(Debug, Clone, Copy, PartialEq, Eq, Structural)]
pub enum AppAction {
    Nothing,
    RedrawFull,
    ExitToLauncher,
}

} // verus!
