//! The screens the client can show; exactly one is active at a time.

use vstd::prelude::*;

verus! {

/// The active UI mode. The game moves forward through these in order:
/// `UsernamePrompt`, then `WaitingForPlayers`, then `Game`.
#[derive(PartialEq, Eq, Structural, Copy, Clone, Debug)]
pub enum Screen {
    UsernamePrompt,
    WaitingForPlayers,
    Game,
}

} // verus!
