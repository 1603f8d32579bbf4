//! The screen shown while the server waits for the other players. It takes
//! no input: the game screen follows when the server starts the game.

use vstd::prelude::*;

verus! {

/// The waiting screen; it holds no state.
pub struct WaitingForPlayersScreen {}

impl WaitingForPlayersScreen {
    /// The waiting screen.
    pub fn new() -> (r: WaitingForPlayersScreen) {
        WaitingForPlayersScreen {}
    }
}

} // verus!
