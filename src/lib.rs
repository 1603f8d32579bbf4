//! Client-side core of a networked tile game: the wire codec, the state
//! shared between the network and render threads, and the screen state
//! machine that turns key presses into outbound messages.

pub mod message;
pub mod screen;
pub mod shared_state;
pub mod sprite;
pub mod username_prompt_screen;
pub mod waiting_for_players_screen;
