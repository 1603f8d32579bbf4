//! The username prompt: letters typed by the player build a username, and
//! Enter submits it to the server.

use vstd::prelude::*;
use crate::message::{Message, padded, MESSAGE_ACTION_SEND_USERNAME};
use crate::screen::Screen;

verus! {

/// Key code of the Enter key.
pub const KEY_RETURN: u32 = 0x0D;

/// Key code of the A key; the codes of the letters run on to Z.
pub const KEY_A: u32 = 0x61;

/// Key code of the Z key.
pub const KEY_Z: u32 = 0x7A;

/// The longest username that can be typed.
pub const USERNAME_MAX_LENGTH: usize = 10;

/// The character that a key types, if it is a letter key: the upper-case
/// ASCII letter of the key.
pub open spec fn letter_spec(key: u32) -> Option<u8> {
    if KEY_A <= key && key <= KEY_Z {
        Some((key - KEY_A + 0x41) as u8)
    } else {
        None
    }
}

/// Maps a key code to the upper-case ASCII letter it types, if any.
pub fn letter_for_key(key: u32) -> (r: Option<u8>)
    ensures
        r == letter_spec(key),
{
    if KEY_A <= key && key <= KEY_Z {
        Some((key - KEY_A + 0x41) as u8)
    } else {
        None
    }
}

/// The username being typed on the prompt screen.
pub struct UsernamePromptScreen {
    username: Vec<u8>,
}

impl View for UsernamePromptScreen {
    type V = Seq<u8>;

    closed spec fn view(&self) -> Seq<u8> {
        self.username@
    }
}

impl UsernamePromptScreen {
    /// The username is never longer than the cap.
    pub closed spec fn wf(&self) -> bool {
        self.username@.len() <= USERNAME_MAX_LENGTH
    }

    /// A prompt with an empty username.
    pub fn new() -> (r: UsernamePromptScreen)
        ensures
            r.wf(),
            r@ == Seq::<u8>::empty(),
    {
        UsernamePromptScreen { username: Vec::new() }
    }

    /// The username typed so far, as ASCII bytes.
    pub fn username(&self) -> (r: &[u8])
        ensures
            r@ == self@,
    {
        self.username.as_slice()
    }

    /// Handles one key press (`None` for an event that is not a key press).
    ///
    /// Enter with a non-empty username returns the username message to send
    /// and switches to the waiting screen; Enter with an empty username does
    /// nothing. A letter key appends its letter while the username is shorter
    /// than the cap. Any other key does nothing.
    pub fn handle_events(&mut self, pressed_key: Option<u32>, current_screen: &mut Screen) -> (r: Option<Message>)
        requires
            old(self).wf(),
        ensures
            final(self).wf(),
            pressed_key == Some(KEY_RETURN) && old(self)@.len() > 0 ==> {
                &&& r is Some
                &&& r->0.action == MESSAGE_ACTION_SEND_USERNAME
                &&& r->0.data@ == padded(old(self)@)
                &&& *final(current_screen) == Screen::WaitingForPlayers
                &&& final(self)@ == old(self)@
            },
            !(pressed_key == Some(KEY_RETURN) && old(self)@.len() > 0) ==> {
                &&& r is None
                &&& *final(current_screen) == *old(current_screen)
            },
            pressed_key != Some(KEY_RETURN) && old(self)@.len() < USERNAME_MAX_LENGTH
                && pressed_key is Some && letter_spec(pressed_key->0) is Some
                ==> final(self)@ == old(self)@.push(letter_spec(pressed_key->0)->0),
            !(pressed_key != Some(KEY_RETURN) && old(self)@.len() < USERNAME_MAX_LENGTH
                && pressed_key is Some && letter_spec(pressed_key->0) is Some)
                ==> final(self)@ == old(self)@,
    {
        let key = match pressed_key {
            Some(key) => key,
            None => {
                return None;
            },
        };
        if key == KEY_RETURN {
            /* an empty username cannot be submitted */
            if self.username.len() == 0 {
                return None;
            }
            let message = Message::from_username(self.username.as_slice());
            *current_screen = Screen::WaitingForPlayers;
            return Some(message);
        }
        if self.username.len() == USERNAME_MAX_LENGTH {
            return None;
        }
        match letter_for_key(key) {
            Some(letter) => {
                self.username.push(letter);
            },
            None => {},
        }
        None
    }
}

} // verus!
