//! The state shared by the network thread and the render thread, and the
//! rules by which an inbound server frame changes it.

use vstd::prelude::*;
use crate::screen::Screen;

verus! {

/// Number of cells of the map: 20 columns by 20 rows, row-major.
pub const TILES_AMOUNT: usize = 400;

/// Number of cells in one row of the map.
pub const TILES_PER_LINE: usize = 20;

/// The column and the row of a cell of the map, which is stored row-major.
pub fn tile_cell(index: usize) -> (r: (usize, usize))
    requires
        index < TILES_AMOUNT,
    ensures
        r.0 == index % 20,
        r.1 == index / 20,
        r.0 < TILES_PER_LINE,
        r.1 < TILES_PER_LINE,
        r.1 * 20 + r.0 == index,
{
    (index % TILES_PER_LINE, index / TILES_PER_LINE)
}

/// Size of an inbound frame: the action byte and a full map.
pub const INBOUND_FRAME_LENGTH: usize = 401;

/// Action of an inbound frame that carries nothing.
pub const MESSAGE_ACTION_IGNORED: u8 = 0;

/// Action of an inbound frame that carries a new map.
pub const MESSAGE_ACTION_PUSH_MAP: u8 = 1;

/// A frame received from the server: an action byte and a 400-byte block.
#[derive(Clone, Copy)]
pub struct InboundFrame {
    pub action: u8,
    pub data: [u8; 400],
}

impl InboundFrame {
    /// Reads a frame from its wire form: byte 0 is the action, the
    /// remaining 400 bytes are the data.
    pub fn decode(bytes: &[u8]) -> (r: InboundFrame)
        requires
            bytes@.len() == INBOUND_FRAME_LENGTH,
        ensures
            r.action == bytes@[0],
            r.data@ == bytes@.subrange(1, 401),
    {
        let mut data = [0u8; 400];
        let mut i: usize = 0;
        while i < TILES_AMOUNT
            invariant
                bytes@.len() == INBOUND_FRAME_LENGTH,
                i <= TILES_AMOUNT,
                forall|j: int| 0 <= j < i ==> data@[j] == bytes@[j + 1],
            decreases TILES_AMOUNT - i,
        {
            data.set(i, bytes[i + 1]);
            i = i + 1;
        }
        assert(data@ =~= bytes@.subrange(1, 401));
        InboundFrame { action: bytes[0], data: data }
    }
}

/// What the shared state holds: the tile map and the active screen.
pub struct StateView {
    pub tiles: Seq<u8>,
    pub screen: Screen,
}

/// The effect of one inbound frame: action 0 changes nothing, action 1
/// replaces the whole tile map, and any other action starts the game.
pub open spec fn apply_frame_spec(s: StateView, action: u8, data: Seq<u8>) -> StateView {
    if action == MESSAGE_ACTION_IGNORED {
        s
    } else if action == MESSAGE_ACTION_PUSH_MAP {
        StateView { tiles: data, screen: s.screen }
    } else {
        StateView { tiles: s.tiles, screen: Screen::Game }
    }
}

/// The state after a sequence of frames, applied in order.
pub open spec fn apply_frames_spec(s: StateView, frames: Seq<InboundFrame>) -> StateView
    decreases frames.len(),
{
    if frames.len() == 0 {
        s
    } else {
        let last = frames.last();
        apply_frame_spec(apply_frames_spec(s, frames.drop_last()), last.action, last.data@)
    }
}

/// After any sequence of frames the tile map is never a mix of two frames:
/// it is either the map that was there before, or, whole, the data of one
/// of the map frames of the sequence.
pub proof fn lemma_tiles_never_mixed(s: StateView, frames: Seq<InboundFrame>)
    ensures
        apply_frames_spec(s, frames).tiles == s.tiles || exists|j: int|
            0 <= j < frames.len() && frames[j].action == MESSAGE_ACTION_PUSH_MAP
                && apply_frames_spec(s, frames).tiles == #[trigger] frames[j].data@,
    decreases frames.len(),
{
    if frames.len() > 0 {
        let prefix = frames.drop_last();
        lemma_tiles_never_mixed(s, prefix);
        let last = frames.last();
        if last.action == MESSAGE_ACTION_PUSH_MAP {
            assert(frames[frames.len() - 1].data@ == last.data@);
        } else if apply_frames_spec(s, prefix).tiles != s.tiles {
            let j = choose|j: int|
                0 <= j < prefix.len() && prefix[j].action == MESSAGE_ACTION_PUSH_MAP
                    && apply_frames_spec(s, prefix).tiles == #[trigger] prefix[j].data@;
            assert(frames[j] == prefix[j]);
        }
    }
}

/// The tile map and the active screen, as shared between the network thread
/// (which writes whole maps and starts the game) and the render thread.
pub struct SharedState {
    tiles: [u8; 400],
    screen: Screen,
}

impl View for SharedState {
    type V = StateView;

    closed spec fn view(&self) -> StateView {
        StateView { tiles: self.tiles@, screen: self.screen }
    }
}

impl SharedState {
    /// The state at startup: an all-zero map and the username prompt.
    pub fn new() -> (r: SharedState)
        ensures
            r@.tiles == Seq::new(400, |_i: int| 0u8),
            r@.screen == Screen::UsernamePrompt,
    {
        let r = SharedState { tiles: [0u8; 400], screen: Screen::UsernamePrompt };
        assert(r@.tiles =~= Seq::new(400, |_i: int| 0u8));
        r
    }

    /// Replaces the whole tile map with a snapshot.
    pub fn write_tile_map(&mut self, snapshot: [u8; 400])
        ensures
            final(self)@.tiles == snapshot@,
            final(self)@.screen == old(self)@.screen,
    {
        self.tiles = snapshot;
    }

    /// A copy of the whole tile map.
    pub fn read_tile_map(&self) -> (r: [u8; 400])
        ensures
            r@ == self@.tiles,
    {
        self.tiles
    }

    /// Makes `screen` the active screen.
    pub fn set_mode(&mut self, screen: Screen)
        ensures
            final(self)@.screen == screen,
            final(self)@.tiles == old(self)@.tiles,
    {
        self.screen = screen;
    }

    /// The active screen.
    pub fn get_mode(&self) -> (r: Screen)
        ensures
            r == self@.screen,
    {
        self.screen
    }

    /// Applies one inbound frame: action 0 is dropped, action 1 writes its
    /// data as the new tile map, and any other action switches to the game
    /// screen whatever the data holds.
    pub fn apply_frame(&mut self, frame: &InboundFrame)
        ensures
            final(self)@ == apply_frame_spec(old(self)@, frame.action, frame.data@),
    {
        if frame.action == MESSAGE_ACTION_IGNORED {
            return;
        }
        if frame.action == MESSAGE_ACTION_PUSH_MAP {
            self.write_tile_map(frame.data);
            return;
        }
        self.set_mode(Screen::Game);
    }

    /// Decodes a 401-byte frame read from the server and applies it.
    pub fn process_frame(&mut self, bytes: &[u8])
        requires
            bytes@.len() == INBOUND_FRAME_LENGTH,
        ensures
            final(self)@ == apply_frame_spec(old(self)@, bytes@[0], bytes@.subrange(1, 401)),
    {
        let frame = InboundFrame::decode(bytes);
        self.apply_frame(&frame);
    }
}

} // verus!
