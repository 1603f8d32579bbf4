use treasure_island_client::screen::Screen;
use treasure_island_client::shared_state::{InboundFrame, SharedState};

fn frame(tag: u8, fill: impl Fn(usize) -> u8) -> Vec<u8> {
    let mut bytes = vec![tag];
    for i in 0..400 {
        bytes.push(fill(i));
    }
    bytes
}

#[test]
fn store_starts_zeroed_on_username_prompt() {
    let s = SharedState::new();
    assert_eq!(s.read_tile_map(), [0u8; 400]);
    assert_eq!(s.get_mode(), Screen::UsernamePrompt);
}

#[test]
fn write_and_read_tile_map() {
    let mut s = SharedState::new();
    let mut map = [0u8; 400];
    map[0] = 3;
    map[399] = 2;
    s.write_tile_map(map);
    assert_eq!(s.read_tile_map(), map);
    assert_eq!(s.get_mode(), Screen::UsernamePrompt);
}

#[test]
fn set_and_get_mode() {
    let mut s = SharedState::new();
    s.set_mode(Screen::WaitingForPlayers);
    assert_eq!(s.get_mode(), Screen::WaitingForPlayers);
    assert_eq!(s.read_tile_map(), [0u8; 400]);
}

#[test]
fn push_map_frame_replaces_tiles_exactly() {
    let mut s = SharedState::new();
    let bytes = frame(1, |i| (i * 7 % 251) as u8);
    s.process_frame(&bytes);
    assert_eq!(&s.read_tile_map()[..], &bytes[1..]);
    assert_eq!(s.get_mode(), Screen::UsernamePrompt);
}

#[test]
fn ignored_frame_changes_nothing() {
    let mut s = SharedState::new();
    let mut map = [0u8; 400];
    map[5] = 1;
    s.write_tile_map(map);
    s.set_mode(Screen::WaitingForPlayers);
    s.process_frame(&frame(0, |_| 9));
    assert_eq!(s.read_tile_map(), map);
    assert_eq!(s.get_mode(), Screen::WaitingForPlayers);
}

#[test]
fn start_game_frame_switches_to_game_whatever_the_data() {
    for tag in [2u8, 3, 200, 255] {
        let mut s = SharedState::new();
        s.set_mode(Screen::WaitingForPlayers);
        s.process_frame(&frame(tag, |i| i as u8));
        assert_eq!(s.get_mode(), Screen::Game);
        assert_eq!(s.read_tile_map(), [0u8; 400]);
    }
}

#[test]
fn start_game_frame_from_username_prompt() {
    let mut s = SharedState::new();
    s.process_frame(&frame(2, |_| 0));
    assert_eq!(s.get_mode(), Screen::Game);
}

#[test]
fn successive_maps_are_never_mixed() {
    let mut s = SharedState::new();
    let frames = [
        frame(1, |_| 1),
        frame(0, |_| 7),
        frame(1, |i| (i % 3) as u8),
        frame(4, |_| 9),
    ];
    let mut last: Vec<u8> = vec![0; 400];
    for f in frames.iter() {
        let decoded = InboundFrame::decode(f);
        s.apply_frame(&decoded);
        if f[0] == 1 {
            last = f[1..].to_vec();
        }
        assert_eq!(&s.read_tile_map()[..], &last[..]);
    }
    assert_eq!(s.get_mode(), Screen::Game);
}
