use dmx_control::{CueEngine, CueError, Universe, UniverseCommand};

fn frame(byte1: u8) -> [u8; 513] {
    let mut f = [0u8; 513];
    f[1] = byte1;
    f
}

fn played(r: Result<UniverseCommand, CueError>) -> (usize, [u8; 513], u32) {
    match r {
        Ok(UniverseCommand::PlayCue { cue_idx, cue_data, fade_time_ms }) => (cue_idx, cue_data, fade_time_ms),
        other => panic!("expected a play command, got {:?}", other),
    }
}

fn engine_abc() -> CueEngine {
    let mut e = CueEngine::new();
    e.record_cue("A", 0, frame(1));
    e.record_cue("B", 0, frame(2));
    e.record_cue("C", 0, frame(3));
    e
}

#[test]
fn recorded_snapshot_is_played_back() {
    let mut u = Universe::new(0);
    u.set_dmx_address(1, 200).unwrap();
    let mut e = CueEngine::new();
    e.record_cue("A", 0, u.snapshot());
    assert_eq!(e.cue(0).unwrap().channels[1], 200);
    let (idx, data, fade) = played(e.go());
    assert_eq!(idx, 0);
    assert_eq!(data[1], 200);
    assert_eq!(fade, 0);
}

#[test]
fn go_and_back_walk_the_sequence() {
    let mut e = engine_abc();
    assert_eq!(e.current(), None);
    assert_eq!(played(e.go()).1[1], 1);
    assert_eq!(e.current(), Some(0));
    assert_eq!(played(e.go()).1[1], 2);
    assert_eq!(e.current(), Some(1));
    assert_eq!(played(e.back()).1[1], 1);
    assert_eq!(e.current(), Some(0));
    assert_eq!(e.back().unwrap_err(), CueError::AlreadyAtFirstCue);
    assert_eq!(e.current(), Some(0));
}

#[test]
fn fourth_go_finds_no_cue() {
    let mut e = engine_abc();
    for i in 0..3 {
        assert_eq!(played(e.go()).0, i);
    }
    assert_eq!(e.go().unwrap_err(), CueError::NoCueAvailable(3));
    assert_eq!(e.current(), Some(2));
}

#[test]
fn back_without_a_played_cue_fails() {
    let mut e = engine_abc();
    assert_eq!(e.back().unwrap_err(), CueError::NoCurrentCue);
    let mut empty = CueEngine::new();
    assert_eq!(empty.go().unwrap_err(), CueError::NoCueAvailable(0));
}

#[test]
fn rerecording_keeps_the_position_in_sequence() {
    let mut e = engine_abc();
    e.record_cue("B", 2500, frame(9));
    assert_eq!(e.len(), 3);
    let b = e.cue(1).unwrap();
    assert_eq!(b.name, "B");
    assert_eq!(b.time_in_ms, 2500);
    assert_eq!(b.channels[1], 9);
    assert_eq!(e.cue(2).unwrap().name, "C");
}

#[test]
fn deleting_a_missing_cue_changes_nothing() {
    let mut e = engine_abc();
    e.go().unwrap();
    assert_eq!(e.delete_cue("Z").unwrap_err(), CueError::NoSuchCue);
    assert_eq!(e.len(), 3);
    assert_eq!(e.cue(0).unwrap().name, "A");
    assert_eq!(e.cue(1).unwrap().name, "B");
    assert_eq!(e.cue(2).unwrap().name, "C");
    assert_eq!(e.current(), Some(0));
}

#[test]
fn deleting_cues_moves_the_position_with_them() {
    let mut e = engine_abc();
    e.go_to_cue("C").unwrap();
    assert_eq!(e.delete_cue("A"), Ok(()));
    assert_eq!(e.current(), Some(1));
    assert_eq!(e.cue(1).unwrap().name, "C");
    assert_eq!(e.delete_cue_idx(1), Ok(()));
    assert_eq!(e.current(), Some(0));
    assert_eq!(e.delete_cue_idx(0), Ok(()));
    assert_eq!(e.current(), None);
    assert_eq!(e.delete_cue_idx(0).unwrap_err(), CueError::IndexOutOfBounds(0));
}

#[test]
fn deleting_the_current_cue_lets_go_play_the_next() {
    let mut e = engine_abc();
    e.go().unwrap();
    e.go().unwrap();
    assert_eq!(e.delete_cue("B"), Ok(()));
    assert_eq!(e.current(), Some(0));
    assert_eq!(played(e.go()).1[1], 3);
}

#[test]
fn go_to_by_name_and_number() {
    let mut e = engine_abc();
    assert_eq!(played(e.go_to_cue("B")).0, 1);
    assert_eq!(e.current(), Some(1));
    assert_eq!(e.go_to_cue("nope").unwrap_err(), CueError::NoSuchCue);
    assert_eq!(played(e.go_to_cue_idx(3)).1[1], 3);
    assert_eq!(e.current(), Some(2));
    assert_eq!(e.go_to_cue_idx(4).unwrap_err(), CueError::CueNumberNotFound(4));
    assert_eq!(e.go_to_cue_idx(0).unwrap_err(), CueError::CueNumberNotFound(0));
    assert_eq!(e.current(), Some(2));
}

#[test]
fn fade_time_travels_with_the_cue() {
    let mut e = CueEngine::new();
    e.record_cue("slow", 4_000, frame(0));
    e.record_cue("huge", (1u64 << 32) + 7, frame(0));
    assert_eq!(played(e.go()).2, 4_000);
    assert_eq!(played(e.go()).2, u32::MAX);
}

#[test]
fn position_can_be_put_back() {
    let mut e = engine_abc();
    e.go().unwrap();
    e.go().unwrap();
    assert_eq!(e.set_position(Some(0)), Ok(()));
    assert_eq!(e.current(), Some(0));
    assert_eq!(e.set_position(Some(3)), Err(CueError::IndexOutOfBounds(3)));
    assert_eq!(e.current(), Some(0));
    assert_eq!(e.set_position(None), Ok(()));
    assert_eq!(played(e.go()).0, 0);
}
