use std::sync::mpsc::channel;
use std::sync::Arc;

use dmx_control::command::{apply_command, Answer};
use dmx_control::{
    drain_commands, process_command, transmit_due, ChannelType, FixtureProfile, PatchedFixture, Universe, UniverseCommand,
    UniverseError, COMMAND_BATCH,
};

fn rgbi_fixture(channel: usize, dmx_start: u16) -> PatchedFixture {
    let profile = Arc::new(FixtureProfile {
        name: "par".to_string(),
        footprint: 4,
        channels: vec![(ChannelType::Intensity, 0), (ChannelType::Red, 1), (ChannelType::Green, 2), (ChannelType::Blue, 3)],
    });
    PatchedFixture { id: "etc/par".to_string(), channel, profile, dmx_start, label: "front".to_string() }
}

#[test]
fn later_write_to_an_address_wins_in_one_drain() {
    let (tx, rx) = channel();
    let mut u = Universe::new(0);
    tx.send(UniverseCommand::SetChannel { channel: 5, value: 10 }).unwrap();
    tx.send(UniverseCommand::SetChannel { channel: 5, value: 20 }).unwrap();
    let (count, errors) = drain_commands(&mut u, &rx, COMMAND_BATCH);
    assert_eq!(count, 2);
    assert!(errors.is_empty());
    assert_eq!(u.channel_value(5), 20);
}

#[test]
fn drain_stops_at_the_batch_limit() {
    let (tx, rx) = channel();
    let mut u = Universe::new(0);
    for v in 1..=5u8 {
        tx.send(UniverseCommand::SetChannel { channel: 1, value: v }).unwrap();
    }
    assert_eq!(drain_commands(&mut u, &rx, 3).0, 3);
    assert_eq!(u.channel_value(1), 3);
    assert_eq!(drain_commands(&mut u, &rx, 3).0, 2);
    assert_eq!(u.channel_value(1), 5);
    assert_eq!(drain_commands(&mut u, &rx, 3).0, 0);
}

#[test]
fn set_then_blackout_keeps_order() {
    let (tx, rx) = channel();
    let mut u = Universe::new(0);
    u.add_fixture(rgbi_fixture(1, 10));
    tx.send(UniverseCommand::SetFixture { fixture_channel: 1, intensity: Some(255), color: Some((1, 2, 3)) }).unwrap();
    tx.send(UniverseCommand::Blackout).unwrap();
    drain_commands(&mut u, &rx, COMMAND_BATCH);
    assert_eq!(&u.snapshot()[10..14], &[0, 1, 2, 3]);
}

#[test]
fn set_multiple_reports_refused_addresses() {
    let mut u = Universe::new(0);
    let errors = process_command(&mut u, UniverseCommand::SetMultiple { changes: vec![(1, 9), (0, 4), (600, 4), (512, 8)] });
    assert_eq!(errors, vec![UniverseError::ReservedAddress, UniverseError::AddressOutOfRange(600)]);
    assert_eq!(u.channel_value(1), 9);
    assert_eq!(u.channel_value(512), 8);
    let errors = process_command(&mut u, UniverseCommand::SetChannel { channel: 513, value: 1 });
    assert_eq!(errors, vec![UniverseError::AddressOutOfRange(513)]);
}

#[test]
fn instant_cue_replaces_buffer() {
    let mut u = Universe::new(0);
    u.set_dmx_address(3, 3).unwrap();
    let mut data = [0u8; 513];
    data[1] = 200;
    assert!(process_command(&mut u, UniverseCommand::PlayCue { cue_idx: 0, cue_data: data, fade_time_ms: 0 }).is_empty());
    assert_eq!(u.snapshot(), data);
    assert!(u.fade.is_none());
}

#[test]
fn timed_cue_fades_linearly_to_its_snapshot() {
    let mut u = Universe::new(0);
    u.set_dmx_address(1, 100).unwrap();
    u.set_dmx_address(2, 0).unwrap();
    let mut data = [0u8; 513];
    data[1] = 0;
    data[2] = 200;
    data[3] = 255;
    process_command(&mut u, UniverseCommand::PlayCue { cue_idx: 0, cue_data: data, fade_time_ms: 100 });
    assert_eq!(u.channel_value(1), 100);
    u.advance_fade(25);
    assert_eq!((u.channel_value(1), u.channel_value(2), u.channel_value(3)), (75, 50, 63));
    u.advance_fade(25);
    assert_eq!((u.channel_value(1), u.channel_value(2), u.channel_value(3)), (50, 100, 127));
    u.advance_fade(30);
    assert_eq!((u.channel_value(1), u.channel_value(2), u.channel_value(3)), (20, 160, 204));
    assert!(u.fade.is_some());
    u.advance_fade(25);
    assert_eq!(u.snapshot(), data);
    assert!(u.fade.is_none());
    u.advance_fade(25);
    assert_eq!(u.snapshot(), data);
}

#[test]
fn a_change_ends_a_running_fade() {
    let mut u = Universe::new(0);
    let mut data = [0u8; 513];
    data[1] = 200;
    process_command(&mut u, UniverseCommand::PlayCue { cue_idx: 0, cue_data: data, fade_time_ms: 1000 });
    let (tx, rx) = channel();
    process_command(&mut u, UniverseCommand::GetChannelValue { channel: 1, response: tx });
    assert_eq!(rx.recv().unwrap(), 0);
    assert!(u.fade.is_some());
    process_command(&mut u, UniverseCommand::SetChannel { channel: 2, value: 9 });
    assert!(u.fade.is_none());
    u.advance_fade(500);
    assert_eq!(u.channel_value(1), 0);
    assert_eq!(u.channel_value(2), 9);
}

#[test]
fn set_fixture_on_empty_channel_does_nothing() {
    let mut u = Universe::new(0);
    let before = u.snapshot();
    assert!(process_command(&mut u, UniverseCommand::SetFixture { fixture_channel: 4, intensity: Some(9), color: None }).is_empty());
    assert_eq!(u.snapshot(), before);
}

#[test]
fn queries_answer_on_their_reply_channel() {
    let mut u = Universe::new(0);
    u.add_fixture(rgbi_fixture(1, 10));
    u.set_dmx_address(11, 42).unwrap();

    let (tx, rx) = channel();
    process_command(&mut u, UniverseCommand::GetChannelValue { channel: 11, response: tx });
    assert_eq!(rx.recv().unwrap(), 42);

    let (tx, rx) = channel();
    process_command(&mut u, UniverseCommand::GetChannelValue { channel: 9999, response: tx });
    assert_eq!(rx.recv().unwrap(), 0);

    let (tx, rx) = channel();
    process_command(&mut u, UniverseCommand::GetDMXState(tx));
    assert_eq!(rx.recv().unwrap(), u.snapshot());

    let (tx, rx) = channel();
    process_command(&mut u, UniverseCommand::GetChannels { fixture_channel: 1, response: tx });
    let info = rx.recv().unwrap().unwrap();
    assert_eq!(info[0], ("Intensity".to_string(), 10, 0));
    assert_eq!(info[3], ("Blue".to_string(), 13, 3));

    let (tx, rx) = channel();
    process_command(&mut u, UniverseCommand::GetChannels { fixture_channel: 2, response: tx });
    assert_eq!(rx.recv().unwrap(), None);
}

#[test]
fn reply_to_a_dropped_receiver_is_ignored() {
    let mut u = Universe::new(0);
    let (tx, rx) = channel();
    drop(rx);
    assert!(process_command(&mut u, UniverseCommand::GetChannelValue { channel: 1, response: tx }).is_empty());
}

#[test]
fn frame_is_due_after_twenty_five_ms() {
    assert!(!transmit_due(0));
    assert!(!transmit_due(24_999_999));
    assert!(transmit_due(25_000_000));
    assert!(transmit_due(u64::MAX));
}

#[test]
fn drain_returns_the_errors_in_order() {
    let (tx, rx) = channel();
    let mut u = Universe::new(0);
    tx.send(UniverseCommand::SetChannel { channel: 0, value: 1 }).unwrap();
    tx.send(UniverseCommand::SetChannel { channel: 4, value: 1 }).unwrap();
    tx.send(UniverseCommand::SetMultiple { changes: vec![(700, 1)] }).unwrap();
    let (count, errors) = drain_commands(&mut u, &rx, COMMAND_BATCH);
    assert_eq!(count, 3);
    assert_eq!(errors, vec![UniverseError::ReservedAddress, UniverseError::AddressOutOfRange(700)]);
}

#[test]
fn set_fixture_reports_missing_kinds_and_refused_addresses() {
    let mut u = Universe::new(0);
    let profile = Arc::new(FixtureProfile { name: "dim".to_string(), footprint: 2, channels: vec![(ChannelType::Intensity, 0), (ChannelType::Green, 1)] });
    u.add_fixture(PatchedFixture { id: "x/y".to_string(), channel: 2, profile, dmx_start: 512, label: "l".to_string() });
    let errors = process_command(&mut u, UniverseCommand::SetFixture { fixture_channel: 2, intensity: Some(7), color: Some((1, 2, 3)) });
    assert_eq!(
        errors,
        vec![
            UniverseError::UnsupportedKind { fixture_channel: 2, kind: ChannelType::Red },
            UniverseError::UnsupportedKind { fixture_channel: 2, kind: ChannelType::Blue },
            UniverseError::AddressOutOfRange(513),
        ]
    );
    assert_eq!(u.channel_value(512), 7);
}

#[test]
fn blackout_command_reports_refused_addresses() {
    let mut u = Universe::new(0);
    u.add_fixture(rgbi_fixture(0, 0));
    u.add_fixture(rgbi_fixture(1, 10));
    u.set_dmx_address(10, 5).unwrap();
    assert_eq!(process_command(&mut u, UniverseCommand::Blackout), vec![UniverseError::ReservedAddress]);
    assert_eq!(u.channel_value(10), 0);
}

#[test]
fn queries_owe_an_exact_answer() {
    let mut u = Universe::new(0);
    u.set_dmx_address(8, 33).unwrap();
    let (tx, _rx) = channel();
    match apply_command(&mut u, UniverseCommand::GetChannelValue { channel: 8, response: tx }) {
        (errors, Some(Answer::ChannelValue { value, .. })) => {
            assert!(errors.is_empty());
            assert_eq!(value, 33);
        }
        _ => panic!("expected a channel value answer"),
    }
    let (tx, _rx) = channel();
    match apply_command(&mut u, UniverseCommand::GetDMXState(tx)) {
        (_, Some(Answer::DmxState { state, .. })) => assert_eq!(state[8], 33),
        _ => panic!("expected a state answer"),
    }
    assert!(apply_command(&mut u, UniverseCommand::Blackout).1.is_none());
}
