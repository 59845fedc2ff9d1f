use std::sync::Arc;

use dmx_control::universe::{frame_kind, FrameKind};
use dmx_control::{ChannelType, FixtureInfo, FixtureProfile, PatchedFixture, Universe, UniverseError};

fn profile(channels: Vec<(ChannelType, u8)>) -> Arc<FixtureProfile> {
    let footprint = channels.len() as u8;
    Arc::new(FixtureProfile { name: "test".to_string(), footprint, channels })
}

fn rgbi() -> Arc<FixtureProfile> {
    profile(vec![
        (ChannelType::Intensity, 0),
        (ChannelType::Red, 1),
        (ChannelType::Green, 2),
        (ChannelType::Blue, 3),
    ])
}

fn fixture(channel: usize, dmx_start: u16, profile: Arc<FixtureProfile>) -> PatchedFixture {
    PatchedFixture { id: "maker/light".to_string(), channel, profile, dmx_start, label: "wash".to_string() }
}

#[test]
fn new_universe_is_dark_and_empty() {
    let u = Universe::new(3);
    assert_eq!(u.id, 3);
    assert!(u.fixtures.is_empty());
    assert!(u.snapshot().iter().all(|b| *b == 0));
    assert_eq!(u.snapshot().len(), 513);
}

#[test]
fn set_address_then_read_back() {
    let mut u = Universe::new(0);
    for a in 1..513usize {
        let v = (a % 251) as u8;
        assert_eq!(u.set_dmx_address(a, v), Ok(()));
        assert_eq!(u.channel_value(a), v);
        assert_eq!(u.dmx_buffer[a], v);
    }
}

#[test]
fn set_address_refuses_start_code_and_past_end() {
    let mut u = Universe::new(0);
    u.set_dmx_address(7, 9).unwrap();
    let before = u.snapshot();
    assert_eq!(u.set_dmx_address(0, 5), Err(UniverseError::ReservedAddress));
    assert_eq!(u.set_dmx_address(513, 5), Err(UniverseError::AddressOutOfRange(513)));
    assert_eq!(u.set_dmx_address(10_000, 5), Err(UniverseError::AddressOutOfRange(10_000)));
    assert_eq!(u.snapshot(), before);
    assert_eq!(u.channel_value(513), 0);
}

#[test]
fn add_fixture_grows_table_with_gaps() {
    let mut u = Universe::new(0);
    u.add_fixture(fixture(3, 10, rgbi()));
    assert_eq!(u.fixtures.len(), 4);
    assert!(u.get_fixture(0).is_none());
    assert!(u.get_fixture(2).is_none());
    assert_eq!(u.get_fixture(3).unwrap().dmx_start, 10);
    u.add_fixture(fixture(1, 20, rgbi()));
    assert_eq!(u.fixtures.len(), 4);
    assert_eq!(u.get_fixture(1).unwrap().dmx_start, 20);
    u.add_fixture(fixture(3, 30, rgbi()));
    assert_eq!(u.get_fixture(3).unwrap().dmx_start, 30);
    assert!(u.get_fixture(99).is_none());
}

#[test]
fn from_fixtures_patches_in_order() {
    let u = Universe::from_fixtures(2, vec![fixture(1, 10, rgbi()), fixture(2, 20, rgbi()), fixture(1, 40, rgbi())]);
    assert_eq!(u.id, 2);
    assert_eq!(u.fixtures.len(), 3);
    assert_eq!(u.get_fixture(1).unwrap().dmx_start, 40);
    assert_eq!(u.get_fixture(2).unwrap().dmx_start, 20);
}

#[test]
fn remove_fixture_returns_it() {
    let mut u = Universe::new(0);
    u.add_fixture(fixture(2, 10, rgbi()));
    assert_eq!(u.remove_fixture(2).unwrap().dmx_start, 10);
    assert!(u.get_fixture(2).is_none());
    assert!(u.remove_fixture(2).is_none());
    assert!(u.remove_fixture(50).is_none());
    assert_eq!(u.fixtures.len(), 3);
}

#[test]
fn get_fixture_mut_changes_the_entry() {
    let mut u = Universe::new(0);
    u.add_fixture(fixture(1, 10, rgbi()));
    u.get_fixture_mut(1).unwrap().label = "spot".to_string();
    assert_eq!(u.get_fixture(1).unwrap().label, "spot");
    assert!(u.get_fixture_mut(5).is_none());
}

#[test]
fn fixture_function_lands_at_start_plus_offset() {
    for (start, offset) in [(1u16, 0u8), (10, 3), (500, 12), (1, 255), (257, 255)] {
        let mut u = Universe::new(0);
        u.add_fixture(fixture(4, start, profile(vec![(ChannelType::Pan, offset)])));
        let r = u.set_fixture_values(4, &[(ChannelType::Pan, 77)]);
        assert_eq!(r, Ok(vec![]));
        assert_eq!(u.channel_value(start as usize + offset as usize), 77);
    }
}

#[test]
fn fixture_values_skip_unsupported_kinds() {
    let mut u = Universe::new(0);
    u.add_fixture(fixture(1, 10, profile(vec![(ChannelType::Intensity, 0), (ChannelType::Custom("Shutter".to_string()), 1)])));
    let r = u.set_fixture_values(
        1,
        &[
            (ChannelType::Red, 5),
            (ChannelType::Intensity, 200),
            (ChannelType::Custom("Shutter".to_string()), 9),
            (ChannelType::Custom("shutter".to_string()), 8),
        ],
    );
    assert_eq!(r, Ok(vec![0, 3]));
    assert_eq!(u.channel_value(10), 200);
    assert_eq!(u.channel_value(11), 9);
    assert_eq!(u.channel_value(12), 0);
}

#[test]
fn fixture_values_need_a_fixture() {
    let mut u = Universe::new(0);
    assert_eq!(u.set_fixture_values(1, &[(ChannelType::Red, 5)]), Err(UniverseError::NoFixture(1)));
    assert_eq!(u.set_intensity(0, 5), Err(UniverseError::NoFixture(0)));
    assert_eq!(u.set_rgb(9, 1, 2, 3), Err(UniverseError::NoFixture(9)));
}

#[test]
fn fixture_values_stop_at_a_refused_address() {
    let mut u = Universe::new(0);
    u.add_fixture(fixture(1, 510, rgbi()));
    let r = u.set_rgb(1, 1, 2, 3);
    assert_eq!(r, Err(UniverseError::AddressOutOfRange(513)));
    assert_eq!(u.channel_value(511), 1);
    assert_eq!(u.channel_value(512), 2);
    u.add_fixture(fixture(2, 0, rgbi()));
    assert_eq!(u.set_intensity(2, 9), Err(UniverseError::ReservedAddress));
}

#[test]
fn set_rgb_and_intensity() {
    let mut u = Universe::new(0);
    u.add_fixture(fixture(1, 10, rgbi()));
    assert_eq!(u.set_rgb(1, 255, 128, 7), Ok(()));
    assert_eq!(u.set_intensity(1, 99), Ok(()));
    assert_eq!(&u.snapshot()[10..14], &[99, 255, 128, 7]);
}

#[test]
fn blackout_zeroes_intensity_only() {
    let mut u = Universe::new(0);
    u.add_fixture(fixture(1, 10, rgbi()));
    u.add_fixture(fixture(3, 20, profile(vec![(ChannelType::Red, 0)])));
    u.add_fixture(fixture(5, 30, profile(vec![(ChannelType::Green, 0), (ChannelType::Intensity, 2)])));
    for a in 1..513 {
        u.set_dmx_address(a, 50).unwrap();
    }
    assert_eq!(u.blackout(), Ok(()));
    for a in 1..513usize {
        let expected = if a == 10 || a == 32 { 0 } else { 50 };
        assert_eq!(u.channel_value(a), expected, "address {}", a);
    }
}

#[test]
fn blackout_reports_refused_addresses_and_goes_on() {
    let mut u = Universe::new(0);
    u.add_fixture(fixture(0, 600, rgbi()));
    u.add_fixture(fixture(1, 0, rgbi()));
    u.add_fixture(fixture(2, 10, rgbi()));
    u.set_dmx_address(10, 99).unwrap();
    assert_eq!(u.blackout(), Err(vec![UniverseError::AddressOutOfRange(600), UniverseError::ReservedAddress]));
    assert_eq!(u.channel_value(10), 0);
}

#[test]
fn channel_info_escapes_custom_names() {
    let mut u = Universe::new(0);
    u.add_fixture(fixture(1, 1, profile(vec![(ChannelType::Custom("say \"hi\"\\".to_string()), 0)])));
    let info = u.channel_info(1).unwrap();
    assert_eq!(info[0].0, "Custom(\"say \\\"hi\\\"\\\\\")");
    assert_eq!(info[0].0, format!("{:?}", ChannelType::Custom("say \"hi\"\\".to_string())));
}

#[test]
fn load_whole_buffer() {
    let mut u = Universe::new(0);
    let mut frame = [0u8; 513];
    frame[1] = 1;
    frame[512] = 2;
    u.set_dmx_buffer(&frame);
    assert_eq!(u.snapshot(), frame);
}

#[test]
fn channel_info_lists_profile() {
    let mut u = Universe::new(0);
    u.add_fixture(fixture(2, 10, profile(vec![(ChannelType::Intensity, 0), (ChannelType::Custom("Macro".to_string()), 4)])));
    let info = u.channel_info(2).unwrap();
    assert_eq!(info, vec![("Intensity".to_string(), 10, 0), ("Custom(\"Macro\")".to_string(), 14, 4)]);
    assert!(u.channel_info(1).is_none());
}

#[test]
fn frame_kinds_by_start_code() {
    assert_eq!(frame_kind(0x00), FrameKind::LightingData);
    assert_eq!(frame_kind(0xCC), FrameKind::Rdm);
    assert_eq!(frame_kind(0x17), FrameKind::Text);
    assert_eq!(frame_kind(0x91), FrameKind::Other);
}

#[test]
fn fixture_info_mirrors_the_patch_entry() {
    let f = fixture(3, 40, profile(vec![(ChannelType::Red, 0), (ChannelType::Custom("Macro".to_string()), 5)]));
    let info = FixtureInfo::from_fixture(&f);
    assert_eq!(info.channel, 3);
    assert_eq!(info.label, "wash");
    assert_eq!(info.dmx_start, 40);
    assert_eq!(info.profile_name, "test");
    assert_eq!(info.channels, vec![("Red".to_string(), 0), ("Macro".to_string(), 5)]);
}
