use dmx_control::ofl::{name_matches, OflCapability, OflChannel, OflFixture, OflMeta, OflMode};
use dmx_control::{ChannelType, FixtureProfile};

fn capability(kind: &str, color: Option<&str>) -> OflCapability {
    OflCapability {
        dmx_range: None,
        capability_type: kind.to_string(),
        color: color.map(|c| c.to_string()),
        colors: None,
        comment: None,
    }
}

fn single(cap: OflCapability) -> OflChannel {
    OflChannel { fine_channel_aliases: None, capability: Some(cap), capabilities: None }
}

fn several(caps: Vec<OflCapability>) -> OflChannel {
    OflChannel { fine_channel_aliases: None, capability: None, capabilities: Some(caps) }
}

fn bare() -> OflChannel {
    OflChannel { fine_channel_aliases: None, capability: None, capabilities: None }
}

fn definition(channels: Vec<(&str, OflChannel)>) -> OflFixture {
    OflFixture {
        schema: None,
        name: "ColorSource PAR".to_string(),
        short_name: None,
        categories: vec![],
        meta: OflMeta { authors: vec![], create_date: "2020-01-01".to_string(), last_modify_date: "2020-01-01".to_string() },
        links: None,
        rdm: None,
        available_channels: channels.into_iter().map(|(n, c)| (n.to_string(), c)).collect(),
        modes: vec![],
        fixture_key: "colorsource-par".to_string(),
        manufacturer_key: "etc".to_string(),
        ofl_url: None,
    }
}

fn mode(name: &str, channels: &[&str]) -> OflMode {
    OflMode {
        name: name.to_string(),
        short_name: name.to_string(),
        rdm_personality_index: None,
        channels: channels.iter().map(|c| c.to_string()).collect(),
    }
}

fn offset(p: &FixtureProfile, k: ChannelType) -> Option<u8> {
    p.offset(&k)
}

#[test]
fn channel_names_ignore_case() {
    assert_eq!(ChannelType::from_ofl_channel_name("Red"), ChannelType::Red);
    assert_eq!(ChannelType::from_ofl_channel_name("RED"), ChannelType::Red);
    assert_eq!(ChannelType::from_ofl_channel_name("Pan Fine"), ChannelType::PanFine);
    assert_eq!(ChannelType::from_ofl_channel_name("WarmWhite"), ChannelType::WarmWhite);
    assert_eq!(ChannelType::from_ofl_channel_name("warm white"), ChannelType::WarmWhite);
    assert_eq!(ChannelType::from_ofl_channel_name("Sound Sensitivity"), ChannelType::SoundSensitivity);
    assert_eq!(ChannelType::from_ofl_channel_name("Shutter / Strobe"), ChannelType::Custom("Shutter / Strobe".to_string()));
}

#[test]
fn lowercase_name_table() {
    assert_eq!(ChannelType::from_lowercase_name("gobo rotation", "Gobo Rotation"), ChannelType::GoboRotation);
    assert_eq!(ChannelType::from_lowercase_name("xyz", "XYZ"), ChannelType::Custom("XYZ".to_string()));
}

#[test]
fn capability_types_are_case_sensitive() {
    assert_eq!(ChannelType::from_ofl_capability_type("Intensity"), ChannelType::Intensity);
    assert_eq!(ChannelType::from_ofl_capability_type("ColorIntensity"), ChannelType::Intensity);
    assert_eq!(ChannelType::from_ofl_capability_type("PanContinuous"), ChannelType::Pan);
    assert_eq!(ChannelType::from_ofl_capability_type("TiltContinuous"), ChannelType::Tilt);
    assert_eq!(ChannelType::from_ofl_capability_type("ColorPreset"), ChannelType::ColorMacros);
    assert_eq!(ChannelType::from_ofl_capability_type("StrobeDuration"), ChannelType::Strobe);
    assert_eq!(ChannelType::from_ofl_capability_type("Generic"), ChannelType::Custom("Generic".to_string()));
    assert_eq!(ChannelType::from_ofl_capability_type("intensity"), ChannelType::Custom("intensity".to_string()));
}

#[test]
fn custom_kinds_compare_by_name() {
    assert!(ChannelType::Custom("a".to_string()) == ChannelType::Custom("a".to_string()));
    assert!(ChannelType::Custom("a".to_string()) != ChannelType::Custom("b".to_string()));
    assert!(ChannelType::Red != ChannelType::Green);
    assert!(ChannelType::Custom("Red".to_string()) != ChannelType::Red);
    assert_eq!(ChannelType::PanFine.label(), "PanFine");
    assert_eq!(ChannelType::Custom("Macro".to_string()).label(), "Macro");
}

#[test]
fn profile_of_a_five_channel_mode() {
    let fx = definition(vec![
        ("Red", single(capability("ColorIntensity", Some("Red")))),
        ("Green", single(capability("ColorIntensity", Some("Green")))),
        ("Blue", single(capability("ColorIntensity", Some("Blue")))),
        ("Lime", single(capability("ColorIntensity", Some("Lime")))),
        ("Dimmer", single(capability("Intensity", None))),
    ]);
    let m = mode("5 Channel (Default)", &["Red", "Green", "Blue", "Lime", "Dimmer"]);
    let p = FixtureProfile::from_ofl_fixture(&fx, &m);
    assert_eq!(p.name, "ColorSource PAR (5 Channel (Default))");
    assert_eq!(p.footprint, 5);
    assert_eq!(offset(&p, ChannelType::Red), Some(0));
    assert_eq!(offset(&p, ChannelType::Green), Some(1));
    assert_eq!(offset(&p, ChannelType::Blue), Some(2));
    assert_eq!(offset(&p, ChannelType::Lime), Some(3));
    assert_eq!(offset(&p, ChannelType::Dimmer), Some(4));
    assert_eq!(offset(&p, ChannelType::Intensity), None);
    assert_eq!(p.channels.len(), 5);
    assert!(p.channels.iter().all(|(_, o)| (*o as usize) < m.channels.len()));
}

#[test]
fn resolution_falls_back_through_capabilities() {
    let fx = definition(vec![
        ("Master", single(capability("Intensity", None))),
        ("Color 1", single(capability("ColorIntensity", Some("Amber")))),
        ("Color 2", single(capability("ColorIntensity", None))),
        ("Movement", several(vec![capability("TiltContinuous", None), capability("Pan", None)])),
        ("Effect", several(vec![])),
        ("Mystery", bare()),
        ("Gizmo", single(capability("Rotation", None))),
    ]);
    let m = mode("all", &["Master", "Color 1", "Color 2", "Movement", "Effect", "Mystery", "Gizmo", "Absent"]);
    let p = FixtureProfile::from_ofl_fixture(&fx, &m);
    assert_eq!(p.footprint, 8);
    assert_eq!(offset(&p, ChannelType::Intensity), Some(2));
    assert_eq!(offset(&p, ChannelType::Amber), Some(1));
    assert_eq!(offset(&p, ChannelType::Tilt), Some(3));
    assert_eq!(offset(&p, ChannelType::Custom("Effect".to_string())), Some(4));
    assert_eq!(offset(&p, ChannelType::Custom("Mystery".to_string())), Some(5));
    assert_eq!(offset(&p, ChannelType::Custom("Rotation".to_string())), Some(6));
    assert_eq!(offset(&p, ChannelType::Custom("Absent".to_string())), None);
    assert_eq!(p.channels.len(), 6);
}

#[test]
fn later_channel_of_the_same_kind_wins() {
    let fx = definition(vec![("Dimmer", bare()), ("dimmer", bare())]);
    let p = FixtureProfile::from_ofl_fixture(&fx, &mode("m", &["Dimmer", "dimmer"]));
    assert_eq!(offset(&p, ChannelType::Dimmer), Some(1));
    assert_eq!(p.channels.len(), 1);
    assert_eq!(p.footprint, 2);
}

#[test]
fn empty_mode_gives_empty_profile() {
    let fx = definition(vec![("Red", bare())]);
    let p = FixtureProfile::from_ofl_fixture(&fx, &mode("none", &[]));
    assert_eq!(p.footprint, 0);
    assert!(p.channels.is_empty());
}

#[test]
fn modes_are_found_by_name() {
    let mut fx = definition(vec![]);
    fx.modes = vec![mode("3ch", &["a", "b", "c"]), mode("5ch", &["a"]), mode("3ch", &[])];
    assert_eq!(fx.mode_index("5ch"), Some(1));
    assert_eq!(fx.mode_index("3ch"), Some(0));
    assert_eq!(fx.mode_index("7ch"), None);
}

#[test]
fn search_ignores_case() {
    assert!(name_matches("ColorSource-PAR", "par"));
    assert!(name_matches("colorsource-par", "PAR"));
    assert!(name_matches("anything", ""));
    assert!(!name_matches("source-four", "par"));
}
