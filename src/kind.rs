use vstd::prelude::*;

use vstd::string::StringExecFns;

use crate::text::same_text;

verus! {

/// The lighting function that one DMX channel of a fixture controls.
///
/// The closed variants cover the common functions; `Custom` carries any
/// other function by name, and two custom kinds are equal exactly when
/// their names are.
#[derive(Clone, Debug, Eq, Hash)]
pub enum ChannelType {
    // Colour channels
    Red,
    Green,
    Blue,
    Amber,
    Lime,
    Cyan,
    Magenta,
    Yellow,
    White,
    WarmWhite,
    CoolWhite,
    Uv,
    // Movement
    Pan,
    Tilt,
    PanFine,
    TiltFine,
    // General
    Intensity,
    Dimmer,
    Strobe,
    // Colour mixing and selection
    ColorMacros,
    ColorTemperature,
    Hue,
    Saturation,
    // Effects
    Gobo,
    GoboRotation,
    Prism,
    Iris,
    Focus,
    Zoom,
    Frost,
    // Control
    ModeSelect,
    Speed,
    SoundSensitivity,
    // Anything else, by name
    Custom(String),
}

impl PartialEq for ChannelType {
    fn eq(&self, other: &ChannelType) -> bool {
        self.same_kind(other)
    }
}

impl vstd::std_specs::cmp::PartialEqSpecImpl for ChannelType {
    open spec fn obeys_eq_spec() -> bool {
        true
    }

    open spec fn eq_spec(&self, other: &ChannelType) -> bool {
        self@ == other@
    }
}

/// What a `ChannelType` stands for: the same variants, with a custom
/// kind's name as a sequence of characters.
pub enum KindView {
    Red,
    Green,
    Blue,
    Amber,
    Lime,
    Cyan,
    Magenta,
    Yellow,
    White,
    WarmWhite,
    CoolWhite,
    Uv,
    Pan,
    Tilt,
    PanFine,
    TiltFine,
    Intensity,
    Dimmer,
    Strobe,
    ColorMacros,
    ColorTemperature,
    Hue,
    Saturation,
    Gobo,
    GoboRotation,
    Prism,
    Iris,
    Focus,
    Zoom,
    Frost,
    ModeSelect,
    Speed,
    SoundSensitivity,
    Custom(Seq<char>),
}

impl View for ChannelType {
    type V = KindView;

    open spec fn view(&self) -> KindView {
        match self {
            ChannelType::Red => KindView::Red,
            ChannelType::Green => KindView::Green,
            ChannelType::Blue => KindView::Blue,
            ChannelType::Amber => KindView::Amber,
            ChannelType::Lime => KindView::Lime,
            ChannelType::Cyan => KindView::Cyan,
            ChannelType::Magenta => KindView::Magenta,
            ChannelType::Yellow => KindView::Yellow,
            ChannelType::White => KindView::White,
            ChannelType::WarmWhite => KindView::WarmWhite,
            ChannelType::CoolWhite => KindView::CoolWhite,
            ChannelType::Uv => KindView::Uv,
            ChannelType::Pan => KindView::Pan,
            ChannelType::Tilt => KindView::Tilt,
            ChannelType::PanFine => KindView::PanFine,
            ChannelType::TiltFine => KindView::TiltFine,
            ChannelType::Intensity => KindView::Intensity,
            ChannelType::Dimmer => KindView::Dimmer,
            ChannelType::Strobe => KindView::Strobe,
            ChannelType::ColorMacros => KindView::ColorMacros,
            ChannelType::ColorTemperature => KindView::ColorTemperature,
            ChannelType::Hue => KindView::Hue,
            ChannelType::Saturation => KindView::Saturation,
            ChannelType::Gobo => KindView::Gobo,
            ChannelType::GoboRotation => KindView::GoboRotation,
            ChannelType::Prism => KindView::Prism,
            ChannelType::Iris => KindView::Iris,
            ChannelType::Focus => KindView::Focus,
            ChannelType::Zoom => KindView::Zoom,
            ChannelType::Frost => KindView::Frost,
            ChannelType::ModeSelect => KindView::ModeSelect,
            ChannelType::Speed => KindView::Speed,
            ChannelType::SoundSensitivity => KindView::SoundSensitivity,
            ChannelType::Custom(name) => KindView::Custom(name@),
        }
    }
}

impl ChannelType {
    /// Whether two kinds are the same function (custom kinds by name).
    pub fn same_kind(&self, other: &ChannelType) -> (r: bool)
        ensures
            r == (self@ == other@),
    {
        match self {
            ChannelType::Red => matches!(other, ChannelType::Red),
            ChannelType::Green => matches!(other, ChannelType::Green),
            ChannelType::Blue => matches!(other, ChannelType::Blue),
            ChannelType::Amber => matches!(other, ChannelType::Amber),
            ChannelType::Lime => matches!(other, ChannelType::Lime),
            ChannelType::Cyan => matches!(other, ChannelType::Cyan),
            ChannelType::Magenta => matches!(other, ChannelType::Magenta),
            ChannelType::Yellow => matches!(other, ChannelType::Yellow),
            ChannelType::White => matches!(other, ChannelType::White),
            ChannelType::WarmWhite => matches!(other, ChannelType::WarmWhite),
            ChannelType::CoolWhite => matches!(other, ChannelType::CoolWhite),
            ChannelType::Uv => matches!(other, ChannelType::Uv),
            ChannelType::Pan => matches!(other, ChannelType::Pan),
            ChannelType::Tilt => matches!(other, ChannelType::Tilt),
            ChannelType::PanFine => matches!(other, ChannelType::PanFine),
            ChannelType::TiltFine => matches!(other, ChannelType::TiltFine),
            ChannelType::Intensity => matches!(other, ChannelType::Intensity),
            ChannelType::Dimmer => matches!(other, ChannelType::Dimmer),
            ChannelType::Strobe => matches!(other, ChannelType::Strobe),
            ChannelType::ColorMacros => matches!(other, ChannelType::ColorMacros),
            ChannelType::ColorTemperature => matches!(other, ChannelType::ColorTemperature),
            ChannelType::Hue => matches!(other, ChannelType::Hue),
            ChannelType::Saturation => matches!(other, ChannelType::Saturation),
            ChannelType::Gobo => matches!(other, ChannelType::Gobo),
            ChannelType::GoboRotation => matches!(other, ChannelType::GoboRotation),
            ChannelType::Prism => matches!(other, ChannelType::Prism),
            ChannelType::Iris => matches!(other, ChannelType::Iris),
            ChannelType::Focus => matches!(other, ChannelType::Focus),
            ChannelType::Zoom => matches!(other, ChannelType::Zoom),
            ChannelType::Frost => matches!(other, ChannelType::Frost),
            ChannelType::ModeSelect => matches!(other, ChannelType::ModeSelect),
            ChannelType::Speed => matches!(other, ChannelType::Speed),
            ChannelType::SoundSensitivity => matches!(other, ChannelType::SoundSensitivity),
            ChannelType::Custom(a) => match other {
                ChannelType::Custom(b) => same_text(a.as_str(), b.as_str()),
                _ => false,
            },
        }
    }

    /// The kind as its `Debug` form prints it: the variant's name, and for
    /// a custom kind `Custom("<name>")` with the name quoted and escaped.
    pub fn debug_label(&self) -> (r: String)
        ensures
            r@ == debug_label(self@),
    {
        match self {
            ChannelType::Custom(name) => {
                let q = quoted(name.as_str());
                custom_debug_label(q.as_str())
            },
            _ => self.label(),
        }
    }

    /// The kind's name: the variant's name, or a custom kind's own name.
    pub fn label(&self) -> (r: String)
        ensures
            r@ == kind_label(self@),
    {
        match self {
            ChannelType::Red => "Red".to_string(),
            ChannelType::Green => "Green".to_string(),
            ChannelType::Blue => "Blue".to_string(),
            ChannelType::Amber => "Amber".to_string(),
            ChannelType::Lime => "Lime".to_string(),
            ChannelType::Cyan => "Cyan".to_string(),
            ChannelType::Magenta => "Magenta".to_string(),
            ChannelType::Yellow => "Yellow".to_string(),
            ChannelType::White => "White".to_string(),
            ChannelType::WarmWhite => "WarmWhite".to_string(),
            ChannelType::CoolWhite => "CoolWhite".to_string(),
            ChannelType::Uv => "Uv".to_string(),
            ChannelType::Pan => "Pan".to_string(),
            ChannelType::Tilt => "Tilt".to_string(),
            ChannelType::PanFine => "PanFine".to_string(),
            ChannelType::TiltFine => "TiltFine".to_string(),
            ChannelType::Intensity => "Intensity".to_string(),
            ChannelType::Dimmer => "Dimmer".to_string(),
            ChannelType::Strobe => "Strobe".to_string(),
            ChannelType::ColorMacros => "ColorMacros".to_string(),
            ChannelType::ColorTemperature => "ColorTemperature".to_string(),
            ChannelType::Hue => "Hue".to_string(),
            ChannelType::Saturation => "Saturation".to_string(),
            ChannelType::Gobo => "Gobo".to_string(),
            ChannelType::GoboRotation => "GoboRotation".to_string(),
            ChannelType::Prism => "Prism".to_string(),
            ChannelType::Iris => "Iris".to_string(),
            ChannelType::Focus => "Focus".to_string(),
            ChannelType::Zoom => "Zoom".to_string(),
            ChannelType::Frost => "Frost".to_string(),
            ChannelType::ModeSelect => "ModeSelect".to_string(),
            ChannelType::Speed => "Speed".to_string(),
            ChannelType::SoundSensitivity => "SoundSensitivity".to_string(),
            ChannelType::Custom(name) => name.clone(),
        }
    }

    /// The kind that a capability type string of a fixture definition
    /// names. The match is case-sensitive; any other string becomes a
    /// custom kind carrying that string.
    pub fn from_ofl_capability_type(capability_type: &str) -> (r: ChannelType)
        ensures
            r@ == kind_of_capability_type(capability_type@),
    {
        if same_text(capability_type, "Intensity") {
            ChannelType::Intensity
        } else if same_text(capability_type, "ColorIntensity") {
            ChannelType::Intensity
        } else if same_text(capability_type, "Pan") {
            ChannelType::Pan
        } else if same_text(capability_type, "Tilt") {
            ChannelType::Tilt
        } else if same_text(capability_type, "PanContinuous") {
            ChannelType::Pan
        } else if same_text(capability_type, "TiltContinuous") {
            ChannelType::Tilt
        } else if same_text(capability_type, "ColorPreset") {
            ChannelType::ColorMacros
        } else if same_text(capability_type, "ColorTemperature") {
            ChannelType::ColorTemperature
        } else if same_text(capability_type, "Strobe") {
            ChannelType::Strobe
        } else if same_text(capability_type, "StrobeSpeed") {
            ChannelType::Strobe
        } else if same_text(capability_type, "StrobeDuration") {
            ChannelType::Strobe
        } else {
            ChannelType::Custom(capability_type.to_string())
        }
    }

    /// The kind that a channel name of a fixture definition names, matched
    /// without regard to case; any other name becomes a custom kind
    /// carrying the name as it was given.
    pub fn from_ofl_channel_name(channel_name: &str) -> (r: ChannelType)
        ensures
            r@ == kind_of_channel_name(channel_name@),
    {
        let lowered = lowercase(channel_name);
        ChannelType::from_lowercase_name(lowered.as_str(), channel_name)
    }

    /// The kind for a channel name whose lowercase form is `lowered`: the
    /// entry of the name table, or else a custom kind carrying `original`.
    pub fn from_lowercase_name(lowered: &str, original: &str) -> (r: ChannelType)
        ensures
            r@ == (match name_table(lowered@) {
                Some(k) => k,
                None => KindView::Custom(original@),
            }),
    {
        if same_text(lowered, "red") {
            ChannelType::Red
        } else if same_text(lowered, "green") {
            ChannelType::Green
        } else if same_text(lowered, "blue") {
            ChannelType::Blue
        } else if same_text(lowered, "amber") {
            ChannelType::Amber
        } else if same_text(lowered, "lime") {
            ChannelType::Lime
        } else if same_text(lowered, "cyan") {
            ChannelType::Cyan
        } else if same_text(lowered, "magenta") {
            ChannelType::Magenta
        } else if same_text(lowered, "yellow") {
            ChannelType::Yellow
        } else if same_text(lowered, "white") {
            ChannelType::White
        } else if same_text(lowered, "warm white") {
            ChannelType::WarmWhite
        } else if same_text(lowered, "warmwhite") {
            ChannelType::WarmWhite
        } else if same_text(lowered, "cool white") {
            ChannelType::CoolWhite
        } else if same_text(lowered, "coolwhite") {
            ChannelType::CoolWhite
        } else if same_text(lowered, "uv") {
            ChannelType::Uv
        } else if same_text(lowered, "pan") {
            ChannelType::Pan
        } else if same_text(lowered, "tilt") {
            ChannelType::Tilt
        } else if same_text(lowered, "pan fine") {
            ChannelType::PanFine
        } else if same_text(lowered, "tilt fine") {
            ChannelType::TiltFine
        } else if same_text(lowered, "intensity") {
            ChannelType::Intensity
        } else if same_text(lowered, "dimmer") {
            ChannelType::Dimmer
        } else if same_text(lowered, "strobe") {
            ChannelType::Strobe
        } else if same_text(lowered, "color macros") {
            ChannelType::ColorMacros
        } else if same_text(lowered, "color temperature") {
            ChannelType::ColorTemperature
        } else if same_text(lowered, "hue") {
            ChannelType::Hue
        } else if same_text(lowered, "saturation") {
            ChannelType::Saturation
        } else if same_text(lowered, "gobo") {
            ChannelType::Gobo
        } else if same_text(lowered, "gobo rotation") {
            ChannelType::GoboRotation
        } else if same_text(lowered, "prism") {
            ChannelType::Prism
        } else if same_text(lowered, "iris") {
            ChannelType::Iris
        } else if same_text(lowered, "focus") {
            ChannelType::Focus
        } else if same_text(lowered, "zoom") {
            ChannelType::Zoom
        } else if same_text(lowered, "frost") {
            ChannelType::Frost
        } else if same_text(lowered, "mode select") {
            ChannelType::ModeSelect
        } else if same_text(lowered, "speed") {
            ChannelType::Speed
        } else if same_text(lowered, "sound sensitivity") {
            ChannelType::SoundSensitivity
        } else {
            ChannelType::Custom(original.to_string())
        }
    }
}

/// The name of a kind: the variant's name, or a custom kind's own name.
pub open spec fn kind_label(k: KindView) -> Seq<char> {
    match k {
        KindView::Red => "Red"@,
        KindView::Green => "Green"@,
        KindView::Blue => "Blue"@,
        KindView::Amber => "Amber"@,
        KindView::Lime => "Lime"@,
        KindView::Cyan => "Cyan"@,
        KindView::Magenta => "Magenta"@,
        KindView::Yellow => "Yellow"@,
        KindView::White => "White"@,
        KindView::WarmWhite => "WarmWhite"@,
        KindView::CoolWhite => "CoolWhite"@,
        KindView::Uv => "Uv"@,
        KindView::Pan => "Pan"@,
        KindView::Tilt => "Tilt"@,
        KindView::PanFine => "PanFine"@,
        KindView::TiltFine => "TiltFine"@,
        KindView::Intensity => "Intensity"@,
        KindView::Dimmer => "Dimmer"@,
        KindView::Strobe => "Strobe"@,
        KindView::ColorMacros => "ColorMacros"@,
        KindView::ColorTemperature => "ColorTemperature"@,
        KindView::Hue => "Hue"@,
        KindView::Saturation => "Saturation"@,
        KindView::Gobo => "Gobo"@,
        KindView::GoboRotation => "GoboRotation"@,
        KindView::Prism => "Prism"@,
        KindView::Iris => "Iris"@,
        KindView::Focus => "Focus"@,
        KindView::Zoom => "Zoom"@,
        KindView::Frost => "Frost"@,
        KindView::ModeSelect => "ModeSelect"@,
        KindView::Speed => "Speed"@,
        KindView::SoundSensitivity => "SoundSensitivity"@,
        KindView::Custom(name) => name,
    }
}

/// The entry of the fixed name table for a lowercase channel name.
pub open spec fn name_table(lowered: Seq<char>) -> Option<KindView> {
    if lowered == "red"@ {
        Some(KindView::Red)
    } else if lowered == "green"@ {
        Some(KindView::Green)
    } else if lowered == "blue"@ {
        Some(KindView::Blue)
    } else if lowered == "amber"@ {
        Some(KindView::Amber)
    } else if lowered == "lime"@ {
        Some(KindView::Lime)
    } else if lowered == "cyan"@ {
        Some(KindView::Cyan)
    } else if lowered == "magenta"@ {
        Some(KindView::Magenta)
    } else if lowered == "yellow"@ {
        Some(KindView::Yellow)
    } else if lowered == "white"@ {
        Some(KindView::White)
    } else if lowered == "warm white"@ {
        Some(KindView::WarmWhite)
    } else if lowered == "warmwhite"@ {
        Some(KindView::WarmWhite)
    } else if lowered == "cool white"@ {
        Some(KindView::CoolWhite)
    } else if lowered == "coolwhite"@ {
        Some(KindView::CoolWhite)
    } else if lowered == "uv"@ {
        Some(KindView::Uv)
    } else if lowered == "pan"@ {
        Some(KindView::Pan)
    } else if lowered == "tilt"@ {
        Some(KindView::Tilt)
    } else if lowered == "pan fine"@ {
        Some(KindView::PanFine)
    } else if lowered == "tilt fine"@ {
        Some(KindView::TiltFine)
    } else if lowered == "intensity"@ {
        Some(KindView::Intensity)
    } else if lowered == "dimmer"@ {
        Some(KindView::Dimmer)
    } else if lowered == "strobe"@ {
        Some(KindView::Strobe)
    } else if lowered == "color macros"@ {
        Some(KindView::ColorMacros)
    } else if lowered == "color temperature"@ {
        Some(KindView::ColorTemperature)
    } else if lowered == "hue"@ {
        Some(KindView::Hue)
    } else if lowered == "saturation"@ {
        Some(KindView::Saturation)
    } else if lowered == "gobo"@ {
        Some(KindView::Gobo)
    } else if lowered == "gobo rotation"@ {
        Some(KindView::GoboRotation)
    } else if lowered == "prism"@ {
        Some(KindView::Prism)
    } else if lowered == "iris"@ {
        Some(KindView::Iris)
    } else if lowered == "focus"@ {
        Some(KindView::Focus)
    } else if lowered == "zoom"@ {
        Some(KindView::Zoom)
    } else if lowered == "frost"@ {
        Some(KindView::Frost)
    } else if lowered == "mode select"@ {
        Some(KindView::ModeSelect)
    } else if lowered == "speed"@ {
        Some(KindView::Speed)
    } else if lowered == "sound sensitivity"@ {
        Some(KindView::SoundSensitivity)
    } else {
        None
    }
}

/// The kind that a capability type string names.
pub open spec fn kind_of_capability_type(t: Seq<char>) -> KindView {
    if t == "Intensity"@ {
        KindView::Intensity
    } else if t == "ColorIntensity"@ {
        KindView::Intensity
    } else if t == "Pan"@ {
        KindView::Pan
    } else if t == "Tilt"@ {
        KindView::Tilt
    } else if t == "PanContinuous"@ {
        KindView::Pan
    } else if t == "TiltContinuous"@ {
        KindView::Tilt
    } else if t == "ColorPreset"@ {
        KindView::ColorMacros
    } else if t == "ColorTemperature"@ {
        KindView::ColorTemperature
    } else if t == "Strobe"@ {
        KindView::Strobe
    } else if t == "StrobeSpeed"@ {
        KindView::Strobe
    } else if t == "StrobeDuration"@ {
        KindView::Strobe
    } else {
        KindView::Custom(t)
    }
}

/// The kind that a channel name names: its lowercase form looked up in the
/// name table, or else a custom kind carrying the name.
pub open spec fn kind_of_channel_name(name: Seq<char>) -> KindView {
    match name_table(lower_of(name)) {
        Some(k) => k,
        None => KindView::Custom(name),
    }
}

/// The `Debug` form of a kind: its name for a fixed kind, and
/// `Custom("<name>")` for a custom one, the name quoted and escaped as
/// `Debug` does for a string.
pub open spec fn debug_label(k: KindView) -> Seq<char> {
    match k {
        KindView::Custom(name) => "Custom("@ + debug_quoted(name) + ")"@,
        _ => kind_label(k),
    }
}

/// The `Debug` form of a custom kind whose name, quoted and escaped, is
/// `quoted_name`.
pub fn custom_debug_label(quoted_name: &str) -> (r: String)
    ensures
        r@ == "Custom("@ + quoted_name@ + ")"@,
{
    let mut s = "Custom(".to_string();
    s.append(quoted_name);
    s.append(")");
    s
}

/// A string as its `Debug` form prints it: in double quotes, with quotes,
/// backslashes and unprintable characters escaped.
pub uninterp spec fn debug_quoted(s: Seq<char>) -> Seq<char>;

/// Relies on `str`'s `Debug` formatting: the quoted, escaped form of the
/// string, which depends on its characters alone.
#[verifier::external_body]
fn quoted(s: &str) -> (r: String)
    ensures
        r@ == debug_quoted(s@),
{
    format!("{:?}", s)
}

/// The lowercase form of a string, as `str::to_lowercase` computes it.
pub uninterp spec fn lower_of(s: Seq<char>) -> Seq<char>;

/// Relies on `str::to_lowercase`: its result depends on the characters of
/// the string alone.
#[verifier::external_body]
pub(crate) fn lowercase(s: &str) -> (r: String)
    ensures
        r@ == lower_of(s@),
{
    s.to_lowercase()
}

} // verus!
