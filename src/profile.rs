//! Fixture profiles, built from fixture definitions, and patch entries.
use std::sync::Arc;
use vstd::prelude::*;
use vstd::string::StringExecFns;

use crate::kind::{kind_label, kind_of_capability_type, kind_of_channel_name, ChannelType, KindView};
use crate::ofl::{OflChannel, OflFixture, OflMode};
use crate::text::same_text;

verus! {

/// Describes one fixture type in one mode: its name, how many consecutive
/// DMX channels it takes, and the byte offset of each function it has.
///
/// `channels` pairs a kind with its offset and is meant to hold each kind
/// once, with distinct offsets below the footprint (`kinds_unique`,
/// `offsets_distinct`); `from_ofl_fixture` builds profiles so, for modes of
/// up to 255 channels. A lookup takes the first pair of a kind.
pub struct FixtureProfile {
    pub name: String,
    pub footprint: u8,
    pub channels: Vec<(ChannelType, u8)>,
}

/// One entry of a universe's patch table: a profile placed at a DMX start
/// address under a patch channel.
#[derive(Clone)]
pub struct PatchedFixture {
    pub id: String,
    pub channel: usize,
    pub profile: Arc<FixtureProfile>,
    pub dmx_start: u16,
    pub label: String,
}

/// What a front end shows of a patched fixture.
pub struct FixtureInfo {
    pub channel: usize,
    pub label: String,
    pub dmx_start: u16,
    pub profile_name: String,
    /// Each kind of the profile by name, with its offset, one entry per
    /// pair of the profile in the profile's order.
    pub channels: Vec<(String, u8)>,
}

impl FixtureInfo {
    /// The view of `fixture`, its profile's kinds in the profile's order.
    pub fn from_fixture(fixture: &PatchedFixture) -> (r: FixtureInfo)
        ensures
            r.channel == fixture.channel,
            r.label == fixture.label,
            r.dmx_start == fixture.dmx_start,
            r.profile_name == fixture.profile.name,
            r.channels@.len() == fixture.profile.channels@.len(),
            forall|i: int| 0 <= i < r.channels@.len() ==> {
                &&& (#[trigger] r.channels@[i]).0@ == kind_label(fixture.profile.channels@[i].0@)
                &&& r.channels@[i].1 == fixture.profile.channels@[i].1
            },
    {
        let profile = &fixture.profile;
        let n = profile.channels.len();
        let mut channels: Vec<(String, u8)> = Vec::new();
        let mut i: usize = 0;
        while i < n
            invariant
                n == profile.channels@.len(),
                i <= n,
                channels@.len() == i,
                forall|j: int| 0 <= j < i ==> {
                    &&& (#[trigger] channels@[j]).0@ == kind_label(profile.channels@[j].0@)
                    &&& channels@[j].1 == profile.channels@[j].1
                },
            decreases n - i,
        {
            channels.push((profile.channels[i].0.label(), profile.channels[i].1));
            i = i + 1;
        }
        FixtureInfo {
            channel: fixture.channel,
            label: fixture.label.clone(),
            dmx_start: fixture.dmx_start,
            profile_name: profile.name.clone(),
            channels,
        }
    }
}

/// The offset that the first pair of kind `k` gives.
pub open spec fn offset_in(s: Seq<(ChannelType, u8)>, k: KindView) -> Option<u8>
    decreases s.len(),
{
    if s.len() == 0 {
        None
    } else if s[0].0@ == k {
        Some(s[0].1)
    } else {
        offset_in(s.drop_first(), k)
    }
}

/// No kind occurs twice.
pub open spec fn kinds_unique(s: Seq<(ChannelType, u8)>) -> bool {
    forall|i: int, j: int| 0 <= i < j < s.len() ==> s[i].0@ != s[j].0@
}

impl FixtureProfile {
    /// No two kinds of the profile share an offset.
    pub open spec fn offsets_distinct(&self) -> bool {
        forall|k1: KindView, k2: KindView|
            k1 != k2 && #[trigger] self.offset_of(k1) is Some && #[trigger] self.offset_of(k2) is Some ==> self.offset_of(k1)
                != self.offset_of(k2)
    }

    /// The offset of kind `k` in this profile, if it has that kind.
    pub open spec fn offset_of(&self, k: KindView) -> Option<u8> {
        offset_in(self.channels@, k)
    }

    /// The offset of `kind` in this profile, if it has that kind.
    pub fn offset(&self, kind: &ChannelType) -> (r: Option<u8>)
        ensures
            r == self.offset_of(kind@),
    {
        let n = self.channels.len();
        let mut i: usize = 0;
        assert(self.channels@.subrange(0, n as int) =~= self.channels@);
        while i < n
            invariant
                n == self.channels@.len(),
                i <= n,
                offset_in(self.channels@, kind@) == offset_in(self.channels@.subrange(i as int, n as int), kind@),
            decreases n - i,
        {
            let ghost rest = self.channels@.subrange(i as int, n as int);
            assert(rest.drop_first() =~= self.channels@.subrange(i + 1, n as int));
            if self.channels[i].0.same_kind(kind) {
                return Some(self.channels[i].1);
            }
            i = i + 1;
        }
        None
    }

    /// Builds the profile of `mode` of a fixture definition.
    ///
    /// Each channel name of the mode that the definition knows is resolved
    /// to a kind, and the kind gets the channel's position as its offset;
    /// where two channels resolve to the same kind the later one wins.
    /// Names that the definition lacks are skipped. The footprint is the
    /// number of channels in the mode; footprint and offsets are kept as
    /// bytes, so a mode of more than 255 channels wraps around.
    pub fn from_ofl_fixture(ofl_fixture: &OflFixture, mode: &OflMode) -> (r: FixtureProfile)
        ensures
            r.name@ == ofl_fixture.name@ + " ("@ + mode.name@ + ")"@,
            r.footprint == (mode.channels@.len() % 256) as u8,
            forall|k: KindView|
                #![trigger r.offset_of(k)]
                r.offset_of(k) == match last_position(*ofl_fixture, mode.channels@, k, mode.channels@.len() as int) {
                    Some(p) => Some((p % 256) as u8),
                    None => None,
                },
            kinds_unique(r.channels@),
            mode.channels@.len() <= 255 ==> {
                &&& r.footprint == mode.channels@.len()
                &&& forall|k: KindView| #[trigger] r.offset_of(k) matches Some(o) ==> o < mode.channels@.len()
                &&& r.offsets_distinct()
            },
    {
        let mut channels: Vec<(ChannelType, u8)> = Vec::new();
        let n = mode.channels.len();
        let mut p: usize = 0;
        while p < n
            invariant
                n == mode.channels@.len(),
                p <= n,
                kinds_unique(channels@),
                forall|k: KindView|
                    #![trigger offset_in(channels@, k)]
                    offset_in(channels@, k) == match last_position(*ofl_fixture, mode.channels@, k, p as int) {
                        Some(q) => Some((q % 256) as u8),
                        None => None,
                    },
            decreases n - p,
        {
            let name = mode.channels[p].as_str();
            match find_definition(&ofl_fixture.available_channels, name) {
                Some(i) => {
                    let kind = resolve_channel(name, &ofl_fixture.available_channels[i].1);
                    let offset = (p % 256) as u8;
                    set_offset(&mut channels, kind, offset);
                },
                None => {},
            }
            p = p + 1;
        }
        proof {
            assert forall|k: KindView| n <= 255 && #[trigger] offset_in(channels@, k) is Some implies offset_in(channels@, k).unwrap() < n by {
                lemma_last_position_below(*ofl_fixture, mode.channels@, k, n as int);
            }
            assert forall|k1: KindView, k2: KindView|
                n <= 255 && k1 != k2 && #[trigger] offset_in(channels@, k1) is Some && #[trigger] offset_in(channels@, k2) is Some
            implies offset_in(channels@, k1) != offset_in(channels@, k2) by {
                lemma_last_position_below(*ofl_fixture, mode.channels@, k1, n as int);
                lemma_last_position_below(*ofl_fixture, mode.channels@, k2, n as int);
            }
        }
        let mut name = ofl_fixture.name.clone();
        name.append(" (");
        name.append(mode.name.as_str());
        name.append(")");
        FixtureProfile { name, footprint: (n % 256) as u8, channels }
    }
}

/// The index of the first definition named `name`.
pub open spec fn first_definition(defs: Seq<(String, OflChannel)>, name: Seq<char>) -> Option<int> {
    if exists|i: int| is_first_named(defs, name, i) {
        Some(choose|i: int| is_first_named(defs, name, i))
    } else {
        None
    }
}

pub open spec fn is_first_named(defs: Seq<(String, OflChannel)>, name: Seq<char>, i: int) -> bool {
    &&& 0 <= i < defs.len()
    &&& defs[i].0@ == name
    &&& forall|j: int| 0 <= j < i ==> defs[j].0@ != name
}

/// The kind that a channel of a definition resolves to: by its name where
/// the name table knows it; else by its single capability (a colour
/// intensity by the colour it names); else by the first of several
/// capabilities; else a custom kind carrying the name.
pub open spec fn kind_of_definition(name: Seq<char>, def: OflChannel) -> KindView {
    let by_name = kind_of_channel_name(name);
    if !(by_name is Custom) {
        by_name
    } else {
        match def.capability {
            Some(cap) => if cap.capability_type@ == "ColorIntensity"@ && cap.color is Some {
                kind_of_channel_name(cap.color.unwrap()@)
            } else {
                kind_of_capability_type(cap.capability_type@)
            },
            None => match def.capabilities {
                Some(caps) => if caps@.len() > 0 {
                    kind_of_capability_type(caps@[0].capability_type@)
                } else {
                    by_name
                },
                None => by_name,
            },
        }
    }
}

/// The kind that channel `name` of a fixture definition resolves to, if
/// the definition has a channel of that name.
pub open spec fn channel_kind(fixture: OflFixture, name: Seq<char>) -> Option<KindView> {
    match first_definition(fixture.available_channels@, name) {
        Some(i) => Some(kind_of_definition(name, fixture.available_channels@[i].1)),
        None => None,
    }
}

/// The last position among the first `n` channel names that resolves to `k`.
pub open spec fn last_position(fixture: OflFixture, names: Seq<String>, k: KindView, n: int) -> Option<int>
    decreases n,
{
    if n <= 0 {
        None
    } else if channel_kind(fixture, names[n - 1]@) == Some(k) {
        Some(n - 1)
    } else {
        last_position(fixture, names, k, n - 1)
    }
}

proof fn lemma_last_position_below(fixture: OflFixture, names: Seq<String>, k: KindView, n: int)
    ensures
        last_position(fixture, names, k, n) matches Some(p) ==> 0 <= p < n && channel_kind(fixture, names[p]@) == Some(k),
    decreases n,
{
    if n > 0 {
        lemma_last_position_below(fixture, names, k, n - 1);
    }
}

/// The index of the first definition named `name`.
fn find_definition(defs: &Vec<(String, OflChannel)>, name: &str) -> (r: Option<usize>)
    ensures
        r matches Some(i) ==> first_definition(defs@, name@) == Some(i as int),
        r is None ==> first_definition(defs@, name@) is None,
{
    let n = defs.len();
    let mut i: usize = 0;
    while i < n
        invariant
            n == defs@.len(),
            i <= n,
            forall|j: int| 0 <= j < i ==> defs@[j].0@ != name@,
        decreases n - i,
    {
        if same_text(defs[i].0.as_str(), name) {
            proof {
                assert(is_first_named(defs@, name@, i as int));
                let c = choose|c: int| is_first_named(defs@, name@, c);
                assert(!(c < i) && !(i < c));
            }
            return Some(i);
        }
        i = i + 1;
    }
    None
}

/// The kind that channel `name`, defined by `def`, resolves to.
fn resolve_channel(name: &str, def: &OflChannel) -> (r: ChannelType)
    ensures
        r@ == kind_of_definition(name@, *def),
{
    let by_name = ChannelType::from_ofl_channel_name(name);
    if !matches!(by_name, ChannelType::Custom(_)) {
        return by_name;
    }
    match &def.capability {
        Some(cap) => {
            if same_text(cap.capability_type.as_str(), "ColorIntensity") {
                match &cap.color {
                    Some(color) => ChannelType::from_ofl_channel_name(color.as_str()),
                    None => ChannelType::from_ofl_capability_type(cap.capability_type.as_str()),
                }
            } else {
                ChannelType::from_ofl_capability_type(cap.capability_type.as_str())
            }
        },
        None => match &def.capabilities {
            Some(caps) => {
                if caps.len() > 0 {
                    ChannelType::from_ofl_capability_type(caps[0].capability_type.as_str())
                } else {
                    by_name
                }
            },
            None => by_name,
        },
    }
}

proof fn lemma_offset_push(s: Seq<(ChannelType, u8)>, x: (ChannelType, u8), k: KindView)
    ensures
        offset_in(s.push(x), k) == match offset_in(s, k) {
            Some(o) => Some(o),
            None => if x.0@ == k { Some(x.1) } else { None },
        },
    decreases s.len(),
{
    if s.len() > 0 {
        assert(s.push(x)[0] == s[0]);
        assert(s.push(x).drop_first() =~= s.drop_first().push(x));
        lemma_offset_push(s.drop_first(), x, k);
    } else {
        assert(s.push(x).drop_first() =~= s);
    }
}

proof fn lemma_offset_update(s: Seq<(ChannelType, u8)>, i: int, x: (ChannelType, u8), k: KindView)
    requires
        0 <= i < s.len(),
        s[i].0@ == x.0@,
        forall|j: int| 0 <= j < i ==> s[j].0@ != x.0@,
    ensures
        offset_in(s.update(i, x), k) == if k == x.0@ { Some(x.1) } else { offset_in(s, k) },
    decreases i,
{
    if i > 0 {
        assert(s.update(i, x).drop_first() =~= s.drop_first().update(i - 1, x));
        lemma_offset_update(s.drop_first(), i - 1, x, k);
    } else {
        assert(s.update(i, x).drop_first() =~= s.drop_first());
    }
}

/// Gives `kind` the offset `offset`: the pair of that kind is overwritten
/// where there is one, else a pair is appended.
fn set_offset(channels: &mut Vec<(ChannelType, u8)>, kind: ChannelType, offset: u8)
    requires
        kinds_unique(old(channels)@),
    ensures
        kinds_unique(final(channels)@),
        forall|k: KindView|
            #![trigger offset_in(final(channels)@, k)]
            offset_in(final(channels)@, k) == if k == kind@ { Some(offset) } else { offset_in(old(channels)@, k) },
{
    let ghost s = channels@;
    let ghost kv = kind@;
    let n = channels.len();
    let mut i: usize = 0;
    while i < n && !channels[i].0.same_kind(&kind)
        invariant
            channels@ == s,
            kinds_unique(s),
            n == s.len(),
            i <= n,
            kind@ == kv,
            forall|j: int| 0 <= j < i ==> s[j].0@ != kv,
        decreases n - i,
    {
        i = i + 1;
    }
    let x = (kind, offset);
    if i < n {
        proof {
            assert(x.0@ == kv);
            assert forall|k: KindView| #[trigger] offset_in(s.update(i as int, x), k) == if k == kv { Some(offset) } else { offset_in(s, k) } by {
                lemma_offset_update(s, i as int, x, k);
            }
            assert forall|a: int, b: int| 0 <= a < b < s.len() implies s.update(i as int, x)[a].0@ != s.update(i as int, x)[b].0@ by {
                assert(s[a].0@ != s[b].0@);
            }
        }
        channels.set(i, x);
    } else {
        proof {
            assert(x.0@ == kv);
            assert forall|k: KindView| #[trigger] offset_in(s.push(x), k) == if k == kv { Some(offset) } else { offset_in(s, k) } by {
                lemma_offset_push(s, x, k);
                if k == kv {
                    lemma_offset_absent(s, k);
                }
            }
            assert forall|a: int, b: int| 0 <= a < b < s.push(x).len() implies s.push(x)[a].0@ != s.push(x)[b].0@ by {
                if b < s.len() {
                    assert(s[a].0@ != s[b].0@);
                }
            }
        }
        channels.push(x);
    }
}

proof fn lemma_offset_absent(s: Seq<(ChannelType, u8)>, k: KindView)
    requires
        forall|j: int| 0 <= j < s.len() ==> s[j].0@ != k,
    ensures
        offset_in(s, k) is None,
    decreases s.len(),
{
    if s.len() > 0 {
        lemma_offset_absent(s.drop_first(), k);
    }
}

} // verus!
