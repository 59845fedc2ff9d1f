//! The universe: a patch table of fixtures and the 513-byte output buffer
//! (a start code followed by 512 channel values).
use vstd::prelude::*;

use crate::kind::{debug_label, ChannelType, KindView};
use crate::profile::PatchedFixture;

verus! {

/// Bytes in one DMX frame: the start code and 512 channel values.
pub const DMX_BUFFER_LENGTH: usize = 513;

/// Why a change to the universe was refused.
#[derive(Debug, PartialEq, Eq)]
pub enum UniverseError {
    /// Address 0 holds the start code and cannot be set.
    ReservedAddress,
    /// The address lies past the last channel, 512.
    AddressOutOfRange(usize),
    /// No fixture is patched on this patch channel.
    NoFixture(usize),
    /// The fixture on this patch channel has no channel of this kind; the
    /// rest of the request was still applied.
    UnsupportedKind { fixture_channel: usize, kind: ChannelType },
}

/// One DMX universe. Writes of single addresses, by address or through
/// a fixture, go through `set_dmx_address`, which keeps them to channel
/// addresses 1 to 512; whether a patched fixture's channels fit is checked
/// when they are written, not when it is patched.
pub struct Universe {
    pub id: u8,
    /// The patch table, indexed by patch channel; `None` where nothing is patched.
    pub fixtures: Vec<Option<PatchedFixture>>,
    /// The output frame: index 0 is the start code, 1 to 512 the channels.
    pub dmx_buffer: [u8; DMX_BUFFER_LENGTH],
    /// The fade in progress, if one is.
    pub fade: Option<Fade>,
}

/// A cross-fade of the whole buffer from one frame to another.
pub struct Fade {
    pub from: [u8; DMX_BUFFER_LENGTH],
    pub to: [u8; DMX_BUFFER_LENGTH],
    pub duration_ms: u32,
    pub elapsed_ms: u32,
}

/// A fade with its frames as sequences.
pub struct FadeView {
    pub from: Seq<u8>,
    pub to: Seq<u8>,
    pub duration_ms: u32,
    pub elapsed_ms: u32,
}

impl View for Fade {
    type V = FadeView;

    open spec fn view(&self) -> FadeView {
        FadeView { from: self.from@, to: self.to@, duration_ms: self.duration_ms, elapsed_ms: self.elapsed_ms }
    }
}

/// The value a byte has `elapsed` of `duration` into a linear fade from
/// `from` to `to`, rounded toward `from`.
pub open spec fn faded(from: u8, to: u8, elapsed: int, duration: int) -> u8 {
    if to >= from {
        (from + (to - from) * elapsed / duration) as u8
    } else {
        (from - (from - to) * elapsed / duration) as u8
    }
}

/// The frame `elapsed` of `duration` into a fade from `from` to `to`.
pub open spec fn fade_frame(from: Seq<u8>, to: Seq<u8>, elapsed: int, duration: int) -> Seq<u8> {
    Seq::new(DMX_BUFFER_LENGTH as nat, |i: int| faded(from[i], to[i], elapsed, duration))
}

/// The value `elapsed` of `duration` into a fade of one byte.
fn interpolate(from: u8, to: u8, elapsed: u32, duration: u32) -> (r: u8)
    requires
        0 < duration,
        elapsed <= duration,
    ensures
        r == faded(from, to, elapsed as int, duration as int),
{
    if to >= from {
        let delta = (to - from) as u64;
        assert((delta as int) * (elapsed as int) <= 255 * 0xFFFF_FFFF) by (nonlinear_arith)
            requires
                delta <= 255,
                elapsed <= 0xFFFF_FFFF,
        {
        }
        let step = delta * (elapsed as u64) / (duration as u64);
        assert(step <= delta) by (nonlinear_arith)
            requires
                step == (delta as int) * (elapsed as int) / (duration as int),
                0 < duration,
                elapsed <= duration,
                delta <= 255,
        {
            assert((delta as int) * (elapsed as int) <= (delta as int) * (duration as int));
        }
        (from as u64 + step) as u8
    } else {
        let delta = (from - to) as u64;
        assert((delta as int) * (elapsed as int) <= 255 * 0xFFFF_FFFF) by (nonlinear_arith)
            requires
                delta <= 255,
                elapsed <= 0xFFFF_FFFF,
        {
        }
        let step = delta * (elapsed as u64) / (duration as u64);
        assert(step <= delta) by (nonlinear_arith)
            requires
                step == (delta as int) * (elapsed as int) / (duration as int),
                0 < duration,
                elapsed <= duration,
                delta <= 255,
        {
            assert((delta as int) * (elapsed as int) <= (delta as int) * (duration as int));
        }
        (from as u64 - step) as u8
    }
}

/// What a received frame carries, by its start code.
#[derive(Debug, Clone, Copy, PartialEq, Eq, Structural)]
pub enum FrameKind {
    /// Start code 0x00: lighting data.
    LightingData,
    /// Start code 0xCC: remote device management.
    Rdm,
    /// Start code 0x17: text packets.
    Text,
    /// Any other start code, as manufacturers define them.
    Other,
}

/// The kind of frame that start code `start_code` announces.
pub fn frame_kind(start_code: u8) -> (r: FrameKind)
    ensures
        r == if start_code == 0x00 {
            FrameKind::LightingData
        } else if start_code == 0xCC {
            FrameKind::Rdm
        } else if start_code == 0x17 {
            FrameKind::Text
        } else {
            FrameKind::Other
        },
{
    if start_code == 0x00 {
        FrameKind::LightingData
    } else if start_code == 0xCC {
        FrameKind::Rdm
    } else if start_code == 0x17 {
        FrameKind::Text
    } else {
        FrameKind::Other
    }
}

/// Whether `a` is a channel address that may be written: 1 to 512.
pub open spec fn valid_address(a: int) -> bool {
    1 <= a < DMX_BUFFER_LENGTH
}

/// The error with which a write to a refused address fails.
pub open spec fn address_error(a: int) -> UniverseError {
    if a == 0 {
        UniverseError::ReservedAddress
    } else {
        UniverseError::AddressOutOfRange(a as usize)
    }
}

/// The patch table after `f` is patched: placed at its patch channel,
/// with the table grown by empty slots as far as needed.
pub open spec fn patched(table: Seq<Option<PatchedFixture>>, f: PatchedFixture) -> Seq<Option<PatchedFixture>> {
    let len: int = if f.channel < table.len() { table.len() as int } else { f.channel + 1 };
    Seq::new(len as nat, |i: int| if i == f.channel { Some(f) } else if i < table.len() { table[i] } else { None })
}

/// The patch table after each fixture of `fs` is patched in turn.
pub open spec fn patched_all(table: Seq<Option<PatchedFixture>>, fs: Seq<PatchedFixture>) -> Seq<Option<PatchedFixture>>
    decreases fs.len(),
{
    if fs.len() == 0 {
        table
    } else {
        patched(patched_all(table, fs.drop_last()), fs.last())
    }
}

/// The buffer address that kind `k` of fixture `f` drives: its start
/// address plus the kind's offset, if the profile has the kind.
pub open spec fn target_address(f: PatchedFixture, k: KindView) -> Option<int> {
    match f.profile.offset_of(k) {
        Some(o) => Some(f.dmx_start as int + o as int),
        None => None,
    }
}

/// The writes that setting `values` on fixture `f` asks for, in order:
/// one for each pair whose kind the fixture has.
pub open spec fn planned_writes(f: PatchedFixture, values: Seq<(ChannelType, u8)>) -> Seq<(usize, u8)>
    decreases values.len(),
{
    if values.len() == 0 {
        Seq::empty()
    } else {
        let earlier = planned_writes(f, values.drop_last());
        match target_address(f, values.last().0@) {
            Some(a) => earlier.push((a as usize, values.last().1)),
            None => earlier,
        }
    }
}

/// The buffer after the writes `w` are made in order, up to the first one
/// to a refused address.
pub open spec fn apply_writes(buf: Seq<u8>, w: Seq<(usize, u8)>) -> Seq<u8>
    decreases w.len(),
{
    if w.len() == 0 {
        buf
    } else if valid_address(w[0].0 as int) {
        apply_writes(buf.update(w[0].0 as int, w[0].1), w.drop_first())
    } else {
        buf
    }
}

/// The error of the first write in `w` to a refused address, if any.
pub open spec fn write_error(w: Seq<(usize, u8)>) -> Option<UniverseError>
    decreases w.len(),
{
    if w.len() == 0 {
        None
    } else if valid_address(w[0].0 as int) {
        write_error(w.drop_first())
    } else {
        Some(address_error(w[0].0 as int))
    }
}

/// `skipped` lists, in increasing order, the indices of the pairs of
/// `values` whose kind fixture `f` lacks.
pub open spec fn unsupported_indices(f: PatchedFixture, values: Seq<(ChannelType, u8)>, skipped: Seq<usize>) -> bool {
    unsupported_below(f, values, skipped, values.len() as int)
}

/// `skipped` lists, in increasing order, the indices below `n` of the
/// pairs of `values` whose kind fixture `f` lacks.
pub open spec fn unsupported_below(f: PatchedFixture, values: Seq<(ChannelType, u8)>, skipped: Seq<usize>, n: int) -> bool {
    &&& forall|a: int, b: int| 0 <= a < b < skipped.len() ==> skipped[a] < skipped[b]
    &&& forall|j: int| 0 <= j < skipped.len() ==> skipped[j] < n
    &&& forall|j: int| 0 <= j < skipped.len() ==> (target_address(f, #[trigger] values[skipped[j] as int].0@) is None)
    &&& forall|i: int| 0 <= i < n && target_address(f, #[trigger] values[i].0@) is None ==> exists|j: int| 0 <= j < skipped.len() && skipped[j] == i
}

/// The pairs that `set_rgb` sets.
pub open spec fn rgb_values(r: u8, g: u8, b: u8) -> Seq<(ChannelType, u8)> {
    seq![(ChannelType::Red, r), (ChannelType::Green, g), (ChannelType::Blue, b)]
}

/// The buffer after a blackout over the patch-table slots `slots`, with
/// the errors of the intensity addresses that were refused, in slot order.
pub open spec fn blackout_of(buf: Seq<u8>, slots: Seq<Option<PatchedFixture>>) -> (Seq<u8>, Seq<UniverseError>)
    decreases slots.len(),
{
    if slots.len() == 0 {
        (buf, Seq::empty())
    } else {
        match slots[0] {
            None => blackout_of(buf, slots.drop_first()),
            Some(f) => match target_address(f, KindView::Intensity) {
                None => blackout_of(buf, slots.drop_first()),
                Some(a) => if valid_address(a) {
                    blackout_of(buf.update(a, 0), slots.drop_first())
                } else {
                    let rest = blackout_of(buf, slots.drop_first());
                    (rest.0, seq![address_error(a)] + rest.1)
                },
            },
        }
    }
}

impl Universe {
    /// The output buffer: index 0 is the start code, 1 to 512 the channels.
    pub open spec fn buffer(&self) -> Seq<u8> {
        self.dmx_buffer@
    }

    /// The fixture patched on `channel`, if any.
    pub open spec fn fixture_at(&self, channel: int) -> Option<PatchedFixture> {
        if 0 <= channel < self.fixtures@.len() {
            self.fixtures@[channel]
        } else {
            None
        }
    }

    /// An empty universe: nothing patched, every byte 0.
    pub fn new(id: u8) -> (r: Universe)
        ensures
            r.id == id,
            r.fixtures@.len() == 0,
            r.fade is None,
            r.buffer() == Seq::new(DMX_BUFFER_LENGTH as nat, |i: int| 0u8),
    {
        let r = Universe { id, fixtures: Vec::new(), dmx_buffer: [0u8; DMX_BUFFER_LENGTH], fade: None };
        assert(r.buffer() =~= Seq::new(DMX_BUFFER_LENGTH as nat, |i: int| 0u8));
        r
    }

    /// Patches `fixture` at its patch channel, replacing whatever was
    /// there and growing the table with empty slots as needed. Overlap of
    /// DMX addresses between fixtures is not checked.
    pub fn add_fixture(&mut self, fixture: PatchedFixture)
        requires
            fixture.channel < usize::MAX,
        ensures
            final(self).id == old(self).id,
            final(self).dmx_buffer == old(self).dmx_buffer,
            final(self).fade == old(self).fade,
            final(self).fixtures@ == patched(old(self).fixtures@, fixture),
    {
        let ghost table = self.fixtures@;
        let channel = fixture.channel;
        while self.fixtures.len() <= channel
            invariant
                channel == fixture.channel,
                channel < usize::MAX,
                table.len() <= self.fixtures@.len() <= if table.len() <= channel { channel + 1 } else { table.len() as int },
                forall|i: int| 0 <= i < self.fixtures@.len() ==> self.fixtures@[i] == if i < table.len() { table[i] } else { None },
                self.id == old(self).id,
                self.dmx_buffer == old(self).dmx_buffer,
                self.fade == old(self).fade,
            decreases channel + 1 - self.fixtures.len(),
        {
            self.fixtures.push(None);
        }
        self.fixtures.set(channel, Some(fixture));
        assert(self.fixtures@ =~= patched(table, fixture));
    }

    /// A universe with each of `fixtures` patched in turn; a later fixture
    /// on the same patch channel replaces an earlier one.
    pub fn from_fixtures(id: u8, fixtures: Vec<PatchedFixture>) -> (r: Universe)
        requires
            forall|i: int| 0 <= i < fixtures@.len() ==> fixtures@[i].channel < usize::MAX,
        ensures
            r.id == id,
            r.fade is None,
            r.buffer() == Seq::new(DMX_BUFFER_LENGTH as nat, |i: int| 0u8),
            r.fixtures@ == patched_all(Seq::empty(), fixtures@),
    {
        let mut universe = Universe::new(id);
        let ghost all = fixtures@;
        for fixture in it: fixtures
            invariant
                it.seq() == all,
                forall|i: int| 0 <= i < all.len() ==> all[i].channel < usize::MAX,
                universe.id == id,
                universe.fade is None,
                universe.buffer() == Seq::new(DMX_BUFFER_LENGTH as nat, |i: int| 0u8),
                universe.fixtures@ == patched_all(Seq::empty(), all.take(it.index() as int)),
        {
            assert(all.take(it.index() + 1).drop_last() =~= all.take(it.index() as int));
            universe.add_fixture(fixture);
        }
        assert(all.take(all.len() as int) =~= all);
        universe
    }

    /// Unpatches `channel`, returning the fixture that was there.
    pub fn remove_fixture(&mut self, channel: usize) -> (r: Option<PatchedFixture>)
        ensures
            final(self).id == old(self).id,
            final(self).dmx_buffer == old(self).dmx_buffer,
            final(self).fade == old(self).fade,
            r == old(self).fixture_at(channel as int),
            final(self).fixtures@ == if channel < old(self).fixtures@.len() {
                old(self).fixtures@.update(channel as int, None)
            } else {
                old(self).fixtures@
            },
    {
        if channel < self.fixtures.len() {
            let mut slot: Option<PatchedFixture> = None;
            self.fixtures.set_and_swap(channel, &mut slot);
            slot
        } else {
            None
        }
    }

    /// The fixture patched on `channel`, if any.
    pub fn get_fixture(&self, channel: usize) -> (r: Option<&PatchedFixture>)
        ensures
            match self.fixture_at(channel as int) {
                Some(f) => r is Some && *r.unwrap() == f,
                None => r is None,
            },
    {
        if channel < self.fixtures.len() {
            self.fixtures[channel].as_ref()
        } else {
            None
        }
    }

    /// A mutable handle on the fixture patched on `channel`, if any.
    pub fn get_fixture_mut(&mut self, channel: usize) -> (r: Option<&mut PatchedFixture>)
        ensures
            final(self).id == old(self).id,
            final(self).dmx_buffer == old(self).dmx_buffer,
            final(self).fade == old(self).fade,
            match old(self).fixture_at(channel as int) {
                Some(f) => r is Some && *r.unwrap() == f
                    && final(self).fixtures@ == old(self).fixtures@.update(channel as int, Some(*final(r.unwrap()))),
                None => r is None && final(self).fixtures@ == old(self).fixtures@,
            },
    {
        if channel < self.fixtures.len() {
            self.fixtures[channel].as_mut()
        } else {
            None
        }
    }

    /// Sets functions of the fixture patched on `channel`: for each pair
    /// whose kind the fixture's profile has, the value goes to the start
    /// address plus the kind's offset, through `set_dmx_address`.
    ///
    /// Fails with `NoFixture` when nothing is patched there. Pairs whose
    /// kind the profile lacks are skipped; on success their indices in
    /// `values` are returned, in increasing order. A write to a refused
    /// address stops the run with that address's error, the writes before
    /// it having been made.
    pub fn set_fixture_values(&mut self, channel: usize, values: &[(ChannelType, u8)]) -> (r: Result<Vec<usize>, UniverseError>)
        ensures
            final(self).id == old(self).id,
            final(self).fixtures == old(self).fixtures,
            final(self).fade == old(self).fade,
            match old(self).fixture_at(channel as int) {
                None => r == Err::<Vec<usize>, UniverseError>(UniverseError::NoFixture(channel))
                    && final(self).buffer() == old(self).buffer(),
                Some(f) => {
                    &&& final(self).buffer() == apply_writes(old(self).buffer(), planned_writes(f, values@))
                    &&& match write_error(planned_writes(f, values@)) {
                        Some(e) => r == Err::<Vec<usize>, UniverseError>(e),
                        None => r is Ok && unsupported_indices(f, values@, r.unwrap()@),
                    }
                },
            },
    {
        let fixture = match self.get_fixture(channel) {
            Some(f) => f,
            None => return Err(UniverseError::NoFixture(channel)),
        };
        let ghost f = *fixture;
        let mut updates: Vec<(usize, u8)> = Vec::new();
        let mut skipped: Vec<usize> = Vec::new();
        let n = values.len();
        let mut i: usize = 0;
        while i < n
            invariant
                n == values@.len(),
                i <= n,
                *fixture == f,
                updates@ == planned_writes(f, values@.take(i as int)),
                unsupported_below(f, values@, skipped@, i as int),
            decreases n - i,
        {
            let ghost before = values@.take(i as int);
            assert(values@.take(i + 1).drop_last() =~= before);
            match fixture.profile.offset(&values[i].0) {
                Some(offset) => {
                    updates.push((fixture.dmx_start as usize + offset as usize, values[i].1));
                },
                None => {
                    let ghost old_skipped = skipped@;
                    skipped.push(i);
                    proof {
                        assert(skipped@[old_skipped.len() as int] == i);
                        assert(forall|j: int| 0 <= j < old_skipped.len() ==> skipped@[j] == old_skipped[j]);
                        assert(target_address(f, values@[i as int].0@) is None);
                        assert(forall|a: int, b: int| 0 <= a < b < skipped@.len() ==> skipped@[a] < skipped@[b]);
                        assert(forall|j: int| 0 <= j < skipped@.len() ==> skipped@[j] < i + 1);
                        assert forall|j: int| 0 <= j < skipped@.len() implies (target_address(f, #[trigger] values@[skipped@[j] as int].0@) is None) by {
                            if j < old_skipped.len() {
                                assert(skipped@[j] == old_skipped[j]);
                                assert(target_address(f, values@[old_skipped[j] as int].0@) is None);
                            }
                        }
                        assert forall|k: int| 0 <= k < i + 1 && target_address(f, #[trigger] values@[k].0@) is None implies exists|j: int| 0 <= j < skipped@.len() && skipped@[j] == k by {
                            if k < i {
                                let j = choose|j: int| 0 <= j < old_skipped.len() && old_skipped[j] == k;
                                assert(skipped@[j] == k);
                            } else {
                                assert(skipped@[old_skipped.len() as int] == k);
                            }
                        }
                    }
                },
            }
            i = i + 1;
        }
        assert(values@.take(n as int) =~= values@);
        let ghost w = updates@;
        let ghost buf0 = self.buffer();
        let m = updates.len();
        let mut j: usize = 0;
        assert(w.subrange(0, m as int) =~= w);
        while j < m
            invariant
                m == w.len(),
                updates@ == w,
                buf0 == old(self).buffer(),
                old(self).fixture_at(channel as int) == Some(f),
                w == planned_writes(f, values@),
                j <= m,
                self.id == old(self).id,
                self.fixtures == old(self).fixtures,
                self.fade == old(self).fade,
                apply_writes(self.buffer(), w.subrange(j as int, m as int)) == apply_writes(buf0, w),
                write_error(w.subrange(j as int, m as int)) == write_error(w),
            decreases m - j,
        {
            assert(w.subrange(j as int, m as int).drop_first() =~= w.subrange(j + 1, m as int));
            let (address, value) = updates[j];
            assert(w.subrange(j as int, m as int)[0] == w[j as int]);
            match self.set_dmx_address(address, value) {
                Ok(()) => {},
                Err(e) => {
                    assert(self.buffer() == apply_writes(buf0, w));
                    assert(write_error(w) == Some(e));
                    return Err(e);
                },
            }
            j = j + 1;
        }
        Ok(skipped)
    }

    /// Sets the intensity of the fixture patched on `channel`; a fixture
    /// without an intensity channel is left as it is.
    pub fn set_intensity(&mut self, channel: usize, intensity: u8) -> (r: Result<(), UniverseError>)
        ensures
            final(self).id == old(self).id,
            final(self).fixtures == old(self).fixtures,
            final(self).fade == old(self).fade,
            match old(self).fixture_at(channel as int) {
                None => r == Err::<(), UniverseError>(UniverseError::NoFixture(channel))
                    && final(self).buffer() == old(self).buffer(),
                Some(f) => match target_address(f, KindView::Intensity) {
                    None => r is Ok && final(self).buffer() == old(self).buffer(),
                    Some(a) => if valid_address(a) {
                        r is Ok && final(self).buffer() == old(self).buffer().update(a, intensity)
                    } else {
                        r == Err::<(), UniverseError>(address_error(a)) && final(self).buffer() == old(self).buffer()
                    },
                },
            },
    {
        let values = [(ChannelType::Intensity, intensity)];
        let ghost vs = values@;
        proof {
            assert(vs.drop_last() =~= Seq::<(ChannelType, u8)>::empty());
            assert(vs.last().0@ == KindView::Intensity);
            if let Some(f) = old(self).fixture_at(channel as int) {
                let buf = old(self).buffer();
                assert(planned_writes(f, vs.drop_last()) == Seq::<(usize, u8)>::empty());
                let w = planned_writes(f, vs);
                match target_address(f, KindView::Intensity) {
                    Some(a) => {
                        assert(w == seq![(a as usize, intensity)]);
                        assert(w.drop_first() =~= Seq::<(usize, u8)>::empty());
                        assert(apply_writes(buf.update(a, intensity), w.drop_first()) == buf.update(a, intensity));
                        assert(write_error(w.drop_first()) is None);
                    },
                    None => {
                        assert(w =~= Seq::<(usize, u8)>::empty());
                    },
                }
            }
        }
        match self.set_fixture_values(channel, &values) {
            Ok(_) => Ok(()),
            Err(e) => Err(e),
        }
    }

    /// Sets the red, green and blue channels of the fixture patched on
    /// `channel`, those it has, in that order.
    pub fn set_rgb(&mut self, channel: usize, r: u8, g: u8, b: u8) -> (res: Result<(), UniverseError>)
        ensures
            final(self).id == old(self).id,
            final(self).fixtures == old(self).fixtures,
            final(self).fade == old(self).fade,
            match old(self).fixture_at(channel as int) {
                None => res == Err::<(), UniverseError>(UniverseError::NoFixture(channel))
                    && final(self).buffer() == old(self).buffer(),
                Some(f) => {
                    let w = planned_writes(f, rgb_values(r, g, b));
                    &&& final(self).buffer() == apply_writes(old(self).buffer(), w)
                    &&& match write_error(w) {
                        Some(e) => res == Err::<(), UniverseError>(e),
                        None => res is Ok,
                    }
                },
            },
    {
        let values = [(ChannelType::Red, r), (ChannelType::Green, g), (ChannelType::Blue, b)];
        assert(values@ =~= rgb_values(r, g, b));
        match self.set_fixture_values(channel, &values) {
            Ok(_) => Ok(()),
            Err(e) => Err(e),
        }
    }

    /// Drives the intensity of every patched fixture to 0, slot by slot;
    /// fixtures without an intensity channel are unaffected. An intensity
    /// address that is refused is passed over, and the errors of all such
    /// addresses are returned, in slot order.
    pub fn blackout(&mut self) -> (r: Result<(), Vec<UniverseError>>)
        ensures
            final(self).id == old(self).id,
            final(self).fixtures == old(self).fixtures,
            final(self).fade == old(self).fade,
            final(self).buffer() == blackout_of(old(self).buffer(), old(self).fixtures@).0,
            blackout_of(old(self).buffer(), old(self).fixtures@).1.len() == 0 ==> r is Ok,
            blackout_of(old(self).buffer(), old(self).fixtures@).1.len() > 0 ==> r is Err
                && r->Err_0@ == blackout_of(old(self).buffer(), old(self).fixtures@).1,
    {
        let ghost slots = self.fixtures@;
        let ghost buf0 = self.buffer();
        let mut errors: Vec<UniverseError> = Vec::new();
        let n = self.fixtures.len();
        let mut i: usize = 0;
        assert(slots.subrange(0, n as int) =~= slots);
        while i < n
            invariant
                n == slots.len(),
                self.fixtures@ == slots,
                slots == old(self).fixtures@,
                buf0 == old(self).buffer(),
                i <= n,
                self.id == old(self).id,
                self.fixtures == old(self).fixtures,
                self.fade == old(self).fade,
                blackout_of(self.buffer(), slots.subrange(i as int, n as int)).0 == blackout_of(buf0, slots).0,
                errors@ + blackout_of(self.buffer(), slots.subrange(i as int, n as int)).1 == blackout_of(buf0, slots).1,
            decreases n - i,
        {
            assert(slots.subrange(i as int, n as int).drop_first() =~= slots.subrange(i + 1, n as int));
            let ghost before = errors@;
            let ghost rest = slots.subrange(i + 1, n as int);
            let ghost cur = self.buffer();
            if self.fixtures[i].is_some() {
                match self.set_intensity(i, 0u8) {
                    Ok(()) => {},
                    Err(e) => {
                        errors.push(e);
                        assert(before + (seq![e] + blackout_of(cur, rest).1) =~= errors@ + blackout_of(cur, rest).1);
                    },
                }
            }
            i = i + 1;
        }
        assert(slots.subrange(n as int, n as int) =~= Seq::<Option<PatchedFixture>>::empty());
        assert(errors@ + Seq::<UniverseError>::empty() =~= errors@);
        if errors.len() == 0 {
            Ok(())
        } else {
            Err(errors)
        }
    }

    /// Replaces the whole buffer.
    pub fn set_dmx_buffer(&mut self, new_buffer: &[u8; DMX_BUFFER_LENGTH])
        ensures
            final(self).id == old(self).id,
            final(self).fixtures == old(self).fixtures,
            final(self).fade == old(self).fade,
            final(self).buffer() == new_buffer@,
    {
        self.dmx_buffer = *new_buffer;
    }

    /// A copy of the whole buffer.
    pub fn snapshot(&self) -> (r: [u8; DMX_BUFFER_LENGTH])
        ensures
            r@ == self.buffer(),
    {
        self.dmx_buffer
    }

    /// The byte at buffer index `index`, or 0 past the end.
    pub fn channel_value(&self, index: usize) -> (r: u8)
        ensures
            r == if index < DMX_BUFFER_LENGTH { self.buffer()[index as int] } else { 0 },
    {
        if index < DMX_BUFFER_LENGTH {
            self.dmx_buffer[index]
        } else {
            0
        }
    }

    /// `r` is what fixture `fixture_channel` has, as `channel_info` gives it.
    pub open spec fn describes_channels(&self, fixture_channel: int, r: Option<Vec<(String, usize, usize)>>) -> bool {
        match self.fixture_at(fixture_channel) {
            None => r is None,
            Some(f) => r is Some && {
                let v = r.unwrap()@;
                let c = f.profile.channels@;
                &&& v.len() == c.len()
                &&& forall|i: int| 0 <= i < v.len() ==> {
                    &&& (#[trigger] v[i]).0@ == debug_label(c[i].0@)
                    &&& v[i].1 == f.dmx_start + c[i].1
                    &&& v[i].2 == c[i].1
                }
            },
        }
    }

    /// What fixture `fixture_channel` has: for each kind of its profile,
    /// in the profile's order, the kind's `Debug` form, the address it drives and
    /// its offset. `None` when nothing is patched there.
    pub fn channel_info(&self, fixture_channel: usize) -> (r: Option<Vec<(String, usize, usize)>>)
        ensures
            self.describes_channels(fixture_channel as int, r),
    {
        match self.get_fixture(fixture_channel) {
            None => None,
            Some(fixture) => {
                let profile = &fixture.profile;
                let n = profile.channels.len();
                let mut info: Vec<(String, usize, usize)> = Vec::new();
                let mut i: usize = 0;
                while i < n
                    invariant
                        n == profile.channels@.len(),
                        i <= n,
                        info@.len() == i,
                        forall|j: int| 0 <= j < i ==> {
                            &&& (#[trigger] info@[j]).0@ == debug_label(profile.channels@[j].0@)
                            &&& info@[j].1 == fixture.dmx_start + profile.channels@[j].1
                            &&& info@[j].2 == profile.channels@[j].1
                        },
                    decreases n - i,
                {
                    let offset = profile.channels[i].1 as usize;
                    info.push((profile.channels[i].0.debug_label(), fixture.dmx_start as usize + offset, offset));
                    i = i + 1;
                }
                Some(info)
            },
        }
    }

    /// The fade in progress, as sequences.
    pub open spec fn fade_view(&self) -> Option<FadeView> {
        match self.fade {
            Some(f) => Some(f@),
            None => None,
        }
    }

    /// Moves a fade in progress on by `step_ms`. Before its end the buffer
    /// becomes the interpolated frame; at or past its end the buffer
    /// becomes the fade's target exactly and the fade is over. Without a
    /// fade nothing changes.
    pub fn advance_fade(&mut self, step_ms: u32)
        ensures
            final(self).id == old(self).id,
            final(self).fixtures == old(self).fixtures,
            match old(self).fade {
                None => final(self).fade is None && final(self).buffer() == old(self).buffer(),
                Some(f) => if f.elapsed_ms + step_ms >= f.duration_ms {
                    final(self).fade is None && final(self).buffer() == f.to@
                } else {
                    &&& final(self).fade == Some(Fade { elapsed_ms: (f.elapsed_ms + step_ms) as u32, ..f })
                    &&& final(self).buffer() == fade_frame(f.from@, f.to@, f.elapsed_ms + step_ms, f.duration_ms as int)
                },
            },
    {
        let (from, to, duration, elapsed) = match &self.fade {
            None => return,
            Some(f) => (f.from, f.to, f.duration_ms, f.elapsed_ms),
        };
        if elapsed as u64 + step_ms as u64 >= duration as u64 {
            self.dmx_buffer = to;
            self.fade = None;
            return;
        }
        let now = elapsed + step_ms;
        let mut frame = [0u8; DMX_BUFFER_LENGTH];
        let mut i: usize = 0;
        while i < DMX_BUFFER_LENGTH
            invariant
                0 < duration,
                now < duration,
                i <= DMX_BUFFER_LENGTH,
                forall|j: int| 0 <= j < i ==> frame@[j] == faded(from@[j], to@[j], now as int, duration as int),
            decreases DMX_BUFFER_LENGTH - i,
        {
            frame[i] = interpolate(from[i], to[i], now, duration);
            i = i + 1;
        }
        assert(frame@ =~= fade_frame(from@, to@, now as int, duration as int));
        self.dmx_buffer = frame;
        self.fade = Some(Fade { from, to, duration_ms: duration, elapsed_ms: now });
    }

    /// Sets one channel address. Address 0 (the start code) and addresses
    /// past 512 are refused and leave the buffer as it was.
    pub fn set_dmx_address(&mut self, dmx_address: usize, value: u8) -> (r: Result<(), UniverseError>)
        ensures
            final(self).id == old(self).id,
            final(self).fixtures == old(self).fixtures,
            final(self).fade == old(self).fade,
            valid_address(dmx_address as int) ==> r is Ok && final(self).buffer() == old(self).buffer().update(dmx_address as int, value),
            !valid_address(dmx_address as int) ==> r == Err::<(), UniverseError>(address_error(dmx_address as int))
                && final(self).buffer() == old(self).buffer(),
    {
        if dmx_address == 0 {
            return Err(UniverseError::ReservedAddress);
        }
        if dmx_address >= DMX_BUFFER_LENGTH {
            return Err(UniverseError::AddressOutOfRange(dmx_address));
        }
        self.dmx_buffer[dmx_address] = value;
        Ok(())
    }
}

} // verus!

verus! {

/// Whether `a` is the intensity address of a fixture patched in `slots`.
pub open spec fn is_intensity_address(slots: Seq<Option<PatchedFixture>>, a: int) -> bool {
    exists|i: int|
        0 <= i < slots.len() && #[trigger] slots[i] is Some && target_address(slots[i].unwrap(), KindView::Intensity) == Some(a)
}

/// Setting a channel address and reading it back gives the value set, and
/// no other byte changes.
pub proof fn law_set_then_read(buf: Seq<u8>, a: int, v: u8)
    requires
        buf.len() == DMX_BUFFER_LENGTH,
        valid_address(a),
    ensures
        buf.update(a, v)[a] == v,
        forall|b: int| 0 <= b < DMX_BUFFER_LENGTH && b != a ==> buf.update(a, v)[b] == buf[b],
{
}

/// Patching a fixture and then setting one of its kinds `c` to `v` stores
/// `v` at the fixture's start address plus the kind's offset, whenever the
/// start is a channel address and that sum is one too.
pub proof fn law_patch_then_set(table: Seq<Option<PatchedFixture>>, buf: Seq<u8>, f: PatchedFixture, c: ChannelType, v: u8)
    requires
        buf.len() == DMX_BUFFER_LENGTH,
        f.profile.offset_of(c@) is Some,
        1 <= f.dmx_start,
        f.dmx_start + f.profile.offset_of(c@).unwrap() < DMX_BUFFER_LENGTH,
    ensures
        patched(table, f)[f.channel as int] == Some(f),
        write_error(planned_writes(f, seq![(c, v)])) is None,
        apply_writes(buf, planned_writes(f, seq![(c, v)]))[f.dmx_start + f.profile.offset_of(c@).unwrap()] == v,
{
    let vs = seq![(c, v)];
    let a = f.dmx_start + f.profile.offset_of(c@).unwrap();
    assert(vs.drop_last() =~= Seq::<(ChannelType, u8)>::empty());
    assert(planned_writes(f, vs.drop_last()) == Seq::<(usize, u8)>::empty());
    let w = planned_writes(f, vs);
    assert(w == seq![(a as usize, v)]);
    assert(w.drop_first() =~= Seq::<(usize, u8)>::empty());
    assert(apply_writes(buf.update(a, v), w.drop_first()) == buf.update(a, v));
    assert(write_error(w.drop_first()) is None);
}

/// A blackout drives each patched fixture's intensity address to 0,
/// where it is a channel address, and leaves every other byte as it was.
pub proof fn law_blackout(buf: Seq<u8>, slots: Seq<Option<PatchedFixture>>)
    requires
        buf.len() == DMX_BUFFER_LENGTH,
    ensures
        blackout_of(buf, slots).0.len() == buf.len(),
        forall|a: int|
            0 <= a < buf.len() ==> #[trigger] blackout_of(buf, slots).0[a] == if is_intensity_address(slots, a) && valid_address(a) {
                0
            } else {
                buf[a]
            },
    decreases slots.len(),
{
    if slots.len() > 0 {
        let rest = slots.drop_first();
        let next = match slots[0] {
            None => buf,
            Some(f) => match target_address(f, KindView::Intensity) {
                None => buf,
                Some(t) => if valid_address(t) {
                    buf.update(t, 0)
                } else {
                    buf
                },
            },
        };
        assert(blackout_of(buf, slots).0 == blackout_of(next, rest).0);
        law_blackout(next, rest);
        assert forall|a: int| 0 <= a < buf.len() implies #[trigger] blackout_of(buf, slots).0[a] == if is_intensity_address(slots, a) && valid_address(a) {
            0
        } else {
            buf[a]
        } by {
            let here = slots[0] is Some && target_address(slots[0].unwrap(), KindView::Intensity) == Some(a);
            if is_intensity_address(rest, a) {
                let i = choose|i: int|
                    0 <= i < rest.len() && #[trigger] rest[i] is Some && target_address(rest[i].unwrap(), KindView::Intensity) == Some(a);
                assert(slots[i + 1] == rest[i]);
            }
            if here {
                assert(slots[0] is Some);
            }
            if is_intensity_address(slots, a) && !here {
                let i = choose|i: int|
                    0 <= i < slots.len() && #[trigger] slots[i] is Some && target_address(slots[i].unwrap(), KindView::Intensity) == Some(a);
                assert(i != 0);
                assert(rest[i - 1] == slots[i]);
            }
        }
    }
}

} // verus!
