//! Commands that control surfaces send to the thread that owns the
//! universe, and that thread's handling of them.
use std::sync::mpsc::{Receiver, Sender};
use vstd::prelude::*;

use crate::kind::{ChannelType, KindView};
use crate::profile::PatchedFixture;
use crate::universe::{
    address_error, apply_writes, blackout_of, planned_writes, target_address, valid_address, write_error, Fade, FadeView,
    Universe, UniverseError,
    DMX_BUFFER_LENGTH,
};

verus! {

#[verifier::external_type_specification]
#[verifier::external_body]
#[verifier::reject_recursive_types(T)]
pub struct ExSender<T>(Sender<T>);

#[verifier::external_type_specification]
#[verifier::external_body]
#[verifier::reject_recursive_types(T)]
pub struct ExReceiver<T>(Receiver<T>);

/// Most commands handled in one pass, so that a flood of commands cannot
/// hold back the next frame.
pub const COMMAND_BATCH: usize = 100;

/// Nanoseconds between two frames: 25 ms, a 40 Hz refresh.
pub const FRAME_INTERVAL_NANOS: u64 = 25_000_000;

/// A request to the thread that owns the universe. Queries carry the
/// sending end of a one-shot reply channel.
#[derive(Debug)]
pub enum UniverseCommand {
    /// Set one address.
    SetChannel { channel: usize, value: u8 },
    /// Set several addresses, in order.
    SetMultiple { changes: Vec<(usize, u8)> },
    /// Apply a cue's snapshot.
    PlayCue { cue_idx: usize, cue_data: [u8; DMX_BUFFER_LENGTH], fade_time_ms: u32 },
    /// Set a fixture's intensity and/or colour.
    SetFixture { fixture_channel: usize, intensity: Option<u8>, color: Option<(u8, u8, u8)> },
    /// Drive every fixture's intensity to 0.
    Blackout,
    /// Ask for the byte at one buffer index.
    GetChannelValue { channel: usize, response: Sender<u8> },
    /// Ask for a fixture's channels: (kind name, address, offset) each.
    GetChannels { fixture_channel: usize, response: Sender<Option<Vec<(String, usize, usize)>>> },
    /// Ask for the whole buffer.
    GetDMXState(Sender<[u8; DMX_BUFFER_LENGTH]>),
}

/// The pairs that a `SetFixture` command sets: intensity first, then red,
/// green and blue, each only where given.
pub open spec fn fixture_values(intensity: Option<u8>, color: Option<(u8, u8, u8)>) -> Seq<(ChannelType, u8)> {
    let first: Seq<(ChannelType, u8)> = match intensity {
        Some(i) => seq![(ChannelType::Intensity, i)],
        None => Seq::empty(),
    };
    match color {
        Some((r, g, b)) => first + seq![(ChannelType::Red, r), (ChannelType::Green, g), (ChannelType::Blue, b)],
        None => first,
    }
}

/// The notice for kind `kind` of a `SetFixture` request, where fixture `f`
/// lacks it.
pub open spec fn notice_if_lacking(f: PatchedFixture, fixture_channel: usize, kind: ChannelType) -> Seq<UniverseError> {
    if target_address(f, kind@) is None {
        seq![UniverseError::UnsupportedKind { fixture_channel, kind }]
    } else {
        Seq::empty()
    }
}

/// The kinds that a `SetFixture` request asks of fixture `f` and that the
/// fixture lacks, in the request's order, as notices.
pub open spec fn fixture_notices(f: PatchedFixture, fixture_channel: usize, intensity: Option<u8>, color: Option<(u8, u8, u8)>) -> Seq<UniverseError> {
    let first = if intensity is Some {
        notice_if_lacking(f, fixture_channel, ChannelType::Intensity)
    } else {
        Seq::empty()
    };
    if color is Some {
        first + notice_if_lacking(f, fixture_channel, ChannelType::Red) + notice_if_lacking(f, fixture_channel, ChannelType::Green)
            + notice_if_lacking(f, fixture_channel, ChannelType::Blue)
    } else {
        first
    }
}

/// Adds the notice for `kind` to `notices` where fixture `f` lacks it.
fn note_if_lacking(notices: &mut Vec<UniverseError>, f: &PatchedFixture, fixture_channel: usize, kind: ChannelType)
    ensures
        final(notices)@ == old(notices)@ + notice_if_lacking(*f, fixture_channel, kind),
{
    let ghost k = kind;
    if f.profile.offset(&kind).is_none() {
        notices.push(UniverseError::UnsupportedKind { fixture_channel, kind });
        assert(final(notices)@ =~= old(notices)@ + notice_if_lacking(*f, fixture_channel, k));
    } else {
        assert(old(notices)@ + notice_if_lacking(*f, fixture_channel, k) =~= old(notices)@);
    }
}

/// The buffer after each change whose address is valid is made, in order;
/// the others are passed over.
pub open spec fn set_each(buf: Seq<u8>, changes: Seq<(usize, u8)>) -> Seq<u8>
    decreases changes.len(),
{
    if changes.len() == 0 {
        buf
    } else {
        let earlier = set_each(buf, changes.drop_last());
        if valid_address(changes.last().0 as int) {
            earlier.update(changes.last().0 as int, changes.last().1)
        } else {
            earlier
        }
    }
}

/// The errors of the changes whose address is refused, in order.
pub open spec fn refused(changes: Seq<(usize, u8)>) -> Seq<UniverseError>
    decreases changes.len(),
{
    if changes.len() == 0 {
        Seq::empty()
    } else if valid_address(changes.last().0 as int) {
        refused(changes.drop_last())
    } else {
        refused(changes.drop_last()).push(address_error(changes.last().0 as int))
    }
}

/// The fixture in slot `channel` of a patch table.
pub open spec fn slot(table: Seq<Option<PatchedFixture>>, channel: int) -> Option<PatchedFixture> {
    if 0 <= channel < table.len() {
        table[channel]
    } else {
        None
    }
}

/// What handling command `c` does to the buffer `buf` of a universe with
/// patch table `table`, and the errors it reports.
pub open spec fn command_buffer(table: Seq<Option<PatchedFixture>>, buf: Seq<u8>, c: UniverseCommand) -> (Seq<u8>, Seq<UniverseError>) {
    match c {
        UniverseCommand::SetChannel { channel, value } => if valid_address(channel as int) {
            (buf.update(channel as int, value), Seq::empty())
        } else {
            (buf, seq![address_error(channel as int)])
        },
        UniverseCommand::SetMultiple { changes } => (set_each(buf, changes@), refused(changes@)),
        UniverseCommand::PlayCue { cue_data, fade_time_ms, .. } => if fade_time_ms == 0 {
            (cue_data@, Seq::empty())
        } else {
            (buf, Seq::empty())
        },
        UniverseCommand::SetFixture { fixture_channel, intensity, color } => match slot(table, fixture_channel as int) {
            Some(f) => {
                let w = planned_writes(f, fixture_values(intensity, color));
                (apply_writes(buf, w), fixture_notices(f, fixture_channel, intensity, color) + match write_error(w) {
                    Some(e) => seq![e],
                    None => Seq::empty(),
                })
            },
            None => (buf, Seq::empty()),
        },
        UniverseCommand::Blackout => blackout_of(buf, table),
        _ => (buf, Seq::empty()),
    }
}

/// The fade in progress after command `c`, given the buffer `buf` and
/// fade `fade` before it: a cue with a fade time starts a fade from the
/// current buffer, any other change to the buffer ends the fade, and a
/// query leaves it running.
pub open spec fn command_fade(buf: Seq<u8>, fade: Option<FadeView>, c: UniverseCommand) -> Option<FadeView> {
    match c {
        UniverseCommand::PlayCue { cue_data, fade_time_ms, .. } => if fade_time_ms == 0 {
            None
        } else {
            Some(FadeView { from: buf, to: cue_data@, duration_ms: fade_time_ms, elapsed_ms: 0 })
        },
        UniverseCommand::GetChannelValue { .. } => fade,
        UniverseCommand::GetChannels { .. } => fade,
        UniverseCommand::GetDMXState(_) => fade,
        _ => None,
    }
}

/// The buffer and fade after the commands `cs` are handled in order.
pub open spec fn run_commands(
    table: Seq<Option<PatchedFixture>>,
    buf: Seq<u8>,
    fade: Option<FadeView>,
    cs: Seq<UniverseCommand>,
) -> (Seq<u8>, Option<FadeView>)
    decreases cs.len(),
{
    if cs.len() == 0 {
        (buf, fade)
    } else {
        let (b, f) = run_commands(table, buf, fade, cs.drop_last());
        (command_buffer(table, b, cs.last()).0, command_fade(b, f, cs.last()))
    }
}

/// The errors that handling the commands `cs` in order reports, in order.
pub open spec fn run_errors(
    table: Seq<Option<PatchedFixture>>,
    buf: Seq<u8>,
    fade: Option<FadeView>,
    cs: Seq<UniverseCommand>,
) -> Seq<UniverseError>
    decreases cs.len(),
{
    if cs.len() == 0 {
        Seq::empty()
    } else {
        let before = run_commands(table, buf, fade, cs.drop_last());
        run_errors(table, buf, fade, cs.drop_last()) + command_buffer(table, before.0, cs.last()).1
    }
}

/// Relies on `Sender::send`: hands the value to the receiving end. A reply
/// whose receiver is gone is dropped, as a best-effort reply may be.
#[verifier::external_body]
fn reply<T>(response: &Sender<T>, value: T) {
    let _ = response.send(value);
}

/// Relies on `Receiver::try_recv`: the next queued command, if one is
/// waiting, without blocking. What comes depends on the senders.
#[verifier::external_body]
fn next_command(commands: &Receiver<UniverseCommand>) -> Option<UniverseCommand> {
    commands.try_recv().ok()
}

/// A reply owed to a query: where it goes and what it says.
pub enum Answer {
    ChannelValue { response: Sender<u8>, value: u8 },
    Channels { response: Sender<Option<Vec<(String, usize, usize)>>>, channels: Option<Vec<(String, usize, usize)>> },
    DmxState { response: Sender<[u8; DMX_BUFFER_LENGTH]>, state: [u8; DMX_BUFFER_LENGTH] },
}

/// Whether `a` is the answer that query `c` gets from universe `u`: the
/// byte at the asked index (0 past the end), the fixture's channels as
/// `channel_info` gives them, or the whole buffer, each to the query's
/// reply channel. Other commands get no answer.
pub open spec fn answers(u: Universe, c: UniverseCommand, a: Option<Answer>) -> bool {
    match c {
        UniverseCommand::GetChannelValue { channel, response } => a == Some(Answer::ChannelValue {
            response,
            value: if channel < DMX_BUFFER_LENGTH { u.buffer()[channel as int] } else { 0 },
        }),
        UniverseCommand::GetChannels { fixture_channel, response } => match a {
            Some(Answer::Channels { response: to, channels }) => to == response && u.describes_channels(
                fixture_channel as int,
                channels,
            ),
            _ => false,
        },
        UniverseCommand::GetDMXState(response) => a == Some(Answer::DmxState { response, state: u.dmx_buffer }),
        _ => a is None,
    }
}

/// Sends an answer to its reply channel; an answer whose receiver is gone
/// is dropped.
pub fn send_answer(answer: Answer) {
    match answer {
        Answer::ChannelValue { response, value } => reply(&response, value),
        Answer::Channels { response, channels } => reply(&response, channels),
        Answer::DmxState { response, state } => reply(&response, state),
    }
}

/// Handles one command on the universe. Mutations go through the
/// universe's checked setters; queries are answered on their reply
/// channel with the state as it is now. Returns the errors met, for the
/// caller to log; none of them stops the handling.
///
/// A cue without a fade time is applied at once; one with a fade time
/// starts a fade toward it, which `Universe::advance_fade` moves on.
pub fn process_command(universe: &mut Universe, command: UniverseCommand) -> (r: Vec<UniverseError>)
    ensures
        final(universe).id == old(universe).id,
        final(universe).fixtures == old(universe).fixtures,
        final(universe).buffer() == command_buffer(old(universe).fixtures@, old(universe).buffer(), command).0,
        final(universe).fade_view() == command_fade(old(universe).buffer(), old(universe).fade_view(), command),
        r@ == command_buffer(old(universe).fixtures@, old(universe).buffer(), command).1,
{
    let (errors, answer) = apply_command(universe, command);
    match answer {
        Some(a) => send_answer(a),
        None => {},
    }
    errors
}

/// Applies one command to the universe, as `process_command` does, and
/// returns the errors met with the answer owed to a query, unsent.
pub fn apply_command(universe: &mut Universe, command: UniverseCommand) -> (r: (Vec<UniverseError>, Option<Answer>))
    ensures
        final(universe).id == old(universe).id,
        final(universe).fixtures == old(universe).fixtures,
        final(universe).buffer() == command_buffer(old(universe).fixtures@, old(universe).buffer(), command).0,
        final(universe).fade_view() == command_fade(old(universe).buffer(), old(universe).fade_view(), command),
        r.0@ == command_buffer(old(universe).fixtures@, old(universe).buffer(), command).1,
        answers(*old(universe), command, r.1),
{
    let mut errors: Vec<UniverseError> = Vec::new();
    let mut answer: Option<Answer> = None;
    match command {
        UniverseCommand::SetChannel { channel, value } => {
            match universe.set_dmx_address(channel, value) {
                Ok(()) => {},
                Err(e) => errors.push(e),
            }
            assert(errors@ =~= command_buffer(old(universe).fixtures@, old(universe).buffer(), command).1);
            universe.fade = None;
        },
        UniverseCommand::SetMultiple { changes } => {
            let n = changes.len();
            let mut i: usize = 0;
            while i < n
                invariant
                    n == changes@.len(),
                    i <= n,
                    universe.id == old(universe).id,
                    universe.fixtures == old(universe).fixtures,
                    universe.buffer() == set_each(old(universe).buffer(), changes@.take(i as int)),
                    answer is None,
                    errors@ == refused(changes@.take(i as int)),
                decreases n - i,
            {
                assert(changes@.take(i + 1).drop_last() =~= changes@.take(i as int));
                let (channel, value) = changes[i];
                match universe.set_dmx_address(channel, value) {
                    Ok(()) => {},
                    Err(e) => errors.push(e),
                }
                i = i + 1;
            }
            assert(changes@.take(n as int) =~= changes@);
            universe.fade = None;
        },
        UniverseCommand::PlayCue { cue_idx: _, cue_data, fade_time_ms } => {
            if fade_time_ms == 0 {
                universe.set_dmx_buffer(&cue_data);
                universe.fade = None;
            } else {
                let from = universe.snapshot();
                universe.fade = Some(Fade { from, to: cue_data, duration_ms: fade_time_ms, elapsed_ms: 0 });
            }
        },
        UniverseCommand::SetFixture { fixture_channel, intensity, color } => {
            if let Some(f) = universe.get_fixture(fixture_channel) {
                let ghost fx = *f;
                let mut notices: Vec<UniverseError> = Vec::new();
                if intensity.is_some() {
                    note_if_lacking(&mut notices, f, fixture_channel, ChannelType::Intensity);
                }
                if color.is_some() {
                    note_if_lacking(&mut notices, f, fixture_channel, ChannelType::Red);
                    note_if_lacking(&mut notices, f, fixture_channel, ChannelType::Green);
                    note_if_lacking(&mut notices, f, fixture_channel, ChannelType::Blue);
                }
                proof {
                    let e = Seq::<UniverseError>::empty();
                    let first = if intensity is Some { notice_if_lacking(fx, fixture_channel, ChannelType::Intensity) } else { e };
                    assert(e + first =~= first);
                }
                assert(notices@ =~= fixture_notices(fx, fixture_channel, intensity, color));
                let mut updates: Vec<(ChannelType, u8)> = Vec::new();
                match intensity {
                    Some(value) => updates.push((ChannelType::Intensity, value)),
                    None => {},
                }
                match color {
                    Some((r, g, b)) => {
                        updates.push((ChannelType::Red, r));
                        updates.push((ChannelType::Green, g));
                        updates.push((ChannelType::Blue, b));
                    },
                    None => {},
                }
                assert(updates@ =~= fixture_values(intensity, color));
                match universe.set_fixture_values(fixture_channel, updates.as_slice()) {
                    Ok(_) => {},
                    Err(e) => notices.push(e),
                }
                errors.append(&mut notices);
            }
            universe.fade = None;
        },
        UniverseCommand::Blackout => {
            match universe.blackout() {
                Ok(()) => {},
                Err(mut refused) => errors.append(&mut refused),
            }
            universe.fade = None;
        },
        UniverseCommand::GetChannelValue { channel, response } => {
            answer = Some(Answer::ChannelValue { response, value: universe.channel_value(channel) });
        },
        UniverseCommand::GetChannels { fixture_channel, response } => {
            answer = Some(Answer::Channels { response, channels: universe.channel_info(fixture_channel) });
        },
        UniverseCommand::GetDMXState(response) => {
            answer = Some(Answer::DmxState { response, state: universe.dmx_buffer });
        },
    }
    (errors, answer)
}

/// Handles the commands waiting on `commands`, oldest first, up to
/// `limit` of them, without blocking. Returns how many were handled and
/// the errors they met.
///
/// The buffer and fade end as handling some `count` commands in order
/// would leave them; the patch table is not touched.
pub fn drain_commands(universe: &mut Universe, commands: &Receiver<UniverseCommand>, limit: usize) -> (r: (usize, Vec<UniverseError>))
    ensures
        r.0 <= limit,
        final(universe).id == old(universe).id,
        final(universe).fixtures == old(universe).fixtures,
        exists|cs: Seq<UniverseCommand>|
            {
                &&& cs.len() == r.0
                &&& (final(universe).buffer(), final(universe).fade_view()) == run_commands(
                    old(universe).fixtures@,
                    old(universe).buffer(),
                    old(universe).fade_view(),
                    cs,
                )
                &&& r.1@ == run_errors(old(universe).fixtures@, old(universe).buffer(), old(universe).fade_view(), cs)
            },
{
    let ghost table = universe.fixtures@;
    let ghost buf0 = universe.buffer();
    let ghost fade0 = universe.fade_view();
    let ghost mut handled: Seq<UniverseCommand> = Seq::empty();
    let mut errors: Vec<UniverseError> = Vec::new();
    let mut count: usize = 0;
    while count < limit
        invariant
            count <= limit,
            handled.len() == count,
            table == old(universe).fixtures@,
            buf0 == old(universe).buffer(),
            fade0 == old(universe).fade_view(),
            universe.id == old(universe).id,
            universe.fixtures == old(universe).fixtures,
            (universe.buffer(), universe.fade_view()) == run_commands(table, buf0, fade0, handled),
            errors@ == run_errors(table, buf0, fade0, handled),
        decreases limit - count,
    {
        match next_command(commands) {
            None => break,
            Some(command) => {
                let ghost c = command;
                let mut met = process_command(universe, command);
                errors.append(&mut met);
                proof {
                    assert(handled.push(c).drop_last() =~= handled);
                    handled = handled.push(c);
                }
                count = count + 1;
            },
        }
    }
    (count, errors)
}

/// Whether a frame is due, `elapsed_nanos` after the last one was sent.
pub fn transmit_due(elapsed_nanos: u64) -> (r: bool)
    ensures
        r == (elapsed_nanos >= FRAME_INTERVAL_NANOS),
{
    elapsed_nanos >= FRAME_INTERVAL_NANOS
}

} // verus!
