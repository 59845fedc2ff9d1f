//! Cues: named snapshots of the universe with a fade time, kept in
//! playback order, and the engine that steps through them.
use vstd::prelude::*;

use crate::command::UniverseCommand;
use crate::text::same_text;
use crate::universe::DMX_BUFFER_LENGTH;

verus! {

/// A recorded cue: its name, its fade-in time in milliseconds, and the
/// whole buffer as it was when it was recorded.
pub struct Cue {
    pub name: String,
    pub time_in_ms: u64,
    pub channels: [u8; DMX_BUFFER_LENGTH],
}

/// Why a cue operation was refused.
#[derive(Debug, PartialEq, Eq, Structural)]
pub enum CueError {
    /// No cue has the given name.
    NoSuchCue,
    /// No cue stands at this index.
    IndexOutOfBounds(usize),
    /// GO found no cue at this index.
    NoCueAvailable(usize),
    /// BACK was asked for before any cue was played.
    NoCurrentCue,
    /// BACK was asked for at the first cue.
    AlreadyAtFirstCue,
    /// No cue has this (1-based) number.
    CueNumberNotFound(usize),
}

/// Steps through a sequence of cues. The current position is absent until
/// a cue has been played; GO, BACK and GOTO move it and hand back the
/// command that plays the cue reached, for the caller to send.
pub struct CueEngine {
    current_cue: Option<usize>,
    cues: Vec<Cue>,
}

/// The index of the first cue named `name`.
pub open spec fn cue_index(cues: Seq<Cue>, name: Seq<char>) -> Option<int> {
    if exists|i: int| is_first_cue_named(cues, name, i) {
        Some(choose|i: int| is_first_cue_named(cues, name, i))
    } else {
        None
    }
}

pub open spec fn is_first_cue_named(cues: Seq<Cue>, name: Seq<char>, i: int) -> bool {
    &&& 0 <= i < cues.len()
    &&& cues[i].name@ == name
    &&& forall|j: int| 0 <= j < i ==> cues[j].name@ != name
}

/// The fade time that a play command carries: the cue's time, or the
/// longest a command can carry where the cue's is longer.
pub open spec fn fade_of(cue: Cue) -> u32 {
    if cue.time_in_ms > u32::MAX {
        u32::MAX
    } else {
        cue.time_in_ms as u32
    }
}

/// The command that plays `cue`, the cue at index `idx`.
pub open spec fn play_of(cue: Cue, idx: int) -> UniverseCommand {
    UniverseCommand::PlayCue { cue_idx: idx as usize, cue_data: cue.channels, fade_time_ms: fade_of(cue) }
}

/// The position after the cue at `deleted` is removed: a later position
/// moves down with its cue; the position of the removed cue moves to the
/// cue before it (or is cleared at the first), so that GO plays the cue
/// that followed the removed one.
pub open spec fn position_after_delete(position: Option<usize>, deleted: int) -> Option<usize> {
    match position {
        None => None,
        Some(c) => if c < deleted {
            Some(c)
        } else if c == 0 {
            None
        } else {
            Some((c - 1) as usize)
        },
    }
}

proof fn lemma_first_cue_kept(cues: Seq<Cue>, i: int, c: Cue, name: Seq<char>)
    requires
        cue_index(cues, name) == Some(i),
        c.name@ == name,
    ensures
        cue_index(cues.update(i, c), name) == Some(i),
{
    let s = cues.update(i, c);
    assert(is_first_cue_named(cues, name, i)) by {
        let k = choose|k: int| is_first_cue_named(cues, name, k);
        assert(!(k < i) && !(i < k));
    }
    assert(is_first_cue_named(s, name, i));
    let k = choose|k: int| is_first_cue_named(s, name, k);
    assert(!(k < i) && !(i < k));
}

impl CueEngine {
    /// The cues, in playback order.
    pub closed spec fn cues(&self) -> Seq<Cue> {
        self.cues@
    }

    /// The index of the cue played last, if one has been played.
    pub closed spec fn position(&self) -> Option<usize> {
        self.current_cue
    }

    /// The position, when there is one, names a cue.
    pub closed spec fn wf(&self) -> bool {
        self.current_cue matches Some(c) ==> c < self.cues@.len()
    }

    /// An engine with no cues and no position.
    pub fn new() -> (r: CueEngine)
        ensures
            r.wf(),
            r.cues().len() == 0,
            r.position() is None,
    {
        CueEngine { current_cue: None, cues: Vec::new() }
    }

    /// The number of cues.
    pub fn len(&self) -> (r: usize)
        ensures
            r == self.cues().len(),
    {
        self.cues.len()
    }

    /// The index of the cue played last, if one has been played.
    pub fn current(&self) -> (r: Option<usize>)
        ensures
            r == self.position(),
    {
        self.current_cue
    }

    /// Puts the position back to `position`, as a caller does when the
    /// command that a move handed out could not be sent. Fails, changing
    /// nothing, when `position` names no cue.
    pub fn set_position(&mut self, position: Option<usize>) -> (r: Result<(), CueError>)
        requires
            old(self).wf(),
        ensures
            final(self).wf(),
            final(self).cues() == old(self).cues(),
            position is Some && position.unwrap() >= old(self).cues().len() ==> r == Err::<(), CueError>(
                CueError::IndexOutOfBounds(position.unwrap()),
            ) && final(self).position() == old(self).position(),
            !(position is Some && position.unwrap() >= old(self).cues().len()) ==> r is Ok && final(self).position()
                == position,
    {
        match position {
            Some(c) => {
                if c >= self.cues.len() {
                    return Err(CueError::IndexOutOfBounds(c));
                }
            },
            None => {},
        }
        self.current_cue = position;
        Ok(())
    }

    /// The cue at `index`, if there is one.
    pub fn cue(&self, index: usize) -> (r: Option<&Cue>)
        ensures
            index < self.cues().len() ==> r is Some && *r.unwrap() == self.cues()[index as int],
            index >= self.cues().len() ==> r is None,
    {
        if index < self.cues.len() {
            Some(&self.cues[index])
        } else {
            None
        }
    }

    /// The index of the first cue named `name`.
    fn find(&self, name: &str) -> (r: Option<usize>)
        ensures
            r matches Some(i) ==> cue_index(self.cues(), name@) == Some(i as int),
            r is None ==> cue_index(self.cues(), name@) is None,
    {
        let n = self.cues.len();
        let mut i: usize = 0;
        while i < n
            invariant
                n == self.cues@.len(),
                i <= n,
                forall|j: int| 0 <= j < i ==> self.cues@[j].name@ != name@,
            decreases n - i,
        {
            if same_text(self.cues[i].name.as_str(), name) {
                proof {
                    assert(is_first_cue_named(self.cues@, name@, i as int));
                    let c = choose|c: int| is_first_cue_named(self.cues@, name@, c);
                    assert(!(c < i) && !(i < c));
                }
                return Some(i);
            }
            i = i + 1;
        }
        None
    }

    /// The command that plays the cue at `idx`.
    fn play(&self, idx: usize) -> (r: UniverseCommand)
        requires
            idx < self.cues().len(),
        ensures
            r == play_of(self.cues()[idx as int], idx as int),
    {
        let cue = &self.cues[idx];
        UniverseCommand::PlayCue {
            cue_idx: idx,
            cue_data: cue.channels,
            fade_time_ms: if cue.time_in_ms > u32::MAX as u64 {
                u32::MAX
            } else {
                cue.time_in_ms as u32
            },
        }
    }

    /// Records the buffer `state` as cue `name` with fade-in time
    /// `time_in` (ms). A cue of that name is overwritten where it stands
    /// in the sequence; otherwise the cue is appended. The position does
    /// not move.
    pub fn record_cue(&mut self, name: &str, time_in: u64, state: [u8; DMX_BUFFER_LENGTH])
        requires
            old(self).wf(),
        ensures
            final(self).wf(),
            final(self).position() == old(self).position(),
            match cue_index(old(self).cues(), name@) {
                Some(i) => {
                    &&& final(self).cues().len() == old(self).cues().len()
                    &&& forall|j: int| 0 <= j < old(self).cues().len() && j != i ==> final(self).cues()[j] == old(self).cues()[j]
                    &&& final(self).cues()[i].name@ == name@
                    &&& final(self).cues()[i].time_in_ms == time_in
                    &&& final(self).cues()[i].channels == state
                    &&& cue_index(final(self).cues(), name@) == Some(i)
                },
                None => {
                    &&& final(self).cues().len() == old(self).cues().len() + 1
                    &&& final(self).cues().drop_last() == old(self).cues()
                    &&& final(self).cues().last().name@ == name@
                    &&& final(self).cues().last().time_in_ms == time_in
                    &&& final(self).cues().last().channels == state
                },
            },
    {
        match self.find(name) {
            Some(i) => {
                let cue = Cue { name: name.to_string(), time_in_ms: time_in, channels: state };
                proof {
                    lemma_first_cue_kept(self.cues@, i as int, cue, name@);
                }
                self.cues.set(i, cue);
            },
            None => {
                self.cues.push(Cue { name: name.to_string(), time_in_ms: time_in, channels: state });
                assert(self.cues@.drop_last() =~= old(self).cues@);
            },
        }
    }

    /// Deletes the cue named `cue_id`; fails, changing nothing, when there
    /// is none. The position follows `position_after_delete`.
    pub fn delete_cue(&mut self, cue_id: &str) -> (r: Result<(), CueError>)
        requires
            old(self).wf(),
        ensures
            final(self).wf(),
            match cue_index(old(self).cues(), cue_id@) {
                None => r == Err::<(), CueError>(CueError::NoSuchCue)
                    && final(self).cues() == old(self).cues()
                    && final(self).position() == old(self).position(),
                Some(i) => r is Ok
                    && final(self).cues() == old(self).cues().remove(i)
                    && final(self).position() == position_after_delete(old(self).position(), i),
            },
    {
        match self.find(cue_id) {
            Some(i) => self.delete_cue_idx(i),
            None => Err(CueError::NoSuchCue),
        }
    }

    /// Deletes the cue at index `cue_index`; fails, changing nothing, when
    /// there is none. The position follows `position_after_delete`.
    pub fn delete_cue_idx(&mut self, cue_index: usize) -> (r: Result<(), CueError>)
        requires
            old(self).wf(),
        ensures
            final(self).wf(),
            cue_index < old(self).cues().len() ==> r is Ok
                && final(self).cues() == old(self).cues().remove(cue_index as int)
                && final(self).position() == position_after_delete(old(self).position(), cue_index as int),
            cue_index >= old(self).cues().len() ==> r == Err::<(), CueError>(CueError::IndexOutOfBounds(cue_index))
                && final(self).cues() == old(self).cues()
                && final(self).position() == old(self).position(),
    {
        if cue_index >= self.cues.len() {
            return Err(CueError::IndexOutOfBounds(cue_index));
        }
        self.cues.remove(cue_index);
        self.current_cue = match self.current_cue {
            None => None,
            Some(c) => if c < cue_index {
                Some(c)
            } else if c == 0 {
                None
            } else {
                Some(c - 1)
            },
        };
        Ok(())
    }

    /// GO: plays the cue after the current one, or the first cue when none
    /// has been played, and moves the position there. Fails, changing
    /// nothing, when no cue stands there.
    pub fn go(&mut self) -> (r: Result<UniverseCommand, CueError>)
        requires
            old(self).wf(),
        ensures
            final(self).wf(),
            final(self).cues() == old(self).cues(),
            ({
                let target: int = match old(self).position() {
                    None => 0,
                    Some(c) => c + 1,
                };
                if target < old(self).cues().len() {
                    &&& r == Ok::<UniverseCommand, CueError>(play_of(old(self).cues()[target], target))
                    &&& final(self).position() == Some(target as usize)
                } else {
                    &&& r == Err::<UniverseCommand, CueError>(CueError::NoCueAvailable(target as usize))
                    &&& final(self).position() == old(self).position()
                }
            }),
    {
        let n = self.cues.len();
        let target = match self.current_cue {
            None => 0,
            Some(c) => c + 1,
        };
        if target < n {
            let command = self.play(target);
            self.current_cue = Some(target);
            Ok(command)
        } else {
            Err(CueError::NoCueAvailable(target))
        }
    }

    /// BACK: plays the cue before the current one and moves the position
    /// there. Fails, changing nothing, when no cue has been played or the
    /// current cue is the first.
    pub fn back(&mut self) -> (r: Result<UniverseCommand, CueError>)
        requires
            old(self).wf(),
        ensures
            final(self).wf(),
            final(self).cues() == old(self).cues(),
            match old(self).position() {
                None => r == Err::<UniverseCommand, CueError>(CueError::NoCurrentCue)
                    && final(self).position() == old(self).position(),
                Some(c) => if c == 0 {
                    r == Err::<UniverseCommand, CueError>(CueError::AlreadyAtFirstCue)
                        && final(self).position() == old(self).position()
                } else {
                    r == Ok::<UniverseCommand, CueError>(play_of(old(self).cues()[c - 1], c - 1))
                        && final(self).position() == Some((c - 1) as usize)
                },
            },
    {
        match self.current_cue {
            None => Err(CueError::NoCurrentCue),
            Some(c) => {
                if c == 0 {
                    Err(CueError::AlreadyAtFirstCue)
                } else {
                    let command = self.play(c - 1);
                    self.current_cue = Some(c - 1);
                    Ok(command)
                }
            },
        }
    }

    /// GOTO by name: plays the cue named `cue_id` and moves the position
    /// there. Fails, changing nothing, when there is none.
    pub fn go_to_cue(&mut self, cue_id: &str) -> (r: Result<UniverseCommand, CueError>)
        requires
            old(self).wf(),
        ensures
            final(self).wf(),
            final(self).cues() == old(self).cues(),
            match cue_index(old(self).cues(), cue_id@) {
                None => r == Err::<UniverseCommand, CueError>(CueError::NoSuchCue)
                    && final(self).position() == old(self).position(),
                Some(i) => r == Ok::<UniverseCommand, CueError>(play_of(old(self).cues()[i], i))
                    && final(self).position() == Some(i as usize),
            },
    {
        match self.find(cue_id) {
            Some(i) => {
                let command = self.play(i);
                self.current_cue = Some(i);
                Ok(command)
            },
            None => Err(CueError::NoSuchCue),
        }
    }

    /// GOTO by number: plays cue number `cue_number` (counting from 1) and
    /// moves the position there. Fails, changing nothing, when there is
    /// no such cue.
    pub fn go_to_cue_idx(&mut self, cue_number: usize) -> (r: Result<UniverseCommand, CueError>)
        requires
            old(self).wf(),
        ensures
            final(self).wf(),
            final(self).cues() == old(self).cues(),
            1 <= cue_number <= old(self).cues().len() ==> r == Ok::<UniverseCommand, CueError>(
                play_of(old(self).cues()[cue_number - 1], cue_number - 1),
            ) && final(self).position() == Some((cue_number - 1) as usize),
            !(1 <= cue_number <= old(self).cues().len()) ==> r == Err::<UniverseCommand, CueError>(
                CueError::CueNumberNotFound(cue_number),
            ) && final(self).position() == old(self).position(),
    {
        if cue_number >= 1 && cue_number <= self.cues.len() {
            let command = self.play(cue_number - 1);
            self.current_cue = Some(cue_number - 1);
            Ok(command)
        } else {
            Err(CueError::CueNumberNotFound(cue_number))
        }
    }
}

} // verus!
