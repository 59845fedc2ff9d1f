//! Control plane of a DMX512 lighting engine: channel kinds and fixture
//! profiles, the universe with its patch table and output buffer, the
//! commands that mutate or query it, a cue engine for playback, and the
//! text console's command language.

pub mod command;
pub mod console;
pub mod cue;
pub mod kind;
pub mod ofl;
pub mod profile;
pub mod text;
pub mod universe;

pub use command::{drain_commands, process_command, transmit_due, UniverseCommand, COMMAND_BATCH};
pub use console::{parse_command, parse_intensity, ChannelAction, ConsoleCommand, ParseError};
pub use cue::{Cue, CueEngine, CueError};
pub use kind::ChannelType;
pub use profile::{FixtureInfo, FixtureProfile, PatchedFixture};
pub use universe::{Universe, UniverseError, DMX_BUFFER_LENGTH};
