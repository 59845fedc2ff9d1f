//! The text console's command language: one line, split into words, is
//! read as a command for the universe or the cue engine.
use vstd::prelude::*;

use crate::command::UniverseCommand;
use crate::text::{contains_text, occurs_in, same_text};

verus! {

/// The argument that a parse error is about.
#[derive(Debug, Clone, Copy, PartialEq, Eq, Structural)]
pub enum Arg {
    Channel,
    Address,
    FixtureChannel,
    Red,
    Green,
    Blue,
    CueName,
    TimeIn,
}

/// Why a console line is not a command.
#[derive(Debug, PartialEq, Eq)]
pub enum ParseError {
    /// The line holds no word.
    EmptyCommand,
    /// The argument is not there.
    MissingArgument(Arg),
    /// The argument is not a number of the kind asked for.
    InvalidArgument(Arg),
    /// `c <channel> @` without an intensity.
    MissingIntensity,
    /// The intensity is neither a byte nor full.
    InvalidIntensity,
    /// `c <channel>` followed by neither `@` nor `rgb`.
    ChannelUsage,
    /// `a <address> @` without a value.
    MissingValue,
    /// The first word is no command.
    UnknownCommand(String),
}

/// What a `c` command does to its fixture.
#[derive(Debug, Clone, Copy, PartialEq, Eq, Structural)]
pub enum ChannelAction {
    Intensity(u8),
    Rgb(u8, u8, u8),
}

/// A console command.
#[derive(Debug, PartialEq, Eq)]
pub enum ConsoleCommand {
    /// `c <channel> @ <intensity>` or `c <channel> rgb <r> <g> <b>`
    Channel { channel: usize, action: ChannelAction },
    /// `a <address> @ <value>`
    Address { address: usize, value: u8 },
    /// `blackout`
    Blackout,
    /// `get <fixture channel>`
    GetChannels(usize),
    /// `go`
    Go,
    /// `back`
    Back,
    /// `rc <name> <time in ms>`
    RecordCue { name: String, time_in_ms: u32 },
    /// `dc <name>`
    DeleteCue(String),
    /// `help`
    Help,
    /// A line that is no command, and why.
    Error(ParseError),
}

/// The value of a run of decimal digits.
pub open spec fn digits_value(d: Seq<char>) -> nat
    decreases d.len(),
{
    if d.len() == 0 {
        0
    } else {
        digits_value(d.drop_last()) * 10 + ((d.last() as u32) - ('0' as u32)) as nat
    }
}

/// The number an unsigned decimal numeral denotes: an optional `+`, then
/// one or more ASCII digits; anything else denotes none.
pub open spec fn decimal_of(s: Seq<char>) -> Option<nat> {
    let d = if s.len() > 0 && s[0] == '+' { s.drop_first() } else { s };
    if d.len() > 0 && forall|i: int| 0 <= i < d.len() ==> '0' <= #[trigger] d[i] <= '9' {
        Some(digits_value(d))
    } else {
        None
    }
}

/// The `usize` that `str::parse` reads: a numeral whose value fits.
pub open spec fn usize_from(s: Seq<char>) -> Option<usize> {
    match decimal_of(s) {
        Some(v) => if v <= usize::MAX { Some(v as usize) } else { None },
        None => None,
    }
}

/// The `u8` that `str::parse` reads: a numeral whose value fits.
pub open spec fn u8_from(s: Seq<char>) -> Option<u8> {
    match decimal_of(s) {
        Some(v) => if v <= u8::MAX { Some(v as u8) } else { None },
        None => None,
    }
}

/// The `u32` that `str::parse` reads: a numeral whose value fits.
pub open spec fn u32_from(s: Seq<char>) -> Option<u32> {
    match decimal_of(s) {
        Some(v) => if v <= u32::MAX { Some(v as u32) } else { None },
        None => None,
    }
}

/// Relies on `str::parse::<usize>` (`usize::from_str`): an optional `+` and
/// ASCII digits are read as a number, which must fit; every other string
/// (empty, a sign alone, a `-`, any other character) is an error.
#[verifier::external_body]
fn parse_usize(s: &str) -> (r: Option<usize>)
    ensures
        r == usize_from(s@),
{
    s.parse::<usize>().ok()
}

/// Relies on `str::parse::<u8>` (`u8::from_str`): an optional `+` and
/// ASCII digits are read as a number, which must fit; every other string
/// (empty, a sign alone, a `-`, any other character) is an error.
#[verifier::external_body]
fn parse_u8(s: &str) -> (r: Option<u8>)
    ensures
        r == u8_from(s@),
{
    s.parse::<u8>().ok()
}

/// Relies on `str::parse::<u32>` (`u32::from_str`): an optional `+` and
/// ASCII digits are read as a number, which must fit; every other string
/// (empty, a sign alone, a `-`, any other character) is an error.
#[verifier::external_body]
fn parse_u32(s: &str) -> (r: Option<u32>)
    ensures
        r == u32_from(s@),
{
    s.parse::<u32>().ok()
}

/// Argument `i` read as a `usize`.
pub open spec fn usize_arg(args: Seq<&str>, i: int, arg: Arg) -> Result<usize, ParseError> {
    if i < args.len() {
        match usize_from(args[i]@) {
            Some(v) => Ok(v),
            None => Err(ParseError::InvalidArgument(arg)),
        }
    } else {
        Err(ParseError::MissingArgument(arg))
    }
}

/// Argument `i` read as a `u8`.
pub open spec fn u8_arg(args: Seq<&str>, i: int, arg: Arg) -> Result<u8, ParseError> {
    if i < args.len() {
        match u8_from(args[i]@) {
            Some(v) => Ok(v),
            None => Err(ParseError::InvalidArgument(arg)),
        }
    } else {
        Err(ParseError::MissingArgument(arg))
    }
}

/// Argument `i` read as a `u32`.
pub open spec fn u32_arg(args: Seq<&str>, i: int, arg: Arg) -> Result<u32, ParseError> {
    if i < args.len() {
        match u32_from(args[i]@) {
            Some(v) => Ok(v),
            None => Err(ParseError::InvalidArgument(arg)),
        }
    } else {
        Err(ParseError::MissingArgument(arg))
    }
}

/// An intensity word: full (255) when it holds an `f`, as `f` and `full`
/// do; else a byte.
pub open spec fn intensity_of(word: Seq<char>) -> Result<u8, ParseError> {
    if occurs_in("f"@, word) {
        Ok(255)
    } else {
        match u8_from(word) {
            Some(v) => Ok(v),
            None => Err(ParseError::InvalidIntensity),
        }
    }
}

/// The intensity word at argument `i`; `missing` when there is none.
pub open spec fn intensity_arg(args: Seq<&str>, i: int, missing: ParseError) -> Result<u8, ParseError> {
    if i < args.len() {
        intensity_of(args[i]@)
    } else {
        Err(missing)
    }
}

/// Argument `i` holds the text `pat`.
pub open spec fn arg_holds(args: Seq<&str>, i: int, pat: Seq<char>) -> bool {
    i < args.len() && occurs_in(pat, args[i]@)
}

/// What a `c` line says, given its channel.
pub open spec fn channel_command(args: Seq<&str>, channel: usize) -> ConsoleCommand {
    if arg_holds(args, 2, "@"@) {
        match intensity_arg(args, 3, ParseError::MissingIntensity) {
            Ok(v) => ConsoleCommand::Channel { channel, action: ChannelAction::Intensity(v) },
            Err(e) => ConsoleCommand::Error(e),
        }
    } else if arg_holds(args, 2, "rgb"@) {
        match (u8_arg(args, 3, Arg::Red), u8_arg(args, 4, Arg::Green), u8_arg(args, 5, Arg::Blue)) {
            (Ok(r), Ok(g), Ok(b)) => ConsoleCommand::Channel { channel, action: ChannelAction::Rgb(r, g, b) },
            (Err(e), _, _) => ConsoleCommand::Error(e),
            (Ok(_), Err(e), _) => ConsoleCommand::Error(e),
            (Ok(_), Ok(_), Err(e)) => ConsoleCommand::Error(e),
        }
    } else {
        ConsoleCommand::Error(ParseError::ChannelUsage)
    }
}

/// Whether `c` is the command that the words `args` make. Numbers are
/// read as `str::parse` reads them; the first argument that fails
/// decides the error.
pub open spec fn parses_to(args: Seq<&str>, c: ConsoleCommand) -> bool {
    if args.len() == 0 {
        c == ConsoleCommand::Error(ParseError::EmptyCommand)
    } else if args[0]@ == "c"@ {
        c == match usize_arg(args, 1, Arg::Channel) {
            Ok(channel) => channel_command(args, channel),
            Err(e) => ConsoleCommand::Error(e),
        }
    } else if args[0]@ == "a"@ {
        c == match (usize_arg(args, 1, Arg::Address), intensity_arg(args, 3, ParseError::MissingValue)) {
            (Ok(address), Ok(value)) => ConsoleCommand::Address { address, value },
            (Err(e), _) => ConsoleCommand::Error(e),
            (Ok(_), Err(e)) => ConsoleCommand::Error(e),
        }
    } else if args[0]@ == "get"@ {
        c == match usize_arg(args, 1, Arg::FixtureChannel) {
            Ok(channel) => ConsoleCommand::GetChannels(channel),
            Err(e) => ConsoleCommand::Error(e),
        }
    } else if args[0]@ == "blackout"@ {
        c == ConsoleCommand::Blackout
    } else if args[0]@ == "rc"@ {
        if args.len() < 2 {
            c == ConsoleCommand::Error(ParseError::MissingArgument(Arg::CueName))
        } else {
            match u32_arg(args, 2, Arg::TimeIn) {
                Ok(t) => c matches ConsoleCommand::RecordCue { name, time_in_ms } && name@ == args[1]@ && time_in_ms == t,
                Err(e) => c == ConsoleCommand::Error(e),
            }
        }
    } else if args[0]@ == "dc"@ {
        if args.len() < 2 {
            c == ConsoleCommand::Error(ParseError::MissingArgument(Arg::CueName))
        } else {
            c matches ConsoleCommand::DeleteCue(name) && name@ == args[1]@
        }
    } else if args[0]@ == "go"@ {
        c == ConsoleCommand::Go
    } else if args[0]@ == "back"@ {
        c == ConsoleCommand::Back
    } else if args[0]@ == "help"@ {
        c == ConsoleCommand::Help
    } else {
        c matches ConsoleCommand::Error(ParseError::UnknownCommand(word)) && word@ == args[0]@
    }
}

/// Reads argument `index` as a `usize`.
pub fn parse_usize_arg(args: &[&str], index: usize, arg: Arg) -> (r: Result<usize, ParseError>)
    ensures
        r == usize_arg(args@, index as int, arg),
{
    if index < args.len() {
        match parse_usize(args[index]) {
            Some(v) => Ok(v),
            None => Err(ParseError::InvalidArgument(arg)),
        }
    } else {
        Err(ParseError::MissingArgument(arg))
    }
}

/// Reads argument `index` as a `u8`.
pub fn parse_u8_arg(args: &[&str], index: usize, arg: Arg) -> (r: Result<u8, ParseError>)
    ensures
        r == u8_arg(args@, index as int, arg),
{
    if index < args.len() {
        match parse_u8(args[index]) {
            Some(v) => Ok(v),
            None => Err(ParseError::InvalidArgument(arg)),
        }
    } else {
        Err(ParseError::MissingArgument(arg))
    }
}

/// Reads argument `index` as a `u32`.
pub fn parse_u32_arg(args: &[&str], index: usize, arg: Arg) -> (r: Result<u32, ParseError>)
    ensures
        r == u32_arg(args@, index as int, arg),
{
    if index < args.len() {
        match parse_u32(args[index]) {
            Some(v) => Ok(v),
            None => Err(ParseError::InvalidArgument(arg)),
        }
    } else {
        Err(ParseError::MissingArgument(arg))
    }
}

/// Reads an intensity: 255 for a word holding `f` (`f`, `full`), else
/// the byte it denotes.
pub fn parse_intensity(value: &str) -> (r: Result<u8, ParseError>)
    ensures
        r == intensity_of(value@),
{
    if contains_text(value, "f") {
        Ok(255)
    } else {
        match parse_u8(value) {
            Some(v) => Ok(v),
            None => Err(ParseError::InvalidIntensity),
        }
    }
}

/// Reads the intensity word at `index`, failing with `missing` when the
/// line ends before it.
fn intensity_at(args: &[&str], index: usize, missing: ParseError) -> (r: Result<u8, ParseError>)
    ensures
        r == intensity_arg(args@, index as int, missing),
{
    if index < args.len() {
        parse_intensity(args[index])
    } else {
        Err(missing)
    }
}

/// Whether argument `index` holds the text `pat`.
fn arg_contains(args: &[&str], index: usize, pat: &str) -> (r: bool)
    ensures
        r == arg_holds(args@, index as int, pat@),
{
    index < args.len() && contains_text(args[index], pat)
}

/// Reads the rest of a `c` line, whose channel is `channel`.
fn parse_channel_command(args: &[&str], channel: usize) -> (r: ConsoleCommand)
    ensures
        r == channel_command(args@, channel),
{
    if arg_contains(args, 2, "@") {
        match intensity_at(args, 3, ParseError::MissingIntensity) {
            Ok(v) => ConsoleCommand::Channel { channel, action: ChannelAction::Intensity(v) },
            Err(e) => ConsoleCommand::Error(e),
        }
    } else if arg_contains(args, 2, "rgb") {
        let r = match parse_u8_arg(args, 3, Arg::Red) {
            Ok(v) => v,
            Err(e) => return ConsoleCommand::Error(e),
        };
        let g = match parse_u8_arg(args, 4, Arg::Green) {
            Ok(v) => v,
            Err(e) => return ConsoleCommand::Error(e),
        };
        let b = match parse_u8_arg(args, 5, Arg::Blue) {
            Ok(v) => v,
            Err(e) => return ConsoleCommand::Error(e),
        };
        ConsoleCommand::Channel { channel, action: ChannelAction::Rgb(r, g, b) }
    } else {
        ConsoleCommand::Error(ParseError::ChannelUsage)
    }
}

/// Reads the words of a console line as a command; a line that is no
/// command gives `ConsoleCommand::Error` with the reason.
pub fn parse_command(args: &[&str]) -> (r: ConsoleCommand)
    ensures
        parses_to(args@, r),
{
    if args.len() == 0 {
        return ConsoleCommand::Error(ParseError::EmptyCommand);
    }
    let word = args[0];
    if same_text(word, "c") {
        match parse_usize_arg(args, 1, Arg::Channel) {
            Ok(channel) => parse_channel_command(args, channel),
            Err(e) => ConsoleCommand::Error(e),
        }
    } else if same_text(word, "a") {
        let address = parse_usize_arg(args, 1, Arg::Address);
        let value = intensity_at(args, 3, ParseError::MissingValue);
        match (address, value) {
            (Ok(address), Ok(value)) => ConsoleCommand::Address { address, value },
            (Err(e), _) => ConsoleCommand::Error(e),
            (Ok(_), Err(e)) => ConsoleCommand::Error(e),
        }
    } else if same_text(word, "get") {
        match parse_usize_arg(args, 1, Arg::FixtureChannel) {
            Ok(channel) => ConsoleCommand::GetChannels(channel),
            Err(e) => ConsoleCommand::Error(e),
        }
    } else if same_text(word, "blackout") {
        ConsoleCommand::Blackout
    } else if same_text(word, "rc") {
        if args.len() < 2 {
            ConsoleCommand::Error(ParseError::MissingArgument(Arg::CueName))
        } else {
            match parse_u32_arg(args, 2, Arg::TimeIn) {
                Ok(time_in_ms) => ConsoleCommand::RecordCue { name: args[1].to_string(), time_in_ms },
                Err(e) => ConsoleCommand::Error(e),
            }
        }
    } else if same_text(word, "dc") {
        if args.len() < 2 {
            ConsoleCommand::Error(ParseError::MissingArgument(Arg::CueName))
        } else {
            ConsoleCommand::DeleteCue(args[1].to_string())
        }
    } else if same_text(word, "go") {
        ConsoleCommand::Go
    } else if same_text(word, "back") {
        ConsoleCommand::Back
    } else if same_text(word, "help") {
        ConsoleCommand::Help
    } else {
        ConsoleCommand::Error(ParseError::UnknownCommand(word.to_string()))
    }
}

/// The universe command that a console command stands for, where it
/// stands for one without a reply: `c`, `a` and `blackout`.
pub fn universe_command_for(command: &ConsoleCommand) -> (r: Option<UniverseCommand>)
    ensures
        r == match *command {
            ConsoleCommand::Channel { channel, action: ChannelAction::Intensity(i) } => Some(
                UniverseCommand::SetFixture { fixture_channel: channel, intensity: Some(i), color: None },
            ),
            ConsoleCommand::Channel { channel, action: ChannelAction::Rgb(r, g, b) } => Some(
                UniverseCommand::SetFixture { fixture_channel: channel, intensity: None, color: Some((r, g, b)) },
            ),
            ConsoleCommand::Address { address, value } => Some(
                UniverseCommand::SetChannel { channel: address, value },
            ),
            ConsoleCommand::Blackout => Some(UniverseCommand::Blackout),
            _ => None,
        },
{
    match command {
        ConsoleCommand::Channel { channel, action } => match action {
            ChannelAction::Intensity(i) => Some(
                UniverseCommand::SetFixture { fixture_channel: *channel, intensity: Some(*i), color: None },
            ),
            ChannelAction::Rgb(r, g, b) => Some(
                UniverseCommand::SetFixture { fixture_channel: *channel, intensity: None, color: Some((*r, *g, *b)) },
            ),
        },
        ConsoleCommand::Address { address, value } => Some(UniverseCommand::SetChannel { channel: *address, value: *value }),
        ConsoleCommand::Blackout => Some(UniverseCommand::Blackout),
        _ => None,
    }
}

} // verus!
