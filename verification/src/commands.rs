//! The slash commands of the bot: which command a name selects, and what
//! each command answers.

use crate::render::{EmbedText, EmbedView, Outbound, OutboundView};
use crate::text::{push_text, same_text, string_of};
use vstd::prelude::*;

verus! {

/// The colour of the answer to `ping`.
pub const PING_COLOR: u32 = 0x85db5e;

/// The `ping` command: reports the latency of the bot.
#[derive(Clone, Copy, Debug)]
pub struct PingCommand;

/// The `lfgdata` command: manages the alias table.
#[derive(Debug)]
pub enum LFGDataCommand {
    List(LFGList),
    Add(LFGAdd),
    Remove(LFGRemove),
}

/// `lfgdata list`: lists the aliases.
#[derive(Clone, Copy, Debug)]
pub struct LFGList;

/// `lfgdata add`: adds an alias from a facade role id to an actual role id.
#[derive(Debug)]
pub struct LFGAdd {
    pub facade: String,
    pub actual: String,
}

/// `lfgdata remove`: removes the alias of a facade role id.
#[derive(Debug)]
pub struct LFGRemove {
    pub facade: String,
}

/// The commands the bot registers.
#[derive(Clone, Copy, Debug, PartialEq, Eq, Structural)]
pub enum CommandKind {
    Ping,
    LfgData,
}

/// The command that a name selects.
pub open spec fn command_named(name: Seq<char>) -> Option<CommandKind> {
    if name == "ping"@ {
        Some(CommandKind::Ping)
    } else if name == "lfgdata"@ {
        Some(CommandKind::LfgData)
    } else {
        None
    }
}

/// Selects the command to run for the name that an interaction carries;
/// any name but `ping` and `lfgdata` selects none.
pub fn handle_command(name: &str) -> (kind: Option<CommandKind>)
    ensures
        kind == command_named(name@),
{
    if same_text(name, "ping") {
        Some(CommandKind::Ping)
    } else if same_text(name, "lfgdata") {
        Some(CommandKind::LfgData)
    } else {
        None
    }
}

/// The text shown for a latency: the measured one, or `Unknown`.
pub open spec fn shown_latency(latency: Option<Seq<char>>) -> Seq<char> {
    match latency {
        Some(text) => text,
        None => "Unknown"@,
    }
}

/// The text shown for a round trip: the measured one, or a note that the
/// time of the request could not be read.
pub open spec fn shown_roundtrip(roundtrip: Option<Seq<char>>) -> Seq<char> {
    match roundtrip {
        Some(text) => text,
        None => "Error in time conversion"@,
    }
}

/// The answer to `ping`.
pub open spec fn ping_embed(latency: Option<Seq<char>>, roundtrip: Option<Seq<char>>)
    -> EmbedView {
    EmbedView {
        color: PING_COLOR,
        title: "Ping"@,
        description: "`•` The time it takes for the bot to talk to Discord is `"@ + shown_latency(
            latency,
        ) + "` (exact)\n                            `•` The time it took for this command to execute roundtrip is `"@
            + shown_roundtrip(roundtrip) + "` (approximation)"@,
    }
}

/// The text of an optional string.
pub open spec fn text_of(text: Option<&str>) -> Option<Seq<char>> {
    match text {
        Some(text) => Some(text@),
        None => None,
    }
}

impl PingCommand {
    /// Answers `ping` with the two durations as they are to be shown: the
    /// average latency of the gateway, if one was measured, and the time
    /// since the request was made, if it could be read.
    pub fn handle(display_latency: Option<&str>, display_roundtrip: Option<&str>) -> (embed:
        EmbedText)
        ensures
            embed@ == ping_embed(text_of(display_latency), text_of(display_roundtrip)),
    {
        let mut description: Vec<char> = Vec::new();
        push_text(&mut description, "`•` The time it takes for the bot to talk to Discord is `");
        match display_latency {
            Some(text) => push_text(&mut description, text),
            None => push_text(&mut description, "Unknown"),
        }
        push_text(
            &mut description,
            "` (exact)\n                            `•` The time it took for this command to execute roundtrip is `",
        );
        match display_roundtrip {
            Some(text) => push_text(&mut description, text),
            None => push_text(&mut description, "Error in time conversion"),
        }
        push_text(&mut description, "` (approximation)");
        assert(description@ =~= ping_embed(
            text_of(display_latency),
            text_of(display_roundtrip),
        ).description);
        EmbedText {
            color: PING_COLOR,
            title: "Ping".to_owned(),
            description: string_of(&description),
        }
    }
}

impl LFGList {
    /// Runs `lfgdata list`: nothing is sent in answer.
    pub fn run(&self) -> (out: Outbound)
        ensures
            out@ == OutboundView::Nothing,
    {
        Outbound::Nothing
    }
}

impl LFGAdd {
    /// Runs `lfgdata add`: nothing is sent in answer.
    pub fn run(&self) -> (out: Outbound)
        ensures
            out@ == OutboundView::Nothing,
    {
        Outbound::Nothing
    }
}

impl LFGRemove {
    /// Runs `lfgdata remove`: nothing is sent in answer.
    pub fn run(&self) -> (out: Outbound)
        ensures
            out@ == OutboundView::Nothing,
    {
        Outbound::Nothing
    }
}

impl LFGDataCommand {
    /// Runs the subcommand that was given.
    pub fn handle(&self) -> (out: Outbound)
        ensures
            out@ == OutboundView::Nothing,
    {
        match self {
            LFGDataCommand::List(command) => command.run(),
            LFGDataCommand::Add(command) => command.run(),
            LFGDataCommand::Remove(command) => command.run(),
        }
    }
}

} // verus!
