//! The REPL command surface: recognizing the fixed command tokens, with
//! every other line forwarded to the agent loop as a message.

use vstd::prelude::*;

use crate::text::str_eq;

verus! {

/// One parsed line of REPL input.
pub enum Command {
    /// End the session.
    Quit,
    /// Toggle streamed response delivery.
    Stream,
    /// Clear the conversation log.
    Clear,
    /// Change the active model.
    Model,
    /// Show the command summary.
    Help,
    /// Send this text as the next user turn.
    Message(String),
}

/// Mathematical model of a `Command`.
pub ghost enum CommandView {
    Quit,
    Stream,
    Clear,
    Model,
    Help,
    Message(Seq<char>),
}

impl View for Command {
    type V = CommandView;

    open spec fn view(&self) -> CommandView {
        match self {
            Command::Quit => CommandView::Quit,
            Command::Stream => CommandView::Stream,
            Command::Clear => CommandView::Clear,
            Command::Model => CommandView::Model,
            Command::Help => CommandView::Help,
            Command::Message(text) => CommandView::Message(text@),
        }
    }
}

/// What one line of input means: the fixed command tokens, or a message.
pub open spec fn spec_parse_command(input: Seq<char>) -> CommandView {
    if input == "/quit"@ || input == "/exit"@ {
        CommandView::Quit
    } else if input == "/stream"@ {
        CommandView::Stream
    } else if input == "/clear"@ {
        CommandView::Clear
    } else if input == "/model"@ {
        CommandView::Model
    } else if input == "/help"@ || input == "/"@ || input == "?"@ {
        CommandView::Help
    } else {
        CommandView::Message(input)
    }
}

/// Parse one line of REPL input, exactly as `spec_parse_command` describes.
pub fn parse_command(input: &str) -> (c: Command)
    ensures
        c@ == spec_parse_command(input@),
{
    if str_eq(input, "/quit") || str_eq(input, "/exit") {
        Command::Quit
    } else if str_eq(input, "/stream") {
        Command::Stream
    } else if str_eq(input, "/clear") {
        Command::Clear
    } else if str_eq(input, "/model") {
        Command::Model
    } else if str_eq(input, "/help") || str_eq(input, "/") || str_eq(input, "?") {
        Command::Help
    } else {
        Command::Message(input.to_owned())
    }
}

} // verus!
