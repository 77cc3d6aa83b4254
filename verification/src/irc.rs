//! IRC events and commands, as the bot reads and sends them.

use vstd::prelude::*;
use crate::user::opt_chars;

verus! {

/// Whom an IRC message is addressed to.
#[derive(Clone, Debug, PartialEq, Eq)]
pub enum CommandTarget {
    User(String),
    Channel(String),
}

/// A [`CommandTarget`] with its name read as characters.
pub enum CommandTargetView {
    User(Seq<char>),
    Channel(Seq<char>),
}

impl View for CommandTarget {
    type V = CommandTargetView;

    open spec fn view(&self) -> CommandTargetView {
        match self {
            CommandTarget::User(u) => CommandTargetView::User(u@),
            CommandTarget::Channel(c) => CommandTargetView::Channel(c@),
        }
    }
}

/// The IRC commands the bot tells apart, and those it sends.
#[derive(Clone, Debug, PartialEq, Eq)]
pub enum IrcCommand {
    /// A numeric reply from the server; `1` is the welcome that follows a
    /// successful registration.
    Reply(u16),
    Notice(CommandTarget, String),
    PrivMsg(CommandTarget, String),
    Ping(String, Option<String>),
    Pong(String, Option<String>),
    /// Join the channels, with their keys if any.
    Join(Vec<String>, Option<Vec<String>>),
    /// Any other command.
    Other,
}

/// The characters of each string of a list.
pub open spec fn strings_view(v: Seq<String>) -> Seq<Seq<char>> {
    v.map_values(|s: String| s@)
}

/// An [`IrcCommand`] with every string read as its characters.
pub enum IrcCommandView {
    Reply(u16),
    Notice(CommandTargetView, Seq<char>),
    PrivMsg(CommandTargetView, Seq<char>),
    Ping(Seq<char>, Option<Seq<char>>),
    Pong(Seq<char>, Option<Seq<char>>),
    Join(Seq<Seq<char>>, Option<Seq<Seq<char>>>),
    Other,
}

impl View for IrcCommand {
    type V = IrcCommandView;

    open spec fn view(&self) -> IrcCommandView {
        match self {
            IrcCommand::Reply(n) => IrcCommandView::Reply(*n),
            IrcCommand::Notice(t, m) => IrcCommandView::Notice(t@, m@),
            IrcCommand::PrivMsg(t, m) => IrcCommandView::PrivMsg(t@, m@),
            IrcCommand::Ping(a, b) => IrcCommandView::Ping(a@, opt_chars(*b)),
            IrcCommand::Pong(a, b) => IrcCommandView::Pong(a@, opt_chars(*b)),
            IrcCommand::Join(c, k) => IrcCommandView::Join(
                strings_view(c@),
                match k {
                    Some(k) => Some(strings_view(k@)),
                    None => None,
                },
            ),
            IrcCommand::Other => IrcCommandView::Other,
        }
    }
}

/// Who sent an IRC event.
#[derive(Clone, Debug, PartialEq, Eq)]
pub enum EventSource {
    /// A user, by nick.
    User(String),
    /// The server, or a source the bot does not look at.
    Other,
}

/// An [`EventSource`] with the nick read as characters.
pub enum EventSourceView {
    User(Seq<char>),
    Other,
}

impl View for EventSource {
    type V = EventSourceView;

    open spec fn view(&self) -> EventSourceView {
        match self {
            EventSource::User(n) => EventSourceView::User(n@),
            EventSource::Other => EventSourceView::Other,
        }
    }
}

/// An event read from the IRC connection.
#[derive(Clone, Debug, PartialEq, Eq)]
pub struct IrcEvent {
    pub source: Option<EventSource>,
    pub command: IrcCommand,
}

/// An [`IrcEvent`] with every string read as its characters.
pub struct IrcEventView {
    pub source: Option<EventSourceView>,
    pub command: IrcCommandView,
}

impl View for IrcEvent {
    type V = IrcEventView;

    open spec fn view(&self) -> IrcEventView {
        IrcEventView {
            source: match self.source {
                Some(s) => Some(s@),
                None => None,
            },
            command: self.command@,
        }
    }
}

} // verus!
