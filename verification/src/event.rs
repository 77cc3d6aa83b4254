//! The Discord gateway's payloads and the events the bot reacts to.

use vstd::prelude::*;
use crate::irc::{IrcEvent, IrcEventView};
use crate::text::{chars_of, chars_eq};
use crate::user::{DiscordUser, DiscordUserView, Member, opt_chars};

verus! {

/// A guild as `GUILD_CREATE` reports it.
#[derive(Clone, Debug, PartialEq, Eq)]
pub struct Guild {
    pub members: Vec<Member>,
    pub channels: Vec<Channel>,
}

/// A channel of a guild; `ty` 0 is a text channel.
#[derive(Clone, Debug, PartialEq, Eq)]
pub struct Channel {
    pub name: String,
    pub id: String,
    pub ty: i8,
}

/// A [`Channel`] with its strings read as characters.
pub struct ChannelView {
    pub name: Seq<char>,
    pub id: Seq<char>,
    pub ty: i8,
}

impl View for Channel {
    type V = ChannelView;

    open spec fn view(&self) -> ChannelView {
        ChannelView { name: self.name@, id: self.id@, ty: self.ty }
    }
}

/// The views of a list of channels.
pub open spec fn channels_view(v: Seq<Channel>) -> Seq<ChannelView> {
    v.map_values(|c: Channel| c@)
}

/// The users of a list of members.
pub open spec fn members_view(v: Seq<Member>) -> Seq<DiscordUserView> {
    v.map_values(|m: Member| m@)
}

/// A [`Guild`] read as the users of its members and its channels.
pub struct GuildView {
    pub members: Seq<DiscordUserView>,
    pub channels: Seq<ChannelView>,
}

impl View for Guild {
    type V = GuildView;

    open spec fn view(&self) -> GuildView {
        GuildView { members: members_view(self.members@), channels: channels_view(self.channels@) }
    }
}

/// The body of `READY`: the session and the bot's own user.
#[derive(Clone, Debug, PartialEq, Eq)]
pub struct ReadyMsg {
    pub session_id: String,
    pub user: DiscordUser,
}

pub struct ReadyMsgView {
    pub session_id: Seq<char>,
    pub user: DiscordUserView,
}

impl View for ReadyMsg {
    type V = ReadyMsgView;

    open spec fn view(&self) -> ReadyMsgView {
        ReadyMsgView { session_id: self.session_id@, user: self.user@ }
    }
}

/// A chat message posted in a channel.
#[derive(Clone, Debug, PartialEq, Eq)]
pub struct Message {
    pub content: String,
    pub channel_id: String,
    pub author: DiscordUser,
}

pub struct MessageView {
    pub content: Seq<char>,
    pub channel_id: Seq<char>,
    pub author: DiscordUserView,
}

impl View for Message {
    type V = MessageView;

    open spec fn view(&self) -> MessageView {
        MessageView { content: self.content@, channel_id: self.channel_id@, author: self.author@ }
    }
}

/// A chat message the bot posts.
#[derive(Clone, Debug, PartialEq, Eq)]
pub struct OutgoingMessage {
    pub content: String,
}

/// The body of `HELLO`: how often, in milliseconds, to send a heartbeat.
#[derive(Clone, Debug, PartialEq, Eq)]
pub struct HelloMsg {
    pub heartbeat_interval: u64,
}

/// What the bot reacts to: gateway payloads, its own heartbeat timer, and
/// IRC events.
#[allow(non_camel_case_types)]
#[derive(Clone, Debug, PartialEq, Eq)]
pub enum Event {
    Hello(HelloMsg),
    Heartbeat,
    Ack,
    EventReady(ReadyMsg),
    EventMessage(Message),
    EventGuildCreate(Guild),
    EventChannelCreate(Channel),
    UnknownEvent(String),
    /// The heartbeat timer fired.
    SendHeartbeat_,
    IRCEvent(IrcEvent),
    Unknown(i8),
}

/// An [`Event`] with every string read as its characters.
pub enum EventView {
    Hello(u64),
    Heartbeat,
    Ack,
    EventReady(ReadyMsgView),
    EventMessage(MessageView),
    EventGuildCreate(GuildView),
    EventChannelCreate(ChannelView),
    UnknownEvent(Seq<char>),
    SendHeartbeat,
    IRCEvent(IrcEventView),
    Unknown(i8),
}

impl View for Event {
    type V = EventView;

    open spec fn view(&self) -> EventView {
        match self {
            Event::Hello(h) => EventView::Hello(h.heartbeat_interval),
            Event::Heartbeat => EventView::Heartbeat,
            Event::Ack => EventView::Ack,
            Event::EventReady(r) => EventView::EventReady(r@),
            Event::EventMessage(m) => EventView::EventMessage(m@),
            Event::EventGuildCreate(g) => EventView::EventGuildCreate(g@),
            Event::EventChannelCreate(c) => EventView::EventChannelCreate(c@),
            Event::UnknownEvent(t) => EventView::UnknownEvent(t@),
            Event::SendHeartbeat_ => EventView::SendHeartbeat,
            Event::IRCEvent(e) => EventView::IRCEvent(e@),
            Event::Unknown(n) => EventView::Unknown(*n),
        }
    }
}

/// The data of an identify payload: the token, the properties the bot
/// reports about its client, and whether it asks for compression.
#[derive(Clone, Debug, PartialEq, Eq)]
pub struct Identify {
    pub token: String,
    pub os: String,
    pub browser: String,
    pub device: String,
    pub compress: bool,
}

pub struct IdentifyView {
    pub token: Seq<char>,
    pub os: Seq<char>,
    pub browser: Seq<char>,
    pub device: Seq<char>,
    pub compress: bool,
}

impl View for Identify {
    type V = IdentifyView;

    open spec fn view(&self) -> IdentifyView {
        IdentifyView {
            token: self.token@,
            os: self.os@,
            browser: self.browser@,
            device: self.device@,
            compress: self.compress,
        }
    }
}

/// What the bot identifies with: its token, client properties `macos` /
/// `loft` / `loft`, and no compression.
pub open spec fn identify_spec(token: Seq<char>) -> IdentifyView {
    IdentifyView { token, os: "macos"@, browser: "loft"@, device: "loft"@, compress: false }
}

impl Identify {
    /// The identification the bot sends with its token.
    pub fn new(token: String) -> (res: Identify)
        ensures
            res@ == identify_spec(token@),
    {
        Identify {
            token,
            os: "macos".to_owned(),
            browser: "loft".to_owned(),
            device: "loft".to_owned(),
            compress: false,
        }
    }
}

/// The data of a payload the bot sends.
#[derive(Clone, Debug, PartialEq, Eq)]
pub enum PayloadData {
    /// Identify the bot.
    Identify(Identify),
    /// A heartbeat carrying the last sequence number seen, if any.
    Sequence(Option<usize>),
}

pub enum PayloadDataView {
    Identify(IdentifyView),
    Sequence(Option<usize>),
}

impl View for PayloadData {
    type V = PayloadDataView;

    open spec fn view(&self) -> PayloadDataView {
        match self {
            PayloadData::Identify(i) => PayloadDataView::Identify(i@),
            PayloadData::Sequence(s) => PayloadDataView::Sequence(*s),
        }
    }
}

/// A gateway payload the bot sends: opcode, data, sequence number and event
/// name.
#[derive(Clone, Debug, PartialEq, Eq)]
pub struct Payload {
    pub op: i8,
    pub d: PayloadData,
    pub s: Option<usize>,
    pub t: Option<String>,
}

pub struct PayloadView {
    pub op: i8,
    pub d: PayloadDataView,
    pub s: Option<usize>,
    pub t: Option<Seq<char>>,
}

impl View for Payload {
    type V = PayloadView;

    open spec fn view(&self) -> PayloadView {
        PayloadView { op: self.op, d: self.d@, s: self.s, t: opt_chars(self.t) }
    }
}

/// Which body a received payload's data must be read as.
#[derive(Clone, Copy, Debug, PartialEq, Eq, Structural)]
pub enum BodyKind {
    Ready,
    Message,
    GuildCreate,
    ChannelCreate,
    Hello,
}

/// The body of a received payload, once its data has been read.
#[derive(Clone, Debug, PartialEq, Eq)]
pub enum Body {
    Ready(ReadyMsg),
    Message(Message),
    GuildCreate(Guild),
    ChannelCreate(Channel),
    Hello(HelloMsg),
}

/// What a received payload amounts to, decided by its opcode and event name:
/// either an event that needs no data, or the body its data must be read as.
#[derive(Clone, Debug, PartialEq, Eq)]
pub enum PayloadRoute {
    Decode(BodyKind),
    Done(Event),
}

pub enum PayloadRouteView {
    Decode(BodyKind),
    Done(EventView),
}

impl View for PayloadRoute {
    type V = PayloadRouteView;

    open spec fn view(&self) -> PayloadRouteView {
        match self {
            PayloadRoute::Decode(k) => PayloadRouteView::Decode(*k),
            PayloadRoute::Done(e) => PayloadRouteView::Done(e@),
        }
    }
}

pub open spec fn name_ready() -> Seq<char> {
    seq!['R', 'E', 'A', 'D', 'Y']
}

pub open spec fn name_message_create() -> Seq<char> {
    seq!['M', 'E', 'S', 'S', 'A', 'G', 'E', '_', 'C', 'R', 'E', 'A', 'T', 'E']
}

pub open spec fn name_guild_create() -> Seq<char> {
    seq!['G', 'U', 'I', 'L', 'D', '_', 'C', 'R', 'E', 'A', 'T', 'E']
}

pub open spec fn name_channel_create() -> Seq<char> {
    seq!['C', 'H', 'A', 'N', 'N', 'E', 'L', '_', 'C', 'R', 'E', 'A', 'T', 'E']
}

/// What a payload with opcode `op` and event name `t` amounts to.
pub open spec fn route_spec(op: i8, t: Option<Seq<char>>) -> PayloadRouteView {
    if op == 0 {
        match t {
            Some(name) => if name == name_ready() {
                PayloadRouteView::Decode(BodyKind::Ready)
            } else if name == name_message_create() {
                PayloadRouteView::Decode(BodyKind::Message)
            } else if name == name_guild_create() {
                PayloadRouteView::Decode(BodyKind::GuildCreate)
            } else if name == name_channel_create() {
                PayloadRouteView::Decode(BodyKind::ChannelCreate)
            } else {
                PayloadRouteView::Done(EventView::UnknownEvent(name))
            },
            None => PayloadRouteView::Done(EventView::Unknown(0)),
        }
    } else if op == 1 {
        PayloadRouteView::Done(EventView::Heartbeat)
    } else if op == 10 {
        PayloadRouteView::Decode(BodyKind::Hello)
    } else if op == 11 {
        PayloadRouteView::Done(EventView::Ack)
    } else {
        PayloadRouteView::Done(EventView::Unknown(op))
    }
}

/// The kind of a body.
pub open spec fn body_kind(b: Body) -> BodyKind {
    match b {
        Body::Ready(_) => BodyKind::Ready,
        Body::Message(_) => BodyKind::Message,
        Body::GuildCreate(_) => BodyKind::GuildCreate,
        Body::ChannelCreate(_) => BodyKind::ChannelCreate,
        Body::Hello(_) => BodyKind::Hello,
    }
}

/// The event a body stands for.
pub open spec fn body_event(b: Body) -> EventView {
    match b {
        Body::Ready(r) => EventView::EventReady(r@),
        Body::Message(m) => EventView::EventMessage(m@),
        Body::GuildCreate(g) => EventView::EventGuildCreate(g@),
        Body::ChannelCreate(c) => EventView::EventChannelCreate(c@),
        Body::Hello(h) => EventView::Hello(h.heartbeat_interval),
    }
}

impl Event {
    /// Decides what a received payload amounts to from its opcode and event
    /// name. Dispatch events (`op` 0) named `READY`, `MESSAGE_CREATE`,
    /// `GUILD_CREATE` or `CHANNEL_CREATE`, and `HELLO` (`op` 10), carry a body
    /// that must be read from the payload's data; the rest need none.
    pub fn from_payload(op: i8, t: Option<String>) -> (res: PayloadRoute)
        ensures
            res@ == route_spec(op, opt_chars(t)),
    {
        if op == 0 {
            match t {
                Some(name) => {
                    let n = chars_of(name.as_str());
                    let ready = chars_of("READY");
                    let message = chars_of("MESSAGE_CREATE");
                    let guild = chars_of("GUILD_CREATE");
                    let channel = chars_of("CHANNEL_CREATE");
                    proof {
                        reveal_strlit("READY");
                        reveal_strlit("MESSAGE_CREATE");
                        reveal_strlit("GUILD_CREATE");
                        reveal_strlit("CHANNEL_CREATE");
                    }
                    assert(ready@ =~= name_ready());
                    assert(message@ =~= name_message_create());
                    assert(guild@ =~= name_guild_create());
                    assert(channel@ =~= name_channel_create());
                    if chars_eq(n.as_slice(), ready.as_slice()) {
                        PayloadRoute::Decode(BodyKind::Ready)
                    } else if chars_eq(n.as_slice(), message.as_slice()) {
                        PayloadRoute::Decode(BodyKind::Message)
                    } else if chars_eq(n.as_slice(), guild.as_slice()) {
                        PayloadRoute::Decode(BodyKind::GuildCreate)
                    } else if chars_eq(n.as_slice(), channel.as_slice()) {
                        PayloadRoute::Decode(BodyKind::ChannelCreate)
                    } else {
                        PayloadRoute::Done(Event::UnknownEvent(name))
                    }
                },
                None => PayloadRoute::Done(Event::Unknown(0)),
            }
        } else if op == 1 {
            PayloadRoute::Done(Event::Heartbeat)
        } else if op == 10 {
            PayloadRoute::Decode(BodyKind::Hello)
        } else if op == 11 {
            PayloadRoute::Done(Event::Ack)
        } else {
            PayloadRoute::Done(Event::Unknown(op))
        }
    }

    /// The event a body read from a payload's data stands for.
    pub fn from_body(body: Body) -> (res: Event)
        ensures
            res@ == body_event(body),
    {
        match body {
            Body::Ready(r) => Event::EventReady(r),
            Body::Message(m) => Event::EventMessage(m),
            Body::GuildCreate(g) => Event::EventGuildCreate(g),
            Body::ChannelCreate(c) => Event::EventChannelCreate(c),
            Body::Hello(h) => Event::Hello(h),
        }
    }
}

} // verus!
