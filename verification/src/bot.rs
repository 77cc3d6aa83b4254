//! The bot's state and how it reacts to each event.
//!
//! The bot is driven from outside: whoever owns the connections reads an
//! event, hands it to [`LoftBot::handle_event`], and carries out the returned
//! effects in order. [`step`] states the reaction as a function from state and
//! event to next state and effects.

use vstd::prelude::*;
use vstd::hash_map::StringHashMap;
use crate::command::{parse_message, parse_spec, Action, ActionView};
use crate::event::{
    channels_view, identify_spec, Channel, ChannelView, Identify, Event, EventView, Guild, GuildView, Message, MessageView,
    OutgoingMessage, Payload, PayloadData, PayloadDataView, PayloadView,
};
use crate::irc::{
    CommandTarget, CommandTargetView, EventSource, EventSourceView, IrcCommand, IrcCommandView,
    IrcEvent, IrcEventView,
};
use crate::text::{chars_eq, chars_of, push_all};
use crate::user::{
    fresh_user, opt_chars, DiscordUser, DiscordUserView, Member, NotifLocation, User, UserVar, UserView,
};

verus! {

/// A line the bot writes to its console.
#[derive(Clone, Debug, PartialEq, Eq)]
pub enum LogLine {
    Quitting,
    /// The guild's members and channels are known.
    Ready,
    IrcUserNotice(String, String),
    IrcChannelNotice(String, String),
    /// An IRC event the bot does nothing with.
    UnknownIrcEvent,
    /// A dispatch event the bot does nothing with, by name.
    UnhandledEvent(String),
    /// A payload with an opcode the bot does nothing with.
    OtherEvent(i8),
}

pub enum LogLineView {
    Quitting,
    Ready,
    IrcUserNotice(Seq<char>, Seq<char>),
    IrcChannelNotice(Seq<char>, Seq<char>),
    UnknownIrcEvent,
    UnhandledEvent(Seq<char>),
    OtherEvent(i8),
}

impl View for LogLine {
    type V = LogLineView;

    open spec fn view(&self) -> LogLineView {
        match self {
            LogLine::Quitting => LogLineView::Quitting,
            LogLine::Ready => LogLineView::Ready,
            LogLine::IrcUserNotice(u, n) => LogLineView::IrcUserNotice(u@, n@),
            LogLine::IrcChannelNotice(c, n) => LogLineView::IrcChannelNotice(c@, n@),
            LogLine::UnknownIrcEvent => LogLineView::UnknownIrcEvent,
            LogLine::UnhandledEvent(e) => LogLineView::UnhandledEvent(e@),
            LogLine::OtherEvent(n) => LogLineView::OtherEvent(*n),
        }
    }
}

/// Something the bot asks its driver to do.
#[derive(Clone, Debug, PartialEq, Eq)]
pub enum Effect {
    /// Start the heartbeat timer with this period in milliseconds.
    StartHeartbeat(u64),
    /// Send this payload over the gateway.
    Send(Payload),
    /// Post the message in the channel with this id.
    CreateMessage(OutgoingMessage, String),
    /// Post the first joke of the joke file in the channel with this id.
    TellJoke(String),
    /// Send this command over the IRC connection.
    IrcSend(IrcCommand),
    /// Write this line to the console.
    Log(LogLine),
}

pub enum EffectView {
    StartHeartbeat(u64),
    Send(PayloadView),
    CreateMessage(Seq<char>, Seq<char>),
    TellJoke(Seq<char>),
    IrcSend(IrcCommandView),
    Log(LogLineView),
}

impl View for Effect {
    type V = EffectView;

    open spec fn view(&self) -> EffectView {
        match self {
            Effect::StartHeartbeat(ms) => EffectView::StartHeartbeat(*ms),
            Effect::Send(p) => EffectView::Send(p@),
            Effect::CreateMessage(m, c) => EffectView::CreateMessage(m.content@, c@),
            Effect::TellJoke(c) => EffectView::TellJoke(c@),
            Effect::IrcSend(c) => EffectView::IrcSend(c@),
            Effect::Log(l) => EffectView::Log(l@),
        }
    }
}

/// The views of a list of effects.
pub open spec fn effects_view(v: Seq<Effect>) -> Seq<EffectView> {
    v.map_values(|e: Effect| e@)
}

/// The bot: who it is, what it knows of the guild and its users, and the
/// settings each user has chosen.
pub struct LoftBot {
    quit: bool,
    id: String,
    guild_id: String,
    users: Vec<User>,
    user_map: StringHashMap<usize>,
    irc_users: Vec<String>,
    channels: Vec<Channel>,
    token: String,
    gateway: String,
    sequence: Option<usize>,
    heartbeat_armed: bool,
}

/// The state of a [`LoftBot`]. `user_map` sends a Discord user id to the
/// index of that user in `users`; `heartbeat_armed` holds until the first
/// `HELLO` has started the heartbeat timer.
pub struct BotView {
    pub quit: bool,
    pub id: Seq<char>,
    pub guild_id: Seq<char>,
    pub users: Seq<UserView>,
    pub user_map: Map<Seq<char>, usize>,
    pub irc_users: Seq<Seq<char>>,
    pub channels: Seq<ChannelView>,
    pub token: Seq<char>,
    pub gateway: Seq<char>,
    pub sequence: Option<usize>,
    pub heartbeat_armed: bool,
}

/// The views of a list of users.
pub open spec fn users_view(v: Seq<User>) -> Seq<UserView> {
    v.map_values(|u: User| u@)
}

impl View for LoftBot {
    type V = BotView;

    closed spec fn view(&self) -> BotView {
        BotView {
            quit: self.quit,
            id: self.id@,
            guild_id: self.guild_id@,
            users: users_view(self.users@),
            user_map: self.user_map@,
            irc_users: crate::irc::strings_view(self.irc_users@),
            channels: channels_view(self.channels@),
            token: self.token@,
            gateway: self.gateway@,
            sequence: self.sequence,
            heartbeat_armed: self.heartbeat_armed,
        }
    }
}

// ---------------------------------------------------------------------------
// The reaction to each event, as a function of state and event.
// ---------------------------------------------------------------------------

pub open spec fn word_set() -> Seq<char> {
    seq!['s', 'e', 't']
}

pub open spec fn word_discord() -> Seq<char> {
    seq!['d', 'i', 's', 'c', 'o', 'r', 'd']
}

pub open spec fn word_irc() -> Seq<char> {
    seq!['i', 'r', 'c']
}

/// The bot's own nick on IRC; messages from it are not relayed.
pub open spec fn bot_nick() -> Seq<char> {
    seq!['L', 'o', 'f', 't', 'B', 'o', 't']
}

/// The IRC channel the bot joins once registered.
pub open spec fn irc_channel() -> Seq<char> {
    "##cosi"@
}

/// The Discord channel IRC messages are relayed to.
pub open spec fn bridge_channel() -> Seq<char> {
    "533354016818593850"@
}

/// The payload that identifies the bot with its token.
pub open spec fn identify_payload(token: Seq<char>) -> PayloadView {
    PayloadView { op: 2, d: PayloadDataView::Identify(identify_spec(token)), s: None, t: None }
}

/// A heartbeat payload carrying the last sequence number.
pub open spec fn heartbeat_payload(sequence: Option<usize>) -> PayloadView {
    PayloadView { op: 1, d: PayloadDataView::Sequence(sequence), s: None, t: None }
}

/// The reply to `$favfood`.
pub open spec fn food_reply(food: Option<Seq<char>>) -> Seq<char> {
    match food {
        Some(f) => "Your favorite food is "@ + f,
        None => "You have no favorite food"@,
    }
}

/// The reply to `$nick`.
pub open spec fn nick_reply(nick: Option<Seq<char>>) -> Seq<char> {
    match nick {
        Some(n) => "Your IRC name is "@ + n,
        None => "You have no IRC name"@,
    }
}

/// The reply to `$notif`.
pub open spec fn notif_reply(loc: Option<NotifLocation>) -> Seq<char> {
    match loc {
        Some(NotifLocation::Discord) => "Notifying on "@ + "Discord"@,
        Some(NotifLocation::IRC) => "Notifying on "@ + "IRC"@,
        None => "No notification preference set. Your notifications will be sent to discord."@,
    }
}

/// The notification location a `$notif set` value names, if any.
pub open spec fn notif_of(val: Option<Seq<char>>) -> Option<NotifLocation> {
    match val {
        Some(v) => if v == word_discord() {
            Some(NotifLocation::Discord)
        } else if v == word_irc() {
            Some(NotifLocation::IRC)
        } else {
            None
        },
        None => None,
    }
}

/// Whether a `$` command reads or writes the author's settings, that is,
/// looks up the author among the users.
pub open spec fn change_touches_user(var: UserVar, cmd: Option<Seq<char>>, val: Option<Seq<char>>) -> bool {
    match var {
        UserVar::Unknown => false,
        UserVar::Notif => cmd is None || (cmd == Some(word_set()) && notif_of(val) is Some),
        _ => cmd is None || (cmd == Some(word_set()) && val is Some),
    }
}

/// `s` with user `i` replaced by `u`.
pub open spec fn with_user(s: BotView, i: int, u: UserView) -> BotView {
    BotView { users: s.users.update(i, u), ..s }
}

/// The reaction to a `$` command of the user at index `i`, asked in the
/// channel `channel`: `set` with a value writes the setting; no command
/// replies with the setting; anything else does nothing.
pub open spec fn change_var_spec(
    s: BotView,
    var: UserVar,
    cmd: Option<Seq<char>>,
    val: Option<Seq<char>>,
    i: int,
    channel: Seq<char>,
) -> (BotView, Seq<EffectView>) {
    let u = s.users[i];
    let set = cmd == Some(word_set());
    match var {
        UserVar::FavFood => if set {
            match val {
                Some(v) => (with_user(s, i, UserView { favorite_food: Some(v), ..u }), seq![]),
                None => (s, seq![]),
            }
        } else if cmd is None {
            (s, seq![EffectView::CreateMessage(food_reply(u.favorite_food), channel)])
        } else {
            (s, seq![])
        },
        UserVar::Nick => if set {
            match val {
                Some(v) => (with_user(s, i, UserView { irc_name: Some(v), ..u }), seq![]),
                None => (s, seq![]),
            }
        } else if cmd is None {
            (s, seq![EffectView::CreateMessage(nick_reply(u.irc_name), channel)])
        } else {
            (s, seq![])
        },
        UserVar::Notif => if set {
            match notif_of(val) {
                Some(loc) => (with_user(s, i, UserView { notif_location: Some(loc), ..u }), seq![]),
                None => (s, seq![]),
            }
        } else if cmd is None {
            (s, seq![EffectView::CreateMessage(notif_reply(u.notif_location), channel)])
        } else {
            (s, seq![])
        },
        UserVar::Unknown => (s, seq![]),
    }
}

/// The reaction to a chat message from someone other than the bot.
pub open spec fn message_spec(s: BotView, m: MessageView) -> (BotView, Seq<EffectView>) {
    match parse_spec(m.content) {
        ActionView::SendMessage(text) => (s, seq![EffectView::CreateMessage(text, m.channel_id)]),
        ActionView::TellJoke => (s, seq![EffectView::TellJoke(m.channel_id)]),
        ActionView::Quit => (BotView { quit: true, ..s }, seq![EffectView::Log(LogLineView::Quitting)]),
        ActionView::ChangeVariable(var, cmd, val) => if s.user_map.contains_key(m.author.id) {
            change_var_spec(s, var, cmd, val, s.user_map[m.author.id] as int, m.channel_id)
        } else {
            (s, seq![])
        },
        ActionView::Ignore => (s, seq![]),
    }
}

/// Whether the reaction to message `m` would index past the known users: the
/// message is a `$` command that looks up its author, whose recorded index is
/// out of range.
pub open spec fn message_panics(s: BotView, m: MessageView) -> bool {
    match parse_spec(m.content) {
        ActionView::ChangeVariable(var, cmd, val) => {
            &&& s.user_map.contains_key(m.author.id)
            &&& change_touches_user(var, cmd, val)
            &&& s.user_map[m.author.id] >= s.users.len()
        },
        _ => false,
    }
}

/// Whether the reaction to event `e` would index past the known users.
pub open spec fn event_panics(s: BotView, e: EventView) -> bool {
    match e {
        EventView::EventMessage(m) => m.author.id != s.id && message_panics(s, m),
        _ => false,
    }
}

/// `m` once each id, in order, is sent to its index in `ids`; a later
/// occurrence of an id wins.
pub open spec fn index_ids(m: Map<Seq<char>, usize>, ids: Seq<Seq<char>>) -> Map<Seq<char>, usize>
    decreases ids.len(),
{
    if ids.len() == 0 {
        m
    } else {
        index_ids(m, ids.drop_last()).insert(ids.last(), (ids.len() - 1) as usize)
    }
}

/// The ids of a list of users.
pub open spec fn ids_of(v: Seq<DiscordUserView>) -> Seq<Seq<char>> {
    v.map_values(|u: DiscordUserView| u.id)
}

/// The state once a guild's members and channels are known: each member
/// becomes a user with no settings, each member's id is indexed, and the
/// guild's channels replace the known ones.
pub open spec fn guild_spec(s: BotView, g: GuildView) -> BotView {
    BotView {
        users: g.members.map_values(|u: DiscordUserView| fresh_user(u)),
        user_map: index_ids(s.user_map, ids_of(g.members)),
        channels: g.channels,
        ..s
    }
}

/// The reaction to an IRC event: answer the welcome by joining the channel,
/// answer pings, log notices, and relay channel messages from other users to
/// the bridge channel as `<nick>: text`.
pub open spec fn irc_spec(e: IrcEventView) -> Seq<EffectView> {
    match e.command {
        IrcCommandView::Reply(n) => if n == 1 {
            seq![EffectView::IrcSend(IrcCommandView::Join(seq![irc_channel()], None))]
        } else {
            seq![EffectView::Log(LogLineView::UnknownIrcEvent)]
        },
        IrcCommandView::Notice(CommandTargetView::User(u), n) =>
            seq![EffectView::Log(LogLineView::IrcUserNotice(u, n))],
        IrcCommandView::Notice(CommandTargetView::Channel(c), n) =>
            seq![EffectView::Log(LogLineView::IrcChannelNotice(c, n))],
        IrcCommandView::PrivMsg(CommandTargetView::Channel(_), msg) => match e.source {
            Some(EventSourceView::User(nick)) => if nick != bot_nick() {
                seq![EffectView::CreateMessage("<"@ + nick + ">: "@ + msg, bridge_channel())]
            } else {
                seq![]
            },
            _ => seq![],
        },
        IrcCommandView::Ping(a, b) => seq![EffectView::IrcSend(IrcCommandView::Pong(a, b))],
        _ => seq![EffectView::Log(LogLineView::UnknownIrcEvent)],
    }
}

/// The bot's reaction to one event: the next state and the effects to carry
/// out, in order.
pub open spec fn step(s: BotView, e: EventView) -> (BotView, Seq<EffectView>) {
    match e {
        EventView::Hello(interval) => (
            BotView { heartbeat_armed: false, ..s },
            if s.heartbeat_armed {
                seq![
                    EffectView::StartHeartbeat(interval),
                    EffectView::Send(identify_payload(s.token)),
                ]
            } else {
                seq![EffectView::Send(identify_payload(s.token))]
            },
        ),
        EventView::Ack => (s, seq![]),
        EventView::EventReady(r) => (BotView { id: r.user.id, ..s }, seq![]),
        EventView::EventMessage(m) => if m.author.id != s.id {
            message_spec(s, m)
        } else {
            (s, seq![])
        },
        EventView::EventGuildCreate(g) => (guild_spec(s, g), seq![EffectView::Log(LogLineView::Ready)]),
        EventView::EventChannelCreate(c) => (BotView { channels: s.channels.push(c), ..s }, seq![]),
        EventView::SendHeartbeat => (s, seq![EffectView::Send(heartbeat_payload(s.sequence))]),
        EventView::Heartbeat => (s, seq![EffectView::Send(heartbeat_payload(s.sequence))]),
        EventView::IRCEvent(ev) => (s, irc_spec(ev)),
        EventView::UnknownEvent(name) => (s, seq![EffectView::Log(LogLineView::UnhandledEvent(name))]),
        EventView::Unknown(n) => (s, seq![EffectView::Log(LogLineView::OtherEvent(n))]),
    }
}

/// The state of a bot that has just connected.
pub open spec fn initial_state(token: Seq<char>, guild_id: Seq<char>, gateway: Seq<char>) -> BotView {
    BotView {
        quit: false,
        id: "0"@,
        guild_id,
        users: seq![],
        user_map: Map::empty(),
        irc_users: seq![],
        channels: seq![],
        token,
        gateway,
        sequence: None,
        heartbeat_armed: true,
    }
}

// ---------------------------------------------------------------------------
// The executable bot.
// ---------------------------------------------------------------------------

/// Whether `s` holds exactly the characters of `word`.
fn is_word(s: &String, word: &str) -> (res: bool)
    ensures
        res == (s@ == word@),
{
    let a = chars_of(s.as_str());
    let b = chars_of(word);
    chars_eq(a.as_slice(), b.as_slice())
}

/// Whether an optional command is `set`.
fn is_set(cmd: &Option<String>) -> (res: bool)
    ensures
        res == (opt_chars(*cmd) == Some(word_set())),
{
    proof {
        reveal_strlit("set");
    }
    assert("set"@ =~= word_set());
    match cmd {
        Some(c) => is_word(c, "set"),
        None => false,
    }
}

/// The notification location a `$notif set` value names, if any.
fn notif_from(val: &Option<String>) -> (res: Option<NotifLocation>)
    ensures
        res == notif_of(opt_chars(*val)),
{
    proof {
        reveal_strlit("discord");
        reveal_strlit("irc");
    }
    assert("discord"@ =~= word_discord());
    assert("irc"@ =~= word_irc());
    match val {
        Some(v) => if is_word(v, "discord") {
            Some(NotifLocation::Discord)
        } else if is_word(v, "irc") {
            Some(NotifLocation::IRC)
        } else {
            None
        },
        None => None,
    }
}

/// Whether a `$` command looks up its author among the users.
fn touches_user(var: UserVar, cmd: &Option<String>, val: &Option<String>) -> (res: bool)
    ensures
        res == change_touches_user(var, opt_chars(*cmd), opt_chars(*val)),
{
    match var {
        UserVar::Unknown => false,
        UserVar::Notif => cmd.is_none() || (is_set(cmd) && notif_from(val).is_some()),
        _ => cmd.is_none() || (is_set(cmd) && val.is_some()),
    }
}

/// `prefix` followed by `tail`.
fn text_with(prefix: &str, tail: &str) -> (res: String)
    ensures
        res@ == prefix@ + tail@,
{
    let mut res = prefix.to_owned();
    push_all(&mut res, tail);
    res
}

/// The reply to `$favfood`.
fn food_text(food: &Option<String>) -> (res: String)
    ensures
        res@ == food_reply(opt_chars(*food)),
{
    match food {
        Some(f) => text_with("Your favorite food is ", f.as_str()),
        None => "You have no favorite food".to_owned(),
    }
}

/// The reply to `$nick`.
fn nick_text(nick: &Option<String>) -> (res: String)
    ensures
        res@ == nick_reply(opt_chars(*nick)),
{
    match nick {
        Some(n) => text_with("Your IRC name is ", n.as_str()),
        None => "You have no IRC name".to_owned(),
    }
}

/// The reply to `$notif`.
fn notif_text(loc: Option<NotifLocation>) -> (res: String)
    ensures
        res@ == notif_reply(loc),
{
    match loc {
        Some(NotifLocation::Discord) => text_with("Notifying on ", "Discord"),
        Some(NotifLocation::IRC) => text_with("Notifying on ", "IRC"),
        None => "No notification preference set. Your notifications will be sent to discord.".to_owned(),
    }
}

/// The reaction to an IRC event.
fn irc_effects(event: IrcEvent) -> (res: Vec<Effect>)
    ensures
        effects_view(res@) == irc_spec(event@),
{
    let ghost ev = event@;
    let IrcEvent { source, command } = event;
    match command {
        IrcCommand::Reply(n) => {
            if n == 1 {
                let channels: Vec<String> = vec!["##cosi".to_owned()];
                assert(crate::irc::strings_view(channels@) =~= seq![irc_channel()]);
                let res = vec![Effect::IrcSend(IrcCommand::Join(channels, None))];
                assert(effects_view(res@) =~= irc_spec(ev));
                res
            } else {
                let res = vec![Effect::Log(LogLine::UnknownIrcEvent)];
                assert(effects_view(res@) =~= irc_spec(ev));
                res
            }
        },
        IrcCommand::Notice(CommandTarget::User(u), n) => {
            let res = vec![Effect::Log(LogLine::IrcUserNotice(u, n))];
            assert(effects_view(res@) =~= irc_spec(ev));
            res
        },
        IrcCommand::Notice(CommandTarget::Channel(c), n) => {
            let res = vec![Effect::Log(LogLine::IrcChannelNotice(c, n))];
            assert(effects_view(res@) =~= irc_spec(ev));
            res
        },
        IrcCommand::PrivMsg(CommandTarget::Channel(_), msg) => {
            match source {
                Some(EventSource::User(nick)) => {
                    proof {
                        reveal_strlit("LoftBot");
                    }
                    assert("LoftBot"@ =~= bot_nick());
                    if !is_word(&nick, "LoftBot") {
                        let mut text = "<".to_owned();
                        push_all(&mut text, nick.as_str());
                        push_all(&mut text, ">: ");
                        push_all(&mut text, msg.as_str());
                        let res = vec![Effect::CreateMessage(
                            OutgoingMessage { content: text },
                            "533354016818593850".to_owned(),
                        )];
                        assert(effects_view(res@) =~= irc_spec(ev));
                        res
                    } else {
                        let res: Vec<Effect> = Vec::new();
                        assert(effects_view(res@) =~= irc_spec(ev));
                        res
                    }
                },
                _ => {
                    let res: Vec<Effect> = Vec::new();
                    assert(effects_view(res@) =~= irc_spec(ev));
                    res
                },
            }
        },
        IrcCommand::Ping(a, b) => {
            let res = vec![Effect::IrcSend(IrcCommand::Pong(a, b))];
            assert(effects_view(res@) =~= irc_spec(ev));
            res
        },
        _ => {
            let res = vec![Effect::Log(LogLine::UnknownIrcEvent)];
            assert(effects_view(res@) =~= irc_spec(ev));
            res
        },
    }
}

impl LoftBot {
    /// A bot that has just connected: not quitting, id `"0"`, no users or
    /// channels known, no sequence number seen, heartbeat timer not started.
    pub fn new(token: String, guild_id: String, gateway: String) -> (res: LoftBot)
        ensures
            res@ == initial_state(token@, guild_id@, gateway@),
    {
        let res = LoftBot {
            quit: false,
            id: "0".to_owned(),
            guild_id,
            users: Vec::new(),
            user_map: StringHashMap::new(),
            irc_users: Vec::new(),
            channels: Vec::new(),
            token,
            gateway,
            sequence: None,
            heartbeat_armed: true,
        };
        assert(users_view(res.users@) =~= seq![]);
        assert(crate::irc::strings_view(res.irc_users@) =~= seq![]);
        assert(channels_view(res.channels@) =~= seq![]);
        res
    }

    /// Whether the bot has been told to stop.
    pub fn is_quit(&self) -> (res: bool)
        ensures
            res == self@.quit,
    {
        self.quit
    }

    /// The bot's own Discord user id, `"0"` until `READY`.
    pub fn id(&self) -> (res: &String)
        ensures
            res@ == self@.id,
    {
        &self.id
    }

    /// The id of the guild the bot serves.
    pub fn guild_id(&self) -> (res: &String)
        ensures
            res@ == self@.guild_id,
    {
        &self.guild_id
    }

    /// The token the bot identifies with.
    pub fn token(&self) -> (res: &String)
        ensures
            res@ == self@.token,
    {
        &self.token
    }

    /// The gateway address the bot connected to.
    pub fn gateway(&self) -> (res: &String)
        ensures
            res@ == self@.gateway,
    {
        &self.gateway
    }

    /// The channels the bot knows of.
    pub fn channels(&self) -> (res: &Vec<Channel>)
        ensures
            channels_view(res@) == self@.channels,
    {
        &self.channels
    }

    /// The users the bot knows of, with their settings.
    pub fn users(&self) -> (res: &Vec<User>)
        ensures
            users_view(res@) == self@.users,
    {
        &self.users
    }

    /// The index among the users recorded for a Discord user id.
    pub fn user_index(&self, id: &str) -> (res: Option<usize>)
        ensures
            res == (if self@.user_map.contains_key(id@) { Some(self@.user_map[id@]) } else { None }),
    {
        match self.user_map.get(id) {
            Some(i) => Some(*i),
            None => None,
        }
    }

    /// The event stream ended: the bot stops.
    pub fn on_stream_end(&mut self)
        ensures
            final(self)@ == (BotView { quit: true, ..old(self)@ }),
    {
        self.quit = true;
    }

    fn quit(&mut self)
        ensures
            final(self)@ == (BotView { quit: true, ..old(self)@ }),
    {
        self.quit = true;
    }

    /// Whether handling `event` would index past the known users (see
    /// [`event_panics`]); [`LoftBot::handle_event`] is not to be called then.
    pub fn would_panic(&self, event: &Event) -> (res: bool)
        ensures
            res == event_panics(self@, event@),
    {
        match event {
            Event::EventMessage(m) => {
                if m.author.id == self.id {
                    return false;
                }
                match parse_message(m.content.clone()) {
                    Action::ChangeVariable(var, cmd, val) => {
                        match self.user_map.get(m.author.id.as_str()) {
                            Some(i) => touches_user(var, &cmd, &val) && *i >= self.users.len(),
                            None => false,
                        }
                    },
                    _ => false,
                }
            },
            _ => false,
        }
    }

    /// Reads or writes a setting of the user at `user_index`, as asked in
    /// the channel `channel_id`: `set` with a value writes the setting, no
    /// command replies with it (see [`change_var_spec`]).
    pub fn change_var(
        &mut self,
        var: UserVar,
        cmd: Option<String>,
        val: Option<String>,
        user_index: usize,
        channel_id: String,
    ) -> (res: Vec<Effect>)
        requires
            change_touches_user(var, opt_chars(cmd), opt_chars(val)) ==> user_index < old(self)@.users.len(),
        ensures
            (final(self)@, effects_view(res@)) == change_var_spec(
                old(self)@,
                var,
                opt_chars(cmd),
                opt_chars(val),
                user_index as int,
                channel_id@,
            ),
    {
        let ghost s = self@;
        let set = is_set(&cmd);
        match var {
            UserVar::FavFood => {
                if set {
                    match val {
                        Some(v) => {
                            let ghost vv = v@;
                            self.users[user_index].favorite_food = Some(v);
                            assert(users_view(self.users@) =~= s.users.update(
                                user_index as int,
                                UserView { favorite_food: Some(vv), ..s.users[user_index as int] },
                            ));
                            Vec::new()
                        },
                        None => Vec::new(),
                    }
                } else if cmd.is_none() {
                    let m = food_text(&self.users[user_index].favorite_food);
                    let res = vec![Effect::CreateMessage(OutgoingMessage { content: m }, channel_id)];
                    assert(effects_view(res@) =~= change_var_spec(s, var, opt_chars(cmd), opt_chars(val), user_index as int, channel_id@).1);
                    res
                } else {
                    Vec::new()
                }
            },
            UserVar::Nick => {
                if set {
                    match val {
                        Some(v) => {
                            let ghost vv = v@;
                            self.users[user_index].irc_name = Some(v);
                            assert(users_view(self.users@) =~= s.users.update(
                                user_index as int,
                                UserView { irc_name: Some(vv), ..s.users[user_index as int] },
                            ));
                            Vec::new()
                        },
                        None => Vec::new(),
                    }
                } else if cmd.is_none() {
                    let m = nick_text(&self.users[user_index].irc_name);
                    let res = vec![Effect::CreateMessage(OutgoingMessage { content: m }, channel_id)];
                    assert(effects_view(res@) =~= change_var_spec(s, var, opt_chars(cmd), opt_chars(val), user_index as int, channel_id@).1);
                    res
                } else {
                    Vec::new()
                }
            },
            UserVar::Notif => {
                if set {
                    match notif_from(&val) {
                        Some(loc) => {
                            self.users[user_index].notif_location = Some(loc);
                            assert(users_view(self.users@) =~= s.users.update(
                                user_index as int,
                                UserView { notif_location: Some(loc), ..s.users[user_index as int] },
                            ));
                            Vec::new()
                        },
                        None => Vec::new(),
                    }
                } else if cmd.is_none() {
                    let m = notif_text(self.users[user_index].notif_location);
                    let res = vec![Effect::CreateMessage(OutgoingMessage { content: m }, channel_id)];
                    assert(effects_view(res@) =~= change_var_spec(s, var, opt_chars(cmd), opt_chars(val), user_index as int, channel_id@).1);
                    res
                } else {
                    Vec::new()
                }
            },
            UserVar::Unknown => Vec::new(),
        }
    }

    /// Reacts to a chat message from someone other than the bot.
    fn handle_message(&mut self, message: Message) -> (res: Vec<Effect>)
        requires
            !message_panics(old(self)@, message@),
        ensures
            (final(self)@, effects_view(res@)) == message_spec(old(self)@, message@),
    {
        let ghost s = self@;
        let ghost m = message@;
        let Message { content, channel_id, author } = message;
        match parse_message(content) {
            Action::SendMessage(text) => {
                let res = vec![Effect::CreateMessage(OutgoingMessage { content: text }, channel_id)];
                assert(effects_view(res@) =~= message_spec(s, m).1);
                res
            },
            Action::TellJoke => {
                let res = vec![Effect::TellJoke(channel_id)];
                assert(effects_view(res@) =~= message_spec(s, m).1);
                res
            },
            Action::Quit => {
                self.quit();
                let res = vec![Effect::Log(LogLine::Quitting)];
                assert(effects_view(res@) =~= message_spec(s, m).1);
                res
            },
            Action::ChangeVariable(var, cmd, val) => {
                match self.user_map.get(author.id.as_str()) {
                    Some(i) => {
                        let i = *i;
                        self.change_var(var, cmd, val, i, channel_id)
                    },
                    None => {
                        let res: Vec<Effect> = Vec::new();
                        assert(effects_view(res@) =~= message_spec(s, m).1);
                        res
                    },
                }
            },
            Action::Ignore => {
                let res: Vec<Effect> = Vec::new();
                assert(effects_view(res@) =~= message_spec(s, m).1);
                res
            },
        }
    }

    /// Takes in a guild's members, as users with no settings, and its
    /// channels.
    fn take_guild(&mut self, guild: Guild)
        ensures
            final(self)@ == guild_spec(old(self)@, guild@),
    {
        let ghost s = self@;
        let ghost g = guild@;
        let Guild { members, channels } = guild;
        let ghost fresh = g.members.map_values(|u: DiscordUserView| fresh_user(u));
        let mut users: Vec<User> = Vec::new();
        assert(fresh.len() == members@.len());
        for m in it: members.into_iter()
            invariant
                it.seq() == members@,
                g.members == crate::event::members_view(members@),
                fresh == g.members.map_values(|u: DiscordUserView| fresh_user(u)),
                fresh.len() == members@.len(),
                users@.len() == it.index(),
                users_view(users@) == fresh.take(it.index() as int),
        {
            let ghost k = users@.len() as int;
            assert(m == members@[k]);
            let u = User::from_discord(m.user);
            assert(u@ == fresh[k]);
            users.push(u);
            assert(users_view(users@) =~= fresh.take(k + 1));
        }
        assert(fresh.take(fresh.len() as int) =~= fresh);
        self.users = users;
        let ghost ids = ids_of(g.members);
        let mut i: usize = 0;
        assert(ids.take(0) =~= Seq::<Seq<char>>::empty());
        while i < self.users.len()
            invariant
                i <= self.users@.len(),
                self.users@.len() == fresh.len(),
                ids.len() == fresh.len(),
                users_view(self.users@) == fresh,
                fresh == g.members.map_values(|u: DiscordUserView| fresh_user(u)),
                ids == ids_of(g.members),
                self.user_map@ == index_ids(s.user_map, ids.take(i as int)),
                self@ == (BotView { users: fresh, user_map: index_ids(s.user_map, ids.take(i as int)), ..s }),
            decreases self.users@.len() - i,
        {
            let id = self.users[i].discord_user.id.clone();
            assert(id@ == ids[i as int]) by {
                assert(users_view(self.users@)[i as int] == self.users@[i as int]@);
                assert(fresh[i as int] == fresh_user(g.members[i as int]));
            }
            assert(ids.take(i + 1).drop_last() =~= ids.take(i as int));
            assert(ids.take(i + 1).last() == ids[i as int]);
            self.user_map.insert(id, i);
            i = i + 1;
        }
        assert(ids.take(ids.len() as int) =~= ids);
        self.channels = channels;
    }

    /// Reacts to one event: updates the state and returns the effects to
    /// carry out, in order.
    pub fn handle_event(&mut self, event: Event) -> (res: Vec<Effect>)
        requires
            !event_panics(old(self)@, event@),
        ensures
            (final(self)@, effects_view(res@)) == step(old(self)@, event@),
    {
        let ghost s = self@;
        let ghost e = event@;
        match event {
            Event::Hello(data) => {
                let mut res: Vec<Effect> = Vec::new();
                if self.heartbeat_armed {
                    self.heartbeat_armed = false;
                    res.push(Effect::StartHeartbeat(data.heartbeat_interval));
                }
                let ident = Payload { op: 2, d: PayloadData::Identify(Identify::new(self.token.clone())), s: None, t: None };
                res.push(Effect::Send(ident));
                assert(effects_view(res@) =~= step(s, e).1);
                res
            },
            Event::Ack => Vec::new(),
            Event::EventReady(data) => {
                self.id = data.user.id;
                Vec::new()
            },
            Event::EventMessage(message) => {
                if message.author.id != self.id {
                    self.handle_message(message)
                } else {
                    Vec::new()
                }
            },
            Event::EventGuildCreate(guild) => {
                self.take_guild(guild);
                let res = vec![Effect::Log(LogLine::Ready)];
                assert(effects_view(res@) =~= step(s, e).1);
                res
            },
            Event::EventChannelCreate(channel) => {
                self.channels.push(channel);
                assert(channels_view(self.channels@) =~= s.channels.push(e->EventChannelCreate_0));
                Vec::new()
            },
            Event::SendHeartbeat_ | Event::Heartbeat => {
                let hb = Payload { op: 1, d: PayloadData::Sequence(self.sequence), s: None, t: None };
                let res = vec![Effect::Send(hb)];
                assert(effects_view(res@) =~= step(s, e).1);
                res
            },
            Event::IRCEvent(ev) => irc_effects(ev),
            Event::UnknownEvent(name) => {
                let res = vec![Effect::Log(LogLine::UnhandledEvent(name))];
                assert(effects_view(res@) =~= step(s, e).1);
                res
            },
            Event::Unknown(n) => {
                let res = vec![Effect::Log(LogLine::OtherEvent(n))];
                assert(effects_view(res@) =~= step(s, e).1);
                res
            },
        }
    }

    /// The address of the gateway's websocket, given the base URL that the
    /// gateway endpoint returns.
    pub fn gateway_url(base: &str) -> (res: String)
        ensures
            res@ == base@ + "/?v=6&encoding=json"@,
    {
        text_with(base, "/?v=6&encoding=json")
    }

    /// The address of the endpoint that lists the guild's channels.
    pub fn channels_url(&self) -> (res: String)
        ensures
            res@ == "https://discordapp.com/api/v6/guilds/"@ + self@.guild_id + "/channels"@,
    {
        let mut res = text_with("https://discordapp.com/api/v6/guilds/", self.guild_id.as_str());
        push_all(&mut res, "/channels");
        res
    }

    /// The address of the endpoint that lists the guild's members.
    pub fn members_url(&self) -> (res: String)
        ensures
            res@ == "https://discordapp.com/api/v6/guilds/"@ + self@.guild_id + "/members"@,
    {
        let mut res = text_with("https://discordapp.com/api/v6/guilds/", self.guild_id.as_str());
        push_all(&mut res, "/members");
        res
    }

    /// The address of the endpoint that posts a message in a channel.
    pub fn messages_url(channel_id: &str) -> (res: String)
        ensures
            res@ == "https://discordapp.com/api/v6/channels/"@ + channel_id@ + "/messages"@,
    {
        let mut res = text_with("https://discordapp.com/api/v6/channels/", channel_id);
        push_all(&mut res, "/messages");
        res
    }

    /// The text channels (type 0) of a channel list, in order.
    pub fn text_channels(channels: Vec<Channel>) -> (res: Vec<Channel>)
        ensures
            channels_view(res@) == channels_view(channels@).filter(|c: ChannelView| c.ty == 0),
    {
        let ghost all = channels_view(channels@);
        let mut res: Vec<Channel> = Vec::new();
        for c in it: channels.into_iter()
            invariant
                it.seq() == channels@,
                all == channels_view(channels@),
                all.len() == channels@.len(),
                channels_view(res@) == all.take(it.index() as int).filter(|c: ChannelView| c.ty == 0),
        {
            let ghost k = it.index() as int;
            assert(c@ == all[k]);
            assert(all.take(k + 1).drop_last() =~= all.take(k));
            reveal_with_fuel(Seq::<_>::filter, 1);
            let ghost before = channels_view(res@);
            if c.ty == 0 {
                res.push(c);
                assert(channels_view(res@) =~= before.push(all[k]));
            } else {
                assert(channels_view(res@) =~= before);
            }
        }
        assert(all.take(all.len() as int) =~= all);
        res
    }

    /// The users of a member list, in order.
    pub fn member_users(members: Vec<Member>) -> (res: Vec<DiscordUser>)
        ensures
            res@.map_values(|u: DiscordUser| u@) == crate::event::members_view(members@),
    {
        let ghost all = crate::event::members_view(members@);
        let mut res: Vec<DiscordUser> = Vec::new();
        for m in it: members.into_iter()
            invariant
                it.seq() == members@,
                all == crate::event::members_view(members@),
                all.len() == members@.len(),
                res@.len() == it.index(),
                res@.map_values(|u: DiscordUser| u@) == all.take(it.index() as int),
        {
            let ghost k = res@.len() as int;
            assert(m == members@[k]);
            res.push(m.user);
            assert(res@.map_values(|u: DiscordUser| u@) =~= all.take(k + 1));
        }
        assert(all.take(all.len() as int) =~= all);
        res
    }
}

} // verus!
