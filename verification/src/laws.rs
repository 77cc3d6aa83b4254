//! Properties of the bot that span events: what a setting read gives back
//! after a write, which state no event changes, and what a guild's member
//! list guarantees.

use vstd::prelude::*;
use crate::bot::{
    change_var_spec, event_panics, food_reply, guild_spec, ids_of, index_ids, irc_spec,
    message_panics, message_spec, nick_reply, notif_of, notif_reply, step, word_discord, word_irc,
    word_set, BotView, EffectView,
};
use crate::command::{
    lemma_split_spaces_concat, lemma_split_spaces_word, parse_spec, split_spaces, user_var_of,
    word_favfood, word_joke, word_nick, word_notif, word_quit, ActionView,
};
use crate::bot::{bot_nick, LogLineView};
use crate::event::{
    name_channel_create, name_guild_create, name_message_create, name_ready, route_spec, BodyKind,
    EventView, GuildView, IdentifyView, MessageView, PayloadDataView, PayloadRouteView, PayloadView,
};
use crate::irc::{CommandTargetView, EventSourceView, IrcCommandView, IrcEventView};
use crate::user::{DiscordUserView, NotifLocation, UserVar};

verus! {

/// Whether `w` holds no space.
pub open spec fn no_spaces(w: Seq<char>) -> bool {
    forall|i: int| 0 <= i < w.len() ==> w[i] != ' '
}

/// The text `$<var> set <value>`.
pub open spec fn set_command(var: Seq<char>, value: Seq<char>) -> Seq<char> {
    seq!['$'] + var + seq![' '] + word_set() + seq![' '] + value
}

/// The text `$<var>`.
pub open spec fn query_command(var: Seq<char>) -> Seq<char> {
    seq!['$'] + var
}

/// The chat message event with these contents.
pub open spec fn message_event(content: Seq<char>, channel: Seq<char>, author: DiscordUserView) -> EventView {
    EventView::EventMessage(MessageView { content, channel_id: channel, author })
}

/// `$<var> set <value>` asks to write `value` into the setting `var` names.
pub proof fn lemma_parse_set_command(var: Seq<char>, value: Seq<char>)
    requires
        no_spaces(var),
        no_spaces(value),
    ensures
        parse_spec(set_command(var, value)) == ActionView::ChangeVariable(
            user_var_of(var),
            Some(word_set()),
            Some(value),
        ),
{
    let m = set_command(var, value);
    assert(m.skip(1) =~= (var + seq![' '] + word_set()) + seq![' '] + value);
    lemma_split_spaces_concat(var + seq![' '] + word_set(), value);
    lemma_split_spaces_concat(var, word_set());
    lemma_split_spaces_word(var);
    lemma_split_spaces_word(word_set());
    lemma_split_spaces_word(value);
    assert(split_spaces(m.skip(1)) =~= seq![var, word_set(), value]);
}

/// `$<var>` asks to read the setting `var` names.
pub proof fn lemma_parse_query_command(var: Seq<char>)
    requires
        no_spaces(var),
    ensures
        parse_spec(query_command(var)) == ActionView::ChangeVariable(user_var_of(var), None, None),
{
    let m = query_command(var);
    assert(m.skip(1) =~= var);
    lemma_split_spaces_word(var);
}

/// After `$favfood set <food>`, which answers nothing, `$favfood` from the
/// same user replies, in the channel it was asked in, that the favorite food
/// is `<food>`.
pub proof fn law_favfood_set_then_query(
    s: BotView,
    author: DiscordUserView,
    c1: Seq<char>,
    c2: Seq<char>,
    food: Seq<char>,
)
    requires
        author.id != s.id,
        s.user_map.contains_key(author.id),
        s.user_map[author.id] < s.users.len(),
        no_spaces(food),
    ensures
        ({
            let (s1, e1) = step(s, message_event(set_command(word_favfood(), food), c1, author));
            let (s2, e2) = step(s1, message_event(query_command(word_favfood()), c2, author));
            &&& e1 == Seq::<EffectView>::empty()
            &&& e2 == seq![EffectView::CreateMessage(food_reply(Some(food)), c2)]
            &&& s2 == s1
        }),
{
    lemma_parse_set_command(word_favfood(), food);
    lemma_parse_query_command(word_favfood());
    assert(user_var_of(word_favfood()) == UserVar::FavFood);
    let s1 = step(s, message_event(set_command(word_favfood(), food), c1, author)).0;
    assert(s1.users[s.user_map[author.id] as int].favorite_food == Some(food));
}

/// After `$nick set <name>`, which answers nothing, `$nick` from the same
/// user replies, in the channel it was asked in, that the IRC name is
/// `<name>`.
pub proof fn law_nick_set_then_query(
    s: BotView,
    author: DiscordUserView,
    c1: Seq<char>,
    c2: Seq<char>,
    name: Seq<char>,
)
    requires
        author.id != s.id,
        s.user_map.contains_key(author.id),
        s.user_map[author.id] < s.users.len(),
        no_spaces(name),
    ensures
        ({
            let (s1, e1) = step(s, message_event(set_command(word_nick(), name), c1, author));
            let (s2, e2) = step(s1, message_event(query_command(word_nick()), c2, author));
            &&& e1 == Seq::<EffectView>::empty()
            &&& e2 == seq![EffectView::CreateMessage(nick_reply(Some(name)), c2)]
            &&& s2 == s1
        }),
{
    lemma_parse_set_command(word_nick(), name);
    lemma_parse_query_command(word_nick());
    assert(user_var_of(word_nick()) == UserVar::Nick);
    let s1 = step(s, message_event(set_command(word_nick(), name), c1, author)).0;
    assert(s1.users[s.user_map[author.id] as int].irc_name == Some(name));
}

/// After `$notif set discord` or `$notif set irc`, which answer nothing,
/// `$notif` from the same user replies that notifications go there.
pub proof fn law_notif_set_then_query(
    s: BotView,
    author: DiscordUserView,
    c1: Seq<char>,
    c2: Seq<char>,
    value: Seq<char>,
)
    requires
        author.id != s.id,
        s.user_map.contains_key(author.id),
        s.user_map[author.id] < s.users.len(),
        value == word_discord() || value == word_irc(),
    ensures
        ({
            let (s1, e1) = step(s, message_event(set_command(word_notif(), value), c1, author));
            let (s2, e2) = step(s1, message_event(query_command(word_notif()), c2, author));
            let loc = if value == word_discord() { NotifLocation::Discord } else { NotifLocation::IRC };
            &&& e1 == Seq::<EffectView>::empty()
            &&& e2 == seq![EffectView::CreateMessage(notif_reply(Some(loc)), c2)]
            &&& s2 == s1
        }),
{
    assert(no_spaces(value));
    lemma_parse_set_command(word_notif(), value);
    lemma_parse_query_command(word_notif());
    assert(user_var_of(word_notif()) == UserVar::Notif);
    assert(word_discord() != word_irc());
    let loc = if value == word_discord() { NotifLocation::Discord } else { NotifLocation::IRC };
    assert(notif_of(Some(value)) == Some(loc));
    let s1 = step(s, message_event(set_command(word_notif(), value), c1, author)).0;
    assert(s1.users[s.user_map[author.id] as int].notif_location == Some(loc));
}

/// A setting written into user `i` is what a later read of it replies,
/// for every value: after `set` with `value` on the favorite food or the IRC
/// name (which answers nothing and changes no other user), a read without a
/// command replies, in the channel of the read, with that value.
/// [`LoftBot::change_var`](crate::bot) computes exactly `change_var_spec`.
pub proof fn law_change_var_read_after_write(
    s: BotView,
    var: UserVar,
    value: Seq<char>,
    i: int,
    c1: Seq<char>,
    c2: Seq<char>,
    val2: Option<Seq<char>>,
)
    requires
        var == UserVar::FavFood || var == UserVar::Nick,
        0 <= i < s.users.len(),
    ensures
        ({
            let (s1, e1) = change_var_spec(s, var, Some("set"@), Some(value), i, c1);
            let (s2, e2) = change_var_spec(s1, var, None, val2, i, c2);
            let text = if var == UserVar::FavFood {
                "Your favorite food is "@ + value
            } else {
                "Your IRC name is "@ + value
            };
            &&& e1 == Seq::<EffectView>::empty()
            &&& s1.users.len() == s.users.len()
            &&& forall|j: int| 0 <= j < s.users.len() && j != i ==> s1.users[j] == s.users[j]
            &&& e2 == seq![EffectView::CreateMessage(text, c2)]
            &&& s2 == s1
        }),
{
    reveal_strlit("set");
    assert("set"@ =~= word_set());
}

/// The same for the notification place: after `set discord` or `set irc`,
/// a read replies that notifications go there.
pub proof fn law_notif_read_after_write(
    s: BotView,
    value: Seq<char>,
    i: int,
    c1: Seq<char>,
    c2: Seq<char>,
    val2: Option<Seq<char>>,
)
    requires
        value == "discord"@ || value == "irc"@,
        0 <= i < s.users.len(),
    ensures
        ({
            let (s1, e1) = change_var_spec(s, UserVar::Notif, Some("set"@), Some(value), i, c1);
            let (s2, e2) = change_var_spec(s1, UserVar::Notif, None, val2, i, c2);
            let text = if value == "discord"@ { "Notifying on Discord"@ } else { "Notifying on IRC"@ };
            &&& e1 == Seq::<EffectView>::empty()
            &&& s1.users.len() == s.users.len()
            &&& forall|j: int| 0 <= j < s.users.len() && j != i ==> s1.users[j] == s.users[j]
            &&& e2 == seq![EffectView::CreateMessage(text, c2)]
            &&& s2 == s1
        }),
{
    reveal_strlit("discord");
    reveal_strlit("irc");
    reveal_strlit("set");
    assert("set"@ =~= word_set());
    assert("discord"@ =~= word_discord());
    assert("irc"@ =~= word_irc());
    assert(word_discord() != word_irc());
    reveal_strlit("Notifying on ");
    reveal_strlit("Discord");
    reveal_strlit("IRC");
    reveal_strlit("Notifying on Discord");
    reveal_strlit("Notifying on IRC");
    assert("Notifying on "@ + "Discord"@ =~= "Notifying on Discord"@);
    assert("Notifying on "@ + "IRC"@ =~= "Notifying on IRC"@);
}

/// Reading a setting that was never set replies, in the channel asked in,
/// that there is none (for notifications: that they go to Discord), and
/// changes nothing.
pub proof fn law_read_unset_setting(s: BotView, var: UserVar, val: Option<Seq<char>>, i: int, c: Seq<char>)
    requires
        0 <= i < s.users.len(),
        s.users[i].favorite_food is None,
        s.users[i].irc_name is None,
        s.users[i].notif_location is None,
        var != UserVar::Unknown,
    ensures
        ({
            let (s1, e) = change_var_spec(s, var, None, val, i, c);
            let text = match var {
                UserVar::FavFood => "You have no favorite food"@,
                UserVar::Nick => "You have no IRC name"@,
                _ => "No notification preference set. Your notifications will be sent to discord."@,
            };
            &&& s1 == s
            &&& e == seq![EffectView::CreateMessage(text, c)]
        }),
{
}

/// The bot does nothing with its own messages.
pub proof fn law_own_messages_ignored(s: BotView, m: MessageView)
    requires
        m.author.id == s.id,
    ensures
        step(s, EventView::EventMessage(m)) == (s, Seq::<EffectView>::empty()),
{
}

/// A `$` command from someone the bot has no user for changes nothing and
/// answers nothing.
pub proof fn law_unknown_author_ignored(s: BotView, m: MessageView)
    requires
        !s.user_map.contains_key(m.author.id),
        m.content.len() > 0,
        m.content[0] == '$',
    ensures
        step(s, EventView::EventMessage(m)) == (s, Seq::<EffectView>::empty()),
{
}

/// No event changes the token, the guild, the gateway, the sequence number
/// or the IRC users; a bot that quits stays quit; and the heartbeat timer is
/// started at most once: only by a `HELLO` that finds it not yet started,
/// after which it counts as started for good.
pub proof fn law_step_frame(s: BotView, e: EventView)
    requires
        !event_panics(s, e),
    ensures
        ({
            let (s1, effects) = step(s, e);
            &&& s1.token == s.token
            &&& s1.guild_id == s.guild_id
            &&& s1.gateway == s.gateway
            &&& s1.sequence == s.sequence
            &&& s1.irc_users == s.irc_users
            &&& s.quit ==> s1.quit
            &&& s1.heartbeat_armed ==> s.heartbeat_armed
            &&& forall|k: int| 0 <= k < effects.len() && effects[k] is StartHeartbeat
                ==> s.heartbeat_armed && !s1.heartbeat_armed && e is Hello
        }),
{
    let (s1, effects) = step(s, e);
    match e {
        EventView::EventMessage(m) => {
            if m.author.id != s.id {
                match parse_spec(m.content) {
                    ActionView::ChangeVariable(var, cmd, val) => {
                        if s.user_map.contains_key(m.author.id) {
                            let i = s.user_map[m.author.id] as int;
                            let r = change_var_spec(s, var, cmd, val, i, m.channel_id);
                            assert(r.0.token == s.token);
                            assert(forall|k: int| 0 <= k < r.1.len() ==> !(r.1[k] is StartHeartbeat));
                        }
                    },
                    _ => {},
                }
            }
        },
        EventView::IRCEvent(ev) => {
            assert(forall|k: int| 0 <= k < irc_spec(ev).len() ==> !(irc_spec(ev)[k] is StartHeartbeat));
        },
        _ => {},
    }
}

/// A chat message changes at most the settings of its author, and nothing
/// else of the users, the user index, the channels or the bot's id.
pub proof fn law_message_changes_only_author(s: BotView, m: MessageView)
    requires
        !message_panics(s, m),
    ensures
        ({
            let s1 = message_spec(s, m).0;
            &&& s1.users.len() == s.users.len()
            &&& s1.user_map == s.user_map
            &&& s1.channels == s.channels
            &&& s1.id == s.id
            &&& forall|j: int| 0 <= j < s.users.len() ==> s1.users[j].discord_user == s.users[j].discord_user
            &&& forall|j: int| 0 <= j < s.users.len()
                && !(s.user_map.contains_key(m.author.id) && j == s.user_map[m.author.id])
                ==> s1.users[j] == s.users[j]
        }),
{
    match parse_spec(m.content) {
        ActionView::ChangeVariable(var, cmd, val) => {
            if s.user_map.contains_key(m.author.id) {
                let i = s.user_map[m.author.id] as int;
                let r = change_var_spec(s, var, cmd, val, i, m.channel_id);
                assert(r.0.users.len() == s.users.len());
            }
        },
        _ => {},
    }
}

/// Every reply to a chat message goes to the channel it was posted in.
pub proof fn law_replies_go_to_origin(s: BotView, m: MessageView)
    requires
        !message_panics(s, m),
    ensures
        forall|k: int| 0 <= k < message_spec(s, m).1.len() ==> match #[trigger] message_spec(s, m).1[k] {
            EffectView::CreateMessage(_, c) => c == m.channel_id,
            EffectView::TellJoke(c) => c == m.channel_id,
            _ => true,
        },
{
    match parse_spec(m.content) {
        ActionView::ChangeVariable(var, cmd, val) => {
            if s.user_map.contains_key(m.author.id) {
                let i = s.user_map[m.author.id] as int;
                let r = change_var_spec(s, var, cmd, val, i, m.channel_id);
                assert(r.1.len() <= 1);
            }
        },
        _ => {},
    }
}

/// Whether `r` sends each id of `ids` to a position of `ids` that holds it.
pub open spec fn indexes_all(r: Map<Seq<char>, usize>, ids: Seq<Seq<char>>) -> bool {
    forall|j: int| 0 <= j < ids.len() ==> {
        &&& r.contains_key(#[trigger] ids[j])
        &&& r[ids[j]] < ids.len()
        &&& ids[r[ids[j]] as int] == ids[j]
    }
}

/// Indexing a list of ids sends each of them to a position that holds it.
pub proof fn lemma_index_ids(m: Map<Seq<char>, usize>, ids: Seq<Seq<char>>)
    requires
        ids.len() <= usize::MAX + 1,
    ensures
        indexes_all(index_ids(m, ids), ids),
    decreases ids.len(),
{
    if ids.len() > 0 {
        let prev = ids.drop_last();
        lemma_index_ids(m, prev);
        let rp = index_ids(m, prev);
        let r = index_ids(m, ids);
        assert forall|j: int| 0 <= j < ids.len() implies {
            &&& r.contains_key(#[trigger] ids[j])
            &&& r[ids[j]] < ids.len()
            &&& ids[r[ids[j]] as int] == ids[j]
        } by {
            if j < ids.len() - 1 && ids[j] != ids.last() {
                assert(prev[j] == ids[j]);
                assert(rp.contains_key(prev[j]));
                assert(prev[rp[prev[j]] as int] == ids[rp[ids[j]] as int]);
            }
        }
    }
}

/// Once a guild's members are known, each member's id leads to a user with
/// that id, so a `$` command from any member never reads past the users.
pub proof fn law_guild_indexes_members(s: BotView, g: GuildView, m: MessageView)
    requires
        g.members.len() <= usize::MAX,
    ensures
        ({
            let s1 = guild_spec(s, g);
            &&& forall|j: int| 0 <= j < g.members.len() ==> {
                let id = #[trigger] g.members[j].id;
                &&& s1.user_map.contains_key(id)
                &&& s1.user_map[id] < s1.users.len()
                &&& s1.users[s1.user_map[id] as int].discord_user.id == id
            }
            &&& (exists|j: int| 0 <= j < g.members.len() && g.members[j].id == m.author.id)
                ==> !event_panics(s1, EventView::EventMessage(m))
        }),
{
    let ids = ids_of(g.members);
    lemma_index_ids(s.user_map, ids);
    let s1 = guild_spec(s, g);
    assert forall|j: int| 0 <= j < g.members.len() implies {
        let id = #[trigger] g.members[j].id;
        &&& s1.user_map.contains_key(id)
        &&& s1.user_map[id] < s1.users.len()
        &&& s1.users[s1.user_map[id] as int].discord_user.id == id
    } by {
        assert(ids[j] == g.members[j].id);
        let k = s1.user_map[ids[j]] as int;
        assert(ids[k] == g.members[k].id);
    }
}

/// A `$` command touches only the setting it names, of the user it is
/// about: every other user, the user's Discord identity and the user's other
/// two settings stay as they were, and so does the rest of the bot's state.
/// A command other than `set` changes nothing at all.
pub proof fn law_change_var_touches_only_named_setting(
    s: BotView,
    var: UserVar,
    cmd: Option<Seq<char>>,
    val: Option<Seq<char>>,
    i: int,
    channel: Seq<char>,
)
    requires
        0 <= i < s.users.len(),
    ensures
        ({
            let s1 = change_var_spec(s, var, cmd, val, i, channel).0;
            let u = s.users[i];
            let u1 = s1.users[i];
            &&& s1.users.len() == s.users.len()
            &&& forall|j: int| 0 <= j < s.users.len() && j != i ==> s1.users[j] == s.users[j]
            &&& u1.discord_user == u.discord_user
            &&& var != UserVar::FavFood ==> u1.favorite_food == u.favorite_food
            &&& var != UserVar::Nick ==> u1.irc_name == u.irc_name
            &&& var != UserVar::Notif ==> u1.notif_location == u.notif_location
            &&& s1.quit == s.quit
            &&& s1.id == s.id
            &&& s1.user_map == s.user_map
            &&& s1.channels == s.channels
            &&& s1.token == s.token
            &&& s1.heartbeat_armed == s.heartbeat_armed
            &&& cmd != Some("set"@) ==> s1 == s
        }),
{
    reveal_strlit("set");
    assert("set"@ =~= word_set());
}

/// A dispatch payload (opcode 0) is read as a body of a given kind exactly
/// when its event name is that kind's name, `READY`, `MESSAGE_CREATE`,
/// `GUILD_CREATE` or `CHANNEL_CREATE`; any other name is an unknown event
/// carrying that name.
pub proof fn law_dispatch_routing(name: Seq<char>)
    ensures
        route_spec(0, Some(name)) == PayloadRouteView::Decode(BodyKind::Ready) <==> name == "READY"@,
        route_spec(0, Some(name)) == PayloadRouteView::Decode(BodyKind::Message) <==> name == "MESSAGE_CREATE"@,
        route_spec(0, Some(name)) == PayloadRouteView::Decode(BodyKind::GuildCreate) <==> name == "GUILD_CREATE"@,
        route_spec(0, Some(name)) == PayloadRouteView::Decode(BodyKind::ChannelCreate) <==> name == "CHANNEL_CREATE"@,
        route_spec(0, Some(name)) != PayloadRouteView::Decode(BodyKind::Hello),
        name != "READY"@ && name != "MESSAGE_CREATE"@ && name != "GUILD_CREATE"@ && name != "CHANNEL_CREATE"@
            ==> route_spec(0, Some(name)) == PayloadRouteView::Done(EventView::UnknownEvent(name)),
{
    reveal_strlit("READY");
    reveal_strlit("MESSAGE_CREATE");
    reveal_strlit("GUILD_CREATE");
    reveal_strlit("CHANNEL_CREATE");
    assert("READY"@ =~= name_ready());
    assert("MESSAGE_CREATE"@ =~= name_message_create());
    assert("GUILD_CREATE"@ =~= name_guild_create());
    assert("CHANNEL_CREATE"@ =~= name_channel_create());
}

/// On `GUILD_CREATE` the known channels become exactly the guild's
/// channels, in order, and the users exactly its members, in order, each
/// with no setting; the bot's id, its quitting and its heartbeat are
/// untouched, and it logs that it is ready.
pub proof fn law_guild_create_replaces(s: BotView, g: GuildView)
    ensures
        ({
            let (s1, effects) = step(s, EventView::EventGuildCreate(g));
            &&& s1.channels == g.channels
            &&& s1.users.len() == g.members.len()
            &&& forall|j: int| 0 <= j < g.members.len() ==> {
                &&& (#[trigger] s1.users[j]).discord_user == g.members[j]
                &&& s1.users[j].irc_name is None
                &&& s1.users[j].notif_location is None
                &&& s1.users[j].favorite_food is None
            }
            &&& s1.id == s.id
            &&& s1.quit == s.quit
            &&& s1.heartbeat_armed == s.heartbeat_armed
            &&& effects == seq![EffectView::Log(LogLineView::Ready)]
        }),
{
}

/// An IRC message to a channel from a user other than the bot is posted to
/// the bridge channel as `<nick>: ` followed by the message text, unchanged;
/// one from the bot's own nick `LoftBot` is not posted. Either way the state
/// stays as it was.
pub proof fn law_irc_relay(s: BotView, nick: Seq<char>, channel: Seq<char>, msg: Seq<char>)
    ensures
        ({
            let e = IrcEventView {
                source: Some(EventSourceView::User(nick)),
                command: IrcCommandView::PrivMsg(CommandTargetView::Channel(channel), msg),
            };
            let (s1, effects) = step(s, EventView::IRCEvent(e));
            &&& s1 == s
            &&& nick == "LoftBot"@ ==> effects == Seq::<EffectView>::empty()
            &&& nick != "LoftBot"@ ==> effects == seq![
                EffectView::CreateMessage("<"@ + nick + ">: "@ + msg, "533354016818593850"@),
            ]
        }),
{
    reveal_strlit("LoftBot");
    assert("LoftBot"@ =~= bot_nick());
}

/// A ping is answered by a pong with the same arguments, and nothing else.
pub proof fn law_irc_ping_pong(s: BotView, source: Option<EventSourceView>, a: Seq<char>, b: Option<Seq<char>>)
    ensures
        step(s, EventView::IRCEvent(IrcEventView { source, command: IrcCommandView::Ping(a, b) }))
            == (s, seq![EffectView::IrcSend(IrcCommandView::Pong(a, b))]),
{
}

/// How chat messages read, by their text: `!joke` and `!quit` exactly, and
/// `$favfood`, `$nick`, `$notif` followed by `set` and a value without
/// spaces; a message that starts with neither `!` nor `$` asks nothing.
pub proof fn law_parse_commands(value: Seq<char>, text: Seq<char>)
    requires
        no_spaces(value),
    ensures
        parse_spec("!joke"@) == ActionView::TellJoke,
        parse_spec("!quit"@) == ActionView::Quit,
        parse_spec("$favfood set "@ + value)
            == ActionView::ChangeVariable(UserVar::FavFood, Some("set"@), Some(value)),
        parse_spec("$nick set "@ + value)
            == ActionView::ChangeVariable(UserVar::Nick, Some("set"@), Some(value)),
        parse_spec("$notif set "@ + value)
            == ActionView::ChangeVariable(UserVar::Notif, Some("set"@), Some(value)),
        parse_spec("$favfood"@) == ActionView::ChangeVariable(UserVar::FavFood, None, None),
        parse_spec("$nick"@) == ActionView::ChangeVariable(UserVar::Nick, None, None),
        parse_spec("$notif"@) == ActionView::ChangeVariable(UserVar::Notif, None, None),
        text.len() == 0 || (text[0] != '!' && text[0] != '$') ==> parse_spec(text) == ActionView::Ignore,
{
    reveal_strlit("!joke");
    reveal_strlit("!quit");
    reveal_strlit("$favfood set ");
    reveal_strlit("$nick set ");
    reveal_strlit("$notif set ");
    reveal_strlit("$favfood");
    reveal_strlit("$nick");
    reveal_strlit("$notif");
    reveal_strlit("set");
    assert("set"@ =~= word_set());
    assert("!joke"@.skip(1) =~= word_joke());
    assert("!quit"@.skip(1) =~= word_quit());
    assert("$favfood set "@ + value =~= set_command(word_favfood(), value));
    assert("$nick set "@ + value =~= set_command(word_nick(), value));
    assert("$notif set "@ + value =~= set_command(word_notif(), value));
    assert("$favfood"@ =~= query_command(word_favfood()));
    assert("$nick"@ =~= query_command(word_nick()));
    assert("$notif"@ =~= query_command(word_notif()));
    lemma_parse_set_command(word_favfood(), value);
    lemma_parse_set_command(word_nick(), value);
    lemma_parse_set_command(word_notif(), value);
    lemma_parse_query_command(word_favfood());
    lemma_parse_query_command(word_nick());
    lemma_parse_query_command(word_notif());
    assert(user_var_of(word_nick()) == UserVar::Nick);
    assert(user_var_of(word_notif()) == UserVar::Notif);
}

/// `HELLO` answers by identifying (opcode 2) with the bot's token, client
/// properties `macos` / `loft` / `loft` and no compression, after starting
/// the heartbeat timer with the interval given if it is not yet started; a
/// heartbeat, asked by the server or by the timer, sends opcode 1 with the
/// last sequence number.
pub proof fn law_gateway_payloads(s: BotView, interval: u64)
    ensures
        ({
            let ident = EffectView::Send(PayloadView {
                op: 2,
                d: PayloadDataView::Identify(IdentifyView {
                    token: s.token,
                    os: "macos"@,
                    browser: "loft"@,
                    device: "loft"@,
                    compress: false,
                }),
                s: None,
                t: None,
            });
            let beat = EffectView::Send(PayloadView { op: 1, d: PayloadDataView::Sequence(s.sequence), s: None, t: None });
            &&& step(s, EventView::Hello(interval)).1
                == if s.heartbeat_armed { seq![EffectView::StartHeartbeat(interval), ident] } else { seq![ident] }
            &&& step(s, EventView::Heartbeat) == (s, seq![beat])
            &&& step(s, EventView::SendHeartbeat) == (s, seq![beat])
        }),
{
}

/// Payloads other than dispatches are routed by opcode alone: 1 is a
/// heartbeat request, 10 a `HELLO` whose body must be read, 11 an
/// acknowledgement, and any other opcode an unknown event carrying it; a
/// dispatch without a name is the unknown event 0.
pub proof fn law_opcode_routing(op: i8, t: Option<Seq<char>>)
    ensures
        op == 1 ==> route_spec(op, t) == PayloadRouteView::Done(EventView::Heartbeat),
        op == 10 ==> route_spec(op, t) == PayloadRouteView::Decode(BodyKind::Hello),
        op == 11 ==> route_spec(op, t) == PayloadRouteView::Done(EventView::Ack),
        op != 0 && op != 1 && op != 10 && op != 11 ==> route_spec(op, t) == PayloadRouteView::Done(EventView::Unknown(op)),
        route_spec(0, None) == PayloadRouteView::Done(EventView::Unknown(0)),
{
}

/// The IRC welcome (reply 1) is answered by joining `##cosi` without a key;
/// notices are logged with their target and text; neither changes the state.
pub proof fn law_irc_welcome_and_notices(s: BotView, source: Option<EventSourceView>, who: Seq<char>, text: Seq<char>)
    ensures
        step(s, EventView::IRCEvent(IrcEventView { source, command: IrcCommandView::Reply(1) }))
            == (s, seq![EffectView::IrcSend(IrcCommandView::Join(seq!["##cosi"@], None))]),
        step(s, EventView::IRCEvent(IrcEventView {
            source,
            command: IrcCommandView::Notice(CommandTargetView::User(who), text),
        })) == (s, seq![EffectView::Log(LogLineView::IrcUserNotice(who, text))]),
        step(s, EventView::IRCEvent(IrcEventView {
            source,
            command: IrcCommandView::Notice(CommandTargetView::Channel(who), text),
        })) == (s, seq![EffectView::Log(LogLineView::IrcChannelNotice(who, text))]),
{
}

} // verus!
