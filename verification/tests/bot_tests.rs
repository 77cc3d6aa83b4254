use loftbot::bot::{Effect, LogLine, LoftBot};
use loftbot::event::{
    Channel, Event, Guild, HelloMsg, Identify, Message, OutgoingMessage, Payload, PayloadData, ReadyMsg,
};
use loftbot::irc::{CommandTarget, EventSource, IrcCommand, IrcEvent};
use loftbot::user::{DiscordUser, Member, NotifLocation, UserVar};

fn user(id: &str) -> DiscordUser {
    DiscordUser { username: format!("user{}", id), discriminator: "0001".to_string(), id: id.to_string() }
}

fn message(content: &str, channel: &str, author: &str) -> Event {
    Event::EventMessage(Message {
        content: content.to_string(),
        channel_id: channel.to_string(),
        author: user(author),
    })
}

fn guild(ids: &[&str]) -> Event {
    Event::EventGuildCreate(Guild {
        members: ids.iter().map(|id| Member { user: user(id) }).collect(),
        channels: vec![Channel { name: "general".to_string(), id: "c1".to_string(), ty: 0 }],
    })
}

fn reply(text: &str, channel: &str) -> Vec<Effect> {
    vec![Effect::CreateMessage(OutgoingMessage { content: text.to_string() }, channel.to_string())]
}

fn new_bot() -> LoftBot {
    LoftBot::new("tok".to_string(), "g1".to_string(), "wss://gw".to_string())
}

fn run(bot: &mut LoftBot, e: Event) -> Vec<Effect> {
    assert!(!bot.would_panic(&e));
    bot.handle_event(e)
}

#[test]
fn initial_state() {
    let bot = new_bot();
    assert!(!bot.is_quit());
    assert_eq!(bot.id(), "0");
    assert_eq!(bot.guild_id(), "g1");
    assert_eq!(bot.token(), "tok");
    assert_eq!(bot.gateway(), "wss://gw");
    assert!(bot.users().is_empty());
    assert!(bot.channels().is_empty());
}

#[test]
fn hello_starts_heartbeat_once_and_identifies() {
    let mut bot = new_bot();
    let ident = Effect::Send(Payload {
        op: 2,
        d: PayloadData::Identify(Identify {
            token: "tok".to_string(),
            os: "macos".to_string(),
            browser: "loft".to_string(),
            device: "loft".to_string(),
            compress: false,
        }),
        s: None,
        t: None,
    });
    let first = run(&mut bot, Event::Hello(HelloMsg { heartbeat_interval: 41250 }));
    assert_eq!(first, vec![Effect::StartHeartbeat(41250), ident.clone()]);
    let second = run(&mut bot, Event::Hello(HelloMsg { heartbeat_interval: 5 }));
    assert_eq!(second, vec![ident]);
}

#[test]
fn heartbeat_sends_sequence() {
    let mut bot = new_bot();
    let hb = vec![Effect::Send(Payload { op: 1, d: PayloadData::Sequence(None), s: None, t: None })];
    assert_eq!(run(&mut bot, Event::SendHeartbeat_), hb);
    assert_eq!(run(&mut bot, Event::Heartbeat), hb);
    assert_eq!(run(&mut bot, Event::Ack), vec![]);
}

#[test]
fn ready_sets_id_and_own_messages_are_ignored() {
    let mut bot = new_bot();
    run(&mut bot, Event::EventReady(ReadyMsg { session_id: "s".to_string(), user: user("99") }));
    assert_eq!(bot.id(), "99");
    assert_eq!(run(&mut bot, message("!quit", "c1", "99")), vec![]);
    assert!(!bot.is_quit());
}

#[test]
fn quit_command_stops_bot() {
    let mut bot = new_bot();
    assert_eq!(run(&mut bot, message("!quit", "c1", "5")), vec![Effect::Log(LogLine::Quitting)]);
    assert!(bot.is_quit());
}

#[test]
fn stream_end_stops_bot() {
    let mut bot = new_bot();
    bot.on_stream_end();
    assert!(bot.is_quit());
}

#[test]
fn joke_command_asks_for_joke_in_channel() {
    let mut bot = new_bot();
    assert_eq!(run(&mut bot, message("!joke", "c7", "5")), vec![Effect::TellJoke("c7".to_string())]);
}

#[test]
fn guild_create_indexes_members() {
    let mut bot = new_bot();
    assert_eq!(run(&mut bot, guild(&["a", "b", "c"])), vec![Effect::Log(LogLine::Ready)]);
    assert_eq!(bot.users().len(), 3);
    assert_eq!(bot.user_index("b"), Some(1));
    assert_eq!(bot.user_index("z"), None);
    assert_eq!(bot.channels().len(), 1);
    assert_eq!(bot.users()[2].irc_name, None);
}

#[test]
fn duplicate_member_id_maps_to_last() {
    let mut bot = new_bot();
    run(&mut bot, guild(&["a", "b", "a"]));
    assert_eq!(bot.user_index("a"), Some(2));
}

#[test]
fn favfood_set_then_query() {
    let mut bot = new_bot();
    run(&mut bot, guild(&["a", "b"]));
    assert_eq!(run(&mut bot, message("$favfood", "c1", "b")), reply("You have no favorite food", "c1"));
    assert_eq!(run(&mut bot, message("$favfood set pizza", "c1", "b")), vec![]);
    assert_eq!(run(&mut bot, message("$favfood", "c2", "b")), reply("Your favorite food is pizza", "c2"));
    assert_eq!(bot.users()[0].favorite_food, None);
}

#[test]
fn nick_set_then_query() {
    let mut bot = new_bot();
    run(&mut bot, guild(&["a"]));
    assert_eq!(run(&mut bot, message("$nick", "c1", "a")), reply("You have no IRC name", "c1"));
    run(&mut bot, message("$nick set alice", "c1", "a"));
    assert_eq!(run(&mut bot, message("$nick", "c1", "a")), reply("Your IRC name is alice", "c1"));
}

#[test]
fn notif_set_then_query() {
    let mut bot = new_bot();
    run(&mut bot, guild(&["a"]));
    assert_eq!(
        run(&mut bot, message("$notif", "c1", "a")),
        reply("No notification preference set. Your notifications will be sent to discord.", "c1")
    );
    run(&mut bot, message("$notif set irc", "c1", "a"));
    assert_eq!(run(&mut bot, message("$notif", "c1", "a")), reply("Notifying on IRC", "c1"));
    run(&mut bot, message("$notif set discord", "c1", "a"));
    assert_eq!(bot.users()[0].notif_location, Some(NotifLocation::Discord));
    assert_eq!(run(&mut bot, message("$notif", "c1", "a")), reply("Notifying on Discord", "c1"));
    run(&mut bot, message("$notif set email", "c1", "a"));
    assert_eq!(bot.users()[0].notif_location, Some(NotifLocation::Discord));
}

#[test]
fn set_without_value_and_other_commands_do_nothing() {
    let mut bot = new_bot();
    run(&mut bot, guild(&["a"]));
    assert_eq!(run(&mut bot, message("$favfood set", "c1", "a")), vec![]);
    assert_eq!(run(&mut bot, message("$favfood get pizza", "c1", "a")), vec![]);
    assert_eq!(bot.users()[0].favorite_food, None);
    assert_eq!(run(&mut bot, message("$bogus", "c1", "a")), vec![]);
}

#[test]
fn unknown_author_is_ignored() {
    let mut bot = new_bot();
    run(&mut bot, guild(&["a"]));
    assert_eq!(run(&mut bot, message("$favfood", "c1", "stranger")), vec![]);
}

#[test]
fn stale_index_would_panic() {
    let mut bot = new_bot();
    run(&mut bot, guild(&["a", "b"]));
    run(&mut bot, guild(&["c"]));
    assert_eq!(bot.user_index("b"), Some(1));
    assert!(bot.would_panic(&message("$favfood", "c1", "b")));
    assert!(!bot.would_panic(&message("$favfood get", "c1", "b")));
    assert!(!bot.would_panic(&message("$favfood", "c1", "c")));
}

#[test]
fn channel_create_appends() {
    let mut bot = new_bot();
    run(&mut bot, guild(&[]));
    let c = Channel { name: "new".to_string(), id: "c9".to_string(), ty: 2 };
    assert_eq!(run(&mut bot, Event::EventChannelCreate(c.clone())), vec![]);
    assert_eq!(bot.channels().len(), 2);
    assert_eq!(bot.channels()[1], c);
}

#[test]
fn unknown_events_are_logged() {
    let mut bot = new_bot();
    assert_eq!(
        run(&mut bot, Event::UnknownEvent("TYPING_START".to_string())),
        vec![Effect::Log(LogLine::UnhandledEvent("TYPING_START".to_string()))]
    );
    assert_eq!(run(&mut bot, Event::Unknown(7)), vec![Effect::Log(LogLine::OtherEvent(7))]);
}

fn irc(source: Option<EventSource>, command: IrcCommand) -> Event {
    Event::IRCEvent(IrcEvent { source, command })
}

#[test]
fn irc_welcome_joins_channel() {
    let mut bot = new_bot();
    assert_eq!(
        run(&mut bot, irc(None, IrcCommand::Reply(1))),
        vec![Effect::IrcSend(IrcCommand::Join(vec!["##cosi".to_string()], None))]
    );
    assert_eq!(run(&mut bot, irc(None, IrcCommand::Reply(2))), vec![Effect::Log(LogLine::UnknownIrcEvent)]);
}

#[test]
fn irc_ping_is_answered() {
    let mut bot = new_bot();
    assert_eq!(
        run(&mut bot, irc(None, IrcCommand::Ping("srv".to_string(), Some("x".to_string())))),
        vec![Effect::IrcSend(IrcCommand::Pong("srv".to_string(), Some("x".to_string())))]
    );
}

#[test]
fn irc_notices_are_logged() {
    let mut bot = new_bot();
    assert_eq!(
        run(&mut bot, irc(None, IrcCommand::Notice(CommandTarget::User("u".to_string()), "hi".to_string()))),
        vec![Effect::Log(LogLine::IrcUserNotice("u".to_string(), "hi".to_string()))]
    );
    assert_eq!(
        run(&mut bot, irc(None, IrcCommand::Notice(CommandTarget::Channel("#c".to_string()), "yo".to_string()))),
        vec![Effect::Log(LogLine::IrcChannelNotice("#c".to_string(), "yo".to_string()))]
    );
}

#[test]
fn irc_channel_message_is_relayed() {
    let mut bot = new_bot();
    let e = irc(
        Some(EventSource::User("bob".to_string())),
        IrcCommand::PrivMsg(CommandTarget::Channel("##cosi".to_string()), "hello".to_string()),
    );
    assert_eq!(run(&mut bot, e), reply("<bob>: hello", "533354016818593850"));
}

#[test]
fn irc_own_and_private_messages_are_not_relayed() {
    let mut bot = new_bot();
    let own = irc(
        Some(EventSource::User("LoftBot".to_string())),
        IrcCommand::PrivMsg(CommandTarget::Channel("##cosi".to_string()), "hello".to_string()),
    );
    assert_eq!(run(&mut bot, own), vec![]);
    let server = irc(
        Some(EventSource::Other),
        IrcCommand::PrivMsg(CommandTarget::Channel("##cosi".to_string()), "hello".to_string()),
    );
    assert_eq!(run(&mut bot, server), vec![]);
    let private = irc(
        Some(EventSource::User("bob".to_string())),
        IrcCommand::PrivMsg(CommandTarget::User("LoftBot".to_string()), "hi".to_string()),
    );
    assert_eq!(run(&mut bot, private), vec![Effect::Log(LogLine::UnknownIrcEvent)]);
}

#[test]
fn urls() {
    let bot = new_bot();
    assert_eq!(bot.channels_url(), "https://discordapp.com/api/v6/guilds/g1/channels");
    assert_eq!(bot.members_url(), "https://discordapp.com/api/v6/guilds/g1/members");
    assert_eq!(LoftBot::messages_url("c5"), "https://discordapp.com/api/v6/channels/c5/messages");
    assert_eq!(LoftBot::gateway_url("wss://gateway.discord.gg"), "wss://gateway.discord.gg/?v=6&encoding=json");
}

#[test]
fn text_channels_keeps_type_zero_in_order() {
    let ch = |id: &str, ty: i8| Channel { name: id.to_string(), id: id.to_string(), ty };
    let kept = LoftBot::text_channels(vec![ch("a", 0), ch("b", 2), ch("c", 0), ch("d", 4)]);
    assert_eq!(kept, vec![ch("a", 0), ch("c", 0)]);
    assert_eq!(LoftBot::text_channels(vec![]), vec![]);
}

#[test]
fn member_users_in_order() {
    let users = LoftBot::member_users(vec![Member { user: user("1") }, Member { user: user("2") }]);
    assert_eq!(users, vec![user("1"), user("2")]);
}

#[test]
fn change_var_read_after_write_with_spaces() {
    let mut bot = new_bot();
    run(&mut bot, guild(&["a"]));
    let set = bot.change_var(UserVar::FavFood, Some("set".to_string()), Some("ice cream".to_string()), 0, "c1".to_string());
    assert_eq!(set, vec![]);
    let read = bot.change_var(UserVar::FavFood, None, Some("x".to_string()), 0, "c2".to_string());
    assert_eq!(read, reply("Your favorite food is ice cream", "c2"));
}
