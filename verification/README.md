# loftbot

A Discord bot that answers chat commands (`!joke`, `!quit`, `$favfood`,
`$nick`, `$notif`), keeps a few settings per guild member, and relays the
messages of an IRC channel to a Discord channel.

- `src/` is the library, verified with Verus: command parsing (`command`),
  gateway payload routing (`event`), IRC events (`irc`), the bot's state and
  its reaction to each event as a state machine (`bot`), the token and
  gateway address checks (`gateway`), and properties that span events
  (`laws`).
- `app/` is the program: it owns the websocket, the REST client, the IRC
  connection and the heartbeat timer, reads events, hands them to
  `LoftBot::handle_event`, and carries out the effects it returns.
- `tests/` runs the library on concrete inputs.

Run the program with `key=value` arguments: `token`, `host`, `nick`, `user`
and optionally `guildid`.
