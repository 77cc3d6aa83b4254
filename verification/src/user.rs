//! Discord users as the gateway reports them, and the per-user settings the
//! bot keeps.

use vstd::prelude::*;

verus! {

/// A Discord account: its name, discriminator and snowflake id.
#[derive(Clone, Debug, PartialEq, Eq)]
pub struct DiscordUser {
    pub username: String,
    pub discriminator: String,
    pub id: String,
}

/// The characters of each field of a [`DiscordUser`].
pub struct DiscordUserView {
    pub username: Seq<char>,
    pub discriminator: Seq<char>,
    pub id: Seq<char>,
}

impl View for DiscordUser {
    type V = DiscordUserView;

    open spec fn view(&self) -> DiscordUserView {
        DiscordUserView {
            username: self.username@,
            discriminator: self.discriminator@,
            id: self.id@,
        }
    }
}

/// A member of a guild.
#[derive(Clone, Debug, PartialEq, Eq)]
pub struct Member {
    pub user: DiscordUser,
}

impl View for Member {
    type V = DiscordUserView;

    open spec fn view(&self) -> DiscordUserView {
        self.user@
    }
}

/// Where a user wants to be notified.
#[derive(Clone, Copy, Debug, PartialEq, Eq, Structural)]
pub enum NotifLocation {
    Discord,
    IRC,
}

/// The per-user setting that a `$` command reads or writes.
#[derive(Clone, Copy, Debug, PartialEq, Eq, Structural)]
pub enum UserVar {
    Notif,
    Nick,
    FavFood,
    /// A first word that names no setting.
    Unknown,
}

/// A guild member together with the settings the bot keeps for it.
#[derive(Clone, Debug, PartialEq, Eq)]
pub struct User {
    pub discord_user: DiscordUser,
    pub irc_name: Option<String>,
    pub notif_location: Option<NotifLocation>,
    pub favorite_food: Option<String>,
}

/// The characters of an optional string.
pub open spec fn opt_chars(o: Option<String>) -> Option<Seq<char>> {
    match o {
        Some(s) => Some(s@),
        None => None,
    }
}

/// A [`User`] with every string read as its characters.
pub struct UserView {
    pub discord_user: DiscordUserView,
    pub irc_name: Option<Seq<char>>,
    pub notif_location: Option<NotifLocation>,
    pub favorite_food: Option<Seq<char>>,
}

impl View for User {
    type V = UserView;

    open spec fn view(&self) -> UserView {
        UserView {
            discord_user: self.discord_user@,
            irc_name: opt_chars(self.irc_name),
            notif_location: self.notif_location,
            favorite_food: opt_chars(self.favorite_food),
        }
    }
}

/// The settings of a user the bot has just learned of: none set.
pub open spec fn fresh_user(user: DiscordUserView) -> UserView {
    UserView { discord_user: user, irc_name: None, notif_location: None, favorite_food: None }
}

impl User {
    /// A user with no IRC name, no notification preference and no favorite food.
    pub fn from_discord(user: DiscordUser) -> (res: User)
        ensures
            res@ == fresh_user(user@),
    {
        User { discord_user: user, irc_name: None, notif_location: None, favorite_food: None }
    }
}

} // verus!
