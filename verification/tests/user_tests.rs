use loftbot::user::{DiscordUser, User};

#[test]
fn from_discord_has_no_settings() {
    let d = DiscordUser { username: "ann".to_string(), discriminator: "1234".to_string(), id: "7".to_string() };
    let u = User::from_discord(d.clone());
    assert_eq!(u.discord_user, d);
    assert_eq!(u.irc_name, None);
    assert_eq!(u.notif_location, None);
    assert_eq!(u.favorite_food, None);
}
