use loftbot::command::{first_joke, parse_message, Action};
use loftbot::user::UserVar;

fn change(var: UserVar, cmd: Option<&str>, val: Option<&str>) -> Action {
    Action::ChangeVariable(var, cmd.map(|s| s.to_string()), val.map(|s| s.to_string()))
}

#[test]
fn quit_command() {
    assert_eq!(parse_message("!quit".to_string()), Action::Quit);
}

#[test]
fn joke_command() {
    assert_eq!(parse_message("!joke".to_string()), Action::TellJoke);
}

#[test]
fn unknown_bang_command_is_ignored() {
    assert_eq!(parse_message("!jokes".to_string()), Action::Ignore);
    assert_eq!(parse_message("!quit ".to_string()), Action::Ignore);
    assert_eq!(parse_message("!".to_string()), Action::Ignore);
}

#[test]
fn plain_and_empty_messages_are_ignored() {
    assert_eq!(parse_message(String::new()), Action::Ignore);
    assert_eq!(parse_message("hello there".to_string()), Action::Ignore);
    assert_eq!(parse_message(" !quit".to_string()), Action::Ignore);
}

#[test]
fn favfood_set() {
    assert_eq!(
        parse_message("$favfood set pizza".to_string()),
        change(UserVar::FavFood, Some("set"), Some("pizza"))
    );
}

#[test]
fn nick_query() {
    assert_eq!(parse_message("$nick".to_string()), change(UserVar::Nick, None, None));
}

#[test]
fn notif_extra_words_are_dropped() {
    assert_eq!(
        parse_message("$notif set irc please".to_string()),
        change(UserVar::Notif, Some("set"), Some("irc"))
    );
}

#[test]
fn unknown_variable() {
    assert_eq!(parse_message("$color red".to_string()), change(UserVar::Unknown, Some("red"), None));
    assert_eq!(parse_message("$".to_string()), change(UserVar::Unknown, None, None));
}

#[test]
fn double_space_gives_empty_word() {
    assert_eq!(
        parse_message("$favfood  set".to_string()),
        change(UserVar::FavFood, Some(""), Some("set"))
    );
    assert_eq!(parse_message("$nick ".to_string()), change(UserVar::Nick, Some(""), None));
}

#[test]
fn non_ascii_value() {
    assert_eq!(
        parse_message("$favfood set crème".to_string()),
        change(UserVar::FavFood, Some("set"), Some("crème"))
    );
}

#[test]
fn joke_is_first_line() {
    assert_eq!(first_joke("first\nsecond\n"), "first");
    assert_eq!(first_joke("only"), "only");
}

#[test]
fn joke_escaped_newline_splits() {
    assert_eq!(first_joke("why?\\nbecause"), "why?");
    assert_eq!(first_joke("a\\\\nb"), "a\\");
}

#[test]
fn joke_crlf_is_trimmed() {
    assert_eq!(first_joke("one\r\ntwo"), "one");
    assert_eq!(first_joke("one\r"), "one\r");
}

#[test]
fn joke_empty_first_line() {
    assert_eq!(first_joke("\nsecond"), "");
    assert_eq!(first_joke("\\n"), "");
}
