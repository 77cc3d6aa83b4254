use loftbot::gateway::{authorization_header, gateway_client, GatewayError};

#[test]
fn plain_token_is_accepted() {
    let v = authorization_header("Bot abc.DEF-123").unwrap();
    assert_eq!(v.to_str().unwrap(), "Bot abc.DEF-123");
}

#[test]
fn tab_and_non_ascii_are_accepted() {
    assert!(authorization_header("a\tb").is_ok());
    assert!(authorization_header("tökén").is_ok());
}

#[test]
fn control_characters_are_refused() {
    assert_eq!(authorization_header("abc\n").err(), Some(GatewayError::InvalidToken));
    assert_eq!(authorization_header("a\u{7f}").err(), Some(GatewayError::InvalidToken));
    assert_eq!(authorization_header("\r").err(), Some(GatewayError::InvalidToken));
}

#[test]
fn gateway_url_is_built_and_parsed() {
    let (url, _) = gateway_client("wss://gateway.discord.gg").unwrap();
    assert_eq!(url, "wss://gateway.discord.gg/?v=6&encoding=json");
}

#[test]
fn relative_gateway_is_refused() {
    assert_eq!(gateway_client("gateway").err(), Some(GatewayError::InvalidGatewayUrl));
}

#[test]
fn header_value_holds_token_bytes() {
    let v = authorization_header("tökén").unwrap();
    assert_eq!(v.as_bytes(), "tökén".as_bytes());
}
