//! What the bot needs before it can talk to the Discord gateway: the
//! `Authorization` header built from its token, and the websocket client for
//! the gateway address.

use vstd::prelude::*;
use crate::bot::LoftBot;
use reqwest::header::{HeaderValue, InvalidHeaderValue};
use websocket::url::ParseError;
use websocket::ClientBuilder;

verus! {

#[verifier::external_type_specification]
#[verifier::external_body]
pub struct ExHeaderValue(HeaderValue);

#[verifier::external_type_specification]
#[verifier::external_body]
pub struct ExInvalidHeaderValue(InvalidHeaderValue);

#[verifier::external_type_specification]
#[verifier::external_body]
pub struct ExClientBuilder<'u>(ClientBuilder<'u>);

#[verifier::external_type_specification]
#[verifier::external_body]
pub struct ExParseError(ParseError);

/// Whether a byte may stand in an HTTP header value: a tab, or any byte
/// from 32 up other than 127 (DEL).
pub open spec fn header_byte_ok(b: u8) -> bool {
    (b >= 32 && b != 127) || b == 9
}

/// Whether every byte of `bytes` may stand in an HTTP header value.
pub open spec fn header_bytes_ok(bytes: Seq<u8>) -> bool {
    forall|i: int| 0 <= i < bytes.len() ==> header_byte_ok(#[trigger] bytes[i])
}

/// Whether `address` parses as a URL, by the `url` crate's parser that
/// `websocket::ClientBuilder::new` calls.
pub uninterp spec fn url_parses(address: Seq<char>) -> bool;

/// The bytes a `HeaderValue` holds.
pub uninterp spec fn header_value_bytes(value: HeaderValue) -> Seq<u8>;

/// The text of the URL that `url::Url::parse` makes of `address` (the parser
/// normalises what it reads).
pub uninterp spec fn parsed_url(address: Seq<char>) -> Seq<char>;

/// The text of the URL a websocket `ClientBuilder` connects to.
pub uninterp spec fn builder_url(builder: ClientBuilder<'static>) -> Seq<char>;

/// `HeaderValue::from_str` (the `http` crate's, re-exported by `reqwest`):
/// succeeds exactly when every byte of the UTF-8 encoding of `s` may stand
/// in a header value, and the value then holds exactly those bytes.
#[verifier::external_body]
fn header_value_from_str(s: &str) -> (res: Result<HeaderValue, InvalidHeaderValue>)
    ensures
        res is Ok <==> header_bytes_ok(vstd::utf8::encode_utf8(s@)),
        res matches Ok(v) ==> header_value_bytes(v) == vstd::utf8::encode_utf8(s@),
{
    HeaderValue::from_str(s)
}

/// `websocket::ClientBuilder::new`: succeeds exactly when `address` parses
/// as a URL (see [`url_parses`]), and the builder then connects to the URL
/// parsed from it. Its other settings (protocol version, headers, frame and
/// message size limits) are the crate's defaults and are not described here.
#[verifier::external_body]
fn client_builder_new(address: &str) -> (res: Result<ClientBuilder<'static>, ParseError>)
    ensures
        res is Ok <==> url_parses(address@),
        res matches Ok(b) ==> builder_url(b) == parsed_url(address@),
{
    ClientBuilder::new(address)
}

/// Why the gateway could not be prepared.
#[derive(Clone, Copy, Debug, PartialEq, Eq, Structural)]
pub enum GatewayError {
    /// The token holds a byte that cannot stand in an HTTP header.
    InvalidToken,
    /// The gateway address is not a URL.
    InvalidGatewayUrl,
}

/// The `Authorization` header value carrying the bot's token; refused when
/// the token holds a byte that cannot stand in an HTTP header.
pub fn authorization_header(token: &str) -> (res: Result<HeaderValue, GatewayError>)
    ensures
        res is Ok <==> header_bytes_ok(vstd::utf8::encode_utf8(token@)),
        res matches Ok(v) ==> header_value_bytes(v) == vstd::utf8::encode_utf8(token@),
        res is Err ==> res == Err::<HeaderValue, GatewayError>(GatewayError::InvalidToken),
{
    match header_value_from_str(token) {
        Ok(v) => Ok(v),
        Err(_) => Err(GatewayError::InvalidToken),
    }
}

/// The gateway's websocket address, built from the base URL that the gateway
/// endpoint returns, and a websocket client for it; refused when that
/// address does not parse as a URL.
pub fn gateway_client(base: &str) -> (res: Result<(String, ClientBuilder<'static>), GatewayError>)
    ensures
        match res {
            Ok((url, cb)) => {
                &&& url@ == base@ + "/?v=6&encoding=json"@
                &&& url_parses(url@)
                &&& builder_url(cb) == parsed_url(url@)
            },
            Err(e) => e == GatewayError::InvalidGatewayUrl && !url_parses(base@ + "/?v=6&encoding=json"@),
        },
{
    let url = LoftBot::gateway_url(base);
    match client_builder_new(url.as_str()) {
        Ok(cb) => Ok((url, cb)),
        Err(_) => Err(GatewayError::InvalidGatewayUrl),
    }
}

} // verus!
