//! The remote-API client: method URL building, JSON encoding of the two
//! request kinds this device issues, and the two-step decode of the
//! response envelope — first the typed success shape, then the error
//! envelope, and a serialization failure only when both refuse.
//!
//! JSON itself is handled by `serde_json` over the chat API's parameter
//! and envelope types from the `frankenstein` crate, behind trusted
//! wrappers; everything around those calls is verified.

use vstd::prelude::*;
use vstd::string::StringExecFns;
use crate::types::{ApiErrorInfo, Message, Update, UpdateContent};

verus! {

/// A failure of the client or of the transport beneath it.
pub enum EspBotError {
    /// Network-level failure or non-success HTTP status, with a bounded
    /// diagnostic snippet.
    Http(crate::transport::HttpError),
    /// A well-formed remote error envelope.
    Api(ApiErrorInfo),
    /// The response bytes decoded neither as the expected success shape
    /// nor as the error envelope; carries the original decode failure's
    /// description.
    Serde(String),
    /// The request class is permanently unsupported; no network call was
    /// attempted.
    Unsupported,
}

/// The client: holds the base URL, credential included, that every method
/// URL is built from.
pub struct Esp32Api {
    pub api_url: String,
}

/// The JSON body encoding a fetch-updates request with the given optional
/// limit, long-poll timeout and offset. Depends on the three values alone.
pub uninterp spec fn get_updates_body(limit: Option<u32>, timeout: Option<u32>, offset: Option<
    i64,
>) -> Seq<u8>;

/// The JSON body encoding a send-message request to the given chat with
/// the given text. Depends on the two values alone.
pub uninterp spec fn send_message_body(chat_id: i64, text: Seq<char>) -> Seq<u8>;

/// The decode of response bytes as the fetch-updates success envelope,
/// reduced to this crate's update model: `None` when the bytes do not
/// decode as that shape. Depends on the bytes alone.
pub uninterp spec fn updates_of_json(body: Seq<u8>) -> Option<Seq<Update>>;

/// The decode of response bytes as the send-message success envelope,
/// reduced to this crate's message model: `None` when the bytes do not
/// decode as that shape. Depends on the bytes alone.
pub uninterp spec fn message_of_json(body: Seq<u8>) -> Option<Message>;

/// The decode of response bytes as the remote error envelope: `None` when
/// the bytes do not decode as that shape. Depends on the bytes alone.
pub uninterp spec fn api_error_of_json(body: Seq<u8>) -> Option<ApiErrorInfo>;

/// Relies on serde_json::to_vec over frankenstein's GetUpdatesParams:
/// encoding is a function of the parameter values alone; absent fields are
/// omitted from the body.
#[verifier::external_body]
fn encode_get_updates(limit: Option<u32>, timeout: Option<u32>, offset: Option<i64>) -> (r: Vec<
    u8,
>)
    ensures
        r@ == get_updates_body(limit, timeout, offset),
{
    let params = frankenstein::methods::GetUpdatesParams::builder()
        .maybe_limit(limit)
        .maybe_timeout(timeout)
        .maybe_offset(offset)
        .build();
    serde_json::to_vec(&params).unwrap_or_default()
}

/// Relies on serde_json::to_vec over frankenstein's SendMessageParams:
/// encoding is a function of the parameter values alone; absent fields are
/// omitted from the body.
#[verifier::external_body]
fn encode_send_message(chat_id: i64, text: &str) -> (r: Vec<u8>)
    ensures
        r@ == send_message_body(chat_id, text@),
{
    let params = frankenstein::methods::SendMessageParams::builder()
        .chat_id(chat_id)
        .text(text)
        .build();
    serde_json::to_vec(&params).unwrap_or_default()
}

/// Relies on serde_json::from_slice for frankenstein's
/// MethodResponse<Vec<Update>>: decoding is a function of the bytes alone.
/// Each decoded update is reduced to this crate's model; the identifier
/// arrives as an unsigned 32-bit value, so its widened copy fits [0,
/// u32::MAX].
#[verifier::external_body]
fn try_decode_updates(body: &[u8]) -> (r: Result<Vec<Update>, String>)
    ensures
        r matches Ok(v) ==> updates_of_json(body@) == Some(v@) && (forall|i: int|
            0 <= i < v@.len() ==> 0 <= #[trigger] v@[i].update_id <= u32::MAX),
        r matches Err(_) ==> updates_of_json(body@) is None,
{
    match serde_json::from_slice::<frankenstein::response::MethodResponse<
        Vec<frankenstein::updates::Update>,
    >>(body) {
        Ok(resp) => Ok(resp.result.into_iter().map(|u| Update {
            update_id: i64::from(u.update_id),
            content: match u.content {
                frankenstein::updates::UpdateContent::Message(m) => UpdateContent::Message(
                    Message { message_id: m.message_id, chat_id: m.chat.id, text: m.text },
                ),
                _ => UpdateContent::Other,
            },
        }).collect()),
        Err(e) => Err(format!("{e}")),
    }
}

/// Relies on serde_json::from_slice for frankenstein's
/// MethodResponse<Message>: decoding is a function of the bytes alone. The
/// decoded message is reduced to this crate's model.
#[verifier::external_body]
fn try_decode_message(body: &[u8]) -> (r: Result<Message, String>)
    ensures
        r matches Ok(m) ==> message_of_json(body@) == Some(m),
        r matches Err(_) ==> message_of_json(body@) is None,
{
    match serde_json::from_slice::<frankenstein::response::MethodResponse<
        frankenstein::types::Message,
    >>(body) {
        Ok(resp) => Ok(Message {
            message_id: resp.result.message_id,
            chat_id: resp.result.chat.id,
            text: resp.result.text,
        }),
        Err(e) => Err(format!("{e}")),
    }
}

/// Relies on serde_json::from_slice for frankenstein's ErrorResponse:
/// decoding is a function of the bytes alone. The decoded envelope is
/// reduced to this crate's model.
#[verifier::external_body]
fn try_decode_api_error(body: &[u8]) -> (r: Option<ApiErrorInfo>)
    ensures
        r == api_error_of_json(body@),
{
    serde_json::from_slice::<frankenstein::response::ErrorResponse>(body).ok().map(
        |e| ApiErrorInfo { error_code: e.error_code, description: e.description },
    )
}

impl Esp32Api {
    /// Builds a client whose base URL is the fixed API host followed by
    /// the credential.
    pub fn new(api_key: &str) -> (r: Self)
        ensures
            r.api_url@ == "https://api.telegram.org/bot"@ + api_key@,
    {
        let mut api_url: String = "https://api.telegram.org/bot".to_owned();
        api_url.append(api_key);
        Esp32Api { api_url }
    }

    /// The URL of one API method: the base URL, a slash, the method name.
    pub fn method_url(&self, method: &str) -> (r: String)
        ensures
            r@ == self.api_url@ + "/"@ + method@,
    {
        let mut r = self.api_url.clone();
        r.append("/");
        r.append(method);
        r
    }

    /// Builds the URL and JSON body of one fetch-updates request.
    pub fn get_updates_request(&self, limit: Option<u32>, timeout: Option<u32>, offset: Option<
        i64,
    >) -> (r: (String, Vec<u8>))
        ensures
            r.0@ == self.api_url@ + "/"@ + "getUpdates"@,
            r.1@ == get_updates_body(limit, timeout, offset),
    {
        (self.method_url("getUpdates"), encode_get_updates(limit, timeout, offset))
    }

    /// Builds the URL and JSON body of one send-message request.
    pub fn send_message_request(&self, chat_id: i64, text: &str) -> (r: (String, Vec<u8>))
        ensures
            r.0@ == self.api_url@ + "/"@ + "sendMessage"@,
            r.1@ == send_message_body(chat_id, text@),
    {
        (self.method_url("sendMessage"), encode_send_message(chat_id, text))
    }

    /// Builds the URL and body of a request whose method takes no
    /// parameters: absent parameters send an empty body.
    pub fn request_without_params(&self, method: &str) -> (r: (String, Vec<u8>))
        ensures
            r.0@ == self.api_url@ + "/"@ + method@,
            r.1@ == Seq::<u8>::empty(),
    {
        (self.method_url(method), Vec::new())
    }

    /// Requests that would carry form or multipart data are a permanent
    /// capability limitation: they are refused here, before any network
    /// work, never attempted.
    pub fn request_with_form_data(&self, _method: &str) -> (r: Result<Vec<u8>, EspBotError>)
        ensures
            r matches Err(e) && e is Unsupported,
    {
        Err(EspBotError::Unsupported)
    }
}

/// Decodes a fetch-updates response by the two-step fallback: the typed
/// success shape first, then the error envelope, and only when both
/// refuse, a serialization failure carrying the original decode error —
/// the body is never silently dropped.
pub fn decode_updates(body: &Vec<u8>) -> (r: Result<Vec<Update>, EspBotError>)
    ensures
        updates_of_json(body@) matches Some(us) ==> (r matches Ok(v) && v@ == us && (forall|i: int|
            0 <= i < us.len() ==> 0 <= #[trigger] us[i].update_id <= u32::MAX)),
        updates_of_json(body@) is None ==> (api_error_of_json(body@) matches Some(info) ==> r
            == Err::<Vec<Update>, EspBotError>(EspBotError::Api(info))),
        updates_of_json(body@) is None && api_error_of_json(body@) is None ==> (r matches Err(e)
            && e is Serde),
{
    match try_decode_updates(body.as_slice()) {
        Ok(v) => Ok(v),
        Err(msg) => match try_decode_api_error(body.as_slice()) {
            Some(info) => Err(EspBotError::Api(info)),
            None => Err(EspBotError::Serde(msg)),
        },
    }
}

/// Decodes a send-message response by the same two-step fallback as
/// `decode_updates`.
pub fn decode_send_message(body: &Vec<u8>) -> (r: Result<Message, EspBotError>)
    ensures
        message_of_json(body@) matches Some(m) ==> r == Ok::<Message, EspBotError>(m),
        message_of_json(body@) is None ==> (api_error_of_json(body@) matches Some(info) ==> r
            == Err::<Message, EspBotError>(EspBotError::Api(info))),
        message_of_json(body@) is None && api_error_of_json(body@) is None ==> (r matches Err(e)
            && e is Serde),
{
    match try_decode_message(body.as_slice()) {
        Ok(m) => Ok(m),
        Err(msg) => match try_decode_api_error(body.as_slice()) {
            Some(info) => Err(EspBotError::Api(info)),
            None => Err(EspBotError::Serde(msg)),
        },
    }
}

} // verus!
