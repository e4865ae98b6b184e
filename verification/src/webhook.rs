//! The webhook fallback: what to answer to the platform's HTTP requests, and
//! which message, if any, a request carries.
//!
//! The functions here decide; the HTTP server around them reads requests,
//! turns envelope text into values and sends the replies.

use vstd::prelude::*;
use vstd::string::StrSliceExecFns;
use vstd::utf8::{decode_utf8, valid_utf8};
use crate::codec::{decode_message_content, decoded};
use crate::crypto::{
    aes256_cbc_decrypt, aes256_cbc_plaintext, base64_decode, base64_decoded, optional_bytes,
    string_from_utf8,
};
use crate::json::{compact, json_compact_text, json_member_text, json_quoted, quote, string_member};
use crate::model::{
    optional_message, ChannelMessage, FeishuEventEnvelope, FeishuMention, FeishuMessageEvent,
    MessageView,
};
use crate::config::FeishuConfig;
use crate::text::{copy_optional_text, join3, optional_text, str_eq, texts};

verus! {

/// The event type that announces a received message.
pub open spec fn message_event_type() -> Seq<char> {
    "im.message.receive_v1"@
}

/// How many characters of the configured key are read as the key's
/// encoding.
pub const KEY_ENCODING_LEN: usize = 43;

/// The length that the decoded key must have, in bytes.
pub const KEY_LEN: usize = 32;

/// The length of the initialization vector that leads every payload.
pub const IV_LEN: usize = 16;

/// Why a payload could not be decrypted.
#[derive(Debug, Clone, Copy, PartialEq, Eq, Structural)]
pub enum DecryptError {
    /// The configured key is not base64.
    InvalidKeyEncoding,
    /// The configured key does not decode to 32 bytes.
    InvalidKeyLength,
    /// The payload is not base64.
    InvalidPayloadEncoding,
    /// The payload is too short to hold an initialization vector.
    PayloadTooShort,
    /// The ciphertext has a bad length or padding.
    DecryptFailed,
    /// The plaintext is not UTF-8.
    NotUtf8,
}

impl DecryptError {
    /// The error as text.
    pub open spec fn text(self) -> Seq<char> {
        match self {
            DecryptError::InvalidKeyEncoding => "invalid encrypt_key base64"@,
            DecryptError::InvalidKeyLength => "encrypt_key must decode to 32 bytes"@,
            DecryptError::InvalidPayloadEncoding => "invalid encrypted payload base64"@,
            DecryptError::PayloadTooShort => "encrypted payload too short"@,
            DecryptError::DecryptFailed => "decrypt failed"@,
            DecryptError::NotUtf8 => "decrypted content not utf8"@,
        }
    }

    /// The error as text.
    pub fn message(&self) -> (text: String)
        ensures
            text@ == self.text(),
    {
        match self {
            DecryptError::InvalidKeyEncoding => "invalid encrypt_key base64".to_string(),
            DecryptError::InvalidKeyLength => "encrypt_key must decode to 32 bytes".to_string(),
            DecryptError::InvalidPayloadEncoding => "invalid encrypted payload base64".to_string(),
            DecryptError::PayloadTooShort => "encrypted payload too short".to_string(),
            DecryptError::DecryptFailed => "decrypt failed".to_string(),
            DecryptError::NotUtf8 => "decrypted content not utf8".to_string(),
        }
    }
}

/// The part of the configured key that is read as its encoding: the first
/// 43 characters, or all of it where it is shorter.
pub open spec fn key_encoding(encrypt_key: Seq<char>) -> Seq<char> {
    if encrypt_key.len() <= KEY_ENCODING_LEN {
        encrypt_key
    } else {
        encrypt_key.subrange(0, KEY_ENCODING_LEN as int)
    }
}

/// The key, given what the key's encoding decodes to.
pub open spec fn checked_key(decoded: Option<Seq<u8>>) -> Result<Seq<u8>, DecryptError> {
    match decoded {
        None => Err(DecryptError::InvalidKeyEncoding),
        Some(key) => if key.len() == KEY_LEN {
            Ok(key)
        } else {
            Err(DecryptError::InvalidKeyLength)
        },
    }
}

/// The initialization vector and the ciphertext, given what the payload
/// decodes to: the first 16 bytes, and the rest.
pub open spec fn payload_parts(decoded: Option<Seq<u8>>) -> Result<(Seq<u8>, Seq<u8>), DecryptError> {
    match decoded {
        None => Err(DecryptError::InvalidPayloadEncoding),
        Some(raw) => if raw.len() < IV_LEN {
            Err(DecryptError::PayloadTooShort)
        } else {
            Ok((raw.subrange(0, IV_LEN as int), raw.subrange(IV_LEN as int, raw.len() as int)))
        },
    }
}

/// The text, given what decryption produced.
pub open spec fn plaintext_text(plain: Option<Seq<u8>>) -> Result<Seq<char>, DecryptError> {
    match plain {
        None => Err(DecryptError::DecryptFailed),
        Some(bytes) => if valid_utf8(bytes) {
            Ok(decode_utf8(bytes))
        } else {
            Err(DecryptError::NotUtf8)
        },
    }
}

/// The text that `encrypted` holds under a key of 32 bytes.
pub open spec fn decrypted_with(encrypted: Seq<char>, key: Seq<u8>) -> Result<Seq<char>, DecryptError> {
    match payload_parts(base64_decoded(encrypted)) {
        Err(e) => Err(e),
        Ok(parts) => plaintext_text(aes256_cbc_plaintext(key, parts.0, parts.1)),
    }
}

/// The text that `encrypted` holds under the configured key.
pub open spec fn decrypted(encrypted: Seq<char>, encrypt_key: Seq<char>) -> Result<
    Seq<char>,
    DecryptError,
> {
    match checked_key(base64_decoded(key_encoding(encrypt_key))) {
        Err(e) => Err(e),
        Ok(key) => decrypted_with(encrypted, key),
    }
}

/// A decryption result as plain values.
pub open spec fn text_result(result: Result<String, DecryptError>) -> Result<Seq<char>, DecryptError> {
    match result {
        Ok(text) => Ok(text@),
        Err(e) => Err(e),
    }
}

/// Accepts a decoded key if it has the right length.
pub fn check_key(decoded: Option<Vec<u8>>) -> (key: Result<Vec<u8>, DecryptError>)
    ensures
        match key {
            Ok(k) => checked_key(optional_bytes(decoded)) == Ok::<Seq<u8>, DecryptError>(k@),
            Err(e) => checked_key(optional_bytes(decoded)) == Err::<Seq<u8>, DecryptError>(e),
        },
{
    match decoded {
        None => Err(DecryptError::InvalidKeyEncoding),
        Some(key) => {
            if key.len() == KEY_LEN {
                Ok(key)
            } else {
                Err(DecryptError::InvalidKeyLength)
            }
        },
    }
}

/// Reads the text out of what decryption produced.
pub fn read_plaintext(plain: Option<Vec<u8>>) -> (text: Result<String, DecryptError>)
    ensures
        text_result(text) == plaintext_text(optional_bytes(plain)),
{
    match plain {
        None => Err(DecryptError::DecryptFailed),
        Some(bytes) => match string_from_utf8(bytes) {
            Some(text) => Ok(text),
            None => Err(DecryptError::NotUtf8),
        },
    }
}

/// Decrypts a payload under a key that is already decoded. The payload is
/// base64 of an initialization vector of 16 bytes followed by the
/// ciphertext.
pub fn decrypt_with_key(encrypted: &str, key: &Vec<u8>) -> (text: Result<String, DecryptError>)
    requires
        key@.len() == KEY_LEN,
    ensures
        text_result(text) == decrypted_with(encrypted@, key@),
{
    match base64_decode(encrypted) {
        None => Err(DecryptError::InvalidPayloadEncoding),
        Some(raw) => {
            if raw.len() < IV_LEN {
                Err(DecryptError::PayloadTooShort)
            } else {
                let (iv, ciphertext) = raw.as_slice().split_at(IV_LEN);
                read_plaintext(aes256_cbc_decrypt(key.as_slice(), iv, ciphertext))
            }
        },
    }
}

/// Decrypts a webhook payload with the configured key.
pub fn decrypt_webhook_payload(encrypted: &str, encrypt_key: &str) -> (text: Result<
    String,
    DecryptError,
>)
    ensures
        text_result(text) == decrypted(encrypted@, encrypt_key@),
{
    let available = encrypt_key.unicode_len();
    let encoding = if available <= KEY_ENCODING_LEN {
        encrypt_key
    } else {
        encrypt_key.substring_char(0, KEY_ENCODING_LEN)
    };
    match check_key(base64_decode(encoding)) {
        Err(e) => Err(e),
        Ok(key) => decrypt_with_key(encrypted, &key),
    }
}

/// An HTTP reply: the status code and the JSON body.
#[derive(Debug)]
pub struct WebhookReply {
    pub status: u16,
    pub body: String,
}

/// A `WebhookReply` as plain values.
pub struct ReplyView {
    pub status: u16,
    pub body: Seq<char>,
}

impl View for WebhookReply {
    type V = ReplyView;

    open spec fn view(&self) -> ReplyView {
        ReplyView { status: self.status, body: self.body@ }
    }
}

/// The reply that hands a challenge back.
pub open spec fn challenge_reply(challenge: Seq<char>) -> ReplyView {
    ReplyView { status: 200, body: "{\"challenge\":"@ + json_quoted(challenge) + "}"@ }
}

/// The reply that refuses a request for the given reason.
pub open spec fn refusal(body: Seq<char>) -> ReplyView {
    ReplyView { status: 400, body }
}

/// The reply that acknowledges an event.
pub open spec fn acknowledgement() -> ReplyView {
    ReplyView { status: 200, body: "{}"@ }
}

fn reply_challenge(challenge: &str) -> (reply: WebhookReply)
    ensures
        reply@ == challenge_reply(challenge@),
{
    let literal = quote(challenge);
    WebhookReply { status: 200, body: join3("{\"challenge\":", literal.as_str(), "}") }
}

fn refuse(body: &str) -> (reply: WebhookReply)
    ensures
        reply@ == refusal(body@),
{
    WebhookReply { status: 400, body: body.to_string() }
}

fn acknowledge() -> (reply: WebhookReply)
    ensures
        reply@ == acknowledgement(),
{
    WebhookReply { status: 200, body: "{}".to_string() }
}

/// Query of a URL verification request.
#[derive(Debug)]
pub struct UrlVerificationRequest {
    pub challenge: Option<String>,
    pub encrypt: Option<String>,
}

/// Body of an event request whose content is encrypted.
#[derive(Debug)]
pub struct WebhookEventRequest {
    pub encrypt: Option<String>,
}

/// The challenge that a verification request carries: the one given in the
/// clear, else the one that decrypts from `encrypt` under the key.
pub open spec fn challenge_of(
    challenge: Option<Seq<char>>,
    encrypt: Option<Seq<char>>,
    encrypt_key: Option<Seq<char>>,
) -> Option<Seq<char>> {
    match challenge {
        Some(c) => Some(c),
        None => match (encrypt, encrypt_key) {
            (Some(payload), Some(key)) => match decrypted(payload, key) {
                Ok(c) => Some(c),
                Err(_) => None,
            },
            _ => None,
        },
    }
}

/// The reply to a URL verification request.
pub open spec fn verification_reply(
    challenge: Option<Seq<char>>,
    encrypt: Option<Seq<char>>,
    encrypt_key: Option<Seq<char>>,
) -> ReplyView {
    match challenge_of(challenge, encrypt, encrypt_key) {
        Some(c) => challenge_reply(c),
        None => refusal("{\"error\":\"missing challenge or decrypt failed\"}"@),
    }
}

/// What an event request's body leads to: a reply at once, or the text of an
/// envelope that is yet to be read.
#[derive(Debug)]
pub enum BodyRoute {
    Reply(WebhookReply),
    Envelope(String),
}

/// A `BodyRoute` as plain values.
pub enum BodyRouteView {
    Reply(ReplyView),
    Envelope(Seq<char>),
}

impl View for BodyRoute {
    type V = BodyRouteView;

    open spec fn view(&self) -> BodyRouteView {
        match self {
            BodyRoute::Reply(reply) => BodyRouteView::Reply(reply@),
            BodyRoute::Envelope(text) => BodyRouteView::Envelope(text@),
        }
    }
}

/// Where the body of an event request leads, given the body's compact JSON
/// text and the strings it holds under `encrypt` and `challenge`.
///
/// A body that is not JSON is refused. An encrypted body is decrypted into
/// the envelope text, and refused where no key is configured or decryption
/// fails. A body in the clear that carries a challenge is answered with it;
/// any other body in the clear is itself the envelope.
pub open spec fn body_route(
    compact_text: Option<Seq<char>>,
    encrypt: Option<Seq<char>>,
    challenge: Option<Seq<char>>,
    encrypt_key: Option<Seq<char>>,
) -> BodyRouteView {
    match compact_text {
        None => BodyRouteView::Reply(refusal("{\"error\":\"invalid json\"}"@)),
        Some(text) => match encrypt {
            Some(payload) => match encrypt_key {
                Some(key) => match decrypted(payload, key) {
                    Ok(plain) => BodyRouteView::Envelope(plain),
                    Err(_) => BodyRouteView::Reply(refusal("{\"error\":\"decrypt failed\"}"@)),
                },
                None => BodyRouteView::Reply(refusal("{\"error\":\"encrypt_key required\"}"@)),
            },
            None => match challenge {
                Some(c) => BodyRouteView::Reply(challenge_reply(c)),
                None => BodyRouteView::Envelope(text),
            },
        },
    }
}

/// What an envelope leads to: a reply at once, or the JSON text of a message
/// event that is yet to be read.
#[derive(Debug)]
pub enum EnvelopeRoute {
    Reply(WebhookReply),
    MessageEvent(String),
}

/// An `EnvelopeRoute` as plain values.
pub enum EnvelopeRouteView {
    Reply(ReplyView),
    MessageEvent(Seq<char>),
}

impl View for EnvelopeRoute {
    type V = EnvelopeRouteView;

    open spec fn view(&self) -> EnvelopeRouteView {
        match self {
            EnvelopeRoute::Reply(reply) => EnvelopeRouteView::Reply(reply@),
            EnvelopeRoute::MessageEvent(text) => EnvelopeRouteView::MessageEvent(text@),
        }
    }
}

/// Where an envelope leads: text that is no envelope is refused, a message
/// event is read on, and every other event is acknowledged and ignored.
pub open spec fn envelope_route(envelope: Option<FeishuEventEnvelope>) -> EnvelopeRouteView {
    match envelope {
        None => EnvelopeRouteView::Reply(refusal("{\"error\":\"invalid envelope\"}"@)),
        Some(e) => if e.header.event_type@ == message_event_type() {
            EnvelopeRouteView::MessageEvent(e.event@)
        } else {
            EnvelopeRouteView::Reply(acknowledgement())
        },
    }
}

/// Decides where an envelope leads. `None` stands for text that could not
/// be read as an envelope.
pub fn route_envelope(envelope: Option<FeishuEventEnvelope>) -> (route: EnvelopeRoute)
    ensures
        route@ == envelope_route(envelope),
{
    match envelope {
        None => EnvelopeRoute::Reply(refuse("{\"error\":\"invalid envelope\"}")),
        Some(e) => {
            if str_eq(e.header.event_type.as_str(), "im.message.receive_v1") {
                EnvelopeRoute::MessageEvent(e.event)
            } else {
                EnvelopeRoute::Reply(acknowledge())
            }
        },
    }
}

/// The open ids among the first `count` mentions, in order; a mention
/// without an open id contributes nothing.
pub open spec fn mentioned_ids_through(mentions: Seq<FeishuMention>, count: nat) -> Seq<Seq<char>>
    decreases count,
{
    if count == 0 {
        Seq::empty()
    } else {
        let before = mentioned_ids_through(mentions, (count - 1) as nat);
        match mentions[count - 1].id.open_id {
            Some(id) => before.push(id@),
            None => before,
        }
    }
}

/// The open ids that a message event mentions.
pub open spec fn mentioned_ids(mentions: Option<Vec<FeishuMention>>) -> Seq<Seq<char>> {
    match mentions {
        Some(list) => mentioned_ids_through(list@, list@.len()),
        None => Seq::empty(),
    }
}

/// The inbound message that a message event stands for. A sender without an
/// open id is the empty identity; the content is decoded into plain text;
/// the event carries no timestamp, so it counts as 0.
pub open spec fn inbound_of_event(event: FeishuMessageEvent) -> MessageView {
    MessageView {
        id: event.message.message_id@,
        sender: match event.sender.sender_id.open_id {
            Some(id) => id@,
            None => Seq::empty(),
        },
        content: decoded(event.message.content@, event.message.message_type@),
        channel: event.message.chat_id@,
        timestamp: 0,
        chat_type: Some(event.message.chat_type@),
        mentioned_open_ids: mentioned_ids(event.message.mentions),
    }
}

/// Maps a message event to the message handed on to the channel.
pub fn inbound_from_event(event: FeishuMessageEvent) -> (message: ChannelMessage)
    ensures
        message@ == inbound_of_event(event),
{
    let content = decode_message_content(
        event.message.content.as_str(),
        event.message.message_type.as_str(),
    );
    let mut mentioned: Vec<String> = Vec::new();
    match &event.message.mentions {
        Some(list) => {
            let mut i: usize = 0;
            while i < list.len()
                invariant
                    i <= list.len(),
                    texts(mentioned@) == mentioned_ids_through(list@, i as nat),
                decreases list.len() - i,
            {
                let ghost before = texts(mentioned@);
                match &list[i].id.open_id {
                    Some(id) => {
                        mentioned.push(id.clone());
                        assert(texts(mentioned@) =~= before.push(id@));
                    },
                    None => {},
                }
                i += 1;
            }
        },
        None => {
            assert(texts(mentioned@) =~= Seq::empty());
        },
    }
    let sender = match event.sender.sender_id.open_id {
        Some(id) => id,
        None => String::new(),
    };
    ChannelMessage {
        id: event.message.message_id,
        sender,
        content,
        channel: event.message.chat_id,
        timestamp: 0,
        chat_type: Some(event.message.chat_type),
        mentioned_open_ids: mentioned,
    }
}

/// What a message event leads to: the reply, and the message to forward if
/// there is one.
#[derive(Debug)]
pub struct EventOutcome {
    pub reply: WebhookReply,
    pub forward: Option<ChannelMessage>,
}

/// Concludes an event request that carried a message event. `None` stands
/// for text that could not be read as a message event: it is refused.
/// A message event is acknowledged and its message forwarded.
pub fn conclude_message_event(event: Option<FeishuMessageEvent>) -> (outcome: EventOutcome)
    ensures
        outcome.reply@ == match event {
            Some(_) => acknowledgement(),
            None => refusal("{\"error\":\"invalid message event\"}"@),
        },
        optional_message(outcome.forward) == match event {
            Some(e) => Some(inbound_of_event(e)),
            None => None,
        },
{
    match event {
        Some(e) => EventOutcome { reply: acknowledge(), forward: Some(inbound_from_event(e)) },
        None => EventOutcome {
            reply: refuse("{\"error\":\"invalid message event\"}"),
            forward: None,
        },
    }
}

/// Settings of the webhook server.
#[derive(Debug)]
pub struct LarkWebhookAdapter {
    port: u16,
    encrypt_key: Option<String>,
    verification_token: Option<String>,
}

/// A `LarkWebhookAdapter` as plain values.
pub struct WebhookView {
    pub port: u16,
    pub encrypt_key: Option<Seq<char>>,
    pub verification_token: Option<Seq<char>>,
}

impl View for LarkWebhookAdapter {
    type V = WebhookView;

    closed spec fn view(&self) -> WebhookView {
        WebhookView {
            port: self.port,
            encrypt_key: optional_text(self.encrypt_key),
            verification_token: optional_text(self.verification_token),
        }
    }
}

impl LarkWebhookAdapter {
    /// An adapter that listens on `port`, without key or token.
    pub fn new(port: u16) -> (adapter: LarkWebhookAdapter)
        ensures
            adapter@ == (WebhookView { port, encrypt_key: None, verification_token: None }),
    {
        LarkWebhookAdapter { port, encrypt_key: None, verification_token: None }
    }

    /// The adapter that a configuration asks for: on the configured port,
    /// with the configured key and token. A configuration without a port asks
    /// for none.
    pub fn from_config(config: &FeishuConfig) -> (adapter: Option<LarkWebhookAdapter>)
        ensures
            adapter is Some <==> config@.webhook_port is Some,
            adapter matches Some(a) ==> a@ == (WebhookView {
                port: config@.webhook_port->0,
                encrypt_key: config@.encrypt_key,
                verification_token: config@.verification_token,
            }),
    {
        match config.webhook_port {
            Some(port) => Some(
                LarkWebhookAdapter {
                    port,
                    encrypt_key: copy_optional_text(&config.encrypt_key),
                    verification_token: copy_optional_text(&config.verification_token),
                },
            ),
            None => None,
        }
    }

    /// The same adapter with `key` as its encrypt key.
    pub fn with_encrypt_key(self, key: &str) -> (adapter: LarkWebhookAdapter)
        ensures
            adapter@ == (WebhookView { encrypt_key: Some(key@), ..self@ }),
    {
        LarkWebhookAdapter {
            port: self.port,
            encrypt_key: Some(key.to_string()),
            verification_token: self.verification_token,
        }
    }

    /// The same adapter with `token` as its verification token.
    pub fn with_verification_token(self, token: &str) -> (adapter: LarkWebhookAdapter)
        ensures
            adapter@ == (WebhookView { verification_token: Some(token@), ..self@ }),
    {
        LarkWebhookAdapter {
            port: self.port,
            encrypt_key: self.encrypt_key,
            verification_token: Some(token.to_string()),
        }
    }

    /// The port on which the server listens.
    pub fn port(&self) -> (port: u16)
        ensures
            port == self@.port,
    {
        self.port
    }

    /// Answers a URL verification request: with the challenge it carries,
    /// in the clear or encrypted, or with a refusal.
    pub fn handle_url_verification(&self, request: &UrlVerificationRequest) -> (reply: WebhookReply)
        ensures
            reply@ == verification_reply(
                optional_text(request.challenge),
                optional_text(request.encrypt),
                self@.encrypt_key,
            ),
    {
        match &request.challenge {
            Some(c) => reply_challenge(c.as_str()),
            None => {
                let found = match (&request.encrypt, &self.encrypt_key) {
                    (Some(payload), Some(key)) => {
                        match decrypt_webhook_payload(payload.as_str(), key.as_str()) {
                            Ok(c) => Some(c),
                            Err(_) => None,
                        }
                    },
                    _ => None,
                };
                match found {
                    Some(c) => reply_challenge(c.as_str()),
                    None => refuse("{\"error\":\"missing challenge or decrypt failed\"}"),
                }
            },
        }
    }

    /// Decides where the body of an event request leads, given what the
    /// body holds when read as JSON.
    pub fn route_parsed_body(
        &self,
        compact_text: Option<String>,
        encrypt: Option<String>,
        challenge: Option<String>,
    ) -> (route: BodyRoute)
        ensures
            route@ == body_route(
                optional_text(compact_text),
                optional_text(encrypt),
                optional_text(challenge),
                self@.encrypt_key,
            ),
    {
        match compact_text {
            None => BodyRoute::Reply(refuse("{\"error\":\"invalid json\"}")),
            Some(text) => match encrypt {
                Some(payload) => match &self.encrypt_key {
                    Some(key) => match decrypt_webhook_payload(payload.as_str(), key.as_str()) {
                        Ok(plain) => BodyRoute::Envelope(plain),
                        Err(_) => BodyRoute::Reply(refuse("{\"error\":\"decrypt failed\"}")),
                    },
                    None => BodyRoute::Reply(refuse("{\"error\":\"encrypt_key required\"}")),
                },
                None => match challenge {
                    Some(c) => BodyRoute::Reply(reply_challenge(c.as_str())),
                    None => BodyRoute::Envelope(text),
                },
            },
        }
    }

    /// Decides where the body of an event request leads.
    pub fn route_body(&self, body: &[u8]) -> (route: BodyRoute)
        ensures
            route@ == body_route(
                json_compact_text(body@),
                json_member_text(body@, "encrypt"@),
                json_member_text(body@, "challenge"@),
                self@.encrypt_key,
            ),
    {
        let compact_text = compact(body);
        let encrypt = string_member(body, "encrypt");
        let challenge = string_member(body, "challenge");
        self.route_parsed_body(compact_text, encrypt, challenge)
    }
}

} // verus!
