//! Outbound text messages: how a recipient is addressed, and the request
//! that carries the text.

use vstd::prelude::*;
use crate::codec::{encode_text_message, text_message_json};
use crate::text::{has_prefix, starts_with};

verus! {

/// The id space that a recipient id belongs to, told by its prefix: `oc_`
/// is a chat, `on_` a union id, and anything else an open id.
pub open spec fn receive_id_type_of(id: Seq<char>) -> Seq<char> {
    if has_prefix(id, "oc_"@) {
        "chat_id"@
    } else if has_prefix(id, "on_"@) {
        "union_id"@
    } else {
        "open_id"@
    }
}

/// Infers the platform's `receive_id_type` from the id's prefix.
pub fn infer_receive_id_type(id: &str) -> (kind: &'static str)
    ensures
        kind@ == receive_id_type_of(id@),
{
    if starts_with(id, "oc_") {
        "chat_id"
    } else if starts_with(id, "on_") {
        "union_id"
    } else {
        "open_id"
    }
}

/// A request to create a text message.
#[derive(Debug)]
pub struct TextMessageRequest {
    pub receive_id: String,
    pub receive_id_type: String,
    pub msg_type: String,
    pub content: String,
}

/// A `TextMessageRequest` as plain values.
pub struct TextMessageRequestView {
    pub receive_id: Seq<char>,
    pub receive_id_type: Seq<char>,
    pub msg_type: Seq<char>,
    pub content: Seq<char>,
}

impl View for TextMessageRequest {
    type V = TextMessageRequestView;

    open spec fn view(&self) -> TextMessageRequestView {
        TextMessageRequestView {
            receive_id: self.receive_id@,
            receive_id_type: self.receive_id_type@,
            msg_type: self.msg_type@,
            content: self.content@,
        }
    }
}

/// The request that sends `text` to `receive_id`.
pub fn text_message_request(receive_id: &str, text: &str) -> (request: TextMessageRequest)
    ensures
        request@ == (TextMessageRequestView {
            receive_id: receive_id@,
            receive_id_type: receive_id_type_of(receive_id@),
            msg_type: "text"@,
            content: text_message_json(text@),
        }),
{
    TextMessageRequest {
        receive_id: receive_id.to_string(),
        receive_id_type: infer_receive_id_type(receive_id).to_string(),
        msg_type: "text".to_string(),
        content: encode_text_message(text),
    }
}

} // verus!
