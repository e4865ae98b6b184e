//! Encoding and decoding of message content.

use vstd::prelude::*;
use vstd::utf8::encode_utf8;
use crate::json::{json_member_text, json_quoted, quote, string_member};
use crate::model::FeishuMention;
use crate::text::{join, join3, optional_text, remove_all, str_eq, trim, trimmed, without};

verus! {

/// The plain text of a message, given the string that its content holds
/// under `"text"` when read as JSON. Only a message of type `"text"` is
/// unwrapped; anything else, and content without such a member, passes
/// through unchanged.
pub open spec fn decoded_text(
    content: Seq<char>,
    message_type: Seq<char>,
    text_member: Option<Seq<char>>,
) -> Seq<char> {
    if message_type == "text"@ {
        match text_member {
            Some(text) => text,
            None => content,
        }
    } else {
        content
    }
}

/// What `content` holds under `"text"` when read as a JSON object.
pub open spec fn text_member(content: Seq<char>) -> Option<Seq<char>> {
    json_member_text(encode_utf8(content), "text"@)
}

/// The plain text of a message with this content and type.
pub open spec fn decoded(content: Seq<char>, message_type: Seq<char>) -> Seq<char> {
    decoded_text(content, message_type, text_member(content))
}

/// Decodes message content, given what the content holds under `"text"`.
pub fn decode_with_text_member(
    content: &str,
    message_type: &str,
    text_member: Option<String>,
) -> (text: String)
    ensures
        text@ == decoded_text(content@, message_type@, optional_text(text_member)),
{
    if str_eq(message_type, "text") {
        match text_member {
            Some(t) => t,
            None => content.to_string(),
        }
    } else {
        content.to_string()
    }
}

/// Decodes message content into plain text. Content that cannot be read
/// degrades to the raw content; it is never dropped.
pub fn decode_message_content(content: &str, message_type: &str) -> (text: String)
    ensures
        text@ == decoded(content@, message_type@),
{
    if str_eq(message_type, "text") {
        let member = string_member(content.as_bytes(), "text");
        decode_with_text_member(content, message_type, member)
    } else {
        content.to_string()
    }
}

/// Whether `mention` refers to the open id `open_id`.
pub open spec fn refers_to(mention: FeishuMention, open_id: Seq<char>) -> bool {
    optional_text(mention.id.open_id) == Some(open_id)
}

/// Whether one of `mentions` carries the open id `bot_open_id`.
pub open spec fn mentions_bot(mentions: Seq<FeishuMention>, bot_open_id: Seq<char>) -> bool {
    exists|i: int| 0 <= i < mentions.len() && refers_to(#[trigger] mentions[i], bot_open_id)
}

/// Whether the bot is mentioned in the message.
pub fn is_bot_mentioned(mentions: &[FeishuMention], bot_open_id: &str) -> (mentioned: bool)
    ensures
        mentioned == mentions_bot(mentions@, bot_open_id@),
{
    let mut i: usize = 0;
    while i < mentions.len()
        invariant
            i <= mentions.len(),
            forall|j: int| 0 <= j < i ==> !refers_to(#[trigger] mentions@[j], bot_open_id@),
        decreases mentions.len() - i,
    {
        let hit = match &mentions[i].id.open_id {
            Some(id) => str_eq(id.as_str(), bot_open_id),
            None => false,
        };
        if hit {
            assert(refers_to(mentions@[i as int], bot_open_id@));
            return true;
        }
        i += 1;
    }
    false
}

/// The text after the placeholders and `@name` forms of the first `count`
/// mentions have been taken out, in the order of the mentions.
pub open spec fn stripped_through(text: Seq<char>, mentions: Seq<FeishuMention>, count: nat) -> Seq<
    char,
>
    decreases count,
{
    if count == 0 {
        text
    } else {
        let before = stripped_through(text, mentions, (count - 1) as nat);
        let mention = mentions[count - 1];
        without(without(before, mention.key@), "@"@ + mention.name@)
    }
}

/// The text without any mention's placeholder or `@name`, and without
/// surrounding whitespace.
pub open spec fn stripped(text: Seq<char>, mentions: Seq<FeishuMention>) -> Seq<char> {
    trimmed(stripped_through(text, mentions, mentions.len()))
}

/// Strips mention placeholders from message text.
pub fn strip_bot_mentions(text: &str, mentions: &[FeishuMention]) -> (rest: String)
    ensures
        rest@ == stripped(text@, mentions@),
{
    let mut result = text.to_string();
    let mut i: usize = 0;
    while i < mentions.len()
        invariant
            i <= mentions.len(),
            result@ == stripped_through(text@, mentions@, i as nat),
        decreases mentions.len() - i,
    {
        let mention = &mentions[i];
        result = remove_all(result.as_str(), mention.key.as_str());
        let at_name = join("@", mention.name.as_str());
        result = remove_all(result.as_str(), at_name.as_str());
        i += 1;
    }
    trim(result.as_str())
}

/// The JSON content of a text message that says `text`.
pub open spec fn text_message_json(text: Seq<char>) -> Seq<char> {
    "{\"text\":"@ + json_quoted(text) + "}"@
}

/// Encodes plain text as the JSON content of a text message.
pub fn encode_text_message(text: &str) -> (json: String)
    ensures
        json@ == text_message_json(text@),
{
    let literal = quote(text);
    join3("{\"text\":", literal.as_str(), "}")
}

} // verus!
