//! Value objects: the message handed to the application, and the shapes in
//! which the platform delivers events.

use vstd::prelude::*;
use crate::text::{copy_optional_text, copy_texts, optional_text, texts};

verus! {

/// A message received from or sent to a channel.
#[derive(Debug)]
pub struct ChannelMessage {
    pub id: String,
    pub sender: String,
    pub content: String,
    pub channel: String,
    pub timestamp: u64,
    /// `"p2p"` or `"group"`, where the platform said which.
    pub chat_type: Option<String>,
    /// Open ids of the users mentioned in this message.
    pub mentioned_open_ids: Vec<String>,
}

/// A `ChannelMessage` as plain values.
pub struct MessageView {
    pub id: Seq<char>,
    pub sender: Seq<char>,
    pub content: Seq<char>,
    pub channel: Seq<char>,
    pub timestamp: u64,
    pub chat_type: Option<Seq<char>>,
    pub mentioned_open_ids: Seq<Seq<char>>,
}

impl View for ChannelMessage {
    type V = MessageView;

    open spec fn view(&self) -> MessageView {
        MessageView {
            id: self.id@,
            sender: self.sender@,
            content: self.content@,
            channel: self.channel@,
            timestamp: self.timestamp,
            chat_type: optional_text(self.chat_type),
            mentioned_open_ids: texts(self.mentioned_open_ids@),
        }
    }
}

impl Clone for ChannelMessage {
    fn clone(&self) -> (copy: ChannelMessage)
        ensures
            copy@ == self@,
    {
        ChannelMessage {
            id: self.id.clone(),
            sender: self.sender.clone(),
            content: self.content.clone(),
            channel: self.channel.clone(),
            timestamp: self.timestamp,
            chat_type: copy_optional_text(&self.chat_type),
            mentioned_open_ids: copy_texts(&self.mentioned_open_ids),
        }
    }
}

/// The view of an optional message.
pub open spec fn optional_message(message: Option<ChannelMessage>) -> Option<MessageView> {
    match message {
        Some(m) => Some(m@),
        None => None,
    }
}

/// The views of a list of messages, in order.
pub open spec fn message_views(list: Seq<ChannelMessage>) -> Seq<MessageView> {
    list.map_values(|m: ChannelMessage| m@)
}

/// A sender's identity in each of the platform's id spaces.
#[derive(Debug, Clone)]
pub struct FeishuSenderId {
    pub open_id: Option<String>,
    pub user_id: Option<String>,
    pub union_id: Option<String>,
}

/// One mention inside a message: the placeholder that stands in the text,
/// who is meant, and the display name.
#[derive(Debug, Clone)]
pub struct FeishuMention {
    pub key: String,
    pub id: FeishuSenderId,
    pub name: String,
}

/// Header of an event envelope.
#[derive(Debug)]
pub struct FeishuEventHeader {
    pub event_id: String,
    pub event_type: String,
    pub create_time: String,
    pub token: String,
    pub app_id: String,
    pub tenant_key: String,
}

/// An event envelope. The event itself is kept as JSON text until its type
/// is known.
#[derive(Debug)]
pub struct FeishuEventEnvelope {
    pub schema: Option<String>,
    pub header: FeishuEventHeader,
    pub event: String,
}

/// The event that announces a received message.
#[derive(Debug)]
pub struct FeishuMessageEvent {
    pub sender: FeishuSender,
    pub message: FeishuMessageBody,
}

/// Who sent a message.
#[derive(Debug)]
pub struct FeishuSender {
    pub sender_id: FeishuSenderId,
    pub sender_type: Option<String>,
}

/// The message inside a message event.
#[derive(Debug)]
pub struct FeishuMessageBody {
    pub message_id: String,
    pub chat_id: String,
    pub chat_type: String,
    pub message_type: String,
    pub content: String,
    pub mentions: Option<Vec<FeishuMention>>,
    pub root_id: Option<String>,
    pub parent_id: Option<String>,
}

} // verus!
