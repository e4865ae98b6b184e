//! The filter that every inbound message passes before it reaches the
//! application: sender authorization, then mention gating in groups.

use vstd::prelude::*;
use crate::guard::{GuardView, SecurityGuard};
use crate::model::{message_views, ChannelMessage, MessageView};
use crate::policy::list_contains;
use crate::text::{copy_optional_text, optional_text, str_eq};

verus! {

/// Parameters of the message filter.
#[derive(Debug)]
pub struct FilterParams {
    pub security: SecurityGuard,
    /// The bot's own open id, where it could be resolved.
    pub bot_open_id: Option<String>,
    /// Whether a group message must mention the bot.
    pub group_require_mention: bool,
}

/// `FilterParams` as plain values.
pub struct FilterView {
    pub security: GuardView,
    pub bot_open_id: Option<Seq<char>>,
    pub group_require_mention: bool,
}

impl View for FilterParams {
    type V = FilterView;

    open spec fn view(&self) -> FilterView {
        FilterView {
            security: self.security@,
            bot_open_id: optional_text(self.bot_open_id),
            group_require_mention: self.group_require_mention,
        }
    }
}

impl Clone for FilterParams {
    fn clone(&self) -> (copy: FilterParams)
        ensures
            copy@ == self@,
    {
        FilterParams {
            security: self.security.clone(),
            bot_open_id: copy_optional_text(&self.bot_open_id),
            group_require_mention: self.group_require_mention,
        }
    }
}

/// What the filter makes of a message: that it is forwarded, or why it is
/// dropped.
#[derive(Debug, Clone, Copy, PartialEq, Eq, Structural)]
pub enum FilterVerdict {
    /// The message reaches the application.
    Forward,
    /// A group message whose sender is not authorized for groups.
    UnauthorizedGroupSender,
    /// A group message from an authorized sender that does not mention the
    /// bot, where a mention is required and the bot's identity is known.
    BotNotMentioned,
    /// A message outside groups whose sender is not authorized for direct
    /// messages.
    UnauthorizedDirectSender,
}

impl FilterView {
    /// Whether the message belongs to a group chat.
    pub open spec fn is_group(message: MessageView) -> bool {
        message.chat_type == Some("group"@)
    }

    /// Whether mention gating lets the message through: it does unless a
    /// mention is required, the bot's identity is known, and the message does
    /// not mention it.
    pub open spec fn mention_gate_open(self, message: MessageView) -> bool {
        match self.bot_open_id {
            Some(bot) => !self.group_require_mention || message.mentioned_open_ids.contains(bot),
            None => true,
        }
    }

    /// Whether the message is forwarded. A group message needs an authorized
    /// sender and an open mention gate; any other message needs a sender
    /// authorized for direct messages.
    pub open spec fn forwards(self, message: MessageView) -> bool {
        if Self::is_group(message) {
            self.security.group_allows(message.sender) && self.mention_gate_open(message)
        } else {
            self.security.dm_allows(message.sender)
        }
    }

    /// What the filter makes of the message. In a group the sender is judged
    /// first, so an unauthorized sender is never told that a mention was
    /// missing.
    pub open spec fn verdict(self, message: MessageView) -> FilterVerdict {
        if Self::is_group(message) {
            if !self.security.group_allows(message.sender) {
                FilterVerdict::UnauthorizedGroupSender
            } else if !self.mention_gate_open(message) {
                FilterVerdict::BotNotMentioned
            } else {
                FilterVerdict::Forward
            }
        } else if self.security.dm_allows(message.sender) {
            FilterVerdict::Forward
        } else {
            FilterVerdict::UnauthorizedDirectSender
        }
    }

    /// The messages among `messages` that are forwarded, in their order.
    pub open spec fn survivors(self, messages: Seq<MessageView>) -> Seq<MessageView> {
        messages.filter(|m: MessageView| self.forwards(m))
    }
}

/// What the filter makes of the message: whether it is forwarded, and if not,
/// why it is dropped.
pub fn filter_verdict(msg: &ChannelMessage, params: &FilterParams) -> (verdict: FilterVerdict)
    ensures
        verdict == params@.verdict(msg@),
        (verdict == FilterVerdict::Forward) == params@.forwards(msg@),
{
    let is_group = match &msg.chat_type {
        Some(kind) => str_eq(kind.as_str(), "group"),
        None => false,
    };
    if is_group {
        if !params.security.is_group_allowed(msg.sender.as_str()) {
            return FilterVerdict::UnauthorizedGroupSender;
        }
        if params.group_require_mention {
            match &params.bot_open_id {
                Some(bot_id) => {
                    if !list_contains(&msg.mentioned_open_ids, bot_id.as_str()) {
                        return FilterVerdict::BotNotMentioned;
                    }
                },
                None => {},
            }
        }
        FilterVerdict::Forward
    } else if params.security.is_dm_allowed(msg.sender.as_str()) {
        FilterVerdict::Forward
    } else {
        FilterVerdict::UnauthorizedDirectSender
    }
}

/// Whether the message should be forwarded to the application.
pub fn should_forward_message(msg: &ChannelMessage, params: &FilterParams) -> (forward: bool)
    ensures
        forward == params@.forwards(msg@),
{
    match filter_verdict(msg, params) {
        FilterVerdict::Forward => true,
        _ => false,
    }
}

/// The messages that the filter forwards, in the order in which they came.
pub fn forward_survivors(messages: Vec<ChannelMessage>, params: &FilterParams) -> (survivors: Vec<
    ChannelMessage,
>)
    ensures
        message_views(survivors@) == message_views(messages@).filter(
            |m: MessageView| params@.forwards(m),
        ),
        message_views(survivors@) == params@.survivors(message_views(messages@)),
{
    let ghost wanted = |m: MessageView| params@.forwards(m);
    let ghost all = message_views(messages@);
    let mut survivors: Vec<ChannelMessage> = Vec::new();
    let mut i: usize = 0;
    proof {
        reveal(Seq::filter);
        assert(all.take(0) =~= Seq::empty());
        assert(message_views(survivors@) =~= all.take(0).filter(wanted));
    }
    while i < messages.len()
        invariant
            i <= messages.len(),
            all == message_views(messages@),
            wanted == (|m: MessageView| params@.forwards(m)),
            message_views(survivors@) == all.take(i as int).filter(wanted),
        decreases messages.len() - i,
    {
        let ghost before = message_views(survivors@);
        proof {
            reveal(Seq::filter);
            assert(all.take(i + 1).drop_last() =~= all.take(i as int));
            assert(all.take(i + 1).last() == messages@[i as int]@);
        }
        if should_forward_message(&messages[i], params) {
            survivors.push(messages[i].clone());
            assert(message_views(survivors@) =~= before.push(messages@[i as int]@));
        }
        i += 1;
    }
    assert(all.take(messages.len() as int) =~= all);
    survivors
}

/// A group message from a sender who is not authorized for groups is
/// dropped, whether or not it mentions the bot.
pub proof fn lemma_unauthorized_group_sender_dropped(filter: FilterView, message: MessageView)
    requires
        FilterView::is_group(message),
        !filter.security.group_allows(message.sender),
    ensures
        !filter.forwards(message),
{
}

/// Where a mention is required and the bot's identity is known, a group
/// message that does not mention the bot is dropped, even from an authorized
/// sender.
pub proof fn lemma_unmentioned_group_message_dropped(
    filter: FilterView,
    message: MessageView,
    bot: Seq<char>,
)
    requires
        FilterView::is_group(message),
        filter.group_require_mention,
        filter.bot_open_id == Some(bot),
        !message.mentioned_open_ids.contains(bot),
    ensures
        !filter.forwards(message),
{
}

/// Where the bot's identity is unknown, mention gating is skipped: a group
/// message from an authorized sender is forwarded without a mention.
pub proof fn lemma_unknown_bot_skips_mention_gate(filter: FilterView, message: MessageView)
    requires
        FilterView::is_group(message),
        filter.bot_open_id is None,
        filter.security.group_allows(message.sender),
    ensures
        filter.forwards(message),
{
}

/// A message that is not a group message is judged by the direct-message
/// policy alone.
pub proof fn lemma_direct_message_by_dm_policy(filter: FilterView, message: MessageView)
    requires
        !FilterView::is_group(message),
    ensures
        filter.forwards(message) == filter.security.dm_allows(message.sender),
{
}

} // verus!
