//! Errors of the channel, each with its code.

use vstd::prelude::*;
use crate::text::join;

verus! {

/// What went wrong, with the detail that the failing component reported.
#[derive(Debug)]
pub enum FeishuError {
    /// The tenant access token could not be obtained.
    TokenFetchFailed(String),
    /// The token expired and could not be refreshed.
    TokenRefreshFailed(String),
    /// The push connection could not be opened.
    WebSocketConnectFailed(String),
    /// The push connection was lost.
    WebSocketDisconnected(String),
    /// An outbound message was not accepted.
    MessageSendFailed(String),
    /// An inbound message could not be decoded.
    MessageDecodeFailed(String),
    /// The sender is not authorized.
    UnauthorizedUser(String),
    /// A webhook payload failed its signature check.
    WebhookSignatureFailed,
    /// The bot's identity could not be fetched.
    BotInfoFetchFailed(String),
    /// A capability failed to start.
    CapabilityStartFailed(String),
    /// No capability of that name is registered.
    CapabilityNotFound(String),
}

/// A `FeishuError` with its detail as a character sequence.
pub enum ErrorView {
    TokenFetchFailed(Seq<char>),
    TokenRefreshFailed(Seq<char>),
    WebSocketConnectFailed(Seq<char>),
    WebSocketDisconnected(Seq<char>),
    MessageSendFailed(Seq<char>),
    MessageDecodeFailed(Seq<char>),
    UnauthorizedUser(Seq<char>),
    WebhookSignatureFailed,
    BotInfoFetchFailed(Seq<char>),
    CapabilityStartFailed(Seq<char>),
    CapabilityNotFound(Seq<char>),
}

impl ErrorView {
    /// The text that introduces the detail: the code and what failed.
    pub open spec fn heading(self) -> Seq<char> {
        match self {
            ErrorView::TokenFetchFailed(_) => "E-FEISHU-1001: failed to obtain tenant_access_token: "@,
            ErrorView::TokenRefreshFailed(_) => "E-FEISHU-1002: token expired and refresh failed: "@,
            ErrorView::WebSocketConnectFailed(_) => "E-FEISHU-2001: WebSocket connection failed: "@,
            ErrorView::WebSocketDisconnected(_) => "E-FEISHU-2002: WebSocket disconnected: "@,
            ErrorView::MessageSendFailed(_) => "E-FEISHU-3001: message send failed: "@,
            ErrorView::MessageDecodeFailed(_) => "E-FEISHU-3002: message decode failed: "@,
            ErrorView::UnauthorizedUser(_) => "E-FEISHU-4001: unauthorized user: "@,
            ErrorView::WebhookSignatureFailed => "E-FEISHU-4002: webhook signature verification failed"@,
            ErrorView::BotInfoFetchFailed(_) => "E-FEISHU-4501: bot info fetch failed: "@,
            ErrorView::CapabilityStartFailed(_) => "E-FEISHU-5001: capability start failed: "@,
            ErrorView::CapabilityNotFound(_) => "E-FEISHU-5002: capability not found: "@,
        }
    }

    /// The detail that the error carries; empty where it carries none.
    pub open spec fn detail(self) -> Seq<char> {
        match self {
            ErrorView::TokenFetchFailed(d) => d,
            ErrorView::TokenRefreshFailed(d) => d,
            ErrorView::WebSocketConnectFailed(d) => d,
            ErrorView::WebSocketDisconnected(d) => d,
            ErrorView::MessageSendFailed(d) => d,
            ErrorView::MessageDecodeFailed(d) => d,
            ErrorView::UnauthorizedUser(d) => d,
            ErrorView::WebhookSignatureFailed => Seq::empty(),
            ErrorView::BotInfoFetchFailed(d) => d,
            ErrorView::CapabilityStartFailed(d) => d,
            ErrorView::CapabilityNotFound(d) => d,
        }
    }

    /// The full message: heading, then detail.
    pub open spec fn message(self) -> Seq<char> {
        self.heading() + self.detail()
    }
}

impl View for FeishuError {
    type V = ErrorView;

    open spec fn view(&self) -> ErrorView {
        match self {
            FeishuError::TokenFetchFailed(d) => ErrorView::TokenFetchFailed(d@),
            FeishuError::TokenRefreshFailed(d) => ErrorView::TokenRefreshFailed(d@),
            FeishuError::WebSocketConnectFailed(d) => ErrorView::WebSocketConnectFailed(d@),
            FeishuError::WebSocketDisconnected(d) => ErrorView::WebSocketDisconnected(d@),
            FeishuError::MessageSendFailed(d) => ErrorView::MessageSendFailed(d@),
            FeishuError::MessageDecodeFailed(d) => ErrorView::MessageDecodeFailed(d@),
            FeishuError::UnauthorizedUser(d) => ErrorView::UnauthorizedUser(d@),
            FeishuError::WebhookSignatureFailed => ErrorView::WebhookSignatureFailed,
            FeishuError::BotInfoFetchFailed(d) => ErrorView::BotInfoFetchFailed(d@),
            FeishuError::CapabilityStartFailed(d) => ErrorView::CapabilityStartFailed(d@),
            FeishuError::CapabilityNotFound(d) => ErrorView::CapabilityNotFound(d@),
        }
    }
}

impl FeishuError {
    /// The error as text: its code, what failed, and the detail.
    pub fn message(&self) -> (text: String)
        ensures
            text@ == self@.message(),
    {
        match self {
            FeishuError::TokenFetchFailed(d) => join(
                "E-FEISHU-1001: failed to obtain tenant_access_token: ",
                d.as_str(),
            ),
            FeishuError::TokenRefreshFailed(d) => join(
                "E-FEISHU-1002: token expired and refresh failed: ",
                d.as_str(),
            ),
            FeishuError::WebSocketConnectFailed(d) => join(
                "E-FEISHU-2001: WebSocket connection failed: ",
                d.as_str(),
            ),
            FeishuError::WebSocketDisconnected(d) => join(
                "E-FEISHU-2002: WebSocket disconnected: ",
                d.as_str(),
            ),
            FeishuError::MessageSendFailed(d) => join(
                "E-FEISHU-3001: message send failed: ",
                d.as_str(),
            ),
            FeishuError::MessageDecodeFailed(d) => join(
                "E-FEISHU-3002: message decode failed: ",
                d.as_str(),
            ),
            FeishuError::UnauthorizedUser(d) => join(
                "E-FEISHU-4001: unauthorized user: ",
                d.as_str(),
            ),
            FeishuError::WebhookSignatureFailed => {
                let text = "E-FEISHU-4002: webhook signature verification failed".to_string();
                assert(text@ =~= self@.heading() + Seq::<char>::empty());
                text
            },
            FeishuError::BotInfoFetchFailed(d) => join(
                "E-FEISHU-4501: bot info fetch failed: ",
                d.as_str(),
            ),
            FeishuError::CapabilityStartFailed(d) => join(
                "E-FEISHU-5001: capability start failed: ",
                d.as_str(),
            ),
            FeishuError::CapabilityNotFound(d) => join(
                "E-FEISHU-5002: capability not found: ",
                d.as_str(),
            ),
        }
    }
}

} // verus!
