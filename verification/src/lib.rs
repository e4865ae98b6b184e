//! Feishu / Lark channel adapter: the decisions of a pluggable chat channel,
//! each with a machine-checked contract.
//!
//! - `policy`, `guard`: who may send direct and group messages.
//! - `filter`: which inbound messages reach the application.
//! - `capability`, `kernel`: the lifecycle of the platform features.
//! - `event_bus`: fan-out of lifecycle events to subscribers.
//! - `listener`: the reconnecting inbound connection as a state machine.
//! - `webhook`, `crypto`, `json`: the HTTP fallback for inbound events.
//! - `channel`, `compose`: the service that ties the parts together.
//! - `config`, `model`, `error`, `codec`, `im`, `bot`, `signal`, `text`:
//!   values and the small functions over them.

pub mod bot;
pub mod capability;
pub mod channel;
pub mod codec;
pub mod compose;
pub mod config;
pub mod crypto;
pub mod error;
pub mod event_bus;
pub mod filter;
pub mod guard;
pub mod im;
pub mod json;
pub mod kernel;
pub mod listener;
pub mod model;
pub mod policy;
pub mod signal;
pub mod text;
pub mod webhook;

pub use capability::{
    AuthCapability, AuthPort, BotCapability, BotInfoPort, Capability, EventListenerPort,
    ImCapability, MessageSenderPort,
};
pub use channel::FeishuChannelService;
pub use compose::create_channel;
pub use config::{FeishuConfig, FeishuConnectionMode, FeishuDomain};
pub use error::FeishuError;
pub use event_bus::{EventBus, FeishuEvent};
pub use guard::SecurityGuard;
pub use kernel::FeishuKernel;
pub use model::ChannelMessage;
pub use policy::{DmPolicy, GroupPolicy};
