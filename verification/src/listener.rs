//! The inbound listener: a state machine that keeps the push connection up,
//! with a bounded number of attempts and exponential backoff between them.
//!
//! The machine decides; whoever runs it performs the commands (connect,
//! sleep, announce) and reports what happened as the next event.

use vstd::prelude::*;
use crate::codec::{decode_message_content, decoded};
use crate::event_bus::{EventView, FeishuEvent};
use crate::model::{ChannelMessage, MessageView};
use crate::text::{decimal_u64, parse_u64, texts};

verus! {

/// How many connection attempts one listener makes before it gives up.
pub const MAX_RECONNECT_ATTEMPTS: u32 = 10;

/// The delay before the second attempt, in seconds.
pub const RECONNECT_BASE_DELAY_SECS: u64 = 2;

/// The delay doubles with each attempt until it has doubled this often.
pub const MAX_BACKOFF_DOUBLINGS: u32 = 5;

/// Two to the power of `exponent`.
pub open spec fn pow2(exponent: nat) -> nat
    decreases exponent,
{
    if exponent == 0 {
        1
    } else {
        2 * pow2((exponent - 1) as nat)
    }
}

/// How often the base delay has doubled by attempt number `attempt`.
pub open spec fn doublings(attempt: int) -> nat {
    if attempt - 2 <= 0 {
        0
    } else if attempt - 2 >= MAX_BACKOFF_DOUBLINGS {
        MAX_BACKOFF_DOUBLINGS as nat
    } else {
        (attempt - 2) as nat
    }
}

/// Seconds to wait before attempt number `attempt`, for the second attempt
/// and every later one.
pub open spec fn backoff_secs(attempt: int) -> nat {
    RECONNECT_BASE_DELAY_SECS as nat * pow2(doublings(attempt))
}

/// The delay grows with the attempt number and never exceeds 64 seconds.
pub proof fn lemma_backoff_bounded(attempt: int)
    ensures
        2 <= backoff_secs(attempt) <= 64,
        backoff_secs(attempt) <= backoff_secs(attempt + 1),
{
    reveal_with_fuel(pow2, 7);
}

/// Seconds to wait before attempt number `attempt`.
pub fn reconnect_delay(attempt: u32) -> (secs: u64)
    requires
        attempt >= 2,
    ensures
        secs == backoff_secs(attempt as int),
{
    let wanted: u32 = attempt - 2;
    let limit: u32 = if wanted < MAX_BACKOFF_DOUBLINGS {
        wanted
    } else {
        MAX_BACKOFF_DOUBLINGS
    };
    let mut factor: u64 = 1;
    let mut done: u32 = 0;
    while done < limit
        invariant
            done <= limit <= 5,
            factor == pow2(done as nat),
            factor <= 32,
        decreases limit - done,
    {
        proof {
            reveal_with_fuel(pow2, 7);
        }
        factor = factor * 2;
        done += 1;
    }
    RECONNECT_BASE_DELAY_SECS * factor
}

/// Why a listener ended in failure.
#[derive(Debug, Clone, Copy, PartialEq, Eq, Structural)]
pub enum ListenFailure {
    /// Every attempt that the listener is allowed has failed.
    ReconnectBudgetExhausted,
    /// The worker that held the connection ended without reporting back.
    WorkerLost,
}

impl ListenFailure {
    /// The failure as text.
    pub open spec fn text(self) -> Seq<char> {
        match self {
            ListenFailure::ReconnectBudgetExhausted => "WebSocket: exceeded max reconnect attempts"@,
            ListenFailure::WorkerLost => "WS listener thread panicked"@,
        }
    }

    /// The failure as text.
    pub fn message(&self) -> (text: String)
        ensures
            text@ == self.text(),
    {
        match self {
            ListenFailure::ReconnectBudgetExhausted => {
                "WebSocket: exceeded max reconnect attempts".to_string()
            },
            ListenFailure::WorkerLost => "WS listener thread panicked".to_string(),
        }
    }
}

/// Where a listener stands. `attempt` counts the connection attempts made so
/// far, the current one included.
#[derive(Debug, Clone, Copy, PartialEq, Eq, Structural)]
pub enum ListenerState {
    /// Not started.
    Idle,
    /// An attempt to connect is under way.
    Connecting { attempt: u32 },
    /// The connection is up.
    Connected { attempt: u32 },
    /// The connection failed or was lost; the backoff delay is running.
    Disconnected { attempt: u32 },
    /// The listener has ended, in success or failure.
    Terminated,
}

/// What happened since the last command.
#[derive(Debug, Clone, Copy, PartialEq, Eq, Structural)]
pub enum ListenerEvent {
    /// The listener was asked to run.
    Start,
    /// The connection came up.
    Opened,
    /// The connection ended: gracefully, or by a failure to connect or an
    /// unexpected disconnect.
    Closed { graceful: bool },
    /// The backoff delay has passed.
    BackoffElapsed,
    /// The worker that held the connection ended without reporting back.
    WorkerLost,
}

/// What to do next.
#[derive(Debug, Clone, Copy, PartialEq, Eq, Structural)]
pub enum ListenerCommand {
    /// Try to connect, then report `Opened` or `Closed`.
    Connect,
    /// Keep the connection, then report `Closed`.
    AwaitClose,
    /// Wait this many seconds, then report `BackoffElapsed`.
    Sleep { secs: u64 },
    /// Return success to the caller.
    Finish,
    /// Return this failure to the caller.
    Fail(ListenFailure),
    /// The event means nothing in this state.
    Ignore,
}

/// One step of the machine: the next state, the connection state to
/// announce on the event bus if any, and the command.
#[derive(Debug, Clone, Copy, PartialEq, Eq, Structural)]
pub struct ListenerStep {
    pub state: ListenerState,
    pub announce: Option<bool>,
    pub command: ListenerCommand,
}

impl ListenerState {
    /// States that a run from `Idle` can reach: the attempt counter is at
    /// least 1 and within the budget.
    pub open spec fn valid(self) -> bool {
        match self {
            ListenerState::Idle => true,
            ListenerState::Connecting { attempt } => 1 <= attempt <= MAX_RECONNECT_ATTEMPTS,
            ListenerState::Connected { attempt } => 1 <= attempt <= MAX_RECONNECT_ATTEMPTS,
            ListenerState::Disconnected { attempt } => 1 <= attempt < MAX_RECONNECT_ATTEMPTS,
            ListenerState::Terminated => true,
        }
    }

    /// How many more connection attempts a run from this state can make.
    pub open spec fn attempts_left(self) -> int {
        match self {
            ListenerState::Idle => MAX_RECONNECT_ATTEMPTS as int,
            ListenerState::Connecting { attempt } => MAX_RECONNECT_ATTEMPTS - attempt,
            ListenerState::Connected { attempt } => MAX_RECONNECT_ATTEMPTS - attempt,
            ListenerState::Disconnected { attempt } => MAX_RECONNECT_ATTEMPTS - attempt,
            ListenerState::Terminated => 0,
        }
    }

    /// After attempt number `attempt` ended other than gracefully: back off
    /// and retry while the budget lasts, else give up for good.
    pub open spec fn after_failure(attempt: u32) -> ListenerStep {
        if attempt >= MAX_RECONNECT_ATTEMPTS {
            ListenerStep {
                state: ListenerState::Terminated,
                announce: Some(false),
                command: ListenerCommand::Fail(ListenFailure::ReconnectBudgetExhausted),
            }
        } else {
            ListenerStep {
                state: ListenerState::Disconnected { attempt },
                announce: Some(false),
                command: ListenerCommand::Sleep { secs: backoff_secs(attempt + 1) as u64 },
            }
        }
    }

    /// The transition function.
    pub open spec fn next(self, event: ListenerEvent) -> ListenerStep {
        let ignore = ListenerStep { state: self, announce: None, command: ListenerCommand::Ignore };
        let ended = ListenerStep {
            state: ListenerState::Terminated,
            announce: Some(false),
            command: ListenerCommand::Finish,
        };
        let lost = ListenerStep {
            state: ListenerState::Terminated,
            announce: None,
            command: ListenerCommand::Fail(ListenFailure::WorkerLost),
        };
        match (self, event) {
            (ListenerState::Idle, ListenerEvent::Start) => ListenerStep {
                state: ListenerState::Connecting { attempt: 1 },
                announce: Some(false),
                command: ListenerCommand::Connect,
            },
            (ListenerState::Connecting { attempt }, ListenerEvent::Opened) => ListenerStep {
                state: ListenerState::Connected { attempt },
                announce: Some(true),
                command: ListenerCommand::AwaitClose,
            },
            (ListenerState::Connecting { attempt }, ListenerEvent::Closed { graceful }) => if graceful {
                ended
            } else {
                Self::after_failure(attempt)
            },
            (ListenerState::Connected { attempt }, ListenerEvent::Closed { graceful }) => if graceful {
                ended
            } else {
                Self::after_failure(attempt)
            },
            (ListenerState::Disconnected { attempt }, ListenerEvent::BackoffElapsed) => ListenerStep {
                state: ListenerState::Connecting { attempt: (attempt + 1) as u32 },
                announce: None,
                command: ListenerCommand::Connect,
            },
            (ListenerState::Connecting { .. }, ListenerEvent::WorkerLost) => lost,
            (ListenerState::Connected { .. }, ListenerEvent::WorkerLost) => lost,
            _ => ignore,
        }
    }

    /// The state in which every listener begins.
    pub fn new() -> (state: ListenerState)
        ensures
            state == ListenerState::Idle,
    {
        ListenerState::Idle
    }

    /// Whether the listener has ended.
    pub fn is_terminated(&self) -> (ended: bool)
        ensures
            ended == (*self == ListenerState::Terminated),
    {
        match self {
            ListenerState::Terminated => true,
            _ => false,
        }
    }

    fn after_failed_attempt(attempt: u32) -> (step: ListenerStep)
        requires
            attempt >= 1,
        ensures
            step == Self::after_failure(attempt),
    {
        if attempt >= MAX_RECONNECT_ATTEMPTS {
            ListenerStep {
                state: ListenerState::Terminated,
                announce: Some(false),
                command: ListenerCommand::Fail(ListenFailure::ReconnectBudgetExhausted),
            }
        } else {
            proof {
                lemma_backoff_bounded(attempt + 1);
            }
            ListenerStep {
                state: ListenerState::Disconnected { attempt },
                announce: Some(false),
                command: ListenerCommand::Sleep { secs: reconnect_delay(attempt + 1) },
            }
        }
    }

    /// Whether this state is one that a run from `Idle` can reach.
    pub fn is_valid(&self) -> (valid: bool)
        ensures
            valid == self.valid(),
    {
        match self {
            ListenerState::Idle => true,
            ListenerState::Connecting { attempt } => 1 <= *attempt && *attempt
                <= MAX_RECONNECT_ATTEMPTS,
            ListenerState::Connected { attempt } => 1 <= *attempt && *attempt
                <= MAX_RECONNECT_ATTEMPTS,
            ListenerState::Disconnected { attempt } => 1 <= *attempt && *attempt
                < MAX_RECONNECT_ATTEMPTS,
            ListenerState::Terminated => true,
        }
    }

    /// Takes one step: what the listener does on `event` in this state.
    pub fn step(self, event: ListenerEvent) -> (step: ListenerStep)
        requires
            self.valid(),
        ensures
            step == self.next(event),
            step.state.valid(),
    {
        let ignore = ListenerStep { state: self, announce: None, command: ListenerCommand::Ignore };
        match self {
            ListenerState::Idle => match event {
                ListenerEvent::Start => ListenerStep {
                    state: ListenerState::Connecting { attempt: 1 },
                    announce: Some(false),
                    command: ListenerCommand::Connect,
                },
                _ => ignore,
            },
            ListenerState::Connecting { attempt } => match event {
                ListenerEvent::Opened => ListenerStep {
                    state: ListenerState::Connected { attempt },
                    announce: Some(true),
                    command: ListenerCommand::AwaitClose,
                },
                ListenerEvent::Closed { graceful } => if graceful {
                    ListenerStep {
                        state: ListenerState::Terminated,
                        announce: Some(false),
                        command: ListenerCommand::Finish,
                    }
                } else {
                    Self::after_failed_attempt(attempt)
                },
                ListenerEvent::WorkerLost => ListenerStep {
                    state: ListenerState::Terminated,
                    announce: None,
                    command: ListenerCommand::Fail(ListenFailure::WorkerLost),
                },
                _ => ignore,
            },
            ListenerState::Connected { attempt } => match event {
                ListenerEvent::Closed { graceful } => if graceful {
                    ListenerStep {
                        state: ListenerState::Terminated,
                        announce: Some(false),
                        command: ListenerCommand::Finish,
                    }
                } else {
                    Self::after_failed_attempt(attempt)
                },
                ListenerEvent::WorkerLost => ListenerStep {
                    state: ListenerState::Terminated,
                    announce: None,
                    command: ListenerCommand::Fail(ListenFailure::WorkerLost),
                },
                _ => ignore,
            },
            ListenerState::Disconnected { attempt } => match event {
                ListenerEvent::BackoffElapsed => ListenerStep {
                    state: ListenerState::Connecting { attempt: attempt + 1 },
                    announce: None,
                    command: ListenerCommand::Connect,
                },
                _ => ignore,
            },
            ListenerState::Terminated => ignore,
        }
    }
}

impl ListenerStep {
    /// The event to publish on the bus for this step, if it announces one.
    pub fn announcement(&self) -> (event: Option<FeishuEvent>)
        ensures
            match event {
                Some(e) => self.announce matches Some(connected) && e@
                    == (EventView::ConnectionStateChanged { connected }),
                None => self.announce is None,
            },
    {
        match self.announce {
            Some(connected) => Some(FeishuEvent::ConnectionStateChanged { connected }),
            None => None,
        }
    }
}

/// The state after a run of events.
pub open spec fn state_after(state: ListenerState, events: Seq<ListenerEvent>) -> ListenerState
    decreases events.len(),
{
    if events.len() == 0 {
        state
    } else {
        state_after(state.next(events[0]).state, events.drop_first())
    }
}

/// How many times a run of events makes the listener connect.
pub open spec fn connects_during(state: ListenerState, events: Seq<ListenerEvent>) -> nat
    decreases events.len(),
{
    if events.len() == 0 {
        0
    } else {
        let step = state.next(events[0]);
        let here: nat = if step.command == ListenerCommand::Connect {
            1
        } else {
            0
        };
        here + connects_during(step.state, events.drop_first())
    }
}

/// Whatever happens, a listener stays within its budget: a run from a valid
/// state ends in a valid state and makes at most as many connection attempts
/// as the state had left.
pub proof fn lemma_attempts_bounded(state: ListenerState, events: Seq<ListenerEvent>)
    requires
        state.valid(),
    ensures
        state_after(state, events).valid(),
        connects_during(state, events) + state_after(state, events).attempts_left()
            <= state.attempts_left(),
    decreases events.len(),
{
    if events.len() > 0 {
        lemma_attempts_bounded(state.next(events[0]).state, events.drop_first());
    }
}

/// A listener makes at most `MAX_RECONNECT_ATTEMPTS` connection attempts,
/// whatever events it meets.
pub proof fn lemma_at_most_max_attempts(events: Seq<ListenerEvent>)
    ensures
        connects_during(ListenerState::Idle, events) <= MAX_RECONNECT_ATTEMPTS,
{
    lemma_attempts_bounded(ListenerState::Idle, events);
}

/// A listener that has ended stays ended and does nothing more.
pub proof fn lemma_terminated_is_final(events: Seq<ListenerEvent>)
    ensures
        state_after(ListenerState::Terminated, events) == ListenerState::Terminated,
        connects_during(ListenerState::Terminated, events) == 0,
    decreases events.len(),
{
    if events.len() > 0 {
        lemma_terminated_is_final(events.drop_first());
    }
}

/// A graceful close ends the listener in success at once; any other close
/// is retried after the backoff delay while the budget lasts, and is fatal
/// when the last attempt has failed.
pub proof fn lemma_close_outcomes(attempt: u32)
    requires
        1 <= attempt <= MAX_RECONNECT_ATTEMPTS,
    ensures
        (ListenerState::Connected { attempt }).next(ListenerEvent::Closed { graceful: true }).command
            == ListenerCommand::Finish,
        attempt < MAX_RECONNECT_ATTEMPTS ==> (ListenerState::Connected { attempt }).next(
            ListenerEvent::Closed { graceful: false },
        ).command == (ListenerCommand::Sleep { secs: backoff_secs(attempt + 1) as u64 }),
        attempt == MAX_RECONNECT_ATTEMPTS ==> (ListenerState::Connected { attempt }).next(
            ListenerEvent::Closed { graceful: false },
        ).command == ListenerCommand::Fail(ListenFailure::ReconnectBudgetExhausted),
{
}

/// A message event as the push connection delivers it.
#[derive(Debug)]
pub struct PushMessage {
    pub message_id: String,
    pub sender_open_id: String,
    pub content: String,
    pub message_type: String,
    pub chat_id: String,
    pub chat_type: String,
    /// When the message was created, as decimal text.
    pub create_time: String,
    /// The open id of each mention, in the order of the mentions.
    pub mention_open_ids: Option<Vec<String>>,
}

/// The inbound message that a pushed message event stands for. The content
/// is decoded into plain text; a creation time that is not a number counts
/// as 0; a missing mention list counts as empty.
pub open spec fn inbound_of_push(raw: PushMessage) -> MessageView {
    MessageView {
        id: raw.message_id@,
        sender: raw.sender_open_id@,
        content: decoded(raw.content@, raw.message_type@),
        channel: raw.chat_id@,
        timestamp: match decimal_u64(raw.create_time@) {
            Some(t) => t,
            None => 0,
        },
        chat_type: Some(raw.chat_type@),
        mentioned_open_ids: match raw.mention_open_ids {
            Some(ids) => texts(ids@),
            None => Seq::empty(),
        },
    }
}

/// Maps a pushed message event to the message handed on to the channel.
pub fn inbound_from_push(raw: PushMessage) -> (message: ChannelMessage)
    ensures
        message@ == inbound_of_push(raw),
{
    let content = decode_message_content(raw.content.as_str(), raw.message_type.as_str());
    let timestamp: u64 = match parse_u64(raw.create_time.as_str()) {
        Some(t) => t,
        None => 0,
    };
    let mentioned_open_ids: Vec<String> = match raw.mention_open_ids {
        Some(ids) => ids,
        None => Vec::new(),
    };
    let message = ChannelMessage {
        id: raw.message_id,
        sender: raw.sender_open_id,
        content,
        channel: raw.chat_id,
        timestamp,
        chat_type: Some(raw.chat_type),
        mentioned_open_ids,
    };
    assert(message@.mentioned_open_ids =~= inbound_of_push(raw).mentioned_open_ids);
    message
}

} // verus!
