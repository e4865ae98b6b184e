//! The contract between the kernel and the platform features it manages, and
//! the ports through which those features reach the platform.

use vstd::prelude::*;
use crate::error::{ErrorView, FeishuError};
use crate::model::ChannelMessage;
use crate::text::join;

verus! {

/// A platform capability: an independently started, stopped and
/// health-checked unit. What its methods return is up to the capability and
/// may differ from call to call; the kernel keeps the name that a capability
/// gives when it is registered.
pub trait Capability {
    /// Human-readable capability name, such as `"auth"` or `"im"`.
    fn name(&self) -> &str;

    /// Initializes and starts the capability. A capability without
    /// initialization work of its own succeeds.
    fn start(&self) -> (outcome: Result<(), FeishuError>)
        default_ensures
            outcome == Ok::<(), FeishuError>(()),
    {
        Ok(())
    }

    /// Stops the capability. A capability without shutdown work of its own
    /// succeeds.
    fn stop(&self) -> (outcome: Result<(), FeishuError>)
        default_ensures
            outcome == Ok::<(), FeishuError>(()),
    {
        Ok(())
    }

    /// Whether the capability is operational. A capability without a check
    /// of its own reports that it is.
    fn health_check(&self) -> (healthy: bool)
        default_ensures
            healthy,
    {
        true
    }
}

/// A boxed capability is a capability: the kernel can hold capabilities of
/// different kinds behind `Box<dyn Capability>`.
impl<C: Capability + ?Sized> Capability for Box<C> {
    /// The name that the boxed capability gives.
    fn name(&self) -> (name: &str)
        ensures
            call_ensures(C::name, (&**self,), name),
    {
        (**self).name()
    }

    /// What the boxed capability answers to `start`.
    fn start(&self) -> (outcome: Result<(), FeishuError>)
        ensures
            call_ensures(C::start, (&**self,), outcome),
    {
        (**self).start()
    }

    /// What the boxed capability answers to `stop`.
    fn stop(&self) -> (outcome: Result<(), FeishuError>)
        ensures
            call_ensures(C::stop, (&**self,), outcome),
    {
        (**self).stop()
    }

    /// What the boxed capability answers to `health_check`.
    fn health_check(&self) -> (healthy: bool)
        ensures
            call_ensures(C::health_check, (&**self,), healthy),
    {
        (**self).health_check()
    }
}

/// Port for obtaining the tenant access token.
pub trait AuthPort {
    /// A valid tenant access token, refreshed if needed.
    fn get_token(&self) -> Result<String, FeishuError>;

    /// Whether the current token is expired, as far as the port can tell.
    fn is_token_expired(&self) -> bool;
}

/// Port for querying the bot's identity and health.
pub trait BotInfoPort {
    /// The bot's own open id, where the platform reports one.
    fn get_bot_open_id(&self) -> Result<Option<String>, FeishuError>;

    /// Whether the bot API is reachable and the token valid.
    fn health_check(&self) -> bool;
}

/// Port for sending messages.
pub trait MessageSenderPort {
    /// Sends a text message to the given recipient.
    fn send_text(&self, chat_id: &str, content: &str) -> Result<(), FeishuError>;
}

/// What a listener hands back when listening has ended: the messages it
/// received, in the order in which they came, and how listening ended, with
/// the failure as text.
#[derive(Debug)]
pub struct Listened {
    pub messages: Vec<ChannelMessage>,
    pub result: Result<(), String>,
}

/// Port for receiving inbound events, over the push connection or a webhook.
pub trait EventListenerPort {
    /// Listens until the connection ends for good.
    fn listen(&self) -> Listened;
}

/// The error for a capability named `name` that failed to start for
/// `cause`: it names the capability and carries the cause's message.
pub open spec fn start_failure(name: Seq<char>, cause: ErrorView) -> ErrorView {
    ErrorView::CapabilityStartFailed(name + ": "@ + cause.message())
}

/// The error for a capability named `name` that failed to start for `cause`.
pub fn start_failure_of(name: &str, cause: &FeishuError) -> (error: FeishuError)
    ensures
        error@ == start_failure(name@, cause@),
{
    let text = cause.message();
    let prefix = join(name, ": ");
    let detail = join(prefix.as_str(), text.as_str());
    FeishuError::CapabilityStartFailed(detail)
}

/// Whether `outcome` is what starting a capability named `name` makes of the
/// answer `probe` of the port it stands on: success where the port
/// answered, whatever it answered, and else the start failure that names the
/// capability and carries the port's error.
pub open spec fn start_follows_probe<T>(
    name: Seq<char>,
    probe: Result<T, FeishuError>,
    outcome: Result<(), FeishuError>,
) -> bool {
    match probe {
        Ok(_) => outcome == Ok::<(), FeishuError>(()),
        Err(cause) => outcome is Err && outcome->Err_0@ == start_failure(name, cause@),
    }
}

/// The outcome of starting a capability that stands on a port, given what
/// the port's probe returned: success whatever the probe found, and on
/// failure an error that names the capability and carries the cause.
pub fn port_start_outcome<T>(name: &str, probe: Result<T, FeishuError>) -> (outcome: Result<
    (),
    FeishuError,
>)
    ensures
        probe is Ok ==> outcome is Ok,
        probe matches Err(cause) ==> (outcome matches Err(e) && e@ == start_failure(name@, cause@)),
        start_follows_probe(name@, probe, outcome),
{
    match probe {
        Ok(_) => Ok(()),
        Err(cause) => Err(start_failure_of(name, &cause)),
    }
}

/// The auth port as a capability. It starts by fetching a token, and is
/// healthy while a token can be fetched.
pub struct AuthCapability<P: AuthPort>(pub P);

impl<P: AuthPort> Capability for AuthCapability<P> {
    fn name(&self) -> (name: &str)
        ensures
            name@ == "auth"@,
    {
        "auth"
    }

    /// Fetches a token from the port: the capability has started when the
    /// port hands one out, and fails with the port's error otherwise.
    fn start(&self) -> (outcome: Result<(), FeishuError>)
        ensures
            exists|probe: Result<String, FeishuError>|
                call_ensures(P::get_token, (&self.0,), probe) && #[trigger] start_follows_probe(
                    "auth"@,
                    probe,
                    outcome,
                ),
            outcome matches Err(e) ==> exists|cause: ErrorView|
                e@ == start_failure("auth"@, cause),
    {
        let probe = self.0.get_token();
        let ghost answered = probe;
        let outcome = port_start_outcome("auth", probe);
        assert(start_follows_probe("auth"@, answered, outcome));
        outcome
    }

    /// Fetches a token from the port: the capability is healthy exactly when
    /// the port hands one out.
    fn health_check(&self) -> (healthy: bool)
        ensures
            exists|probe: Result<String, FeishuError>|
                #[trigger] call_ensures(P::get_token, (&self.0,), probe) && healthy == (probe is Ok),
    {
        let probe = self.0.get_token();
        probe.is_ok()
    }
}

/// The bot-identity port as a capability. It starts by resolving the bot's
/// identity, and is as healthy as the port says.
pub struct BotCapability<P: BotInfoPort>(pub P);

impl<P: BotInfoPort> Capability for BotCapability<P> {
    fn name(&self) -> (name: &str)
        ensures
            name@ == "bot"@,
    {
        "bot"
    }

    /// Resolves the bot's identity through the port: the capability has
    /// started when the port answers, with or without an identity, and fails
    /// with the port's error otherwise.
    fn start(&self) -> (outcome: Result<(), FeishuError>)
        ensures
            exists|probe: Result<Option<String>, FeishuError>|
                call_ensures(P::get_bot_open_id, (&self.0,), probe)
                    && #[trigger] start_follows_probe("bot"@, probe, outcome),
            outcome matches Err(e) ==> exists|cause: ErrorView|
                e@ == start_failure("bot"@, cause),
    {
        let probe = self.0.get_bot_open_id();
        let ghost answered = probe;
        let outcome = port_start_outcome("bot", probe);
        assert(start_follows_probe("bot"@, answered, outcome));
        outcome
    }

    /// Asks the port: the capability is as healthy as the port says.
    fn health_check(&self) -> (healthy: bool)
        ensures
            call_ensures(P::health_check, (&self.0,), healthy),
    {
        self.0.health_check()
    }
}

/// The messaging port as a capability. Sending keeps no state, so it has no
/// start or stop work and is always healthy.
pub struct ImCapability<P: MessageSenderPort>(pub P);

impl<P: MessageSenderPort> Capability for ImCapability<P> {
    fn name(&self) -> (name: &str)
        ensures
            name@ == "im"@,
    {
        "im"
    }

    fn health_check(&self) -> (healthy: bool)
        ensures
            healthy,
    {
        true
    }
}

} // verus!
