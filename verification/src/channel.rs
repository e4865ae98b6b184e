//! The channel service: one guard, one kernel and the configuration, and
//! the decisions of the send, listen and health-check surface.

use vstd::prelude::*;
use crate::capability::{BotInfoPort, Capability, EventListenerPort, Listened};
use crate::config::{ConfigView, FeishuConfig};
use crate::error::FeishuError;
use crate::filter::{forward_survivors, FilterParams, FilterView};
use crate::guard::{GuardView, SecurityGuard};
use crate::kernel::{
    all_healthy, answered_by, health_report, overall_health, report_view, FeishuKernel,
};
use crate::model::message_views;
use crate::text::optional_text;

verus! {

/// The name under which this channel is known.
pub open spec fn channel_name() -> Seq<char> {
    "feishu"@
}

/// How listening ended, with the failure as plain text.
pub open spec fn listen_result_view(result: Result<(), String>) -> Result<(), Seq<char>> {
    match result {
        Ok(_) => Ok(()),
        Err(text) => Err(text@),
    }
}

/// Whether `heard` is what the service hands on of what the listener handed
/// back: the listener's messages that pass `filter`, in the listener's
/// order, and the listener's result as it is, success or failure.
pub open spec fn heard_through(filter: FilterView, listened: Listened, heard: Listened) -> bool {
    &&& message_views(heard.messages@) == filter.survivors(message_views(listened.messages@))
    &&& listen_result_view(heard.result) == listen_result_view(listened.result)
}

/// The bot identity to filter with, given what the lookup returned: a
/// failed lookup is an unknown identity, not an error.
pub open spec fn resolved_bot_id(lookup: Result<Option<String>, FeishuError>) -> Option<Seq<char>> {
    match lookup {
        Ok(id) => optional_text(id),
        Err(_) => None,
    }
}

/// The outcome of a send, given what the messaging port returned: the
/// port's failure is surfaced as the error's text.
pub fn send_outcome(sent: Result<(), FeishuError>) -> (outcome: Result<(), String>)
    ensures
        sent is Ok ==> outcome is Ok,
        sent matches Err(e) ==> outcome matches Err(text) && text@ == e@.message(),
{
    match sent {
        Ok(_) => Ok(()),
        Err(e) => Err(e.message()),
    }
}

/// The channel service.
pub struct FeishuChannelService<C, B> {
    config: FeishuConfig,
    security: SecurityGuard,
    kernel: FeishuKernel<C, B>,
}

impl<C, B> FeishuChannelService<C, B> {
    /// The service's configuration.
    pub closed spec fn spec_config(self) -> ConfigView {
        self.config@
    }

    /// The service's guard.
    pub closed spec fn spec_security(self) -> GuardView {
        self.security@
    }

    /// The service's kernel.
    pub closed spec fn spec_kernel(self) -> FeishuKernel<C, B> {
        self.kernel
    }

    /// A service from its parts.
    pub fn new(config: FeishuConfig, security: SecurityGuard, kernel: FeishuKernel<C, B>) -> (service:
        FeishuChannelService<C, B>)
        ensures
            service.spec_config() == config@,
            service.spec_security() == security@,
            service.spec_kernel() == kernel,
    {
        FeishuChannelService { config, security, kernel }
    }

    /// The guard that gates inbound messages.
    pub fn security(&self) -> (guard: &SecurityGuard)
        ensures
            guard@ == self.spec_security(),
    {
        &self.security
    }

    /// The configuration.
    pub fn config(&self) -> (config: &FeishuConfig)
        ensures
            config@ == self.spec_config(),
    {
        &self.config
    }

    /// The kernel.
    pub fn kernel(&self) -> (kernel: &FeishuKernel<C, B>)
        ensures
            *kernel == self.spec_kernel(),
    {
        &self.kernel
    }

    /// The channel's name.
    pub fn name(&self) -> (name: &'static str)
        ensures
            name@ == channel_name(),
    {
        "feishu"
    }

    /// The filter of a listen session in which the lookup of the bot's
    /// identity returned `bot_lookup`.
    pub open spec fn session_filter(self, bot_lookup: Result<Option<String>, FeishuError>) -> FilterView {
        FilterView {
            security: self.spec_security(),
            bot_open_id: resolved_bot_id(bot_lookup),
            group_require_mention: self.spec_config().group_require_mention,
        }
    }

    /// The filter for one listen session, given what the lookup of the
    /// bot's identity returned. A failed lookup leaves the identity unknown,
    /// so that group messages are not gated by mention.
    pub fn filter_params(&self, bot_lookup: Result<Option<String>, FeishuError>) -> (params:
        FilterParams)
        ensures
            params@ == self.session_filter(bot_lookup),
    {
        let bot_open_id = match bot_lookup {
            Ok(id) => id,
            Err(_) => None,
        };
        FilterParams {
            security: self.security.clone(),
            bot_open_id,
            group_require_mention: self.config.group_require_mention,
        }
    }
}

impl<C, B> FeishuChannelService<C, B> {
    /// Listens through the injected listener, whatever the connection mode,
    /// and hands on what passes the filter.
    ///
    /// The bot's identity is looked up once, before listening; a failed
    /// lookup is no failure of `listen`. The listener is then asked once.
    /// Its messages are filtered in the order in which it received them, and
    /// its result is handed on unchanged: there is no retry at this level.
    pub fn listen<P: BotInfoPort, L: EventListenerPort>(&self, bot_info: &P, events: &L) -> (heard:
        Listened)
        ensures
            exists|bot_lookup: Result<Option<String>, FeishuError>, listened: Listened|
                call_ensures(P::get_bot_open_id, (bot_info,), bot_lookup) && call_ensures(
                    L::listen,
                    (events,),
                    listened,
                ) && #[trigger] heard_through(self.session_filter(bot_lookup), listened, heard),
    {
        let bot_lookup = bot_info.get_bot_open_id();
        let ghost looked_up = bot_lookup;
        let params = self.filter_params(bot_lookup);
        let listened = events.listen();
        let ghost handed_back = listened;
        let heard = Listened {
            messages: forward_survivors(listened.messages, &params),
            result: listened.result,
        };
        assert(heard_through(self.session_filter(looked_up), handed_back, heard));
        heard
    }
}

impl<C: Capability, B> FeishuChannelService<C, B> {
    /// Whether every capability of the kernel reports that it is healthy:
    /// the logical AND of the answers that the kernel's capabilities give to
    /// a health check. What they answer is theirs to decide; a kernel
    /// without capabilities is healthy.
    pub fn health_check(&self) -> (healthy: bool)
        ensures
            exists|answers: Seq<bool>|
                #[trigger] answered_by(self.spec_kernel().capabilities(), answers) && healthy
                    == all_healthy(health_report(self.spec_kernel().names(), answers)),
            self.spec_kernel().names().len() == 0 ==> healthy,
    {
        let report = self.kernel.health_check_all();
        let healthy = overall_health(&report);
        proof {
            let answers = choose|answers: Seq<bool>|
                answers.len() == self.kernel.names().len() && answered_by(
                    self.kernel.capabilities(),
                    answers,
                ) && report_view(report@) == #[trigger] health_report(self.kernel.names(), answers);
            assert(answered_by(self.spec_kernel().capabilities(), answers));
            assert(healthy == all_healthy(health_report(self.spec_kernel().names(), answers)));
        }
        healthy
    }
}

} // verus!
