//! The composition root: one place where configuration, guard, kernel and
//! capabilities are wired together.

use vstd::prelude::*;
use crate::channel::FeishuChannelService;
use crate::config::FeishuConfig;
use crate::guard::guard_of;
use crate::kernel::FeishuKernel;

verus! {

/// The names of the capabilities that every channel runs, in the order in
/// which they are registered and started.
pub open spec fn standard_capabilities() -> Seq<Seq<char>> {
    seq!["auth"@, "bot"@, "im"@]
}

/// Wires a channel: the guard enforces the allowlists and policies that the
/// configuration puts in force, and the kernel holds the three capabilities,
/// auth first, then bot, then messaging, around the given event bus.
pub fn create_channel<C, B>(config: FeishuConfig, event_bus: B, auth: C, bot: C, im: C) -> (service:
    FeishuChannelService<C, B>)
    ensures
        service.spec_config() == config@,
        service.spec_security() == guard_of(
            config@.dm_allowlist(),
            Some(config@.effective_dm_policy()),
            config@.group_allow_from,
            Some(config@.effective_group_policy()),
        ),
        service.spec_kernel().names() == standard_capabilities(),
        service.spec_kernel().capabilities() == seq![auth, bot, im],
        service.spec_kernel().bus() == event_bus,
{
    let security = config.security_guard();
    let mut kernel = FeishuKernel::new(event_bus);
    kernel.register_named("auth".to_string(), auth);
    kernel.register_named("bot".to_string(), bot);
    kernel.register_named("im".to_string(), im);
    assert(kernel.names() =~= standard_capabilities());
    assert(kernel.capabilities() =~= seq![auth, bot, im]);
    FeishuChannelService::new(config, security, kernel)
}

} // verus!
