use clawrs_feishu::capability::{BotInfoPort, EventListenerPort, Listened};
use clawrs_feishu::channel::{send_outcome, FeishuChannelService};
use clawrs_feishu::config::{FeishuConfig, FeishuConnectionMode, FeishuDomain};
use clawrs_feishu::error::FeishuError;
use clawrs_feishu::event_bus::EventBus;
use clawrs_feishu::filter::{
    filter_verdict, forward_survivors, should_forward_message, FilterParams, FilterVerdict,
};
use clawrs_feishu::guard::SecurityGuard;
use clawrs_feishu::kernel::FeishuKernel;
use clawrs_feishu::model::ChannelMessage;
use clawrs_feishu::policy::{DmPolicy, GroupPolicy};

fn message(id: &str, sender: &str, chat_type: Option<&str>, mentions: &[&str]) -> ChannelMessage {
    ChannelMessage {
        id: id.into(),
        sender: sender.into(),
        content: "hello".into(),
        channel: "feishu".into(),
        timestamp: 0,
        chat_type: chat_type.map(|s| s.to_string()),
        mentioned_open_ids: mentions.iter().map(|s| s.to_string()).collect(),
    }
}

fn params(guard: SecurityGuard, bot: Option<&str>, require_mention: bool) -> FilterParams {
    FilterParams {
        security: guard,
        bot_open_id: bot.map(|s| s.to_string()),
        group_require_mention: require_mention,
    }
}

fn group_guard() -> SecurityGuard {
    SecurityGuard::with_policies(
        vec![],
        Some(DmPolicy::Deny),
        vec!["ou_member".into()],
        Some(GroupPolicy::Allowlist),
    )
}

fn test_config() -> FeishuConfig {
    FeishuConfig {
        app_id: "test".into(),
        app_secret: "secret".into(),
        domain: FeishuDomain::default(),
        connection_mode: FeishuConnectionMode::default(),
        allowed_users: vec!["*".into()],
        dm_policy: None,
        group_policy: None,
        allow_from: None,
        group_allow_from: vec![],
        group_require_mention: true,
        encrypt_key: None,
        verification_token: None,
        webhook_port: None,
    }
}

fn test_service() -> FeishuChannelService<u8, EventBus> {
    let security = SecurityGuard::new(vec!["*".into()]);
    let mut kernel = FeishuKernel::new(EventBus::default());
    kernel.register_named("auth".into(), 0);
    kernel.register_named("bot".into(), 1);
    kernel.register_named("im".into(), 2);
    FeishuChannelService::new(test_config(), security, kernel)
}

#[test]
fn group_message_from_unauthorized_sender_is_dropped_even_when_bot_is_mentioned() {
    let filter = params(group_guard(), Some("ou_bot"), true);
    let msg = message("m", "ou_stranger", Some("group"), &["ou_bot"]);
    assert!(!should_forward_message(&msg, &filter));
    let relaxed = params(group_guard(), Some("ou_bot"), false);
    assert!(!should_forward_message(&msg, &relaxed));
}

#[test]
fn group_message_without_required_mention_is_dropped() {
    let filter = params(group_guard(), Some("ou_bot"), true);
    let silent = message("m", "ou_member", Some("group"), &[]);
    assert!(!should_forward_message(&silent, &filter));
    let other = message("m", "ou_member", Some("group"), &["ou_bot_2", "ou_bo"]);
    assert!(!should_forward_message(&other, &filter));
    let addressed = message("m", "ou_member", Some("group"), &["ou_x", "ou_bot"]);
    assert!(should_forward_message(&addressed, &filter));
}

#[test]
fn group_message_passes_when_mention_is_not_required() {
    let filter = params(group_guard(), Some("ou_bot"), false);
    let silent = message("m", "ou_member", Some("group"), &[]);
    assert!(should_forward_message(&silent, &filter));
}

#[test]
fn unknown_bot_identity_skips_mention_gating() {
    let filter = params(group_guard(), None, true);
    let silent = message("m", "ou_member", Some("group"), &[]);
    assert!(should_forward_message(&silent, &filter));
    let stranger = message("m", "ou_stranger", Some("group"), &[]);
    assert!(!should_forward_message(&stranger, &filter));
}

#[test]
fn direct_and_unknown_kinds_go_by_the_dm_policy() {
    let guard = SecurityGuard::with_policies(
        vec!["ou_friend".into()],
        Some(DmPolicy::Pairing),
        vec![],
        Some(GroupPolicy::Deny),
    );
    let filter = params(guard, Some("ou_bot"), true);
    assert!(should_forward_message(&message("m", "ou_friend", Some("p2p"), &[]), &filter));
    assert!(should_forward_message(&message("m", "ou_friend", None, &[]), &filter));
    assert!(should_forward_message(&message("m", "ou_friend", Some("Group"), &[]), &filter));
    assert!(!should_forward_message(&message("m", "ou_friend", Some("group"), &["ou_bot"]), &filter));
    assert!(!should_forward_message(&message("m", "ou_other", Some("p2p"), &[]), &filter));
    assert!(!should_forward_message(&message("m", "", Some("p2p"), &[]), &filter));
}

#[test]
fn filter_params_clone_decides_alike() {
    let filter = params(group_guard(), Some("ou_bot"), true);
    let copy = filter.clone();
    assert_eq!(copy.bot_open_id.as_deref(), Some("ou_bot"));
    assert!(copy.group_require_mention);
    let addressed = message("m", "ou_member", Some("group"), &["ou_bot"]);
    assert!(should_forward_message(&addressed, &copy));
    assert!(!copy.security.is_dm_allowed("ou_member"));
}

struct FakeBotInfo;

impl BotInfoPort for FakeBotInfo {
    fn get_bot_open_id(&self) -> Result<Option<String>, FeishuError> {
        Ok(Some("ou_fake_bot".into()))
    }
    fn health_check(&self) -> bool {
        true
    }
}

struct LostBotInfo;

impl BotInfoPort for LostBotInfo {
    fn get_bot_open_id(&self) -> Result<Option<String>, FeishuError> {
        Err(FeishuError::BotInfoFetchFailed("unreachable".into()))
    }
    fn health_check(&self) -> bool {
        false
    }
}

struct FakeEvents;

impl EventListenerPort for FakeEvents {
    fn listen(&self) -> Listened {
        Listened { messages: vec![], result: Ok(()) }
    }
}

/// A listener that hands back the given senders' messages and ends as told.
struct ScriptedEvents {
    inbound: Vec<(&'static str, &'static str, Option<&'static str>)>,
    failure: Option<&'static str>,
}

impl EventListenerPort for ScriptedEvents {
    fn listen(&self) -> Listened {
        Listened {
            messages: self
                .inbound
                .iter()
                .map(|(id, sender, chat_type)| message(id, sender, *chat_type, &[]))
                .collect(),
            result: match self.failure {
                Some(text) => Err(text.to_string()),
                None => Ok(()),
            },
        }
    }
}

#[test]
fn listen_filters_unauthorized_user() {
    let security = SecurityGuard::new(vec!["ou_allowed".into()]);
    let kernel: FeishuKernel<u8, EventBus> = FeishuKernel::new(EventBus::default());
    let mut config = test_config();
    config.allowed_users = vec!["ou_allowed".into()];
    let svc = FeishuChannelService::new(config, security, kernel);

    struct FilterTestEvents;
    impl EventListenerPort for FilterTestEvents {
        fn listen(&self) -> Listened {
            Listened {
                messages: vec![
                    ChannelMessage {
                        id: "m1".into(),
                        sender: "ou_allowed".into(),
                        content: "hello".into(),
                        channel: "feishu".into(),
                        timestamp: 0,
                        chat_type: Some("p2p".into()),
                        mentioned_open_ids: vec![],
                    },
                    ChannelMessage {
                        id: "m2".into(),
                        sender: "ou_blocked".into(),
                        content: "blocked".into(),
                        channel: "feishu".into(),
                        timestamp: 0,
                        chat_type: Some("p2p".into()),
                        mentioned_open_ids: vec![],
                    },
                ],
                result: Ok(()),
            }
        }
    }

    let heard = svc.listen(&FakeBotInfo, &FilterTestEvents);
    heard.result.unwrap();
    let mut rx = heard.messages.into_iter();

    let msg = rx.next().unwrap();
    assert_eq!(msg.sender, "ou_allowed");
    assert!(rx.next().is_none());
}

#[test]
fn survivors_keep_their_order() {
    let guard = SecurityGuard::new(vec!["ou_a".into(), "ou_b".into()]);
    let filter = params(guard, None, true);
    let inbound = vec![
        message("1", "ou_b", Some("p2p"), &[]),
        message("2", "ou_x", Some("p2p"), &[]),
        message("3", "ou_a", None, &[]),
        message("4", "", Some("p2p"), &[]),
        message("5", "ou_b", Some("p2p"), &[]),
    ];
    let ids: Vec<String> = forward_survivors(inbound, &filter).into_iter().map(|m| m.id).collect();
    assert_eq!(ids, vec!["1".to_string(), "3".to_string(), "5".to_string()]);
    assert!(forward_survivors(vec![], &filter).is_empty());
}

#[test]
fn channel_name_is_feishu() {
    let svc = test_service();
    assert_eq!(svc.name(), "feishu");
}

#[test]
fn security_guard_exposed() {
    let svc = test_service();
    assert!(svc.security().is_user_allowed("anyone"));
}

#[test]
fn service_exposes_its_parts() {
    let svc = test_service();
    assert_eq!(svc.kernel().capability_count(), 3);
    assert_eq!(svc.config().app_id, "test");
    assert!(svc.config().group_require_mention);
}

#[test]
fn listen_hands_on_the_listeners_result_in_either_mode() {
    for mode in [FeishuConnectionMode::WebSocket, FeishuConnectionMode::Webhook] {
        let mut config = test_config();
        config.connection_mode = mode;
        let kernel: FeishuKernel<u8, EventBus> = FeishuKernel::new(EventBus::default());
        let svc = FeishuChannelService::new(config, SecurityGuard::new(vec!["*".into()]), kernel);

        let fine = ScriptedEvents { inbound: vec![("1", "ou_a", Some("p2p"))], failure: None };
        let heard = svc.listen(&FakeBotInfo, &fine);
        assert_eq!(heard.result, Ok(()));
        assert_eq!(heard.messages.len(), 1);

        let broken = ScriptedEvents {
            inbound: vec![("1", "ou_a", Some("p2p")), ("2", "ou_b", None)],
            failure: Some("WebSocket: exceeded max reconnect attempts"),
        };
        let heard = svc.listen(&FakeBotInfo, &broken);
        assert_eq!(heard.result, Err("WebSocket: exceeded max reconnect attempts".to_string()));
        let ids: Vec<String> = heard.messages.into_iter().map(|m| m.id).collect();
        assert_eq!(ids, vec!["1".to_string(), "2".to_string()]);
    }
}

#[test]
fn listen_with_a_failed_bot_lookup_skips_mention_gating() {
    let kernel: FeishuKernel<u8, EventBus> = FeishuKernel::new(EventBus::default());
    let svc = FeishuChannelService::new(test_config(), SecurityGuard::new(vec!["*".into()]), kernel);
    let group = ScriptedEvents {
        inbound: vec![("1", "ou_a", Some("group")), ("2", "ou_b", Some("p2p"))],
        failure: None,
    };
    let with_identity = svc.listen(&FakeBotInfo, &group);
    let ids: Vec<String> = with_identity.messages.into_iter().map(|m| m.id).collect();
    assert_eq!(ids, vec!["2".to_string()]);
    let without_identity = svc.listen(&LostBotInfo, &group);
    assert_eq!(without_identity.result, Ok(()));
    let ids: Vec<String> = without_identity.messages.into_iter().map(|m| m.id).collect();
    assert_eq!(ids, vec!["1".to_string(), "2".to_string()]);
}

#[test]
fn verdicts_say_why_a_message_is_dropped() {
    let filter = params(group_guard(), Some("ou_bot"), true);
    let cases = [
        (message("m", "ou_member", Some("group"), &["ou_bot"]), FilterVerdict::Forward),
        (message("m", "ou_member", Some("group"), &[]), FilterVerdict::BotNotMentioned),
        (message("m", "ou_stranger", Some("group"), &[]), FilterVerdict::UnauthorizedGroupSender),
        (
            message("m", "ou_stranger", Some("group"), &["ou_bot"]),
            FilterVerdict::UnauthorizedGroupSender,
        ),
        (message("m", "", Some("group"), &["ou_bot"]), FilterVerdict::UnauthorizedGroupSender),
        (message("m", "ou_member", Some("p2p"), &[]), FilterVerdict::UnauthorizedDirectSender),
        (message("m", "ou_member", None, &["ou_bot"]), FilterVerdict::UnauthorizedDirectSender),
    ];
    for (msg, expected) in cases {
        assert_eq!(filter_verdict(&msg, &filter), expected);
        assert_eq!(should_forward_message(&msg, &filter), expected == FilterVerdict::Forward);
    }
    let open = params(SecurityGuard::new(vec!["*".into()]), None, true);
    assert_eq!(
        filter_verdict(&message("m", "ou_x", Some("group"), &[]), &open),
        FilterVerdict::Forward
    );
    assert_eq!(filter_verdict(&message("m", "ou_x", Some("p2p"), &[]), &open), FilterVerdict::Forward);
}

#[test]
fn failed_bot_lookup_leaves_the_identity_unknown() {
    let svc = test_service();
    let known = svc.filter_params(Ok(Some("ou_bot".into())));
    assert_eq!(known.bot_open_id.as_deref(), Some("ou_bot"));
    assert!(known.group_require_mention);
    let absent = svc.filter_params(Ok(None));
    assert_eq!(absent.bot_open_id, None);
    let failed = svc.filter_params(Err(FeishuError::BotInfoFetchFailed("down".into())));
    assert_eq!(failed.bot_open_id, None);
    let silent = message("m", "ou_anyone", Some("group"), &[]);
    assert!(should_forward_message(&silent, &failed));
    assert!(!should_forward_message(&silent, &known));
}

#[test]
fn send_succeeds_with_fake_ports() {
    assert!(send_outcome(Ok(())).is_ok());
}

#[test]
fn send_failure_is_surfaced_as_text() {
    let outcome = send_outcome(Err(FeishuError::MessageSendFailed("rate limited".into())));
    assert_eq!(outcome.unwrap_err(), "E-FEISHU-3001: message send failed: rate limited");
}

#[test]
fn composed_channel_registers_auth_bot_im() {
    let mut config = test_config();
    config.allowed_users = vec!["ou_old".into()];
    config.allow_from = Some(vec!["ou_new".into()]);
    config.group_policy = Some(GroupPolicy::Deny);
    let svc = clawrs_feishu::compose::create_channel(config, EventBus::new(3), 'a', 'b', 'i');
    let kernel = svc.kernel();
    assert_eq!(kernel.capability_count(), 3);
    assert_eq!(kernel.capability_name(0), "auth");
    assert_eq!(kernel.capability_name(1), "bot");
    assert_eq!(kernel.capability_name(2), "im");
    assert_eq!(
        (*kernel.capability(0), *kernel.capability(1), *kernel.capability(2)),
        ('a', 'b', 'i')
    );
    assert_eq!(kernel.event_bus().capacity(), 3);
    assert!(svc.security().is_dm_allowed("ou_new"));
    assert!(!svc.security().is_dm_allowed("ou_old"));
    assert!(!svc.security().is_group_allowed("ou_new"));
    assert_eq!(svc.config().app_id, "test");
}

#[test]
fn listen_succeeds_with_fake_events() {
    let svc = test_service();
    let heard = svc.listen(&FakeBotInfo, &FakeEvents);
    assert!(heard.result.is_ok());
    assert!(heard.messages.is_empty());
}
