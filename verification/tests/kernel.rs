use std::cell::RefCell;
use std::rc::Rc;

use clawrs_feishu::capability::{
    port_start_outcome, AuthCapability, AuthPort, BotCapability, BotInfoPort, Capability,
    ImCapability, MessageSenderPort,
};
use clawrs_feishu::error::FeishuError;
use clawrs_feishu::event_bus::EventBus;
use clawrs_feishu::kernel::{overall_health, FeishuKernel, Progress};

struct MockCap {
    name: &'static str,
}

impl Capability for MockCap {
    fn name(&self) -> &str {
        self.name
    }
    fn health_check(&self) -> bool {
        true
    }
}

/// A capability that writes every call into a shared journal.
struct Scripted {
    name: &'static str,
    start_fails: bool,
    stop_fails: bool,
    healthy: bool,
    journal: Rc<RefCell<Vec<String>>>,
}

impl Capability for Scripted {
    fn name(&self) -> &str {
        self.name
    }
    fn start(&self) -> Result<(), FeishuError> {
        self.journal.borrow_mut().push(format!("start {}", self.name));
        if self.start_fails {
            Err(FeishuError::TokenFetchFailed("no network".into()))
        } else {
            Ok(())
        }
    }
    fn stop(&self) -> Result<(), FeishuError> {
        self.journal.borrow_mut().push(format!("stop {}", self.name));
        if self.stop_fails {
            Err(FeishuError::WebSocketDisconnected("gone".into()))
        } else {
            Ok(())
        }
    }
    fn health_check(&self) -> bool {
        self.journal.borrow_mut().push(format!("check {}", self.name));
        self.healthy
    }
}

fn scripted(
    journal: &Rc<RefCell<Vec<String>>>,
    name: &'static str,
    start_fails: bool,
    stop_fails: bool,
    healthy: bool,
) -> Scripted {
    Scripted { name, start_fails, stop_fails, healthy, journal: journal.clone() }
}

#[test]
fn kernel_register_and_start() {
    let bus = EventBus::default();
    let mut kernel = FeishuKernel::new(bus);
    kernel.register(MockCap { name: "auth" });
    kernel.register(MockCap { name: "im" });
    assert_eq!(kernel.capability_count(), 2);
    assert!(kernel.start_all().is_ok());
}

#[test]
fn kernel_health_check_all() {
    let bus = EventBus::default();
    let mut kernel = FeishuKernel::new(bus);
    kernel.register(MockCap { name: "auth" });
    let results = kernel.health_check_all();
    assert_eq!(results.len(), 1);
    assert_eq!(results[0], ("auth".into(), true));
}

#[test]
fn three_healthy_capabilities_report_three_entries() {
    let mut kernel = FeishuKernel::new(EventBus::default());
    kernel.register(MockCap { name: "auth" });
    kernel.register(MockCap { name: "bot" });
    kernel.register(MockCap { name: "im" });
    let report = kernel.health_check_all();
    assert_eq!(
        report,
        vec![("auth".to_string(), true), ("bot".to_string(), true), ("im".to_string(), true)]
    );
    assert!(overall_health(&report));
}

#[test]
fn start_stops_at_the_first_failure() {
    let journal = Rc::new(RefCell::new(Vec::new()));
    let mut kernel = FeishuKernel::new(EventBus::default());
    kernel.register(scripted(&journal, "one", false, false, true));
    kernel.register(scripted(&journal, "two", true, false, true));
    kernel.register(scripted(&journal, "three", false, false, true));
    let result = kernel.start_all();
    match result {
        Err(FeishuError::CapabilityStartFailed(detail)) => {
            assert_eq!(
                detail,
                "two: E-FEISHU-1001: failed to obtain tenant_access_token: no network"
            );
        }
        other => panic!("unexpected result: {:?}", other),
    }
    assert_eq!(*journal.borrow(), vec!["start one".to_string(), "start two".to_string()]);
}

#[test]
fn start_failure_at_the_first_capability() {
    let journal = Rc::new(RefCell::new(Vec::new()));
    let mut kernel = FeishuKernel::new(EventBus::default());
    kernel.register(scripted(&journal, "one", true, false, true));
    kernel.register(scripted(&journal, "two", false, false, true));
    assert!(kernel.start_all().is_err());
    assert_eq!(*journal.borrow(), vec!["start one".to_string()]);
}

#[test]
fn start_of_an_empty_kernel_succeeds() {
    let kernel: FeishuKernel<MockCap, EventBus> = FeishuKernel::new(EventBus::default());
    assert_eq!(kernel.capability_count(), 0);
    assert!(kernel.start_all().is_ok());
    assert!(kernel.stop_all().is_ok());
    assert!(kernel.health_check_all().is_empty());
    assert_eq!(kernel.begin_start(), Progress::Finished);
    assert_eq!(kernel.begin_stop(), Progress::Finished);
    assert_eq!(kernel.begin_health_check(), Progress::Finished);
}

#[test]
fn stop_visits_everyone_in_reverse_despite_failures() {
    let journal = Rc::new(RefCell::new(Vec::new()));
    let mut kernel = FeishuKernel::new(EventBus::default());
    kernel.register(scripted(&journal, "one", false, true, true));
    kernel.register(scripted(&journal, "two", false, false, true));
    kernel.register(scripted(&journal, "three", false, true, true));
    assert!(kernel.stop_all().is_ok());
    assert_eq!(
        *journal.borrow(),
        vec!["stop three".to_string(), "stop two".to_string(), "stop one".to_string()]
    );
}

#[test]
fn health_check_visits_everyone_in_order() {
    let journal = Rc::new(RefCell::new(Vec::new()));
    let mut kernel = FeishuKernel::new(EventBus::default());
    kernel.register(scripted(&journal, "one", false, false, false));
    kernel.register(scripted(&journal, "two", false, false, true));
    kernel.register(scripted(&journal, "three", false, false, false));
    let report = kernel.health_check_all();
    assert_eq!(
        report,
        vec![("one".to_string(), false), ("two".to_string(), true), ("three".to_string(), false)]
    );
    assert!(!overall_health(&report));
    assert_eq!(
        *journal.borrow(),
        vec!["check one".to_string(), "check two".to_string(), "check three".to_string()]
    );
}

#[test]
fn overall_health_is_the_logical_and() {
    assert!(overall_health(&vec![]));
    assert!(overall_health(&vec![("a".to_string(), true)]));
    assert!(!overall_health(&vec![("a".to_string(), true), ("b".to_string(), false)]));
    assert!(!overall_health(&vec![("a".to_string(), false), ("b".to_string(), true)]));
}

#[test]
fn lifecycle_decisions_step_by_step() {
    let mut kernel = FeishuKernel::new(EventBus::new(8));
    kernel.register_named("auth".to_string(), 1u8);
    kernel.register_named("bot".to_string(), 2u8);
    kernel.register_named("im".to_string(), 3u8);
    assert_eq!(kernel.capability_count(), 3);
    assert_eq!(kernel.capability_name(1), "bot");
    assert_eq!(*kernel.capability(2), 3u8);
    assert_eq!(kernel.event_bus().capacity(), 8);

    assert_eq!(kernel.begin_start(), Progress::Next(0));
    assert_eq!(kernel.after_start(0, Ok(())).unwrap(), Progress::Next(1));
    assert_eq!(kernel.after_start(1, Ok(())).unwrap(), Progress::Next(2));
    assert_eq!(kernel.after_start(2, Ok(())).unwrap(), Progress::Finished);
    match kernel.after_start(1, Err(FeishuError::BotInfoFetchFailed("down".into()))) {
        Err(FeishuError::CapabilityStartFailed(detail)) => {
            assert_eq!(detail, "bot: E-FEISHU-4501: bot info fetch failed: down");
        }
        other => panic!("unexpected step: {:?}", other),
    }

    assert_eq!(kernel.begin_stop(), Progress::Next(2));
    let failed = Err(FeishuError::WebSocketDisconnected("x".into()));
    assert_eq!(kernel.after_stop(2, &failed), Progress::Next(1));
    assert_eq!(kernel.after_stop(1, &Ok(())), Progress::Next(0));
    assert_eq!(kernel.after_stop(0, &failed), Progress::Finished);

    let mut report = Vec::new();
    assert_eq!(kernel.begin_health_check(), Progress::Next(0));
    assert_eq!(kernel.after_health_check(0, true, &mut report), Progress::Next(1));
    assert_eq!(kernel.after_health_check(1, false, &mut report), Progress::Next(2));
    assert_eq!(kernel.after_health_check(2, true, &mut report), Progress::Finished);
    assert_eq!(
        report,
        vec![("auth".to_string(), true), ("bot".to_string(), false), ("im".to_string(), true)]
    );
}

struct FakeAuth {
    works: bool,
}

impl AuthPort for FakeAuth {
    fn get_token(&self) -> Result<String, FeishuError> {
        if self.works {
            Ok("fake_token".into())
        } else {
            Err(FeishuError::TokenFetchFailed("denied".into()))
        }
    }
    fn is_token_expired(&self) -> bool {
        false
    }
}

struct FakeBotInfo {
    works: bool,
}

impl BotInfoPort for FakeBotInfo {
    fn get_bot_open_id(&self) -> Result<Option<String>, FeishuError> {
        if self.works {
            Ok(Some("ou_fake_bot".into()))
        } else {
            Err(FeishuError::BotInfoFetchFailed("unreachable".into()))
        }
    }
    fn health_check(&self) -> bool {
        self.works
    }
}

struct FakeSender;

impl MessageSenderPort for FakeSender {
    fn send_text(&self, _: &str, _: &str) -> Result<(), FeishuError> {
        Ok(())
    }
}

#[test]
fn port_capabilities_have_fixed_names() {
    assert_eq!(AuthCapability(FakeAuth { works: true }).name(), "auth");
    assert_eq!(BotCapability(FakeBotInfo { works: true }).name(), "bot");
    assert_eq!(ImCapability(FakeSender).name(), "im");
}

#[test]
fn auth_capability_follows_the_port() {
    let good = AuthCapability(FakeAuth { works: true });
    assert!(good.start().is_ok());
    assert!(good.health_check());
    assert!(good.stop().is_ok());
    let bad = AuthCapability(FakeAuth { works: false });
    assert!(!bad.health_check());
    match bad.start() {
        Err(FeishuError::CapabilityStartFailed(detail)) => {
            assert_eq!(
                detail,
                "auth: E-FEISHU-1001: failed to obtain tenant_access_token: denied"
            );
        }
        other => panic!("unexpected outcome: {:?}", other),
    }
}

#[test]
fn bot_capability_follows_the_port() {
    let good = BotCapability(FakeBotInfo { works: true });
    assert!(good.start().is_ok());
    assert!(good.health_check());
    let bad = BotCapability(FakeBotInfo { works: false });
    assert!(!bad.health_check());
    match bad.start() {
        Err(FeishuError::CapabilityStartFailed(detail)) => {
            assert_eq!(detail, "bot: E-FEISHU-4501: bot info fetch failed: unreachable");
        }
        other => panic!("unexpected outcome: {:?}", other),
    }
}

#[test]
fn im_capability_is_always_healthy() {
    let im = ImCapability(FakeSender);
    assert!(im.start().is_ok());
    assert!(im.stop().is_ok());
    assert!(im.health_check());
}

#[test]
fn port_start_outcome_names_the_capability() {
    assert!(port_start_outcome("auth", Ok::<u8, FeishuError>(7)).is_ok());
    match port_start_outcome::<u8>("im", Err(FeishuError::WebhookSignatureFailed)) {
        Err(FeishuError::CapabilityStartFailed(detail)) => {
            assert_eq!(detail, "im: E-FEISHU-4002: webhook signature verification failed");
        }
        other => panic!("unexpected outcome: {:?}", other),
    }
}

#[test]
fn kernel_start_all_with_fakes() {
    let mut kernel = FeishuKernel::new(EventBus::default());
    kernel.register(AuthCapability(FakeAuth { works: true }));
    assert!(kernel.start_all().is_ok());
    let mut failing = FeishuKernel::new(EventBus::default());
    failing.register(AuthCapability(FakeAuth { works: false }));
    assert!(failing.start_all().is_err());
}

fn boxed_kernel(auth_works: bool, bot_works: bool) -> FeishuKernel<Box<dyn Capability>, EventBus> {
    let mut kernel: FeishuKernel<Box<dyn Capability>, EventBus> =
        FeishuKernel::new(EventBus::default());
    kernel.register(Box::new(AuthCapability(FakeAuth { works: auth_works })));
    kernel.register(Box::new(BotCapability(FakeBotInfo { works: bot_works })));
    kernel.register(Box::new(ImCapability(FakeSender)));
    kernel
}

#[test]
fn health_check_via_kernel() {
    let svc = clawrs_feishu::channel::FeishuChannelService::new(
        kernel_test_config(),
        clawrs_feishu::guard::SecurityGuard::new(vec!["*".into()]),
        boxed_kernel(true, true),
    );
    assert!(svc.health_check());
    assert_eq!(svc.kernel().capability_count(), 3);
}

#[test]
fn one_unhealthy_capability_makes_the_channel_unhealthy() {
    let svc = clawrs_feishu::channel::FeishuChannelService::new(
        kernel_test_config(),
        clawrs_feishu::guard::SecurityGuard::new(vec!["*".into()]),
        boxed_kernel(true, false),
    );
    assert!(!svc.health_check());
    assert_eq!(
        svc.kernel().health_check_all(),
        vec![("auth".to_string(), true), ("bot".to_string(), false), ("im".to_string(), true)]
    );
}

#[test]
fn kernel_of_mixed_capabilities_fails_fast() {
    let kernel = boxed_kernel(true, false);
    match kernel.start_all() {
        Err(FeishuError::CapabilityStartFailed(detail)) => {
            assert_eq!(
                detail,
                "bot: E-FEISHU-5001: capability start failed: \
                 bot: E-FEISHU-4501: bot info fetch failed: unreachable"
            );
        }
        other => panic!("unexpected result: {:?}", other),
    }
    assert!(boxed_kernel(true, true).start_all().is_ok());
    assert!(kernel.stop_all().is_ok());
}

fn kernel_test_config() -> clawrs_feishu::config::FeishuConfig {
    clawrs_feishu::config::FeishuConfig {
        app_id: "test".into(),
        app_secret: "secret".into(),
        domain: clawrs_feishu::config::FeishuDomain::default(),
        connection_mode: clawrs_feishu::config::FeishuConnectionMode::default(),
        allowed_users: vec!["*".into()],
        dm_policy: None,
        group_policy: None,
        allow_from: None,
        group_allow_from: vec![],
        group_require_mention: true,
        encrypt_key: None,
        verification_token: None,
        webhook_port: None,
    }
}

#[test]
fn capabilities_are_registered_under_the_names_they_give() {
    let kernel = boxed_kernel(true, true);
    assert_eq!(kernel.capability_name(0), "auth");
    assert_eq!(kernel.capability_name(1), "bot");
    assert_eq!(kernel.capability_name(2), "im");
    let mut plain = FeishuKernel::new(EventBus::default());
    plain.register(MockCap { name: "docs" });
    plain.register(MockCap { name: "" });
    assert_eq!(plain.capability_name(0), "docs");
    assert_eq!(plain.capability_name(1), "");
}
