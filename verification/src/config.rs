//! Channel configuration: immutable values supplied once at construction.

use vstd::prelude::*;
use crate::guard::{guard_of, SecurityGuard};
use crate::policy::{
    derived_dm_policy, dm_policy_named, group_policy_named, parse_dm_policy, parse_group_policy,
    DmPolicy, GroupPolicy,
};
use crate::text::{
    copy_optional_text, copy_texts, lowercased, optional_text, optional_texts, str_eq, texts,
    to_lowercase,
};

verus! {

/// The platform's API domain: China or international.
#[derive(Debug, Clone, Copy, PartialEq, Eq, Structural)]
pub enum FeishuDomain {
    Feishu,
    Lark,
}

impl Default for FeishuDomain {
    fn default() -> (domain: FeishuDomain)
        ensures
            domain == FeishuDomain::Feishu,
    {
        FeishuDomain::Feishu
    }
}

impl FeishuDomain {
    /// The base URL of the open platform in this domain.
    pub open spec fn base_url_text(self) -> Seq<char> {
        match self {
            FeishuDomain::Feishu => "https://open.feishu.cn"@,
            FeishuDomain::Lark => "https://open.larksuite.com"@,
        }
    }

    /// The base URL of the open platform in this domain.
    pub fn base_url(&self) -> (url: &'static str)
        ensures
            url@ == self.base_url_text(),
    {
        match self {
            FeishuDomain::Feishu => "https://open.feishu.cn",
            FeishuDomain::Lark => "https://open.larksuite.com",
        }
    }

    /// The domain that a lower-case keyword names: `lark`, or else Feishu.
    pub open spec fn named(keyword: Seq<char>) -> FeishuDomain {
        if keyword == "lark"@ {
            FeishuDomain::Lark
        } else {
            FeishuDomain::Feishu
        }
    }

    /// The domain that a keyword in lower case names.
    pub fn from_keyword(keyword: &str) -> (domain: FeishuDomain)
        ensures
            domain == Self::named(keyword@),
    {
        if str_eq(keyword, "lark") {
            FeishuDomain::Lark
        } else {
            FeishuDomain::Feishu
        }
    }
}

/// How inbound events are received.
#[derive(Debug, Clone, Copy, PartialEq, Eq, Structural)]
pub enum FeishuConnectionMode {
    WebSocket,
    Webhook,
}

impl Default for FeishuConnectionMode {
    fn default() -> (mode: FeishuConnectionMode)
        ensures
            mode == FeishuConnectionMode::WebSocket,
    {
        FeishuConnectionMode::WebSocket
    }
}

impl FeishuConnectionMode {
    /// The mode that a lower-case keyword names: `webhook`, or else the
    /// push connection.
    pub open spec fn named(keyword: Seq<char>) -> FeishuConnectionMode {
        if keyword == "webhook"@ {
            FeishuConnectionMode::Webhook
        } else {
            FeishuConnectionMode::WebSocket
        }
    }

    /// The mode that a keyword in lower case names.
    pub fn from_keyword(keyword: &str) -> (mode: FeishuConnectionMode)
        ensures
            mode == Self::named(keyword@),
    {
        if str_eq(keyword, "webhook") {
            FeishuConnectionMode::Webhook
        } else {
            FeishuConnectionMode::WebSocket
        }
    }
}

/// Channel configuration.
#[derive(Debug)]
pub struct FeishuConfig {
    /// App id, from the open platform.
    pub app_id: String,
    /// App secret.
    pub app_secret: String,
    /// API domain.
    pub domain: FeishuDomain,
    /// Connection mode.
    pub connection_mode: FeishuConnectionMode,
    /// Open ids allowed to send direct messages. Empty denies all, `"*"`
    /// allows all.
    pub allowed_users: Vec<String>,
    /// Direct-message policy. Derived from the allowlist where absent.
    pub dm_policy: Option<DmPolicy>,
    /// Group policy. `Open` where absent.
    pub group_policy: Option<GroupPolicy>,
    /// Direct-message allowlist that takes the place of `allowed_users`
    /// where present.
    pub allow_from: Option<Vec<String>>,
    /// Group allowlist.
    pub group_allow_from: Vec<String>,
    /// Whether a group message must mention the bot.
    pub group_require_mention: bool,
    /// Key for decrypting webhook events.
    pub encrypt_key: Option<String>,
    /// Token for verifying webhook events.
    pub verification_token: Option<String>,
    /// Port of the webhook server.
    pub webhook_port: Option<u16>,
}

/// A `FeishuConfig` as plain values.
pub struct ConfigView {
    pub app_id: Seq<char>,
    pub app_secret: Seq<char>,
    pub domain: FeishuDomain,
    pub connection_mode: FeishuConnectionMode,
    pub allowed_users: Seq<Seq<char>>,
    pub dm_policy: Option<DmPolicy>,
    pub group_policy: Option<GroupPolicy>,
    pub allow_from: Option<Seq<Seq<char>>>,
    pub group_allow_from: Seq<Seq<char>>,
    pub group_require_mention: bool,
    pub encrypt_key: Option<Seq<char>>,
    pub verification_token: Option<Seq<char>>,
    pub webhook_port: Option<u16>,
}

impl ConfigView {
    /// The allowlist in force for direct messages: `allow_from` where
    /// present, else `allowed_users`.
    pub open spec fn dm_allowlist(self) -> Seq<Seq<char>> {
        match self.allow_from {
            Some(list) => list,
            None => self.allowed_users,
        }
    }

    /// The direct-message policy in force: the configured one, else the one
    /// that the allowlist in force stands for.
    pub open spec fn effective_dm_policy(self) -> DmPolicy {
        match self.dm_policy {
            Some(policy) => policy,
            None => derived_dm_policy(self.dm_allowlist()),
        }
    }

    /// The group policy in force: the configured one, else `Open`.
    pub open spec fn effective_group_policy(self) -> GroupPolicy {
        match self.group_policy {
            Some(policy) => policy,
            None => GroupPolicy::Open,
        }
    }
}

impl View for FeishuConfig {
    type V = ConfigView;

    open spec fn view(&self) -> ConfigView {
        ConfigView {
            app_id: self.app_id@,
            app_secret: self.app_secret@,
            domain: self.domain,
            connection_mode: self.connection_mode,
            allowed_users: texts(self.allowed_users@),
            dm_policy: self.dm_policy,
            group_policy: self.group_policy,
            allow_from: optional_texts(self.allow_from),
            group_allow_from: texts(self.group_allow_from@),
            group_require_mention: self.group_require_mention,
            encrypt_key: optional_text(self.encrypt_key),
            verification_token: optional_text(self.verification_token),
            webhook_port: self.webhook_port,
        }
    }
}

impl Clone for FeishuConfig {
    fn clone(&self) -> (copy: FeishuConfig)
        ensures
            copy@ == self@,
    {
        FeishuConfig {
            app_id: self.app_id.clone(),
            app_secret: self.app_secret.clone(),
            domain: self.domain,
            connection_mode: self.connection_mode,
            allowed_users: copy_texts(&self.allowed_users),
            dm_policy: self.dm_policy,
            group_policy: self.group_policy,
            allow_from: match &self.allow_from {
                Some(list) => Some(copy_texts(list)),
                None => None,
            },
            group_allow_from: copy_texts(&self.group_allow_from),
            group_require_mention: self.group_require_mention,
            encrypt_key: copy_optional_text(&self.encrypt_key),
            verification_token: copy_optional_text(&self.verification_token),
            webhook_port: self.webhook_port,
        }
    }
}

/// The value of `group_require_mention` where the configuration is silent.
pub fn default_true() -> (value: bool)
    ensures
        value,
{
    true
}

impl FeishuConfig {
    /// The allowlist in force for direct messages.
    pub fn dm_allowlist(&self) -> (list: &[String])
        ensures
            texts(list@) == self@.dm_allowlist(),
    {
        match &self.allow_from {
            Some(list) => list.as_slice(),
            None => self.allowed_users.as_slice(),
        }
    }

    /// The direct-message policy in force.
    pub fn effective_dm_policy(&self) -> (policy: DmPolicy)
        ensures
            policy == self@.effective_dm_policy(),
    {
        match self.dm_policy {
            Some(policy) => policy,
            None => DmPolicy::from_allowlist(self.dm_allowlist()),
        }
    }

    /// The group policy in force.
    pub fn effective_group_policy(&self) -> (policy: GroupPolicy)
        ensures
            policy == self@.effective_group_policy(),
    {
        match self.group_policy {
            Some(policy) => policy,
            None => GroupPolicy::Open,
        }
    }

    /// The guard that enforces this configuration: both allowlists in
    /// force, each with its policy in force.
    pub fn security_guard(&self) -> (guard: SecurityGuard)
        ensures
            guard@ == guard_of(
                self@.dm_allowlist(),
                Some(self@.effective_dm_policy()),
                self@.group_allow_from,
                Some(self@.effective_group_policy()),
            ),
    {
        let dm_list = match &self.allow_from {
            Some(list) => copy_texts(list),
            None => copy_texts(&self.allowed_users),
        };
        SecurityGuard::with_policies(
            dm_list,
            Some(self.effective_dm_policy()),
            copy_texts(&self.group_allow_from),
            Some(self.effective_group_policy()),
        )
    }
}

/// Configuration as an embedding application hands it over: everything but
/// the credentials is optional, and enumerations come as text.
#[derive(Debug)]
pub struct FeishuConfigInput {
    pub app_id: String,
    pub app_secret: String,
    pub domain: Option<String>,
    pub connection_mode: Option<String>,
    pub allowed_users: Option<Vec<String>>,
    pub dm_policy: Option<String>,
    pub group_policy: Option<String>,
    pub allow_from: Option<Vec<String>>,
    pub group_allow_from: Option<Vec<String>>,
    pub group_require_mention: Option<bool>,
    pub encrypt_key: Option<String>,
    pub verification_token: Option<String>,
    pub webhook_port: Option<u16>,
}

/// The configuration that an input stands for. Text is read in any letter
/// case; a missing domain is Feishu, a missing mode the push connection; a
/// missing `allowed_users` allows everyone; a mention is required in groups
/// unless the input says otherwise.
pub open spec fn config_of(input: FeishuConfigInput) -> ConfigView {
    ConfigView {
        app_id: input.app_id@,
        app_secret: input.app_secret@,
        domain: match input.domain {
            Some(text) => FeishuDomain::named(lowercased(text@)),
            None => FeishuDomain::Feishu,
        },
        connection_mode: match input.connection_mode {
            Some(text) => FeishuConnectionMode::named(lowercased(text@)),
            None => FeishuConnectionMode::WebSocket,
        },
        allowed_users: match input.allowed_users {
            Some(list) => texts(list@),
            None => seq!["*"@],
        },
        dm_policy: match input.dm_policy {
            Some(text) => Some(dm_policy_named(lowercased(text@))),
            None => None,
        },
        group_policy: match input.group_policy {
            Some(text) => Some(group_policy_named(lowercased(text@))),
            None => None,
        },
        allow_from: optional_texts(input.allow_from),
        group_allow_from: match input.group_allow_from {
            Some(list) => texts(list@),
            None => Seq::empty(),
        },
        group_require_mention: match input.group_require_mention {
            Some(flag) => flag,
            None => true,
        },
        encrypt_key: optional_text(input.encrypt_key),
        verification_token: optional_text(input.verification_token),
        webhook_port: input.webhook_port,
    }
}

/// Turns an input into a configuration, filling in the defaults.
pub fn to_feishu_config(input: FeishuConfigInput) -> (config: FeishuConfig)
    ensures
        config@ == config_of(input),
{
    let domain = match &input.domain {
        Some(text) => {
            let lower = to_lowercase(text.as_str());
            FeishuDomain::from_keyword(lower.as_str())
        },
        None => FeishuDomain::Feishu,
    };
    let connection_mode = match &input.connection_mode {
        Some(text) => {
            let lower = to_lowercase(text.as_str());
            FeishuConnectionMode::from_keyword(lower.as_str())
        },
        None => FeishuConnectionMode::WebSocket,
    };
    let dm_policy = match &input.dm_policy {
        Some(text) => Some(parse_dm_policy(text.as_str())),
        None => None,
    };
    let group_policy = match &input.group_policy {
        Some(text) => Some(parse_group_policy(text.as_str())),
        None => None,
    };
    let allowed_users = match input.allowed_users {
        Some(list) => list,
        None => {
            let mut everyone: Vec<String> = Vec::new();
            everyone.push("*".to_string());
            assert(texts(everyone@) =~= seq!["*"@]);
            everyone
        },
    };
    let group_allow_from = match input.group_allow_from {
        Some(list) => list,
        None => {
            let none: Vec<String> = Vec::new();
            assert(texts(none@) =~= Seq::empty());
            none
        },
    };
    let group_require_mention = match input.group_require_mention {
        Some(flag) => flag,
        None => default_true(),
    };
    FeishuConfig {
        app_id: input.app_id,
        app_secret: input.app_secret,
        domain,
        connection_mode,
        allowed_users,
        dm_policy,
        group_policy,
        allow_from: input.allow_from,
        group_allow_from,
        group_require_mention,
        encrypt_key: input.encrypt_key,
        verification_token: input.verification_token,
        webhook_port: input.webhook_port,
    }
}

} // verus!
