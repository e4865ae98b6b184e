//! Direct-message and group policies, and the decision they stand for.

use vstd::prelude::*;
use crate::text::{lowercased, str_eq, texts, to_lowercase};

verus! {

/// Policy for handling direct messages.
#[derive(Debug, Clone, Copy, PartialEq, Eq, Structural)]
pub enum DmPolicy {
    /// Accept direct messages from allow-listed identities only.
    Pairing,
    /// Accept direct messages from any identity.
    Open,
    /// Reject all direct messages.
    Deny,
}

/// Policy for handling group messages.
#[derive(Debug, Clone, Copy, PartialEq, Eq, Structural)]
pub enum GroupPolicy {
    /// Accept group messages from allow-listed identities only.
    Allowlist,
    /// Accept group messages from any identity.
    Open,
    /// Reject all group messages.
    Deny,
}

impl Default for DmPolicy {
    /// Direct messages are limited to the allowlist unless configured otherwise.
    fn default() -> (policy: DmPolicy)
        ensures
            policy == DmPolicy::Pairing,
    {
        DmPolicy::Pairing
    }
}

impl Default for GroupPolicy {
    /// Group messages are limited to the allowlist unless configured otherwise.
    fn default() -> (policy: GroupPolicy)
        ensures
            policy == GroupPolicy::Allowlist,
    {
        GroupPolicy::Allowlist
    }
}

/// The allowlist entry that stands for "everyone".
pub open spec fn wildcard() -> Seq<char> {
    "*"@
}

/// An allowlist admits an identity when it holds that exact identity or the
/// wildcard. Matching is on whole strings: no prefix or substring counts.
pub open spec fn listed(allowlist: Seq<Seq<char>>, identity: Seq<char>) -> bool {
    allowlist.contains(wildcard()) || allowlist.contains(identity)
}

/// The decision for a direct message from `identity`.
pub open spec fn dm_permits(policy: DmPolicy, allowlist: Seq<Seq<char>>, identity: Seq<char>) -> bool {
    identity.len() > 0 && match policy {
        DmPolicy::Deny => false,
        DmPolicy::Open => true,
        DmPolicy::Pairing => listed(allowlist, identity),
    }
}

/// The decision for a group message from `identity`.
pub open spec fn group_permits(
    policy: GroupPolicy,
    allowlist: Seq<Seq<char>>,
    identity: Seq<char>,
) -> bool {
    identity.len() > 0 && match policy {
        GroupPolicy::Deny => false,
        GroupPolicy::Open => true,
        GroupPolicy::Allowlist => listed(allowlist, identity),
    }
}

/// The policy that an allowlist alone stands for: nobody when it is empty,
/// everybody when it holds the wildcard, its members otherwise.
pub open spec fn derived_dm_policy(allowlist: Seq<Seq<char>>) -> DmPolicy {
    if allowlist.len() == 0 {
        DmPolicy::Deny
    } else if allowlist.contains(wildcard()) {
        DmPolicy::Open
    } else {
        DmPolicy::Pairing
    }
}

/// Whether `list` holds `wanted` as one of its entries.
pub fn list_contains(list: &Vec<String>, wanted: &str) -> (found: bool)
    ensures
        found == texts(list@).contains(wanted@),
{
    let mut i: usize = 0;
    while i < list.len()
        invariant
            i <= list.len(),
            forall|j: int| 0 <= j < i ==> texts(list@)[j] != wanted@,
        decreases list.len() - i,
    {
        if str_eq(list[i].as_str(), wanted) {
            assert(texts(list@)[i as int] == wanted@);
            return true;
        }
        i += 1;
    }
    false
}

/// Whether `allowlist` admits `identity`: by the wildcard or by exact match.
pub fn is_listed(allowlist: &Vec<String>, identity: &str) -> (found: bool)
    ensures
        found == listed(texts(allowlist@), identity@),
{
    list_contains(allowlist, "*") || list_contains(allowlist, identity)
}

impl DmPolicy {
    /// Decides on a direct message from `identity` under this policy and
    /// `allowlist`. The decision depends on these three alone.
    pub fn permits(&self, allowlist: &Vec<String>, identity: &str) -> (allowed: bool)
        ensures
            allowed == dm_permits(*self, texts(allowlist@), identity@),
    {
        if identity.is_empty() {
            return false;
        }
        match self {
            DmPolicy::Deny => false,
            DmPolicy::Open => true,
            DmPolicy::Pairing => is_listed(allowlist, identity),
        }
    }

    /// Derives the policy from an allowlist given without one.
    pub fn from_allowlist(list: &[String]) -> (policy: DmPolicy)
        ensures
            policy == derived_dm_policy(texts(list@)),
    {
        if list.len() == 0 {
            DmPolicy::Deny
        } else {
            let mut i: usize = 0;
            while i < list.len()
                invariant
                    i <= list.len(),
                    forall|j: int| 0 <= j < i ==> texts(list@)[j] != wildcard(),
                decreases list.len() - i,
            {
                if str_eq(list[i].as_str(), "*") {
                    assert(texts(list@)[i as int] == wildcard());
                    return DmPolicy::Open;
                }
                i += 1;
            }
            DmPolicy::Pairing
        }
    }
}

impl GroupPolicy {
    /// Decides on a group message from `identity` under this policy and
    /// `allowlist`. The decision depends on these three alone.
    pub fn permits(&self, allowlist: &Vec<String>, identity: &str) -> (allowed: bool)
        ensures
            allowed == group_permits(*self, texts(allowlist@), identity@),
    {
        if identity.is_empty() {
            return false;
        }
        match self {
            GroupPolicy::Deny => false,
            GroupPolicy::Open => true,
            GroupPolicy::Allowlist => is_listed(allowlist, identity),
        }
    }
}

/// The direct-message policy that a lower-case keyword names. Anything but
/// `open` and `deny` means `Pairing`.
pub open spec fn dm_policy_named(keyword: Seq<char>) -> DmPolicy {
    if keyword == "open"@ {
        DmPolicy::Open
    } else if keyword == "deny"@ {
        DmPolicy::Deny
    } else {
        DmPolicy::Pairing
    }
}

/// The group policy that a lower-case keyword names. Anything but `open` and
/// `deny` means `Allowlist`.
pub open spec fn group_policy_named(keyword: Seq<char>) -> GroupPolicy {
    if keyword == "open"@ {
        GroupPolicy::Open
    } else if keyword == "deny"@ {
        GroupPolicy::Deny
    } else {
        GroupPolicy::Allowlist
    }
}

/// The direct-message policy that a keyword in lower case names.
pub fn dm_policy_from_keyword(keyword: &str) -> (policy: DmPolicy)
    ensures
        policy == dm_policy_named(keyword@),
{
    if str_eq(keyword, "open") {
        DmPolicy::Open
    } else if str_eq(keyword, "deny") {
        DmPolicy::Deny
    } else {
        DmPolicy::Pairing
    }
}

/// The group policy that a keyword in lower case names.
pub fn group_policy_from_keyword(keyword: &str) -> (policy: GroupPolicy)
    ensures
        policy == group_policy_named(keyword@),
{
    if str_eq(keyword, "open") {
        GroupPolicy::Open
    } else if str_eq(keyword, "deny") {
        GroupPolicy::Deny
    } else {
        GroupPolicy::Allowlist
    }
}

/// Reads a direct-message policy from configuration text, in any letter
/// case.
pub fn parse_dm_policy(text: &str) -> (policy: DmPolicy)
    ensures
        policy == dm_policy_named(lowercased(text@)),
{
    let lower = to_lowercase(text);
    dm_policy_from_keyword(lower.as_str())
}

/// Reads a group policy from configuration text, in any letter case.
pub fn parse_group_policy(text: &str) -> (policy: GroupPolicy)
    ensures
        policy == group_policy_named(lowercased(text@)),
{
    let lower = to_lowercase(text);
    group_policy_from_keyword(lower.as_str())
}

} // verus!
