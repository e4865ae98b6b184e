//! Allowlist-based security guard: one policy and allowlist for direct
//! messages, one for group messages.

use vstd::prelude::*;
use crate::policy::{
    derived_dm_policy, dm_permits, group_permits, listed, wildcard, DmPolicy, GroupPolicy,
};
use crate::text::texts;

verus! {

/// What a guard decides by: both policies with their allowlists.
pub struct GuardView {
    pub dm_allowlist: Seq<Seq<char>>,
    pub dm_policy: DmPolicy,
    pub group_allowlist: Seq<Seq<char>>,
    pub group_policy: GroupPolicy,
}

impl GuardView {
    /// Whether a direct message from `identity` is accepted.
    pub open spec fn dm_allows(self, identity: Seq<char>) -> bool {
        dm_permits(self.dm_policy, self.dm_allowlist, identity)
    }

    /// Whether a group message from `identity` is accepted.
    pub open spec fn group_allows(self, identity: Seq<char>) -> bool {
        group_permits(self.group_policy, self.group_allowlist, identity)
    }

    /// Whether at least one of `identities` is accepted for direct messages.
    pub open spec fn any_allows(self, identities: Seq<Seq<char>>) -> bool {
        exists|i: int| 0 <= i < identities.len() && self.dm_allows(#[trigger] identities[i])
    }
}

/// Security guard with a direct-message and a group policy. It never changes
/// after construction.
#[derive(Debug)]
pub struct SecurityGuard {
    dm_allowlist: Vec<String>,
    dm_policy: DmPolicy,
    group_allowlist: Vec<String>,
    group_policy: GroupPolicy,
}

impl View for SecurityGuard {
    type V = GuardView;

    closed spec fn view(&self) -> GuardView {
        GuardView {
            dm_allowlist: texts(self.dm_allowlist@),
            dm_policy: self.dm_policy,
            group_allowlist: texts(self.group_allowlist@),
            group_policy: self.group_policy,
        }
    }
}

/// The guard that `with_policies` builds: a missing direct-message policy is
/// derived from the allowlist, a missing group policy is `Open`.
pub open spec fn guard_of(
    dm_allowlist: Seq<Seq<char>>,
    dm_policy: Option<DmPolicy>,
    group_allowlist: Seq<Seq<char>>,
    group_policy: Option<GroupPolicy>,
) -> GuardView {
    GuardView {
        dm_allowlist,
        dm_policy: match dm_policy {
            Some(p) => p,
            None => derived_dm_policy(dm_allowlist),
        },
        group_allowlist,
        group_policy: match group_policy {
            Some(p) => p,
            None => GroupPolicy::Open,
        },
    }
}

impl Clone for SecurityGuard {
    fn clone(&self) -> (copy: SecurityGuard)
        ensures
            copy@ == self@,
    {
        let dm_allowlist = self.dm_allowlist.clone();
        let group_allowlist = self.group_allowlist.clone();
        assert(dm_allowlist@ =~= self.dm_allowlist@);
        assert(group_allowlist@ =~= self.group_allowlist@);
        SecurityGuard {
            dm_allowlist,
            dm_policy: self.dm_policy,
            group_allowlist,
            group_policy: self.group_policy,
        }
    }
}

impl SecurityGuard {
    /// A guard from a direct-message allowlist alone.
    pub fn new(allowed_users: Vec<String>) -> (guard: SecurityGuard)
        ensures
            guard@ == guard_of(texts(allowed_users@), None, Seq::empty(), None),
    {
        let guard = SecurityGuard::with_policies(allowed_users, None, Vec::new(), None);
        assert(guard@.group_allowlist =~= Seq::empty());
        guard
    }

    /// A guard from both allowlists and, where given, both policies.
    pub fn with_policies(
        dm_allowlist: Vec<String>,
        dm_policy: Option<DmPolicy>,
        group_allowlist: Vec<String>,
        group_policy: Option<GroupPolicy>,
    ) -> (guard: SecurityGuard)
        ensures
            guard@ == guard_of(
                texts(dm_allowlist@),
                dm_policy,
                texts(group_allowlist@),
                group_policy,
            ),
    {
        let dm_policy = match dm_policy {
            Some(p) => p,
            None => DmPolicy::from_allowlist(dm_allowlist.as_slice()),
        };
        let group_policy = match group_policy {
            Some(p) => p,
            None => GroupPolicy::Open,
        };
        SecurityGuard { dm_allowlist, dm_policy, group_allowlist, group_policy }
    }

    /// Same decision as `is_dm_allowed`, under its earlier name.
    pub fn is_user_allowed(&self, user_id: &str) -> (allowed: bool)
        ensures
            allowed == self@.dm_allows(user_id@),
    {
        self.is_dm_allowed(user_id)
    }

    /// Whether a direct message from `user_id` is accepted.
    pub fn is_dm_allowed(&self, user_id: &str) -> (allowed: bool)
        ensures
            allowed == self@.dm_allows(user_id@),
    {
        self.dm_policy.permits(&self.dm_allowlist, user_id)
    }

    /// Whether a group message from `user_id` is accepted.
    pub fn is_group_allowed(&self, user_id: &str) -> (allowed: bool)
        ensures
            allowed == self@.group_allows(user_id@),
    {
        self.group_policy.permits(&self.group_allowlist, user_id)
    }

    /// Whether any of `identities` is accepted for direct messages.
    pub fn is_any_allowed(&self, identities: &[&str]) -> (allowed: bool)
        ensures
            allowed == self@.any_allows(identities@.map_values(|s: &str| s@)),
    {
        let ghost ids = identities@.map_values(|s: &str| s@);
        let mut i: usize = 0;
        while i < identities.len()
            invariant
                i <= identities.len(),
                ids == identities@.map_values(|s: &str| s@),
                forall|j: int| 0 <= j < i ==> !self@.dm_allows(#[trigger] ids[j]),
            decreases identities.len() - i,
        {
            if self.is_dm_allowed(identities[i]) {
                assert(self@.dm_allows(ids[i as int]));
                return true;
            }
            i += 1;
        }
        false
    }
}


/// With the wildcard in the direct-message allowlist, every non-empty
/// identity is accepted unless the policy is `Deny`.
pub proof fn lemma_wildcard_admits_dm(guard: GuardView, identity: Seq<char>)
    requires
        guard.dm_allowlist.contains(wildcard()),
        guard.dm_policy != DmPolicy::Deny,
        identity.len() > 0,
    ensures
        guard.dm_allows(identity),
{
}

/// With the wildcard in the group allowlist, every non-empty identity is
/// accepted unless the policy is `Deny`.
pub proof fn lemma_wildcard_admits_group(guard: GuardView, identity: Seq<char>)
    requires
        guard.group_allowlist.contains(wildcard()),
        guard.group_policy != GroupPolicy::Deny,
        identity.len() > 0,
    ensures
        guard.group_allows(identity),
{
}

/// A guard built from an allowlist alone that holds the wildcard accepts
/// every non-empty identity for direct messages and for group messages.
pub proof fn lemma_wildcard_guard_admits_all(allowlist: Seq<Seq<char>>, identity: Seq<char>)
    requires
        allowlist.contains(wildcard()),
        identity.len() > 0,
    ensures
        guard_of(allowlist, None, Seq::empty(), None).dm_allows(identity),
        guard_of(allowlist, None, Seq::empty(), None).group_allows(identity),
{
}

/// An empty allowlist under an allowlist policy admits nobody.
pub proof fn lemma_empty_allowlist_admits_nobody(guard: GuardView, identity: Seq<char>)
    ensures
        guard.dm_policy == DmPolicy::Pairing && guard.dm_allowlist.len() == 0 ==> !guard.dm_allows(
            identity,
        ),
        guard.group_policy == GroupPolicy::Allowlist && guard.group_allowlist.len() == 0
            ==> !guard.group_allows(identity),
{
}

/// Under `Deny` nothing is accepted, whatever the allowlist holds.
pub proof fn lemma_deny_rejects_all(guard: GuardView, identity: Seq<char>)
    ensures
        guard.dm_policy == DmPolicy::Deny ==> !guard.dm_allows(identity),
        guard.group_policy == GroupPolicy::Deny ==> !guard.group_allows(identity),
{
}

/// The empty identity is rejected under every policy and allowlist.
pub proof fn lemma_empty_identity_rejected(guard: GuardView)
    ensures
        !guard.dm_allows(Seq::empty()),
        !guard.group_allows(Seq::empty()),
{
}

/// Matching is exact: under an allowlist policy, an identity that differs
/// from every entry is rejected when the wildcard is not listed, however
/// much of an entry it shares.
pub proof fn lemma_exact_match_only(guard: GuardView, identity: Seq<char>)
    requires
        !guard.dm_allowlist.contains(wildcard()),
        !guard.group_allowlist.contains(wildcard()),
        forall|i: int| 0 <= i < guard.dm_allowlist.len() ==> guard.dm_allowlist[i] != identity,
        forall|i: int| 0 <= i < guard.group_allowlist.len() ==> guard.group_allowlist[i] != identity,
    ensures
        guard.dm_policy == DmPolicy::Pairing ==> !guard.dm_allows(identity),
        guard.group_policy == GroupPolicy::Allowlist ==> !guard.group_allows(identity),
{
}

/// A proper prefix or extension of a listed identity is a different
/// identity, and so is not matched by that entry.
pub proof fn lemma_prefix_is_not_a_match(entry: Seq<char>, identity: Seq<char>)
    requires
        entry.len() != identity.len(),
    ensures
        !listed(seq![entry], identity) || entry == wildcard(),
{
    if listed(seq![entry], identity) {
        assert(seq![entry].contains(wildcard()) || seq![entry].contains(identity));
        if seq![entry].contains(identity) {
            let i = choose|i: int| 0 <= i < seq![entry].len() && seq![entry][i] == identity;
            assert(entry == identity);
        } else {
            let i = choose|i: int| 0 <= i < seq![entry].len() && seq![entry][i] == wildcard();
        }
    }
}

} // verus!
