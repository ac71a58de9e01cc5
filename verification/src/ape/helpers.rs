//! Lookups on a user's attribute record that the decision engine is built from.

use super::structs::{
    Constraint, Context, Decision, DenieablePerms, PermissionLevel, ResourceTarget,
    TokenPermissions, UserAttributes, Verdict,
};
use std::collections::HashMap;
use vstd::prelude::*;
use vstd::std_specs::iter::IteratorSpec;

verus! {

broadcast use vstd::std_specs::hash::group_hash_axioms;

impl Context {
    /// Whether the request is a self-service operation.
    pub fn is_personal(&self) -> (personal: bool)
        ensures
            personal == (self.target is Personal),
    {
        match self.target {
            ResourceTarget::Personal(_) => true,
            _ => false,
        }
    }
}

/// The tier of the hierarchy that a map of grants belongs to.
#[derive(Debug, Clone, Copy, PartialEq, Eq, Structural)]
pub enum GrantTier {
    Project,
    Collection,
}

impl GrantTier {
    /// The constraint that places a target under the resource `id` of this tier.
    pub open spec fn constraint(self, id: u128) -> Constraint {
        match self {
            GrantTier::Project => Constraint::InProject(id),
            GrantTier::Collection => Constraint::InCollection(id),
        }
    }

    /// The constraint that places a target under the resource `id` of this tier.
    pub fn into_constraint(&self, id: u128) -> (c: Constraint)
        ensures
            c == self.constraint(id),
    {
        match self {
            GrantTier::Project => Constraint::InProject(id),
            GrantTier::Collection => Constraint::InCollection(id),
        }
    }
}

/// The constraints that a map of grants gives for a request of `level`: one
/// for each resource granted at `level` or above.
pub open spec fn granted(
    grants: Map<u128, PermissionLevel>,
    level: PermissionLevel,
    tier: GrantTier,
) -> Set<Constraint> {
    Set::new(
        |c: Constraint|
            exists|id: u128|
                grants.contains_key(id) && grants[id].covers(level) && c == tier.constraint(id),
    )
}

/// Lists, in no particular order and each once, the constraints that
/// `grants` gives for a request of `level`.
pub fn grants_into_constraints(
    grants: &HashMap<u128, PermissionLevel>,
    level: PermissionLevel,
    tier: GrantTier,
) -> (constraints: Vec<Constraint>)
    ensures
        constraints@.no_duplicates(),
        constraints@.to_set() == granted(grants@, level, tier),
{
    let mut returnvec: Vec<Constraint> = Vec::new();
    let keys = grants.keys();
    let ghost ks = keys.remaining().unref();
    let ghost mut done: int = 0;
    for k in it: keys
        invariant
            it.seq().unref() == ks,
            done == it.index(),
            0 <= done <= ks.len(),
            ks.to_set() == grants@.dom(),
            ks.no_duplicates(),
            returnvec@.no_duplicates(),
            forall|i: int|
                0 <= i < returnvec@.len() ==> exists|j: int|
                    0 <= j < done && (#[trigger] returnvec@[i]) == tier.constraint(ks[j])
                        && grants@[ks[j]].covers(level),
            forall|j: int|
                0 <= j < done && grants@[#[trigger] ks[j]].covers(level)
                    ==> returnvec@.contains(tier.constraint(ks[j])),
    {
        let ghost before = returnvec@;
        assert(ks[done] == *k);
        assert(ks.to_set().contains(*k));
        let found = grants.get(k);
        if let Some(v) = found {
            if v.allows(&level) {
                returnvec.push(tier.into_constraint(*k));
                assert(!before.contains(tier.constraint(*k))) by {
                    if before.contains(tier.constraint(*k)) {
                        let i = choose|i: int|
                            0 <= i < before.len() && before[i] == tier.constraint(*k);
                        let j = choose|j: int|
                            0 <= j < done && before[i] == tier.constraint(ks[j]);
                        assert(ks[j] == ks[done]);
                    }
                }
                assert(returnvec@ == before.push(tier.constraint(*k)));
                assert(returnvec@[before.len() as int] == tier.constraint(ks[done]));
            }
        }
        assert forall|j: int|
            0 <= j < done + 1 && grants@[#[trigger] ks[j]].covers(
                level,
            ) implies returnvec@.contains(tier.constraint(ks[j])) by {
            if j < done {
                let i = choose|i: int|
                    0 <= i < before.len() && before[i] == tier.constraint(ks[j]);
                assert(returnvec@[i] == before[i]);
            } else {
                assert(returnvec@[before.len() as int] == tier.constraint(ks[j]));
            }
        }
        proof {
            done = done + 1;
        }
    }
    assert(returnvec@.to_set() =~= granted(grants@, level, tier)) by {
        assert forall|c: Constraint|
            granted(grants@, level, tier).contains(c) implies returnvec@.contains(c) by {
            let id = choose|id: u128|
                grants@.contains_key(id) && grants@[id].covers(level) && c == tier.constraint(id);
            assert(ks.to_set().contains(id));
            let j = choose|j: int| 0 <= j < ks.len() && ks[j] == id;
            assert(grants@[ks[j]].covers(level));
        }
        assert forall|c: Constraint| returnvec@.contains(c) implies granted(grants@, level, tier).contains(c) by {
            let i = choose|i: int| 0 <= i < returnvec@.len() && returnvec@[i] == c;
            let j = choose|j: int|
                0 <= j < done && returnvec@[i] == tier.constraint(ks[j])
                    && grants@[ks[j]].covers(level);
            assert(ks.to_set().contains(ks[j]));
        }
    }
    returnvec
}

/// Whether `id` occurs in `list`.
pub fn id_listed(list: &Vec<u128>, id: u128) -> (listed: bool)
    ensures
        listed == list@.contains(id),
{
    let mut i: usize = 0;
    while i < list.len()
        invariant
            i <= list.len(),
            forall|j: int| 0 <= j < i ==> list@[j] != id,
        decreases list.len() - i,
    {
        if list[i] == id {
            return true;
        }
        i += 1;
    }
    false
}

impl DenieablePerms {
    /// Decides a request of `level` on resource `id` from the explicit
    /// entries alone: the deny list first, then the grant. `None` when the
    /// resource has no entry.
    pub fn decision(&self, id: u128, level: PermissionLevel) -> (decision: Option<Decision>)
        ensures
            decision is Some == self.explicit_verdict(id, level) is Some,
            decision matches Some(d) ==> Some(d.verdict()) == self.explicit_verdict(id, level)
                && (d is Allow ==> d.is_unconditional()),
    {
        if id_listed(&self.deny, id) {
            return Some(Decision::Deny);
        }
        if let Some(found) = self.allow.get(&id) {
            if found.allows(&level) {
                let none: Vec<Constraint> = Vec::new();
                assert(none@.to_set() =~= Set::empty());
                return Some(Decision::Allow(none));
            } else {
                return Some(Decision::Deny);
            }
        }
        None
    }
}

impl UserAttributes {
    /// The constraints that the user's project grants give for a request of
    /// `level`: one `InProject` for each project granted at `level` or above.
    pub open spec fn project_constraints(self, level: PermissionLevel) -> Set<Constraint> {
        granted(self.projects@, level, GrantTier::Project)
    }

    /// Lists, in no particular order and each once, the projects that the
    /// user holds at `permlvel` or above, as `InProject` constraints.
    pub fn projects_into_constraints(&self, permlvel: PermissionLevel) -> (constraints: Vec<
        Constraint,
    >)
        ensures
            constraints@.no_duplicates(),
            constraints@.to_set() == self.project_constraints(permlvel),
    {
        grants_into_constraints(&self.projects, permlvel, GrantTier::Project)
    }

    /// The tokens of the user that carry everything the user is granted.
    pub open spec fn personal_tokens(self) -> Set<u128> {
        Set::new(
            |id: u128|
                self.tokens@.contains_key(id) && self.tokens@[id] == TokenPermissions::Personal,
        )
    }

    /// Lists the user's personal tokens, each once and in no particular order.
    pub fn get_personal_tokens(&self) -> (tokens: Vec<u128>)
        ensures
            tokens@.no_duplicates(),
            tokens@.to_set() == self.personal_tokens(),
    {
        let mut tokens: Vec<u128> = Vec::new();
        let keys = self.tokens.keys();
        let ghost ks = keys.remaining().unref();
        let ghost mut done: int = 0;
        for k in it: keys
            invariant
                it.seq().unref() == ks,
                done == it.index(),
                0 <= done <= ks.len(),
                ks.to_set() == self.tokens@.dom(),
                ks.no_duplicates(),
                tokens@.no_duplicates(),
                forall|i: int|
                    0 <= i < tokens@.len() ==> exists|j: int|
                        0 <= j < done && (#[trigger] tokens@[i]) == (#[trigger] ks[j])
                            && self.tokens@[ks[j]] == TokenPermissions::Personal,
                forall|j: int|
                    0 <= j < done && self.tokens@[#[trigger] ks[j]] == TokenPermissions::Personal
                        ==> tokens@.contains(ks[j]),
        {
            let ghost before = tokens@;
            assert(ks[done] == *k);
            assert(ks.to_set().contains(*k));
            if let Some(v) = self.tokens.get(k) {
                if let TokenPermissions::Personal = v {
                    tokens.push(*k);
                    assert(!before.contains(*k)) by {
                        if before.contains(*k) {
                            let i = choose|i: int| 0 <= i < before.len() && before[i] == *k;
                            let j = choose|j: int|
                                0 <= j < done && before[i] == (#[trigger] ks[j])
                                    && self.tokens@[ks[j]] == TokenPermissions::Personal;
                            assert(ks[j] == ks[done]);
                        }
                    }
                    assert(tokens@ == before.push(*k));
                    assert(tokens@[before.len() as int] == ks[done]);
                }
            }
            assert forall|i: int| 0 <= i < tokens@.len() implies exists|j: int|
                0 <= j < done + 1 && (#[trigger] tokens@[i]) == (#[trigger] ks[j])
                    && self.tokens@[ks[j]] == TokenPermissions::Personal by {
                if i < before.len() {
                    assert(tokens@[i] == before[i]);
                    let j = choose|j: int|
                        0 <= j < done && before[i] == (#[trigger] ks[j]) && self.tokens@[ks[j]]
                            == TokenPermissions::Personal;
                    assert(tokens@[i] == ks[j]);
                } else {
                    assert(tokens@[i] == ks[done]);
                }
            }
            assert forall|j: int|
                0 <= j < done + 1 && self.tokens@[#[trigger] ks[j]]
                    == TokenPermissions::Personal implies tokens@.contains(ks[j]) by {
                if j < done {
                    let i = choose|i: int| 0 <= i < before.len() && before[i] == ks[j];
                    assert(tokens@[i] == before[i]);
                } else {
                    assert(tokens@[before.len() as int] == ks[j]);
                }
            }
            proof {
                done = done + 1;
            }
        }
        assert(tokens@.to_set() =~= self.personal_tokens()) by {
            assert forall|id: u128| self.personal_tokens().contains(id) implies tokens@.contains(
                id,
            ) by {
                assert(ks.to_set().contains(id));
                let j = choose|j: int| 0 <= j < ks.len() && ks[j] == id;
                assert(self.tokens@[ks[j]] == TokenPermissions::Personal);
            }
            assert forall|id: u128| tokens@.contains(id) implies self.personal_tokens().contains(
                id,
            ) by {
                let i = choose|i: int| 0 <= i < tokens@.len() && tokens@[i] == id;
                let j = choose|j: int|
                    0 <= j < done && tokens@[i] == (#[trigger] ks[j]) && self.tokens@[ks[j]]
                        == TokenPermissions::Personal;
                assert(ks.to_set().contains(ks[j]));
            }
        }
        tokens
    }

    /// The constraints that the user's collection grants give for a request
    /// of `level`: one `InCollection` for each collection granted at `level`
    /// or above.
    pub open spec fn collection_constraints(self, level: PermissionLevel) -> Set<Constraint> {
        granted(self.collections.allow@, level, GrantTier::Collection)
    }

    /// Lists, in no particular order and each once, the collections that
    /// the user holds at `req_permlevel` or above, as `InCollection`
    /// constraints. The deny list contributes nothing: a refusal is no
    /// condition under which a request could be allowed.
    pub fn collections_into_constraints(&self, req_permlevel: PermissionLevel) -> (constraints:
        Vec<Constraint>)
        ensures
            constraints@.no_duplicates(),
            constraints@.to_set() == self.collection_constraints(req_permlevel),
    {
        grants_into_constraints(&self.collections.allow, req_permlevel, GrantTier::Collection)
    }

    /// What the user's project grants say about a request of `level` on
    /// project `id`: allowed exactly when the project is granted at `level`
    /// or above.
    pub open spec fn project_verdict(self, id: u128, level: PermissionLevel) -> Verdict {
        if self.projects@.contains_key(id) && self.projects@[id].covers(level) {
            Verdict::Allow(Set::empty())
        } else {
            Verdict::Deny
        }
    }

    /// Decides a request on an object from the explicit object entries:
    /// refused if the object is on the deny list, else decided by its grant,
    /// and `None` if the object has no entry.
    pub fn object_decision(&self, object_id: &u128, req_permlevel: &PermissionLevel) -> (decision:
        Option<Decision>)
        ensures
            decision is Some == self.objects.explicit_verdict(*object_id, *req_permlevel) is Some,
            decision matches Some(d) ==> Some(d.verdict()) == self.objects.explicit_verdict(
                *object_id,
                *req_permlevel,
            ) && (d is Allow ==> d.is_unconditional()),
    {
        self.objects.decision(*object_id, *req_permlevel)
    }

    /// Decides a request on a collection from the explicit collection
    /// entries: refused if the collection is on the deny list, else decided
    /// by its grant, and `None` if the collection has no entry.
    pub fn collection_decision(
        &self,
        collection_id: &u128,
        req_permlevel: &PermissionLevel,
    ) -> (decision: Option<Decision>)
        ensures
            decision is Some == self.collections.explicit_verdict(*collection_id, *req_permlevel)
                is Some,
            decision matches Some(d) ==> Some(d.verdict()) == self.collections.explicit_verdict(
                *collection_id,
                *req_permlevel,
            ) && (d is Allow ==> d.is_unconditional()),
    {
        self.collections.decision(*collection_id, *req_permlevel)
    }

    /// Decides a request on a project: allowed without conditions when the
    /// project is granted at the requested level or above, refused otherwise.
    pub fn project_decision(&self, project_id: &u128, req_permlevel: &PermissionLevel) -> (decision:
        Decision)
        ensures
            decision.verdict() == self.project_verdict(*project_id, *req_permlevel),
            decision is Allow ==> decision.is_unconditional(),
    {
        if let Some(found) = self.projects.get(project_id) {
            if found.allows(req_permlevel) {
                let none: Vec<Constraint> = Vec::new();
                assert(none@.to_set() =~= Set::empty());
                return Decision::Allow(none);
            }
        }
        Decision::Deny
    }
}

} // verus!
