//! The policy decision engine: one user's attribute record and one request
//! give a decision. Evaluation is pure; where an answer depends on where the
//! target lives in the resource hierarchy, the decision carries that
//! condition instead of resolving it.

use super::helpers::GrantTier;
use super::structs::{
    Constraint, Context, Decision, PermissionLevel, ResourceTarget, TokenPermissions,
    UserAttributes, Verdict,
};
use vstd::prelude::*;

verus! {

broadcast use vstd::std_specs::hash::group_hash_axioms;

/// The unconditional allow.
pub open spec fn allow_all() -> Verdict {
    Verdict::Allow(Set::empty())
}

/// What a token limited to project `project` at `granted` gives for a request.
pub open spec fn project_scoped_verdict(
    project: u128,
    granted: PermissionLevel,
    ctx: Context,
) -> Verdict {
    if !granted.covers(ctx.operation) {
        Verdict::Deny
    } else {
        match ctx.target {
            ResourceTarget::Project(p) => if p == project {
                allow_all()
            } else {
                Verdict::Deny
            },
            ResourceTarget::GlobalAdmin => Verdict::Deny,
            ResourceTarget::Personal(_) => Verdict::Deny,
            ResourceTarget::Collection(_) => Verdict::Allow(set![Constraint::InProject(project)]),
            ResourceTarget::Object(_) => Verdict::Allow(set![Constraint::InProject(project)]),
        }
    }
}

/// What a token limited to collection `collection` at `granted` gives for a request.
pub open spec fn collection_scoped_verdict(
    collection: u128,
    granted: PermissionLevel,
    ctx: Context,
) -> Verdict {
    if !granted.covers(ctx.operation) {
        Verdict::Deny
    } else {
        match ctx.target {
            ResourceTarget::Collection(c) => if c == collection {
                allow_all()
            } else {
                Verdict::Deny
            },
            ResourceTarget::Project(_) => Verdict::Deny,
            ResourceTarget::GlobalAdmin => Verdict::Deny,
            ResourceTarget::Personal(_) => Verdict::Deny,
            ResourceTarget::Object(_) => Verdict::Allow(
                set![Constraint::InCollection(collection)],
            ),
        }
    }
}

impl UserAttributes {
    /// What the user's collection and project grants give for a target that
    /// has no explicit entry: allowed on condition that the target lies in
    /// one of the collections or projects held at `level` or above, refused
    /// if there is none.
    pub open spec fn cascade_verdict(self, level: PermissionLevel) -> Verdict {
        let candidates = self.collection_constraints(level).union(self.project_constraints(level));
        if candidates =~= Set::empty() {
            Verdict::Deny
        } else {
            Verdict::Allow(candidates)
        }
    }

    /// What the user's whole attribute record gives for a request, as it
    /// applies to a personal token.
    pub open spec fn personal_verdict(self, ctx: Context) -> Verdict {
        match ctx.target {
            ResourceTarget::Project(p) => self.project_verdict(p, ctx.operation),
            ResourceTarget::Object(o) => match self.objects.explicit_verdict(o, ctx.operation) {
                Some(v) => v,
                None => self.cascade_verdict(ctx.operation),
            },
            ResourceTarget::Collection(c) => match self.collections.explicit_verdict(
                c,
                ctx.operation,
            ) {
                Some(v) => v,
                None => self.cascade_verdict(ctx.operation),
            },
            ResourceTarget::GlobalAdmin => if self.global_admin {
                allow_all()
            } else {
                Verdict::Deny
            },
            ResourceTarget::Personal(u) => if u == ctx.subject.user_id {
                allow_all()
            } else {
                Verdict::Deny
            },
        }
    }

    /// The decision on a request: global admins are allowed everything;
    /// service accounts are refused self-service operations; a token that
    /// the record does not hold is refused; otherwise the token's scope
    /// decides.
    pub open spec fn policy_verdict(self, ctx: Context) -> Verdict {
        if self.global_admin {
            allow_all()
        } else if self.service_account && ctx.target is Personal {
            Verdict::Deny
        } else if !self.tokens@.contains_key(ctx.subject.token_id) {
            Verdict::Deny
        } else {
            match self.tokens@[ctx.subject.token_id] {
                TokenPermissions::ProjectScoped(project, granted) => project_scoped_verdict(
                    project,
                    granted,
                    ctx,
                ),
                TokenPermissions::CollectionScoped(collection, granted) => {
                    collection_scoped_verdict(collection, granted, ctx)
                },
                TokenPermissions::Personal => self.personal_verdict(ctx),
            }
        }
    }
}

/// An allow without conditions.
pub fn unconditional() -> (decision: Decision)
    ensures
        decision.verdict() == allow_all(),
        decision.is_unconditional(),
{
    let none: Vec<Constraint> = Vec::new();
    assert(none@.to_set() =~= Set::empty());
    Decision::Allow(none)
}

/// An allow on the single condition `constraint`.
pub fn conditional(constraint: Constraint) -> (decision: Decision)
    ensures
        decision.verdict() == Verdict::Allow(set![constraint]),
        decision matches Decision::Allow(constraints) && constraints@ == seq![constraint],
{
    let mut one: Vec<Constraint> = Vec::new();
    one.push(constraint);
    assert(one@ =~= seq![constraint]);
    assert(one@.to_set() =~= set![constraint]) by {
        assert(one@[0] == constraint);
    }
    Decision::Allow(one)
}

/// Decides a request made with a token limited to one project.
pub fn evaluate_project_scoped(project: u128, granted: PermissionLevel, context: &Context) -> (decision:
    Decision)
    ensures
        decision.verdict() == project_scoped_verdict(project, granted, *context),
        decision.distinct(),
        decision matches Decision::Allow(constraints) ==> constraints@.len() <= 1,
{
    if !granted.allows(&context.operation) {
        return Decision::Deny;
    }
    match context.target {
        ResourceTarget::Project(p) => {
            if p == project {
                unconditional()
            } else {
                Decision::Deny
            }
        },
        ResourceTarget::GlobalAdmin => Decision::Deny,
        ResourceTarget::Personal(_) => Decision::Deny,
        ResourceTarget::Collection(_) => conditional(Constraint::InProject(project)),
        ResourceTarget::Object(_) => conditional(Constraint::InProject(project)),
    }
}

/// Decides a request made with a token limited to one collection.
pub fn evaluate_collection_scoped(
    collection: u128,
    granted: PermissionLevel,
    context: &Context,
) -> (decision: Decision)
    ensures
        decision.verdict() == collection_scoped_verdict(collection, granted, *context),
        decision.distinct(),
        decision matches Decision::Allow(constraints) ==> constraints@.len() <= 1,
{
    if !granted.allows(&context.operation) {
        return Decision::Deny;
    }
    match context.target {
        ResourceTarget::Collection(c) => {
            if c == collection {
                unconditional()
            } else {
                Decision::Deny
            }
        },
        ResourceTarget::Project(_) => Decision::Deny,
        ResourceTarget::GlobalAdmin => Decision::Deny,
        ResourceTarget::Personal(_) => Decision::Deny,
        ResourceTarget::Object(_) => conditional(Constraint::InCollection(collection)),
    }
}

/// Decides a request on a target without an explicit entry from the
/// collections and projects that the user holds at `level` or above. The
/// collections are listed before the projects.
pub fn evaluate_cascade(attributes: &UserAttributes, level: PermissionLevel) -> (decision: Decision)
    ensures
        decision.verdict() == attributes.cascade_verdict(level),
        decision.distinct(),
        decision matches Decision::Allow(constraints) ==> forall|i: int, j: int|
            0 <= i < j < constraints@.len() && constraints@[i] is InProject
                ==> constraints@[j] is InProject,
{
    let mut list = attributes.collections_into_constraints(level);
    let projects = attributes.projects_into_constraints(level);
    let ghost collections = list@;
    let mut i: usize = 0;
    while i < projects.len()
        invariant
            i <= projects@.len(),
            list@ == collections + projects@.subrange(0, i as int),
        decreases projects@.len() - i,
    {
        list.push(projects[i]);
        i += 1;
        assert(list@ =~= collections + projects@.subrange(0, i as int));
    }
    assert(projects@.subrange(0, i as int) =~= projects@);
    proof {
        let candidates = attributes.collection_constraints(level).union(
            attributes.project_constraints(level),
        );
        assert(list@.to_set() =~= candidates) by {
            assert forall|c: Constraint| list@.contains(c) implies candidates.contains(c) by {
                let k = choose|k: int| 0 <= k < list@.len() && list@[k] == c;
                if k < collections.len() {
                    assert(collections[k] == c);
                    assert(collections.to_set().contains(c));
                } else {
                    assert(projects@[k - collections.len()] == c);
                    assert(projects@.to_set().contains(c));
                }
            }
            assert forall|c: Constraint| candidates.contains(c) implies list@.contains(c) by {
                if attributes.collection_constraints(level).contains(c) {
                    assert(collections.to_set().contains(c));
                    let k = choose|k: int| 0 <= k < collections.len() && collections[k] == c;
                    assert(list@[k] == c);
                } else {
                    assert(projects@.to_set().contains(c));
                    let k = choose|k: int| 0 <= k < projects@.len() && projects@[k] == c;
                    assert(list@[collections.len() + k] == c);
                }
            }
        }
        assert(list@.no_duplicates()) by {
            assert forall|a: int, b: int|
                0 <= a < list@.len() && 0 <= b < list@.len() && a != b implies list@[a]
                != list@[b] by {
                if a < collections.len() {
                    assert(collections.to_set().contains(collections[a]));
                } else {
                    assert(projects@.to_set().contains(projects@[a - collections.len()]));
                }
                if b < collections.len() {
                    assert(collections.to_set().contains(collections[b]));
                } else {
                    assert(projects@.to_set().contains(projects@[b - collections.len()]));
                }
            }
        }
        if list@.len() == 0 {
            assert(list@.to_set() =~= Set::empty());
        } else {
            assert(list@.to_set().contains(list@[0]));
        }
        assert forall|i: int, j: int|
            0 <= i < j < list@.len() && list@[i] is InProject implies list@[j] is InProject by {
            if i < collections.len() {
                assert(collections.to_set().contains(collections[i]));
            }
            assert(projects@.to_set().contains(projects@[j - collections.len()]));
        }
    }
    if list.len() == 0 {
        Decision::Deny
    } else {
        Decision::Allow(list)
    }
}

/// Decides a request made with a personal token, which carries everything
/// the user is granted. Explicit entries for the target decide where there
/// are any; an object or collection without an entry is allowed on
/// condition that it lies in a collection or project that the user holds.
pub fn evaluate_personal(attributes: &UserAttributes, context: &Context) -> (decision: Decision)
    ensures
        decision.verdict() == attributes.personal_verdict(*context),
        decision.distinct(),
{
    match context.target {
        ResourceTarget::Project(p) => attributes.project_decision(&p, &context.operation),
        ResourceTarget::Object(o) => {
            match attributes.object_decision(&o, &context.operation) {
                Some(decision) => decision,
                None => evaluate_cascade(attributes, context.operation),
            }
        },
        ResourceTarget::Collection(c) => {
            match attributes.collection_decision(&c, &context.operation) {
                Some(decision) => decision,
                None => evaluate_cascade(attributes, context.operation),
            }
        },
        ResourceTarget::GlobalAdmin => {
            if attributes.global_admin {
                unconditional()
            } else {
                Decision::Deny
            }
        },
        ResourceTarget::Personal(u) => {
            if u == context.subject.user_id {
                unconditional()
            } else {
                Decision::Deny
            }
        },
    }
}

/// Decides one request against one user's attribute record.
///
/// Global admins are allowed everything, before anything else is looked at.
/// Service accounts are refused self-service operations whatever token they
/// present. A token that the record does not hold is refused. Otherwise the
/// token's scope decides: a scoped token never reaches beyond its resource
/// and level, a personal token carries all of the user's grants.
pub fn evaluate_policy(attributes: &UserAttributes, context: &Context) -> (decision: Decision)
    ensures
        decision.verdict() == attributes.policy_verdict(*context),
        decision.distinct(),
{
    if attributes.global_admin {
        return unconditional();
    }
    if attributes.service_account && context.is_personal() {
        return Decision::Deny;
    }
    match attributes.tokens.get(&context.subject.token_id) {
        None => Decision::Deny,
        Some(scope) => match scope {
            TokenPermissions::ProjectScoped(project, granted) => evaluate_project_scoped(
                *project,
                *granted,
                context,
            ),
            TokenPermissions::CollectionScoped(collection, granted) => evaluate_collection_scoped(
                *collection,
                *granted,
                context,
            ),
            TokenPermissions::Personal => evaluate_personal(attributes, context),
        },
    }
}

/// A global admin is allowed every request without conditions, also as a
/// service account on a self-service target: the admin flag is looked at
/// before anything else.
pub proof fn lemma_global_admin_overrides(attributes: UserAttributes, context: Context)
    requires
        attributes.global_admin,
    ensures
        attributes.policy_verdict(context) == allow_all(),
{
}

/// Without the admin flag, a request made with a token that the record does
/// not hold is refused, whatever it asks for.
pub proof fn lemma_unknown_token_refused(attributes: UserAttributes, context: Context)
    requires
        !attributes.global_admin,
        !attributes.tokens@.contains_key(context.subject.token_id),
    ensures
        attributes.policy_verdict(context) == Verdict::Deny,
{
}

/// A token limited to a project never reaches beyond it: it is refused on
/// other projects, on admin and self-service targets and above its level;
/// on a collection or an object it allows only on condition that the target
/// lies in the project; and whatever it allows carries no other condition.
pub proof fn lemma_project_scope_contained(
    attributes: UserAttributes,
    context: Context,
    project: u128,
    granted: PermissionLevel,
)
    requires
        !attributes.global_admin,
        attributes.tokens@.contains_key(context.subject.token_id),
        attributes.tokens@[context.subject.token_id] == TokenPermissions::ProjectScoped(
            project,
            granted,
        ),
    ensures
        !granted.covers(context.operation) ==> attributes.policy_verdict(context) == Verdict::Deny,
        context.target matches ResourceTarget::Project(other) && other != project
            ==> attributes.policy_verdict(context) == Verdict::Deny,
        context.target is GlobalAdmin || context.target is Personal ==> attributes.policy_verdict(
            context,
        ) == Verdict::Deny,
        granted.covers(context.operation) && context.target == ResourceTarget::Project(project)
            ==> attributes.policy_verdict(context) == allow_all(),
        granted.covers(context.operation) && (context.target is Object
            || context.target is Collection) ==> attributes.policy_verdict(context)
            == Verdict::Allow(set![Constraint::InProject(project)]),
        attributes.policy_verdict(context) matches Verdict::Allow(conditions)
            ==> conditions.subset_of(set![Constraint::InProject(project)]),
{
}

/// A token limited to a collection never reaches beyond it: it is refused
/// on other collections, on projects, on admin and self-service targets and
/// above its level; on an object it allows only on condition that the
/// object lies in the collection.
pub proof fn lemma_collection_scope_contained(
    attributes: UserAttributes,
    context: Context,
    collection: u128,
    granted: PermissionLevel,
)
    requires
        !attributes.global_admin,
        attributes.tokens@.contains_key(context.subject.token_id),
        attributes.tokens@[context.subject.token_id] == TokenPermissions::CollectionScoped(
            collection,
            granted,
        ),
    ensures
        !granted.covers(context.operation) ==> attributes.policy_verdict(context) == Verdict::Deny,
        context.target matches ResourceTarget::Collection(other) && other != collection
            ==> attributes.policy_verdict(context) == Verdict::Deny,
        context.target is Project || context.target is GlobalAdmin || context.target is Personal
            ==> attributes.policy_verdict(context) == Verdict::Deny,
        granted.covers(context.operation) && context.target == ResourceTarget::Collection(
            collection,
        ) ==> attributes.policy_verdict(context) == allow_all(),
        granted.covers(context.operation) && context.target is Object
            ==> attributes.policy_verdict(context) == Verdict::Allow(
            set![Constraint::InCollection(collection)],
        ),
        attributes.policy_verdict(context) matches Verdict::Allow(conditions)
            ==> conditions.subset_of(set![Constraint::InCollection(collection)]),
{
}

/// The deny list wins: with a personal token, an object or a collection on
/// its deny list is refused at every level, whatever grant it also has.
pub proof fn lemma_deny_list_wins(attributes: UserAttributes, context: Context)
    requires
        !attributes.global_admin,
        attributes.tokens@.contains_key(context.subject.token_id),
        attributes.tokens@[context.subject.token_id] == TokenPermissions::Personal,
        match context.target {
            ResourceTarget::Object(id) => attributes.objects.deny@.contains(id),
            ResourceTarget::Collection(id) => attributes.collections.deny@.contains(id),
            _ => false,
        },
    ensures
        attributes.policy_verdict(context) == Verdict::Deny,
{
}

/// An explicit entry for an object or a collection decides alone: with a
/// personal token, the grants held on collections and projects are
/// consulted only for a target without an entry.
pub proof fn lemma_explicit_entry_decides(attributes: UserAttributes, context: Context)
    requires
        !attributes.global_admin,
        attributes.tokens@.contains_key(context.subject.token_id),
        attributes.tokens@[context.subject.token_id] == TokenPermissions::Personal,
    ensures
        context.target matches ResourceTarget::Object(id) ==> attributes.policy_verdict(context)
            == match attributes.objects.explicit_verdict(id, context.operation) {
            Some(v) => v,
            None => attributes.cascade_verdict(context.operation),
        },
        context.target matches ResourceTarget::Collection(id) ==> attributes.policy_verdict(
            context,
        ) == match attributes.collections.explicit_verdict(id, context.operation) {
            Some(v) => v,
            None => attributes.cascade_verdict(context.operation),
        },
{
}

/// Self-service stays with the user: without the admin flag, a request on
/// the personal scope of user `owner` is allowed exactly when the subject
/// is `owner`, presents a personal token and is no service account; it is
/// then allowed without conditions.
pub proof fn lemma_self_service_boundary(
    attributes: UserAttributes,
    context: Context,
    owner: u128,
)
    requires
        !attributes.global_admin,
        context.target == ResourceTarget::Personal(owner),
    ensures
        attributes.policy_verdict(context) is Allow <==> (context.subject.user_id == owner
            && !attributes.service_account && attributes.tokens@.contains_key(
            context.subject.token_id,
        ) && attributes.tokens@[context.subject.token_id] == TokenPermissions::Personal),
        attributes.policy_verdict(context) is Allow ==> attributes.policy_verdict(context)
            == allow_all(),
{
}

/// A conditional allow from the grants on collections and projects lists
/// exactly those held at the requested level or above: a grant below the
/// request contributes nothing, and with no grant at or above it the
/// request is refused.
pub proof fn lemma_cascade_lists_sufficient_grants(
    attributes: UserAttributes,
    level: PermissionLevel,
    id: u128,
)
    ensures
        attributes.cascade_verdict(level) matches Verdict::Allow(conditions) ==> {
            &&& conditions.contains(Constraint::InProject(id)) <==> (
            attributes.projects@.contains_key(id) && attributes.projects@[id].covers(level))
            &&& conditions.contains(Constraint::InCollection(id)) <==> (
            attributes.collections.allow@.contains_key(id)
                && attributes.collections.allow@[id].covers(level))
            &&& !conditions.contains(Constraint::NotInCollection(id))
        },
        attributes.cascade_verdict(level) is Deny ==> {
            &&& !(attributes.projects@.contains_key(id) && attributes.projects@[id].covers(level))
            &&& !(attributes.collections.allow@.contains_key(id)
                && attributes.collections.allow@[id].covers(level))
        },
{
    let candidates = attributes.collection_constraints(level).union(
        attributes.project_constraints(level),
    );
    if attributes.projects@.contains_key(id) && attributes.projects@[id].covers(level) {
        assert(GrantTier::Project.constraint(id) == Constraint::InProject(id));
        assert(attributes.project_constraints(level).contains(Constraint::InProject(id)));
        assert(candidates.contains(Constraint::InProject(id)));
    }
    if attributes.collections.allow@.contains_key(id) && attributes.collections.allow@[id].covers(
        level,
    ) {
        assert(GrantTier::Collection.constraint(id) == Constraint::InCollection(id));
        assert(attributes.collection_constraints(level).contains(Constraint::InCollection(id)));
        assert(candidates.contains(Constraint::InCollection(id)));
    }
}

} // verus!
