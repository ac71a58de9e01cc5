//! Request contexts over resource permissions: what a caller asks for, the
//! permissions a user holds on single resources, and the comparison of the
//! two.

use crate::token::bindings::{parse_ulid, ulid_value};
use vstd::prelude::*;

verus! {

/// Access levels of resource permissions, from the weakest to the
/// strongest. `DENY` lies below every level that grants anything.
#[derive(Debug, Clone, Copy, PartialEq, Eq, Structural, PartialOrd, Ord, Hash)]
pub enum PermissionLevels {
    DENY,
    NONE,
    READ,
    APPEND,
    WRITE,
    ADMIN,
}

impl PermissionLevels {
    /// Position of the level in the order
    /// `DENY < NONE < READ < APPEND < WRITE < ADMIN`.
    pub open spec fn rank(self) -> int {
        match self {
            PermissionLevels::DENY => 0,
            PermissionLevels::NONE => 1,
            PermissionLevels::READ => 2,
            PermissionLevels::APPEND => 3,
            PermissionLevels::WRITE => 4,
            PermissionLevels::ADMIN => 5,
        }
    }

    /// `self` admits a request for `required`: `required <= self`.
    pub open spec fn covers(self, required: PermissionLevels) -> bool {
        required.rank() <= self.rank()
    }

    /// The level that a wire number stands for: 2 to 6 for `NONE` to
    /// `ADMIN`. Every other number is `DENY`.
    pub open spec fn of_number(value: int) -> PermissionLevels {
        if value == 2 {
            PermissionLevels::NONE
        } else if value == 3 {
            PermissionLevels::READ
        } else if value == 4 {
            PermissionLevels::APPEND
        } else if value == 5 {
            PermissionLevels::WRITE
        } else if value == 6 {
            PermissionLevels::ADMIN
        } else {
            PermissionLevels::DENY
        }
    }

    /// Position of the level in the order.
    pub fn level_rank(&self) -> (r: u8)
        ensures
            r == self.rank(),
    {
        match self {
            PermissionLevels::DENY => 0,
            PermissionLevels::NONE => 1,
            PermissionLevels::READ => 2,
            PermissionLevels::APPEND => 3,
            PermissionLevels::WRITE => 4,
            PermissionLevels::ADMIN => 5,
        }
    }

    /// Whether a permission of `self` admits a request for `required`.
    pub fn allows(&self, required: &PermissionLevels) -> (ok: bool)
        ensures
            ok == self.covers(*required),
    {
        required.level_rank() <= self.level_rank()
    }

    /// Reads a level from its wire number. Numbers that name no level give
    /// `DENY`.
    pub fn from_i32(value: i32) -> (level: PermissionLevels)
        ensures
            level == PermissionLevels::of_number(value as int),
    {
        if value == 2 {
            PermissionLevels::NONE
        } else if value == 3 {
            PermissionLevels::READ
        } else if value == 4 {
            PermissionLevels::APPEND
        } else if value == 5 {
            PermissionLevels::WRITE
        } else if value == 6 {
            PermissionLevels::ADMIN
        } else {
            PermissionLevels::DENY
        }
    }
}

/// A request for `level` on the resource `id`. With `allow_sa` every
/// service account passes.
#[derive(Debug, Clone, Copy, PartialEq, Eq, Structural, PartialOrd, Ord, Hash)]
pub struct ApeResourcePermission {
    pub id: u128,
    pub level: PermissionLevels,
    pub allow_sa: bool,
}

impl ApeResourcePermission {
    /// A request for `level` on the resource `id`.
    pub fn new(id: u128, level: PermissionLevels, allow_sa: bool) -> (perm: Self)
        ensures
            perm == (ApeResourcePermission { id, level, allow_sa }),
    {
        ApeResourcePermission { id, level, allow_sa }
    }
}

/// A request on the personal scope of user `id`. With `allow_proxy` a
/// caller without a user passes. No service account passes.
#[derive(Debug, Clone, Copy, PartialEq, Eq, Structural, PartialOrd, Ord, Hash)]
pub struct ApeUserPermission {
    pub id: u128,
    pub allow_proxy: bool,
}

/// A request on a resource, by the resource's tier. A project request
/// without a permission asks for nothing.
#[derive(Debug, Clone, Copy, PartialEq, Eq, PartialOrd, Ord, Hash)]
pub enum ResourceContext {
    Project(Option<ApeResourcePermission>),
    Collection(ApeResourcePermission),
    Dataset(ApeResourcePermission),
    Object(ApeResourcePermission),
}

/// What a caller asks for.
#[derive(Debug, Clone, Copy, PartialEq, Eq, PartialOrd, Ord, Hash)]
pub enum Context {
    /// Nothing that needs a permission.
    Empty,
    ResourceContext(ResourceContext),
    User(ApeUserPermission),
    GlobalAdmin,
}

impl Context {
    /// A request that needs no permission.
    pub fn empty() -> (ctx: Self)
        ensures
            ctx == Context::Empty,
    {
        Context::Empty
    }

    /// A request on a project, or on no project in particular.
    pub fn res_proj(res_perm: Option<(u128, PermissionLevels, bool)>) -> (ctx: Self)
        ensures
            ctx == Context::ResourceContext(
                ResourceContext::Project(
                    match res_perm {
                        Some(p) => Some(
                            ApeResourcePermission { id: p.0, level: p.1, allow_sa: p.2 },
                        ),
                        None => None,
                    },
                ),
            ),
    {
        Context::ResourceContext(
            ResourceContext::Project(
                match res_perm {
                    Some(p) => Some(ApeResourcePermission::new(p.0, p.1, p.2)),
                    None => None,
                },
            ),
        )
    }

    /// A request on a collection.
    pub fn res_col(id: u128, level: PermissionLevels, allow_sa: bool) -> (ctx: Self)
        ensures
            ctx == Context::ResourceContext(
                ResourceContext::Collection(ApeResourcePermission { id, level, allow_sa }),
            ),
    {
        Context::ResourceContext(
            ResourceContext::Collection(ApeResourcePermission::new(id, level, allow_sa)),
        )
    }

    /// A request on a dataset.
    pub fn res_ds(id: u128, level: PermissionLevels, allow_sa: bool) -> (ctx: Self)
        ensures
            ctx == Context::ResourceContext(
                ResourceContext::Dataset(ApeResourcePermission { id, level, allow_sa }),
            ),
    {
        Context::ResourceContext(
            ResourceContext::Dataset(ApeResourcePermission::new(id, level, allow_sa)),
        )
    }

    /// A request on an object.
    pub fn res_obj(id: u128, level: PermissionLevels, allow_sa: bool) -> (ctx: Self)
        ensures
            ctx == Context::ResourceContext(
                ResourceContext::Object(ApeResourcePermission { id, level, allow_sa }),
            ),
    {
        Context::ResourceContext(
            ResourceContext::Object(ApeResourcePermission::new(id, level, allow_sa)),
        )
    }

    /// A request on the personal scope of user `id`.
    pub fn user(id: u128, allow_proxy: bool) -> (ctx: Self)
        ensures
            ctx == Context::User(ApeUserPermission { id, allow_proxy }),
    {
        Context::User(ApeUserPermission { id, allow_proxy })
    }

    /// A request that only an admin is granted.
    pub fn admin() -> (ctx: Self)
        ensures
            ctx == Context::GlobalAdmin,
    {
        Context::GlobalAdmin
    }
}

/// A resource of the hierarchy, by its tier.
#[derive(Debug, Clone, Copy, PartialEq, Eq, Structural, PartialOrd, Ord, Hash)]
pub enum Resource {
    Project(u128),
    Collection(u128),
    Dataset(u128),
    Object(u128),
}

/// The resource that a permission on the wire is about, with its
/// identifier as text.
#[derive(Debug, Clone, PartialEq, Eq)]
pub enum ResourceId {
    ProjectId(String),
    CollectionId(String),
    DatasetId(String),
    ObjectId(String),
}

/// A permission as it comes over the wire.
#[derive(Debug, Clone, PartialEq, Eq)]
pub struct Permission {
    pub permission_level: i32,
    pub resource_id: Option<ResourceId>,
}

/// Why a permission on the wire cannot be read.
#[derive(Debug, Clone, Copy, PartialEq, Eq, Structural)]
pub enum PermissionError {
    /// The permission names no resource.
    UnknownResourceId,
    /// The resource's identifier is no ULID.
    InvalidResourceId,
    /// The user's record has no attributes.
    MissingAttributes,
}

/// A permission that a user holds on one resource.
#[derive(Debug, Clone, Copy, PartialEq, Eq, PartialOrd, Ord, Hash)]
pub enum ResWithPerm {
    Project((u128, PermissionLevels)),
    Collection((u128, PermissionLevels)),
    Dataset((u128, PermissionLevels)),
    Object((u128, PermissionLevels)),
}

impl ResWithPerm {
    /// The resource's identifier.
    pub open spec fn id(self) -> u128 {
        match self {
            ResWithPerm::Project(p) => p.0,
            ResWithPerm::Collection(p) => p.0,
            ResWithPerm::Dataset(p) => p.0,
            ResWithPerm::Object(p) => p.0,
        }
    }

    /// The level held on the resource.
    pub open spec fn level(self) -> PermissionLevels {
        match self {
            ResWithPerm::Project(p) => p.1,
            ResWithPerm::Collection(p) => p.1,
            ResWithPerm::Dataset(p) => p.1,
            ResWithPerm::Object(p) => p.1,
        }
    }

    /// The resource that the permission is held on, in its own tier.
    pub open spec fn resource(self) -> Resource {
        match self {
            ResWithPerm::Project(p) => Resource::Project(p.0),
            ResWithPerm::Collection(p) => Resource::Collection(p.0),
            ResWithPerm::Dataset(p) => Resource::Dataset(p.0),
            ResWithPerm::Object(p) => Resource::Object(p.0),
        }
    }

    /// What a permission on the wire reads as: its resource with the
    /// identifier as a number, and its level. A permission without a
    /// resource, or with an identifier that is no ULID, reads as nothing.
    pub open spec fn of_wire(value: Permission) -> Result<ResWithPerm, PermissionError> {
        let level = PermissionLevels::of_number(value.permission_level as int);
        match value.resource_id {
            None => Err(PermissionError::UnknownResourceId),
            Some(ResourceId::ProjectId(text)) => match ulid_value(text@) {
                Some(id) => Ok(ResWithPerm::Project((id, level))),
                None => Err(PermissionError::InvalidResourceId),
            },
            Some(ResourceId::CollectionId(text)) => match ulid_value(text@) {
                Some(id) => Ok(ResWithPerm::Collection((id, level))),
                None => Err(PermissionError::InvalidResourceId),
            },
            Some(ResourceId::DatasetId(text)) => match ulid_value(text@) {
                Some(id) => Ok(ResWithPerm::Dataset((id, level))),
                None => Err(PermissionError::InvalidResourceId),
            },
            Some(ResourceId::ObjectId(text)) => match ulid_value(text@) {
                Some(id) => Ok(ResWithPerm::Object((id, level))),
                None => Err(PermissionError::InvalidResourceId),
            },
        }
    }

    /// Reads a permission from the wire.
    pub fn read(value: &Permission) -> (result: Result<ResWithPerm, PermissionError>)
        ensures
            result == ResWithPerm::of_wire(*value),
    {
        let level = PermissionLevels::from_i32(value.permission_level);
        match &value.resource_id {
            None => Err(PermissionError::UnknownResourceId),
            Some(ResourceId::ProjectId(text)) => match parse_ulid(text.as_str()) {
                Some(id) => Ok(ResWithPerm::Project((id, level))),
                None => Err(PermissionError::InvalidResourceId),
            },
            Some(ResourceId::CollectionId(text)) => match parse_ulid(text.as_str()) {
                Some(id) => Ok(ResWithPerm::Collection((id, level))),
                None => Err(PermissionError::InvalidResourceId),
            },
            Some(ResourceId::DatasetId(text)) => match parse_ulid(text.as_str()) {
                Some(id) => Ok(ResWithPerm::Dataset((id, level))),
                None => Err(PermissionError::InvalidResourceId),
            },
            Some(ResourceId::ObjectId(text)) => match parse_ulid(text.as_str()) {
                Some(id) => Ok(ResWithPerm::Object((id, level))),
                None => Err(PermissionError::InvalidResourceId),
            },
        }
    }

    /// Reads a permission from the wire.
    pub fn try_from(value: Permission) -> (result: Result<ResWithPerm, PermissionError>)
        ensures
            result == ResWithPerm::of_wire(value),
    {
        ResWithPerm::read(&value)
    }

    /// The resource's identifier.
    pub fn resource_id(&self) -> (id: u128)
        ensures
            id == self.id(),
    {
        match self {
            ResWithPerm::Project(p) => p.0,
            ResWithPerm::Collection(p) => p.0,
            ResWithPerm::Dataset(p) => p.0,
            ResWithPerm::Object(p) => p.0,
        }
    }

    /// The resource that the permission is held on, in its own tier.
    pub fn held_resource(&self) -> (resource: Resource)
        ensures
            resource == self.resource(),
    {
        match self {
            ResWithPerm::Project(p) => Resource::Project(p.0),
            ResWithPerm::Collection(p) => Resource::Collection(p.0),
            ResWithPerm::Dataset(p) => Resource::Dataset(p.0),
            ResWithPerm::Object(p) => Resource::Object(p.0),
        }
    }

    /// The level held on the resource.
    pub fn held_level(&self) -> (level: PermissionLevels)
        ensures
            level == self.level(),
    {
        match self {
            ResWithPerm::Project(p) => p.1,
            ResWithPerm::Collection(p) => p.1,
            ResWithPerm::Dataset(p) => p.1,
            ResWithPerm::Object(p) => p.1,
        }
    }
}

/// Whether `resource` occurs in `list`.
pub fn resource_listed(list: &Vec<Resource>, resource: Resource) -> (listed: bool)
    ensures
        listed == list@.contains(resource),
{
    let mut i: usize = 0;
    while i < list.len()
        invariant
            i <= list.len(),
            forall|j: int| 0 <= j < i ==> list@[j] != resource,
        decreases list.len() - i,
    {
        if list[i] == resource {
            return true;
        }
        i += 1;
    }
    false
}

/// What a comparison gives for a request on one resource.
pub enum Grant {
    /// The request is refused.
    Refused,
    /// The request is granted as it stands.
    Granted,
    /// The request is granted if the resource lies under one of these.
    GrantedUnder(Set<Resource>),
}

/// What a comparison gives for a request.
pub enum ContextGrant {
    /// The request is refused.
    Refused,
    /// The request is granted as it stands.
    Granted,
    /// The request is granted if the first resource lies under one of the others.
    GrantedUnder(Resource, Set<Resource>),
}

/// The outcome of a comparison for one resource as a mathematical value.
pub open spec fn grant_of(result: (bool, Option<Vec<Resource>>)) -> Grant {
    if !result.0 {
        Grant::Refused
    } else {
        match result.1 {
            None => Grant::Granted,
            Some(under) => Grant::GrantedUnder(under@.to_set()),
        }
    }
}

/// The outcome of a comparison as a mathematical value.
pub open spec fn context_grant_of(result: (bool, Option<(Resource, Vec<Resource>)>)) -> ContextGrant {
    if !result.0 {
        ContextGrant::Refused
    } else {
        match result.1 {
            None => ContextGrant::Granted,
            Some((resource, under)) => ContextGrant::GrantedUnder(resource, under@.to_set()),
        }
    }
}

/// Everything a user is permitted: the permissions on single resources, the
/// user's identifier where there is a user, and the two flags.
#[derive(Debug, Clone, PartialEq, Eq)]
pub struct AllUserPermission {
    pub perms: Vec<ResWithPerm>,
    pub user_id: Option<u128>,
    pub is_sa: bool,
    pub is_admin: bool,
}

impl Default for AllUserPermission {
    /// No permissions, no user, neither flag: what a caller without a user holds.
    fn default() -> (permission: Self)
        ensures
            permission.perms@.len() == 0,
            permission.user_id is None,
            !permission.is_sa,
            !permission.is_admin,
    {
        AllUserPermission { perms: Vec::new(), user_id: None, is_sa: false, is_admin: false }
    }
}

impl AllUserPermission {
    /// A permission at the requested level or above is held on the very
    /// resource that is asked for.
    pub open spec fn holds_directly(self, perm: ApeResourcePermission) -> bool {
        exists|i: int|
            0 <= i < self.perms@.len() && (#[trigger] self.perms@[i]).level().covers(perm.level)
                && self.perms@[i].id() == perm.id
    }

    /// The resources on which a permission at the requested level or above
    /// is held among the first `count` permissions, each in its own tier.
    pub open spec fn held_under(self, perm: ApeResourcePermission, count: int) -> Set<Resource> {
        Set::new(
            |r: Resource|
                exists|i: int|
                    0 <= i < count && i < self.perms@.len() && (
                    #[trigger] self.perms@[i]).level().covers(perm.level) && r
                        == self.perms@[i].resource(),
        )
    }

    /// What the user's permissions give for a request on one resource.
    ///
    /// A service account passes where the request lets service accounts
    /// pass. A permission at the requested level or above on the resource
    /// itself grants the request. Otherwise the request is granted under
    /// every resource on which such a permission is held, a project as a
    /// project and a collection as a collection, and refused if there is
    /// none.
    pub open spec fn single_grant(self, perm: ApeResourcePermission) -> Grant {
        if perm.allow_sa && self.is_sa {
            Grant::Granted
        } else if self.holds_directly(perm) {
            Grant::Granted
        } else if self.held_under(perm, self.perms@.len() as int) =~= Set::empty() {
            Grant::Refused
        } else {
            Grant::GrantedUnder(self.held_under(perm, self.perms@.len() as int))
        }
    }

    /// Compares a request on one resource with the user's permissions.
    pub fn check_single_perm(&self, perm: ApeResourcePermission) -> (result: (
        bool,
        Option<Vec<Resource>>,
    ))
        ensures
            grant_of(result) == self.single_grant(perm),
            !result.0 ==> result.1 is None,
            result.1 matches Some(under) ==> under@.no_duplicates(),
    {
        if perm.allow_sa && self.is_sa {
            return (true, None);
        }
        let mut constraints: Vec<Resource> = Vec::new();
        let mut i: usize = 0;
        while i < self.perms.len()
            invariant
                i <= self.perms@.len(),
                !(perm.allow_sa && self.is_sa),
                constraints@.no_duplicates(),
                constraints@.to_set() =~= self.held_under(perm, i as int),
                forall|j: int|
                    0 <= j < i ==> !((#[trigger] self.perms@[j]).level().covers(perm.level)
                        && self.perms@[j].id() == perm.id),
            decreases self.perms@.len() - i,
        {
            let x = &self.perms[i];
            let ghost before = constraints@;
            if x.held_level().allows(&perm.level) {
                if x.resource_id() == perm.id {
                    return (true, None);
                } else {
                    let under = x.held_resource();
                    if !resource_listed(&constraints, under) {
                        constraints.push(under);
                        assert(constraints@ == before.push(under));
                        assert(constraints@[before.len() as int] == under);
                    }
                }
            }
            proof {
                let grown = self.held_under(perm, i + 1);
                assert forall|r: Resource| constraints@.contains(r) implies grown.contains(r) by {
                    if before.contains(r) {
                        assert(before.to_set().contains(r));
                    } else {
                        assert(r == self.perms@[i as int].resource());
                    }
                }
                assert forall|r: Resource| grown.contains(r) implies constraints@.contains(r) by {
                    let k = choose|k: int|
                        0 <= k < i + 1 && k < self.perms@.len() && (
                        #[trigger] self.perms@[k]).level().covers(perm.level) && r
                            == self.perms@[k].resource();
                    if k < i {
                        assert(self.held_under(perm, i as int).contains(r));
                        assert(before.to_set().contains(r));
                        let at = choose|at: int| 0 <= at < before.len() && before[at] == r;
                        assert(constraints@[at] == r);
                    } else {
                        if before.contains(r) {
                            let at = choose|at: int| 0 <= at < before.len() && before[at] == r;
                            assert(constraints@[at] == r);
                        } else {
                            assert(constraints@[before.len() as int] == r);
                        }
                    }
                }
                assert(constraints@.to_set() =~= grown);
            }
            i += 1;
        }
        if constraints.len() == 0 {
            proof {
                assert(constraints@.to_set() =~= Set::empty());
            }
            (false, None)
        } else {
            proof {
                assert(constraints@.to_set().contains(constraints@[0]));
            }
            (true, Some(constraints))
        }
    }
}

/// A grant for one resource as the grant for a request on `resource`.
pub open spec fn grant_for(resource: Resource, grant: Grant) -> ContextGrant {
    match grant {
        Grant::Refused => ContextGrant::Refused,
        Grant::Granted => ContextGrant::Granted,
        Grant::GrantedUnder(under) => ContextGrant::GrantedUnder(resource, under),
    }
}

/// Why a request was not authorized.
#[derive(Debug, Clone, Copy, PartialEq, Eq, Structural)]
pub enum PolicyError {
    /// The user's permissions do not cover the request.
    InvalidPermissions,
}

impl AllUserPermission {
    /// What the user's permissions give for a request.
    ///
    /// An admin request needs the admin flag. An empty request, and a
    /// project request without a permission, are granted. A request on a
    /// resource is compared with the permissions held; a grant under other
    /// resources names the requested resource in its own tier. A request on
    /// a user's personal scope is refused to every service account; it is
    /// granted to that user, and to a caller without a user where the
    /// request lets proxies pass.
    pub open spec fn context_grant(self, ctx: Context) -> ContextGrant {
        match ctx {
            Context::GlobalAdmin => if self.is_admin {
                ContextGrant::Granted
            } else {
                ContextGrant::Refused
            },
            Context::Empty => ContextGrant::Granted,
            Context::ResourceContext(ResourceContext::Project(None)) => ContextGrant::Granted,
            Context::ResourceContext(ResourceContext::Project(Some(perm))) => grant_for(
                Resource::Project(perm.id),
                self.single_grant(perm),
            ),
            Context::ResourceContext(ResourceContext::Collection(perm)) => grant_for(
                Resource::Collection(perm.id),
                self.single_grant(perm),
            ),
            Context::ResourceContext(ResourceContext::Dataset(perm)) => grant_for(
                Resource::Dataset(perm.id),
                self.single_grant(perm),
            ),
            Context::ResourceContext(ResourceContext::Object(perm)) => grant_for(
                Resource::Object(perm.id),
                self.single_grant(perm),
            ),
            Context::User(user) => if self.is_sa {
                ContextGrant::Refused
            } else {
                match self.user_id {
                    Some(id) => if id == user.id {
                        ContextGrant::Granted
                    } else {
                        ContextGrant::Refused
                    },
                    None => if user.allow_proxy {
                        ContextGrant::Granted
                    } else {
                        ContextGrant::Refused
                    },
                }
            },
        }
    }

    /// Compares a request on `resource` with the user's permissions.
    fn compare_resource(&self, resource: Resource, perm: ApeResourcePermission) -> (result: (
        bool,
        Option<(Resource, Vec<Resource>)>,
    ))
        ensures
            context_grant_of(result) == grant_for(resource, self.single_grant(perm)),
            !result.0 ==> result.1 is None,
            result.1 matches Some((_, under)) ==> under@.no_duplicates(),
    {
        let (ok, constraints) = self.check_single_perm(perm);
        match constraints {
            Some(under) => (ok, Some((resource, under))),
            None => (ok, None),
        }
    }

    /// Compares a request with the user's permissions.
    pub fn compare_ctx(&self, ctx: Context) -> (result: (bool, Option<(Resource, Vec<Resource>)>))
        ensures
            context_grant_of(result) == self.context_grant(ctx),
            !result.0 ==> result.1 is None,
            result.1 matches Some((_, under)) ==> under@.no_duplicates(),
    {
        match ctx {
            Context::GlobalAdmin => {
                if self.is_admin {
                    (true, None)
                } else {
                    (false, None)
                }
            },
            Context::Empty => (true, None),
            Context::ResourceContext(res_ctx) => match res_ctx {
                ResourceContext::Project(pperm) => {
                    if let Some(perm) = pperm {
                        self.compare_resource(Resource::Project(perm.id), perm)
                    } else {
                        (true, None)
                    }
                },
                ResourceContext::Collection(cperm) => self.compare_resource(
                    Resource::Collection(cperm.id),
                    cperm,
                ),
                ResourceContext::Dataset(dperm) => self.compare_resource(
                    Resource::Dataset(dperm.id),
                    dperm,
                ),
                ResourceContext::Object(operm) => self.compare_resource(
                    Resource::Object(operm.id),
                    operm,
                ),
            },
            Context::User(uid) => {
                if self.is_sa {
                    return (false, None);
                }
                match self.user_id {
                    Some(id) => {
                        if id == uid.id {
                            (true, None)
                        } else {
                            (false, None)
                        }
                    },
                    None => {
                        if uid.allow_proxy {
                            (true, None)
                        } else {
                            (false, None)
                        }
                    },
                }
            },
        }
    }

    /// Decides one request: an error if the permissions do not cover it,
    /// else what is left to confirm against the resource hierarchy, if
    /// anything: the requested resource and the resources of which it has
    /// to lie under one.
    pub fn authorize(&self, ctx: Context) -> (result: Result<
        Option<(Resource, Vec<Resource>)>,
        PolicyError,
    >)
        ensures
            result is Err <==> self.context_grant(ctx) is Refused,
            result matches Ok(pending) ==> context_grant_of((true, pending)) == self.context_grant(
                ctx,
            ) && (pending matches Some((_, under)) ==> under@.no_duplicates()),
    {
        let (ok, rescon) = self.compare_ctx(ctx);
        if !ok {
            return Err(PolicyError::InvalidPermissions);
        }
        Ok(rescon)
    }
}

/// Adds to `into` every resource of `from` that it does not hold yet.
pub fn merge_resources(into: &mut Vec<Resource>, from: &Vec<Resource>)
    requires
        old(into)@.no_duplicates(),
    ensures
        final(into)@.no_duplicates(),
        final(into)@.to_set() == old(into)@.to_set().union(from@.to_set()),
        old(into)@.is_prefix_of(final(into)@),
{
    let ghost start = into@;
    let mut i: usize = 0;
    while i < from.len()
        invariant
            i <= from@.len(),
            into@.no_duplicates(),
            start.is_prefix_of(into@),
            into@.to_set() =~= start.to_set().union(from@.take(i as int).to_set()),
        decreases from@.len() - i,
    {
        let ghost before = into@;
        let resource = from[i];
        if !resource_listed(into, resource) {
            into.push(resource);
            assert(into@ == before.push(resource));
            assert(into@[before.len() as int] == resource);
        }
        proof {
            let seen = from@.take(i as int);
            let seen_next = from@.take(i + 1);
            let grown = start.to_set().union(seen_next.to_set());
            assert forall|r: Resource| into@.contains(r) implies grown.contains(r) by {
                if before.contains(r) {
                    assert(before.to_set().contains(r));
                    if !start.to_set().contains(r) {
                        assert(seen.to_set().contains(r));
                        let k = choose|k: int|
                            0 <= k < seen.len() && seen[k] == r;
                        assert(seen_next[k] == r);
                    }
                } else {
                    assert(r == resource);
                    assert(seen_next[i as int] == r);
                }
            }
            assert forall|r: Resource| grown.contains(r) implies into@.contains(r) by {
                if start.to_set().contains(r) {
                    assert(before.to_set().contains(r));
                    let at = choose|at: int| 0 <= at < before.len() && before[at] == r;
                    assert(into@[at] == r);
                } else {
                    let k = choose|k: int|
                        0 <= k < seen_next.len() && seen_next[k] == r;
                    if k < i {
                        assert(seen[k] == r);
                        assert(seen.to_set().contains(r));
                        assert(before.to_set().contains(r));
                        let at = choose|at: int| 0 <= at < before.len() && before[at] == r;
                        assert(into@[at] == r);
                    } else {
                        assert(r == resource);
                        if before.contains(r) {
                            let at = choose|at: int| 0 <= at < before.len() && before[at] == r;
                            assert(into@[at] == r);
                        } else {
                            assert(into@[before.len() as int] == r);
                        }
                    }
                }
            }
            assert(into@.to_set() =~= grown);
        }
        i += 1;
    }
    assert(from@.take(i as int) =~= from@);
}

impl AllUserPermission {
    /// No request of `ctxs` is refused.
    pub open spec fn grants_all(self, ctxs: Seq<Context>) -> bool {
        forall|i: int| 0 <= i < ctxs.len() ==> !(self.context_grant(#[trigger] ctxs[i]) is Refused)
    }

    /// The requested resources of those requests of `ctxs` that are granted
    /// under other resources, in the order of the requests.
    pub open spec fn pending_resources(self, ctxs: Seq<Context>) -> Seq<Resource>
        decreases ctxs.len(),
    {
        if ctxs.len() == 0 {
            Seq::empty()
        } else {
            let earlier = self.pending_resources(ctxs.drop_last());
            match self.context_grant(ctxs.last()) {
                ContextGrant::GrantedUnder(resource, _) => earlier.push(resource),
                _ => earlier,
            }
        }
    }

    /// The resources under which some request of `ctxs` is granted.
    pub open spec fn pending_under(self, ctxs: Seq<Context>) -> Set<Resource> {
        Set::new(
            |r: Resource|
                exists|i: int|
                    0 <= i < ctxs.len() && (self.context_grant(
                        #[trigger] ctxs[i],
                    ) matches ContextGrant::GrantedUnder(_, under) && under.contains(r)),
        )
    }

    /// Decides several requests at once: an error if the permissions do not
    /// cover one of them, else what is left to confirm against the resource
    /// hierarchy. Nothing is left where no request was granted under other
    /// resources. Otherwise it is the requested resources that were granted
    /// under others, in the order of the requests, and all the resources
    /// under which one was granted, each once.
    pub fn authorize_all(&self, ctxs: Vec<Context>) -> (result: Result<
        Option<(Vec<Resource>, Vec<Resource>)>,
        PolicyError,
    >)
        ensures
            result is Ok <==> self.grants_all(ctxs@),
            result matches Ok(None) ==> self.pending_under(ctxs@) =~= Set::empty(),
            result matches Ok(Some((resources, under))) ==> resources@ == self.pending_resources(
                ctxs@,
            ) && under@.no_duplicates() && under@.len() > 0 && under@.to_set()
                == self.pending_under(ctxs@),
    {
        let mut ress: Vec<Resource> = Vec::new();
        let mut outer_constraints: Vec<Resource> = Vec::new();
        let mut i: usize = 0;
        while i < ctxs.len()
            invariant
                i <= ctxs@.len(),
                self.grants_all(ctxs@.take(i as int)),
                ress@ == self.pending_resources(ctxs@.take(i as int)),
                outer_constraints@.no_duplicates(),
                outer_constraints@.to_set() =~= self.pending_under(ctxs@.take(i as int)),
            decreases ctxs@.len() - i,
        {
            let ghost before = outer_constraints@;
            let ghost done = ctxs@.take(i as int);
            let ghost next = ctxs@.take(i + 1);
            proof {
                assert(next.drop_last() =~= done);
                assert(next.last() == ctxs@[i as int]);
            }
            let (ok, rescon) = self.compare_ctx(ctxs[i]);
            if !ok {
                return Err(PolicyError::InvalidPermissions);
            }
            if let Some((res, constraints)) = rescon {
                ress.push(res);
                merge_resources(&mut outer_constraints, &constraints);
            }
            proof {
                let grown = self.pending_under(next);
                assert forall|r: Resource| outer_constraints@.contains(r) implies grown.contains(
                    r,
                ) by {
                    if before.to_set().contains(r) {
                        let k = choose|k: int|
                            0 <= k < done.len() && (self.context_grant(
                                #[trigger] done[k],
                            ) matches ContextGrant::GrantedUnder(_, under) && under.contains(r));
                        assert(next[k] == done[k]);
                    } else {
                        assert(outer_constraints@.to_set().contains(r));
                        assert(next[i as int] == ctxs@[i as int]);
                    }
                }
                assert forall|r: Resource| grown.contains(r) implies outer_constraints@.contains(
                    r,
                ) by {
                    let k = choose|k: int|
                        0 <= k < next.len() && (self.context_grant(
                            #[trigger] next[k],
                        ) matches ContextGrant::GrantedUnder(_, under) && under.contains(r));
                    if k < i {
                        assert(done[k] == next[k]);
                        assert(self.pending_under(done).contains(r));
                        assert(before.to_set().contains(r));
                        assert(outer_constraints@.to_set().contains(r));
                    } else {
                        assert(outer_constraints@.to_set().contains(r));
                    }
                }
                assert(outer_constraints@.to_set() =~= grown);
                assert forall|k: int| 0 <= k < next.len() implies !(self.context_grant(
                    #[trigger] next[k],
                ) is Refused) by {
                    if k < i {
                        assert(done[k] == next[k]);
                    }
                }
            }
            i += 1;
        }
        assert(ctxs@.take(i as int) =~= ctxs@);
        if outer_constraints.len() == 0 {
            assert(outer_constraints@.to_set() =~= Set::empty());
            Ok(None)
        } else {
            Ok(Some((ress, outer_constraints)))
        }
    }
}

/// A request on a user's personal scope is granted exactly to a caller that
/// is no service account and is either that user or, where the request lets
/// proxies pass, a caller without a user. Whether the caller is an admin
/// plays no part.
pub proof fn lemma_personal_scope_is_the_users(
    permission: AllUserPermission,
    request: ApeUserPermission,
)
    ensures
        permission.context_grant(Context::User(request)) is Granted <==> (!permission.is_sa && (
        permission.user_id == Some(request.id) || (permission.user_id is None
            && request.allow_proxy))),
        !(permission.context_grant(Context::User(request)) is GrantedUnder),
{
}

/// A request that is granted under other resources names its target in the
/// target's own tier and with the target's identifier, and the resources
/// under which it is granted are those of the single comparison.
pub proof fn lemma_target_keeps_its_tier(
    permission: AllUserPermission,
    perm: ApeResourcePermission,
    under: Set<Resource>,
)
    requires
        permission.single_grant(perm) == Grant::GrantedUnder(under),
    ensures
        permission.context_grant(Context::ResourceContext(ResourceContext::Project(Some(perm))))
            == ContextGrant::GrantedUnder(Resource::Project(perm.id), under),
        permission.context_grant(Context::ResourceContext(ResourceContext::Collection(perm)))
            == ContextGrant::GrantedUnder(Resource::Collection(perm.id), under),
        permission.context_grant(Context::ResourceContext(ResourceContext::Dataset(perm)))
            == ContextGrant::GrantedUnder(Resource::Dataset(perm.id), under),
        permission.context_grant(Context::ResourceContext(ResourceContext::Object(perm)))
            == ContextGrant::GrantedUnder(Resource::Object(perm.id), under),
{
}

} // verus!
