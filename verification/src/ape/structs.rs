//! The permission model: access levels, resource targets, token scopes,
//! decisions and the attribute record of one user.

use std::collections::HashMap;
use vstd::prelude::*;

verus! {

/// Access levels, from the weakest to the strongest.
#[derive(Debug, Clone, Copy, PartialEq, Eq, Structural, PartialOrd, Ord, Hash)]
pub enum PermissionLevel {
    NONE,
    READ,
    APPEND,
    WRITE,
    ADMIN,
}

impl PermissionLevel {
    /// Position of the level in the order `NONE < READ < APPEND < WRITE < ADMIN`.
    pub open spec fn rank(self) -> int {
        match self {
            PermissionLevel::NONE => 0,
            PermissionLevel::READ => 1,
            PermissionLevel::APPEND => 2,
            PermissionLevel::WRITE => 3,
            PermissionLevel::ADMIN => 4,
        }
    }

    /// `self` admits a request for `required`: `required <= self` in the order of levels.
    pub open spec fn covers(self, required: PermissionLevel) -> bool {
        required.rank() <= self.rank()
    }

    /// The level that a wire number stands for: 2 to 6 for `NONE` to
    /// `ADMIN`. Every other number is `NONE`.
    pub open spec fn of_number(value: int) -> PermissionLevel {
        if value == 3 {
            PermissionLevel::READ
        } else if value == 4 {
            PermissionLevel::APPEND
        } else if value == 5 {
            PermissionLevel::WRITE
        } else if value == 6 {
            PermissionLevel::ADMIN
        } else {
            PermissionLevel::NONE
        }
    }

    /// The wire number of a level.
    pub open spec fn number(self) -> int {
        self.rank() + 2
    }

    /// Writing a level as its number and reading it back gives the level;
    /// a number reads as a level above `NONE` only if it is that level's
    /// number.
    pub proof fn lemma_number_round_trip(self, value: int)
        ensures
            PermissionLevel::of_number(self.number()) == self,
            PermissionLevel::of_number(value) != PermissionLevel::NONE
                ==> PermissionLevel::of_number(value).number() == value,
    {
    }

    /// The order of levels is total, and `covers` is its `>=`.
    pub proof fn lemma_levels_totally_ordered(self, other: PermissionLevel, third: PermissionLevel)
        ensures
            self.covers(self),
            self.covers(other) || other.covers(self),
            self.covers(other) && other.covers(self) ==> self == other,
            self.covers(other) && other.covers(third) ==> self.covers(third),
            PermissionLevel::ADMIN.covers(self),
            self.covers(PermissionLevel::NONE),
    {
    }

    /// Position of the level in the order.
    pub fn level_rank(&self) -> (r: u8)
        ensures
            r == self.rank(),
    {
        match self {
            PermissionLevel::NONE => 0,
            PermissionLevel::READ => 1,
            PermissionLevel::APPEND => 2,
            PermissionLevel::WRITE => 3,
            PermissionLevel::ADMIN => 4,
        }
    }

    /// Whether a grant of `self` admits a request for `required`.
    pub fn allows(&self, required: &PermissionLevel) -> (ok: bool)
        ensures
            ok == self.covers(*required),
    {
        required.level_rank() <= self.level_rank()
    }

    /// Reads a level from its wire number. Numbers that name no level give
    /// `NONE`, never a higher level.
    pub fn from_i32(value: i32) -> (level: PermissionLevel)
        ensures
            level == PermissionLevel::of_number(value as int),
    {
        if value == 3 {
            PermissionLevel::READ
        } else if value == 4 {
            PermissionLevel::APPEND
        } else if value == 5 {
            PermissionLevel::WRITE
        } else if value == 6 {
            PermissionLevel::ADMIN
        } else {
            PermissionLevel::NONE
        }
    }

    /// The wire number of the level.
    pub fn as_i32(&self) -> (value: i32)
        ensures
            value == self.number(),
    {
        match self {
            PermissionLevel::NONE => 2,
            PermissionLevel::READ => 3,
            PermissionLevel::APPEND => 4,
            PermissionLevel::WRITE => 5,
            PermissionLevel::ADMIN => 6,
        }
    }
}

/// What a request is aimed at.
#[derive(Debug, Clone, Copy, PartialEq, Eq, Structural, Hash)]
pub enum ResourceTarget {
    Object(u128),
    Collection(u128),
    Project(u128),
    GlobalAdmin,
    /// Self-service operations of the user with this id.
    Personal(u128),
}

/// A fact about the target that has to be confirmed against the resource
/// hierarchy before a conditional decision counts as an authorization.
#[derive(Debug, Clone, Copy, PartialEq, Eq, Structural, Hash)]
pub enum Constraint {
    InProject(u128),
    InCollection(u128),
    NotInCollection(u128),
}

/// The outcome of an evaluation. `Allow` with no constraints is
/// unconditional; otherwise the target must satisfy one of the constraints.
#[derive(Debug, Clone, PartialEq, Eq)]
pub enum Decision {
    Deny,
    Allow(Vec<Constraint>),
}

/// A decision as a mathematical value: the constraints as a set.
pub enum Verdict {
    Deny,
    Allow(Set<Constraint>),
}

impl Decision {
    /// The decision with its constraints read as a set.
    pub open spec fn verdict(self) -> Verdict {
        match self {
            Decision::Deny => Verdict::Deny,
            Decision::Allow(constraints) => Verdict::Allow(constraints@.to_set()),
        }
    }

    /// No constraint is listed twice.
    pub open spec fn distinct(self) -> bool {
        match self {
            Decision::Deny => true,
            Decision::Allow(constraints) => constraints@.no_duplicates(),
        }
    }

    /// The decision is an allow without any constraint.
    pub open spec fn is_unconditional(self) -> bool {
        self matches Decision::Allow(constraints) && constraints@.len() == 0
    }
}

/// What one token of a user may be used for.
#[derive(Debug, Clone, Copy, PartialEq, Eq, Structural, Hash)]
pub enum TokenPermissions {
    /// Limited to one project, up to a level.
    ProjectScoped(u128, PermissionLevel),
    /// Limited to one collection, up to a level.
    CollectionScoped(u128, PermissionLevel),
    /// Carries everything the user is granted.
    Personal,
}

/// Explicit grants per resource together with resources that are refused
/// whatever the grants say.
#[derive(Debug, Clone)]
pub struct DenieablePerms {
    pub allow: HashMap<u128, PermissionLevel>,
    pub deny: Vec<u128>,
}

impl DenieablePerms {
    /// What the explicit entries say about resource `id` for a request of
    /// `level`: a refusal if it is on the deny list, else what its grant
    /// gives, and nothing if it has no entry at all.
    pub open spec fn explicit_verdict(self, id: u128, level: PermissionLevel) -> Option<Verdict> {
        if self.deny@.contains(id) {
            Some(Verdict::Deny)
        } else if self.allow@.contains_key(id) {
            if self.allow@[id].covers(level) {
                Some(Verdict::Allow(Set::empty()))
            } else {
                Some(Verdict::Deny)
            }
        } else {
            None
        }
    }
}

/// Everything the store knows about one user.
#[derive(Debug, Clone)]
pub struct UserAttributes {
    pub global_admin: bool,
    pub service_account: bool,
    pub projects: HashMap<u128, PermissionLevel>,
    pub collections: DenieablePerms,
    pub objects: DenieablePerms,
    pub tokens: HashMap<u128, TokenPermissions>,
}

/// Who asks: the user and the token that was presented.
#[derive(Debug, Clone, Copy, PartialEq, Eq, Structural, Hash)]
pub struct Subject {
    pub user_id: u128,
    pub token_id: u128,
}

/// One request: who asks, for which level of access, on what.
#[derive(Debug, Clone, Copy, PartialEq, Eq, Structural, Hash)]
pub struct Context {
    pub subject: Subject,
    pub operation: PermissionLevel,
    pub target: ResourceTarget,
}

} // verus!
