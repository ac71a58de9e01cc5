//! The permissions that a user's record gives to one of the user's tokens.

use super::contexts::{AllUserPermission, Permission, PermissionError, ResWithPerm};
use crate::token::bindings::{ulid_string, ulid_text};
use vstd::prelude::*;

verus! {

/// A token in a user's record, with the permission it is limited to, if any.
#[derive(Debug, Clone, PartialEq, Eq)]
pub struct Token {
    /// The token's identifier, as a ULID.
    pub id: String,
    pub permission: Option<Permission>,
}

/// The attributes in a user's record.
#[derive(Debug, Clone, PartialEq, Eq)]
pub struct Attributes {
    pub global_admin: bool,
    pub service_account: bool,
    pub tokens: Vec<Token>,
    pub personal_permissions: Vec<Permission>,
}

/// A user's record.
#[derive(Debug, Clone, PartialEq, Eq)]
pub struct User {
    pub attributes: Option<Attributes>,
}

impl Token {
    /// The token goes by the identifier `text` and is limited to a
    /// permission that names a resource.
    pub open spec fn is_scoped_as(self, text: Seq<char>) -> bool {
        self.id@ == text && (self.permission matches Some(perm) && perm.resource_id is Some)
    }
}

/// The permission of the first token of `tokens` that goes by the
/// identifier `text` and is limited to a permission that names a resource.
pub open spec fn first_scope(tokens: Seq<Token>, text: Seq<char>) -> Option<Permission>
    decreases tokens.len(),
{
    if tokens.len() == 0 {
        None
    } else if tokens.first().is_scoped_as(text) {
        tokens.first().permission
    } else {
        first_scope(tokens.drop_first(), text)
    }
}

/// What is read from a record: the permissions that apply to a token.
pub trait GetPermissions {
    fn get_permissions(&self, token_id: Option<u128>) -> Result<Vec<ResWithPerm>, PermissionError>;
}

impl User {
    /// The permissions that the record gives to the token `token_id`: the
    /// one permission that the token is limited to, where the record holds
    /// the token with such a permission, and none otherwise. A record
    /// without attributes gives an error, and so does a permission whose
    /// resource has no readable identifier.
    pub open spec fn permissions_of(self, token_id: Option<u128>) -> Result<
        Seq<ResWithPerm>,
        PermissionError,
    > {
        match self.attributes {
            None => Err(PermissionError::MissingAttributes),
            Some(attributes) => match token_id {
                None => Ok(Seq::empty()),
                Some(id) => match first_scope(attributes.tokens@, ulid_string(id)) {
                    None => Ok(Seq::empty()),
                    Some(perm) => match ResWithPerm::of_wire(perm) {
                        Ok(held) => Ok(seq![held]),
                        Err(e) => Err(e),
                    },
                },
            },
        }
    }
}

impl GetPermissions for User {
    fn get_permissions(&self, token_id: Option<u128>) -> (result: Result<
        Vec<ResWithPerm>,
        PermissionError,
    >)
        ensures
            result is Ok == self.permissions_of(token_id) is Ok,
            result matches Ok(held) ==> self.permissions_of(token_id) == Ok::<
                Seq<ResWithPerm>,
                PermissionError,
            >(held@),
            result matches Err(e) ==> self.permissions_of(token_id) == Err::<
                Seq<ResWithPerm>,
                PermissionError,
            >(e),
    {
        let attributes = match &self.attributes {
            Some(attributes) => attributes,
            None => {
                return Err(PermissionError::MissingAttributes);
            },
        };
        if let Some(t_id) = token_id {
            let text = ulid_text(t_id);
            let mut i: usize = 0;
            assert(attributes.tokens@.skip(0) =~= attributes.tokens@);
            while i < attributes.tokens.len()
                invariant
                    i <= attributes.tokens@.len(),
                    self.attributes == Some(*attributes),
                    token_id == Some(t_id),
                    text@ == ulid_string(t_id),
                    first_scope(attributes.tokens@, text@) == first_scope(
                        attributes.tokens@.skip(i as int),
                        text@,
                    ),
                decreases attributes.tokens@.len() - i,
            {
                let t = &attributes.tokens[i];
                let ghost rest = attributes.tokens@.skip(i as int);
                proof {
                    assert(rest.first() == attributes.tokens@[i as int]);
                    assert(rest.drop_first() =~= attributes.tokens@.skip(i + 1));
                    assert(first_scope(rest, text@) == if rest.first().is_scoped_as(text@) {
                        rest.first().permission
                    } else {
                        first_scope(rest.drop_first(), text@)
                    });
                }
                if t.id == text {
                    if let Some(perm) = &t.permission {
                        if perm.resource_id.is_some() {
                            return match ResWithPerm::read(perm) {
                                Ok(held) => {
                                    let mut list: Vec<ResWithPerm> = Vec::new();
                                    list.push(held);
                                    assert(list@ =~= seq![held]);
                                    Ok(list)
                                },
                                Err(e) => Err(e),
                            };
                        }
                    }
                }
                i += 1;
            }
        }
        Ok(Vec::new())
    }
}

impl User {
    /// `permission` holds the permissions `held`, the user `user_id` and the
    /// two flags of this record.
    pub open spec fn is_record_of(
        self,
        permission: AllUserPermission,
        held: Seq<ResWithPerm>,
        user_id: u128,
    ) -> bool {
        &&& permission.perms@ == held
        &&& permission.user_id == Some(user_id)
        &&& self.attributes is Some
        &&& permission.is_sa == self.attributes->0.service_account
        &&& permission.is_admin == self.attributes->0.global_admin
    }

    /// Everything the record permits the user `user_id` through the token
    /// `token_id`: the token's permissions, the user's identifier and the
    /// two flags of the record. Fails exactly when reading the token's
    /// permissions fails.
    pub fn permissions_for(&self, user_id: u128, token_id: Option<u128>) -> (result: Result<
        AllUserPermission,
        PermissionError,
    >)
        ensures
            match self.permissions_of(token_id) {
                Err(error) => (result matches Err(e) && e == error),
                Ok(held) => (result matches Ok(permission) && self.is_record_of(
                    permission,
                    held,
                    user_id,
                )),
            },
    {
        let perms = match self.get_permissions(token_id) {
            Ok(perms) => perms,
            Err(e) => {
                return Err(e);
            },
        };
        match &self.attributes {
            Some(attributes) => Ok(
                AllUserPermission {
                    perms,
                    user_id: Some(user_id),
                    is_sa: attributes.service_account,
                    is_admin: attributes.global_admin,
                },
            ),
            None => Err(PermissionError::MissingAttributes),
        }
    }
}

} // verus!
