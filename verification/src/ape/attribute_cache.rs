//! The attribute store: the record of every known user, by user id.

use super::policy_evaluator::evaluate_policy;
use super::structs::{Context, Decision, TokenPermissions, UserAttributes, Verdict};
use std::collections::HashMap;
use vstd::prelude::*;

verus! {

broadcast use vstd::std_specs::hash::group_hash_axioms;

/// Why a change to the store was not made.
#[derive(Debug, Clone, Copy, PartialEq, Eq, Structural)]
pub enum AttributeError {
    /// The store holds no record for the user.
    UserNotFound,
}

/// The records of all known users.
pub struct AttributeCache {
    user_policies: HashMap<u128, UserAttributes>,
}

impl View for AttributeCache {
    type V = Map<u128, UserAttributes>;

    closed spec fn view(&self) -> Map<u128, UserAttributes> {
        self.user_policies@
    }
}

/// `record` with the scope of `token_id` set to `scope`.
pub open spec fn with_token(
    record: UserAttributes,
    changed: UserAttributes,
    token_id: u128,
    scope: TokenPermissions,
) -> bool {
    &&& changed.tokens@ == record.tokens@.insert(token_id, scope)
    &&& changed == (UserAttributes { tokens: changed.tokens, ..record })
}

/// `record` without the token `token_id`.
pub open spec fn without_token(record: UserAttributes, changed: UserAttributes, token_id: u128) -> bool {
    &&& changed.tokens@ == record.tokens@.remove(token_id)
    &&& changed == (UserAttributes { tokens: changed.tokens, ..record })
}

impl AttributeCache {
    /// The decision that the store gives on a request: a refusal for a user
    /// without a record, else what the user's record gives.
    pub open spec fn verdict(self, context: Context) -> Verdict {
        if self@.contains_key(context.subject.user_id) {
            self@[context.subject.user_id].policy_verdict(context)
        } else {
            Verdict::Deny
        }
    }

    /// A store that holds the given records.
    pub fn new(user_policies: HashMap<u128, UserAttributes>) -> (cache: Self)
        ensures
            cache@ == user_policies@,
    {
        AttributeCache { user_policies }
    }

    /// Sets the record of `user_id` to `attr`, whether or not the user was known.
    pub fn update_attribute(&mut self, user_id: u128, attr: UserAttributes)
        ensures
            final(self)@ == old(self)@.insert(user_id, attr),
    {
        self.user_policies.insert(user_id, attr);
    }

    /// Sets the scope of token `token_id` of user `user_id`, replacing the
    /// scope that the token had. Fails, and changes nothing, exactly when
    /// the store has no record for the user.
    pub fn add_user_token(
        &mut self,
        user_id: u128,
        token_id: u128,
        token_perms: TokenPermissions,
    ) -> (result: Result<(), AttributeError>)
        ensures
            result is Ok <==> old(self)@.contains_key(user_id),
            result is Err ==> result == Err::<(), AttributeError>(AttributeError::UserNotFound)
                && final(self)@ == old(self)@,
            result is Ok ==> final(self)@.contains_key(user_id) && final(self)@ == old(
                self,
            )@.insert(user_id, final(self)@[user_id]) && with_token(
                old(self)@[user_id],
                final(self)@[user_id],
                token_id,
                token_perms,
            ),
    {
        match self.user_policies.remove(&user_id) {
            Some(mut p) => {
                p.tokens.insert(token_id, token_perms);
                self.user_policies.insert(user_id, p);
                assert(final(self)@ =~= old(self)@.insert(user_id, final(self)@[user_id]));
                Ok(())
            },
            None => {
                assert(final(self)@ =~= old(self)@);
                Err(AttributeError::UserNotFound)
            },
        }
    }

    /// Takes token `token_id` from user `user_id`; a token that the user
    /// does not hold is no error. Fails, and changes nothing, exactly when
    /// the store has no record for the user.
    pub fn remove_user_token(&mut self, user_id: &u128, token_id: &u128) -> (result: Result<
        (),
        AttributeError,
    >)
        ensures
            result is Ok <==> old(self)@.contains_key(*user_id),
            result is Err ==> result == Err::<(), AttributeError>(AttributeError::UserNotFound)
                && final(self)@ == old(self)@,
            result is Ok ==> final(self)@.contains_key(*user_id) && final(self)@ == old(
                self,
            )@.insert(*user_id, final(self)@[*user_id]) && without_token(
                old(self)@[*user_id],
                final(self)@[*user_id],
                *token_id,
            ),
    {
        match self.user_policies.remove(user_id) {
            Some(mut p) => {
                p.tokens.remove(token_id);
                self.user_policies.insert(*user_id, p);
                assert(final(self)@ =~= old(self)@.insert(*user_id, final(self)@[*user_id]));
                Ok(())
            },
            None => {
                assert(final(self)@ =~= old(self)@);
                Err(AttributeError::UserNotFound)
            },
        }
    }

    /// Decides a request: a user without a record is refused, every other
    /// request is decided by the user's record.
    pub fn check_permissions(&self, context: &Context) -> (decision: Decision)
        ensures
            decision.verdict() == self.verdict(*context),
            decision.distinct(),
    {
        if let Some(attributes) = self.user_policies.get(&context.subject.user_id) {
            evaluate_policy(attributes, context)
        } else {
            Decision::Deny
        }
    }
}

/// A user without a record is refused whatever is asked, and a request of
/// a known user is decided by that user's record alone: the records of
/// other users play no part in it.
pub proof fn lemma_store_decides_by_record(
    cache: AttributeCache,
    other: AttributeCache,
    context: Context,
)
    ensures
        !cache@.contains_key(context.subject.user_id) ==> cache.verdict(context) == Verdict::Deny,
        cache@.contains_key(context.subject.user_id) && other@.contains_key(
            context.subject.user_id,
        ) && cache@[context.subject.user_id] == other@[context.subject.user_id] ==> cache.verdict(
            context,
        ) == other.verdict(context),
{
}

} // verus!
