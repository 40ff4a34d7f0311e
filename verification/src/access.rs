//! Who may reach which handlers: the admin chat its own, everyone else the subscribers',
//! unless blocked.

use crate::services::user::UserServiceError;
use vstd::prelude::*;

verus! {

/// Admits the admin chat, and nobody else.
#[derive(Clone, Copy, Debug, PartialEq, Eq, Structural)]
pub struct AdminAccessPolicy {
    pub admin_chat_id: i64,
}

impl AdminAccessPolicy {
    pub fn new(admin_chat_id: i64) -> (r: Self)
        ensures
            r.admin_chat_id == admin_chat_id,
    {
        AdminAccessPolicy { admin_chat_id }
    }

    /// Whether an update from the chat `chat_id` is admitted: only one from the admin
    /// chat is.
    pub fn is_granted(&self, chat_id: Option<i64>) -> (r: bool)
        ensures
            r == (chat_id == Some(self.admin_chat_id)),
    {
        match chat_id {
            Some(chat_id) => chat_id == self.admin_chat_id,
            None => false,
        }
    }
}

/// What the directory said when asked whether a user is blocked.
#[derive(Clone, Copy, Debug, PartialEq, Eq, Structural)]
pub enum BlockLookup {
    /// The user is known, and is blocked or is not.
    Known(bool),
    /// The directory has no record of the user.
    Unknown,
    /// The directory could not be asked.
    Failed,
}

impl BlockLookup {
    /// What an answer of the directory amounts to.
    pub open spec fn of_result(result: Result<bool, UserServiceError>) -> BlockLookup {
        match result {
            Ok(blocked) => BlockLookup::Known(blocked),
            Err(UserServiceError::UnknownUser { .. }) => BlockLookup::Unknown,
            Err(_) => BlockLookup::Failed,
        }
    }

    /// Reads an answer of the directory.
    pub fn from_result(result: &Result<bool, UserServiceError>) -> (r: BlockLookup)
        ensures
            r == Self::of_result(*result),
    {
        match result {
            Ok(blocked) => BlockLookup::Known(*blocked),
            Err(UserServiceError::UnknownUser { .. }) => BlockLookup::Unknown,
            Err(_) => BlockLookup::Failed,
        }
    }
}

/// What the subscriber policy says of an update.
#[derive(Clone, Copy, Debug, PartialEq, Eq, Structural)]
pub enum AccessStep {
    /// The directory must be asked first whether this user is blocked.
    IsBlocked { user_id: i64 },
    /// The update is admitted, or is not.
    Granted(bool),
}

/// Admits everyone but the admin chat and blocked users.
#[derive(Clone, Copy, Debug, PartialEq, Eq, Structural)]
pub struct SubscriberAccessPolicy {
    pub admin_chat_id: i64,
    /// Whether an update is admitted when the directory could not be asked.
    pub grant_on_failure: bool,
}

impl SubscriberAccessPolicy {
    /// The policy for the admin chat `admin_chat_id`. It fails open: an update is admitted
    /// when the directory cannot be asked.
    pub fn new(admin_chat_id: i64) -> (r: Self)
        ensures
            r == (SubscriberAccessPolicy { admin_chat_id, grant_on_failure: true }),
    {
        SubscriberAccessPolicy { admin_chat_id, grant_on_failure: true }
    }

    /// The same policy, but with `granted` as the answer when the directory cannot be
    /// asked.
    pub fn on_failure(self, granted: bool) -> (r: Self)
        ensures
            r == (SubscriberAccessPolicy {
                admin_chat_id: self.admin_chat_id,
                grant_on_failure: granted,
            }),
    {
        SubscriberAccessPolicy { admin_chat_id: self.admin_chat_id, grant_on_failure: granted }
    }

    /// What the policy says of an update from the chat `chat_id` and the user `user_id`,
    /// given what the directory has said of the user so far.
    ///
    /// The admin chat is never admitted, and the directory is not asked about it. An update
    /// that names no user is admitted. For any other, the directory is asked: a user who
    /// is not blocked, and one of whom there is no record, is admitted; a blocked one is
    /// not; and when the directory could not be asked, the policy's default decides.
    pub open spec fn decide(
        self,
        chat_id: Option<i64>,
        user_id: Option<i64>,
        lookup: Option<BlockLookup>,
    ) -> AccessStep {
        if chat_id == Some(self.admin_chat_id) {
            AccessStep::Granted(false)
        } else {
            match user_id {
                None => AccessStep::Granted(true),
                Some(user_id) => match lookup {
                    None => AccessStep::IsBlocked { user_id },
                    Some(BlockLookup::Known(blocked)) => AccessStep::Granted(!blocked),
                    Some(BlockLookup::Unknown) => AccessStep::Granted(true),
                    Some(BlockLookup::Failed) => AccessStep::Granted(self.grant_on_failure),
                },
            }
        }
    }

    /// Says whether an update is admitted, or that the directory must be asked first, as
    /// [`Self::decide`] describes it.
    pub fn is_granted(&self, chat_id: Option<i64>, user_id: Option<i64>, lookup: Option<BlockLookup>) -> (r:
        AccessStep)
        ensures
            r == self.decide(chat_id, user_id, lookup),
            chat_id == Some(self.admin_chat_id) ==> r == AccessStep::Granted(false),
            chat_id != Some(self.admin_chat_id) && user_id is Some && lookup == Some(
                BlockLookup::Failed,
            ) ==> r == AccessStep::Granted(self.grant_on_failure),
    {
        let from_admin = match chat_id {
            Some(chat_id) => chat_id == self.admin_chat_id,
            None => false,
        };
        if from_admin {
            // admins have no access to subscriber handlers
            AccessStep::Granted(false)
        } else {
            match user_id {
                None => AccessStep::Granted(true),
                Some(user_id) => match lookup {
                    None => AccessStep::IsBlocked { user_id },
                    Some(BlockLookup::Known(blocked)) => AccessStep::Granted(!blocked),
                    Some(BlockLookup::Unknown) => AccessStep::Granted(true),
                    Some(BlockLookup::Failed) => AccessStep::Granted(self.grant_on_failure),
                },
            }
        }
    }
}

} // verus!
