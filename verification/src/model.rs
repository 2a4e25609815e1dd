//! Rows of the local state: actors, content, and the relations between them.
//!
//! A row is identified by its position in its table; rows are never dropped,
//! so a position stays valid for the life of the store.

use crate::urls::ObjectUrl;
use vstd::prelude::*;

verus! {

/// A person, local or cached from a remote instance.
pub struct Person {
    pub actor_id: ObjectUrl,
    pub name: String,
    pub local: bool,
    /// Whether the person administers the instance that is their home.
    pub admin: bool,
    pub banned: bool,
    pub ban_expires: Option<i64>,
    pub inbox_url: ObjectUrl,
    pub shared_inbox_url: Option<ObjectUrl>,
}

/// A community, local or cached from a remote instance.
pub struct Community {
    pub actor_id: ObjectUrl,
    pub local: bool,
    pub deleted: bool,
    pub removed: bool,
    pub inbox_url: ObjectUrl,
    pub shared_inbox_url: Option<ObjectUrl>,
    pub followers_url: ObjectUrl,
    pub moderators_url: ObjectUrl,
    pub featured_url: ObjectUrl,
}

/// An instance known to this one.
pub struct Site {
    pub actor_id: ObjectUrl,
    pub local: bool,
    pub inbox_url: ObjectUrl,
}

/// A post in a community.
pub struct Post {
    pub ap_id: ObjectUrl,
    pub community: usize,
    pub creator: usize,
    pub deleted: bool,
    pub removed: bool,
    pub featured_community: bool,
}

/// A comment under a post, possibly in reply to another comment.
pub struct Comment {
    pub ap_id: ObjectUrl,
    pub post: usize,
    pub creator: usize,
    pub parent: Option<usize>,
    pub content: String,
    pub deleted: bool,
    pub removed: bool,
}

/// A message from one person to another.
pub struct PrivateMessage {
    pub ap_id: ObjectUrl,
    pub creator: usize,
    pub recipient: usize,
    pub content: String,
    pub deleted: bool,
}

/// A person barred from a community, possibly until `expires`.
#[derive(Clone, Copy, Debug, PartialEq, Eq, Structural)]
pub struct CommunityBan {
    pub community: usize,
    pub person: usize,
    pub expires: Option<i64>,
}

/// A pair of a community and a person: a follower or a moderator.
#[derive(Clone, Copy, Debug, PartialEq, Eq, Structural)]
pub struct Membership {
    pub community: usize,
    pub person: usize,
}

/// `follower` follows `person`.
#[derive(Clone, Copy, Debug, PartialEq, Eq, Structural)]
pub struct PersonFollow {
    pub person: usize,
    pub follower: usize,
}

/// An account on this instance, held by the person in row `person`.
#[derive(Clone, Copy, Debug, PartialEq, Eq, Structural)]
pub struct LocalUser {
    pub person: usize,
}

/// `person` does not want to hear from `target`.
#[derive(Clone, Copy, Debug, PartialEq, Eq, Structural)]
pub struct PersonBlock {
    pub person: usize,
    pub target: usize,
}

/// The person in row `recipient` is to be told of the comment in row
/// `comment`, because it mentions the person or replies to them.
#[derive(Clone, Copy, Debug, PartialEq, Eq, Structural)]
pub struct Notice {
    pub recipient: usize,
    pub comment: usize,
}

/// Where a moderation action applies.
#[derive(Clone, Copy, Debug, PartialEq, Eq, Structural)]
pub enum Scope {
    Instance,
    Community(usize),
}

/// What a moderation log entry records.
#[derive(Clone, Copy, Debug, PartialEq, Eq, Structural)]
pub enum ModAction {
    Ban,
    Unban,
    AddModerator,
    RemoveModerator,
    Remove,
    Restore,
}

/// What a moderation action was aimed at, by its row.
#[derive(Clone, Copy, Debug, PartialEq, Eq, Structural)]
pub enum LogTarget {
    Person(usize),
    Community(usize),
    Post(usize),
    Comment(usize),
}

/// One entry of the append-only moderation log.
pub struct ModLogEntry {
    pub action: ModAction,
    pub moderator: usize,
    pub target: LogTarget,
    pub scope: Scope,
    pub reason: Option<String>,
    pub expires: Option<i64>,
    /// When the action was applied here, in seconds since the epoch.
    pub published: i64,
}

/// The inbox to deliver to for an actor: the shared inbox where there is
/// one, else the actor's own.
pub open spec fn preferred_inbox(shared: Option<ObjectUrl>, own: ObjectUrl) -> ObjectUrl {
    match shared {
        Some(s) => s,
        None => own,
    }
}

impl Person {
    /// The inbox that deliveries to this person go to.
    pub open spec fn inbox(self) -> ObjectUrl {
        preferred_inbox(self.shared_inbox_url, self.inbox_url)
    }

    /// The inbox that deliveries to this person go to.
    pub fn shared_inbox_or_inbox(&self) -> (r: ObjectUrl)
        ensures
            r == self.inbox(),
    {
        match &self.shared_inbox_url {
            Some(s) => s.clone(),
            None => self.inbox_url.clone(),
        }
    }
}

impl Community {
    /// The inbox that deliveries to this community go to.
    pub open spec fn inbox(self) -> ObjectUrl {
        preferred_inbox(self.shared_inbox_url, self.inbox_url)
    }

    /// The inbox that deliveries to this community go to.
    pub fn shared_inbox_or_inbox(&self) -> (r: ObjectUrl)
        ensures
            r == self.inbox(),
    {
        match &self.shared_inbox_url {
            Some(s) => s.clone(),
            None => self.inbox_url.clone(),
        }
    }
}

} // verus!
