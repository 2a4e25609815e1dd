//! The activities exchanged between instances.

use crate::urls::ObjectUrl;
use vstd::prelude::*;

verus! {

/// Bars a person from an instance or from a community.
pub struct BlockUser {
    pub actor: ObjectUrl,
    pub to: Vec<ObjectUrl>,
    pub object: ObjectUrl,
    pub cc: Vec<ObjectUrl>,
    pub target: ObjectUrl,
    pub remove_data: Option<bool>,
    pub summary: Option<String>,
    pub expires: Option<i64>,
    pub id: ObjectUrl,
    pub audience: Option<ObjectUrl>,
}

/// Takes back a [`BlockUser`].
pub struct UndoBlockUser {
    pub actor: ObjectUrl,
    pub to: Vec<ObjectUrl>,
    pub object: BlockUser,
    pub cc: Vec<ObjectUrl>,
    pub id: ObjectUrl,
    pub audience: Option<ObjectUrl>,
}

/// Adds a person to a community's moderators, or a post to its featured posts.
pub struct CollectionAdd {
    pub actor: ObjectUrl,
    pub to: Vec<ObjectUrl>,
    pub object: ObjectUrl,
    pub target: ObjectUrl,
    pub cc: Vec<ObjectUrl>,
    pub id: ObjectUrl,
    pub audience: Option<ObjectUrl>,
}

/// Takes a person out of a community's moderators, or a post out of its
/// featured posts.
pub struct CollectionRemove {
    pub actor: ObjectUrl,
    pub to: Vec<ObjectUrl>,
    pub object: ObjectUrl,
    pub cc: Vec<ObjectUrl>,
    pub target: ObjectUrl,
    pub id: ObjectUrl,
    pub audience: Option<ObjectUrl>,
}

/// Marks an object as deleted. A `summary` tells that a moderator removed
/// it; without one the author deleted it.
pub struct Delete {
    pub actor: ObjectUrl,
    pub to: Vec<ObjectUrl>,
    pub object: ObjectUrl,
    pub cc: Vec<ObjectUrl>,
    pub summary: Option<String>,
    pub id: ObjectUrl,
    pub audience: Option<ObjectUrl>,
}

/// Takes back a [`Delete`].
pub struct UndoDelete {
    pub actor: ObjectUrl,
    pub to: Vec<ObjectUrl>,
    pub object: Delete,
    pub cc: Vec<ObjectUrl>,
    pub id: ObjectUrl,
    pub audience: Option<ObjectUrl>,
}

/// The activities that a community relays to its followers.
pub enum AnnouncableActivities {
    BlockUser(BlockUser),
    UndoBlockUser(UndoBlockUser),
    CollectionAdd(CollectionAdd),
    CollectionRemove(CollectionRemove),
    Delete(Delete),
    UndoDelete(UndoDelete),
}

/// The kind tag of an activity, as it appears in activity identifiers.
#[derive(Clone, Copy, Debug, PartialEq, Eq, Structural)]
pub enum ActivityKind {
    Block,
    Add,
    Remove,
    Delete,
    Undo,
    Announce,
}

impl AnnouncableActivities {
    /// The identifier of the wrapped activity.
    pub open spec fn id_spec(self) -> ObjectUrl {
        match self {
            AnnouncableActivities::BlockUser(a) => a.id,
            AnnouncableActivities::UndoBlockUser(a) => a.id,
            AnnouncableActivities::CollectionAdd(a) => a.id,
            AnnouncableActivities::CollectionRemove(a) => a.id,
            AnnouncableActivities::Delete(a) => a.id,
            AnnouncableActivities::UndoDelete(a) => a.id,
        }
    }

    /// The identifier of the wrapped activity.
    pub fn id(&self) -> (r: &ObjectUrl)
        ensures
            *r == self.id_spec(),
    {
        match self {
            AnnouncableActivities::BlockUser(a) => &a.id,
            AnnouncableActivities::UndoBlockUser(a) => &a.id,
            AnnouncableActivities::CollectionAdd(a) => &a.id,
            AnnouncableActivities::CollectionRemove(a) => &a.id,
            AnnouncableActivities::Delete(a) => &a.id,
            AnnouncableActivities::UndoDelete(a) => &a.id,
        }
    }

    /// The actor of the wrapped activity.
    pub open spec fn actor_spec(self) -> ObjectUrl {
        match self {
            AnnouncableActivities::BlockUser(a) => a.actor,
            AnnouncableActivities::UndoBlockUser(a) => a.actor,
            AnnouncableActivities::CollectionAdd(a) => a.actor,
            AnnouncableActivities::CollectionRemove(a) => a.actor,
            AnnouncableActivities::Delete(a) => a.actor,
            AnnouncableActivities::UndoDelete(a) => a.actor,
        }
    }

    /// The actor of the wrapped activity.
    pub fn actor(&self) -> (r: &ObjectUrl)
        ensures
            *r == self.actor_spec(),
    {
        match self {
            AnnouncableActivities::BlockUser(a) => &a.actor,
            AnnouncableActivities::UndoBlockUser(a) => &a.actor,
            AnnouncableActivities::CollectionAdd(a) => &a.actor,
            AnnouncableActivities::CollectionRemove(a) => &a.actor,
            AnnouncableActivities::Delete(a) => &a.actor,
            AnnouncableActivities::UndoDelete(a) => &a.actor,
        }
    }
}

impl AnnouncableActivities {
    /// The identifiers of the actors that have to be known before the
    /// activity can be verified: the acting person first, then who or what
    /// the activity is aimed at where that is an actor.
    pub open spec fn referenced_actors_spec(self) -> Seq<ObjectUrl> {
        match self {
            AnnouncableActivities::BlockUser(a) => seq![a.actor, a.object, a.target],
            AnnouncableActivities::UndoBlockUser(a) => seq![
                a.actor,
                a.object.object,
                a.object.target,
            ],
            AnnouncableActivities::CollectionAdd(a) => seq![a.actor, a.object],
            AnnouncableActivities::CollectionRemove(a) => seq![a.actor, a.object],
            AnnouncableActivities::Delete(a) => seq![a.actor],
            AnnouncableActivities::UndoDelete(a) => seq![a.actor],
        }
    }

    /// Lists the actors that have to be known before the activity can be
    /// verified.
    pub fn referenced_actors(&self) -> (r: Vec<ObjectUrl>)
        ensures
            r@ == self.referenced_actors_spec(),
    {
        let mut out: Vec<ObjectUrl> = Vec::new();
        match self {
            AnnouncableActivities::BlockUser(a) => {
                out.push(a.actor.clone());
                out.push(a.object.clone());
                out.push(a.target.clone());
                assert(out@ =~= seq![a.actor, a.object, a.target]);
            },
            AnnouncableActivities::UndoBlockUser(a) => {
                out.push(a.actor.clone());
                out.push(a.object.object.clone());
                out.push(a.object.target.clone());
                assert(out@ =~= seq![a.actor, a.object.object, a.object.target]);
            },
            AnnouncableActivities::CollectionAdd(a) => {
                out.push(a.actor.clone());
                out.push(a.object.clone());
                assert(out@ =~= seq![a.actor, a.object]);
            },
            AnnouncableActivities::CollectionRemove(a) => {
                out.push(a.actor.clone());
                out.push(a.object.clone());
                assert(out@ =~= seq![a.actor, a.object]);
            },
            AnnouncableActivities::Delete(a) => {
                out.push(a.actor.clone());
                assert(out@ =~= seq![a.actor]);
            },
            AnnouncableActivities::UndoDelete(a) => {
                out.push(a.actor.clone());
                assert(out@ =~= seq![a.actor]);
            },
        }
        out
    }
}

impl BlockUser {
    /// The identifier of the ban.
    pub fn id(&self) -> (r: &ObjectUrl)
        ensures
            *r == self.id,
    {
        &self.id
    }

    /// The person who bans.
    pub fn actor(&self) -> (r: &ObjectUrl)
        ensures
            *r == self.actor,
    {
        &self.actor
    }
}

impl CollectionAdd {
    /// The identifier of the addition.
    pub fn id(&self) -> (r: &ObjectUrl)
        ensures
            *r == self.id,
    {
        &self.id
    }

    /// The person who adds.
    pub fn actor(&self) -> (r: &ObjectUrl)
        ensures
            *r == self.actor,
    {
        &self.actor
    }
}

} // verus!
