//! Changes that local users ask for, turned into activities on their way out.

use crate::collection_add::{is_collection_dispatch, CollectionType};
use crate::deletion::{
    can_build_delete, is_delete_dispatch, is_delete_of, is_undo_delete_of,
    send_apub_delete_in_community, DeletableObjects,
};
use crate::dispatch::{Delivery, Envelope, Outbound};
use crate::error::FederationError;
use crate::protocol::{
    ActivityKind, AnnouncableActivities, CollectionAdd, CollectionRemove, Delete, UndoDelete,
};
use crate::store::{Store, StoreView};
use crate::urls::text_of;
use vstd::prelude::*;

verus! {

/// A user deletes or restores a post of their own.
pub struct DeletePost {
    pub post_id: usize,
    pub deleted: bool,
}

/// A moderator removes or restores a post.
pub struct RemovePost {
    pub post_id: usize,
    pub removed: bool,
    pub reason: Option<String>,
}

/// A user deletes or restores a comment of their own.
pub struct DeleteComment {
    pub comment_id: usize,
    pub deleted: bool,
}

/// A moderator removes or restores a comment.
pub struct RemoveComment {
    pub comment_id: usize,
    pub removed: bool,
    pub reason: Option<String>,
}

/// A user deletes or restores a private message of their own.
pub struct DeletePrivateMessage {
    pub private_message_id: usize,
    pub deleted: bool,
}

/// A moderator deletes or restores a community.
pub struct DeleteCommunity {
    pub community_id: usize,
    pub deleted: bool,
}

/// An administrator removes or restores a community.
pub struct RemoveCommunity {
    pub community_id: usize,
    pub removed: bool,
    pub reason: Option<String>,
}

/// A moderator is added to a community or taken out of it.
pub struct AddModToCommunity {
    pub community_id: usize,
    pub person_id: usize,
    pub added: bool,
}

/// A post is put among the featured posts of its community or taken out.
pub struct FeaturePost {
    pub post_id: usize,
    pub featured: bool,
}

/// The reason that a removal travels with: the one given, or the empty text.
/// A removal always has one, which is what tells it from a deletion.
pub open spec fn removal_reason(reason: Option<String>) -> Option<Seq<char>> {
    match reason {
        Some(r) => Some(r@),
        None => Some(Seq::empty()),
    }
}

/// Copies the reason of a removal, or makes the empty one.
fn reason_or_empty(reason: &Option<String>) -> (r: Option<String>)
    ensures
        text_of(r) == removal_reason(*reason),
{
    match reason {
        Some(text) => Some(text.clone()),
        None => Some(String::new()),
    }
}

impl StoreView {
    /// The community that the comment in row `comment` belongs to.
    pub open spec fn comment_community(self, comment: usize) -> Option<usize> {
        if comment < self.comments.len() && self.comments[comment as int].post < self.posts.len() {
            Some(self.posts[self.comments[comment as int].post as int].community)
        } else {
            None
        }
    }
}

impl DeletePost {
    /// Sends the deletion of a post by its author `actor`, or its taking
    /// back, into the post's community.
    pub fn send_activity(request: &DeletePost, actor: usize, store: &Store, token: &str) -> (r:
        Result<Outbound, FederationError>)
        ensures
            request.post_id >= store@.posts.len() ==> r is Err && r->Err_0
                == FederationError::NotFound,
            request.post_id < store@.posts.len() ==> is_delete_dispatch(
                r,
                store@,
                actor,
                store@.posts[request.post_id as int].community,
                store@.posts[request.post_id as int].ap_id,
                None,
                request.deleted,
                token@,
            ),
    {
        if request.post_id >= store.posts.len() {
            return Err(FederationError::NotFound);
        }
        let post = &store.posts[request.post_id];
        let deletable = DeletableObjects::Post(request.post_id, post.ap_id.clone());
        send_apub_delete_in_community(
            store,
            actor,
            post.community,
            deletable,
            None,
            request.deleted,
            token,
        )
    }
}

impl RemovePost {
    /// Sends the removal of a post by the moderator `actor`, or its taking
    /// back, into the post's community.
    pub fn send_activity(request: &RemovePost, actor: usize, store: &Store, token: &str) -> (r:
        Result<Outbound, FederationError>)
        ensures
            request.post_id >= store@.posts.len() ==> r is Err && r->Err_0
                == FederationError::NotFound,
            request.post_id < store@.posts.len() ==> is_delete_dispatch(
                r,
                store@,
                actor,
                store@.posts[request.post_id as int].community,
                store@.posts[request.post_id as int].ap_id,
                removal_reason(request.reason),
                request.removed,
                token@,
            ),
    {
        if request.post_id >= store.posts.len() {
            return Err(FederationError::NotFound);
        }
        let post = &store.posts[request.post_id];
        let deletable = DeletableObjects::Post(request.post_id, post.ap_id.clone());
        send_apub_delete_in_community(
            store,
            actor,
            post.community,
            deletable,
            reason_or_empty(&request.reason),
            request.removed,
            token,
        )
    }
}

impl DeleteComment {
    /// Sends the deletion of a comment, or its taking back, into the
    /// comment's community. The acting person is the comment's author.
    pub fn send_activity(request: &DeleteComment, store: &Store, token: &str) -> (r: Result<
        Outbound,
        FederationError,
    >)
        ensures
            store@.comment_community(request.comment_id) is None ==> r is Err && r->Err_0
                == FederationError::NotFound,
            store@.comment_community(request.comment_id) matches Some(c) ==> is_delete_dispatch(
                r,
                store@,
                store@.comments[request.comment_id as int].creator,
                c,
                store@.comments[request.comment_id as int].ap_id,
                None,
                request.deleted,
                token@,
            ),
    {
        if request.comment_id >= store.comments.len() {
            return Err(FederationError::NotFound);
        }
        let comment = &store.comments[request.comment_id];
        if comment.post >= store.posts.len() {
            return Err(FederationError::NotFound);
        }
        let community = store.posts[comment.post].community;
        let deletable = DeletableObjects::Comment(request.comment_id, comment.ap_id.clone());
        send_apub_delete_in_community(
            store,
            comment.creator,
            community,
            deletable,
            None,
            request.deleted,
            token,
        )
    }
}

impl RemoveComment {
    /// Sends the removal of a comment by the moderator `actor`, or its
    /// taking back, into the comment's community.
    pub fn send_activity(request: &RemoveComment, actor: usize, store: &Store, token: &str) -> (r:
        Result<Outbound, FederationError>)
        ensures
            store@.comment_community(request.comment_id) is None ==> r is Err && r->Err_0
                == FederationError::NotFound,
            store@.comment_community(request.comment_id) matches Some(c) ==> is_delete_dispatch(
                r,
                store@,
                actor,
                c,
                store@.comments[request.comment_id as int].ap_id,
                removal_reason(request.reason),
                request.removed,
                token@,
            ),
    {
        if request.comment_id >= store.comments.len() {
            return Err(FederationError::NotFound);
        }
        let comment = &store.comments[request.comment_id];
        if comment.post >= store.posts.len() {
            return Err(FederationError::NotFound);
        }
        let community = store.posts[comment.post].community;
        let deletable = DeletableObjects::Comment(request.comment_id, comment.ap_id.clone());
        send_apub_delete_in_community(
            store,
            actor,
            community,
            deletable,
            reason_or_empty(&request.reason),
            request.removed,
            token,
        )
    }
}

impl DeleteCommunity {
    /// Sends the deletion of a community by `actor`, or its taking back,
    /// into that community.
    pub fn send_activity(request: &DeleteCommunity, actor: usize, store: &Store, token: &str) -> (r:
        Result<Outbound, FederationError>)
        ensures
            request.community_id >= store@.communities.len() ==> r is Err && r->Err_0
                == FederationError::NotFound,
            request.community_id < store@.communities.len() ==> is_delete_dispatch(
                r,
                store@,
                actor,
                request.community_id,
                store@.communities[request.community_id as int].actor_id,
                None,
                request.deleted,
                token@,
            ),
    {
        if request.community_id >= store.communities.len() {
            return Err(FederationError::NotFound);
        }
        let deletable = DeletableObjects::Community(
            request.community_id,
            store.communities[request.community_id].actor_id.clone(),
        );
        send_apub_delete_in_community(
            store,
            actor,
            request.community_id,
            deletable,
            None,
            request.deleted,
            token,
        )
    }
}

impl RemoveCommunity {
    /// Sends the removal of a community by `actor`, or its taking back,
    /// into that community.
    pub fn send_activity(request: &RemoveCommunity, actor: usize, store: &Store, token: &str) -> (r:
        Result<Outbound, FederationError>)
        ensures
            request.community_id >= store@.communities.len() ==> r is Err && r->Err_0
                == FederationError::NotFound,
            request.community_id < store@.communities.len() ==> is_delete_dispatch(
                r,
                store@,
                actor,
                request.community_id,
                store@.communities[request.community_id as int].actor_id,
                removal_reason(request.reason),
                request.removed,
                token@,
            ),
    {
        if request.community_id >= store.communities.len() {
            return Err(FederationError::NotFound);
        }
        let deletable = DeletableObjects::Community(
            request.community_id,
            store.communities[request.community_id].actor_id.clone(),
        );
        send_apub_delete_in_community(
            store,
            actor,
            request.community_id,
            deletable,
            reason_or_empty(&request.reason),
            request.removed,
            token,
        )
    }
}

impl StoreView {
    /// Whether the store holds the private message, its recipient and the
    /// acting person.
    pub open spec fn knows_message(self, actor: usize, message: usize) -> bool {
        &&& actor < self.persons.len()
        &&& message < self.private_messages.len()
        &&& self.private_messages[message as int].recipient < self.persons.len()
    }
}

/// Whether `r` is what sending the deletion of a private message, or its
/// taking back, comes to: `NotFound` where the store lacks a row;
/// `InvalidUrl` where no identifier can be built; otherwise the activity,
/// addressed to the recipient alone and delivered to the recipient's inbox.
pub open spec fn is_private_delete_dispatch(
    r: Result<Outbound, FederationError>,
    store: StoreView,
    actor: usize,
    message: usize,
    deleted: bool,
    token: Seq<char>,
) -> bool {
    if !store.knows_message(actor, message) {
        r is Err && r->Err_0 == FederationError::NotFound
    } else if !can_build_delete(store.protocol_and_hostname, deleted, token) {
        r is Err && r->Err_0 == FederationError::InvalidUrl
    } else {
        let recipient = store.persons[store.private_messages[message as int].recipient as int];
        &&& r is Ok
        &&& r->Ok_0.announcer is None
        &&& r->Ok_0.deliveries@ == seq![
            (Delivery { inbox: recipient.inbox(), envelope: Envelope::Direct }),
        ]
        &&& match r->Ok_0.activity {
            AnnouncableActivities::Delete(d) => deleted && is_delete_of(
                d,
                store.persons[actor as int].actor_id,
                store.private_messages[message as int].ap_id,
                recipient.actor_id@,
                None,
                None,
                store.protocol_and_hostname,
                token,
            ),
            AnnouncableActivities::UndoDelete(u) => !deleted && is_undo_delete_of(
                u,
                store.persons[actor as int].actor_id,
                store.private_messages[message as int].ap_id,
                recipient.actor_id@,
                None,
                None,
                store.protocol_and_hostname,
                token,
            ),
            _ => false,
        }
    }
}

/// Builds the deletion of the private message in row `message` by its
/// author `actor`, or its taking back, for the recipient.
pub fn send_apub_delete_private_message(
    store: &Store,
    actor: usize,
    message: usize,
    deleted: bool,
    token: &str,
) -> (r: Result<Outbound, FederationError>)
    ensures
        is_private_delete_dispatch(r, store@, actor, message, deleted, token@),
{
    if actor >= store.persons.len() || message >= store.private_messages.len() {
        return Err(FederationError::NotFound);
    }
    let pm = &store.private_messages[message];
    if pm.recipient >= store.persons.len() {
        return Err(FederationError::NotFound);
    }
    let recipient = &store.persons[pm.recipient];
    let person = &store.persons[actor];
    let deletable = DeletableObjects::PrivateMessage(message, pm.ap_id.clone());
    let origin = store.protocol_and_hostname.as_str();
    let activity = if deleted {
        match Delete::new(
            person,
            &deletable,
            recipient.actor_id.clone(),
            None,
            None,
            origin,
            token,
        ) {
            Ok(d) => AnnouncableActivities::Delete(d),
            Err(e) => {
                return Err(e);
            },
        }
    } else {
        match UndoDelete::new(
            person,
            &deletable,
            recipient.actor_id.clone(),
            None,
            None,
            origin,
            token,
        ) {
            Ok(u) => AnnouncableActivities::UndoDelete(u),
            Err(e) => {
                return Err(e);
            },
        }
    };
    let mut deliveries: Vec<Delivery> = Vec::new();
    deliveries.push(
        Delivery { inbox: recipient.shared_inbox_or_inbox(),
        envelope: Envelope::Direct },
    );
    assert(deliveries@ =~= seq![
        (Delivery { inbox: recipient.inbox(), envelope: Envelope::Direct }),
    ]);
    Ok(Outbound { activity, deliveries, announcer: None })
}

impl DeletePrivateMessage {
    /// Sends the deletion of a private message by its author `actor`, or
    /// its taking back, to the recipient.
    pub fn send_activity(
        request: &DeletePrivateMessage,
        actor: usize,
        store: &Store,
        token: &str,
    ) -> (r: Result<Outbound, FederationError>)
        ensures
            is_private_delete_dispatch(
                r,
                store@,
                actor,
                request.private_message_id,
                request.deleted,
                token@,
            ),
    {
        send_apub_delete_private_message(
            store,
            actor,
            request.private_message_id,
            request.deleted,
            token,
        )
    }
}

impl AddModToCommunity {
    /// Sends the addition of a moderator by `actor`, or the removal, to the
    /// person concerned and into the community.
    pub fn send_activity(
        request: &AddModToCommunity,
        actor: usize,
        store: &Store,
        token: &str,
    ) -> (r:
        Result<Outbound, FederationError>)
        ensures
            is_collection_dispatch(
                r,
                store@,
                request.community_id,
                actor,
                request.person_id < store@.persons.len(),
                store@.persons[request.person_id as int].actor_id,
                seq![store@.persons[request.person_id as int].inbox()],
                CollectionType::Moderators,
                if request.added {
                    ActivityKind::Add
                } else {
                    ActivityKind::Remove
                },
                token@,
            ),
    {
        if request.added {
            CollectionAdd::send_add_mod(
                request.community_id,
                request.person_id,
                actor,
                store,
                token,
            )
        } else {
            CollectionRemove::send_remove_mod(
                request.community_id,
                request.person_id,
                actor,
                store,
                token,
            )
        }
    }
}

impl FeaturePost {
    /// Sends the featuring of a post by `actor`, or its end, into the
    /// post's community.
    pub fn send_activity(request: &FeaturePost, actor: usize, store: &Store, token: &str) -> (r:
        Result<Outbound, FederationError>)
        ensures
            request.post_id >= store@.posts.len() ==> r is Err && r->Err_0
                == FederationError::NotFound,
            request.post_id < store@.posts.len() ==> is_collection_dispatch(
                r,
                store@,
                store@.posts[request.post_id as int].community,
                actor,
                true,
                store@.posts[request.post_id as int].ap_id,
                Seq::empty(),
                CollectionType::Featured,
                if request.featured {
                    ActivityKind::Add
                } else {
                    ActivityKind::Remove
                },
                token@,
            ),
    {
        if request.post_id >= store.posts.len() {
            return Err(FederationError::NotFound);
        }
        let community = store.posts[request.post_id].community;
        if request.featured {
            CollectionAdd::send_add_featured_post(community, request.post_id, actor, store, token)
        } else {
            CollectionRemove::send_remove_featured_post(
                community,
                request.post_id,
                actor,
                store,
                token,
            )
        }
    }
}

} // verus!
