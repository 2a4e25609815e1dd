//! Deleting and restoring communities, posts, comments and private messages.

use crate::checks::{
    is_public, public_text, verify_domains_match, verify_is_public, verify_mod_action,
    verify_person, verify_person_in_community,
};
use crate::error::FederationError;
use crate::builder::{
    community_audience, community_cc, deref_community, generate_activity_id, generate_community_cc,
    has_activity_id, is_activity_id,
};
use crate::model::{
    Comment, Community, LogTarget, ModAction, ModLogEntry, Person, Post, PrivateMessage, Scope,
};
use crate::notify::{ContentKind, LocalUpdate, UserOperationCrud};
use crate::dispatch::{send_activity_in_community, Outbound};
use crate::protocol::{ActivityKind, AnnouncableActivities, Delete, UndoDelete};
use crate::store::{
    comment_urls, community_urls, lemma_applied_once_again, message_urls, post_urls, Store,
    StoreView,
};
use crate::urls::{contains_url, same_domain, text_of, ObjectUrl};
use vstd::prelude::*;

verus! {

/// An object that can be deleted, found in the store by its identifier: the
/// row that holds it and the identifier under which the store knows it.
pub enum DeletableObjects {
    Community(usize, ObjectUrl),
    Comment(usize, ObjectUrl),
    Post(usize, ObjectUrl),
    PrivateMessage(usize, ObjectUrl),
}

impl StoreView {
    /// The deletable object with the identifier `url`. Communities are looked
    /// at first, then posts, comments and private messages; the first kind
    /// that knows the identifier wins.
    pub open spec fn deletable_at(self, url: Seq<char>) -> Option<DeletableObjects> {
        if let Some(c) = self.community_at(url) {
            Some(DeletableObjects::Community(c, self.communities[c as int].actor_id))
        } else if let Some(p) = self.post_at(url) {
            Some(DeletableObjects::Post(p, self.posts[p as int].ap_id))
        } else if let Some(c) = self.comment_at(url) {
            Some(DeletableObjects::Comment(c, self.comments[c as int].ap_id))
        } else if let Some(m) = self.private_message_at(url) {
            Some(DeletableObjects::PrivateMessage(m, self.private_messages[m as int].ap_id))
        } else {
            None
        }
    }

    /// `community` if the store holds such a row.
    pub open spec fn known_community(self, community: usize) -> Result<usize, FederationError> {
        if community < self.communities.len() {
            Ok(community)
        } else {
            Err(FederationError::NotFound)
        }
    }

    /// The community that `object` belongs to. A private message belongs to
    /// none.
    pub open spec fn community_of(self, object: DeletableObjects) -> Result<
        usize,
        FederationError,
    > {
        match object {
            DeletableObjects::Community(c, _) => self.known_community(c),
            DeletableObjects::Post(p, _) => self.known_community(self.posts[p as int].community),
            DeletableObjects::Comment(c, _) => if self.comments[c as int].post < self.posts.len() {
                self.known_community(self.posts[self.comments[c as int].post as int].community)
            } else {
                Err(FederationError::NotFound)
            },
            DeletableObjects::PrivateMessage(_, _) => Err(FederationError::NotFound),
        }
    }

    /// `community`, unless an audience is given that names another one.
    pub open spec fn audience_verdict(
        self,
        audience: Option<ObjectUrl>,
        community: usize,
    ) -> Result<
        usize,
        FederationError,
    > {
        match audience {
            Some(a) => if a@ == self.communities[community as int].actor_id@ {
                Ok(community)
            } else {
                Err(FederationError::CommunityMismatch)
            },
            None => Ok(community),
        }
    }

    /// The community in which the deletion of `object` takes place.
    pub open spec fn deletion_community(
        self,
        object: DeletableObjects,
        audience: Option<ObjectUrl>,
    ) -> Result<usize, FederationError> {
        match self.community_of(object) {
            Ok(c) => self.audience_verdict(audience, c),
            Err(e) => Err(e),
        }
    }

    /// What verification answers for the deletion of a post or a comment
    /// with the identifier `object_id` in `community`: the actor has to be a
    /// member; a moderator's removal needs a moderator, an author's deletion
    /// an actor from the object's own domain.
    pub open spec fn post_or_comment_verdict(
        self,
        actor: ObjectUrl,
        object_id: ObjectUrl,
        community: usize,
        is_mod_action: bool,
    ) -> Result<(), FederationError> {
        match self.membership_verdict(self.person_at(actor@), community) {
            Err(e) => Err(e),
            Ok(_) => if is_mod_action {
                match self.moderator_verdict(self.person_at(actor@), community) {
                    Err(e) => Err(e),
                    Ok(_) => Ok(()),
                }
            } else if same_domain(actor.domain_view(), object_id.domain_view()) {
                Ok(())
            } else {
                Err(FederationError::DomainMismatch)
            },
        }
    }

    /// What verification answers for the deletion of the community in row
    /// `community`: always a moderator's action; membership is looked at
    /// only where the community is local.
    pub open spec fn community_deletion_verdict(self, actor: ObjectUrl, community: usize) -> Result<
        (),
        FederationError,
    > {
        if self.communities[community as int].local && self.membership_verdict(
            self.person_at(actor@),
            community,
        ) is Err {
            Err(self.membership_verdict(self.person_at(actor@), community)->Err_0)
        } else {
            match self.moderator_verdict(self.person_at(actor@), community) {
                Err(e) => Err(e),
                Ok(_) => Ok(()),
            }
        }
    }

    /// What verification answers for a deletion. The checks run in this
    /// order and the first that fails decides: the object is known; the
    /// activity is public (not asked of a private message); the acting
    /// person is known and a member; the person is authorized.
    pub open spec fn delete_verdict(self, activity: Delete, is_mod_action: bool) -> Result<
        (),
        FederationError,
    > {
        match self.deletable_at(activity.object@) {
            None => Err(FederationError::NotFound),
            Some(DeletableObjects::Community(c, _)) => if !is_public(activity.to@, activity.cc@) {
                Err(FederationError::AudienceMissing)
            } else {
                self.community_deletion_verdict(activity.actor, c)
            },
            Some(DeletableObjects::Post(p, id)) => if !is_public(activity.to@, activity.cc@) {
                Err(FederationError::AudienceMissing)
            } else {
                match self.deletion_community(DeletableObjects::Post(p, id), activity.audience) {
                    Err(e) => Err(e),
                    Ok(c) => self.post_or_comment_verdict(activity.actor, id, c, is_mod_action),
                }
            },
            Some(DeletableObjects::Comment(m, id)) => if !is_public(activity.to@, activity.cc@) {
                Err(FederationError::AudienceMissing)
            } else {
                match self.deletion_community(DeletableObjects::Comment(m, id), activity.audience) {
                    Err(e) => Err(e),
                    Ok(c) => self.post_or_comment_verdict(activity.actor, id, c, is_mod_action),
                }
            },
            Some(DeletableObjects::PrivateMessage(_, _)) => match self.person_verdict(
                self.person_at(activity.actor@),
            ) {
                Err(e) => Err(e),
                Ok(_) => if same_domain(
                    activity.actor.domain_view(),
                    activity.object.domain_view(),
                ) {
                    Ok(())
                } else {
                    Err(FederationError::DomainMismatch)
                },
            },
        }
    }
}

impl DeletableObjects {
    /// Whether the row that the object names exists in `store`.
    pub open spec fn within(self, store: StoreView) -> bool {
        match self {
            DeletableObjects::Community(c, _) => c < store.communities.len(),
            DeletableObjects::Post(p, _) => p < store.posts.len(),
            DeletableObjects::Comment(c, _) => c < store.comments.len(),
            DeletableObjects::PrivateMessage(m, _) => m < store.private_messages.len(),
        }
    }

    /// The identifier of the object.
    pub open spec fn id_spec(self) -> ObjectUrl {
        match self {
            DeletableObjects::Community(_, id) => id,
            DeletableObjects::Post(_, id) => id,
            DeletableObjects::Comment(_, id) => id,
            DeletableObjects::PrivateMessage(_, id) => id,
        }
    }

    /// Finds the deletable object with the identifier `ap_id` in the store.
    /// Nothing is fetched from elsewhere.
    pub fn read_from_db(ap_id: &ObjectUrl, store: &Store) -> (r: Result<
        DeletableObjects,
        FederationError,
    >)
        ensures
            r is Ok <==> store@.deletable_at(ap_id@) is Some,
            r matches Ok(o) ==> Some(o) == store@.deletable_at(ap_id@) && o.within(store@)
                && o.id_spec()@ == ap_id@,
            r matches Err(e) ==> e == FederationError::NotFound,
    {
        if let Some(c) = store.find_community(ap_id) {
            return Ok(DeletableObjects::Community(c, store.communities[c].actor_id.clone()));
        }
        if let Some(p) = store.find_post(ap_id) {
            return Ok(DeletableObjects::Post(p, store.posts[p].ap_id.clone()));
        }
        if let Some(c) = store.find_comment(ap_id) {
            return Ok(DeletableObjects::Comment(c, store.comments[c].ap_id.clone()));
        }
        if let Some(m) = store.find_private_message(ap_id) {
            return Ok(
                DeletableObjects::PrivateMessage(m, store.private_messages[m].ap_id.clone()),
            );
        }
        Err(FederationError::NotFound)
    }

    /// The identifier of the object.
    pub fn id(&self) -> (r: ObjectUrl)
        ensures
            r == self.id_spec(),
    {
        match self {
            DeletableObjects::Community(_, id) => id.clone(),
            DeletableObjects::Comment(_, id) => id.clone(),
            DeletableObjects::Post(_, id) => id.clone(),
            DeletableObjects::PrivateMessage(_, id) => id.clone(),
        }
    }
}

/// Whether `d` is the deletion that `actor` issues for the object
/// `object_id`, addressed to `to`, in `community` if there is one.
pub open spec fn is_delete_of(
    d: Delete,
    actor: ObjectUrl,
    object_id: ObjectUrl,
    to: Seq<char>,
    community: Option<Community>,
    summary: Option<Seq<char>>,
    origin: Seq<char>,
    token: Seq<char>,
) -> bool {
    &&& d.actor == actor
    &&& d.to@.len() == 1 && d.to@[0]@ == to
    &&& d.object == object_id
    &&& d.cc@ == community_cc(community)
    &&& text_of(d.summary) == summary
    &&& is_activity_id(d.id, origin, ActivityKind::Delete, token)
    &&& d.audience == community_audience(community)
}

/// Whether `u` takes back the deletion that `is_delete_of` describes.
pub open spec fn is_undo_delete_of(
    u: UndoDelete,
    actor: ObjectUrl,
    object_id: ObjectUrl,
    to: Seq<char>,
    community: Option<Community>,
    summary: Option<Seq<char>>,
    origin: Seq<char>,
    token: Seq<char>,
) -> bool {
    &&& u.actor == actor
    &&& u.to@.len() == 1 && u.to@[0]@ == to
    &&& is_delete_of(u.object, actor, object_id, to, community, summary, origin, token)
    &&& u.cc@ == community_cc(community)
    &&& is_activity_id(u.id, origin, ActivityKind::Undo, token)
    &&& u.audience == community_audience(community)
}

impl Delete {
    /// Builds the deletion of `object` by `actor`. With a `summary` it is a
    /// moderator's removal.
    pub fn new(
        actor: &Person,
        object: &DeletableObjects,
        to: ObjectUrl,
        community: Option<&Community>,
        summary: Option<String>,
        origin: &str,
        token: &str,
    ) -> (r: Result<Delete, FederationError>)
        ensures
            r is Ok <==> has_activity_id(origin@, ActivityKind::Delete, token@),
            r matches Ok(d) ==> is_delete_of(
                d,
                actor.actor_id,
                object.id_spec(),
                to@,
                deref_community(community),
                text_of(summary),
                origin@,
                token@,
            ),
            r matches Err(e) ==> e == FederationError::InvalidUrl,
    {
        let id = match generate_activity_id(ActivityKind::Delete, origin, token) {
            Ok(id) => id,
            Err(e) => {
                return Err(e);
            },
        };
        let audience = match community {
            Some(c) => Some(c.actor_id.clone()),
            None => None,
        };
        let mut audience_to: Vec<ObjectUrl> = Vec::new();
        audience_to.push(to);
        Ok(
            Delete {
                actor: actor.actor_id.clone(),
                to: audience_to,
                object: object.id(),
                cc: generate_community_cc(community),
                summary,
                id,
                audience,
            },
        )
    }
}

impl UndoDelete {
    /// Builds the activity that takes back the deletion of `object`.
    pub fn new(
        actor: &Person,
        object: &DeletableObjects,
        to: ObjectUrl,
        community: Option<&Community>,
        summary: Option<String>,
        origin: &str,
        token: &str,
    ) -> (r: Result<UndoDelete, FederationError>)
        ensures
            r is Ok <==> has_activity_id(origin@, ActivityKind::Delete, token@) && has_activity_id(
                origin@,
                ActivityKind::Undo,
                token@,
            ),
            r matches Ok(u) ==> is_undo_delete_of(
                u,
                actor.actor_id,
                object.id_spec(),
                to@,
                deref_community(community),
                text_of(summary),
                origin@,
                token@,
            ),
            r matches Err(e) ==> e == FederationError::InvalidUrl,
    {
        let inner = match Delete::new(
            actor,
            object,
            to.clone(),
            community,
            summary,
            origin,
            token,
        ) {
            Ok(d) => d,
            Err(e) => {
                return Err(e);
            },
        };
        let id = match generate_activity_id(ActivityKind::Undo, origin, token) {
            Ok(id) => id,
            Err(e) => {
                return Err(e);
            },
        };
        let audience = match community {
            Some(c) => Some(c.actor_id.clone()),
            None => None,
        };
        let mut audience_to: Vec<ObjectUrl> = Vec::new();
        audience_to.push(to);
        Ok(
            UndoDelete {
                actor: actor.actor_id.clone(),
                to: audience_to,
                object: inner,
                cc: generate_community_cc(community),
                id,
                audience,
            },
        )
    }
}

/// Whether `activity` is what a deletion (`deleted`) or its taking back
/// (not `deleted`) in `community` looks like on the way out: addressed to
/// the public, with `reason` as its summary.
pub open spec fn is_delete_in_community(
    activity: AnnouncableActivities,
    store: StoreView,
    actor: usize,
    community: usize,
    object_id: ObjectUrl,
    reason: Option<Seq<char>>,
    deleted: bool,
    token: Seq<char>,
) -> bool {
    match activity {
        AnnouncableActivities::Delete(d) => deleted && is_delete_of(
            d,
            store.persons[actor as int].actor_id,
            object_id,
            public_text(),
            Some(store.communities[community as int]),
            reason,
            store.protocol_and_hostname,
            token,
        ),
        AnnouncableActivities::UndoDelete(u) => !deleted && is_undo_delete_of(
            u,
            store.persons[actor as int].actor_id,
            object_id,
            public_text(),
            Some(store.communities[community as int]),
            reason,
            store.protocol_and_hostname,
            token,
        ),
        _ => false,
    }
}

/// Whether the identifiers that a deletion, or its taking back, needs can be
/// built.
pub open spec fn can_build_delete(origin: Seq<char>, deleted: bool, token: Seq<char>) -> bool {
    has_activity_id(origin, ActivityKind::Delete, token) && (deleted || has_activity_id(
        origin,
        ActivityKind::Undo,
        token,
    ))
}

/// Whether `r` is what sending a deletion (`deleted`) or its taking back
/// into `community` comes to: `NotFound` where the store lacks the person or
/// the community; `InvalidUrl` where no identifier can be built; otherwise
/// the activity together with its fan-out, in which a `reason` marks a
/// moderator's action.
pub open spec fn is_delete_dispatch(
    r: Result<Outbound, FederationError>,
    store: StoreView,
    actor: usize,
    community: usize,
    object_id: ObjectUrl,
    reason: Option<Seq<char>>,
    deleted: bool,
    token: Seq<char>,
) -> bool {
    if !(actor < store.persons.len() && community < store.communities.len()) {
        r is Err && r->Err_0 == FederationError::NotFound
    } else if !can_build_delete(store.protocol_and_hostname, deleted, token) {
        r is Err && r->Err_0 == FederationError::InvalidUrl
    } else {
        &&& r is Ok
        &&& r->Ok_0.deliveries@ == store.fan_out(actor, community, Seq::empty(), reason is Some)
        &&& r->Ok_0.announcer == store.announcer(community)
        &&& is_delete_in_community(
            r->Ok_0.activity,
            store,
            actor,
            community,
            object_id,
            reason,
            deleted,
            token,
        )
    }
}

/// Builds the deletion of `object` by the person `actor` in `community`, or
/// its taking back, and works out where it has to go. A `reason` marks a
/// moderator's removal, which the actor's own followers do not get.
///
/// Fails with `NotFound` where the store has no such person or community,
/// and with `InvalidUrl` where no identifier can be built.
pub fn send_apub_delete_in_community(
    store: &Store,
    actor: usize,
    community: usize,
    object: DeletableObjects,
    reason: Option<String>,
    deleted: bool,
    token: &str,
) -> (r: Result<Outbound, FederationError>)
    ensures
        is_delete_dispatch(
            r,
            store@,
            actor,
            community,
            object.id_spec(),
            text_of(reason),
            deleted,
            token@,
        ),
{
    if actor >= store.persons.len() || community >= store.communities.len() {
        return Err(FederationError::NotFound);
    }
    let is_mod_action = reason.is_some();
    let person = &store.persons[actor];
    let row = &store.communities[community];
    let origin = store.protocol_and_hostname.as_str();
    let activity = if deleted {
        match Delete::new(person, &object, ObjectUrl::public(), Some(row), reason, origin, token) {
            Ok(d) => AnnouncableActivities::Delete(d),
            Err(e) => {
                return Err(e);
            },
        }
    } else {
        match UndoDelete::new(
            person,
            &object,
            ObjectUrl::public(),
            Some(row),
            reason,
            origin,
            token,
        ) {
            Ok(u) => AnnouncableActivities::UndoDelete(u),
            Err(e) => {
                return Err(e);
            },
        }
    };
    match send_activity_in_community(store, actor, community, Vec::new(), is_mod_action) {
        Ok(deliveries) => Ok(
            Outbound { activity, deliveries, announcer: store.announcer_of(community) },
        ),
        Err(e) => Err(e),
    }
}

/// The community in which the deletion of `object` takes place, checked
/// against the audience the activity names.
fn deletion_community(store: &Store, object: &DeletableObjects, audience: &Option<ObjectUrl>) -> (r:
    Result<usize, FederationError>)
    requires
        object.within(store@),
    ensures
        r == store@.deletion_community(*object, *audience),
        r matches Ok(c) ==> c < store@.communities.len(),
{
    let community = match object {
        DeletableObjects::Community(c, _) => *c,
        DeletableObjects::Post(p, _) => store.posts[*p].community,
        DeletableObjects::Comment(c, _) => {
            let post = store.comments[*c].post;
            if post >= store.posts.len() {
                return Err(FederationError::NotFound);
            }
            store.posts[post].community
        },
        DeletableObjects::PrivateMessage(_, _) => {
            return Err(FederationError::NotFound);
        },
    };
    if community >= store.communities.len() {
        return Err(FederationError::NotFound);
    }
    match audience {
        Some(a) => {
            if a.same(&store.communities[community].actor_id) {
                Ok(community)
            } else {
                Err(FederationError::CommunityMismatch)
            }
        },
        None => Ok(community),
    }
}

/// Verifies the deletion of a post or a comment in `community`.
pub fn verify_delete_post_or_comment(
    store: &Store,
    actor: &ObjectUrl,
    object_id: &ObjectUrl,
    community: usize,
    is_mod_action: bool,
) -> (r: Result<(), FederationError>)
    ensures
        r == store@.post_or_comment_verdict(*actor, *object_id, community, is_mod_action),
{
    match verify_person_in_community(store, actor, community) {
        Err(e) => {
            return Err(e);
        },
        Ok(_) => {},
    }
    if is_mod_action {
        match verify_mod_action(store, actor, community) {
            Err(e) => Err(e),
            Ok(_) => Ok(()),
        }
    } else {
        verify_domains_match(actor, object_id)
    }
}

/// Verifies an inbound deletion before it is applied.
pub fn verify_delete_activity(store: &Store, activity: &Delete, is_mod_action: bool) -> (r: Result<
    (),
    FederationError,
>)
    ensures
        r == store@.delete_verdict(*activity, is_mod_action),
{
    let object = match DeletableObjects::read_from_db(&activity.object, store) {
        Err(e) => {
            return Err(e);
        },
        Ok(o) => o,
    };
    match &object {
        DeletableObjects::Community(c, _) => {
            match verify_is_public(&activity.to, &activity.cc) {
                Err(e) => {
                    return Err(e);
                },
                Ok(_) => {},
            }
            if store.communities[*c].local {
                match verify_person_in_community(store, &activity.actor, *c) {
                    Err(e) => {
                        return Err(e);
                    },
                    Ok(_) => {},
                }
            }
            match verify_mod_action(store, &activity.actor, *c) {
                Err(e) => Err(e),
                Ok(_) => Ok(()),
            }
        },
        DeletableObjects::Post(_, id) => {
            match verify_is_public(&activity.to, &activity.cc) {
                Err(e) => {
                    return Err(e);
                },
                Ok(_) => {},
            }
            match deletion_community(store, &object, &activity.audience) {
                Err(e) => Err(e),
                Ok(c) => verify_delete_post_or_comment(
                    store,
                    &activity.actor,
                    id,
                    c,
                    is_mod_action,
                ),
            }
        },
        DeletableObjects::Comment(_, id) => {
            match verify_is_public(&activity.to, &activity.cc) {
                Err(e) => {
                    return Err(e);
                },
                Ok(_) => {},
            }
            match deletion_community(store, &object, &activity.audience) {
                Err(e) => Err(e),
                Ok(c) => verify_delete_post_or_comment(
                    store,
                    &activity.actor,
                    id,
                    c,
                    is_mod_action,
                ),
            }
        },
        DeletableObjects::PrivateMessage(_, _) => {
            match verify_person(store, &activity.actor) {
                Err(e) => {
                    return Err(e);
                },
                Ok(_) => {},
            }
            verify_domains_match(&activity.actor, &activity.object)
        },
    }
}

impl StoreView {
    /// The deleted flag of the row that `object` names.
    pub open spec fn is_deleted(self, object: DeletableObjects) -> bool {
        match object {
            DeletableObjects::Community(c, _) => self.communities[c as int].deleted,
            DeletableObjects::Post(p, _) => self.posts[p as int].deleted,
            DeletableObjects::Comment(c, _) => self.comments[c as int].deleted,
            DeletableObjects::PrivateMessage(m, _) => self.private_messages[m as int].deleted,
        }
    }

    /// The store with the deleted flag of the row that `object` names set to
    /// `deleted`, and nothing else changed.
    pub open spec fn with_deleted(self, object: DeletableObjects, deleted: bool) -> StoreView {
        match object {
            DeletableObjects::Community(c, _) => StoreView {
                communities: self.communities.update(
                    c as int,
                    Community { deleted, ..self.communities[c as int] },
                ),
                ..self
            },
            DeletableObjects::Post(p, _) => StoreView {
                posts: self.posts.update(p as int, Post { deleted, ..self.posts[p as int] }),
                ..self
            },
            DeletableObjects::Comment(c, _) => StoreView {
                comments: self.comments.update(
                    c as int,
                    Comment { deleted, ..self.comments[c as int] },
                ),
                ..self
            },
            DeletableObjects::PrivateMessage(m, _) => StoreView {
                private_messages: self.private_messages.update(
                    m as int,
                    PrivateMessage { deleted, ..self.private_messages[m as int] },
                ),
                ..self
            },
        }
    }

    /// Whether the deletion of `object` has to be relayed from here: it has
    /// where `object` is a community that lives on this instance.
    pub open spec fn relays_deletion(self, object: DeletableObjects) -> bool {
        match object {
            DeletableObjects::Community(c, _) => self.communities[c as int].local,
            _ => false,
        }
    }
}

/// The local update that reports a changed deleted flag of `object`.
pub open spec fn update_for(object: DeletableObjects) -> LocalUpdate {
    match object {
        DeletableObjects::Community(c, _) => LocalUpdate {
            kind: ContentKind::Community,
            row: c,
            op: UserOperationCrud::DeleteCommunity,
        },
        DeletableObjects::Post(p, _) => LocalUpdate {
            kind: ContentKind::Post,
            row: p,
            op: UserOperationCrud::DeletePost,
        },
        DeletableObjects::Comment(c, _) => LocalUpdate {
            kind: ContentKind::Comment,
            row: c,
            op: UserOperationCrud::DeleteComment,
        },
        DeletableObjects::PrivateMessage(m, _) => LocalUpdate {
            kind: ContentKind::PrivateMessage,
            row: m,
            op: UserOperationCrud::DeletePrivateMessage,
        },
    }
}

/// A deletion that has been applied meets a store on which applying it again
/// does nothing: the identifier still names the same object, the object has
/// the flag asked for, so `receive_delete_action` takes the branch that
/// writes nothing, relays nothing and tells no local session.
pub proof fn lemma_delete_is_idempotent(
    store: StoreView,
    url: Seq<char>,
    object: DeletableObjects,
    deleted: bool,
)
    requires
        store.deletable_at(url) == Some(object),
    ensures
        store.with_deleted(object, deleted).deletable_at(url) == Some(object),
        object.within(store.with_deleted(object, deleted)),
        store.with_deleted(object, deleted).is_deleted(object) == deleted,
        store.with_deleted(object, deleted).with_deleted(object, deleted) == store.with_deleted(
            object,
            deleted,
        ),
{
    let after = store.with_deleted(object, deleted);
    assert(community_urls(after.communities) =~= community_urls(store.communities));
    assert(post_urls(after.posts) =~= post_urls(store.posts));
    assert(comment_urls(after.comments) =~= comment_urls(store.comments));
    assert(message_urls(after.private_messages) =~= message_urls(store.private_messages));
    let twice = after.with_deleted(object, deleted);
    assert(twice.communities =~= after.communities);
    assert(twice.posts =~= after.posts);
    assert(twice.comments =~= after.comments);
    assert(twice.private_messages =~= after.private_messages);
}

/// What applying a deletion did besides changing the store.
pub struct DeleteOutcome {
    /// The deletion on its way to the community's followers, where a local
    /// community was changed.
    pub relay: Option<Outbound>,
    /// What local sessions are told; `None` where nothing changed.
    pub update: Option<LocalUpdate>,
}

/// Whether `relay` is what has to leave the instance after the deleted flag
/// of `object` changed: for a local community the deletion, issued by the
/// person in row `actor`, to the community's followers; otherwise nothing.
pub open spec fn is_relay_for(
    relay: Option<Outbound>,
    store: StoreView,
    object: DeletableObjects,
    actor: Option<usize>,
    token: Seq<char>,
) -> bool {
    match object {
        DeletableObjects::Community(c, id) if store.communities[c as int].local => {
            &&& relay is Some
            &&& actor is Some
            &&& relay->0.deliveries@ == store.fan_out(actor->0, c, Seq::empty(), false)
            &&& relay->0.announcer == Some(c)
            &&& is_delete_in_community(relay->0.activity, store, actor->0, c, id, None, true, token)
        },
        _ => relay is None,
    }
}

/// Whether `r` and `after` are what applying a deletion (`deleted`) or its
/// taking back to `before` comes to.
///
/// An unknown object gives `NotFound`. An object that already has the flag
/// asked for gives success with nothing relayed, nobody told and the store
/// as before. Otherwise a local community needs a known actor and a
/// buildable identifier for the relay, failing with `ActorUnresolvable` or
/// `InvalidUrl`; then the flag is set, local sessions are told, and the
/// relay is as `is_relay_for` says. Every failure leaves the store as it was.
pub open spec fn is_delete_receipt(
    r: Result<DeleteOutcome, FederationError>,
    before: StoreView,
    after: StoreView,
    object: Seq<char>,
    actor: Seq<char>,
    deleted: bool,
    token: Seq<char>,
) -> bool {
    &&& r is Err ==> after == before
    &&& match before.deletable_at(object) {
        None => r is Err && r->Err_0 == FederationError::NotFound,
        Some(o) => if before.is_deleted(o) == deleted {
            &&& r is Ok
            &&& r->Ok_0.relay is None
            &&& r->Ok_0.update is None
            &&& after == before
        } else if before.relays_deletion(o) && before.person_at(actor) is None {
            r is Err && r->Err_0 == FederationError::ActorUnresolvable
        } else if before.relays_deletion(o) && !can_build_delete(
            before.protocol_and_hostname,
            true,
            token,
        ) {
            r is Err && r->Err_0 == FederationError::InvalidUrl
        } else {
            &&& r is Ok
            &&& after == before.with_deleted(o, deleted)
            &&& r->Ok_0.update == Some(update_for(o))
            &&& is_relay_for(r->Ok_0.relay, before, o, before.person_at(actor), token)
        },
    }
}

/// Applying the same deletion twice changes the store once: where the
/// first application went through, the second succeeds, leaves the store as
/// the first left it, relays nothing and tells no local session.
pub proof fn lemma_delete_twice_changes_once(
    first: Result<DeleteOutcome, FederationError>,
    second: Result<DeleteOutcome, FederationError>,
    before: StoreView,
    between: StoreView,
    after: StoreView,
    object: Seq<char>,
    actor: Seq<char>,
    deleted: bool,
    first_token: Seq<char>,
    second_token: Seq<char>,
)
    requires
        is_delete_receipt(first, before, between, object, actor, deleted, first_token),
        first is Ok,
        is_delete_receipt(second, between, after, object, actor, deleted, second_token),
    ensures
        second is Ok,
        after == between,
        second->Ok_0.update is None,
        second->Ok_0.relay is None,
{
    let o = before.deletable_at(object)->0;
    lemma_delete_is_idempotent(before, object, o, deleted);
}

/// Sets the deleted flag of the row that `object` names.
fn write_deleted(store: &mut Store, object: &DeletableObjects, deleted: bool)
    requires
        object.within(old(store)@),
    ensures
        final(store)@ == old(store)@.with_deleted(*object, deleted),
{
    match object {
        DeletableObjects::Community(c, _) => {
            store.communities[*c].deleted = deleted;
            assert(store@.communities =~= old(store)@.with_deleted(*object, deleted).communities);
        },
        DeletableObjects::Post(p, _) => {
            store.posts[*p].deleted = deleted;
            assert(store@.posts =~= old(store)@.with_deleted(*object, deleted).posts);
        },
        DeletableObjects::Comment(c, _) => {
            store.comments[*c].deleted = deleted;
            assert(store@.comments =~= old(store)@.with_deleted(*object, deleted).comments);
        },
        DeletableObjects::PrivateMessage(m, _) => {
            store.private_messages[*m].deleted = deleted;
            assert(store@.private_messages =~= old(store)@.with_deleted(
                *object,
                deleted,
            ).private_messages);
        },
    }
}

/// Reads the deleted flag of the row that `object` names.
fn read_deleted(store: &Store, object: &DeletableObjects) -> (r: bool)
    requires
        object.within(store@),
    ensures
        r == store@.is_deleted(*object),
{
    match object {
        DeletableObjects::Community(c, _) => store.communities[*c].deleted,
        DeletableObjects::Post(p, _) => store.posts[*p].deleted,
        DeletableObjects::Comment(c, _) => store.comments[*c].deleted,
        DeletableObjects::PrivateMessage(m, _) => store.private_messages[*m].deleted,
    }
}

/// Builds the local update for `object`.
fn make_update(object: &DeletableObjects) -> (r: LocalUpdate)
    ensures
        r == update_for(*object),
{
    match object {
        DeletableObjects::Community(c, _) => LocalUpdate {
            kind: ContentKind::Community,
            row: *c,
            op: UserOperationCrud::DeleteCommunity,
        },
        DeletableObjects::Post(p, _) => LocalUpdate {
            kind: ContentKind::Post,
            row: *p,
            op: UserOperationCrud::DeletePost,
        },
        DeletableObjects::Comment(c, _) => LocalUpdate {
            kind: ContentKind::Comment,
            row: *c,
            op: UserOperationCrud::DeleteComment,
        },
        DeletableObjects::PrivateMessage(m, _) => LocalUpdate {
            kind: ContentKind::PrivateMessage,
            row: *m,
            op: UserOperationCrud::DeletePrivateMessage,
        },
    }
}

/// Applies a deletion (`deleted`) or its taking back (not `deleted`) of the
/// object with the identifier `object`, asked for by `actor`.
///
/// Where the object already has the flag asked for, nothing is written,
/// nothing is relayed and no local session is told. Otherwise the flag is
/// written and local sessions are told; for a local community the deletion
/// is first handed on to the community's followers, and if that cannot be
/// prepared the store stays as it was.
pub fn receive_delete_action(
    store: &mut Store,
    object: &ObjectUrl,
    actor: &ObjectUrl,
    deleted: bool,
    token: &str,
) -> (r: Result<DeleteOutcome, FederationError>)
    ensures
        is_delete_receipt(r, old(store)@, final(store)@, object@, actor@, deleted, token@),
{
    let found = match DeletableObjects::read_from_db(object, store) {
        Ok(o) => o,
        Err(e) => {
            return Err(e);
        },
    };
    if read_deleted(store, &found) == deleted {
        return Ok(DeleteOutcome { relay: None, update: None });
    }
    let mut relay: Option<Outbound> = None;
    if let DeletableObjects::Community(c, id) = &found {
        if store.communities[*c].local {
            let moderator = match store.find_person(actor) {
                Some(p) => p,
                None => {
                    return Err(FederationError::ActorUnresolvable);
                },
            };
            let again = DeletableObjects::Community(*c, id.clone());
            match send_apub_delete_in_community(store, moderator, *c, again, None, true, token) {
                Ok(out) => {
                    relay = Some(out);
                },
                Err(e) => {
                    return Err(e);
                },
            }
        }
    }
    write_deleted(store, &found, deleted);
    Ok(DeleteOutcome { relay, update: Some(make_update(&found)) })
}

/// The reason that the moderation log keeps for a removal: the summary of
/// the activity, unless that is empty.
pub open spec fn logged_reason(summary: Option<String>) -> Option<String> {
    match summary {
        Some(text) => if text@.len() == 0 {
            None
        } else {
            Some(text)
        },
        None => None,
    }
}

impl StoreView {
    /// The store with the removed flag of the row that `object` names set to
    /// `removed`. A private message has no such flag.
    pub open spec fn with_removed(self, object: DeletableObjects, removed: bool) -> StoreView {
        match object {
            DeletableObjects::Community(c, _) => StoreView {
                communities: self.communities.update(
                    c as int,
                    Community { removed, ..self.communities[c as int] },
                ),
                ..self
            },
            DeletableObjects::Post(p, _) => StoreView {
                posts: self.posts.update(p as int, Post { removed, ..self.posts[p as int] }),
                ..self
            },
            DeletableObjects::Comment(c, _) => StoreView {
                comments: self.comments.update(
                    c as int,
                    Comment { removed, ..self.comments[c as int] },
                ),
                ..self
            },
            DeletableObjects::PrivateMessage(_, _) => self,
        }
    }

    /// What the moderation log calls `object`.
    pub open spec fn log_target(self, object: DeletableObjects) -> LogTarget {
        match object {
            DeletableObjects::Community(c, _) => LogTarget::Community(c),
            DeletableObjects::Post(p, _) => LogTarget::Post(p),
            DeletableObjects::Comment(c, _) => LogTarget::Comment(c),
            DeletableObjects::PrivateMessage(m, _) => LogTarget::Person(m),
        }
    }

    /// The scope that the moderation log gives for `object`: the community
    /// it belongs to, or the instance where none is known.
    pub open spec fn log_scope(self, object: DeletableObjects) -> Scope {
        match self.community_of(object) {
            Ok(c) => Scope::Community(c),
            Err(_) => Scope::Instance,
        }
    }

    /// Whether a moderator from elsewhere may remove `object`: posts and
    /// comments, and communities that do not live here.
    pub open spec fn removable(self, object: DeletableObjects) -> bool {
        match object {
            DeletableObjects::Community(c, _) => !self.communities[c as int].local,
            DeletableObjects::Post(_, _) => true,
            DeletableObjects::Comment(_, _) => true,
            DeletableObjects::PrivateMessage(_, _) => false,
        }
    }

    /// What applying the activity `id`, a moderator's removal (`removed`)
    /// or its taking back, gives: the new store, or why it cannot be
    /// applied. It is applied once: the same activity applied again changes
    /// nothing.
    pub open spec fn removal_effect(
        self,
        id: ObjectUrl,
        actor: Seq<char>,
        object: Seq<char>,
        reason: Option<String>,
        removed: bool,
    ) -> Result<StoreView, FederationError> {
        self.applied_once(id, self.fresh_removal_effect(actor, object, reason, removed))
    }

    /// What a moderator's removal (`removed`) or its taking back gives on a
    /// store that has not applied it: the store with the flag set and one
    /// more entry in the moderation log, or why it cannot be applied. The
    /// moderator has to be known, then the object, and the object has to be
    /// removable.
    pub open spec fn fresh_removal_effect(
        self,
        actor: Seq<char>,
        object: Seq<char>,
        reason: Option<String>,
        removed: bool,
    ) -> Result<StoreView, FederationError> {
        match self.person_at(actor) {
            None => Err(FederationError::ActorUnresolvable),
            Some(m) => match self.deletable_at(object) {
                None => Err(FederationError::NotFound),
                Some(o) => if !self.removable(o) {
                    Err(FederationError::NotAModerator)
                } else {
                    Ok(
                        self.with_removed(o, removed).with_log(
                            ModLogEntry {
                                action: if removed {
                                    ModAction::Remove
                                } else {
                                    ModAction::Restore
                                },
                                moderator: m,
                                target: self.log_target(o),
                                scope: self.log_scope(o),
                                reason,
                                expires: None,
                                published: self.now,
                            },
                        ),
                    )
                },
            },
        }
    }
}

/// Applying the same removal twice is applying it once: the second
/// application succeeds and leaves the store as the first left it, so the
/// removal is logged once.
pub proof fn lemma_removal_twice_logs_once(
    store: StoreView,
    id: ObjectUrl,
    actor: Seq<char>,
    object: Seq<char>,
    reason: Option<String>,
    removed: bool,
)
    requires
        store.removal_effect(id, actor, object, reason, removed) is Ok,
    ensures
        ({
            let once = store.removal_effect(id, actor, object, reason, removed)->Ok_0;
            &&& once.removal_effect(id, actor, object, reason, removed) == Ok::<
                StoreView,
                FederationError,
            >(once)
            &&& once.mod_log.len() <= store.mod_log.len() + 1
        }),
{
    lemma_applied_once_again(
        store,
        id,
        store.fresh_removal_effect(actor, object, reason, removed),
        store.removal_effect(id, actor, object, reason, removed)->Ok_0.fresh_removal_effect(
            actor,
            object,
            reason,
            removed,
        ),
    );
}

/// Sets the removed flag of the row that `object` names.
fn write_removed(store: &mut Store, object: &DeletableObjects, removed: bool)
    requires
        object.within(old(store)@),
    ensures
        final(store)@ == old(store)@.with_removed(*object, removed),
{
    match object {
        DeletableObjects::Community(c, _) => {
            store.communities[*c].removed = removed;
            assert(store@.communities =~= old(store)@.with_removed(*object, removed).communities);
        },
        DeletableObjects::Post(p, _) => {
            store.posts[*p].removed = removed;
            assert(store@.posts =~= old(store)@.with_removed(*object, removed).posts);
        },
        DeletableObjects::Comment(c, _) => {
            store.comments[*c].removed = removed;
            assert(store@.comments =~= old(store)@.with_removed(*object, removed).comments);
        },
        DeletableObjects::PrivateMessage(_, _) => {},
    }
}

/// The community that `object` belongs to, for the moderation log.
fn scope_of(store: &Store, object: &DeletableObjects) -> (r: Scope)
    requires
        object.within(store@),
    ensures
        r == store@.log_scope(*object),
{
    let community = match object {
        DeletableObjects::Community(c, _) => *c,
        DeletableObjects::Post(p, _) => store.posts[*p].community,
        DeletableObjects::Comment(c, _) => {
            let post = store.comments[*c].post;
            if post >= store.posts.len() {
                return Scope::Instance;
            }
            store.posts[post].community
        },
        DeletableObjects::PrivateMessage(_, _) => {
            return Scope::Instance;
        },
    };
    if community < store.communities.len() {
        Scope::Community(community)
    } else {
        Scope::Instance
    }
}

/// Applies the activity `id`, a moderator's removal (`removed`) of the
/// object with the identifier `object` or its taking back, and records it
/// in the moderation log. It is applied once: where the store has applied
/// the activity before, nothing is changed, nothing is logged and nobody is
/// told, and that is no error. On failure the store stays as it was.
pub fn receive_remove_action(
    store: &mut Store,
    id: &ObjectUrl,
    actor: &ObjectUrl,
    object: &ObjectUrl,
    reason: Option<String>,
    removed: bool,
) -> (r: Result<Option<LocalUpdate>, FederationError>)
    ensures
        match old(store)@.removal_effect(*id, actor@, object@, reason, removed) {
            Ok(after) => r is Ok && final(store)@ == after && r->Ok_0 == if old(
                store,
            )@.was_applied(*id) {
                None
            } else {
                Some(update_for(old(store)@.deletable_at(object@)->0))
            },
            Err(e) => r is Err && r->Err_0 == e && final(store)@ == old(store)@,
        },
{
    if contains_url(&store.applied, id) {
        return Ok(None);
    }
    let moderator = match store.find_person(actor) {
        Some(m) => m,
        None => {
            return Err(FederationError::ActorUnresolvable);
        },
    };
    let found = match DeletableObjects::read_from_db(object, store) {
        Ok(o) => o,
        Err(e) => {
            return Err(e);
        },
    };
    let target = match &found {
        DeletableObjects::Community(c, _) => {
            if store.communities[*c].local {
                return Err(FederationError::NotAModerator);
            }
            LogTarget::Community(*c)
        },
        DeletableObjects::Post(p, _) => LogTarget::Post(*p),
        DeletableObjects::Comment(c, _) => LogTarget::Comment(*c),
        DeletableObjects::PrivateMessage(_, _) => {
            return Err(FederationError::NotAModerator);
        },
    };
    let scope = scope_of(store, &found);
    write_removed(store, &found, removed);
    store.mod_log.push(
        ModLogEntry {
            action: if removed {
                ModAction::Remove
            } else {
                ModAction::Restore
            },
            moderator,
            target,
            scope,
            reason,
            expires: None,
            published: store.now,
        },
    );
    store.applied.push(id.clone());
    Ok(Some(make_update(&found)))
}

/// What applying a deletion or a removal did besides changing the store.
pub enum Applied {
    /// An author's deletion, or its taking back.
    Deleted(DeleteOutcome),
    /// A moderator's removal, or its taking back; local sessions are told.
    Removed(LocalUpdate),
    /// Another change of the store, of which nobody has to be told.
    Changed,
    /// The activity was applied before; nothing was done.
    Already,
}

/// Whether `r` and `after` are what applying the deletion `id`, or its
/// taking back, to `before` comes to.
///
/// An activity that was applied before changes nothing and answers
/// `Already`. Otherwise a moderator's removal changes the store as
/// `fresh_removal_effect` says, and an author's deletion as
/// `is_delete_receipt` says; on success the activity is remembered as
/// applied, on failure the store stays as it was.
pub open spec fn is_deletion_applied(
    r: Result<Applied, FederationError>,
    before: StoreView,
    after: StoreView,
    id: ObjectUrl,
    actor: Seq<char>,
    object: Seq<char>,
    by_moderator: bool,
    reason: Option<String>,
    deleted: bool,
    token: Seq<char>,
) -> bool {
    if before.was_applied(id) {
        r is Ok && r->Ok_0 is Already && after == before
    } else if by_moderator {
        match before.fresh_removal_effect(actor, object, reason, deleted) {
            Ok(changed) => {
                &&& r is Ok
                &&& after == changed.with_applied(id)
                &&& r->Ok_0 matches Applied::Removed(update) && update == update_for(
                    before.deletable_at(object)->0,
                )
            },
            Err(e) => r is Err && r->Err_0 == e && after == before,
        }
    } else {
        &&& r is Ok ==> r->Ok_0 is Deleted
        &&& is_delete_receipt(
            outcome_of(r),
            before,
            StoreView { applied: before.applied, ..after },
            object,
            actor,
            deleted,
            token,
        )
        &&& after.applied == if r is Ok {
            before.applied.push(id)
        } else {
            before.applied
        }
    }
}

/// The outcome of a deletion within the result of applying an activity.
pub open spec fn outcome_of(r: Result<Applied, FederationError>) -> Result<
    DeleteOutcome,
    FederationError,
> {
    match r {
        Ok(Applied::Deleted(outcome)) => Ok(outcome),
        Ok(_) => Err(FederationError::NotFound),
        Err(e) => Err(e),
    }
}

/// Drops an empty reason.
fn reason_to_log(summary: Option<String>) -> (r: Option<String>)
    ensures
        r == logged_reason(summary),
{
    match summary {
        Some(text) => {
            if text.as_str().is_empty() {
                None
            } else {
                Some(text)
            }
        },
        None => None,
    }
}

impl Delete {
    /// Verifies an inbound deletion; a summary makes it a moderator's
    /// removal.
    pub fn verify(&self, store: &Store) -> (r: Result<(), FederationError>)
        ensures
            r == store@.delete_verdict(*self, self.summary is Some),
    {
        verify_delete_activity(store, self, self.summary.is_some())
    }

    /// Applies a verified deletion, once: with a summary as a moderator's
    /// removal, without one as the author's deletion.
    pub fn receive(self, store: &mut Store, token: &str) -> (r: Result<Applied, FederationError>)
        ensures
            is_deletion_applied(
                r,
                old(store)@,
                final(store)@,
                self.id,
                self.actor@,
                self.object@,
                self.summary is Some,
                logged_reason(self.summary),
                true,
                token@,
            ),
    {
        if contains_url(&store.applied, &self.id) {
            return Ok(Applied::Already);
        }
        if self.summary.is_some() {
            let reason = reason_to_log(self.summary);
            match receive_remove_action(store, &self.id, &self.actor, &self.object, reason, true) {
                Ok(Some(update)) => Ok(Applied::Removed(update)),
                Ok(None) => Ok(Applied::Already),
                Err(e) => Err(e),
            }
        } else {
            match receive_delete_action(store, &self.object, &self.actor, true, token) {
                Ok(outcome) => {
                    let ghost changed = store@;
                    store.applied.push(self.id);
                    assert((StoreView { applied: old(store)@.applied, ..store@ }) == changed);
                    Ok(Applied::Deleted(outcome))
                },
                Err(e) => {
                    assert((StoreView { applied: old(store)@.applied, ..store@ }) == store@);
                    Err(e)
                },
            }
        }
    }
}

impl StoreView {
    /// What verification answers for the taking back of a deletion: the
    /// deletion itself has to pass, and has to be the actor's own.
    pub open spec fn undo_delete_verdict(self, activity: UndoDelete) -> Result<
        (),
        FederationError,
    > {
        match self.delete_verdict(activity.object, activity.object.summary is Some) {
            Err(e) => Err(e),
            Ok(_) => if activity.actor@ == activity.object.actor@ {
                Ok(())
            } else {
                Err(FederationError::DomainMismatch)
            },
        }
    }
}

impl UndoDelete {
    /// Verifies the taking back of a deletion.
    pub fn verify(&self, store: &Store) -> (r: Result<(), FederationError>)
        ensures
            r == store@.undo_delete_verdict(*self),
    {
        match verify_delete_activity(store, &self.object, self.object.summary.is_some()) {
            Err(e) => {
                return Err(e);
            },
            Ok(_) => {},
        }
        if self.actor.same(&self.object.actor) {
            Ok(())
        } else {
            Err(FederationError::DomainMismatch)
        }
    }

    /// Applies the verified taking back of a deletion or of a removal,
    /// once.
    pub fn receive(self, store: &mut Store, token: &str) -> (r: Result<Applied, FederationError>)
        ensures
            is_deletion_applied(
                r,
                old(store)@,
                final(store)@,
                self.id,
                self.actor@,
                self.object.object@,
                self.object.summary is Some,
                None,
                false,
                token@,
            ),
    {
        if contains_url(&store.applied, &self.id) {
            return Ok(Applied::Already);
        }
        if self.object.summary.is_some() {
            match receive_remove_action(
                store,
                &self.id,
                &self.actor,
                &self.object.object,
                None,
                false,
            ) {
                Ok(Some(update)) => Ok(Applied::Removed(update)),
                Ok(None) => Ok(Applied::Already),
                Err(e) => Err(e),
            }
        } else {
            match receive_delete_action(store, &self.object.object, &self.actor, false, token) {
                Ok(outcome) => {
                    let ghost changed = store@;
                    store.applied.push(self.id);
                    assert((StoreView { applied: old(store)@.applied, ..store@ }) == changed);
                    Ok(Applied::Deleted(outcome))
                },
                Err(e) => {
                    assert((StoreView { applied: old(store)@.applied, ..store@ }) == store@);
                    Err(e)
                },
            }
        }
    }
}

} // verus!
