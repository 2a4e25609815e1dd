//! Taking a moderator out of a community, or a post out of its featured
//! posts.

use crate::checks::{remove_pair, without_pair};
use crate::collection_add::{
    build_collection_parts, collection_community, get_by_collection_url,
    is_collection_dispatch, verify_collection_activity, CollectionType,
};
use crate::dispatch::{send_activity_in_community, Outbound};
use crate::error::FederationError;
use crate::model::{LogTarget, ModAction, ModLogEntry, Scope};
use crate::protocol::{ActivityKind, AnnouncableActivities, CollectionRemove};
use crate::store::{lemma_applied_once_again, Store, StoreView};
use crate::urls::{contains_url, ObjectUrl};
use vstd::prelude::*;

verus! {

impl StoreView {
    /// The store with the person `moderator` taken out of the moderators of
    /// `community` by `actor`, which the moderation log records.
    pub open spec fn without_moderator(
        self,
        community: usize,
        moderator: usize,
        actor: usize,
    ) -> StoreView {
        StoreView {
            moderators: without_pair(
                self.moderators,
                community,
                moderator,
                self.moderators.len() as int,
            ),
            mod_log: self.mod_log.push(
                ModLogEntry {
                    action: ModAction::RemoveModerator,
                    moderator: actor,
                    target: LogTarget::Person(moderator),
                    scope: Scope::Community(community),
                    reason: None,
                    expires: None,
                    published: self.now,
                },
            ),
            ..self
        }
    }

    /// What applying a removal gives: the new store, or why it cannot be
    /// applied. It is applied once: the same activity applied again changes
    /// nothing.
    pub open spec fn remove_effect(self, activity: CollectionRemove) -> Result<
        StoreView,
        FederationError,
    > {
        self.applied_once(activity.id, self.fresh_remove_effect(activity))
    }

    /// What a removal gives on a store that has not applied it. The
    /// collection has to be known, then the object, and for a moderator the
    /// actor.
    pub open spec fn fresh_remove_effect(self, activity: CollectionRemove) -> Result<
        StoreView,
        FederationError,
    > {
        match self.collection_at(activity.target@) {
            None => Err(FederationError::NotFound),
            Some((c, CollectionType::Moderators)) => match self.person_at(activity.object@) {
                None => Err(FederationError::NotFound),
                Some(m) => match self.person_at(activity.actor@) {
                    None => Err(FederationError::ActorUnresolvable),
                    Some(a) => Ok(self.without_moderator(c, m, a)),
                },
            },
            Some((c, CollectionType::Featured)) => match self.post_at(activity.object@) {
                None => Err(FederationError::NotFound),
                Some(p) => Ok(self.with_featured(p, false)),
            },
        }
    }
}

/// Applying the same removal twice is applying it once: the second
/// application succeeds and leaves the store as the first left it.
pub proof fn lemma_remove_twice_logs_once(store: StoreView, activity: CollectionRemove)
    requires
        store.remove_effect(activity) is Ok,
    ensures
        ({
            let once = store.remove_effect(activity)->Ok_0;
            &&& once.remove_effect(activity) == Ok::<StoreView, FederationError>(once)
            &&& once.mod_log.len() <= store.mod_log.len() + 1
        }),
{
    lemma_applied_once_again(
        store,
        activity.id,
        store.fresh_remove_effect(activity),
        store.remove_effect(activity)->Ok_0.fresh_remove_effect(activity),
    );
}

impl CollectionRemove {
    /// Builds the removal of the person in row `removed_mod` from the
    /// moderators of `community`, and works out where it has to go: to that
    /// person and on into the community, as a moderator's action.
    ///
    /// Fails with `NotFound` where the store lacks one of the rows, and with
    /// `InvalidUrl` where an identifier cannot be built.
    pub fn send_remove_mod(
        community: usize,
        removed_mod: usize,
        actor: usize,
        store: &Store,
        token: &str,
    ) -> (r: Result<Outbound, FederationError>)
        ensures
            is_collection_dispatch(
                r,
                store@,
                community,
                actor,
                removed_mod < store@.persons.len(),
                store@.persons[removed_mod as int].actor_id,
                seq![store@.persons[removed_mod as int].inbox()],
                CollectionType::Moderators,
                ActivityKind::Remove,
                token@,
            ),
    {
        if removed_mod >= store.persons.len() {
            return Err(FederationError::NotFound);
        }
        let parts = match build_collection_parts(
            store,
            community,
            actor,
            store.persons[removed_mod].actor_id.clone(),
            CollectionType::Moderators,
            ActivityKind::Remove,
            token,
        ) {
            Ok(p) => p,
            Err(e) => {
                return Err(e);
            },
        };
        let remove = CollectionRemove {
            actor: parts.actor,
            to: parts.to,
            object: parts.object,
            cc: parts.cc,
            target: parts.target,
            id: parts.id,
            audience: parts.audience,
        };
        let mut inboxes: Vec<ObjectUrl> = Vec::new();
        inboxes.push(store.persons[removed_mod].shared_inbox_or_inbox());
        assert(inboxes@ =~= seq![store@.persons[removed_mod as int].inbox()]);
        match send_activity_in_community(store, actor, community, inboxes, true) {
            Ok(deliveries) => Ok(
                Outbound {
                    activity: AnnouncableActivities::CollectionRemove(remove),
                    deliveries,
                    announcer: store.announcer_of(community),
                },
            ),
            Err(e) => Err(e),
        }
    }

    /// Builds the removal of the post in row `featured_post` from the
    /// featured posts of `community`, and works out where it has to go:
    /// into the community, as a moderator's action.
    ///
    /// Fails with `NotFound` where the store lacks one of the rows, and with
    /// `InvalidUrl` where an identifier cannot be built.
    pub fn send_remove_featured_post(
        community: usize,
        featured_post: usize,
        actor: usize,
        store: &Store,
        token: &str,
    ) -> (r: Result<Outbound, FederationError>)
        ensures
            is_collection_dispatch(
                r,
                store@,
                community,
                actor,
                featured_post < store@.posts.len(),
                store@.posts[featured_post as int].ap_id,
                Seq::empty(),
                CollectionType::Featured,
                ActivityKind::Remove,
                token@,
            ),
    {
        if featured_post >= store.posts.len() {
            return Err(FederationError::NotFound);
        }
        let parts = match build_collection_parts(
            store,
            community,
            actor,
            store.posts[featured_post].ap_id.clone(),
            CollectionType::Featured,
            ActivityKind::Remove,
            token,
        ) {
            Ok(p) => p,
            Err(e) => {
                return Err(e);
            },
        };
        let remove = CollectionRemove {
            actor: parts.actor,
            to: parts.to,
            object: parts.object,
            cc: parts.cc,
            target: parts.target,
            id: parts.id,
            audience: parts.audience,
        };
        match send_activity_in_community(store, actor, community, Vec::new(), true) {
            Ok(deliveries) => Ok(
                Outbound {
                    activity: AnnouncableActivities::CollectionRemove(remove),
                    deliveries,
                    announcer: store.announcer_of(community),
                },
            ),
            Err(e) => Err(e),
        }
    }

    /// The community that the removal acts in: the one that owns the
    /// collection named as target. Where the activity names an audience, it
    /// has to be that community.
    pub fn community(&self, store: &Store) -> (r: Result<usize, FederationError>)
        ensures
            r == store@.collection_community(self.target, self.audience),
            r matches Ok(c) ==> c < store@.communities.len(),
    {
        collection_community(store, &self.target, &self.audience)
    }

    /// Verifies an inbound removal before it is applied.
    pub fn verify(&self, store: &Store) -> (r: Result<(), FederationError>)
        ensures
            r == store@.collection_verdict(
                self.to@,
                self.cc@,
                self.actor,
                self.target,
                self.audience,
            ),
    {
        verify_collection_activity(
            store,
            &self.to,
            &self.cc,
            &self.actor,
            &self.target,
            &self.audience,
        )
    }

    /// Applies a verified removal to the store, once: where the store has
    /// applied the activity before, nothing is changed and nothing is
    /// logged, and that is no error.
    ///
    /// On failure the store stays as it was.
    pub fn receive(self, store: &mut Store) -> (r: Result<(), FederationError>)
        ensures
            match old(store)@.remove_effect(self) {
                Ok(after) => r is Ok && final(store)@ == after,
                Err(e) => r == Err::<(), FederationError>(e) && final(store)@ == old(store)@,
            },
    {
        if contains_url(&store.applied, &self.id) {
            return Ok(());
        }
        let (community, collection) = match get_by_collection_url(store, &self.target) {
            Ok(found) => found,
            Err(e) => {
                return Err(e);
            },
        };
        match collection {
            CollectionType::Moderators => {
                let old_mod = match store.find_person(&self.object) {
                    Some(p) => p,
                    None => {
                        return Err(FederationError::NotFound);
                    },
                };
                let actor = match store.find_person(&self.actor) {
                    Some(a) => a,
                    None => {
                        return Err(FederationError::ActorUnresolvable);
                    },
                };
                remove_pair(&mut store.moderators, community, old_mod);
                store.mod_log.push(
                    ModLogEntry {
                        action: ModAction::RemoveModerator,
                        moderator: actor,
                        target: LogTarget::Person(old_mod),
                        scope: Scope::Community(community),
                        reason: None,
                        expires: None,
                        published: store.now,
                    },
                );
            },
            CollectionType::Featured => {
                let post = match store.find_post(&self.object) {
                    Some(p) => p,
                    None => {
                        return Err(FederationError::NotFound);
                    },
                };
                store.posts[post].featured_community = false;
                assert(store@.posts =~= old(store)@.with_featured(post, false).posts);
            },
        }
        store.applied.push(self.id);
        Ok(())
    }
}

} // verus!
