//! Adding a moderator to a community, or a post to its featured posts.

use crate::builder::{
    collection_text, generate_activity_id, generate_featured_url, generate_moderators_url,
    has_activity_id, is_activity_id,
};
use crate::checks::{
    has_member, is_member, is_public, public_text, verify_is_public,
    verify_mod_action_in_community,
};
use crate::dispatch::{send_activity_in_community, Outbound};
use crate::error::FederationError;
use crate::model::{LogTarget, Membership, ModAction, ModLogEntry, Post, Scope};
use crate::protocol::{ActivityKind, AnnouncableActivities, CollectionAdd, CollectionRemove};
use crate::store::{Store, StoreView};
use crate::urls::{contains_url, url_serialization, ObjectUrl};
use vstd::prelude::*;

verus! {

/// The collections of a community that activities add to and remove from.
#[derive(Clone, Copy, Debug, PartialEq, Eq, Structural)]
pub enum CollectionType {
    Moderators,
    Featured,
}

/// The ending that the identifier of a collection has after the
/// community's own identifier.
pub open spec fn collection_suffix(collection: CollectionType) -> Seq<char> {
    match collection {
        CollectionType::Moderators => "/moderators"@,
        CollectionType::Featured => "/featured"@,
    }
}

impl StoreView {
    /// The community that owns the collection `url`, and which of its
    /// collections that is. Moderator collections are looked at first.
    pub open spec fn collection_at(self, url: Seq<char>) -> Option<(usize, CollectionType)> {
        if let Some(c) = self.moderators_collection_at(url) {
            Some((c, CollectionType::Moderators))
        } else if let Some(c) = self.featured_collection_at(url) {
            Some((c, CollectionType::Featured))
        } else {
            None
        }
    }

    /// The community that an activity on the collection `target` acts in,
    /// checked against the audience the activity names.
    pub open spec fn collection_community(
        self,
        target: ObjectUrl,
        audience: Option<ObjectUrl>,
    ) -> Result<
        usize,
        FederationError,
    > {
        match self.collection_at(target@) {
            None => Err(FederationError::NotFound),
            Some((c, _)) => self.audience_verdict(audience, c),
        }
    }

    /// What verification answers for an activity of `actor` on the
    /// collection `target`. The checks run in this order and the first that
    /// fails decides: the activity is public; the actor is known; the
    /// collection is known and belongs to the audience; the actor is a
    /// member; the actor moderates.
    pub open spec fn collection_verdict(
        self,
        to: Seq<ObjectUrl>,
        cc: Seq<ObjectUrl>,
        actor: ObjectUrl,
        target: ObjectUrl,
        audience: Option<ObjectUrl>,
    ) -> Result<(), FederationError> {
        if !is_public(to, cc) {
            Err(FederationError::AudienceMissing)
        } else if self.person_at(actor@) is None {
            Err(FederationError::ActorUnresolvable)
        } else {
            match self.collection_community(target, audience) {
                Err(e) => Err(e),
                Ok(c) => self.mod_action_verdict(actor, c),
            }
        }
    }

    /// The store with the person `moderator` added to the moderators of
    /// `community` by `actor`, which the moderation log records. Where the
    /// person already moderates the community the store stays as it is.
    pub open spec fn with_moderator(
        self,
        community: usize,
        moderator: usize,
        actor: usize,
    ) -> StoreView {
        if has_member(self.moderators, community, moderator) {
            self
        } else {
            StoreView {
                moderators: self.moderators.push(Membership { community, person: moderator }),
                mod_log: self.mod_log.push(
                    ModLogEntry {
                        action: ModAction::AddModerator,
                        moderator: actor,
                        target: LogTarget::Person(moderator),
                        scope: Scope::Community(community),
                        reason: None,
                        expires: None,
                        published: self.now,
                    },
                ),
                ..self
            }
        }
    }

    /// The store with the featured flag of `post` set to `featured`.
    pub open spec fn with_featured(self, post: usize, featured: bool) -> StoreView {
        StoreView {
            posts: self.posts.update(
                post as int,
                Post { featured_community: featured, ..self.posts[post as int] },
            ),
            ..self
        }
    }

    /// What applying an addition gives: the new store, or why it cannot be
    /// applied. It is applied once: the same activity applied again changes
    /// nothing.
    pub open spec fn add_effect(
        self,
        activity: CollectionAdd,
    ) -> Result<StoreView, FederationError> {
        self.applied_once(activity.id, self.fresh_add_effect(activity))
    }

    /// What an addition gives on a store that has not applied it. The
    /// collection has to be known, then the object; a new moderator also
    /// needs a known actor.
    pub open spec fn fresh_add_effect(self, activity: CollectionAdd) -> Result<
        StoreView,
        FederationError,
    > {
        match self.collection_at(activity.target@) {
            None => Err(FederationError::NotFound),
            Some((c, CollectionType::Moderators)) => match self.person_at(activity.object@) {
                None => Err(FederationError::NotFound),
                Some(m) => if has_member(self.moderators, c, m) {
                    Ok(self)
                } else {
                    match self.person_at(activity.actor@) {
                        None => Err(FederationError::ActorUnresolvable),
                        Some(a) => Ok(self.with_moderator(c, m, a)),
                    }
                },
            },
            Some((c, CollectionType::Featured)) => match self.post_at(activity.object@) {
                None => Err(FederationError::NotFound),
                Some(p) => Ok(self.with_featured(p, true)),
            },
        }
    }
}

/// How many of the first `n` rows pair `community` with `person`.
pub open spec fn pair_count(rows: Seq<Membership>, community: usize, person: usize, n: int) -> nat
    decreases n,
{
    if n <= 0 {
        0
    } else if rows[n - 1].community == community && rows[n - 1].person == person {
        pair_count(rows, community, person, n - 1) + 1
    } else {
        pair_count(rows, community, person, n - 1)
    }
}

/// A pair that no row holds is counted zero times; one that a row holds is
/// counted at least once.
pub proof fn lemma_pair_count_of_member(
    rows: Seq<Membership>,
    community: usize,
    person: usize,
    n: int,
)
    requires
        0 <= n <= rows.len(),
    ensures
        pair_count(rows, community, person, n) > 0 <==> has_member(
            rows.subrange(0, n),
            community,
            person,
        ),
    decreases n,
{
    if n > 0 {
        lemma_pair_count_of_member(rows, community, person, n - 1);
        let shorter = rows.subrange(0, n - 1);
        let longer = rows.subrange(0, n);
        if has_member(shorter, community, person) {
            let i = choose|i: int|
                0 <= i < shorter.len() && (#[trigger] shorter[i]).community == community
                    && shorter[i].person == person;
            assert(longer[i] == shorter[i]);
        }
        if rows[n - 1].community == community && rows[n - 1].person == person {
            assert(longer[n - 1] == rows[n - 1]);
        }
        if has_member(longer, community, person) {
            let i = choose|i: int|
                0 <= i < longer.len() && (#[trigger] longer[i]).community == community
                    && longer[i].person == person;
            if i < n - 1 {
                assert(shorter[i] == longer[i]);
            }
        }
    }
}

/// A row at the end does not change the count over the rows before it.
pub proof fn lemma_pair_count_ignores_tail(
    rows: Seq<Membership>,
    extra: Membership,
    community: usize,
    person: usize,
    n: int,
)
    requires
        0 <= n <= rows.len(),
    ensures
        pair_count(rows.push(extra), community, person, n) == pair_count(
            rows,
            community,
            person,
            n,
        ),
    decreases n,
{
    if n > 0 {
        lemma_pair_count_ignores_tail(rows, extra, community, person, n - 1);
        assert(rows.push(extra)[n - 1] == rows[n - 1]);
    }
}

/// Adding the same moderator twice is adding the moderator once, whether
/// the same activity comes again or another one asks for the same: the
/// second addition leaves moderators and moderation log as the first left
/// them. After the first, the moderators hold the pair; they hold it exactly
/// once if they did not hold it before; and the log has grown by at most one
/// entry.
pub proof fn lemma_add_moderator_twice(
    store: StoreView,
    first: CollectionAdd,
    second: CollectionAdd,
)
    requires
        store.collection_at(first.target@) matches Some((_, CollectionType::Moderators)),
        second.target@ == first.target@,
        second.object@ == first.object@,
        !store.was_applied(first.id),
        store.add_effect(first) is Ok,
        store.add_effect(first)->Ok_0.add_effect(second) is Ok,
    ensures
        ({
            let once = store.add_effect(first)->Ok_0;
            let twice = once.add_effect(second)->Ok_0;
            let community = (store.collection_at(first.target@)->0).0;
            let person = store.person_at(first.object@)->0;
            &&& twice.moderators == once.moderators
            &&& twice.mod_log == once.mod_log
            &&& has_member(once.moderators, community, person)
            &&& !has_member(store.moderators, community, person) ==> pair_count(
                once.moderators,
                community,
                person,
                once.moderators.len() as int,
            ) == 1
            &&& once.mod_log.len() <= store.mod_log.len() + 1
        }),
{
    let once = store.add_effect(first)->Ok_0;
    let community = (store.collection_at(first.target@)->0).0;
    let person = store.person_at(first.object@)->0;
    if !has_member(store.moderators, community, person) {
        let row = Membership { community, person };
        let n = store.moderators.len() as int;
        assert(once.moderators == store.moderators.push(row));
        assert(once.moderators[n] == row);
        lemma_pair_count_of_member(store.moderators, community, person, n);
        assert(store.moderators.subrange(0, n) =~= store.moderators);
        lemma_pair_count_ignores_tail(store.moderators, row, community, person, n);
    }
}

/// Finds the community that owns the collection `url`.
pub fn get_by_collection_url(store: &Store, url: &ObjectUrl) -> (r: Result<
    (usize, CollectionType),
    FederationError,
>)
    ensures
        r == match store@.collection_at(url@) {
            Some(found) => Ok::<(usize, CollectionType), FederationError>(found),
            None => Err(FederationError::NotFound),
        },
        r matches Ok(found) ==> found.0 < store@.communities.len(),
{
    if let Some(c) = store.find_moderators_collection(url) {
        return Ok((c, CollectionType::Moderators));
    }
    if let Some(c) = store.find_featured_collection(url) {
        return Ok((c, CollectionType::Featured));
    }
    Err(FederationError::NotFound)
}

/// The community that an activity on the collection `target` acts in.
pub fn collection_community(store: &Store, target: &ObjectUrl, audience: &Option<ObjectUrl>) -> (r:
    Result<usize, FederationError>)
    ensures
        r == store@.collection_community(*target, *audience),
        r matches Ok(c) ==> c < store@.communities.len(),
{
    let community = match get_by_collection_url(store, target) {
        Ok(found) => found.0,
        Err(e) => {
            return Err(e);
        },
    };
    match audience {
        Some(a) => {
            if a.same(&store.communities[community].actor_id) {
                Ok(community)
            } else {
                Err(FederationError::CommunityMismatch)
            }
        },
        None => Ok(community),
    }
}

/// Verifies an activity of `actor` on the collection `target`.
pub fn verify_collection_activity(
    store: &Store,
    to: &Vec<ObjectUrl>,
    cc: &Vec<ObjectUrl>,
    actor: &ObjectUrl,
    target: &ObjectUrl,
    audience: &Option<ObjectUrl>,
) -> (r: Result<(), FederationError>)
    ensures
        r == store@.collection_verdict(to@, cc@, *actor, *target, *audience),
{
    match verify_is_public(to, cc) {
        Err(e) => {
            return Err(e);
        },
        Ok(_) => {},
    }
    if store.find_person(actor).is_none() {
        return Err(FederationError::ActorUnresolvable);
    }
    match collection_community(store, target, audience) {
        Err(e) => Err(e),
        Ok(c) => verify_mod_action_in_community(store, actor, c),
    }
}

/// What an activity on a collection of a community carries, whichever way
/// it changes the collection.
pub struct CollectionParts {
    pub actor: ObjectUrl,
    pub to: Vec<ObjectUrl>,
    pub object: ObjectUrl,
    pub target: ObjectUrl,
    pub cc: Vec<ObjectUrl>,
    pub id: ObjectUrl,
    pub audience: Option<ObjectUrl>,
}

/// Whether `parts` is what the person in row `actor` sends to change
/// `collection` of `community` with respect to `object`.
pub open spec fn are_parts_of(
    parts: CollectionParts,
    store: StoreView,
    community: usize,
    actor: usize,
    object: ObjectUrl,
    collection: CollectionType,
    kind: ActivityKind,
    token: Seq<char>,
) -> bool {
    &&& parts.actor == store.persons[actor as int].actor_id
    &&& parts.to@.len() == 1 && parts.to@[0]@ == public_text()
    &&& parts.object == object
    &&& Some(parts.target@) == url_serialization(
        collection_text(
            store.communities[community as int].actor_id@,
            collection_suffix(collection),
        ),
    )
    &&& parts.cc@ == seq![
        store.communities[community as int].actor_id,
        store.communities[community as int].followers_url,
    ]
    &&& is_activity_id(parts.id, store.protocol_and_hostname, kind, token)
    &&& parts.audience == Some(store.communities[community as int].actor_id)
}

/// Whether everything that `are_parts_of` describes can be built.
pub open spec fn can_build_parts(
    store: StoreView,
    community: usize,
    actor: usize,
    collection: CollectionType,
    kind: ActivityKind,
    token: Seq<char>,
) -> bool {
    &&& community < store.communities.len()
    &&& actor < store.persons.len()
    &&& has_activity_id(store.protocol_and_hostname, kind, token)
    &&& url_serialization(
        collection_text(
            store.communities[community as int].actor_id@,
            collection_suffix(collection),
        ),
    ) is Some
}

/// Builds what an activity on `collection` of `community` carries.
///
/// Fails with `NotFound` where the store lacks the community or the actor,
/// and with `InvalidUrl` where an identifier cannot be built.
pub fn build_collection_parts(
    store: &Store,
    community: usize,
    actor: usize,
    object: ObjectUrl,
    collection: CollectionType,
    kind: ActivityKind,
    token: &str,
) -> (r: Result<CollectionParts, FederationError>)
    ensures
        r is Ok <==> can_build_parts(store@, community, actor, collection, kind, token@),
        r matches Ok(parts) ==> are_parts_of(
            parts,
            store@,
            community,
            actor,
            object,
            collection,
            kind,
            token@,
        ),
        r matches Err(e) ==> e == if community < store@.communities.len() && actor
            < store@.persons.len() {
            FederationError::InvalidUrl
        } else {
            FederationError::NotFound
        },
{
    if community >= store.communities.len() || actor >= store.persons.len() {
        return Err(FederationError::NotFound);
    }
    let id = match generate_activity_id(kind, store.protocol_and_hostname.as_str(), token) {
        Ok(id) => id,
        Err(e) => {
            return Err(e);
        },
    };
    let row = &store.communities[community];
    let built = match collection {
        CollectionType::Moderators => generate_moderators_url(&row.actor_id),
        CollectionType::Featured => generate_featured_url(&row.actor_id),
    };
    let target = match built {
        Ok(t) => t,
        Err(e) => {
            return Err(e);
        },
    };
    let mut to: Vec<ObjectUrl> = Vec::new();
    to.push(ObjectUrl::public());
    let mut cc: Vec<ObjectUrl> = Vec::new();
    cc.push(row.actor_id.clone());
    cc.push(row.followers_url.clone());
    assert(cc@ =~= seq![row.actor_id, row.followers_url]);
    Ok(
        CollectionParts {
            actor: store.persons[actor].actor_id.clone(),
            to,
            object,
            target,
            cc,
            id,
            audience: Some(row.actor_id.clone()),
        },
    )
}

/// The parts of an addition.
pub open spec fn parts_of_add(add: CollectionAdd) -> CollectionParts {
    CollectionParts {
        actor: add.actor,
        to: add.to,
        object: add.object,
        target: add.target,
        cc: add.cc,
        id: add.id,
        audience: add.audience,
    }
}

/// The parts of a removal.
pub open spec fn parts_of_remove(remove: CollectionRemove) -> CollectionParts {
    CollectionParts {
        actor: remove.actor,
        to: remove.to,
        object: remove.object,
        target: remove.target,
        cc: remove.cc,
        id: remove.id,
        audience: remove.audience,
    }
}

/// Whether `r` is what sending a change of `collection` of `community`
/// comes to, where `object` is what is added or removed and `object_known`
/// says whether the store holds it: `NotFound` where the store lacks the
/// object, the community or the actor; `InvalidUrl` where an identifier
/// cannot be built; otherwise the activity of `kind`, an addition or a
/// removal, and its fan-out as a moderator's action with `extra_inboxes`
/// first.
pub open spec fn is_collection_dispatch(
    r: Result<Outbound, FederationError>,
    store: StoreView,
    community: usize,
    actor: usize,
    object_known: bool,
    object: ObjectUrl,
    extra_inboxes: Seq<ObjectUrl>,
    collection: CollectionType,
    kind: ActivityKind,
    token: Seq<char>,
) -> bool {
    if !(object_known && community < store.communities.len() && actor < store.persons.len()) {
        r is Err && r->Err_0 == FederationError::NotFound
    } else if !can_build_parts(store, community, actor, collection, kind, token) {
        r is Err && r->Err_0 == FederationError::InvalidUrl
    } else {
        &&& r is Ok
        &&& r->Ok_0.deliveries@ == store.fan_out(actor, community, extra_inboxes, true)
        &&& r->Ok_0.announcer == store.announcer(community)
        &&& match r->Ok_0.activity {
            AnnouncableActivities::CollectionAdd(add) => kind == ActivityKind::Add && are_parts_of(
                parts_of_add(add),
                store,
                community,
                actor,
                object,
                collection,
                kind,
                token,
            ),
            AnnouncableActivities::CollectionRemove(remove) => kind == ActivityKind::Remove
                && are_parts_of(
                parts_of_remove(remove),
                store,
                community,
                actor,
                object,
                collection,
                kind,
                token,
            ),
            _ => false,
        }
    }
}

impl CollectionAdd {
    /// Builds the addition of the person in row `added_mod` to the
    /// moderators of `community`, and works out where it has to go: to the
    /// new moderator and on into the community, as a moderator's action.
    ///
    /// Fails with `NotFound` where the store lacks one of the rows, and with
    /// `InvalidUrl` where an identifier cannot be built.
    pub fn send_add_mod(
        community: usize,
        added_mod: usize,
        actor: usize,
        store: &Store,
        token: &str,
    ) -> (r: Result<Outbound, FederationError>)
        ensures
            is_collection_dispatch(
                r,
                store@,
                community,
                actor,
                added_mod < store@.persons.len(),
                store@.persons[added_mod as int].actor_id,
                seq![store@.persons[added_mod as int].inbox()],
                CollectionType::Moderators,
                ActivityKind::Add,
                token@,
            ),
    {
        if added_mod >= store.persons.len() {
            return Err(FederationError::NotFound);
        }
        let parts = match build_collection_parts(
            store,
            community,
            actor,
            store.persons[added_mod].actor_id.clone(),
            CollectionType::Moderators,
            ActivityKind::Add,
            token,
        ) {
            Ok(p) => p,
            Err(e) => {
                return Err(e);
            },
        };
        let add = CollectionAdd {
            actor: parts.actor,
            to: parts.to,
            object: parts.object,
            target: parts.target,
            cc: parts.cc,
            id: parts.id,
            audience: parts.audience,
        };
        let mut inboxes: Vec<ObjectUrl> = Vec::new();
        inboxes.push(store.persons[added_mod].shared_inbox_or_inbox());
        assert(inboxes@ =~= seq![store@.persons[added_mod as int].inbox()]);
        match send_activity_in_community(store, actor, community, inboxes, true) {
            Ok(deliveries) => Ok(
                Outbound {
                    activity: AnnouncableActivities::CollectionAdd(add),
                    deliveries,
                    announcer: store.announcer_of(community),
                },
            ),
            Err(e) => Err(e),
        }
    }

    /// Builds the addition of the post in row `featured_post` to the
    /// featured posts of `community`, and works out where it has to go: into
    /// the community, as a moderator's action.
    ///
    /// Fails with `NotFound` where the store lacks one of the rows, and with
    /// `InvalidUrl` where an identifier cannot be built.
    pub fn send_add_featured_post(
        community: usize,
        featured_post: usize,
        actor: usize,
        store: &Store,
        token: &str,
    ) -> (r: Result<Outbound, FederationError>)
        ensures
            is_collection_dispatch(
                r,
                store@,
                community,
                actor,
                featured_post < store@.posts.len(),
                store@.posts[featured_post as int].ap_id,
                Seq::empty(),
                CollectionType::Featured,
                ActivityKind::Add,
                token@,
            ),
    {
        if featured_post >= store.posts.len() {
            return Err(FederationError::NotFound);
        }
        let parts = match build_collection_parts(
            store,
            community,
            actor,
            store.posts[featured_post].ap_id.clone(),
            CollectionType::Featured,
            ActivityKind::Add,
            token,
        ) {
            Ok(p) => p,
            Err(e) => {
                return Err(e);
            },
        };
        let add = CollectionAdd {
            actor: parts.actor,
            to: parts.to,
            object: parts.object,
            target: parts.target,
            cc: parts.cc,
            id: parts.id,
            audience: parts.audience,
        };
        match send_activity_in_community(store, actor, community, Vec::new(), true) {
            Ok(deliveries) => Ok(
                Outbound {
                    activity: AnnouncableActivities::CollectionAdd(add),
                    deliveries,
                    announcer: store.announcer_of(community),
                },
            ),
            Err(e) => Err(e),
        }
    }

    /// The community that the addition acts in.
    pub fn community(&self, store: &Store) -> (r: Result<usize, FederationError>)
        ensures
            r == store@.collection_community(self.target, self.audience),
            r matches Ok(c) ==> c < store@.communities.len(),
    {
        collection_community(store, &self.target, &self.audience)
    }

    /// Verifies an inbound addition before it is applied.
    pub fn verify(&self, store: &Store) -> (r: Result<(), FederationError>)
        ensures
            r == store@.collection_verdict(
                self.to@,
                self.cc@,
                self.actor,
                self.target,
                self.audience,
            ),
    {
        verify_collection_activity(
            store,
            &self.to,
            &self.cc,
            &self.actor,
            &self.target,
            &self.audience,
        )
    }

    /// Applies a verified addition to the store, once: where the store has
    /// applied the activity before, nothing is changed, and that is no
    /// error.
    ///
    /// Adding a person who already moderates the community changes neither
    /// the moderators nor the log and is no error. On failure the store
    /// stays as it was.
    pub fn receive(self, store: &mut Store) -> (r: Result<(), FederationError>)
        ensures
            match old(store)@.add_effect(self) {
                Ok(after) => r is Ok && final(store)@ == after,
                Err(e) => r == Err::<(), FederationError>(e) && final(store)@ == old(store)@,
            },
    {
        if contains_url(&store.applied, &self.id) {
            return Ok(());
        }
        let (community, collection) = match get_by_collection_url(store, &self.target) {
            Ok(found) => found,
            Err(e) => {
                return Err(e);
            },
        };
        match collection {
            CollectionType::Moderators => {
                let new_mod = match store.find_person(&self.object) {
                    Some(p) => p,
                    None => {
                        return Err(FederationError::NotFound);
                    },
                };
                if !is_member(&store.moderators, community, new_mod) {
                    let actor = match store.find_person(&self.actor) {
                        Some(a) => a,
                        None => {
                            return Err(FederationError::ActorUnresolvable);
                        },
                    };
                    store.moderators.push(Membership { community, person: new_mod });
                    store.mod_log.push(
                        ModLogEntry {
                            action: ModAction::AddModerator,
                            moderator: actor,
                            target: LogTarget::Person(new_mod),
                            scope: Scope::Community(community),
                            reason: None,
                            expires: None,
                            published: store.now,
                        },
                    );
                }
            },
            CollectionType::Featured => {
                let post = match store.find_post(&self.object) {
                    Some(p) => p,
                    None => {
                        return Err(FederationError::NotFound);
                    },
                };
                store.posts[post].featured_community = true;
                assert(store@.posts =~= old(store)@.with_featured(post, true).posts);
            },
        }
        store.applied.push(self.id);
        Ok(())
    }
}

} // verus!
