//! Lifting a ban from an instance or from a community.

use crate::block_user::{
    generate_cc, is_block_of, remote_instance_inboxes, remote_site_inboxes, SiteOrCommunity,
};
use crate::builder::{generate_activity_id, has_activity_id, is_activity_id};
use crate::checks::{has_active_ban, has_ban, is_public, public_text, verify_is_public};
use crate::dispatch::{
    deliveries_to, push_deliveries, send_activity_in_community, Delivery, Envelope, Outbound,
};
use crate::error::FederationError;
use crate::model::{CommunityBan, LogTarget, ModAction, ModLogEntry, Person, Scope};
use crate::protocol::{ActivityKind, AnnouncableActivities, BlockUser, UndoBlockUser};
use crate::store::{lemma_applied_once_again, Store, StoreView};
use crate::urls::{contains_url, domains_equal, same_domain, ObjectUrl};
use vstd::prelude::*;

verus! {

/// The first `n` rows of `bans` without those that bar `person` from
/// `community`.
pub open spec fn bans_without(
    bans: Seq<CommunityBan>,
    community: usize,
    person: usize,
    n: int,
) -> Seq<
    CommunityBan,
>
    decreases n,
{
    if n <= 0 {
        Seq::empty()
    } else if bans[n - 1].community == community && bans[n - 1].person == person {
        bans_without(bans, community, person, n - 1)
    } else {
        bans_without(bans, community, person, n - 1).push(bans[n - 1])
    }
}

/// No row that bars `person` from `community` is left by `bans_without`.
pub proof fn lemma_bans_without_has_none(
    bans: Seq<CommunityBan>,
    community: usize,
    person: usize,
    n: int,
)
    requires
        0 <= n <= bans.len(),
    ensures
        !has_ban(bans_without(bans, community, person, n), community, person),
    decreases n,
{
    if n > 0 {
        lemma_bans_without_has_none(bans, community, person, n - 1);
        let before = bans_without(bans, community, person, n - 1);
        let after = bans_without(bans, community, person, n);
        if !(bans[n - 1].community == community && bans[n - 1].person == person) {
            assert forall|i: int| 0 <= i < after.len() implies !((#[trigger] after[i]).community
                == community && after[i].person == person) by {
                if i < before.len() {
                    assert(after[i] == before[i]);
                }
            }
        }
    }
}

/// Once a ban from a community is lifted, no ban bars the person from it,
/// at whatever time one looks.
pub proof fn lemma_unban_lifts_every_ban(
    store: StoreView,
    community: usize,
    person: usize,
    now: i64,
)
    ensures
        !has_ban(store.without_community_ban(community, person).community_bans, community, person),
        !has_active_ban(
            store.without_community_ban(community, person).community_bans,
            community,
            person,
            now,
        ),
{
    lemma_bans_without_has_none(
        store.community_bans,
        community,
        person,
        store.community_bans.len() as int,
    );
}

impl StoreView {
    /// What verification answers for the lifting of a ban: it has to be
    /// public, its actor has to share the domain of the one who banned, and
    /// the ban itself has to pass verification.
    pub open spec fn undo_block_verdict(self, activity: UndoBlockUser) -> Result<
        (),
        FederationError,
    > {
        if !is_public(activity.to@, activity.cc@) {
            Err(FederationError::AudienceMissing)
        } else if !same_domain(activity.actor.domain_view(), activity.object.actor.domain_view()) {
            Err(FederationError::DomainMismatch)
        } else {
            self.block_verdict(activity.object)
        }
    }

    /// The store with the instance-wide ban of `person` lifted.
    pub open spec fn without_site_ban(self, person: usize) -> StoreView {
        StoreView {
            persons: self.persons.update(
                person as int,
                Person { banned: false, ban_expires: None, ..self.persons[person as int] },
            ),
            ..self
        }
    }

    /// The store with every ban of `person` from `community` lifted.
    pub open spec fn without_community_ban(self, community: usize, person: usize) -> StoreView {
        StoreView {
            community_bans: bans_without(
                self.community_bans,
                community,
                person,
                self.community_bans.len() as int,
            ),
            ..self
        }
    }

    /// The store after the ban of `person` from `target` is lifted by
    /// `moderator`: what the ban had set is cleared, and the moderation log
    /// has one more entry, with the reason that the ban gave.
    pub open spec fn with_unblock(
        self,
        target: SiteOrCommunity,
        person: usize,
        moderator: usize,
        activity: UndoBlockUser,
    ) -> StoreView {
        match target {
            SiteOrCommunity::Site(_) => self.without_site_ban(person).with_log(
                ModLogEntry {
                    action: ModAction::Unban,
                    moderator,
                    target: LogTarget::Person(person),
                    scope: Scope::Instance,
                    reason: activity.object.summary,
                    expires: None,
                    published: self.now,
                },
            ),
            SiteOrCommunity::Community(c) => self.without_community_ban(c, person).with_log(
                ModLogEntry {
                    action: ModAction::Unban,
                    moderator,
                    target: LogTarget::Person(person),
                    scope: Scope::Community(c),
                    reason: activity.object.summary,
                    expires: None,
                    published: self.now,
                },
            ),
        }
    }

    /// What applying the lifting of a ban gives: the new store, or why it
    /// cannot be applied. It is applied once: the same activity applied
    /// again changes nothing.
    pub open spec fn unblock_effect(self, activity: UndoBlockUser) -> Result<
        StoreView,
        FederationError,
    > {
        self.applied_once(activity.id, self.fresh_unblock_effect(activity))
    }

    /// What the lifting of a ban gives on a store that has not applied it.
    /// The moderator, the banned person and the target have to be known, in
    /// this order.
    pub open spec fn fresh_unblock_effect(self, activity: UndoBlockUser) -> Result<
        StoreView,
        FederationError,
    > {
        match self.person_at(activity.actor@) {
            None => Err(FederationError::ActorUnresolvable),
            Some(m) => match self.person_at(activity.object.object@) {
                None => Err(FederationError::NotFound),
                Some(p) => match self.target_at(activity.object.target@) {
                    None => Err(FederationError::NotFound),
                    Some(t) => Ok(self.with_unblock(t, p, m, activity)),
                },
            },
        }
    }

    /// Where the lifting of a ban of `user` from `target` has to go: first
    /// to the person concerned; then, for an instance-wide ban, to every
    /// other instance, and for a ban from a community on into the
    /// community, as a moderator's action.
    pub open spec fn unblock_deliveries(
        self,
        target: SiteOrCommunity,
        user: usize,
        moderator: usize,
    ) -> Seq<Delivery> {
        match target {
            SiteOrCommunity::Site(_) => deliveries_to(
                seq![self.persons[user as int].inbox()] + remote_site_inboxes(
                    self.sites,
                    self.sites.len() as int,
                ),
                Envelope::Direct,
            ),
            SiteOrCommunity::Community(c) => self.fan_out(
                moderator,
                c,
                seq![self.persons[user as int].inbox()],
                true,
            ),
        }
    }
}

/// Whether `u` lifts the ban of the person in row `user` from `target`, in
/// the name of the person in row `moderator`.
pub open spec fn is_unblock_of(
    u: UndoBlockUser,
    store: StoreView,
    target: SiteOrCommunity,
    user: usize,
    moderator: usize,
    reason: Option<String>,
    token: Seq<char>,
) -> bool {
    &&& u.actor == store.persons[moderator as int].actor_id
    &&& u.to@.len() == 1 && u.to@[0]@ == public_text()
    &&& is_block_of(u.object, store, target, user, moderator, None, reason, None, token)
    &&& u.cc@ == store.block_cc(target)
    &&& is_activity_id(u.id, store.protocol_and_hostname, ActivityKind::Undo, token)
    &&& u.audience == match target {
        SiteOrCommunity::Site(_) => None,
        SiteOrCommunity::Community(c) => Some(store.communities[c as int].actor_id),
    }
}

/// Whether the identifiers that the lifting of a ban needs can be built.
pub open spec fn can_build_unblock(origin: Seq<char>, token: Seq<char>) -> bool {
    has_activity_id(origin, ActivityKind::Block, token) && has_activity_id(
        origin,
        ActivityKind::Undo,
        token,
    )
}

/// Applying the same lifting of a ban twice is applying it once: the second
/// application succeeds and leaves the store as the first left it.
pub proof fn lemma_unban_twice_logs_once(store: StoreView, activity: UndoBlockUser)
    requires
        store.unblock_effect(activity) is Ok,
    ensures
        ({
            let once = store.unblock_effect(activity)->Ok_0;
            &&& once.unblock_effect(activity) == Ok::<StoreView, FederationError>(once)
            &&& once.mod_log.len() <= store.mod_log.len() + 1
        }),
{
    lemma_applied_once_again(
        store,
        activity.id,
        store.fresh_unblock_effect(activity),
        store.unblock_effect(activity)->Ok_0.fresh_unblock_effect(activity),
    );
}

/// Lifts every ban of `person` from `community`.
pub fn unban(bans: &mut Vec<CommunityBan>, community: usize, person: usize)
    ensures
        final(bans)@ == bans_without(old(bans)@, community, person, old(bans)@.len() as int),
{
    let mut kept: Vec<CommunityBan> = Vec::new();
    let mut i: usize = 0;
    while i < bans.len()
        invariant
            i <= bans.len(),
            kept@ == bans_without(bans@, community, person, i as int),
        decreases bans.len() - i,
    {
        let row = bans[i];
        if !(row.community == community && row.person == person) {
            kept.push(row);
        }
        i += 1;
    }
    *bans = kept;
}

impl UndoBlockUser {
    /// Builds the lifting of the ban of the person in row `user` from
    /// `target`, and works out where it has to go.
    ///
    /// Fails with `NotFound` where the store lacks one of the rows, and with
    /// `InvalidUrl` where an identifier cannot be built.
    pub fn send(
        target: &SiteOrCommunity,
        user: usize,
        moderator: usize,
        reason: Option<String>,
        store: &Store,
        token: &str,
    ) -> (r: Result<Outbound, FederationError>)
        ensures
            r is Ok <==> store@.knows_block(*target, user, moderator) && can_build_unblock(
                store@.protocol_and_hostname,
                token@,
            ),
            r matches Ok(out) ==> out.deliveries@ == store@.unblock_deliveries(
                *target,
                user,
                moderator,
            ),
            r matches Ok(out) ==> out.announcer == store@.target_announcer(*target),
            r matches Ok(out) ==> (out.activity matches AnnouncableActivities::UndoBlockUser(u)
                && is_unblock_of(u, store@, *target, user, moderator, reason, token@)),
            r matches Err(e) ==> e == if store@.knows_block(*target, user, moderator) {
                FederationError::InvalidUrl
            } else {
                FederationError::NotFound
            },
    {
        let block = match BlockUser::new(
            target,
            user,
            moderator,
            None,
            reason,
            None,
            store,
            token,
        ) {
            Ok(b) => b,
            Err(e) => {
                return Err(e);
            },
        };
        let id = match generate_activity_id(
            ActivityKind::Undo,
            store.protocol_and_hostname.as_str(),
            token,
        ) {
            Ok(id) => id,
            Err(e) => {
                return Err(e);
            },
        };
        let audience = match target {
            SiteOrCommunity::Community(c) => Some(store.communities[*c].actor_id.clone()),
            SiteOrCommunity::Site(_) => None,
        };
        let mut to: Vec<ObjectUrl> = Vec::new();
        to.push(ObjectUrl::public());
        let undo = UndoBlockUser {
            actor: store.persons[moderator].actor_id.clone(),
            to,
            object: block,
            cc: generate_cc(target, store),
            id,
            audience,
        };
        let mut inboxes: Vec<ObjectUrl> = Vec::new();
        inboxes.push(store.persons[user].shared_inbox_or_inbox());
        assert(inboxes@ =~= seq![store@.persons[user as int].inbox()]);
        match target {
            SiteOrCommunity::Site(_) => {
                let mut deliveries: Vec<Delivery> = Vec::new();
                push_deliveries(&mut deliveries, inboxes, Envelope::Direct);
                push_deliveries(&mut deliveries, remote_instance_inboxes(store), Envelope::Direct);
                assert(deliveries@ =~= store@.unblock_deliveries(*target, user, moderator));
                Ok(
                    Outbound {
                        activity: AnnouncableActivities::UndoBlockUser(undo),
                        deliveries,
                        announcer: None,
                    },
                )
            },
            SiteOrCommunity::Community(c) => {
                match send_activity_in_community(store, moderator, *c, inboxes, true) {
                    Ok(deliveries) => Ok(
                        Outbound {
                            activity: AnnouncableActivities::UndoBlockUser(undo),
                            deliveries,
                            announcer: store.announcer_of(*c),
                        },
                    ),
                    Err(e) => Err(e),
                }
            },
        }
    }

    /// Verifies the inbound lifting of a ban before it is applied.
    pub fn verify(&self, store: &Store) -> (r: Result<(), FederationError>)
        ensures
            r == store@.undo_block_verdict(*self),
    {
        match verify_is_public(&self.to, &self.cc) {
            Err(e) => {
                return Err(e);
            },
            Ok(_) => {},
        }
        if !domains_equal(&self.actor, &self.object.actor) {
            return Err(FederationError::DomainMismatch);
        }
        self.object.verify(store)
    }

    /// Applies the verified lifting of a ban to the store, once: where the
    /// store has applied the activity before, nothing is changed and
    /// nothing is logged, and that is no error.
    ///
    /// On failure the store stays as it was.
    pub fn receive(self, store: &mut Store) -> (r: Result<(), FederationError>)
        ensures
            match old(store)@.unblock_effect(self) {
                Ok(after) => r is Ok && final(store)@ == after,
                Err(e) => r == Err::<(), FederationError>(e) && final(store)@ == old(store)@,
            },
    {
        if contains_url(&store.applied, &self.id) {
            return Ok(());
        }
        let moderator = match store.find_person(&self.actor) {
            Some(m) => m,
            None => {
                return Err(FederationError::ActorUnresolvable);
            },
        };
        let person = match store.find_person(&self.object.object) {
            Some(p) => p,
            None => {
                return Err(FederationError::NotFound);
            },
        };
        let target = match SiteOrCommunity::read_from_apub_id(&self.object.target, store) {
            Some(t) => t,
            None => {
                return Err(FederationError::NotFound);
            },
        };
        let scope = match target {
            SiteOrCommunity::Site(_) => {
                store.persons[person].banned = false;
                store.persons[person].ban_expires = None;
                assert(store@.persons =~= old(store)@.without_site_ban(person).persons);
                Scope::Instance
            },
            SiteOrCommunity::Community(c) => {
                unban(&mut store.community_bans, c, person);
                Scope::Community(c)
            },
        };
        store.mod_log.push(
            ModLogEntry {
                action: ModAction::Unban,
                moderator,
                target: LogTarget::Person(person),
                scope,
                reason: self.object.summary,
                expires: None,
                published: store.now,
            },
        );
        store.applied.push(self.id);
        Ok(())
    }
}

} // verus!
