//! Banning a person from an instance or from a community.

use crate::builder::{generate_activity_id, has_activity_id, is_activity_id};
use crate::checks::{
    has_ban, has_member, is_public, lemma_without_pair_has_none, public_text, remove_pair,
    verify_domains_match, verify_is_public, verify_mod_action_in_community, without_pair,
};
use crate::dispatch::{
    deliveries_to, push_deliveries, send_activity_in_community, Delivery, Envelope, Outbound,
};
use crate::error::FederationError;
use crate::model::{
    Comment, CommunityBan, LogTarget, ModAction, ModLogEntry, Person, Post, Scope, Site,
};
use crate::protocol::{ActivityKind, AnnouncableActivities, BlockUser};
use crate::store::{lemma_applied_once_again, Store, StoreView};
use crate::urls::{contains_url, domain_is, same_domain, ObjectUrl};
use vstd::prelude::*;

verus! {

/// What a ban applies to: a whole instance or one community, by its row.
#[derive(Clone, Copy, Debug, PartialEq, Eq, Structural)]
pub enum SiteOrCommunity {
    Site(usize),
    Community(usize),
}

/// The identifiers of the first `n` instances that are not this one.
pub open spec fn remote_site_ids(sites: Seq<Site>, n: int) -> Seq<ObjectUrl>
    decreases n,
{
    if n <= 0 {
        Seq::empty()
    } else if sites[n - 1].local {
        remote_site_ids(sites, n - 1)
    } else {
        remote_site_ids(sites, n - 1).push(sites[n - 1].actor_id)
    }
}

/// The inboxes of the first `n` instances that are not this one.
pub open spec fn remote_site_inboxes(sites: Seq<Site>, n: int) -> Seq<ObjectUrl>
    decreases n,
{
    if n <= 0 {
        Seq::empty()
    } else if sites[n - 1].local {
        remote_site_inboxes(sites, n - 1)
    } else {
        remote_site_inboxes(sites, n - 1).push(sites[n - 1].inbox_url)
    }
}

impl StoreView {
    /// The instance or community with the identifier `url`; instances are
    /// looked at first.
    pub open spec fn target_at(self, url: Seq<char>) -> Option<SiteOrCommunity> {
        if let Some(s) = self.site_at(url) {
            Some(SiteOrCommunity::Site(s))
        } else if let Some(c) = self.community_at(url) {
            Some(SiteOrCommunity::Community(c))
        } else {
            None
        }
    }

    /// Whether the store holds the row that `target` names.
    pub open spec fn has_target(self, target: SiteOrCommunity) -> bool {
        match target {
            SiteOrCommunity::Site(s) => s < self.sites.len(),
            SiteOrCommunity::Community(c) => c < self.communities.len(),
        }
    }

    /// The identifier of `target`.
    pub open spec fn target_id(self, target: SiteOrCommunity) -> ObjectUrl {
        match target {
            SiteOrCommunity::Site(s) => self.sites[s as int].actor_id,
            SiteOrCommunity::Community(c) => self.communities[c as int].actor_id,
        }
    }

    /// The secondary audience of a ban from `target`: every other instance
    /// for an instance-wide ban; the community and its followers collection
    /// for a ban from a community.
    pub open spec fn block_cc(self, target: SiteOrCommunity) -> Seq<ObjectUrl> {
        match target {
            SiteOrCommunity::Site(_) => remote_site_ids(self.sites, self.sites.len() as int),
            SiteOrCommunity::Community(c) => seq![
                self.communities[c as int].actor_id,
                self.communities[c as int].followers_url,
            ],
        }
    }

    /// What verification answers for an instance-wide ban issued by the
    /// person in row `actor` in the name of the instance in row `site`. The
    /// checks run in this order: the banned person's identifier has a domain
    /// name; the person's home is not this instance, which is never banned
    /// from afar; the actor administers their instance; and both the actor
    /// and the banned person belong to the banning instance.
    pub open spec fn site_block_verdict(
        self,
        activity: BlockUser,
        site: usize,
        actor: usize,
    ) -> Result<(), FederationError> {
        if activity.object.domain_view() is None {
            Err(FederationError::DomainMismatch)
        } else if activity.object.domain_view() == Some(self.hostname) {
            Err(FederationError::SelfBanOnHomeInstance)
        } else if !self.persons[actor as int].admin {
            Err(FederationError::NotAModerator)
        } else if !same_domain(
            self.sites[site as int].actor_id.domain_view(),
            activity.actor.domain_view(),
        ) {
            Err(FederationError::DomainMismatch)
        } else if !same_domain(
            self.sites[site as int].actor_id.domain_view(),
            activity.object.domain_view(),
        ) {
            Err(FederationError::DomainMismatch)
        } else {
            Ok(())
        }
    }

    /// What verification answers for a ban. The checks run in this order and
    /// the first that fails decides: the activity is public; the acting
    /// person is known; the target is known; then, by the kind of target,
    /// the checks for an instance or those for a community.
    pub open spec fn block_verdict(self, activity: BlockUser) -> Result<(), FederationError> {
        if !is_public(activity.to@, activity.cc@) {
            Err(FederationError::AudienceMissing)
        } else {
            match self.person_at(activity.actor@) {
                None => Err(FederationError::ActorUnresolvable),
                Some(a) => match self.target_at(activity.target@) {
                    None => Err(FederationError::NotFound),
                    Some(SiteOrCommunity::Site(s)) => self.site_block_verdict(activity, s, a),
                    Some(SiteOrCommunity::Community(c)) => self.mod_action_verdict(
                        activity.actor,
                        c,
                    ),
                },
            }
        }
    }
}

impl SiteOrCommunity {
    /// Finds the instance or community with the identifier `url`.
    pub fn read_from_apub_id(url: &ObjectUrl, store: &Store) -> (r: Option<SiteOrCommunity>)
        ensures
            r == store@.target_at(url@),
            r matches Some(t) ==> store@.has_target(t),
    {
        if let Some(s) = store.find_site(url) {
            return Some(SiteOrCommunity::Site(s));
        }
        if let Some(c) = store.find_community(url) {
            return Some(SiteOrCommunity::Community(c));
        }
        None
    }

    /// The identifier of the target.
    pub(crate) fn id(&self, store: &Store) -> (r: ObjectUrl)
        requires
            store@.has_target(*self),
        ensures
            r == store@.target_id(*self),
    {
        match self {
            SiteOrCommunity::Site(s) => store.sites[*s].actor_id.clone(),
            SiteOrCommunity::Community(c) => store.communities[*c].actor_id.clone(),
        }
    }
}

/// Collects the identifiers of all instances but this one.
pub fn remote_instance_ids(store: &Store) -> (r: Vec<ObjectUrl>)
    ensures
        r@ == remote_site_ids(store@.sites, store@.sites.len() as int),
{
    let mut out: Vec<ObjectUrl> = Vec::new();
    let mut i: usize = 0;
    while i < store.sites.len()
        invariant
            i <= store.sites.len(),
            out@ == remote_site_ids(store@.sites, i as int),
        decreases store.sites.len() - i,
    {
        if !store.sites[i].local {
            out.push(store.sites[i].actor_id.clone());
        }
        i += 1;
    }
    out
}

/// Collects the inboxes of all instances but this one.
pub fn remote_instance_inboxes(store: &Store) -> (r: Vec<ObjectUrl>)
    ensures
        r@ == remote_site_inboxes(store@.sites, store@.sites.len() as int),
{
    let mut out: Vec<ObjectUrl> = Vec::new();
    let mut i: usize = 0;
    while i < store.sites.len()
        invariant
            i <= store.sites.len(),
            out@ == remote_site_inboxes(store@.sites, i as int),
        decreases store.sites.len() - i,
    {
        if !store.sites[i].local {
            out.push(store.sites[i].inbox_url.clone());
        }
        i += 1;
    }
    out
}

/// Builds the secondary audience of a ban from `target`.
pub(crate) fn generate_cc(target: &SiteOrCommunity, store: &Store) -> (r: Vec<ObjectUrl>)
    requires
        store@.has_target(*target),
    ensures
        r@ == store@.block_cc(*target),
{
    match target {
        SiteOrCommunity::Site(_) => remote_instance_ids(store),
        SiteOrCommunity::Community(c) => {
            let mut cc: Vec<ObjectUrl> = Vec::new();
            cc.push(store.communities[*c].actor_id.clone());
            cc.push(store.communities[*c].followers_url.clone());
            assert(cc@ =~= store@.block_cc(*target));
            cc
        },
    }
}

/// Whether `b` is the ban of the person in row `user` from `target`, issued
/// by the person in row `moderator`.
pub open spec fn is_block_of(
    b: BlockUser,
    store: StoreView,
    target: SiteOrCommunity,
    user: usize,
    moderator: usize,
    remove_data: Option<bool>,
    reason: Option<String>,
    expires: Option<i64>,
    token: Seq<char>,
) -> bool {
    &&& b.actor == store.persons[moderator as int].actor_id
    &&& b.to@.len() == 1 && b.to@[0]@ == public_text()
    &&& b.object == store.persons[user as int].actor_id
    &&& b.cc@ == store.block_cc(target)
    &&& b.target == store.target_id(target)
    &&& b.remove_data == remove_data
    &&& b.summary == reason
    &&& b.expires == expires
    &&& is_activity_id(b.id, store.protocol_and_hostname, ActivityKind::Block, token)
    &&& b.audience == match target {
        SiteOrCommunity::Site(_) => None,
        SiteOrCommunity::Community(c) => Some(store.communities[c as int].actor_id),
    }
}

impl StoreView {
    /// Whether the store holds everything that a ban of `user` from `target`
    /// by `moderator` refers to.
    pub open spec fn knows_block(
        self,
        target: SiteOrCommunity,
        user: usize,
        moderator: usize,
    ) -> bool {
        self.has_target(target) && user < self.persons.len() && moderator < self.persons.len()
    }

    /// The community that announces a ban from `target`, if any.
    pub open spec fn target_announcer(self, target: SiteOrCommunity) -> Option<usize> {
        match target {
            SiteOrCommunity::Site(_) => None,
            SiteOrCommunity::Community(c) => self.announcer(c),
        }
    }

    /// Where a ban of `user` from `target` by `moderator` has to go: an
    /// instance-wide ban to every other instance; a ban from a community to
    /// the banned person and on into the community, as a moderator's action.
    pub open spec fn block_deliveries(
        self,
        target: SiteOrCommunity,
        user: usize,
        moderator: usize,
    ) -> Seq<
        Delivery,
    > {
        match target {
            SiteOrCommunity::Site(_) => deliveries_to(
                remote_site_inboxes(self.sites, self.sites.len() as int),
                Envelope::Direct,
            ),
            SiteOrCommunity::Community(c) => self.fan_out(
                moderator,
                c,
                seq![self.persons[user as int].inbox()],
                true,
            ),
        }
    }
}

impl BlockUser {
    /// Builds the ban of the person in row `user` from `target` by the person
    /// in row `moderator`.
    ///
    /// Fails with `NotFound` where the store lacks one of the rows, and with
    /// `InvalidUrl` where no identifier can be built.
    pub fn new(
        target: &SiteOrCommunity,
        user: usize,
        moderator: usize,
        remove_data: Option<bool>,
        reason: Option<String>,
        expires: Option<i64>,
        store: &Store,
        token: &str,
    ) -> (r: Result<BlockUser, FederationError>)
        ensures
            r is Ok <==> store@.knows_block(*target, user, moderator) && has_activity_id(
                store@.protocol_and_hostname,
                ActivityKind::Block,
                token@,
            ),
            r matches Ok(b) ==> is_block_of(
                b,
                store@,
                *target,
                user,
                moderator,
                remove_data,
                reason,
                expires,
                token@,
            ),
            r matches Err(e) ==> e == if store@.knows_block(*target, user, moderator) {
                FederationError::InvalidUrl
            } else {
                FederationError::NotFound
            },
    {
        let known = match target {
            SiteOrCommunity::Site(s) => *s < store.sites.len(),
            SiteOrCommunity::Community(c) => *c < store.communities.len(),
        };
        if !known || user >= store.persons.len() || moderator >= store.persons.len() {
            return Err(FederationError::NotFound);
        }
        let id = match generate_activity_id(
            ActivityKind::Block,
            store.protocol_and_hostname.as_str(),
            token,
        ) {
            Ok(id) => id,
            Err(e) => {
                return Err(e);
            },
        };
        let audience = match target {
            SiteOrCommunity::Community(c) => Some(store.communities[*c].actor_id.clone()),
            SiteOrCommunity::Site(_) => None,
        };
        let mut to: Vec<ObjectUrl> = Vec::new();
        to.push(ObjectUrl::public());
        Ok(
            BlockUser {
                actor: store.persons[moderator].actor_id.clone(),
                to,
                object: store.persons[user].actor_id.clone(),
                cc: generate_cc(target, store),
                target: target.id(store),
                remove_data,
                summary: reason,
                expires,
                id,
                audience,
            },
        )
    }

    /// Builds a ban and works out where it has to go.
    ///
    /// Fails as [`BlockUser::new`] does.
    pub fn send(
        target: &SiteOrCommunity,
        user: usize,
        moderator: usize,
        remove_data: bool,
        reason: Option<String>,
        expires: Option<i64>,
        store: &Store,
        token: &str,
    ) -> (r: Result<Outbound, FederationError>)
        ensures
            r is Ok <==> store@.knows_block(*target, user, moderator) && has_activity_id(
                store@.protocol_and_hostname,
                ActivityKind::Block,
                token@,
            ),
            r matches Ok(out) ==> out.deliveries@ == store@.block_deliveries(
                *target,
                user,
                moderator,
            ),
            r matches Ok(out) ==> out.announcer == store@.target_announcer(*target),
            r matches Ok(out) ==> (out.activity matches AnnouncableActivities::BlockUser(b)
                && is_block_of(
                b,
                store@,
                *target,
                user,
                moderator,
                Some(remove_data),
                reason,
                expires,
                token@,
            )),
            r matches Err(e) ==> e == if store@.knows_block(*target, user, moderator) {
                FederationError::InvalidUrl
            } else {
                FederationError::NotFound
            },
    {
        let block = match BlockUser::new(
            target,
            user,
            moderator,
            Some(remove_data),
            reason,
            expires,
            store,
            token,
        ) {
            Ok(b) => b,
            Err(e) => {
                return Err(e);
            },
        };
        match target {
            SiteOrCommunity::Site(_) => {
                let inboxes = remote_instance_inboxes(store);
                let mut deliveries: Vec<Delivery> = Vec::new();
                push_deliveries(&mut deliveries, inboxes, Envelope::Direct);
                assert(deliveries@ =~= store@.block_deliveries(*target, user, moderator));
                Ok(
                    Outbound {
                        activity: AnnouncableActivities::BlockUser(block),
                        deliveries,
                        announcer: None,
                    },
                )
            },
            SiteOrCommunity::Community(c) => {
                let mut inboxes: Vec<ObjectUrl> = Vec::new();
                inboxes.push(store.persons[user].shared_inbox_or_inbox());
                assert(inboxes@ =~= seq![store@.persons[user as int].inbox()]);
                match send_activity_in_community(store, moderator, *c, inboxes, true) {
                    Ok(deliveries) => Ok(
                        Outbound {
                            activity: AnnouncableActivities::BlockUser(block),
                            deliveries,
                            announcer: store.announcer_of(*c),
                        },
                    ),
                    Err(e) => Err(e),
                }
            },
        }
    }

    /// Verifies an inbound ban before it is applied.
    pub fn verify(&self, store: &Store) -> (r: Result<(), FederationError>)
        ensures
            r == store@.block_verdict(*self),
    {
        match verify_is_public(&self.to, &self.cc) {
            Err(e) => {
                return Err(e);
            },
            Ok(_) => {},
        }
        let actor = match store.find_person(&self.actor) {
            Some(a) => a,
            None => {
                return Err(FederationError::ActorUnresolvable);
            },
        };
        match SiteOrCommunity::read_from_apub_id(&self.target, store) {
            None => Err(FederationError::NotFound),
            Some(SiteOrCommunity::Site(s)) => {
                if self.object.domain().is_none() {
                    return Err(FederationError::DomainMismatch);
                }
                if domain_is(&self.object, &store.hostname) {
                    return Err(FederationError::SelfBanOnHomeInstance);
                }
                if !store.persons[actor].admin {
                    return Err(FederationError::NotAModerator);
                }
                match verify_domains_match(&store.sites[s].actor_id, &self.actor) {
                    Err(e) => {
                        return Err(e);
                    },
                    Ok(_) => {},
                }
                verify_domains_match(&store.sites[s].actor_id, &self.object)
            },
            Some(SiteOrCommunity::Community(c)) => verify_mod_action_in_community(
                store,
                &self.actor,
                c,
            ),
        }
    }
}

/// An instance-wide ban that would hit a person whose home is this instance
/// is rejected, whatever else the activity says; where the activity is
/// public and its actor known, that is the reason given.
pub proof fn lemma_home_instance_ban_rejected(store: StoreView, activity: BlockUser)
    requires
        store.target_at(activity.target@) matches Some(SiteOrCommunity::Site(_)),
        activity.object.domain_view() == Some(store.hostname),
    ensures
        store.block_verdict(activity) is Err,
        is_public(activity.to@, activity.cc@) && store.person_at(activity.actor@) is Some
            ==> store.block_verdict(activity) == Err::<(), FederationError>(
            FederationError::SelfBanOnHomeInstance,
        ),
{
}

/// An instance-wide ban passes verification only where its actor
/// administers their instance and shares the banning instance's domain with
/// the banned person, whose identifier has a domain name.
pub proof fn lemma_site_ban_needs_administrator(store: StoreView, activity: BlockUser, site: usize)
    requires
        store.target_at(activity.target@) == Some(SiteOrCommunity::Site(site)),
        store.block_verdict(activity) is Ok,
    ensures
        store.person_at(activity.actor@) is Some,
        store.persons[store.person_at(activity.actor@)->0 as int].admin,
        activity.object.domain_view() is Some,
        activity.object.domain_view() != Some(store.hostname),
        same_domain(
            store.sites[site as int].actor_id.domain_view(),
            activity.actor.domain_view(),
        ),
        same_domain(
            store.sites[site as int].actor_id.domain_view(),
            activity.object.domain_view(),
        ),
{
}

/// Where nothing else stands in the way of an instance-wide ban, it passes
/// verification exactly if its actor administers their instance.
pub proof fn lemma_site_ban_iff_administrator(
    store: StoreView,
    activity: BlockUser,
    site: usize,
    actor: usize,
)
    requires
        is_public(activity.to@, activity.cc@),
        store.person_at(activity.actor@) == Some(actor),
        store.target_at(activity.target@) == Some(SiteOrCommunity::Site(site)),
        activity.object.domain_view() is Some,
        activity.object.domain_view() != Some(store.hostname),
        same_domain(
            store.sites[site as int].actor_id.domain_view(),
            activity.actor.domain_view(),
        ),
        same_domain(
            store.sites[site as int].actor_id.domain_view(),
            activity.object.domain_view(),
        ),
    ensures
        store.block_verdict(activity) is Ok <==> store.persons[actor as int].admin,
        !store.persons[actor as int].admin ==> store.block_verdict(activity) == Err::<
            (),
            FederationError,
        >(FederationError::NotAModerator),
{
}

/// An instance-wide ban of a person whose identifier has no domain name is
/// rejected.
pub proof fn lemma_ban_without_domain_rejected(store: StoreView, activity: BlockUser)
    requires
        store.target_at(activity.target@) matches Some(SiteOrCommunity::Site(_)),
        activity.object.domain_view() is None,
    ensures
        store.block_verdict(activity) is Err,
{
}

/// A public ban from a known community, issued by a member of it, passes
/// verification exactly if the member moderates the community.
pub proof fn lemma_community_ban_needs_moderator(
    store: StoreView,
    activity: BlockUser,
    community: usize,
)
    requires
        is_public(activity.to@, activity.cc@),
        store.target_at(activity.target@) == Some(SiteOrCommunity::Community(community)),
        store.membership_verdict(store.person_at(activity.actor@), community) is Ok,
    ensures
        store.block_verdict(activity) is Ok <==> has_member(
            store.moderators,
            community,
            store.person_at(activity.actor@)->0,
        ),
{
}

/// `posts` with every post of `person` marked as removed.
pub open spec fn posts_removed(posts: Seq<Post>, person: usize) -> Seq<Post> {
    Seq::new(
        posts.len(),
        |i: int|
            if posts[i].creator == person {
                Post { removed: true, ..posts[i] }
            } else {
                posts[i]
            },
    )
}

/// `comments` with every comment of `person` marked as removed.
pub open spec fn comments_removed(comments: Seq<Comment>, person: usize) -> Seq<Comment> {
    Seq::new(
        comments.len(),
        |i: int|
            if comments[i].creator == person {
                Comment { removed: true, ..comments[i] }
            } else {
                comments[i]
            },
    )
}

/// `posts` with every post of `person` in `community` marked as removed.
pub open spec fn posts_removed_in(posts: Seq<Post>, community: usize, person: usize) -> Seq<Post> {
    Seq::new(
        posts.len(),
        |i: int|
            if posts[i].creator == person && posts[i].community == community {
                Post { removed: true, ..posts[i] }
            } else {
                posts[i]
            },
    )
}

/// Whether `comment` hangs under a post of `community`.
pub open spec fn comment_in(comment: Comment, posts: Seq<Post>, community: usize) -> bool {
    comment.post < posts.len() && posts[comment.post as int].community == community
}

/// `comments` with every comment of `person` under a post of `community`
/// marked as removed.
pub open spec fn comments_removed_in(
    comments: Seq<Comment>,
    posts: Seq<Post>,
    community: usize,
    person: usize,
) -> Seq<Comment> {
    Seq::new(
        comments.len(),
        |i: int|
            if comments[i].creator == person && comment_in(comments[i], posts, community) {
                Comment { removed: true, ..comments[i] }
            } else {
                comments[i]
            },
    )
}

/// `bans` with `person` barred from `community` until `expires`: rows for
/// the pair get the new expiry; without such a row one is added at the end.
pub open spec fn bans_with(
    bans: Seq<CommunityBan>,
    community: usize,
    person: usize,
    expires: Option<i64>,
) -> Seq<CommunityBan> {
    if has_ban(bans, community, person) {
        Seq::new(
            bans.len(),
            |i: int|
                if bans[i].community == community && bans[i].person == person {
                    CommunityBan { community, person, expires }
                } else {
                    bans[i]
                },
        )
    } else {
        bans.push(CommunityBan { community, person, expires })
    }
}

impl StoreView {
    /// The store with `person` banned from the instance until `expires`.
    pub open spec fn with_site_ban(self, person: usize, expires: Option<i64>) -> StoreView {
        StoreView {
            persons: self.persons.update(
                person as int,
                Person { banned: true, ban_expires: expires, ..self.persons[person as int] },
            ),
            ..self
        }
    }

    /// The store with all posts and comments of `person` removed.
    pub open spec fn with_content_removed(self, person: usize) -> StoreView {
        StoreView {
            posts: posts_removed(self.posts, person),
            comments: comments_removed(self.comments, person),
            ..self
        }
    }

    /// The store with the posts and comments of `person` in `community`
    /// removed.
    pub open spec fn with_content_removed_in(self, community: usize, person: usize) -> StoreView {
        StoreView {
            posts: posts_removed_in(self.posts, community, person),
            comments: comments_removed_in(self.comments, self.posts, community, person),
            ..self
        }
    }

    /// The store with `person` barred from `community` until `expires`.
    pub open spec fn with_community_ban(
        self,
        community: usize,
        person: usize,
        expires: Option<i64>,
    ) -> StoreView {
        StoreView {
            community_bans: bans_with(self.community_bans, community, person, expires),
            ..self
        }
    }

    /// The store in which `person` no longer follows `community`.
    pub open spec fn without_follower(self, community: usize, person: usize) -> StoreView {
        StoreView {
            community_followers: without_pair(
                self.community_followers,
                community,
                person,
                self.community_followers.len() as int,
            ),
            ..self
        }
    }

    /// The store with `entry` at the end of the moderation log.
    pub open spec fn with_log(self, entry: ModLogEntry) -> StoreView {
        StoreView { mod_log: self.mod_log.push(entry), ..self }
    }

    /// The store after the content that a ban asks to remove is removed.
    pub open spec fn after_removal(
        self,
        target: SiteOrCommunity,
        person: usize,
        remove_data: Option<bool>,
    ) -> StoreView {
        if remove_data == Some(true) {
            match target {
                SiteOrCommunity::Site(_) => self.with_content_removed(person),
                SiteOrCommunity::Community(c) => self.with_content_removed_in(c, person),
            }
        } else {
            self
        }
    }

    /// The store after the ban of `person` from `target` by `moderator`.
    ///
    /// An instance-wide ban sets the person's banned flag and expiry. A ban
    /// from a community records the ban and ends the person's following of
    /// the community. Either removes the person's content in its scope if
    /// asked to, and adds one entry to the moderation log.
    pub open spec fn with_block(
        self,
        target: SiteOrCommunity,
        person: usize,
        moderator: usize,
        activity: BlockUser,
    ) -> StoreView {
        match target {
            SiteOrCommunity::Site(_) => self.with_site_ban(person, activity.expires).after_removal(
                target,
                person,
                activity.remove_data,
            ).with_log(
                ModLogEntry {
                    action: ModAction::Ban,
                    moderator,
                    target: LogTarget::Person(person),
                    scope: Scope::Instance,
                    reason: activity.summary,
                    expires: activity.expires,
                    published: self.now,
                },
            ),
            SiteOrCommunity::Community(c) => self.with_community_ban(
                c,
                person,
                activity.expires,
            ).without_follower(c, person).after_removal(
                target,
                person,
                activity.remove_data,
            ).with_log(
                ModLogEntry {
                    action: ModAction::Ban,
                    moderator,
                    target: LogTarget::Person(person),
                    scope: Scope::Community(c),
                    reason: activity.summary,
                    expires: activity.expires,
                    published: self.now,
                },
            ),
        }
    }

    /// What applying a ban gives: the new store, or why the ban cannot be
    /// applied. A ban is applied once: the same activity applied again
    /// changes nothing.
    pub open spec fn block_effect(self, activity: BlockUser) -> Result<StoreView, FederationError> {
        self.applied_once(activity.id, self.fresh_block_effect(activity))
    }

    /// What a ban gives on a store that has not applied it. The moderator,
    /// the banned person and the target have to be known, in this order.
    pub open spec fn fresh_block_effect(self, activity: BlockUser) -> Result<
        StoreView,
        FederationError,
    > {
        match self.person_at(activity.actor@) {
            None => Err(FederationError::ActorUnresolvable),
            Some(m) => match self.person_at(activity.object@) {
                None => Err(FederationError::NotFound),
                Some(p) => match self.target_at(activity.target@) {
                    None => Err(FederationError::NotFound),
                    Some(t) => Ok(self.with_block(t, p, m, activity)),
                },
            },
        }
    }
}

/// Rows for the pair are in `bans_with`, whatever was there before.
pub proof fn lemma_bans_with_has_ban(
    bans: Seq<CommunityBan>,
    community: usize,
    person: usize,
    expires: Option<i64>,
)
    ensures
        has_ban(bans_with(bans, community, person, expires), community, person),
{
    let after = bans_with(bans, community, person, expires);
    if has_ban(bans, community, person) {
        let i = choose|i: int|
            0 <= i < bans.len() && (#[trigger] bans[i]).community == community && bans[i].person
                == person;
        assert(after[i].community == community && after[i].person == person);
    } else {
        assert(after[after.len() - 1].community == community);
    }
}

/// After a ban from a community the banned person is barred from it and no
/// longer follows it.
pub proof fn lemma_community_ban_ends_following(
    store: StoreView,
    community: usize,
    person: usize,
    moderator: usize,
    activity: BlockUser,
)
    ensures
        has_ban(
            store.with_block(
                SiteOrCommunity::Community(community),
                person,
                moderator,
                activity,
            ).community_bans,
            community,
            person,
        ),
        !has_member(
            store.with_block(
                SiteOrCommunity::Community(community),
                person,
                moderator,
                activity,
            ).community_followers,
            community,
            person,
        ),
        store.with_block(
            SiteOrCommunity::Community(community),
            person,
            moderator,
            activity,
        ).mod_log.len() == store.mod_log.len() + 1,
{
    lemma_bans_with_has_ban(store.community_bans, community, person, activity.expires);
    lemma_without_pair_has_none(
        store.community_followers,
        community,
        person,
        store.community_followers.len() as int,
    );
}

/// Applying the same ban twice is applying it once: the second application
/// succeeds and leaves the store as the first left it, so the ban is logged
/// once and there is no second ban row.
pub proof fn lemma_ban_twice_logs_once(store: StoreView, activity: BlockUser)
    requires
        store.block_effect(activity) is Ok,
    ensures
        ({
            let once = store.block_effect(activity)->Ok_0;
            &&& once.block_effect(activity) == Ok::<StoreView, FederationError>(once)
            &&& once.was_applied(activity.id)
            &&& once.mod_log.len() <= store.mod_log.len() + 1
        }),
{
    lemma_applied_once_again(
        store,
        activity.id,
        store.fresh_block_effect(activity),
        store.block_effect(activity)->Ok_0.fresh_block_effect(activity),
    );
}

/// Marks every post of `person` as removed.
pub fn remove_posts(posts: &mut Vec<Post>, person: usize)
    ensures
        final(posts)@ == posts_removed(old(posts)@, person),
{
    let ghost before = posts@;
    let mut i: usize = 0;
    while i < posts.len()
        invariant
            i <= posts.len(),
            posts@.len() == before.len(),
            forall|j: int| 0 <= j < i ==> #[trigger] posts@[j] == posts_removed(before, person)[j],
            forall|j: int| i <= j < posts@.len() ==> #[trigger] posts@[j] == before[j],
        decreases posts.len() - i,
    {
        if posts[i].creator == person {
            posts[i].removed = true;
        }
        i += 1;
    }
    assert(posts@ =~= posts_removed(before, person));
}

/// Marks every comment of `person` as removed.
pub fn remove_comments(comments: &mut Vec<Comment>, person: usize)
    ensures
        final(comments)@ == comments_removed(old(comments)@, person),
{
    let ghost before = comments@;
    let mut i: usize = 0;
    while i < comments.len()
        invariant
            i <= comments.len(),
            comments@.len() == before.len(),
            forall|j: int|
                0 <= j < i ==> #[trigger] comments@[j] == comments_removed(before, person)[j],
            forall|j: int| i <= j < comments@.len() ==> #[trigger] comments@[j] == before[j],
        decreases comments.len() - i,
    {
        if comments[i].creator == person {
            comments[i].removed = true;
        }
        i += 1;
    }
    assert(comments@ =~= comments_removed(before, person));
}

/// Marks every post of `person` in `community` as removed.
pub fn remove_posts_in(posts: &mut Vec<Post>, community: usize, person: usize)
    ensures
        final(posts)@ == posts_removed_in(old(posts)@, community, person),
{
    let ghost before = posts@;
    let mut i: usize = 0;
    while i < posts.len()
        invariant
            i <= posts.len(),
            posts@.len() == before.len(),
            forall|j: int|
                0 <= j < i ==> #[trigger] posts@[j] == posts_removed_in(
                    before,
                    community,
                    person,
                )[j],
            forall|j: int| i <= j < posts@.len() ==> #[trigger] posts@[j] == before[j],
        decreases posts.len() - i,
    {
        if posts[i].creator == person && posts[i].community == community {
            posts[i].removed = true;
        }
        i += 1;
    }
    assert(posts@ =~= posts_removed_in(before, community, person));
}

/// Marks every comment of `person` under a post of `community` as removed.
pub fn remove_comments_in(
    comments: &mut Vec<Comment>,
    posts: &Vec<Post>,
    community: usize,
    person: usize,
)
    ensures
        final(comments)@ == comments_removed_in(old(comments)@, posts@, community, person),
{
    let ghost before = comments@;
    let mut i: usize = 0;
    while i < comments.len()
        invariant
            i <= comments.len(),
            comments@.len() == before.len(),
            forall|j: int|
                0 <= j < i ==> #[trigger] comments@[j] == comments_removed_in(
                    before,
                    posts@,
                    community,
                    person,
                )[j],
            forall|j: int| i <= j < comments@.len() ==> #[trigger] comments@[j] == before[j],
        decreases comments.len() - i,
    {
        let post = comments[i].post;
        if comments[i].creator == person && post < posts.len() && posts[post].community
            == community {
            comments[i].removed = true;
        }
        i += 1;
    }
    assert(comments@ =~= comments_removed_in(before, posts@, community, person));
}

/// Records that `person` is barred from `community` until `expires`.
pub fn ban_from_community(
    bans: &mut Vec<CommunityBan>,
    community: usize,
    person: usize,
    expires: Option<i64>,
)
    ensures
        final(bans)@ == bans_with(old(bans)@, community, person, expires),
        has_ban(final(bans)@, community, person),
{
    let ghost before = bans@;
    let mut found = false;
    let mut i: usize = 0;
    while i < bans.len()
        invariant
            i <= bans.len(),
            bans@.len() == before.len(),
            found <==> exists|j: int|
                0 <= j < i && (#[trigger] before[j]).community == community && before[j].person
                    == person,
            forall|j: int|
                0 <= j < i ==> #[trigger] bans@[j] == if before[j].community == community
                    && before[j].person == person {
                    CommunityBan { community, person, expires }
                } else {
                    before[j]
                },
            forall|j: int| i <= j < bans@.len() ==> #[trigger] bans@[j] == before[j],
        decreases bans.len() - i,
    {
        if bans[i].community == community && bans[i].person == person {
            bans[i].expires = expires;
            found = true;
        }
        i += 1;
    }
    if !found {
        bans.push(CommunityBan { community, person, expires });
        assert(bans@[bans@.len() - 1].community == community);
    } else {
        let ghost j = choose|j: int|
            0 <= j < before.len() && (#[trigger] before[j]).community == community
                && before[j].person == person;
        assert(bans@[j].community == community && bans@[j].person == person);
    }
    assert(bans@ =~= bans_with(before, community, person, expires));
}

impl BlockUser {
    /// Applies a verified ban to the store, once: where the store has
    /// applied the activity before, nothing is changed and nothing is
    /// logged, and that is no error.
    ///
    /// On failure the store stays as it was.
    pub fn receive(self, store: &mut Store) -> (r: Result<(), FederationError>)
        ensures
            match old(store)@.block_effect(self) {
                Ok(after) => r is Ok && final(store)@ == after,
                Err(e) => r == Err::<(), FederationError>(e) && final(store)@ == old(store)@,
            },
    {
        if contains_url(&store.applied, &self.id) {
            return Ok(());
        }
        let moderator = match store.find_person(&self.actor) {
            Some(m) => m,
            None => {
                return Err(FederationError::ActorUnresolvable);
            },
        };
        let person = match store.find_person(&self.object) {
            Some(p) => p,
            None => {
                return Err(FederationError::NotFound);
            },
        };
        let target = match SiteOrCommunity::read_from_apub_id(&self.target, store) {
            Some(t) => t,
            None => {
                return Err(FederationError::NotFound);
            },
        };
        let remove = match self.remove_data {
            Some(b) => b,
            None => false,
        };
        match target {
            SiteOrCommunity::Site(_) => {
                store.persons[person].banned = true;
                store.persons[person].ban_expires = self.expires;
                assert(store@.persons =~= old(store)@.with_site_ban(person, self.expires).persons);
                if remove {
                    remove_posts(&mut store.posts, person);
                    remove_comments(&mut store.comments, person);
                }
                store.mod_log.push(
                    ModLogEntry {
                        action: ModAction::Ban,
                        moderator,
                        target: LogTarget::Person(person),
                        scope: Scope::Instance,
                        reason: self.summary,
                        expires: self.expires,
                        published: store.now,
                    },
                );
            },
            SiteOrCommunity::Community(c) => {
                ban_from_community(&mut store.community_bans, c, person, self.expires);
                remove_pair(&mut store.community_followers, c, person);
                if remove {
                    remove_comments_in(&mut store.comments, &store.posts, c, person);
                    remove_posts_in(&mut store.posts, c, person);
                }
                store.mod_log.push(
                    ModLogEntry {
                        action: ModAction::Ban,
                        moderator,
                        target: LogTarget::Person(person),
                        scope: Scope::Community(c),
                        reason: self.summary,
                        expires: self.expires,
                        published: store.now,
                    },
                );
            },
        }
        store.applied.push(self.id);
        Ok(())
    }
}

} // verus!
