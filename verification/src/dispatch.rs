//! Fan-out of an activity to the inboxes that must receive it.

use crate::builder::{generate_activity_id, has_activity_id, is_activity_id};
use crate::checks::public_text;
use crate::error::FederationError;
use crate::model::{Community, Membership, Person, PersonFollow};
use crate::protocol::{ActivityKind, AnnouncableActivities};
use crate::store::{Store, StoreView};
use crate::urls::ObjectUrl;
use vstd::prelude::*;

verus! {

/// How an activity travels to an inbox.
#[derive(Clone, Copy, Debug, PartialEq, Eq, Structural)]
pub enum Envelope {
    /// The activity itself, sent by its actor.
    Direct,
    /// The activity wrapped in an announcement, sent by the community.
    Announce,
}

/// One delivery of an activity to one inbox.
pub struct Delivery {
    pub inbox: ObjectUrl,
    pub envelope: Envelope,
}

/// An activity on its way out: what is sent, and where to.
pub struct Outbound {
    pub activity: AnnouncableActivities,
    pub deliveries: Vec<Delivery>,
    /// The community in whose name the deliveries by announcement go out;
    /// `None` where there are none.
    pub announcer: Option<usize>,
}

/// The inboxes of the persons that the first `n` follower rows name as
/// followers of `community`, in row order.
pub open spec fn community_follower_inboxes(
    follows: Seq<Membership>,
    persons: Seq<Person>,
    community: usize,
    n: int,
) -> Seq<ObjectUrl>
    decreases n,
{
    if n <= 0 {
        Seq::empty()
    } else {
        let before = community_follower_inboxes(follows, persons, community, n - 1);
        let row = follows[n - 1];
        if row.community == community && row.person < persons.len() {
            before.push(persons[row.person as int].inbox())
        } else {
            before
        }
    }
}

/// The inboxes of the persons that the first `n` rows name as followers of
/// `person`, in row order.
pub open spec fn person_follower_inboxes(
    follows: Seq<PersonFollow>,
    persons: Seq<Person>,
    person: usize,
    n: int,
) -> Seq<ObjectUrl>
    decreases n,
{
    if n <= 0 {
        Seq::empty()
    } else {
        let before = person_follower_inboxes(follows, persons, person, n - 1);
        let row = follows[n - 1];
        if row.person == person && row.follower < persons.len() {
            before.push(persons[row.follower as int].inbox())
        } else {
            before
        }
    }
}

/// One delivery per inbox, all in the same envelope.
pub open spec fn deliveries_to(inboxes: Seq<ObjectUrl>, envelope: Envelope) -> Seq<Delivery> {
    Seq::new(inboxes.len(), |i: int| (Delivery { inbox: inboxes[i], envelope }))
}

impl StoreView {
    /// The inboxes of all followers of `community`.
    pub open spec fn followers_of_community(self, community: usize) -> Seq<ObjectUrl> {
        community_follower_inboxes(
            self.community_followers,
            self.persons,
            community,
            self.community_followers.len() as int,
        )
    }

    /// The inboxes of all followers of `person`.
    pub open spec fn followers_of_person(self, person: usize) -> Seq<ObjectUrl> {
        person_follower_inboxes(
            self.person_followers,
            self.persons,
            person,
            self.person_followers.len() as int,
        )
    }

    /// The community that announces what happens in `community`: the
    /// community itself where it lives here, none where it lives elsewhere.
    pub open spec fn announcer(self, community: usize) -> Option<usize> {
        if community < self.communities.len() && self.communities[community as int].local {
            Some(community)
        } else {
            None
        }
    }

    /// The deliveries that an activity of `actor` in `community` needs:
    /// the extra inboxes first; then, for a local community, every follower
    /// of the community by announcement, and for a remote one the community's
    /// own inbox; last, unless a moderator acts, every follower of the actor.
    pub open spec fn fan_out(
        self,
        actor: usize,
        community: usize,
        extra_inboxes: Seq<ObjectUrl>,
        is_mod_action: bool,
    ) -> Seq<Delivery> {
        let first = deliveries_to(extra_inboxes, Envelope::Direct);
        let second = if self.communities[community as int].local {
            deliveries_to(self.followers_of_community(community), Envelope::Announce)
        } else {
            seq![
                (Delivery {
                    inbox: self.communities[community as int].inbox(),
                    envelope: Envelope::Direct,
                }),
            ]
        };
        let third = if is_mod_action {
            Seq::empty()
        } else {
            deliveries_to(self.followers_of_person(actor), Envelope::Direct)
        };
        first + second + third
    }
}

impl Store {
    /// The community that announces what happens in `community`: the
    /// community itself where it lives here, none where it lives elsewhere.
    pub fn announcer_of(&self, community: usize) -> (r: Option<usize>)
        ensures
            r == self@.announcer(community),
    {
        if community < self.communities.len() && self.communities[community].local {
            Some(community)
        } else {
            None
        }
    }

    /// Collects the inboxes of the followers of `community`.
    pub fn community_follower_inbox_list(&self, community: usize) -> (r: Vec<ObjectUrl>)
        ensures
            r@ == self@.followers_of_community(community),
    {
        let mut out: Vec<ObjectUrl> = Vec::new();
        let mut i: usize = 0;
        while i < self.community_followers.len()
            invariant
                i <= self.community_followers.len(),
                out@ == community_follower_inboxes(
                    self.community_followers@,
                    self.persons@,
                    community,
                    i as int,
                ),
            decreases self.community_followers.len() - i,
        {
            let row = self.community_followers[i];
            if row.community == community && row.person < self.persons.len() {
                out.push(self.persons[row.person].shared_inbox_or_inbox());
            }
            i += 1;
        }
        out
    }

    /// Collects the inboxes of the followers of `person`.
    pub fn person_follower_inbox_list(&self, person: usize) -> (r: Vec<ObjectUrl>)
        ensures
            r@ == self@.followers_of_person(person),
    {
        let mut out: Vec<ObjectUrl> = Vec::new();
        let mut i: usize = 0;
        while i < self.person_followers.len()
            invariant
                i <= self.person_followers.len(),
                out@ == person_follower_inboxes(
                    self.person_followers@,
                    self.persons@,
                    person,
                    i as int,
                ),
            decreases self.person_followers.len() - i,
        {
            let row = self.person_followers[i];
            if row.person == person && row.follower < self.persons.len() {
                out.push(self.persons[row.follower].shared_inbox_or_inbox());
            }
            i += 1;
        }
        out
    }
}

/// An activity in a community that lives here is delivered once to every
/// extra inbox and once to every follower of the community; unless a
/// moderator acts, also once to every follower of the actor. Nothing else is
/// delivered.
pub proof fn lemma_fan_out_count_local(
    store: StoreView,
    actor: usize,
    community: usize,
    extra_inboxes: Seq<ObjectUrl>,
    is_mod_action: bool,
)
    requires
        community < store.communities.len(),
        store.communities[community as int].local,
    ensures
        store.fan_out(actor, community, extra_inboxes, is_mod_action).len() == extra_inboxes.len()
            + store.followers_of_community(community).len() + (if is_mod_action {
            0
        } else {
            store.followers_of_person(actor).len()
        }),
{
}

/// An activity in a community that lives elsewhere is delivered once to
/// every extra inbox and once to the community; unless a moderator acts,
/// also once to every follower of the actor.
pub proof fn lemma_fan_out_count_remote(
    store: StoreView,
    actor: usize,
    community: usize,
    extra_inboxes: Seq<ObjectUrl>,
    is_mod_action: bool,
)
    requires
        community < store.communities.len(),
        !store.communities[community as int].local,
    ensures
        store.fan_out(actor, community, extra_inboxes, is_mod_action).len() == extra_inboxes.len()
            + 1 + (if is_mod_action {
            0
        } else {
            store.followers_of_person(actor).len()
        }),
{
}

/// What became of the deliveries of one activity.
#[derive(Debug, PartialEq, Eq)]
pub enum DispatchReport {
    /// Every inbox was reached.
    Delivered,
    /// The deliveries at these positions failed; the others went through.
    PartialFailure(Vec<usize>),
}

/// The positions among the first `n` outcomes that report a failure.
pub open spec fn failed_positions(outcomes: Seq<bool>, n: int) -> Seq<usize>
    decreases n,
{
    if n <= 0 {
        Seq::empty()
    } else if outcomes[n - 1] {
        failed_positions(outcomes, n - 1)
    } else {
        failed_positions(outcomes, n - 1).push((n - 1) as usize)
    }
}

/// Sums up the outcomes of the deliveries of one activity, one outcome per
/// delivery and `true` for a delivery that went through. A failure neither
/// stops nor undoes the other deliveries; it is only reported.
pub fn collect_outcomes(outcomes: &Vec<bool>) -> (r: DispatchReport)
    ensures
        r is Delivered <==> failed_positions(outcomes@, outcomes@.len() as int).len() == 0,
        r matches DispatchReport::PartialFailure(failed) ==> failed@ == failed_positions(
            outcomes@,
            outcomes@.len() as int,
        ),
{
    let mut failed: Vec<usize> = Vec::new();
    let mut i: usize = 0;
    while i < outcomes.len()
        invariant
            i <= outcomes.len(),
            failed@ == failed_positions(outcomes@, i as int),
        decreases outcomes.len() - i,
    {
        if !outcomes[i] {
            failed.push(i);
        }
        i += 1;
    }
    if failed.len() == 0 {
        DispatchReport::Delivered
    } else {
        DispatchReport::PartialFailure(failed)
    }
}

/// Appends to `out` one delivery per inbox of `inboxes`.
pub fn push_deliveries(out: &mut Vec<Delivery>, inboxes: Vec<ObjectUrl>, envelope: Envelope)
    ensures
        final(out)@ == old(out)@ + deliveries_to(inboxes@, envelope),
{
    let ghost start = out@;
    let ghost all = inboxes@;
    let mut rest = inboxes;
    let mut i: usize = 0;
    let n = rest.len();
    while i < n
        invariant
            i <= n,
            n == all.len(),
            rest@.len() == n,
            forall|j: int| i <= j < n ==> rest@[j] == all[j],
            out@ == start + deliveries_to(all.subrange(0, i as int), envelope),
        decreases n - i,
    {
        let inbox = rest[i].clone();
        out.push(Delivery { inbox, envelope });
        assert(all.subrange(0, i + 1) == all.subrange(0, i as int).push(all[i as int]));
        assert(deliveries_to(all.subrange(0, i + 1), envelope) == deliveries_to(
            all.subrange(0, i as int),
            envelope,
        ).push(Delivery { inbox: all[i as int], envelope }));
        i += 1;
    }
    assert(all.subrange(0, n as int) == all);
}

/// Works out where an activity of `actor` in `community` has to go.
///
/// Fails with `NotFound` exactly when the store holds no such community.
pub fn send_activity_in_community(
    store: &Store,
    actor: usize,
    community: usize,
    extra_inboxes: Vec<ObjectUrl>,
    is_mod_action: bool,
) -> (r: Result<Vec<Delivery>, FederationError>)
    ensures
        community >= store.communities@.len() ==> r == Err::<Vec<Delivery>, FederationError>(
            FederationError::NotFound,
        ),
        community < store.communities@.len() ==> r is Ok && r->Ok_0@ == store@.fan_out(
            actor,
            community,
            extra_inboxes@,
            is_mod_action,
        ),
{
    if community >= store.communities.len() {
        return Err(FederationError::NotFound);
    }
    let mut out: Vec<Delivery> = Vec::new();
    push_deliveries(&mut out, extra_inboxes, Envelope::Direct);
    if store.communities[community].local {
        let followers = store.community_follower_inbox_list(community);
        push_deliveries(&mut out, followers, Envelope::Announce);
    } else {
        let inbox = store.communities[community].shared_inbox_or_inbox();
        out.push(Delivery { inbox, envelope: Envelope::Direct });
    }
    if !is_mod_action {
        let followers = store.person_follower_inbox_list(actor);
        push_deliveries(&mut out, followers, Envelope::Direct);
    }
    assert(out@ =~= store@.fan_out(actor, community, extra_inboxes@, is_mod_action));
    Ok(out)
}

/// The envelope in which a community hands an activity on to its
/// followers. The activity that is handed on travels inside it.
pub struct AnnounceActivity {
    pub actor: ObjectUrl,
    pub to: Vec<ObjectUrl>,
    pub cc: Vec<ObjectUrl>,
    pub id: ObjectUrl,
}

/// Whether `a` is the envelope of `community`: sent in the community's
/// name, to the public and to the community's followers.
pub open spec fn is_announce_of(
    a: AnnounceActivity,
    community: Community,
    origin: Seq<char>,
    token: Seq<char>,
) -> bool {
    &&& a.actor == community.actor_id
    &&& a.to@.len() == 1 && a.to@[0]@ == public_text()
    &&& a.cc@ == seq![community.followers_url]
    &&& is_activity_id(a.id, origin, ActivityKind::Announce, token)
}

impl AnnounceActivity {
    /// Builds the envelope of `community`. Fails with `InvalidUrl` exactly
    /// where no identifier can be built.
    pub fn new(community: &Community, origin: &str, token: &str) -> (r: Result<
        AnnounceActivity,
        FederationError,
    >)
        ensures
            r is Ok <==> has_activity_id(origin@, ActivityKind::Announce, token@),
            r matches Ok(a) ==> is_announce_of(a, *community, origin@, token@),
            r matches Err(e) ==> e == FederationError::InvalidUrl,
    {
        let id = match generate_activity_id(ActivityKind::Announce, origin, token) {
            Ok(id) => id,
            Err(e) => {
                return Err(e);
            },
        };
        let mut to: Vec<ObjectUrl> = Vec::new();
        to.push(ObjectUrl::public());
        let mut cc: Vec<ObjectUrl> = Vec::new();
        cc.push(community.followers_url.clone());
        assert(cc@ =~= seq![community.followers_url]);
        Ok(AnnounceActivity { actor: community.actor_id.clone(), to, cc, id })
    }
}

/// Builds the envelope for the deliveries by announcement of an activity in
/// `community`. There are such deliveries, and an envelope, exactly where
/// the community lives here.
pub fn announce_in_community(store: &Store, community: usize, token: &str) -> (r: Result<
    Option<AnnounceActivity>,
    FederationError,
>)
    ensures
        r is Ok <==> community < store@.communities.len() && (
        store@.communities[community as int].local ==> has_activity_id(
            store@.protocol_and_hostname,
            ActivityKind::Announce,
            token@,
        )),
        r matches Ok(found) ==> found is Some == store@.communities[community as int].local,
        r matches Ok(Some(a)) ==> is_announce_of(
            a,
            store@.communities[community as int],
            store@.protocol_and_hostname,
            token@,
        ),
        r matches Err(e) ==> e == if community < store@.communities.len() {
            FederationError::InvalidUrl
        } else {
            FederationError::NotFound
        },
{
    if community >= store.communities.len() {
        return Err(FederationError::NotFound);
    }
    if !store.communities[community].local {
        return Ok(None);
    }
    match AnnounceActivity::new(
        &store.communities[community],
        store.protocol_and_hostname.as_str(),
        token,
    ) {
        Ok(a) => Ok(Some(a)),
        Err(e) => Err(e),
    }
}

} // verus!
