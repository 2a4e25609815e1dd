//! The predicates that an inbound activity has to pass before it is applied.

use crate::error::FederationError;
use crate::model::{CommunityBan, Membership};
use crate::store::{Store, StoreView};
use crate::urls::{contains_url, domains_equal, holds_url, same_domain, ObjectUrl};
use vstd::prelude::*;

verus! {

/// The serialization of the marker that addresses an activity to everyone.
pub open spec fn public_text() -> Seq<char> {
    "https://www.w3.org/ns/activitystreams#Public"@
}

/// Whether one of the two audience lists names the public audience.
pub open spec fn is_public(to: Seq<ObjectUrl>, cc: Seq<ObjectUrl>) -> bool {
    holds_url(to, public_text()) || holds_url(cc, public_text())
}

/// Accepts an activity only if it is addressed to the public.
pub fn verify_is_public(to: &Vec<ObjectUrl>, cc: &Vec<ObjectUrl>) -> (r: Result<
    (),
    FederationError,
>)
    ensures
        r == if is_public(to@, cc@) {
            Ok::<(), FederationError>(())
        } else {
            Err(FederationError::AudienceMissing)
        },
{
    let marker = ObjectUrl::public();
    if contains_url(to, &marker) || contains_url(cc, &marker) {
        Ok(())
    } else {
        Err(FederationError::AudienceMissing)
    }
}

/// Accepts two identifiers only if they have the same domain.
pub fn verify_domains_match(a: &ObjectUrl, b: &ObjectUrl) -> (r: Result<(), FederationError>)
    ensures
        r == if same_domain(a.domain_view(), b.domain_view()) {
            Ok::<(), FederationError>(())
        } else {
            Err(FederationError::DomainMismatch)
        },
{
    if domains_equal(a, b) {
        Ok(())
    } else {
        Err(FederationError::DomainMismatch)
    }
}

/// Whether `rows` pairs `community` with `person`.
pub open spec fn has_member(rows: Seq<Membership>, community: usize, person: usize) -> bool {
    exists|i: int|
        0 <= i < rows.len() && (#[trigger] rows[i]).community == community && rows[i].person
            == person
}

/// Whether `rows` bars `person` from `community`.
pub open spec fn has_ban(rows: Seq<CommunityBan>, community: usize, person: usize) -> bool {
    exists|i: int|
        0 <= i < rows.len() && (#[trigger] rows[i]).community == community && rows[i].person
            == person
}

/// Whether a ban that lasts until `expires` is in force at the time `now`.
/// A ban without an expiry is in force for good.
pub open spec fn in_force(expires: Option<i64>, now: i64) -> bool {
    match expires {
        Some(until) => until > now,
        None => true,
    }
}

/// Whether `rows` bars `person` from `community` at the time `now`.
pub open spec fn has_active_ban(
    rows: Seq<CommunityBan>,
    community: usize,
    person: usize,
    now: i64,
) -> bool {
    exists|i: int|
        0 <= i < rows.len() && (#[trigger] rows[i]).community == community && rows[i].person
            == person && in_force(rows[i].expires, now)
}

/// Searches `rows` for the pair of `community` and `person`.
pub fn is_member(rows: &Vec<Membership>, community: usize, person: usize) -> (r: bool)
    ensures
        r == has_member(rows@, community, person),
{
    let mut i: usize = 0;
    while i < rows.len()
        invariant
            i <= rows.len(),
            forall|j: int|
                0 <= j < i ==> !((#[trigger] rows@[j]).community == community && rows@[j].person
                    == person),
        decreases rows.len() - i,
    {
        if rows[i].community == community && rows[i].person == person {
            return true;
        }
        i += 1;
    }
    false
}

/// Searches `rows` for a ban of `person` from `community` that is in force
/// at the time `now`.
pub fn is_banned(rows: &Vec<CommunityBan>, community: usize, person: usize, now: i64) -> (r: bool)
    ensures
        r == has_active_ban(rows@, community, person, now),
{
    let mut i: usize = 0;
    while i < rows.len()
        invariant
            i <= rows.len(),
            forall|j: int|
                0 <= j < i ==> !((#[trigger] rows@[j]).community == community && rows@[j].person
                    == person && in_force(rows@[j].expires, now)),
        decreases rows.len() - i,
    {
        if rows[i].community == community && rows[i].person == person {
            let lasting = match rows[i].expires {
                Some(until) => until > now,
                None => true,
            };
            if lasting {
                return true;
            }
        }
        i += 1;
    }
    false
}

impl StoreView {
    /// What membership verification answers for the person at `person`, if
    /// any, in `community`.
    pub open spec fn membership_verdict(self, person: Option<usize>, community: usize) -> Result<
        usize,
        FederationError,
    > {
        match person {
            None => Err(FederationError::ActorUnresolvable),
            Some(p) => if self.persons[p as int].banned || has_active_ban(
                self.community_bans,
                community,
                p,
                self.now,
            ) {
                Err(FederationError::NotAMember)
            } else {
                Ok(p)
            },
        }
    }

    /// What moderator verification answers for the person at `person`, if
    /// any, in `community`.
    pub open spec fn moderator_verdict(self, person: Option<usize>, community: usize) -> Result<
        usize,
        FederationError,
    > {
        match person {
            None => Err(FederationError::ActorUnresolvable),
            Some(p) => if has_member(self.moderators, community, p) {
                Ok(p)
            } else {
                Err(FederationError::NotAModerator)
            },
        }
    }
}

impl StoreView {
    /// What verification answers for an acting person outside any community.
    pub open spec fn person_verdict(self, person: Option<usize>) -> Result<usize, FederationError> {
        match person {
            None => Err(FederationError::ActorUnresolvable),
            Some(p) => if self.persons[p as int].banned {
                Err(FederationError::NotAMember)
            } else {
                Ok(p)
            },
        }
    }
}

/// Accepts an acting person only if the person is known and not banned from
/// the instance. Hands back the person's row.
pub fn verify_person(store: &Store, person: &ObjectUrl) -> (r: Result<usize, FederationError>)
    ensures
        r == store@.person_verdict(store@.person_at(person@)),
{
    let at = store.find_person(person);
    match at {
        None => Err(FederationError::ActorUnresolvable),
        Some(p) => {
            if store.persons[p].banned {
                Err(FederationError::NotAMember)
            } else {
                Ok(p)
            }
        },
    }
}

/// Accepts a person acting in `community` only if the person is known, not
/// banned from the instance and not under a ban from the community that is
/// in force. Hands back
/// the person's row.
pub fn verify_person_in_community(store: &Store, person: &ObjectUrl, community: usize) -> (r:
    Result<usize, FederationError>)
    ensures
        r == store@.membership_verdict(store@.person_at(person@), community),
{
    let at = store.find_person(person);
    match at {
        None => Err(FederationError::ActorUnresolvable),
        Some(p) => {
            if store.persons[p].banned || is_banned(
                &store.community_bans,
                community,
                p,
                store.now,
            ) {
                Err(FederationError::NotAMember)
            } else {
                Ok(p)
            }
        },
    }
}

/// Accepts a moderation action in `community` only if the acting person is
/// known and is one of the community's moderators. Hands back the person's
/// row.
pub fn verify_mod_action(store: &Store, moderator: &ObjectUrl, community: usize) -> (r: Result<
    usize,
    FederationError,
>)
    ensures
        r == store@.moderator_verdict(store@.person_at(moderator@), community),
{
    let at = store.find_person(moderator);
    match at {
        None => Err(FederationError::ActorUnresolvable),
        Some(p) => {
            if is_member(&store.moderators, community, p) {
                Ok(p)
            } else {
                Err(FederationError::NotAModerator)
            }
        },
    }
}

impl StoreView {
    /// What verification answers for a moderator's action of `actor` in
    /// `community`: the actor has to be a member, then a moderator.
    pub open spec fn mod_action_verdict(self, actor: ObjectUrl, community: usize) -> Result<
        (),
        FederationError,
    > {
        match self.membership_verdict(self.person_at(actor@), community) {
            Err(e) => Err(e),
            Ok(_) => match self.moderator_verdict(self.person_at(actor@), community) {
                Err(e) => Err(e),
                Ok(_) => Ok(()),
            },
        }
    }
}

/// Verifies a moderator's action of `actor` in `community`.
pub fn verify_mod_action_in_community(store: &Store, actor: &ObjectUrl, community: usize) -> (r:
    Result<(), FederationError>)
    ensures
        r == store@.mod_action_verdict(*actor, community),
{
    match verify_person_in_community(store, actor, community) {
        Err(e) => {
            return Err(e);
        },
        Ok(_) => {},
    }
    match verify_mod_action(store, actor, community) {
        Err(e) => Err(e),
        Ok(_) => Ok(()),
    }
}

/// Authorization in a community succeeds exactly for the community's
/// moderators.
pub proof fn lemma_authorized_iff_moderator(
    store: StoreView,
    actor: Option<usize>,
    community: usize,
)
    ensures
        store.moderator_verdict(actor, community) is Ok <==> (actor is Some && has_member(
            store.moderators,
            community,
            actor->0,
        )),
{
}

/// A moderator's action of a member of the community passes verification
/// exactly if the member moderates the community.
pub proof fn lemma_mod_action_iff_moderator(store: StoreView, actor: ObjectUrl, community: usize)
    requires
        store.membership_verdict(store.person_at(actor@), community) is Ok,
    ensures
        store.mod_action_verdict(actor, community) is Ok <==> has_member(
            store.moderators,
            community,
            store.person_at(actor@)->0,
        ),
{
}

/// The first `n` rows of `rows` without those that pair `community` with
/// `person`.
pub open spec fn without_pair(
    rows: Seq<Membership>,
    community: usize,
    person: usize,
    n: int,
) -> Seq<
    Membership,
>
    decreases n,
{
    if n <= 0 {
        Seq::empty()
    } else if rows[n - 1].community == community && rows[n - 1].person == person {
        without_pair(rows, community, person, n - 1)
    } else {
        without_pair(rows, community, person, n - 1).push(rows[n - 1])
    }
}

/// No row that pairs `community` with `person` is left by `without_pair`.
pub proof fn lemma_without_pair_has_none(
    rows: Seq<Membership>,
    community: usize,
    person: usize,
    n: int,
)
    requires
        0 <= n <= rows.len(),
    ensures
        !has_member(without_pair(rows, community, person, n), community, person),
        without_pair(rows, community, person, n).len() <= n,
    decreases n,
{
    if n > 0 {
        lemma_without_pair_has_none(rows, community, person, n - 1);
        let before = without_pair(rows, community, person, n - 1);
        let after = without_pair(rows, community, person, n);
        if !(rows[n - 1].community == community && rows[n - 1].person == person) {
            assert forall|i: int| 0 <= i < after.len() implies !((#[trigger] after[i]).community
                == community && after[i].person == person) by {
                if i < before.len() {
                    assert(after[i] == before[i]);
                }
            }
        }
    }
}

/// Takes every row that pairs `community` with `person` out of `rows`.
pub fn remove_pair(rows: &mut Vec<Membership>, community: usize, person: usize)
    ensures
        final(rows)@ == without_pair(
            old(rows)@,
            community,
            person,
            old(rows)@.len() as int,
        ),
        !has_member(final(rows)@, community, person),
{
    let mut kept: Vec<Membership> = Vec::new();
    let mut i: usize = 0;
    while i < rows.len()
        invariant
            i <= rows.len(),
            kept@ == without_pair(rows@, community, person, i as int),
        decreases rows.len() - i,
    {
        let row = rows[i];
        if !(row.community == community && row.person == person) {
            kept.push(row);
        }
        i += 1;
    }
    proof {
        lemma_without_pair_has_none(rows@, community, person, rows@.len() as int);
    }
    *rows = kept;
}

} // verus!
