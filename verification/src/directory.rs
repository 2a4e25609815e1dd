//! The actor directory: what is known of persons, communities and
//! instances, and when something has to be fetched from elsewhere.

use crate::error::FederationError;
use crate::model::{Community, Person, Site};
use crate::store::{Store, StoreView};
use crate::urls::{domain_is, domains_equal, same_domain, ObjectUrl};
use vstd::prelude::*;

verus! {

/// An actor that the store knows, by its row.
#[derive(Clone, Copy, Debug, PartialEq, Eq, Structural)]
pub enum Actor {
    Person(usize),
    Community(usize),
    Instance(usize),
}

/// What resolving an identifier comes to without leaving the instance.
#[derive(Clone, Copy, Debug, PartialEq, Eq, Structural)]
pub enum Resolution {
    /// The store knows the actor.
    Known(Actor),
    /// The actor has to be fetched from its home; after that, `budget_left`
    /// further fetches are allowed in the same chain.
    Fetch { budget_left: u32 },
}

/// An actor document that was fetched from its home instance.
pub enum FetchedActor {
    Person(Person),
    Community(Community),
    Instance(Site),
}

impl FetchedActor {
    /// The identifier that the document gives for the actor.
    pub open spec fn id_spec(self) -> ObjectUrl {
        match self {
            FetchedActor::Person(p) => p.actor_id,
            FetchedActor::Community(c) => c.actor_id,
            FetchedActor::Instance(s) => s.actor_id,
        }
    }

    /// The identifier that the document gives for the actor.
    pub fn id(&self) -> (r: &ObjectUrl)
        ensures
            *r == self.id_spec(),
    {
        match self {
            FetchedActor::Person(p) => &p.actor_id,
            FetchedActor::Community(c) => &c.actor_id,
            FetchedActor::Instance(s) => &s.actor_id,
        }
    }
}

impl StoreView {
    /// The actor with the identifier `url`. Persons are looked at first,
    /// then communities, then instances.
    pub open spec fn actor_at(self, url: Seq<char>) -> Option<Actor> {
        if let Some(p) = self.person_at(url) {
            Some(Actor::Person(p))
        } else if let Some(c) = self.community_at(url) {
            Some(Actor::Community(c))
        } else if let Some(s) = self.site_at(url) {
            Some(Actor::Instance(s))
        } else {
            None
        }
    }

    /// What resolving `url` with `depth_budget` fetches left comes to. A
    /// known actor is handed out whatever the budget. An unknown one is
    /// never fetched where its home is this instance, and not fetched once
    /// the budget is used up.
    pub open spec fn resolution(self, url: ObjectUrl, depth_budget: u32) -> Result<
        Resolution,
        FederationError,
    > {
        match self.actor_at(url@) {
            Some(actor) => Ok(Resolution::Known(actor)),
            None => if url.domain_view() == Some(self.hostname) {
                Err(FederationError::NotFound)
            } else if depth_budget == 0 {
                Err(FederationError::RecursionExceeded)
            } else {
                Ok(Resolution::Fetch { budget_left: (depth_budget - 1) as u32 })
            },
        }
    }

    /// The store with a fetched actor taken in: at the end of its table.
    pub open spec fn with_actor(self, fetched: FetchedActor) -> StoreView {
        match fetched {
            FetchedActor::Person(p) => StoreView { persons: self.persons.push(p), ..self },
            FetchedActor::Community(c) => StoreView {
                communities: self.communities.push(c),
                ..self
            },
            FetchedActor::Instance(s) => StoreView { sites: self.sites.push(s), ..self },
        }
    }

    /// The row that a fetched actor gets when it is taken in.
    pub open spec fn next_row(self, fetched: FetchedActor) -> Actor {
        match fetched {
            FetchedActor::Person(_) => Actor::Person(self.persons.len() as usize),
            FetchedActor::Community(_) => Actor::Community(self.communities.len() as usize),
            FetchedActor::Instance(_) => Actor::Instance(self.sites.len() as usize),
        }
    }

    /// What taking in the document `fetched`, asked for under `requested`,
    /// comes to: a document from another domain than the one asked is
    /// turned away; an actor that is known by now is handed out and the
    /// document dropped; otherwise the actor is added.
    pub open spec fn admission(self, requested: ObjectUrl, fetched: FetchedActor) -> Result<
        (StoreView, Actor),
        FederationError,
    > {
        if !same_domain(requested.domain_view(), fetched.id_spec().domain_view()) {
            Err(FederationError::DomainMismatch)
        } else {
            match self.actor_at(fetched.id_spec()@) {
                Some(actor) => Ok((self, actor)),
                None => Ok((self.with_actor(fetched), self.next_row(fetched))),
            }
        }
    }
}

/// Finds the actor with the identifier `url` in the store.
pub fn lookup(store: &Store, url: &ObjectUrl) -> (r: Option<Actor>)
    ensures
        r == store@.actor_at(url@),
{
    if let Some(p) = store.find_person(url) {
        return Some(Actor::Person(p));
    }
    if let Some(c) = store.find_community(url) {
        return Some(Actor::Community(c));
    }
    if let Some(s) = store.find_site(url) {
        return Some(Actor::Instance(s));
    }
    None
}

/// Resolves `url` as far as the store allows, with `depth_budget` fetches
/// left in the current chain of resolutions.
pub fn resolve(store: &Store, url: &ObjectUrl, depth_budget: u32) -> (r: Result<
    Resolution,
    FederationError,
>)
    ensures
        r == store@.resolution(*url, depth_budget),
{
    match lookup(store, url) {
        Some(actor) => Ok(Resolution::Known(actor)),
        None => {
            if domain_is(url, &store.hostname) {
                Err(FederationError::NotFound)
            } else if depth_budget == 0 {
                Err(FederationError::RecursionExceeded)
            } else {
                Ok(Resolution::Fetch { budget_left: depth_budget - 1 })
            }
        },
    }
}

/// Takes the fetched document `fetched` into the store, if it is from the
/// domain that was asked and the actor is still unknown. An actor is never
/// held twice: where it is known by now, the store stays as it is.
pub fn take_in(store: &mut Store, requested: &ObjectUrl, fetched: FetchedActor) -> (r: Result<
    Actor,
    FederationError,
>)
    ensures
        match old(store)@.admission(*requested, fetched) {
            Ok((after, actor)) => r == Ok::<Actor, FederationError>(actor) && final(store)@
                == after,
            Err(e) => r == Err::<Actor, FederationError>(e) && final(store)@ == old(store)@,
        },
{
    if !domains_equal(requested, fetched.id()) {
        return Err(FederationError::DomainMismatch);
    }
    if let Some(actor) = lookup(store, fetched.id()) {
        return Ok(actor);
    }
    match fetched {
        FetchedActor::Person(p) => {
            let row = store.persons.len();
            store.persons.push(p);
            Ok(Actor::Person(row))
        },
        FetchedActor::Community(c) => {
            let row = store.communities.len();
            store.communities.push(c);
            Ok(Actor::Community(row))
        },
        FetchedActor::Instance(s) => {
            let row = store.sites.len();
            store.sites.push(s);
            Ok(Actor::Instance(row))
        },
    }
}

/// Once the budget is used up, nothing more is fetched.
pub proof fn lemma_no_fetch_without_budget(store: StoreView, url: ObjectUrl)
    ensures
        !(store.resolution(url, 0) matches Ok(Resolution::Fetch { .. })),
{
}

/// Every fetch leaves a smaller budget, so a chain of resolutions that
/// starts with a budget of `depth_budget` fetches at most that often.
pub proof fn lemma_fetch_spends_budget(store: StoreView, url: ObjectUrl, depth_budget: u32)
    ensures
        store.resolution(url, depth_budget) matches Ok(Resolution::Fetch { budget_left })
            ==> budget_left < depth_budget,
{
}

/// Taking in an actor that is known changes nothing.
pub proof fn lemma_known_actor_is_kept(
    store: StoreView,
    requested: ObjectUrl,
    fetched: FetchedActor,
)
    requires
        store.actor_at(fetched.id_spec()@) is Some,
        store.admission(requested, fetched) is Ok,
    ensures
        store.admission(requested, fetched)->Ok_0.0 == store,
{
}

} // verus!
