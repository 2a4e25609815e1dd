//! The local state that activities are verified against and applied to.

use crate::error::FederationError;
use crate::model::{
    Comment, Community, CommunityBan, LocalUser, Membership, ModLogEntry, Notice, Person,
    PersonBlock, PersonFollow, Post, PrivateMessage, Site,
};
use crate::urls::{holds_url, ObjectUrl};
use vstd::prelude::*;

verus! {

/// Everything this instance knows: its own name, the actors and content it
/// holds or has cached, their relations, the moderation log, and the
/// identifiers of the activities it has already taken in.
pub struct Store {
    pub hostname: String,
    pub protocol_and_hostname: String,
    /// The time, in seconds since the epoch, at which activities are
    /// looked at; whoever holds the store keeps it current.
    pub now: i64,
    pub persons: Vec<Person>,
    pub communities: Vec<Community>,
    pub sites: Vec<Site>,
    pub posts: Vec<Post>,
    pub comments: Vec<Comment>,
    pub private_messages: Vec<PrivateMessage>,
    pub community_bans: Vec<CommunityBan>,
    pub community_followers: Vec<Membership>,
    pub person_followers: Vec<PersonFollow>,
    pub moderators: Vec<Membership>,
    pub mod_log: Vec<ModLogEntry>,
    pub local_users: Vec<LocalUser>,
    pub person_blocks: Vec<PersonBlock>,
    pub person_mentions: Vec<Notice>,
    pub comment_replies: Vec<Notice>,
    /// The identifiers of the activities that were applied to this store.
    pub applied: Vec<ObjectUrl>,
}

/// The store as a mathematical value: every table as a sequence of rows.
pub struct StoreView {
    pub hostname: Seq<char>,
    pub protocol_and_hostname: Seq<char>,
    pub now: i64,
    pub persons: Seq<Person>,
    pub communities: Seq<Community>,
    pub sites: Seq<Site>,
    pub posts: Seq<Post>,
    pub comments: Seq<Comment>,
    pub private_messages: Seq<PrivateMessage>,
    pub community_bans: Seq<CommunityBan>,
    pub community_followers: Seq<Membership>,
    pub person_followers: Seq<PersonFollow>,
    pub moderators: Seq<Membership>,
    pub mod_log: Seq<ModLogEntry>,
    pub local_users: Seq<LocalUser>,
    pub person_blocks: Seq<PersonBlock>,
    pub person_mentions: Seq<Notice>,
    pub comment_replies: Seq<Notice>,
    pub applied: Seq<ObjectUrl>,
}

impl View for Store {
    type V = StoreView;

    open spec fn view(&self) -> StoreView {
        StoreView {
            hostname: self.hostname@,
            protocol_and_hostname: self.protocol_and_hostname@,
            now: self.now,
            persons: self.persons@,
            communities: self.communities@,
            sites: self.sites@,
            posts: self.posts@,
            comments: self.comments@,
            private_messages: self.private_messages@,
            community_bans: self.community_bans@,
            community_followers: self.community_followers@,
            person_followers: self.person_followers@,
            moderators: self.moderators@,
            mod_log: self.mod_log@,
            local_users: self.local_users@,
            person_blocks: self.person_blocks@,
            person_mentions: self.person_mentions@,
            comment_replies: self.comment_replies@,
            applied: self.applied@,
        }
    }
}

/// `at` is the first position in `texts` that holds `needle`, or `None` where
/// no position does.
pub open spec fn located(texts: Seq<Seq<char>>, needle: Seq<char>, at: Option<usize>) -> bool {
    match at {
        Some(i) => i < texts.len() && texts[i as int] == needle && forall|j: int|
            0 <= j < i ==> #[trigger] texts[j] != needle,
        None => forall|j: int| 0 <= j < texts.len() ==> #[trigger] texts[j] != needle,
    }
}

/// Two answers to the same search are the same answer.
pub proof fn lemma_located_unique(
    texts: Seq<Seq<char>>,
    needle: Seq<char>,
    a: Option<usize>,
    b: Option<usize>,
)
    requires
        located(texts, needle, a),
        located(texts, needle, b),
    ensures
        a == b,
{
    if a is Some && b is Some {
        let i = a->0;
        let j = b->0;
        if i < j {
            assert(texts[i as int] == needle);
        } else if j < i {
            assert(texts[j as int] == needle);
        }
    } else if a is Some {
        assert(texts[a->0 as int] == needle);
    } else if b is Some {
        assert(texts[b->0 as int] == needle);
    }
}

impl StoreView {
    /// Whether the activity with the identifier `id` was applied to the
    /// store.
    pub open spec fn was_applied(self, id: ObjectUrl) -> bool {
        holds_url(self.applied, id@)
    }

    /// What applying the activity `id` gives, where `fresh` is what it
    /// gives on a store that has not applied it: an activity is applied
    /// once, and is then remembered; one that was applied before leaves the
    /// store as it is, and that is no error.
    pub open spec fn applied_once(
        self,
        id: ObjectUrl,
        fresh: Result<StoreView, FederationError>,
    ) -> Result<StoreView, FederationError> {
        if self.was_applied(id) {
            Ok(self)
        } else {
            match fresh {
                Ok(after) => Ok(after.with_applied(id)),
                Err(e) => Err(e),
            }
        }
    }

    /// The store that remembers having applied the activity `id`.
    pub open spec fn with_applied(self, id: ObjectUrl) -> StoreView {
        StoreView { applied: self.applied.push(id), ..self }
    }
}

/// An activity that was applied is remembered as applied.
pub proof fn lemma_applied_is_remembered(store: StoreView, id: ObjectUrl)
    ensures
        store.with_applied(id).was_applied(id),
        forall|other: ObjectUrl|
            store.was_applied(other) ==> #[trigger] store.with_applied(id).was_applied(other),
{
    let after = store.with_applied(id).applied;
    assert(after[after.len() - 1] == id);
    assert forall|other: ObjectUrl| store.was_applied(other) implies #[trigger] store.with_applied(
        id,
    ).was_applied(other) by {
        let i = choose|i: int|
            0 <= i < store.applied.len() && (#[trigger] store.applied[i])@ == other@;
        assert(after[i] == store.applied[i]);
    }
}

/// What was applied once changes nothing when it is applied again,
/// whatever it would do to a store that has not applied it.
pub proof fn lemma_applied_once_again(
    store: StoreView,
    id: ObjectUrl,
    fresh: Result<StoreView, FederationError>,
    again: Result<StoreView, FederationError>,
)
    requires
        store.applied_once(id, fresh) is Ok,
        !store.was_applied(id) ==> fresh->Ok_0.applied == store.applied,
    ensures
        store.applied_once(id, fresh)->Ok_0.was_applied(id),
        store.applied_once(id, fresh)->Ok_0.applied_once(id, again) == store.applied_once(
            id,
            fresh,
        ),
{
    if !store.was_applied(id) {
        lemma_applied_is_remembered(fresh->Ok_0, id);
    }
}

/// `at` is the first position in `flags` that is set, or `None` where no
/// position is.
pub open spec fn first_set(flags: Seq<bool>, at: Option<usize>) -> bool {
    match at {
        Some(i) => i < flags.len() && flags[i as int] && forall|j: int|
            0 <= j < i ==> !#[trigger] flags[j],
        None => forall|j: int| 0 <= j < flags.len() ==> !#[trigger] flags[j],
    }
}

/// The first position in `flags` that is set, if there is one.
pub open spec fn first_of(flags: Seq<bool>) -> Option<usize> {
    let at = choose|at: Option<usize>| first_set(flags, at);
    if first_set(flags, at) {
        at
    } else {
        None
    }
}

/// An answer to the search for the first set position is the position that
/// `first_of` names.
pub proof fn lemma_first_set_is_first_of(flags: Seq<bool>, at: Option<usize>)
    requires
        first_set(flags, at),
    ensures
        first_of(flags) == at,
{
    let other = first_of(flags);
    if at is Some && other is Some {
        let i = at->0;
        let j = other->0;
        if i < j {
            assert(flags[i as int]);
        } else if j < i {
            assert(flags[j as int]);
        }
    } else if at is Some {
        assert(flags[at->0 as int]);
    } else if other is Some {
        assert(flags[other->0 as int]);
    }
}

/// The first position in `texts` that holds `needle`, if there is one.
pub open spec fn position(texts: Seq<Seq<char>>, needle: Seq<char>) -> Option<usize> {
    let at = choose|at: Option<usize>| located(texts, needle, at);
    if located(texts, needle, at) {
        at
    } else {
        None
    }
}

/// An answer to a search is the position that `position` names.
pub proof fn lemma_located_is_position(texts: Seq<Seq<char>>, needle: Seq<char>, at: Option<usize>)
    requires
        located(texts, needle, at),
    ensures
        position(texts, needle) == at,
        located(texts, needle, position(texts, needle)),
{
    lemma_located_unique(texts, needle, at, position(texts, needle));
}

/// The identifiers of the persons, row by row.
pub open spec fn person_urls(rows: Seq<Person>) -> Seq<Seq<char>> {
    Seq::new(rows.len(), |i: int| rows[i].actor_id@)
}

/// The identifiers of the communities, row by row.
pub open spec fn community_urls(rows: Seq<Community>) -> Seq<Seq<char>> {
    Seq::new(rows.len(), |i: int| rows[i].actor_id@)
}

/// The identifiers of the moderator collections of the communities.
pub open spec fn moderators_urls(rows: Seq<Community>) -> Seq<Seq<char>> {
    Seq::new(rows.len(), |i: int| rows[i].moderators_url@)
}

/// The identifiers of the featured-post collections of the communities.
pub open spec fn featured_urls(rows: Seq<Community>) -> Seq<Seq<char>> {
    Seq::new(rows.len(), |i: int| rows[i].featured_url@)
}

/// The identifiers of the instances, row by row.
pub open spec fn site_urls(rows: Seq<Site>) -> Seq<Seq<char>> {
    Seq::new(rows.len(), |i: int| rows[i].actor_id@)
}

/// The identifiers of the posts, row by row.
pub open spec fn post_urls(rows: Seq<Post>) -> Seq<Seq<char>> {
    Seq::new(rows.len(), |i: int| rows[i].ap_id@)
}

/// The identifiers of the comments, row by row.
pub open spec fn comment_urls(rows: Seq<Comment>) -> Seq<Seq<char>> {
    Seq::new(rows.len(), |i: int| rows[i].ap_id@)
}

/// The identifiers of the private messages, row by row.
pub open spec fn message_urls(rows: Seq<PrivateMessage>) -> Seq<Seq<char>> {
    Seq::new(rows.len(), |i: int| rows[i].ap_id@)
}

impl StoreView {
    /// The row of the person with the identifier `url`, if the store holds one.
    pub open spec fn person_at(self, url: Seq<char>) -> Option<usize> {
        position(person_urls(self.persons), url)
    }

    /// The row of the community with the identifier `url`, if the store holds one.
    pub open spec fn community_at(self, url: Seq<char>) -> Option<usize> {
        position(community_urls(self.communities), url)
    }

    /// The row of the community whose moderators collection is `url`.
    pub open spec fn moderators_collection_at(self, url: Seq<char>) -> Option<usize> {
        position(moderators_urls(self.communities), url)
    }

    /// The row of the community whose featured-posts collection is `url`.
    pub open spec fn featured_collection_at(self, url: Seq<char>) -> Option<usize> {
        position(featured_urls(self.communities), url)
    }

    /// The row of the instance with the identifier `url`, if the store holds one.
    pub open spec fn site_at(self, url: Seq<char>) -> Option<usize> {
        position(site_urls(self.sites), url)
    }

    /// The row of the post with the identifier `url`, if the store holds one.
    pub open spec fn post_at(self, url: Seq<char>) -> Option<usize> {
        position(post_urls(self.posts), url)
    }

    /// The row of the comment with the identifier `url`, if the store holds one.
    pub open spec fn comment_at(self, url: Seq<char>) -> Option<usize> {
        position(comment_urls(self.comments), url)
    }

    /// The row of the private message with the identifier `url`, if the store holds one.
    pub open spec fn private_message_at(self, url: Seq<char>) -> Option<usize> {
        position(message_urls(self.private_messages), url)
    }
}

impl Store {
    /// A store that knows nothing yet, for the instance called `hostname`
    /// whose identifiers start with `protocol_and_hostname`, with its clock
    /// at the epoch.
    pub fn new(hostname: String, protocol_and_hostname: String) -> (r: Store)
        ensures
            r@ == (StoreView {
                hostname: hostname@,
                protocol_and_hostname: protocol_and_hostname@,
                now: 0,
                persons: Seq::empty(),
                communities: Seq::empty(),
                sites: Seq::empty(),
                posts: Seq::empty(),
                comments: Seq::empty(),
                private_messages: Seq::empty(),
                community_bans: Seq::empty(),
                community_followers: Seq::empty(),
                person_followers: Seq::empty(),
                moderators: Seq::empty(),
                mod_log: Seq::empty(),
                local_users: Seq::empty(),
                person_blocks: Seq::empty(),
                person_mentions: Seq::empty(),
                comment_replies: Seq::empty(),
                applied: Seq::empty(),
            }),
    {
        Store {
            hostname,
            protocol_and_hostname,
            now: 0,
            persons: Vec::new(),
            communities: Vec::new(),
            sites: Vec::new(),
            posts: Vec::new(),
            comments: Vec::new(),
            private_messages: Vec::new(),
            community_bans: Vec::new(),
            community_followers: Vec::new(),
            person_followers: Vec::new(),
            moderators: Vec::new(),
            mod_log: Vec::new(),
            local_users: Vec::new(),
            person_blocks: Vec::new(),
            person_mentions: Vec::new(),
            comment_replies: Vec::new(),
            applied: Vec::new(),
        }
    }

    /// The person with the identifier `url`.
    pub fn find_person(&self, url: &ObjectUrl) -> (r: Option<usize>)
        ensures
            r == self@.person_at(url@),
            located(person_urls(self.persons@), url@, r),
    {
        let r = self.scan_person(url);
        proof {
            lemma_located_is_position(person_urls(self.persons@), url@, r);
        }
        r
    }

    fn scan_person(&self, url: &ObjectUrl) -> (r: Option<usize>)
        ensures
            located(person_urls(self.persons@), url@, r),
    {
        let mut i: usize = 0;
        while i < self.persons.len()
            invariant
                i <= self.persons.len(),
                forall|j: int| 0 <= j < i ==> #[trigger] person_urls(self.persons@)[j] != url@,
            decreases self.persons.len() - i,
        {
            if self.persons[i].actor_id.same(url) {
                return Some(i);
            }
            i += 1;
        }
        None
    }

    /// The community with the identifier `url`.
    pub fn find_community(&self, url: &ObjectUrl) -> (r: Option<usize>)
        ensures
            r == self@.community_at(url@),
            located(community_urls(self.communities@), url@, r),
    {
        let r = self.scan_community(url);
        proof {
            lemma_located_is_position(community_urls(self.communities@), url@, r);
        }
        r
    }

    fn scan_community(&self, url: &ObjectUrl) -> (r: Option<usize>)
        ensures
            located(community_urls(self.communities@), url@, r),
    {
        let mut i: usize = 0;
        while i < self.communities.len()
            invariant
                i <= self.communities.len(),
                forall|j: int|
                    0 <= j < i ==> #[trigger] community_urls(self.communities@)[j] != url@,
            decreases self.communities.len() - i,
        {
            if self.communities[i].actor_id.same(url) {
                return Some(i);
            }
            i += 1;
        }
        None
    }

    /// The community whose moderators collection is `url`.
    pub fn find_moderators_collection(&self, url: &ObjectUrl) -> (r: Option<usize>)
        ensures
            r == self@.moderators_collection_at(url@),
            located(moderators_urls(self.communities@), url@, r),
    {
        let mut i: usize = 0;
        let mut r: Option<usize> = None;
        while i < self.communities.len()
            invariant
                i <= self.communities.len(),
                r is None,
                forall|j: int|
                    0 <= j < i ==> #[trigger] moderators_urls(self.communities@)[j] != url@,
            decreases self.communities.len() - i,
        {
            if self.communities[i].moderators_url.same(url) {
                r = Some(i);
                proof {
                    lemma_located_is_position(moderators_urls(self.communities@), url@, r);
                }
                return r;
            }
            i += 1;
        }
        proof {
            lemma_located_is_position(moderators_urls(self.communities@), url@, r);
        }
        r
    }

    /// The community whose featured-posts collection is `url`.
    pub fn find_featured_collection(&self, url: &ObjectUrl) -> (r: Option<usize>)
        ensures
            r == self@.featured_collection_at(url@),
            located(featured_urls(self.communities@), url@, r),
    {
        let mut i: usize = 0;
        let mut r: Option<usize> = None;
        while i < self.communities.len()
            invariant
                i <= self.communities.len(),
                r is None,
                forall|j: int|
                    0 <= j < i ==> #[trigger] featured_urls(self.communities@)[j] != url@,
            decreases self.communities.len() - i,
        {
            if self.communities[i].featured_url.same(url) {
                r = Some(i);
                proof {
                    lemma_located_is_position(featured_urls(self.communities@), url@, r);
                }
                return r;
            }
            i += 1;
        }
        proof {
            lemma_located_is_position(featured_urls(self.communities@), url@, r);
        }
        r
    }

    /// The instance with the identifier `url`.
    pub fn find_site(&self, url: &ObjectUrl) -> (r: Option<usize>)
        ensures
            r == self@.site_at(url@),
            located(site_urls(self.sites@), url@, r),
    {
        let r = self.scan_site(url);
        proof {
            lemma_located_is_position(site_urls(self.sites@), url@, r);
        }
        r
    }

    fn scan_site(&self, url: &ObjectUrl) -> (r: Option<usize>)
        ensures
            located(site_urls(self.sites@), url@, r),
    {
        let mut i: usize = 0;
        while i < self.sites.len()
            invariant
                i <= self.sites.len(),
                forall|j: int| 0 <= j < i ==> #[trigger] site_urls(self.sites@)[j] != url@,
            decreases self.sites.len() - i,
        {
            if self.sites[i].actor_id.same(url) {
                return Some(i);
            }
            i += 1;
        }
        None
    }

    /// The post with the identifier `url`.
    pub fn find_post(&self, url: &ObjectUrl) -> (r: Option<usize>)
        ensures
            r == self@.post_at(url@),
            located(post_urls(self.posts@), url@, r),
    {
        let r = self.scan_post(url);
        proof {
            lemma_located_is_position(post_urls(self.posts@), url@, r);
        }
        r
    }

    fn scan_post(&self, url: &ObjectUrl) -> (r: Option<usize>)
        ensures
            located(post_urls(self.posts@), url@, r),
    {
        let mut i: usize = 0;
        while i < self.posts.len()
            invariant
                i <= self.posts.len(),
                forall|j: int| 0 <= j < i ==> #[trigger] post_urls(self.posts@)[j] != url@,
            decreases self.posts.len() - i,
        {
            if self.posts[i].ap_id.same(url) {
                return Some(i);
            }
            i += 1;
        }
        None
    }

    /// The comment with the identifier `url`.
    pub fn find_comment(&self, url: &ObjectUrl) -> (r: Option<usize>)
        ensures
            r == self@.comment_at(url@),
            located(comment_urls(self.comments@), url@, r),
    {
        let r = self.scan_comment(url);
        proof {
            lemma_located_is_position(comment_urls(self.comments@), url@, r);
        }
        r
    }

    fn scan_comment(&self, url: &ObjectUrl) -> (r: Option<usize>)
        ensures
            located(comment_urls(self.comments@), url@, r),
    {
        let mut i: usize = 0;
        while i < self.comments.len()
            invariant
                i <= self.comments.len(),
                forall|j: int| 0 <= j < i ==> #[trigger] comment_urls(self.comments@)[j] != url@,
            decreases self.comments.len() - i,
        {
            if self.comments[i].ap_id.same(url) {
                return Some(i);
            }
            i += 1;
        }
        None
    }

    /// The private message with the identifier `url`.
    pub fn find_private_message(&self, url: &ObjectUrl) -> (r: Option<usize>)
        ensures
            r == self@.private_message_at(url@),
            located(message_urls(self.private_messages@), url@, r),
    {
        let r = self.scan_private_message(url);
        proof {
            lemma_located_is_position(message_urls(self.private_messages@), url@, r);
        }
        r
    }

    fn scan_private_message(&self, url: &ObjectUrl) -> (r: Option<usize>)
        ensures
            located(message_urls(self.private_messages@), url@, r),
    {
        let mut i: usize = 0;
        while i < self.private_messages.len()
            invariant
                i <= self.private_messages.len(),
                forall|j: int|
                    0 <= j < i ==> #[trigger] message_urls(self.private_messages@)[j] != url@,
            decreases self.private_messages.len() - i,
        {
            if self.private_messages[i].ap_id.same(url) {
                return Some(i);
            }
            i += 1;
        }
        None
    }
}

} // verus!
