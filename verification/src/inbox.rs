//! The way of an inbound activity: verified, then applied, once.

use crate::deletion::{is_deletion_applied, logged_reason, Applied};
use crate::error::FederationError;
use crate::protocol::AnnouncableActivities;
use crate::store::{
    community_urls, lemma_applied_is_remembered, person_urls, site_urls, Store, StoreView,
};
use crate::urls::contains_url;
use vstd::prelude::*;

verus! {

impl StoreView {
    /// What verification answers for `activity`.
    pub open spec fn verdict(self, activity: AnnouncableActivities) -> Result<(), FederationError> {
        match activity {
            AnnouncableActivities::BlockUser(b) => self.block_verdict(b),
            AnnouncableActivities::UndoBlockUser(u) => self.undo_block_verdict(u),
            AnnouncableActivities::CollectionAdd(a) => self.collection_verdict(
                a.to@,
                a.cc@,
                a.actor,
                a.target,
                a.audience,
            ),
            AnnouncableActivities::CollectionRemove(a) => self.collection_verdict(
                a.to@,
                a.cc@,
                a.actor,
                a.target,
                a.audience,
            ),
            AnnouncableActivities::Delete(d) => self.delete_verdict(d, d.summary is Some),
            AnnouncableActivities::UndoDelete(u) => self.undo_delete_verdict(u),
        }
    }
}

/// Whether `r` and `after` are what a change of the store by an activity
/// comes to, where `effect` is the new store or the reason why there is
/// none: on failure the store stays as it was.
pub open spec fn is_change(
    r: Result<Applied, FederationError>,
    before: StoreView,
    after: StoreView,
    effect: Result<StoreView, FederationError>,
) -> bool {
    match effect {
        Ok(changed) => r is Ok && r->Ok_0 is Changed && after == changed,
        Err(e) => r is Err && r->Err_0 == e && after == before,
    }
}

/// Whether `r` and `after` are what applying the verified `activity` to
/// `before` comes to.
///
/// An activity is applied once. Where the store has applied it before, the
/// answer is `Already` and the store stays as it is: nothing is written and
/// nothing is logged a second time. Otherwise the store changes as the
/// effect of the activity's kind says and remembers the activity; on
/// failure it stays as it was and remembers nothing.
pub open spec fn is_applied(
    r: Result<Applied, FederationError>,
    before: StoreView,
    after: StoreView,
    activity: AnnouncableActivities,
    token: Seq<char>,
) -> bool {
    if before.was_applied(activity.id_spec()) {
        r is Ok && r->Ok_0 is Already && after == before
    } else {
        match activity {
            AnnouncableActivities::BlockUser(b) => is_change(
                r,
                before,
                after,
                before.block_effect(b),
            ),
            AnnouncableActivities::UndoBlockUser(u) => is_change(
                r,
                before,
                after,
                before.unblock_effect(u),
            ),
            AnnouncableActivities::CollectionAdd(a) => is_change(
                r,
                before,
                after,
                before.add_effect(a),
            ),
            AnnouncableActivities::CollectionRemove(a) => is_change(
                r,
                before,
                after,
                before.remove_effect(a),
            ),
            AnnouncableActivities::Delete(d) => is_deletion_applied(
                r,
                before,
                after,
                d.id,
                d.actor@,
                d.object@,
                d.summary is Some,
                logged_reason(d.summary),
                true,
                token,
            ),
            AnnouncableActivities::UndoDelete(u) => is_deletion_applied(
                r,
                before,
                after,
                u.id,
                u.actor@,
                u.object.object@,
                u.object.summary is Some,
                None,
                false,
                token,
            ),
        }
    }
}

/// Verifies `activity` against the store.
pub fn verify_activity(store: &Store, activity: &AnnouncableActivities) -> (r: Result<
    (),
    FederationError,
>)
    ensures
        r == store@.verdict(*activity),
{
    match activity {
        AnnouncableActivities::BlockUser(b) => b.verify(store),
        AnnouncableActivities::UndoBlockUser(u) => u.verify(store),
        AnnouncableActivities::CollectionAdd(a) => a.verify(store),
        AnnouncableActivities::CollectionRemove(a) => a.verify(store),
        AnnouncableActivities::Delete(d) => d.verify(store),
        AnnouncableActivities::UndoDelete(u) => u.verify(store),
    }
}

/// Applies the verified `activity` to the store, once.
pub fn apply_activity(store: &mut Store, activity: AnnouncableActivities, token: &str) -> (r:
    Result<Applied, FederationError>)
    ensures
        is_applied(r, old(store)@, final(store)@, activity, token@),
{
    if contains_url(&store.applied, activity.id()) {
        return Ok(Applied::Already);
    }
    match activity {
        AnnouncableActivities::BlockUser(b) => match b.receive(store) {
            Ok(_) => Ok(Applied::Changed),
            Err(e) => Err(e),
        },
        AnnouncableActivities::UndoBlockUser(u) => match u.receive(store) {
            Ok(_) => Ok(Applied::Changed),
            Err(e) => Err(e),
        },
        AnnouncableActivities::CollectionAdd(a) => match a.receive(store) {
            Ok(_) => Ok(Applied::Changed),
            Err(e) => Err(e),
        },
        AnnouncableActivities::CollectionRemove(a) => match a.receive(store) {
            Ok(_) => Ok(Applied::Changed),
            Err(e) => Err(e),
        },
        AnnouncableActivities::Delete(d) => d.receive(store, token),
        AnnouncableActivities::UndoDelete(u) => u.receive(store, token),
    }
}

/// Whether `r` and `after` are what taking in `activity` comes to.
///
/// An activity that was applied before is turned away as `Duplicate` and
/// changes nothing. Every other activity is verified; where verification
/// fails, that failure is the answer, the store stays as it was and the
/// activity may come again. Where it passes, the activity is applied as
/// `is_applied` says.
pub open spec fn is_receipt(
    r: Result<Applied, FederationError>,
    before: StoreView,
    after: StoreView,
    activity: AnnouncableActivities,
    token: Seq<char>,
) -> bool {
    if before.was_applied(activity.id_spec()) {
        r is Err && r->Err_0 == FederationError::Duplicate && after == before
    } else {
        match before.verdict(activity) {
            Err(e) => r is Err && r->Err_0 == e && after == before,
            Ok(_) => is_applied(r, before, after, activity, token),
        }
    }
}

/// Takes in an inbound activity: verified, then applied, once. `token`
/// makes the identifier of an activity that applying may send on.
pub fn receive_activity(store: &mut Store, activity: AnnouncableActivities, token: &str) -> (r:
    Result<Applied, FederationError>)
    ensures
        is_receipt(r, old(store)@, final(store)@, activity, token@),
{
    if contains_url(&store.applied, activity.id()) {
        return Err(FederationError::Duplicate);
    }
    match verify_activity(store, &activity) {
        Err(e) => {
            return Err(e);
        },
        Ok(_) => {},
    }
    apply_activity(store, activity, token)
}

/// An activity that was applied with success is remembered as applied.
pub proof fn lemma_applied_activity_is_remembered(
    r: Result<Applied, FederationError>,
    before: StoreView,
    after: StoreView,
    activity: AnnouncableActivities,
    token: Seq<char>,
)
    requires
        is_applied(r, before, after, activity, token),
        r is Ok,
    ensures
        after.was_applied(activity.id_spec()),
{
    if !before.was_applied(activity.id_spec()) {
        lemma_applied_is_remembered(before, activity.id_spec());
        let last = after.applied[after.applied.len() - 1];
        assert(after.applied == before.applied.push(activity.id_spec()));
        assert(last == activity.id_spec());
    }
}

/// Applying the same activity twice changes the store once: where the first
/// application went through, the second succeeds with `Already` and leaves
/// the store as the first left it. In particular no moderation action is
/// logged twice for one activity.
pub proof fn lemma_applied_twice_changes_once(
    first: Result<Applied, FederationError>,
    second: Result<Applied, FederationError>,
    before: StoreView,
    between: StoreView,
    after: StoreView,
    activity: AnnouncableActivities,
    first_token: Seq<char>,
    second_token: Seq<char>,
)
    requires
        is_applied(first, before, between, activity, first_token),
        first is Ok,
        is_applied(second, between, after, activity, second_token),
    ensures
        second is Ok,
        second->Ok_0 is Already,
        after == between,
        after.mod_log == between.mod_log,
{
    lemma_applied_activity_is_remembered(first, before, between, activity, first_token);
}

/// An activity that was taken in with success is turned away when it comes
/// again: the second receipt is `Duplicate` and changes nothing.
pub proof fn lemma_second_receipt_is_duplicate(
    first: Result<Applied, FederationError>,
    second: Result<Applied, FederationError>,
    before: StoreView,
    between: StoreView,
    after: StoreView,
    activity: AnnouncableActivities,
    first_token: Seq<char>,
    second_token: Seq<char>,
)
    requires
        is_receipt(first, before, between, activity, first_token),
        first is Ok,
        is_receipt(second, between, after, activity, second_token),
    ensures
        second is Err,
        second->Err_0 == FederationError::Duplicate,
        after == between,
{
    lemma_applied_activity_is_remembered(first, before, between, activity, first_token);
}

/// An activity that verification turned away leaves no trace: the store is
/// as it was, so the activity is looked at afresh when it comes again.
pub proof fn lemma_rejected_activity_leaves_no_trace(
    r: Result<Applied, FederationError>,
    before: StoreView,
    after: StoreView,
    activity: AnnouncableActivities,
    token: Seq<char>,
)
    requires
        is_receipt(r, before, after, activity, token),
        !before.was_applied(activity.id_spec()),
        before.verdict(activity) is Err,
    ensures
        after == before,
        r is Err,
        r->Err_0 == before.verdict(activity)->Err_0,
{
}

/// Whatever an inbound activity does, no actor is forgotten and none gets
/// another identifier; and the moderation log only grows, by one entry at
/// most, with what it held still in front.
pub proof fn lemma_receipt_keeps_actors_and_log(
    r: Result<Applied, FederationError>,
    before: StoreView,
    after: StoreView,
    activity: AnnouncableActivities,
    token: Seq<char>,
)
    requires
        is_receipt(r, before, after, activity, token),
    ensures
        person_urls(after.persons) == person_urls(before.persons),
        community_urls(after.communities) == community_urls(before.communities),
        site_urls(after.sites) == site_urls(before.sites),
        before.mod_log.len() <= after.mod_log.len() <= before.mod_log.len() + 1,
        after.mod_log.subrange(0, before.mod_log.len() as int) == before.mod_log,
{
    assert(before.mod_log.subrange(0, before.mod_log.len() as int) =~= before.mod_log);
    assert(person_urls(after.persons) =~= person_urls(before.persons));
    assert(community_urls(after.communities) =~= community_urls(before.communities));
    assert(site_urls(after.sites) =~= site_urls(before.sites));
    assert(after.mod_log.subrange(0, before.mod_log.len() as int) =~= before.mod_log);
}

} // verus!
