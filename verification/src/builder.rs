//! Construction of outbound activities.

use crate::error::FederationError;
use crate::model::Community;
use crate::protocol::ActivityKind;
use crate::urls::{url_serialization, ObjectUrl};
use vstd::prelude::*;
use vstd::string::StringExecFns;

verus! {

/// The lower-case tag that stands for `kind` in an activity identifier.
pub open spec fn kind_text(kind: ActivityKind) -> Seq<char> {
    match kind {
        ActivityKind::Block => "block"@,
        ActivityKind::Add => "add"@,
        ActivityKind::Remove => "remove"@,
        ActivityKind::Delete => "delete"@,
        ActivityKind::Undo => "undo"@,
        ActivityKind::Announce => "announce"@,
    }
}

/// The tag of `kind`.
pub fn kind_name(kind: ActivityKind) -> (r: &'static str)
    ensures
        r@ == kind_text(kind),
{
    match kind {
        ActivityKind::Block => "block",
        ActivityKind::Add => "add",
        ActivityKind::Remove => "remove",
        ActivityKind::Delete => "delete",
        ActivityKind::Undo => "undo",
        ActivityKind::Announce => "announce",
    }
}

/// The text of an activity identifier before it is parsed: the instance's
/// origin, the kind, and a token that no other activity of the instance has.
pub open spec fn activity_id_text(origin: Seq<char>, kind: ActivityKind, token: Seq<char>) -> Seq<
    char,
> {
    origin + "/activities/"@ + kind_text(kind) + "/"@ + token
}

/// Maps the outcome of parsing `raw` to the library's error.
pub fn parse_url(raw: &str) -> (r: Result<ObjectUrl, FederationError>)
    ensures
        r is Ok <==> url_serialization(raw@) is Some,
        r matches Ok(u) ==> Some(u@) == url_serialization(raw@),
        r matches Err(e) ==> e == FederationError::InvalidUrl,
{
    match ObjectUrl::parse(raw) {
        Ok(u) => Ok(u),
        Err(_) => Err(FederationError::InvalidUrl),
    }
}

/// Builds the identifier of a new activity of `kind` under `origin`.
///
/// `token` is what makes the identifier unique; the caller draws it afresh
/// for every activity.
pub fn generate_activity_id(kind: ActivityKind, origin: &str, token: &str) -> (r: Result<
    ObjectUrl,
    FederationError,
>)
    ensures
        r is Ok <==> url_serialization(activity_id_text(origin@, kind, token@)) is Some,
        r matches Ok(u) ==> Some(u@) == url_serialization(
            activity_id_text(origin@, kind, token@),
        ),
        r matches Err(e) ==> e == FederationError::InvalidUrl,
{
    let mut text = String::from_str(origin);
    text.append("/activities/");
    text.append(kind_name(kind));
    text.append("/");
    text.append(token);
    parse_url(text.as_str())
}

/// Whether `id` is the identifier that `generate_activity_id` gives for
/// `kind`, `origin` and `token`.
pub open spec fn is_activity_id(
    id: ObjectUrl,
    origin: Seq<char>,
    kind: ActivityKind,
    token: Seq<char>,
) -> bool {
    Some(id@) == url_serialization(activity_id_text(origin, kind, token))
}

/// Whether an identifier can be built for `kind`, `origin` and `token`.
pub open spec fn has_activity_id(origin: Seq<char>, kind: ActivityKind, token: Seq<char>) -> bool {
    url_serialization(activity_id_text(origin, kind, token)) is Some
}

/// The secondary audience of an activity in a community: the community and
/// its followers collection. Outside any community it is empty.
pub open spec fn community_cc(community: Option<Community>) -> Seq<ObjectUrl> {
    match community {
        Some(c) => seq![c.actor_id, c.followers_url],
        None => Seq::empty(),
    }
}

/// The audience field of an activity in a community.
pub open spec fn community_audience(community: Option<Community>) -> Option<ObjectUrl> {
    match community {
        Some(c) => Some(c.actor_id),
        None => None,
    }
}

/// The community behind an optional reference.
pub open spec fn deref_community(community: Option<&Community>) -> Option<Community> {
    match community {
        Some(c) => Some(*c),
        None => None,
    }
}

/// Builds the secondary audience of an activity.
pub fn generate_community_cc(community: Option<&Community>) -> (r: Vec<ObjectUrl>)
    ensures
        r@ == community_cc(deref_community(community)),
{
    let mut cc: Vec<ObjectUrl> = Vec::new();
    match community {
        Some(c) => {
            cc.push(c.actor_id.clone());
            cc.push(c.followers_url.clone());
            assert(cc@ =~= seq![c.actor_id, c.followers_url]);
        },
        None => {},
    }
    cc
}

/// The text of a collection that belongs to the actor `actor`.
pub open spec fn collection_text(actor: Seq<char>, suffix: Seq<char>) -> Seq<char> {
    actor + suffix
}

/// The identifier of the followers collection of the community `actor_id`.
pub fn generate_followers_url(actor_id: &ObjectUrl) -> (r: Result<ObjectUrl, FederationError>)
    ensures
        r is Ok <==> url_serialization(collection_text(actor_id@, "/followers"@)) is Some,
        r matches Ok(u) ==> Some(u@) == url_serialization(
            collection_text(actor_id@, "/followers"@),
        ),
        r matches Err(e) ==> e == FederationError::InvalidUrl,
{
    let mut text = String::from_str(actor_id.as_str());
    text.append("/followers");
    parse_url(text.as_str())
}

/// The identifier of the moderators collection of the community `actor_id`.
pub fn generate_moderators_url(actor_id: &ObjectUrl) -> (r: Result<ObjectUrl, FederationError>)
    ensures
        r is Ok <==> url_serialization(collection_text(actor_id@, "/moderators"@)) is Some,
        r matches Ok(u) ==> Some(u@) == url_serialization(
            collection_text(actor_id@, "/moderators"@),
        ),
        r matches Err(e) ==> e == FederationError::InvalidUrl,
{
    let mut text = String::from_str(actor_id.as_str());
    text.append("/moderators");
    parse_url(text.as_str())
}

/// The identifier of the featured-posts collection of the community
/// `actor_id`.
pub fn generate_featured_url(actor_id: &ObjectUrl) -> (r: Result<ObjectUrl, FederationError>)
    ensures
        r is Ok <==> url_serialization(collection_text(actor_id@, "/featured"@)) is Some,
        r matches Ok(u) ==> Some(u@) == url_serialization(
            collection_text(actor_id@, "/featured"@),
        ),
        r matches Err(e) ==> e == FederationError::InvalidUrl,
{
    let mut text = String::from_str(actor_id.as_str());
    text.append("/featured");
    parse_url(text.as_str())
}

} // verus!
