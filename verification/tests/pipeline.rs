use federation_core::block_user::{SiteOrCommunity, remote_instance_inboxes};
use federation_core::builder::{generate_activity_id, generate_featured_url, generate_moderators_url};
use federation_core::checks::{
    verify_domains_match, verify_is_public, verify_mod_action, verify_person,
    verify_person_in_community,
};
use federation_core::deletion::{
    receive_delete_action, receive_remove_action, verify_delete_activity, Applied,
    DeletableObjects,
};
use federation_core::dispatch::{
    collect_outcomes, send_activity_in_community, DispatchReport, Envelope,
};
use federation_core::error::FederationError;
use federation_core::inbox::{apply_activity, receive_activity};
use federation_core::model::{
    Comment, Community, CommunityBan, LogTarget, Membership, ModAction, Person, PersonFollow,
    Post, PrivateMessage, Scope, Site,
};
use federation_core::notify::{ContentKind, UserOperationCrud};
use federation_core::protocol::{
    ActivityKind, AnnouncableActivities, BlockUser, CollectionAdd, CollectionRemove, Delete,
    UndoBlockUser, UndoDelete,
};
use federation_core::store::Store;
use federation_core::undo_block_user::unban;
use federation_core::urls::{contains_url, domain_is, domains_equal, ObjectUrl, UrlError};

const PUBLIC: &str = "https://www.w3.org/ns/activitystreams#Public";

fn url(text: &str) -> ObjectUrl {
    ObjectUrl::parse(text).unwrap()
}

fn person(id: &str, name: &str, local: bool) -> Person {
    Person {
        actor_id: url(id),
        name: name.to_string(),
        local,
        admin: false,
        banned: false,
        ban_expires: None,
        inbox_url: url(&format!("{}/inbox", id)),
        shared_inbox_url: None,
    }
}

fn community(id: &str, local: bool) -> Community {
    Community {
        actor_id: url(id),
        local,
        deleted: false,
        removed: false,
        inbox_url: url(&format!("{}/inbox", id)),
        shared_inbox_url: None,
        followers_url: url(&format!("{}/followers", id)),
        moderators_url: url(&format!("{}/moderators", id)),
        featured_url: url(&format!("{}/featured", id)),
    }
}

fn post(id: &str, community: usize, creator: usize) -> Post {
    Post {
        ap_id: url(id),
        community,
        creator,
        deleted: false,
        removed: false,
        featured_community: false,
    }
}

fn comment(id: &str, post: usize, creator: usize, parent: Option<usize>) -> Comment {
    Comment {
        ap_id: url(id),
        post,
        creator,
        parent,
        content: "hello".to_string(),
        deleted: false,
        removed: false,
    }
}

/// An instance `home.example` that knows a remote instance `away.example`.
///
/// persons: 0 mod (away, administrator), 1 spammer (away), 2 alice (home),
/// 3 bob (home), 4 carol (away)
/// communities: 0 `c/news` (away, remote), 1 `c/local` (home, local)
/// posts: 0 in community 0 by person 1; 1 in community 1 by person 2
fn fixture() -> Store {
    let mut s = Store::new("home.example".to_string(), "https://home.example".to_string());
    s.persons.push(person("https://away.example/u/mod", "mod", false));
    s.persons[0].admin = true;
    s.persons.push(person("https://away.example/u/spammer", "spammer", false));
    s.persons.push(person("https://home.example/u/alice", "alice", true));
    s.persons.push(person("https://home.example/u/bob", "bob", true));
    s.persons.push(person("https://away.example/u/carol", "carol", false));
    s.communities.push(community("https://away.example/c/news", false));
    s.communities.push(community("https://home.example/c/local", true));
    s.sites.push(Site {
        actor_id: url("https://home.example/"),
        local: true,
        inbox_url: url("https://home.example/inbox"),
    });
    s.sites.push(Site {
        actor_id: url("https://away.example/"),
        local: false,
        inbox_url: url("https://away.example/inbox"),
    });
    s.posts.push(post("https://away.example/post/123", 0, 1));
    s.posts.push(post("https://home.example/post/7", 1, 2));
    s.comments.push(comment("https://away.example/comment/5", 0, 1, None));
    s.private_messages.push(PrivateMessage {
        ap_id: url("https://away.example/private_message/9"),
        creator: 1,
        recipient: 2,
        content: "psst".to_string(),
        deleted: false,
    });
    s.moderators.push(Membership { community: 0, person: 0 });
    s.moderators.push(Membership { community: 1, person: 2 });
    s.community_followers.push(Membership { community: 0, person: 1 });
    s.community_followers.push(Membership { community: 0, person: 2 });
    s.community_followers.push(Membership { community: 1, person: 1 });
    s.community_followers.push(Membership { community: 1, person: 4 });
    s.community_followers.push(Membership { community: 1, person: 3 });
    s.person_followers.push(PersonFollow { person: 2, follower: 4 });
    s.person_followers.push(PersonFollow { person: 2, follower: 0 });
    s
}

fn community_ban(reason: Option<&str>, id: &str) -> BlockUser {
    BlockUser {
        actor: url("https://away.example/u/mod"),
        to: vec![url(PUBLIC)],
        object: url("https://away.example/u/spammer"),
        cc: vec![url("https://away.example/c/news")],
        target: url("https://away.example/c/news"),
        remove_data: None,
        summary: reason.map(|r| r.to_string()),
        expires: None,
        id: url(id),
        audience: Some(url("https://away.example/c/news")),
    }
}

fn site_ban(object: &str) -> BlockUser {
    BlockUser {
        actor: url("https://away.example/u/mod"),
        to: vec![url(PUBLIC)],
        object: url(object),
        cc: vec![],
        target: url("https://away.example/"),
        remove_data: Some(true),
        summary: Some("abuse".to_string()),
        expires: Some(1_700_000_000),
        id: url("https://away.example/activities/block/site-1"),
        audience: None,
    }
}

fn delete_of(object: &str, actor: &str, summary: Option<&str>, id: &str) -> Delete {
    Delete {
        actor: url(actor),
        to: vec![url(PUBLIC)],
        object: url(object),
        cc: vec![],
        summary: summary.map(|r| r.to_string()),
        id: url(id),
        audience: None,
    }
}

fn add_mod(object: &str, id: &str) -> CollectionAdd {
    CollectionAdd {
        actor: url("https://away.example/u/mod"),
        to: vec![url(PUBLIC)],
        object: url(object),
        target: url("https://away.example/c/news/moderators"),
        cc: vec![url("https://away.example/c/news")],
        id: url(id),
        audience: Some(url("https://away.example/c/news")),
    }
}

fn pairs(rows: &Vec<Membership>, community: usize, person: usize) -> usize {
    rows.iter().filter(|m| m.community == community && m.person == person).count()
}

// ---- identifiers ----

#[test]
fn parse_keeps_the_serialization_not_the_input() {
    let u = ObjectUrl::parse("HTTPS://Away.Example").unwrap();
    assert_eq!(u.as_str(), "https://away.example/");
    assert_eq!(u.domain().as_deref(), Some("away.example"));
}

#[test]
fn parse_rejects_what_is_no_absolute_url() {
    assert!(matches!(ObjectUrl::parse("not a url"), Err(UrlError::Malformed)));
    assert!(matches!(ObjectUrl::parse("/relative/path"), Err(UrlError::Malformed)));
}

#[test]
fn an_address_is_no_domain() {
    let u = url("http://127.0.0.1:8536/u/x");
    assert_eq!(u.domain().as_deref(), None);
    let m = url("mailto:someone@away.example");
    assert_eq!(m.domain().as_deref(), None);
}

#[test]
fn public_marker_has_the_documented_text() {
    let p = ObjectUrl::public();
    assert_eq!(p.as_str(), PUBLIC);
    assert_eq!(p.domain().as_deref(), Some("www.w3.org"));
}

#[test]
fn same_compares_serializations() {
    assert!(url("https://away.example").same(&url("https://AWAY.example/")));
    assert!(!url("https://away.example/a").same(&url("https://away.example/b")));
}

#[test]
fn clone_keeps_text_and_domain() {
    let u = url("https://away.example/u/mod");
    let c = u.clone();
    assert_eq!(c.as_str(), "https://away.example/u/mod");
    assert_eq!(c.domain().as_deref(), Some("away.example"));
}

#[test]
fn domain_comparisons() {
    let a = url("https://away.example/u/mod");
    let b = url("https://away.example/post/1");
    let c = url("https://home.example/post/1");
    let one_address = url("http://10.0.0.1/a");
    let other_address = url("http://10.0.0.2/b");
    assert!(domains_equal(&a, &b));
    assert!(!domains_equal(&a, &c));
    assert!(domains_equal(&one_address, &other_address));
    assert!(!domains_equal(&a, &one_address));
    assert!(domain_is(&a, &"away.example".to_string()));
    assert!(!domain_is(&a, &"home.example".to_string()));
    assert!(!domain_is(&one_address, &"10.0.0.1".to_string()));
}

#[test]
fn contains_url_finds_by_text() {
    let list = vec![url("https://a.example/x"), url(PUBLIC)];
    assert!(contains_url(&list, &ObjectUrl::public()));
    assert!(!contains_url(&list, &url("https://a.example/y")));
    assert!(!contains_url(&vec![], &ObjectUrl::public()));
}

#[test]
fn activity_id_has_origin_kind_and_token() {
    let id = generate_activity_id(ActivityKind::Block, "https://home.example", "abc-1").unwrap();
    assert_eq!(id.as_str(), "https://home.example/activities/block/abc-1");
    let id = generate_activity_id(ActivityKind::Undo, "https://home.example", "t").unwrap();
    assert_eq!(id.as_str(), "https://home.example/activities/undo/t");
    let id = generate_activity_id(ActivityKind::Add, "https://home.example", "t").unwrap();
    assert_eq!(id.as_str(), "https://home.example/activities/add/t");
    let id = generate_activity_id(ActivityKind::Remove, "https://home.example", "t").unwrap();
    assert_eq!(id.as_str(), "https://home.example/activities/remove/t");
    let id = generate_activity_id(ActivityKind::Delete, "https://home.example", "t").unwrap();
    assert_eq!(id.as_str(), "https://home.example/activities/delete/t");
    let id = generate_activity_id(ActivityKind::Announce, "https://home.example", "t").unwrap();
    assert_eq!(id.as_str(), "https://home.example/activities/announce/t");
}

#[test]
fn activity_id_needs_a_usable_origin() {
    let r = generate_activity_id(ActivityKind::Block, "home.example without scheme", "abc");
    assert!(matches!(r, Err(FederationError::InvalidUrl)));
}

#[test]
fn collection_urls_hang_under_the_community() {
    let c = url("https://away.example/c/news");
    assert_eq!(
        generate_moderators_url(&c).unwrap().as_str(),
        "https://away.example/c/news/moderators"
    );
    assert_eq!(
        generate_featured_url(&c).unwrap().as_str(),
        "https://away.example/c/news/featured"
    );
}

// ---- predicates ----

#[test]
fn public_audience_in_to_or_cc() {
    let p = vec![url(PUBLIC)];
    let other = vec![url("https://away.example/c/news")];
    assert_eq!(verify_is_public(&p, &other), Ok(()));
    assert_eq!(verify_is_public(&other, &p), Ok(()));
    assert_eq!(verify_is_public(&other, &other), Err(FederationError::AudienceMissing));
    assert_eq!(verify_is_public(&vec![], &vec![]), Err(FederationError::AudienceMissing));
}

#[test]
fn domains_must_match() {
    let a = url("https://away.example/u/mod");
    assert_eq!(verify_domains_match(&a, &url("https://away.example/post/1")), Ok(()));
    assert_eq!(
        verify_domains_match(&a, &url("https://home.example/post/1")),
        Err(FederationError::DomainMismatch)
    );
}

#[test]
fn person_checks() {
    let mut s = fixture();
    assert_eq!(verify_person(&s, &url("https://away.example/u/mod")), Ok(0));
    assert_eq!(
        verify_person(&s, &url("https://away.example/u/nobody")),
        Err(FederationError::ActorUnresolvable)
    );
    s.persons[1].banned = true;
    assert_eq!(
        verify_person(&s, &url("https://away.example/u/spammer")),
        Err(FederationError::NotAMember)
    );
    assert_eq!(
        verify_person_in_community(&s, &url("https://away.example/u/spammer"), 0),
        Err(FederationError::NotAMember)
    );
    assert_eq!(verify_person_in_community(&s, &url("https://away.example/u/carol"), 0), Ok(4));
    s.community_bans.push(CommunityBan { community: 0, person: 4, expires: None });
    assert_eq!(
        verify_person_in_community(&s, &url("https://away.example/u/carol"), 0),
        Err(FederationError::NotAMember)
    );
    assert_eq!(verify_person_in_community(&s, &url("https://away.example/u/carol"), 1), Ok(4));
}

#[test]
fn authorization_succeeds_exactly_for_moderators() {
    let s = fixture();
    assert_eq!(verify_mod_action(&s, &url("https://away.example/u/mod"), 0), Ok(0));
    assert_eq!(
        verify_mod_action(&s, &url("https://away.example/u/mod"), 1),
        Err(FederationError::NotAModerator)
    );
    assert_eq!(
        verify_mod_action(&s, &url("https://away.example/u/carol"), 0),
        Err(FederationError::NotAModerator)
    );
    assert_eq!(verify_mod_action(&s, &url("https://home.example/u/alice"), 1), Ok(2));
    assert_eq!(
        verify_mod_action(&s, &url("https://away.example/u/ghost"), 0),
        Err(FederationError::ActorUnresolvable)
    );
}

// ---- resolver ----

#[test]
fn resolver_probes_kinds_in_order() {
    let mut s = fixture();
    let r = DeletableObjects::read_from_db(&url("https://away.example/c/news"), &s).unwrap();
    assert!(matches!(r, DeletableObjects::Community(0, _)));
    let r = DeletableObjects::read_from_db(&url("https://away.example/post/123"), &s).unwrap();
    assert!(matches!(r, DeletableObjects::Post(0, _)));
    assert_eq!(r.id().as_str(), "https://away.example/post/123");
    let r = DeletableObjects::read_from_db(&url("https://away.example/comment/5"), &s).unwrap();
    assert!(matches!(r, DeletableObjects::Comment(0, _)));
    let r = DeletableObjects::read_from_db(&url("https://away.example/private_message/9"), &s)
        .unwrap();
    assert!(matches!(r, DeletableObjects::PrivateMessage(0, _)));
    let r = DeletableObjects::read_from_db(&url("https://away.example/post/404"), &s);
    assert!(matches!(r, Err(FederationError::NotFound)));
    // an identifier known as community and as post resolves to the community
    s.posts.push(post("https://away.example/c/news", 0, 1));
    let r = DeletableObjects::read_from_db(&url("https://away.example/c/news"), &s).unwrap();
    assert!(matches!(r, DeletableObjects::Community(0, _)));
}

// ---- deletion ----

#[test]
fn delete_twice_changes_state_once() {
    let mut s = fixture();
    let object = url("https://away.example/post/123");
    let actor = url("https://away.example/u/spammer");
    let first = receive_delete_action(&mut s, &object, &actor, true, "t1").unwrap();
    assert!(s.posts[0].deleted);
    let update = first.update.unwrap();
    assert_eq!(update.kind, ContentKind::Post);
    assert_eq!(update.row, 0);
    assert_eq!(update.op, UserOperationCrud::DeletePost);
    assert!(first.relay.is_none());
    let second = receive_delete_action(&mut s, &object, &actor, true, "t2").unwrap();
    assert!(s.posts[0].deleted);
    assert!(second.update.is_none());
    assert!(second.relay.is_none());
}

#[test]
fn delete_of_already_deleted_post_writes_nothing() {
    let mut s = fixture();
    s.posts[0].deleted = true;
    let object = url("https://away.example/post/123");
    let actor = url("https://away.example/u/spammer");
    let r = receive_delete_action(&mut s, &object, &actor, true, "t").unwrap();
    assert!(r.update.is_none());
    assert!(r.relay.is_none());
    assert!(s.posts[0].deleted);
    assert!(!s.posts[1].deleted);
}

#[test]
fn undo_delete_restores() {
    let mut s = fixture();
    s.comments[0].deleted = true;
    let object = url("https://away.example/comment/5");
    let actor = url("https://away.example/u/spammer");
    let r = receive_delete_action(&mut s, &object, &actor, false, "t").unwrap();
    assert!(!s.comments[0].deleted);
    assert_eq!(r.update.unwrap().op, UserOperationCrud::DeleteComment);
}

#[test]
fn delete_of_private_message_tells_local_sessions() {
    let mut s = fixture();
    let object = url("https://away.example/private_message/9");
    let actor = url("https://away.example/u/spammer");
    let r = receive_delete_action(&mut s, &object, &actor, true, "t").unwrap();
    assert!(s.private_messages[0].deleted);
    let update = r.update.unwrap();
    assert_eq!(update.kind, ContentKind::PrivateMessage);
    assert_eq!(update.op, UserOperationCrud::DeletePrivateMessage);
}

#[test]
fn delete_of_unknown_object_is_not_found() {
    let mut s = fixture();
    let r = receive_delete_action(
        &mut s,
        &url("https://away.example/post/404"),
        &url("https://away.example/u/spammer"),
        true,
        "t",
    );
    assert!(matches!(r, Err(FederationError::NotFound)));
}

#[test]
fn delete_of_local_community_is_relayed_to_its_followers() {
    let mut s = fixture();
    let object = url("https://home.example/c/local");
    let actor = url("https://home.example/u/alice");
    let r = receive_delete_action(&mut s, &object, &actor, true, "relay-1").unwrap();
    assert!(s.communities[1].deleted);
    assert_eq!(r.update.unwrap().op, UserOperationCrud::DeleteCommunity);
    let relay = r.relay.unwrap();
    assert_eq!(relay.announcer, Some(1));
    // three followers of the community by announcement, two followers of alice directly
    assert_eq!(relay.deliveries.len(), 5);
    assert_eq!(relay.deliveries[0].envelope, Envelope::Announce);
    assert_eq!(relay.deliveries[0].inbox.as_str(), "https://away.example/u/spammer/inbox");
    assert_eq!(relay.deliveries[2].inbox.as_str(), "https://home.example/u/bob/inbox");
    assert_eq!(relay.deliveries[3].envelope, Envelope::Direct);
    match relay.activity {
        AnnouncableActivities::Delete(d) => {
            assert_eq!(d.id.as_str(), "https://home.example/activities/delete/relay-1");
            assert_eq!(d.actor.as_str(), "https://home.example/u/alice");
            assert_eq!(d.object.as_str(), "https://home.example/c/local");
            assert_eq!(d.to.len(), 1);
            assert_eq!(d.to[0].as_str(), PUBLIC);
            assert!(d.summary.is_none());
            assert_eq!(d.audience.unwrap().as_str(), "https://home.example/c/local");
            assert_eq!(d.cc.len(), 2);
            assert_eq!(d.cc[0].as_str(), "https://home.example/c/local");
            assert_eq!(d.cc[1].as_str(), "https://home.example/c/local/followers");
        }
        _ => panic!("a deletion is relayed as a deletion"),
    }
    // the second time nothing happens
    let again = receive_delete_action(&mut s, &object, &actor, true, "relay-2").unwrap();
    assert!(again.relay.is_none() && again.update.is_none());
}

#[test]
fn delete_of_local_community_needs_a_known_actor() {
    let mut s = fixture();
    let r = receive_delete_action(
        &mut s,
        &url("https://home.example/c/local"),
        &url("https://home.example/u/ghost"),
        true,
        "t",
    );
    assert!(matches!(r, Err(FederationError::ActorUnresolvable)));
    assert!(!s.communities[1].deleted);
}

#[test]
fn verify_delete_by_author_needs_the_objects_domain() {
    let s = fixture();
    let ok = delete_of(
        "https://away.example/post/123",
        "https://away.example/u/spammer",
        None,
        "https://away.example/activities/delete/1",
    );
    assert_eq!(verify_delete_activity(&s, &ok, false), Ok(()));
    let foreign = delete_of(
        "https://away.example/post/123",
        "https://home.example/u/alice",
        None,
        "https://home.example/activities/delete/1",
    );
    assert_eq!(verify_delete_activity(&s, &foreign, false), Err(FederationError::DomainMismatch));
}

#[test]
fn verify_removal_needs_a_moderator() {
    let s = fixture();
    let by_mod = delete_of(
        "https://away.example/post/123",
        "https://away.example/u/mod",
        Some("spam"),
        "https://away.example/activities/delete/2",
    );
    assert_eq!(verify_delete_activity(&s, &by_mod, true), Ok(()));
    let by_other = delete_of(
        "https://away.example/post/123",
        "https://away.example/u/carol",
        Some("spam"),
        "https://away.example/activities/delete/3",
    );
    assert_eq!(verify_delete_activity(&s, &by_other, true), Err(FederationError::NotAModerator));
}

#[test]
fn verify_delete_checks_run_in_order() {
    let s = fixture();
    // unknown object comes first
    let mut d = delete_of(
        "https://away.example/post/404",
        "https://away.example/u/ghost",
        None,
        "https://away.example/activities/delete/4",
    );
    d.to = vec![];
    assert_eq!(verify_delete_activity(&s, &d, false), Err(FederationError::NotFound));
    // then the audience
    let mut d = delete_of(
        "https://away.example/post/123",
        "https://away.example/u/ghost",
        None,
        "https://away.example/activities/delete/5",
    );
    d.to = vec![url("https://away.example/c/news")];
    assert_eq!(verify_delete_activity(&s, &d, false), Err(FederationError::AudienceMissing));
    // which may be named in either list
    let mut d = delete_of(
        "https://away.example/post/123",
        "https://away.example/u/spammer",
        None,
        "https://away.example/activities/delete/5",
    );
    d.to = vec![url("https://away.example/c/news")];
    d.cc = vec![url(PUBLIC)];
    assert_eq!(verify_delete_activity(&s, &d, false), Ok(()));
    // then the audience community
    let mut d = delete_of(
        "https://away.example/post/123",
        "https://away.example/u/ghost",
        None,
        "https://away.example/activities/delete/6",
    );
    d.audience = Some(url("https://home.example/c/local"));
    assert_eq!(verify_delete_activity(&s, &d, false), Err(FederationError::CommunityMismatch));
    // then the actor
    let d = delete_of(
        "https://away.example/post/123",
        "https://away.example/u/ghost",
        None,
        "https://away.example/activities/delete/7",
    );
    assert_eq!(verify_delete_activity(&s, &d, false), Err(FederationError::ActorUnresolvable));
}

#[test]
fn verify_delete_of_private_message_needs_no_public_audience() {
    let s = fixture();
    let mut d = delete_of(
        "https://away.example/private_message/9",
        "https://away.example/u/spammer",
        None,
        "https://away.example/activities/delete/8",
    );
    d.to = vec![url("https://home.example/u/alice")];
    assert_eq!(verify_delete_activity(&s, &d, false), Ok(()));
    d.actor = url("https://home.example/u/alice");
    assert_eq!(verify_delete_activity(&s, &d, false), Err(FederationError::DomainMismatch));
}

#[test]
fn verify_community_deletion_is_a_moderators_action() {
    let s = fixture();
    let d = delete_of(
        "https://home.example/c/local",
        "https://home.example/u/alice",
        None,
        "https://home.example/activities/delete/9",
    );
    assert_eq!(verify_delete_activity(&s, &d, false), Ok(()));
    let d = delete_of(
        "https://home.example/c/local",
        "https://home.example/u/bob",
        None,
        "https://home.example/activities/delete/10",
    );
    assert_eq!(verify_delete_activity(&s, &d, false), Err(FederationError::NotAModerator));
}

#[test]
fn removal_sets_flag_and_logs() {
    let mut s = fixture();
    let id = url("https://away.example/activities/delete/80");
    let update = receive_remove_action(
        &mut s,
        &id,
        &url("https://away.example/u/mod"),
        &url("https://away.example/post/123"),
        Some("spam".to_string()),
        true,
    )
    .unwrap()
    .unwrap();
    assert_eq!(update.kind, ContentKind::Post);
    assert!(s.posts[0].removed);
    assert!(!s.posts[0].deleted);
    assert_eq!(s.mod_log.len(), 1);
    assert_eq!(s.mod_log[0].action, ModAction::Remove);
    assert_eq!(s.mod_log[0].moderator, 0);
    assert_eq!(s.mod_log[0].target, LogTarget::Post(0));
    assert_eq!(s.mod_log[0].scope, Scope::Community(0));
    assert_eq!(s.mod_log[0].reason.as_deref(), Some("spam"));
    // the same removal again writes and logs nothing
    let again = receive_remove_action(
        &mut s,
        &id,
        &url("https://away.example/u/mod"),
        &url("https://away.example/post/123"),
        Some("spam".to_string()),
        true,
    );
    assert_eq!(again, Ok(None));
    assert_eq!(s.mod_log.len(), 1);
}

#[test]
fn removal_of_local_community_from_afar_is_refused() {
    let mut s = fixture();
    let r = receive_remove_action(
        &mut s,
        &url("https://away.example/activities/delete/81"),
        &url("https://away.example/u/mod"),
        &url("https://home.example/c/local"),
        None,
        true,
    );
    assert!(matches!(r, Err(FederationError::NotAModerator)));
    assert!(!s.communities[1].removed);
    assert_eq!(s.mod_log.len(), 0);
}

// ---- bans ----

#[test]
fn site_ban_of_home_user_is_rejected() {
    let s = fixture();
    let ban = site_ban("https://home.example/u/alice");
    assert_eq!(ban.verify(&s), Err(FederationError::SelfBanOnHomeInstance));
}

#[test]
fn site_ban_of_home_user_is_rejected_even_without_other_faults() {
    let mut s = fixture();
    // even if the banning instance claimed the home domain as its own
    s.sites[1].actor_id = url("https://home.example/");
    let mut ban = site_ban("https://home.example/u/alice");
    ban.target = url("https://home.example/");
    ban.actor = url("https://home.example/u/bob");
    assert!(ban.verify(&s).is_err());
}

#[test]
fn site_ban_needs_actor_and_object_of_the_banning_instance() {
    let mut s = fixture();
    s.persons.push(person("https://third.example/u/admin", "admin", false));
    s.persons[5].admin = true;
    assert_eq!(site_ban("https://away.example/u/spammer").verify(&s), Ok(()));
    let mut ban = site_ban("https://away.example/u/spammer");
    ban.actor = url("https://third.example/u/admin");
    assert_eq!(ban.verify(&s), Err(FederationError::DomainMismatch));
    let mut ban = site_ban("https://away.example/u/spammer");
    ban.actor = url("https://third.example/u/nobody");
    assert_eq!(ban.verify(&s), Err(FederationError::ActorUnresolvable));
    let ban = site_ban("https://third.example/u/x");
    assert_eq!(ban.verify(&s), Err(FederationError::DomainMismatch));
}

#[test]
fn ban_verification_order() {
    let s = fixture();
    let mut ban = community_ban(None, "https://away.example/activities/block/1");
    ban.to = vec![];
    ban.cc = vec![];
    ban.target = url("https://away.example/c/unknown");
    assert_eq!(ban.verify(&s), Err(FederationError::AudienceMissing));
    let mut ban = community_ban(None, "https://away.example/activities/block/1");
    ban.target = url("https://away.example/c/unknown");
    assert_eq!(ban.verify(&s), Err(FederationError::NotFound));
    // the actor is asked for before the target
    let mut ban = community_ban(None, "https://away.example/activities/block/1");
    ban.target = url("https://away.example/c/unknown");
    ban.actor = url("https://away.example/u/ghost");
    assert_eq!(ban.verify(&s), Err(FederationError::ActorUnresolvable));
    let mut ban = community_ban(None, "https://away.example/activities/block/1");
    ban.actor = url("https://away.example/u/ghost");
    assert_eq!(ban.verify(&s), Err(FederationError::ActorUnresolvable));
    let mut ban = community_ban(None, "https://away.example/activities/block/1");
    ban.actor = url("https://away.example/u/carol");
    assert_eq!(ban.verify(&s), Err(FederationError::NotAModerator));
    let ban = community_ban(None, "https://away.example/activities/block/1");
    assert_eq!(ban.verify(&s), Ok(()));
    let mut ban = community_ban(None, "https://away.example/activities/block/1");
    ban.to = vec![];
    ban.cc = vec![url(PUBLIC)];
    assert_eq!(ban.verify(&s), Ok(()));
}

#[test]
fn community_ban_scenario() {
    let mut s = fixture();
    let id = "https://away.example/activities/block/77";
    let r = receive_activity(
        &mut s,
        AnnouncableActivities::BlockUser(community_ban(Some("spam"), id)),
        "t",
    );
    assert!(matches!(r, Ok(Applied::Changed)));
    // banned in the community
    assert_eq!(s.community_bans, vec![CommunityBan { community: 0, person: 1, expires: None }]);
    // no longer a follower of it, but still of the other community
    assert_eq!(pairs(&s.community_followers, 0, 1), 0);
    assert_eq!(pairs(&s.community_followers, 0, 2), 1);
    assert_eq!(pairs(&s.community_followers, 1, 1), 1);
    // one log row
    assert_eq!(s.mod_log.len(), 1);
    assert_eq!(s.mod_log[0].action, ModAction::Ban);
    assert_eq!(s.mod_log[0].moderator, 0);
    assert_eq!(s.mod_log[0].target, LogTarget::Person(1));
    assert_eq!(s.mod_log[0].scope, Scope::Community(0));
    assert_eq!(s.mod_log[0].reason.as_deref(), Some("spam"));
    assert_eq!(s.mod_log[0].expires, None);
    // content untouched without remove_data
    assert!(!s.posts[0].removed);
    // the same activity again
    let again = receive_activity(
        &mut s,
        AnnouncableActivities::BlockUser(community_ban(Some("spam"), id)),
        "t",
    );
    assert!(matches!(again, Err(FederationError::Duplicate)));
    assert_eq!(s.mod_log.len(), 1);
    assert_eq!(s.community_bans.len(), 1);
}

#[test]
fn community_ban_again_updates_expiry_in_place() {
    let mut s = fixture();
    community_ban(None, "https://away.example/activities/block/1").receive(&mut s).unwrap();
    let mut second = community_ban(None, "https://away.example/activities/block/2");
    second.expires = Some(99);
    second.receive(&mut s).unwrap();
    assert_eq!(s.community_bans, vec![CommunityBan { community: 0, person: 1, expires: Some(99) }]);
    assert_eq!(s.mod_log.len(), 2);
}

#[test]
fn community_ban_with_remove_data_removes_only_in_that_community() {
    let mut s = fixture();
    s.posts.push(post("https://home.example/post/8", 1, 1));
    s.comments.push(comment("https://home.example/comment/6", 1, 1, None));
    let mut ban = community_ban(None, "https://away.example/activities/block/3");
    ban.remove_data = Some(true);
    ban.receive(&mut s).unwrap();
    assert!(s.posts[0].removed);
    assert!(!s.posts[1].removed);
    assert!(!s.posts[2].removed);
    assert!(s.comments[0].removed);
    assert!(!s.comments[1].removed);
}

#[test]
fn site_ban_sets_flag_expiry_and_removes_content() {
    let mut s = fixture();
    s.posts.push(post("https://home.example/post/8", 1, 1));
    site_ban("https://away.example/u/spammer").receive(&mut s).unwrap();
    assert!(s.persons[1].banned);
    assert_eq!(s.persons[1].ban_expires, Some(1_700_000_000));
    assert!(!s.persons[0].banned);
    assert!(s.posts[0].removed && s.posts[2].removed);
    assert!(!s.posts[1].removed);
    assert!(s.comments[0].removed);
    assert_eq!(s.mod_log.len(), 1);
    assert_eq!(s.mod_log[0].scope, Scope::Instance);
    assert_eq!(s.mod_log[0].expires, Some(1_700_000_000));
    assert_eq!(s.mod_log[0].reason.as_deref(), Some("abuse"));
    // following is not touched by an instance-wide ban
    assert_eq!(pairs(&s.community_followers, 0, 1), 1);
}

#[test]
fn ban_of_unknown_person_changes_nothing() {
    let mut s = fixture();
    let mut ban = community_ban(None, "https://away.example/activities/block/4");
    ban.object = url("https://away.example/u/ghost");
    assert_eq!(ban.receive(&mut s), Err(FederationError::NotFound));
    let mut ban = community_ban(None, "https://away.example/activities/block/5");
    ban.actor = url("https://away.example/u/ghost");
    assert_eq!(ban.receive(&mut s), Err(FederationError::ActorUnresolvable));
    assert_eq!(s.mod_log.len(), 0);
    assert_eq!(s.community_bans.len(), 0);
}

#[test]
fn ban_is_sent_to_the_banned_and_into_the_community() {
    let s = fixture();
    // into a remote community: the banned person's inbox, then the community's
    let out = BlockUser::send(
        &SiteOrCommunity::Community(0),
        1,
        0,
        false,
        Some("spam".to_string()),
        None,
        &s,
        "tok",
    )
    .unwrap();
    assert_eq!(out.deliveries.len(), 2);
    assert_eq!(out.announcer, None);
    assert_eq!(out.deliveries[0].inbox.as_str(), "https://away.example/u/spammer/inbox");
    assert_eq!(out.deliveries[1].inbox.as_str(), "https://away.example/c/news/inbox");
    match out.activity {
        AnnouncableActivities::BlockUser(b) => {
            assert_eq!(b.id.as_str(), "https://home.example/activities/block/tok");
            assert_eq!(b.actor.as_str(), "https://away.example/u/mod");
            assert_eq!(b.object.as_str(), "https://away.example/u/spammer");
            assert_eq!(b.target.as_str(), "https://away.example/c/news");
            assert_eq!(b.audience.unwrap().as_str(), "https://away.example/c/news");
            assert_eq!(b.remove_data, Some(false));
            assert_eq!(b.summary.as_deref(), Some("spam"));
            assert_eq!(b.to[0].as_str(), PUBLIC);
            assert_eq!(b.cc.len(), 2);
            assert_eq!(b.cc[1].as_str(), "https://away.example/c/news/followers");
        }
        _ => panic!("a ban is sent as a ban"),
    }
    // instance-wide: every other instance
    let out =
        BlockUser::send(&SiteOrCommunity::Site(0), 3, 2, true, None, Some(5), &s, "tok2").unwrap();
    assert_eq!(out.deliveries.len(), 1);
    assert_eq!(out.deliveries[0].inbox.as_str(), "https://away.example/inbox");
    match out.activity {
        AnnouncableActivities::BlockUser(b) => {
            assert!(b.audience.is_none());
            assert_eq!(b.cc.len(), 1);
            assert_eq!(b.cc[0].as_str(), "https://away.example/");
            assert_eq!(b.expires, Some(5));
        }
        _ => panic!("a ban is sent as a ban"),
    }
    assert_eq!(remote_instance_inboxes(&s).len(), 1);
    // unknown rows
    let r = BlockUser::send(&SiteOrCommunity::Community(9), 1, 0, false, None, None, &s, "t");
    assert!(matches!(r, Err(FederationError::NotFound)));
}

// ---- moderators and featured posts ----

#[test]
fn add_moderator_twice_gives_one_row_and_one_log_entry() {
    let mut s = fixture();
    add_mod("https://away.example/u/carol", "https://away.example/activities/add/1")
        .receive(&mut s)
        .unwrap();
    assert_eq!(pairs(&s.moderators, 0, 4), 1);
    assert_eq!(s.mod_log.len(), 1);
    assert_eq!(s.mod_log[0].action, ModAction::AddModerator);
    assert_eq!(s.mod_log[0].target, LogTarget::Person(4));
    add_mod("https://away.example/u/carol", "https://away.example/activities/add/2")
        .receive(&mut s)
        .unwrap();
    assert_eq!(pairs(&s.moderators, 0, 4), 1);
    assert_eq!(s.mod_log.len(), 1);
}

#[test]
fn add_existing_moderator_needs_no_known_actor() {
    let mut s = fixture();
    let mut add = add_mod("https://away.example/u/mod", "https://away.example/activities/add/3");
    add.actor = url("https://away.example/u/ghost");
    assert_eq!(add.receive(&mut s), Ok(()));
    assert_eq!(s.mod_log.len(), 0);
    let mut add = add_mod("https://away.example/u/carol", "https://away.example/activities/add/4");
    add.actor = url("https://away.example/u/ghost");
    assert_eq!(add.receive(&mut s), Err(FederationError::ActorUnresolvable));
    assert_eq!(pairs(&s.moderators, 0, 4), 0);
}

#[test]
fn add_verification() {
    let s = fixture();
    let add = add_mod("https://away.example/u/carol", "https://away.example/activities/add/5");
    assert_eq!(add.verify(&s), Ok(()));
    assert_eq!(add.community(&s), Ok(0));
    let mut add = add_mod("https://away.example/u/carol", "https://away.example/activities/add/6");
    add.actor = url("https://away.example/u/carol");
    assert_eq!(add.verify(&s), Err(FederationError::NotAModerator));
    let mut add = add_mod("https://away.example/u/carol", "https://away.example/activities/add/7");
    add.target = url("https://away.example/c/other/moderators");
    assert_eq!(add.verify(&s), Err(FederationError::NotFound));
    let mut add = add_mod("https://away.example/u/carol", "https://away.example/activities/add/8");
    add.audience = Some(url("https://home.example/c/local"));
    assert_eq!(add.verify(&s), Err(FederationError::CommunityMismatch));
    let mut add = add_mod("https://away.example/u/carol", "https://away.example/activities/add/9");
    add.to = vec![];
    assert_eq!(add.verify(&s), Err(FederationError::AudienceMissing));
}

#[test]
fn featured_flag_is_overwritten() {
    let mut s = fixture();
    let mut add = add_mod("https://away.example/post/123", "https://away.example/activities/add/10");
    add.target = url("https://away.example/c/news/featured");
    add.receive(&mut s).unwrap();
    assert!(s.posts[0].featured_community);
    let again = CollectionAdd {
        actor: url("https://away.example/u/mod"),
        to: vec![url(PUBLIC)],
        object: url("https://away.example/post/123"),
        target: url("https://away.example/c/news/featured"),
        cc: vec![],
        id: url("https://away.example/activities/add/11"),
        audience: None,
    };
    again.receive(&mut s).unwrap();
    assert!(s.posts[0].featured_community);
    assert_eq!(s.mod_log.len(), 0);
    let remove = CollectionRemove {
        actor: url("https://away.example/u/mod"),
        to: vec![url(PUBLIC)],
        object: url("https://away.example/post/123"),
        cc: vec![],
        target: url("https://away.example/c/news/featured"),
        id: url("https://away.example/activities/remove/1"),
        audience: None,
    };
    assert_eq!(remove.verify(&s), Ok(()));
    remove.receive(&mut s).unwrap();
    assert!(!s.posts[0].featured_community);
}

#[test]
fn remove_moderator_drops_the_row_and_logs() {
    let mut s = fixture();
    let remove = CollectionRemove {
        actor: url("https://away.example/u/mod"),
        to: vec![url(PUBLIC)],
        object: url("https://away.example/u/mod"),
        cc: vec![],
        target: url("https://away.example/c/news/moderators"),
        id: url("https://away.example/activities/remove/2"),
        audience: Some(url("https://away.example/c/news")),
    };
    assert_eq!(remove.community(&s), Ok(0));
    remove.receive(&mut s).unwrap();
    assert_eq!(pairs(&s.moderators, 0, 0), 0);
    assert_eq!(pairs(&s.moderators, 1, 2), 1);
    assert_eq!(s.mod_log.len(), 1);
    assert_eq!(s.mod_log[0].action, ModAction::RemoveModerator);
}

#[test]
fn collection_remove_community_checks_the_audience() {
    let s = fixture();
    let remove = CollectionRemove {
        actor: url("https://away.example/u/mod"),
        to: vec![url(PUBLIC)],
        object: url("https://away.example/u/mod"),
        cc: vec![],
        target: url("https://away.example/c/news/moderators"),
        id: url("https://away.example/activities/remove/3"),
        audience: Some(url("https://home.example/c/local")),
    };
    assert_eq!(remove.community(&s), Err(FederationError::CommunityMismatch));
    let remove = CollectionRemove {
        actor: url("https://away.example/u/mod"),
        to: vec![url(PUBLIC)],
        object: url("https://away.example/u/mod"),
        cc: vec![],
        target: url("https://away.example/c/nothing"),
        id: url("https://away.example/activities/remove/4"),
        audience: None,
    };
    assert_eq!(remove.community(&s), Err(FederationError::NotFound));
}

#[test]
fn add_mod_is_sent_to_the_new_moderator_and_the_community() {
    let s = fixture();
    let out = CollectionAdd::send_add_mod(1, 3, 2, &s, "tok").unwrap();
    assert_eq!(out.announcer, Some(1));
    // bob's inbox, then the three followers of the local community; no personal followers
    assert_eq!(out.deliveries.len(), 4);
    assert_eq!(out.deliveries[0].inbox.as_str(), "https://home.example/u/bob/inbox");
    assert_eq!(out.deliveries[0].envelope, Envelope::Direct);
    assert_eq!(out.deliveries[1].envelope, Envelope::Announce);
    match out.activity {
        AnnouncableActivities::CollectionAdd(a) => {
            assert_eq!(a.id.as_str(), "https://home.example/activities/add/tok");
            assert_eq!(a.object.as_str(), "https://home.example/u/bob");
            assert_eq!(a.target.as_str(), "https://home.example/c/local/moderators");
            assert_eq!(a.actor.as_str(), "https://home.example/u/alice");
            assert_eq!(a.audience.unwrap().as_str(), "https://home.example/c/local");
        }
        _ => panic!("an addition is sent as an addition"),
    }
    let out = CollectionAdd::send_add_featured_post(1, 1, 2, &s, "tok").unwrap();
    assert_eq!(out.deliveries.len(), 3);
    match out.activity {
        AnnouncableActivities::CollectionAdd(a) => {
            assert_eq!(a.object.as_str(), "https://home.example/post/7");
            assert_eq!(a.target.as_str(), "https://home.example/c/local/featured");
        }
        _ => panic!("an addition is sent as an addition"),
    }
    assert!(matches!(
        CollectionAdd::send_add_mod(1, 30, 2, &s, "tok"),
        Err(FederationError::NotFound)
    ));
}

// ---- fan-out ----

#[test]
fn fan_out_of_mod_action_in_local_community_is_extra_plus_followers() {
    let s = fixture();
    let extra = vec![url("https://x.example/inbox"), url("https://y.example/inbox")];
    let d = send_activity_in_community(&s, 2, 1, extra, true).unwrap();
    assert_eq!(d.len(), 2 + 3);
    assert_eq!(d[0].inbox.as_str(), "https://x.example/inbox");
    assert_eq!(d[1].inbox.as_str(), "https://y.example/inbox");
    assert!(d[..2].iter().all(|x| x.envelope == Envelope::Direct));
    assert!(d[2..].iter().all(|x| x.envelope == Envelope::Announce));
    assert_eq!(d[3].inbox.as_str(), "https://away.example/u/carol/inbox");
}

#[test]
fn fan_out_of_other_action_adds_the_actors_followers() {
    let s = fixture();
    let extra = vec![url("https://x.example/inbox")];
    let d = send_activity_in_community(&s, 2, 1, extra, false).unwrap();
    assert_eq!(d.len(), 1 + 3 + 2);
    assert_eq!(d[4].inbox.as_str(), "https://away.example/u/carol/inbox");
    assert_eq!(d[5].inbox.as_str(), "https://away.example/u/mod/inbox");
    assert_eq!(d[5].envelope, Envelope::Direct);
}

#[test]
fn fan_out_to_remote_community_goes_to_its_inbox() {
    let mut s = fixture();
    s.communities[0].shared_inbox_url = Some(url("https://away.example/inbox"));
    let d = send_activity_in_community(&s, 2, 0, vec![], true).unwrap();
    assert_eq!(d.len(), 1);
    assert_eq!(d[0].inbox.as_str(), "https://away.example/inbox");
    assert_eq!(d[0].envelope, Envelope::Direct);
    let d = send_activity_in_community(&s, 2, 0, vec![], false).unwrap();
    assert_eq!(d.len(), 3);
}

#[test]
fn fan_out_with_nobody_to_reach() {
    let mut s = fixture();
    s.community_followers.clear();
    let d = send_activity_in_community(&s, 3, 1, vec![], false).unwrap();
    assert_eq!(d.len(), 0);
    assert!(matches!(
        send_activity_in_community(&s, 3, 5, vec![], false),
        Err(FederationError::NotFound)
    ));
}

#[test]
fn delivery_failures_are_collected() {
    assert_eq!(collect_outcomes(&vec![]), DispatchReport::Delivered);
    assert_eq!(collect_outcomes(&vec![true, true]), DispatchReport::Delivered);
    assert_eq!(
        collect_outcomes(&vec![true, false, true, false]),
        DispatchReport::PartialFailure(vec![1, 3])
    );
}

// ---- inbound pipeline ----

#[test]
fn rejected_activity_leaves_no_trace_and_may_come_again() {
    let mut s = fixture();
    s.moderators.clear();
    let id = "https://away.example/activities/block/90";
    let r = receive_activity(&mut s, AnnouncableActivities::BlockUser(community_ban(None, id)), "t");
    assert!(matches!(r, Err(FederationError::NotAModerator)));
    assert_eq!(s.community_bans.len(), 0);
    assert_eq!(s.mod_log.len(), 0);
    assert_eq!(s.applied.len(), 0);
    // once what stood in its way is gone, the same activity is applied
    s.moderators.push(Membership { community: 0, person: 0 });
    let r = receive_activity(&mut s, AnnouncableActivities::BlockUser(community_ban(None, id)), "t");
    assert!(matches!(r, Ok(Applied::Changed)));
    assert_eq!(s.community_bans.len(), 1);
    assert_eq!(s.applied.len(), 1);
    assert_eq!(s.applied[0].as_str(), id);
    // and from then on it is a duplicate
    let r = receive_activity(&mut s, AnnouncableActivities::BlockUser(community_ban(None, id)), "t");
    assert!(matches!(r, Err(FederationError::Duplicate)));
    assert_eq!(s.mod_log.len(), 1);
}

#[test]
fn activity_that_cannot_be_applied_is_not_remembered() {
    let mut s = fixture();
    let mut ban = community_ban(None, "https://away.example/activities/block/91");
    ban.object = url("https://away.example/u/ghost");
    let r = receive_activity(&mut s, AnnouncableActivities::BlockUser(ban), "t");
    assert!(matches!(r, Err(FederationError::NotFound)));
    assert_eq!(s.applied.len(), 0);
}

#[test]
fn delete_and_undo_through_the_inbox() {
    let mut s = fixture();
    let d = delete_of(
        "https://away.example/post/123",
        "https://away.example/u/spammer",
        None,
        "https://away.example/activities/delete/50",
    );
    let r = receive_activity(&mut s, AnnouncableActivities::Delete(d), "t").unwrap();
    match r {
        Applied::Deleted(o) => assert!(o.update.is_some()),
        _ => panic!("an author's deletion"),
    }
    assert!(s.posts[0].deleted);
    let undo = UndoDelete {
        actor: url("https://away.example/u/spammer"),
        to: vec![url(PUBLIC)],
        object: delete_of(
            "https://away.example/post/123",
            "https://away.example/u/spammer",
            None,
            "https://away.example/activities/delete/50",
        ),
        cc: vec![],
        id: url("https://away.example/activities/undo/51"),
        audience: None,
    };
    let r = receive_activity(&mut s, AnnouncableActivities::UndoDelete(undo), "t").unwrap();
    assert!(matches!(r, Applied::Deleted(_)));
    assert!(!s.posts[0].deleted);
}

#[test]
fn removal_through_the_inbox_drops_an_empty_reason() {
    let mut s = fixture();
    let d = delete_of(
        "https://away.example/post/123",
        "https://away.example/u/mod",
        Some(""),
        "https://away.example/activities/delete/60",
    );
    let r = receive_activity(&mut s, AnnouncableActivities::Delete(d), "t").unwrap();
    assert!(matches!(r, Applied::Removed(_)));
    assert!(s.posts[0].removed);
    assert_eq!(s.mod_log.len(), 1);
    assert!(s.mod_log[0].reason.is_none());
}

#[test]
fn undo_by_another_actor_is_rejected() {
    let mut s = fixture();
    s.posts[0].deleted = true;
    let undo = UndoDelete {
        actor: url("https://away.example/u/carol"),
        to: vec![url(PUBLIC)],
        object: delete_of(
            "https://away.example/post/123",
            "https://away.example/u/spammer",
            None,
            "https://away.example/activities/delete/70",
        ),
        cc: vec![],
        id: url("https://away.example/activities/undo/71"),
        audience: None,
    };
    assert_eq!(undo.verify(&s), Err(FederationError::DomainMismatch));
}

// ---- lifting of bans, and their expiry ----

fn undo_of(ban: BlockUser, id: &str) -> UndoBlockUser {
    UndoBlockUser {
        actor: url("https://away.example/u/mod"),
        to: vec![url(PUBLIC)],
        cc: ban.cc.clone(),
        audience: ban.audience.clone(),
        object: ban,
        id: url(id),
    }
}

#[test]
fn undo_of_community_ban_clears_it_and_logs() {
    let mut s = fixture();
    community_ban(Some("spam"), "https://away.example/activities/block/1").receive(&mut s).unwrap();
    let undo = undo_of(
        community_ban(Some("spam"), "https://away.example/activities/block/1"),
        "https://away.example/activities/undo/1",
    );
    assert_eq!(undo.verify(&s), Ok(()));
    undo.receive(&mut s).unwrap();
    assert!(s.community_bans.is_empty());
    assert_eq!(s.mod_log.len(), 2);
    assert_eq!(s.mod_log[1].action, ModAction::Unban);
    assert_eq!(s.mod_log[1].target, LogTarget::Person(1));
    assert_eq!(s.mod_log[1].scope, Scope::Community(0));
    assert_eq!(s.mod_log[1].reason.as_deref(), Some("spam"));
    // the following that the ban ended does not come back by itself
    assert_eq!(pairs(&s.community_followers, 0, 1), 0);
    assert_eq!(
        verify_person_in_community(&s, &url("https://away.example/u/spammer"), 0),
        Ok(1)
    );
}

#[test]
fn undo_of_site_ban_clears_flag_and_expiry() {
    let mut s = fixture();
    site_ban("https://away.example/u/spammer").receive(&mut s).unwrap();
    assert!(s.persons[1].banned);
    let undo = undo_of(
        site_ban("https://away.example/u/spammer"),
        "https://away.example/activities/undo/2",
    );
    let r = receive_activity(&mut s, AnnouncableActivities::UndoBlockUser(undo), "t");
    assert!(matches!(r, Ok(Applied::Changed)));
    assert!(!s.persons[1].banned);
    assert_eq!(s.persons[1].ban_expires, None);
    assert_eq!(s.mod_log[1].action, ModAction::Unban);
    assert_eq!(s.mod_log[1].scope, Scope::Instance);
    // removed content stays removed
    assert!(s.posts[0].removed);
}

#[test]
fn undo_of_ban_is_verified_like_the_ban() {
    let s = fixture();
    let mut undo = undo_of(
        community_ban(None, "https://away.example/activities/block/1"),
        "https://away.example/activities/undo/3",
    );
    undo.actor = url("https://home.example/u/alice");
    assert_eq!(undo.verify(&s), Err(FederationError::DomainMismatch));
    let mut undo = undo_of(
        community_ban(None, "https://away.example/activities/block/1"),
        "https://away.example/activities/undo/4",
    );
    undo.to = vec![];
    undo.cc = vec![];
    assert_eq!(undo.verify(&s), Err(FederationError::AudienceMissing));
    let mut ban = community_ban(None, "https://away.example/activities/block/1");
    ban.actor = url("https://away.example/u/carol");
    let undo = undo_of(ban, "https://away.example/activities/undo/5");
    assert_eq!(undo.verify(&s), Err(FederationError::NotAModerator));
    let undo = undo_of(
        site_ban("https://home.example/u/alice"),
        "https://away.example/activities/undo/6",
    );
    assert_eq!(undo.verify(&s), Err(FederationError::SelfBanOnHomeInstance));
}

#[test]
fn undo_of_ban_is_sent_to_the_person_first() {
    let s = fixture();
    let out = UndoBlockUser::send(&SiteOrCommunity::Site(0), 3, 2, None, &s, "tok").unwrap();
    assert_eq!(out.deliveries.len(), 2);
    assert_eq!(out.deliveries[0].inbox.as_str(), "https://home.example/u/bob/inbox");
    assert_eq!(out.deliveries[1].inbox.as_str(), "https://away.example/inbox");
    match out.activity {
        AnnouncableActivities::UndoBlockUser(u) => {
            assert_eq!(u.id.as_str(), "https://home.example/activities/undo/tok");
            assert_eq!(u.object.id.as_str(), "https://home.example/activities/block/tok");
            assert_eq!(u.object.remove_data, None);
            assert_eq!(u.object.expires, None);
            assert_eq!(u.object.object.as_str(), "https://home.example/u/bob");
        }
        _ => panic!("the lifting of a ban"),
    }
    let out =
        UndoBlockUser::send(&SiteOrCommunity::Community(1), 3, 2, Some("ok".to_string()), &s, "tok")
            .unwrap();
    assert_eq!(out.deliveries.len(), 1 + 3);
    assert!(matches!(
        UndoBlockUser::send(&SiteOrCommunity::Community(1), 30, 2, None, &s, "tok"),
        Err(FederationError::NotFound)
    ));
}

#[test]
fn unban_drops_only_the_pair() {
    let mut bans = vec![
        CommunityBan { community: 0, person: 1, expires: None },
        CommunityBan { community: 0, person: 2, expires: Some(5) },
        CommunityBan { community: 1, person: 1, expires: None },
        CommunityBan { community: 0, person: 1, expires: Some(9) },
    ];
    unban(&mut bans, 0, 1);
    assert_eq!(
        bans,
        vec![
            CommunityBan { community: 0, person: 2, expires: Some(5) },
            CommunityBan { community: 1, person: 1, expires: None },
        ]
    );
}

#[test]
fn expired_community_ban_no_longer_bars() {
    let mut s = fixture();
    s.now = 1_000;
    s.community_bans.push(CommunityBan { community: 0, person: 4, expires: Some(1_001) });
    let carol = url("https://away.example/u/carol");
    assert_eq!(verify_person_in_community(&s, &carol, 0), Err(FederationError::NotAMember));
    s.now = 1_001;
    assert_eq!(verify_person_in_community(&s, &carol, 0), Ok(4));
    s.community_bans.push(CommunityBan { community: 0, person: 4, expires: None });
    s.now = i64::MAX;
    assert_eq!(verify_person_in_community(&s, &carol, 0), Err(FederationError::NotAMember));
}

// ---- applied once ----

#[test]
fn same_ban_applied_twice_is_logged_once() {
    let mut s = fixture();
    let id = "https://away.example/activities/block/500";
    assert_eq!(community_ban(Some("spam"), id).receive(&mut s), Ok(()));
    let rows = s.mod_log.len();
    assert_eq!(rows, 1);
    assert_eq!(community_ban(Some("spam"), id).receive(&mut s), Ok(()));
    assert_eq!(s.mod_log.len(), rows);
    assert_eq!(s.community_bans, vec![CommunityBan { community: 0, person: 1, expires: None }]);
    assert_eq!(s.applied.len(), 1);
    // through the applier of every kind it is the same
    let again = apply_activity(
        &mut s,
        AnnouncableActivities::BlockUser(community_ban(Some("spam"), id)),
        "t",
    );
    assert!(matches!(again, Ok(Applied::Already)));
    assert_eq!(s.mod_log.len(), rows);
}

#[test]
fn same_site_ban_applied_twice_is_logged_once() {
    let mut s = fixture();
    site_ban("https://away.example/u/spammer").receive(&mut s).unwrap();
    s.persons[1].banned = false;
    site_ban("https://away.example/u/spammer").receive(&mut s).unwrap();
    // the second application did nothing at all
    assert!(!s.persons[1].banned);
    assert_eq!(s.mod_log.len(), 1);
}

#[test]
fn same_undo_and_same_removal_from_collection_are_logged_once() {
    let mut s = fixture();
    community_ban(None, "https://away.example/activities/block/1").receive(&mut s).unwrap();
    let undo = || {
        undo_of(
            community_ban(None, "https://away.example/activities/block/1"),
            "https://away.example/activities/undo/500",
        )
    };
    assert_eq!(undo().receive(&mut s), Ok(()));
    assert_eq!(undo().receive(&mut s), Ok(()));
    assert_eq!(s.mod_log.len(), 2);
    let remove = || CollectionRemove {
        actor: url("https://away.example/u/mod"),
        to: vec![url(PUBLIC)],
        object: url("https://away.example/u/mod"),
        cc: vec![],
        target: url("https://away.example/c/news/moderators"),
        id: url("https://away.example/activities/remove/500"),
        audience: None,
    };
    assert_eq!(remove().receive(&mut s), Ok(()));
    assert_eq!(remove().receive(&mut s), Ok(()));
    assert_eq!(s.mod_log.len(), 3);
}

#[test]
fn same_delete_applied_again_after_an_undo_does_nothing() {
    let mut s = fixture();
    let delete = || {
        delete_of(
            "https://away.example/post/123",
            "https://away.example/u/spammer",
            None,
            "https://away.example/activities/delete/500",
        )
    };
    assert!(matches!(delete().receive(&mut s, "t"), Ok(Applied::Deleted(_))));
    s.posts[0].deleted = false;
    assert!(matches!(delete().receive(&mut s, "t"), Ok(Applied::Already)));
    assert!(!s.posts[0].deleted);
}

// ---- instance-wide bans: administrator and domain ----

#[test]
fn site_ban_needs_an_administrator() {
    let mut s = fixture();
    assert_eq!(site_ban("https://away.example/u/spammer").verify(&s), Ok(()));
    s.persons[0].admin = false;
    assert_eq!(
        site_ban("https://away.example/u/spammer").verify(&s),
        Err(FederationError::NotAModerator)
    );
    // moderating a community does not make an administrator
    assert_eq!(verify_mod_action(&s, &url("https://away.example/u/mod"), 0), Ok(0));
}

#[test]
fn site_ban_of_someone_without_domain_name_is_rejected() {
    let mut s = Store::new("home.example".to_string(), "https://home.example".to_string());
    s.persons.push(person("http://10.0.0.1/u/admin", "admin", false));
    s.persons[0].admin = true;
    s.sites.push(Site {
        actor_id: url("http://10.0.0.1/"),
        local: false,
        inbox_url: url("http://10.0.0.1/inbox"),
    });
    let ban = BlockUser {
        actor: url("http://10.0.0.1/u/admin"),
        to: vec![url(PUBLIC)],
        object: url("http://10.0.0.1/u/someone"),
        cc: vec![],
        target: url("http://10.0.0.1/"),
        remove_data: None,
        summary: None,
        expires: None,
        id: url("http://10.0.0.1/activities/block/1"),
        audience: None,
    };
    assert_eq!(ban.verify(&s), Err(FederationError::DomainMismatch));
}
