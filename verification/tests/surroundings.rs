use federation_core::config::{wants_config_docs, RetryPolicy, REQUEST_TIMEOUT_SECS};
use federation_core::directory::{lookup, resolve, take_in, Actor, FetchedActor, Resolution};
use federation_core::dispatch::{announce_in_community, AnnounceActivity, Envelope};
use federation_core::error::FederationError;
use federation_core::model::{
    Comment, Community, LocalUser, Notice, Person, PersonBlock, Post, PrivateMessage, Site,
};
use federation_core::notify::{
    send_comment_ws_message, send_comment_ws_message_simple, send_community_ws_message,
    send_local_notifs, send_pm_ws_message, send_post_ws_message, Email, EmailKind, MentionData,
    SubscribedType, UserOperationCrud,
};
use federation_core::protocol::AnnouncableActivities;
use federation_core::requests::{
    send_apub_delete_private_message, AddModToCommunity, DeleteComment, DeleteCommunity,
    DeletePost, DeletePrivateMessage, FeaturePost, RemoveComment, RemoveCommunity, RemovePost,
};
use federation_core::store::Store;
use federation_core::urls::ObjectUrl;

fn link(text: &str) -> ObjectUrl {
    ObjectUrl::parse(text).unwrap()
}

fn someone(id: &str, name: &str, local: bool) -> Person {
    Person {
        actor_id: link(id),
        name: name.to_string(),
        local,
        admin: false,
        banned: false,
        ban_expires: None,
        inbox_url: link(&format!("{}/inbox", id)),
        shared_inbox_url: None,
    }
}

fn group(id: &str, local: bool) -> Community {
    Community {
        actor_id: link(id),
        local,
        deleted: false,
        removed: false,
        inbox_url: link(&format!("{}/inbox", id)),
        shared_inbox_url: None,
        followers_url: link(&format!("{}/followers", id)),
        moderators_url: link(&format!("{}/moderators", id)),
        featured_url: link(&format!("{}/featured", id)),
    }
}

/// persons: 0 alice (home), 1 bob (home), 2 carol (away), 3 dave (home, no account)
/// accounts: 0 alice, 1 bob
/// communities: 0 local, 1 remote
/// posts: 0 by bob in community 0
/// comments: 0 by alice on post 0; 1 by carol replying to comment 0
fn town() -> Store {
    let mut s = Store::new("home.example".to_string(), "https://home.example".to_string());
    s.persons.push(someone("https://home.example/u/alice", "alice", true));
    s.persons.push(someone("https://home.example/u/bob", "bob", true));
    s.persons.push(someone("https://away.example/u/carol", "carol", false));
    s.persons.push(someone("https://home.example/u/dave", "dave", true));
    s.local_users.push(LocalUser { person: 0 });
    s.local_users.push(LocalUser { person: 1 });
    s.communities.push(group("https://home.example/c/local", true));
    s.communities.push(group("https://away.example/c/news", false));
    s.posts.push(Post {
        ap_id: link("https://home.example/post/1"),
        community: 0,
        creator: 1,
        deleted: false,
        removed: false,
        featured_community: false,
    });
    s.comments.push(Comment {
        ap_id: link("https://home.example/comment/1"),
        post: 0,
        creator: 0,
        parent: None,
        content: "first".to_string(),
        deleted: false,
        removed: false,
    });
    s.comments.push(Comment {
        ap_id: link("https://away.example/comment/2"),
        post: 0,
        creator: 2,
        parent: Some(0),
        content: "second @bob@home.example".to_string(),
        deleted: false,
        removed: false,
    });
    s.private_messages.push(PrivateMessage {
        ap_id: link("https://away.example/private_message/1"),
        creator: 2,
        recipient: 0,
        content: "secret".to_string(),
        deleted: false,
    });
    s
}

fn mention(name: &str, domain: &str) -> MentionData {
    MentionData { name: name.to_string(), domain: domain.to_string() }
}

// ---- actor directory ----

#[test]
fn known_actor_is_handed_out_whatever_the_budget() {
    let s = town();
    assert_eq!(
        resolve(&s, &link("https://away.example/u/carol"), 0),
        Ok(Resolution::Known(Actor::Person(2)))
    );
    assert_eq!(
        resolve(&s, &link("https://away.example/c/news"), 3),
        Ok(Resolution::Known(Actor::Community(1)))
    );
    assert_eq!(lookup(&s, &link("https://home.example/u/alice")), Some(Actor::Person(0)));
    assert_eq!(lookup(&s, &link("https://home.example/u/zed")), None);
}

#[test]
fn unknown_remote_actor_is_fetched_while_budget_lasts() {
    let s = town();
    let unknown = link("https://third.example/u/eve");
    assert_eq!(resolve(&s, &unknown, 3), Ok(Resolution::Fetch { budget_left: 2 }));
    assert_eq!(resolve(&s, &unknown, 1), Ok(Resolution::Fetch { budget_left: 0 }));
    assert_eq!(resolve(&s, &unknown, 0), Err(FederationError::RecursionExceeded));
}

#[test]
fn unknown_local_actor_is_never_fetched() {
    let s = town();
    assert_eq!(
        resolve(&s, &link("https://home.example/u/zed"), 5),
        Err(FederationError::NotFound)
    );
}

#[test]
fn fetched_actor_is_taken_in_once() {
    let mut s = town();
    let asked = link("https://third.example/u/eve");
    let first =
        take_in(&mut s, &asked, FetchedActor::Person(someone("https://third.example/u/eve", "eve", false)));
    assert_eq!(first, Ok(Actor::Person(4)));
    assert_eq!(s.persons.len(), 5);
    let second =
        take_in(&mut s, &asked, FetchedActor::Person(someone("https://third.example/u/eve", "eve2", false)));
    assert_eq!(second, Ok(Actor::Person(4)));
    assert_eq!(s.persons.len(), 5);
    assert_eq!(s.persons[4].name, "eve");
    assert_eq!(resolve(&s, &asked, 0), Ok(Resolution::Known(Actor::Person(4))));
}

#[test]
fn fetched_actor_from_another_domain_is_turned_away() {
    let mut s = town();
    let asked = link("https://third.example/u/eve");
    let r = take_in(
        &mut s,
        &asked,
        FetchedActor::Person(someone("https://fourth.example/u/eve", "eve", false)),
    );
    assert_eq!(r, Err(FederationError::DomainMismatch));
    assert_eq!(s.persons.len(), 4);
}

#[test]
fn fetched_community_and_instance_get_their_own_tables() {
    let mut s = town();
    let r = take_in(
        &mut s,
        &link("https://third.example/c/cats"),
        FetchedActor::Community(group("https://third.example/c/cats", false)),
    );
    assert_eq!(r, Ok(Actor::Community(2)));
    let r = take_in(
        &mut s,
        &link("https://third.example/"),
        FetchedActor::Instance(Site {
            actor_id: link("https://third.example/"),
            local: false,
            inbox_url: link("https://third.example/inbox"),
        }),
    );
    assert_eq!(r, Ok(Actor::Instance(0)));
    assert_eq!(s.sites.len(), 1);
}

// ---- notices for a new comment ----

#[test]
fn mention_and_reply_are_noticed() {
    let mut s = town();
    let mentions = vec![
        mention("bob", "home.example"),
        mention("carol", "home.example"),
        mention("alice", "away.example"),
        mention("zed", "home.example"),
        mention("dave", "home.example"),
    ];
    let n = send_local_notifs(mentions, 1, 2, 0, true, &mut s).unwrap();
    // bob is mentioned; alice wrote the parent comment
    assert_eq!(n.recipient_ids, vec![1, 0]);
    assert_eq!(
        n.emails,
        vec![
            Email { local_user: 1, kind: EmailKind::Mentioned },
            Email { local_user: 0, kind: EmailKind::CommentReply },
        ]
    );
    assert_eq!(s.person_mentions, vec![Notice { recipient: 1, comment: 1 }]);
    assert_eq!(s.comment_replies, vec![Notice { recipient: 0, comment: 1 }]);
}

#[test]
fn notice_that_exists_is_not_recorded_again() {
    let mut s = town();
    let first = send_local_notifs(vec![mention("bob", "home.example")], 1, 2, 0, false, &mut s);
    assert!(first.is_ok());
    let again =
        send_local_notifs(vec![mention("bob", "home.example")], 1, 2, 0, false, &mut s).unwrap();
    assert_eq!(again.recipient_ids, vec![1, 0]);
    assert!(again.emails.is_empty());
    assert_eq!(s.person_mentions.len(), 1);
    assert_eq!(s.comment_replies.len(), 1);
}

#[test]
fn mentioning_twice_notifies_twice_but_records_once() {
    let mut s = town();
    let n = send_local_notifs(
        vec![mention("bob", "home.example"), mention("bob", "home.example")],
        0,
        0,
        0,
        true,
        &mut s,
    )
    .unwrap();
    // alice comments on bob's post and mentions bob twice
    assert_eq!(n.recipient_ids, vec![1, 1, 1]);
    assert_eq!(n.emails[2], Email { local_user: 1, kind: EmailKind::PostReply });
    assert_eq!(s.person_mentions, vec![Notice { recipient: 1, comment: 0 }]);
    assert_eq!(s.comment_replies, vec![Notice { recipient: 1, comment: 0 }]);
}

#[test]
fn nobody_is_told_of_their_own_comment() {
    let mut s = town();
    s.posts[0].creator = 0;
    let n = send_local_notifs(vec![mention("alice", "home.example")], 0, 0, 0, true, &mut s)
        .unwrap();
    assert!(n.recipient_ids.is_empty());
    assert!(n.emails.is_empty());
    assert!(s.person_mentions.is_empty());
    assert!(s.comment_replies.is_empty());
}

#[test]
fn blocked_author_does_not_reach_the_parent() {
    let mut s = town();
    s.person_blocks.push(PersonBlock { person: 0, target: 2 });
    let n = send_local_notifs(vec![], 1, 2, 0, true, &mut s).unwrap();
    assert!(n.recipient_ids.is_empty());
    assert!(s.comment_replies.is_empty());
    // a block the other way round does not count
    let mut s = town();
    s.person_blocks.push(PersonBlock { person: 2, target: 0 });
    let n = send_local_notifs(vec![], 1, 2, 0, true, &mut s).unwrap();
    assert_eq!(n.recipient_ids, vec![0]);
}

#[test]
fn reply_to_someone_without_account_is_not_noticed() {
    let mut s = town();
    s.posts[0].creator = 3;
    let n = send_local_notifs(vec![], 0, 0, 0, true, &mut s).unwrap();
    assert!(n.recipient_ids.is_empty());
}

#[test]
fn notices_need_known_rows() {
    let mut s = town();
    assert!(matches!(
        send_local_notifs(vec![], 9, 0, 0, true, &mut s),
        Err(FederationError::NotFound)
    ));
    assert!(matches!(
        send_local_notifs(vec![], 0, 9, 0, true, &mut s),
        Err(FederationError::NotFound)
    ));
    assert!(matches!(
        send_local_notifs(vec![], 0, 0, 9, true, &mut s),
        Err(FederationError::NotFound)
    ));
    s.comments[1].parent = Some(9);
    assert!(matches!(
        send_local_notifs(vec![mention("bob", "home.example")], 1, 2, 0, true, &mut s),
        Err(FederationError::NotFound)
    ));
    assert!(s.person_mentions.is_empty());
}

#[test]
fn mention_is_local_by_domain() {
    let m = mention("bob", "home.example");
    assert!(m.is_local(&"home.example".to_string()));
    assert!(!m.is_local(&"away.example".to_string()));
}

// ---- messages to local sessions ----

#[test]
fn post_message_shows_the_row() {
    let mut s = town();
    s.posts[0].deleted = true;
    let m = send_post_ws_message(0, UserOperationCrud::DeletePost, Some(7), Some(1), &s).unwrap();
    assert_eq!(m.op, UserOperationCrud::DeletePost);
    assert_eq!(m.websocket_id, Some(7));
    assert_eq!(m.response.post_view.post, 0);
    assert_eq!(m.response.post_view.community, 0);
    assert_eq!(m.response.post_view.creator, 1);
    assert!(m.response.post_view.deleted);
    assert!(!m.response.post_view.removed);
    assert_eq!(m.response.post_view.viewer, Some(1));
    assert!(matches!(
        send_post_ws_message(5, UserOperationCrud::DeletePost, None, None, &s),
        Err(FederationError::NotFound)
    ));
}

#[test]
fn comment_message_blanks_what_is_gone() {
    let mut s = town();
    let m = send_comment_ws_message(
        0,
        UserOperationCrud::DeleteComment,
        Some(3),
        Some("form".to_string()),
        None,
        vec![1, 0],
        &s,
    )
    .unwrap();
    assert_eq!(m.sent.comment_view.content, "first");
    assert_eq!(m.sent.recipient_ids, vec![1, 0]);
    assert_eq!(m.sent.form_id, None);
    assert!(m.returned.recipient_ids.is_empty());
    assert_eq!(m.returned.form_id.as_deref(), Some("form"));
    assert_eq!(m.returned.comment_view.content, "first");
    s.comments[0].removed = true;
    let m = send_comment_ws_message_simple(0, UserOperationCrud::DeleteComment, &s).unwrap();
    assert_eq!(m.sent.comment_view.content, "");
    assert_eq!(m.returned.comment_view.content, "");
    assert!(m.sent.comment_view.removed);
    assert!(m.sent.recipient_ids.is_empty());
    assert_eq!(m.websocket_id, None);
    s.comments[0].removed = false;
    s.comments[0].deleted = true;
    let m = send_comment_ws_message_simple(0, UserOperationCrud::DeleteComment, &s).unwrap();
    assert_eq!(m.sent.comment_view.content, "");
    assert!(matches!(
        send_comment_ws_message_simple(9, UserOperationCrud::DeleteComment, &s),
        Err(FederationError::NotFound)
    ));
}

#[test]
fn community_message_hides_the_subscription() {
    let s = town();
    let m =
        send_community_ws_message(1, UserOperationCrud::DeleteCommunity, None, Some(0), &s).unwrap();
    assert_eq!(m.room, 1);
    assert_eq!(m.response.community_view.community, 1);
    assert_eq!(m.response.community_view.subscribed, SubscribedType::NotSubscribed);
    assert!(matches!(
        send_community_ws_message(4, UserOperationCrud::DeleteCommunity, None, None, &s),
        Err(FederationError::NotFound)
    ));
}

#[test]
fn private_message_goes_to_a_local_recipient_only() {
    let mut s = town();
    let m = send_pm_ws_message(0, UserOperationCrud::DeletePrivateMessage, None, &s).unwrap();
    assert_eq!(m.room, Some(0));
    assert_eq!(m.response.private_message_view.content, "secret");
    s.private_messages[0].deleted = true;
    s.private_messages[0].recipient = 2;
    let m = send_pm_ws_message(0, UserOperationCrud::DeletePrivateMessage, None, &s).unwrap();
    assert_eq!(m.room, None);
    assert_eq!(m.response.private_message_view.content, "");
    // a local recipient without an account cannot be reached
    s.private_messages[0].recipient = 3;
    assert!(matches!(
        send_pm_ws_message(0, UserOperationCrud::DeletePrivateMessage, None, &s),
        Err(FederationError::NotFound)
    ));
    assert!(matches!(
        send_pm_ws_message(8, UserOperationCrud::DeletePrivateMessage, None, &s),
        Err(FederationError::NotFound)
    ));
}

// ---- requests of local users ----

#[test]
fn delete_post_request_is_no_moderators_action() {
    let mut s = town();
    s.community_followers.push(federation_core::model::Membership { community: 0, person: 2 });
    s.person_followers.push(federation_core::model::PersonFollow { person: 1, follower: 2 });
    let out =
        DeletePost::send_activity(&DeletePost { post_id: 0, deleted: true }, 1, &s, "tok").unwrap();
    assert_eq!(out.deliveries.len(), 2);
    assert_eq!(out.deliveries[0].envelope, Envelope::Announce);
    assert_eq!(out.deliveries[1].envelope, Envelope::Direct);
    match out.activity {
        AnnouncableActivities::Delete(d) => {
            assert!(d.summary.is_none());
            assert_eq!(d.object.as_str(), "https://home.example/post/1");
            assert_eq!(d.actor.as_str(), "https://home.example/u/bob");
        }
        _ => panic!("a deletion"),
    }
    let out =
        DeletePost::send_activity(&DeletePost { post_id: 0, deleted: false }, 1, &s, "tok").unwrap();
    match out.activity {
        AnnouncableActivities::UndoDelete(u) => {
            assert_eq!(u.id.as_str(), "https://home.example/activities/undo/tok");
            assert_eq!(u.object.id.as_str(), "https://home.example/activities/delete/tok");
            assert_eq!(u.object.object.as_str(), "https://home.example/post/1");
        }
        _ => panic!("the taking back of a deletion"),
    }
    assert!(matches!(
        DeletePost::send_activity(&DeletePost { post_id: 4, deleted: true }, 1, &s, "tok"),
        Err(FederationError::NotFound)
    ));
}

#[test]
fn remove_post_request_always_carries_a_reason() {
    let mut s = town();
    s.person_followers.push(federation_core::model::PersonFollow { person: 0, follower: 2 });
    let request = RemovePost { post_id: 0, removed: true, reason: None };
    let out = RemovePost::send_activity(&request, 0, &s, "tok").unwrap();
    // a moderator's action does not go to the moderator's followers
    assert_eq!(out.deliveries.len(), 0);
    match out.activity {
        AnnouncableActivities::Delete(d) => assert_eq!(d.summary.as_deref(), Some("")),
        _ => panic!("a removal"),
    }
    let request = RemovePost { post_id: 0, removed: true, reason: Some("spam".to_string()) };
    match RemovePost::send_activity(&request, 0, &s, "tok").unwrap().activity {
        AnnouncableActivities::Delete(d) => assert_eq!(d.summary.as_deref(), Some("spam")),
        _ => panic!("a removal"),
    }
}

#[test]
fn comment_requests_act_in_the_comments_community() {
    let s = town();
    let out = DeleteComment::send_activity(
        &DeleteComment { comment_id: 1, deleted: true },
        &s,
        "tok",
    )
    .unwrap();
    match out.activity {
        AnnouncableActivities::Delete(d) => {
            // the author of the comment acts
            assert_eq!(d.actor.as_str(), "https://away.example/u/carol");
            assert_eq!(d.audience.unwrap().as_str(), "https://home.example/c/local");
        }
        _ => panic!("a deletion"),
    }
    let request = RemoveComment { comment_id: 1, removed: false, reason: None };
    match RemoveComment::send_activity(&request, 0, &s, "tok").unwrap().activity {
        AnnouncableActivities::UndoDelete(u) => {
            assert_eq!(u.actor.as_str(), "https://home.example/u/alice");
            assert_eq!(u.object.summary.as_deref(), Some(""));
        }
        _ => panic!("the taking back of a removal"),
    }
    assert!(matches!(
        DeleteComment::send_activity(&DeleteComment { comment_id: 7, deleted: true }, &s, "t"),
        Err(FederationError::NotFound)
    ));
}

#[test]
fn community_requests() {
    let s = town();
    let out = DeleteCommunity::send_activity(
        &DeleteCommunity { community_id: 1, deleted: true },
        0,
        &s,
        "tok",
    )
    .unwrap();
    assert_eq!(out.deliveries.len(), 1);
    assert_eq!(out.deliveries[0].inbox.as_str(), "https://away.example/c/news/inbox");
    let request = RemoveCommunity { community_id: 1, removed: true, reason: None };
    match RemoveCommunity::send_activity(&request, 0, &s, "tok").unwrap().activity {
        AnnouncableActivities::Delete(d) => {
            assert_eq!(d.summary.as_deref(), Some(""));
            assert_eq!(d.object.as_str(), "https://away.example/c/news");
        }
        _ => panic!("a removal"),
    }
    assert!(matches!(
        DeleteCommunity::send_activity(
            &DeleteCommunity { community_id: 5, deleted: true },
            0,
            &s,
            "tok"
        ),
        Err(FederationError::NotFound)
    ));
}

#[test]
fn private_message_deletion_goes_to_the_recipient_alone() {
    let s = town();
    let out = send_apub_delete_private_message(&s, 2, 0, true, "tok").unwrap();
    assert_eq!(out.announcer, None);
    assert_eq!(out.deliveries.len(), 1);
    assert_eq!(out.deliveries[0].inbox.as_str(), "https://home.example/u/alice/inbox");
    assert_eq!(out.deliveries[0].envelope, Envelope::Direct);
    match out.activity {
        AnnouncableActivities::Delete(d) => {
            assert_eq!(d.to.len(), 1);
            assert_eq!(d.to[0].as_str(), "https://home.example/u/alice");
            assert!(d.cc.is_empty());
            assert!(d.audience.is_none());
            assert_eq!(d.object.as_str(), "https://away.example/private_message/1");
        }
        _ => panic!("a deletion"),
    }
    let request = DeletePrivateMessage { private_message_id: 0, deleted: false };
    let out = DeletePrivateMessage::send_activity(&request, 2, &s, "tok").unwrap();
    assert!(matches!(out.activity, AnnouncableActivities::UndoDelete(_)));
    assert!(matches!(
        send_apub_delete_private_message(&s, 2, 3, true, "tok"),
        Err(FederationError::NotFound)
    ));
}

#[test]
fn moderator_and_feature_requests_pick_add_or_remove() {
    let s = town();
    let request = AddModToCommunity { community_id: 0, person_id: 1, added: true };
    let out = AddModToCommunity::send_activity(&request, 0, &s, "tok").unwrap();
    assert!(matches!(out.activity, AnnouncableActivities::CollectionAdd(_)));
    assert_eq!(out.deliveries.len(), 1);
    assert_eq!(out.deliveries[0].inbox.as_str(), "https://home.example/u/bob/inbox");
    let request = AddModToCommunity { community_id: 0, person_id: 1, added: false };
    match AddModToCommunity::send_activity(&request, 0, &s, "tok").unwrap().activity {
        AnnouncableActivities::CollectionRemove(r) => {
            assert_eq!(r.id.as_str(), "https://home.example/activities/remove/tok");
            assert_eq!(r.target.as_str(), "https://home.example/c/local/moderators");
            assert_eq!(r.object.as_str(), "https://home.example/u/bob");
        }
        _ => panic!("a removal from the collection"),
    }
    let request = FeaturePost { post_id: 0, featured: true };
    match FeaturePost::send_activity(&request, 0, &s, "tok").unwrap().activity {
        AnnouncableActivities::CollectionAdd(a) => {
            assert_eq!(a.target.as_str(), "https://home.example/c/local/featured");
            assert_eq!(a.object.as_str(), "https://home.example/post/1");
        }
        _ => panic!("an addition to the collection"),
    }
    let request = FeaturePost { post_id: 0, featured: false };
    let out = FeaturePost::send_activity(&request, 0, &s, "tok").unwrap();
    assert!(matches!(out.activity, AnnouncableActivities::CollectionRemove(_)));
    let request = FeaturePost { post_id: 3, featured: false };
    assert!(matches!(
        FeaturePost::send_activity(&request, 0, &s, "tok"),
        Err(FederationError::NotFound)
    ));
}

// ---- envelope ----

#[test]
fn announce_envelope_is_the_communitys() {
    let s = town();
    let a = announce_in_community(&s, 0, "tok").unwrap().unwrap();
    assert_eq!(a.actor.as_str(), "https://home.example/c/local");
    assert_eq!(a.id.as_str(), "https://home.example/activities/announce/tok");
    assert_eq!(a.to.len(), 1);
    assert_eq!(a.to[0].as_str(), "https://www.w3.org/ns/activitystreams#Public");
    assert_eq!(a.cc.len(), 1);
    assert_eq!(a.cc[0].as_str(), "https://home.example/c/local/followers");
    assert!(announce_in_community(&s, 1, "tok").unwrap().is_none());
    assert!(matches!(announce_in_community(&s, 2, "tok"), Err(FederationError::NotFound)));
    let built = AnnounceActivity::new(&s.communities[1], "no origin", "tok");
    assert!(matches!(built, Err(FederationError::InvalidUrl)));
}

// ---- settings ----

#[test]
fn transport_retry_policy() {
    let p = RetryPolicy::transport();
    assert_eq!(p.max_n_retries, 3);
    assert_eq!(p.min_retry_interval_ms, 100);
    assert_eq!(p.max_retry_interval_ms, 10_000);
    assert_eq!(p.backoff_exponent, 2);
    assert_eq!(REQUEST_TIMEOUT_SECS, 10);
}

#[test]
fn config_docs_flag() {
    let args = |v: &[&str]| v.iter().map(|s| s.to_string()).collect::<Vec<String>>();
    assert!(wants_config_docs(&args(&["server", "--print-config-docs"])));
    assert!(!wants_config_docs(&args(&["server"])));
    assert!(!wants_config_docs(&args(&["server", "--print-config-docs", "x"])));
    assert!(!wants_config_docs(&args(&["server", "--help"])));
    assert!(!wants_config_docs(&args(&[])));
}
