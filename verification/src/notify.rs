//! What local sessions are told after the state has changed.

use crate::error::FederationError;
use crate::model::{LocalUser, Notice, Person, PersonBlock};
use crate::store::{first_of, lemma_first_set_is_first_of, Store, StoreView};
use vstd::prelude::*;

verus! {

/// The operation that a local update reports.
#[derive(Clone, Copy, Debug, PartialEq, Eq, Structural)]
pub enum UserOperationCrud {
    DeleteCommunity,
    DeletePost,
    DeleteComment,
    DeletePrivateMessage,
}

/// The table that an updated row belongs to.
#[derive(Clone, Copy, Debug, PartialEq, Eq, Structural)]
pub enum ContentKind {
    Community,
    Post,
    Comment,
    PrivateMessage,
}

/// A change of one row that local sessions have to hear of.
#[derive(Clone, Copy, Debug, PartialEq, Eq, Structural)]
pub struct LocalUpdate {
    pub kind: ContentKind,
    pub row: usize,
    pub op: UserOperationCrud,
}

/// A mention of a user in a comment, as `@name@domain`.
pub struct MentionData {
    pub name: String,
    pub domain: String,
}

impl MentionData {
    /// Whether the mentioned user lives on the instance called `hostname`.
    pub fn is_local(&self, hostname: &String) -> (r: bool)
        ensures
            r == (self.domain@ == hostname@),
    {
        *hostname == self.domain
    }
}

/// Why an e-mail is sent.
#[derive(Clone, Copy, Debug, PartialEq, Eq, Structural)]
pub enum EmailKind {
    Mentioned,
    CommentReply,
    PostReply,
}

/// An e-mail to the account in row `local_user`.
#[derive(Clone, Copy, Debug, PartialEq, Eq, Structural)]
pub struct Email {
    pub local_user: usize,
    pub kind: EmailKind,
}

/// Whom a new comment is made known to.
pub struct LocalNotifs {
    /// The accounts to notify, those mentioned first, in the order of the
    /// mentions, then the one replied to.
    pub recipient_ids: Vec<usize>,
    /// The e-mails to send, one per recipient and in the same order, if
    /// e-mails were asked for.
    pub emails: Vec<Email>,
}

/// For each account, whether it belongs to a person called `name`.
pub open spec fn named_flags(
    local_users: Seq<LocalUser>,
    persons: Seq<Person>,
    name: Seq<char>,
) -> Seq<
    bool,
> {
    Seq::new(
        local_users.len(),
        |i: int|
            local_users[i].person < persons.len() && persons[local_users[i].person as int].name@
                == name,
    )
}

/// For each account, whether it belongs to the person in row `person`.
pub open spec fn owner_flags(local_users: Seq<LocalUser>, person: usize) -> Seq<bool> {
    Seq::new(local_users.len(), |i: int| local_users[i].person == person)
}

/// Whether `rows` holds `notice`.
pub open spec fn has_notice(rows: Seq<Notice>, notice: Notice) -> bool {
    exists|i: int| 0 <= i < rows.len() && #[trigger] rows[i] == notice
}

/// `rows` with `notice` in it: added at the end unless it is there already.
pub open spec fn with_notice(rows: Seq<Notice>, notice: Notice) -> Seq<Notice> {
    if has_notice(rows, notice) {
        rows
    } else {
        rows.push(notice)
    }
}

/// Whether `blocker` has blocked `target`.
pub open spec fn has_block(rows: Seq<PersonBlock>, blocker: usize, target: usize) -> bool {
    exists|i: int|
        0 <= i < rows.len() && (#[trigger] rows[i]).person == blocker && rows[i].target == target
}

impl StoreView {
    /// The account of the person called `name`.
    pub open spec fn local_user_named(self, name: Seq<char>) -> Option<usize> {
        first_of(named_flags(self.local_users, self.persons, name))
    }

    /// The account of the person in row `person`.
    pub open spec fn local_user_of(self, person: usize) -> Option<usize> {
        first_of(owner_flags(self.local_users, person))
    }

    /// Whether `mention` makes an account of this instance a recipient: it
    /// names this instance, does not name the author, and the name belongs
    /// to an account.
    pub open spec fn mention_counts(self, mention: MentionData, author: usize) -> bool {
        &&& mention.domain@ == self.hostname
        &&& mention.name@ != self.persons[author as int].name@
        &&& self.local_user_named(mention.name@) is Some
    }

    /// The accounts that the first `n` of `mentions` make recipients, in the
    /// order of the mentions.
    pub open spec fn mentioned(self, mentions: Seq<MentionData>, author: usize, n: int) -> Seq<
        usize,
    >
        decreases n,
    {
        if n <= 0 {
            Seq::empty()
        } else if self.mention_counts(mentions[n - 1], author) {
            self.mentioned(mentions, author, n - 1).push(
                self.local_user_named(mentions[n - 1].name@)->0,
            )
        } else {
            self.mentioned(mentions, author, n - 1)
        }
    }

    /// The person that a comment of `author` replies to: the author of the
    /// parent comment, or of the post where the comment has no parent.
    pub open spec fn replied_to(self, comment: usize, post: usize) -> usize {
        match self.comments[comment as int].parent {
            Some(parent) => self.comments[parent as int].creator,
            None => self.posts[post as int].creator,
        }
    }

    /// The account that hears of a reply by `author`: that of the person
    /// replied to, unless that is the author, has blocked the author, or
    /// has no account here.
    pub open spec fn reply_recipient(self, comment: usize, author: usize, post: usize) -> Option<
        usize,
    > {
        let other = self.replied_to(comment, post);
        if other != author && !has_block(self.person_blocks, other, author) {
            self.local_user_of(other)
        } else {
            None
        }
    }

    /// Whether the store holds the rows that notifying of a comment reads.
    pub open spec fn knows_comment(self, comment: usize, author: usize, post: usize) -> bool {
        &&& comment < self.comments.len()
        &&& author < self.persons.len()
        &&& post < self.posts.len()
        &&& self.comments[comment as int].parent matches Some(parent) ==> parent
            < self.comments.len()
    }
}

/// `rows` with a notice of `comment` for each of the first `n` accounts of
/// `recipients`, none twice.
pub open spec fn noticed(
    rows: Seq<Notice>,
    local_users: Seq<LocalUser>,
    recipients: Seq<usize>,
    comment: usize,
    n: int,
) -> Seq<Notice>
    decreases n,
{
    if n <= 0 {
        rows
    } else {
        with_notice(
            noticed(rows, local_users, recipients, comment, n - 1),
            Notice { recipient: local_users[recipients[n - 1] as int].person, comment },
        )
    }
}

/// One e-mail of `kind` to each account of `recipients`.
pub open spec fn emails_to(recipients: Seq<usize>, kind: EmailKind) -> Seq<Email> {
    Seq::new(recipients.len(), |i: int| (Email { local_user: recipients[i], kind }))
}

/// The kind of e-mail that tells of a reply to the comment in row `comment`.
pub open spec fn reply_kind(store: StoreView, comment: usize) -> EmailKind {
    if store.comments[comment as int].parent is Some {
        EmailKind::CommentReply
    } else {
        EmailKind::PostReply
    }
}

/// Finds the account of the person called `name`.
pub fn read_from_name(store: &Store, name: &String) -> (r: Option<usize>)
    ensures
        r == store@.local_user_named(name@),
        r matches Some(i) ==> i < store@.local_users.len(),
{
    let ghost flags = named_flags(store@.local_users, store@.persons, name@);
    let mut i: usize = 0;
    while i < store.local_users.len()
        invariant
            i <= store.local_users.len(),
            flags == named_flags(store@.local_users, store@.persons, name@),
            forall|j: int| 0 <= j < i ==> !#[trigger] flags[j],
        decreases store.local_users.len() - i,
    {
        let person = store.local_users[i].person;
        if person < store.persons.len() && store.persons[person].name == *name {
            proof {
                lemma_first_set_is_first_of(flags, Some(i));
            }
            return Some(i);
        }
        i += 1;
    }
    proof {
        lemma_first_set_is_first_of(flags, None);
    }
    None
}

/// Finds the account of the person in row `person`.
pub fn read_person(store: &Store, person: usize) -> (r: Option<usize>)
    ensures
        r == store@.local_user_of(person),
        r matches Some(i) ==> i < store@.local_users.len(),
{
    let ghost flags = owner_flags(store@.local_users, person);
    let mut i: usize = 0;
    while i < store.local_users.len()
        invariant
            i <= store.local_users.len(),
            flags == owner_flags(store@.local_users, person),
            forall|j: int| 0 <= j < i ==> !#[trigger] flags[j],
        decreases store.local_users.len() - i,
    {
        if store.local_users[i].person == person {
            proof {
                lemma_first_set_is_first_of(flags, Some(i));
            }
            return Some(i);
        }
        i += 1;
    }
    proof {
        lemma_first_set_is_first_of(flags, None);
    }
    None
}

/// Whether `blocker` has blocked `target`.
pub fn check_person_block(rows: &Vec<PersonBlock>, blocker: usize, target: usize) -> (r: bool)
    ensures
        r == has_block(rows@, blocker, target),
{
    let mut i: usize = 0;
    while i < rows.len()
        invariant
            i <= rows.len(),
            forall|j: int|
                0 <= j < i ==> !((#[trigger] rows@[j]).person == blocker && rows@[j].target
                    == target),
        decreases rows.len() - i,
    {
        if rows[i].person == blocker && rows[i].target == target {
            return true;
        }
        i += 1;
    }
    false
}

/// Adds `notice` to `rows` unless it is there. A notice that is there
/// already is no error: the rows stay as they are.
pub fn create_notice(rows: &mut Vec<Notice>, notice: Notice)
    ensures
        final(rows)@ == with_notice(old(rows)@, notice),
        has_notice(final(rows)@, notice),
{
    let mut i: usize = 0;
    while i < rows.len()
        invariant
            i <= rows.len(),
            rows@ == old(rows)@,
            forall|j: int| 0 <= j < i ==> #[trigger] rows@[j] != notice,
        decreases rows.len() - i,
    {
        if rows[i].recipient == notice.recipient && rows[i].comment == notice.comment {
            return ;
        }
        i += 1;
    }
    rows.push(notice);
    assert(rows@[rows@.len() - 1] == notice);
}

/// Collects the accounts that `mentions` make recipients.
fn mentioned_local_users(store: &Store, mentions: &Vec<MentionData>, author: usize) -> (r: Vec<
    usize,
>)
    requires
        author < store@.persons.len(),
    ensures
        r@ == store@.mentioned(mentions@, author, mentions@.len() as int),
        forall|i: int| 0 <= i < r@.len() ==> #[trigger] r@[i] < store@.local_users.len(),
{
    let mut out: Vec<usize> = Vec::new();
    let mut i: usize = 0;
    while i < mentions.len()
        invariant
            i <= mentions.len(),
            author < store@.persons.len(),
            out@ == store@.mentioned(mentions@, author, i as int),
            forall|k: int| 0 <= k < out@.len() ==> #[trigger] out@[k] < store@.local_users.len(),
        decreases mentions.len() - i,
    {
        let mention = &mentions[i];
        if mention.is_local(&store.hostname) && !(mention.name == store.persons[author].name) {
            if let Some(found) = read_from_name(store, &mention.name) {
                out.push(found);
            }
        }
        i += 1;
    }
    out
}

/// Finds the account that hears of the reply.
fn find_reply_recipient(store: &Store, comment: usize, author: usize, post: usize) -> (r:
    Option<usize>)
    requires
        store@.knows_comment(comment, author, post),
    ensures
        r == store@.reply_recipient(comment, author, post),
        r matches Some(i) ==> i < store@.local_users.len(),
{
    let other = match store.comments[comment].parent {
        Some(parent) => store.comments[parent].creator,
        None => store.posts[post].creator,
    };
    if other != author && !check_person_block(&store.person_blocks, other, author) {
        read_person(store, other)
    } else {
        None
    }
}

/// Records a notice of `comment` for each account of `recipients`.
fn create_notices(
    rows: &mut Vec<Notice>,
    local_users: &Vec<LocalUser>,
    recipients: &Vec<usize>,
    comment: usize,
)
    requires
        forall|i: int|
            0 <= i < recipients@.len() ==> #[trigger] recipients@[i] < local_users@.len(),
    ensures
        final(rows)@ == noticed(
            old(rows)@,
            local_users@,
            recipients@,
            comment,
            recipients@.len() as int,
        ),
{
    let mut i: usize = 0;
    while i < recipients.len()
        invariant
            i <= recipients.len(),
            forall|k: int|
                0 <= k < recipients@.len() ==> #[trigger] recipients@[k] < local_users@.len(),
            rows@ == noticed(old(rows)@, local_users@, recipients@, comment, i as int),
        decreases recipients.len() - i,
    {
        let account = recipients[i];
        create_notice(rows, Notice { recipient: local_users[account].person, comment });
        i += 1;
    }
}

/// Appends one e-mail of `kind` per account of `recipients`.
pub fn push_emails(out: &mut Vec<Email>, recipients: &Vec<usize>, kind: EmailKind)
    ensures
        final(out)@ == old(out)@ + emails_to(recipients@, kind),
{
    let ghost start = out@;
    let mut i: usize = 0;
    while i < recipients.len()
        invariant
            i <= recipients.len(),
            out@ == start + emails_to(recipients@.subrange(0, i as int), kind),
        decreases recipients.len() - i,
    {
        out.push(Email { local_user: recipients[i], kind });
        assert(recipients@.subrange(0, i + 1) == recipients@.subrange(0, i as int).push(
            recipients@[i as int],
        ));
        assert(emails_to(recipients@.subrange(0, i + 1), kind) == emails_to(
            recipients@.subrange(0, i as int),
            kind,
        ).push(Email { local_user: recipients@[i as int], kind }));
        i += 1;
    }
    assert(recipients@.subrange(0, recipients@.len() as int) == recipients@);
}

impl StoreView {
    /// The store after the notices for the comment in row `comment` by
    /// `author` are recorded: one for each mentioned account, and one for
    /// the account replied to. A notice that is there already is not
    /// recorded again.
    pub open spec fn with_local_notifs(
        self,
        mentions: Seq<MentionData>,
        comment: usize,
        author: usize,
        post: usize,
    ) -> StoreView {
        let mentioned = self.mentioned(mentions, author, mentions.len() as int);
        StoreView {
            person_mentions: noticed(
                self.person_mentions,
                self.local_users,
                mentioned,
                comment,
                mentioned.len() as int,
            ),
            comment_replies: match self.reply_recipient(comment, author, post) {
                Some(account) => with_notice(
                    self.comment_replies,
                    Notice { recipient: self.local_users[account as int].person, comment },
                ),
                None => self.comment_replies,
            },
            ..self
        }
    }

    /// The accounts that hear of the comment: those mentioned, then the one
    /// replied to.
    pub open spec fn notif_recipients(
        self,
        mentions: Seq<MentionData>,
        comment: usize,
        author: usize,
        post: usize,
    ) -> Seq<usize> {
        let mentioned = self.mentioned(mentions, author, mentions.len() as int);
        match self.reply_recipient(comment, author, post) {
            Some(account) => mentioned.push(account),
            None => mentioned,
        }
    }

    /// The e-mails that tell of the comment, if e-mails are asked for.
    pub open spec fn notif_emails(
        self,
        mentions: Seq<MentionData>,
        comment: usize,
        author: usize,
        post: usize,
        do_send_email: bool,
    ) -> Seq<Email> {
        if !do_send_email {
            Seq::empty()
        } else {
            let mentioned = emails_to(
                self.mentioned(mentions, author, mentions.len() as int),
                EmailKind::Mentioned,
            );
            match self.reply_recipient(comment, author, post) {
                Some(account) => mentioned.push(
                    Email { local_user: account, kind: reply_kind(self, comment) },
                ),
                None => mentioned,
            }
        }
    }
}

/// Makes a new comment known on this instance: records a notice for every
/// local account that the comment mentions and for the account it replies
/// to, and says whom to notify and whom to write.
///
/// Fails with `NotFound`, and changes nothing, where the store lacks the
/// comment, its author, its post or its parent.
pub fn send_local_notifs(
    mentions: Vec<MentionData>,
    comment: usize,
    person: usize,
    post: usize,
    do_send_email: bool,
    store: &mut Store,
) -> (r: Result<LocalNotifs, FederationError>)
    ensures
        r is Ok <==> old(store)@.knows_comment(comment, person, post),
        r matches Err(e) ==> e == FederationError::NotFound && final(store)@ == old(store)@,
        r matches Ok(n) ==> {
            &&& final(store)@ == old(store)@.with_local_notifs(mentions@, comment, person, post)
            &&& n.recipient_ids@ == old(store)@.notif_recipients(mentions@, comment, person, post)
            &&& n.emails@ == old(store)@.notif_emails(
                mentions@,
                comment,
                person,
                post,
                do_send_email,
            )
        },
{
    if comment >= store.comments.len() || person >= store.persons.len() || post
        >= store.posts.len() {
        return Err(FederationError::NotFound);
    }
    if let Some(parent) = store.comments[comment].parent {
        if parent >= store.comments.len() {
            return Err(FederationError::NotFound);
        }
    }
    let mut recipient_ids = mentioned_local_users(store, &mentions, person);
    let reply_to = find_reply_recipient(store, comment, person, post);
    let has_parent = store.comments[comment].parent.is_some();
    let mut emails: Vec<Email> = Vec::new();
    if do_send_email {
        push_emails(&mut emails, &recipient_ids, EmailKind::Mentioned);
    }
    create_notices(&mut store.person_mentions, &store.local_users, &recipient_ids, comment);
    match reply_to {
        Some(account) => {
            recipient_ids.push(account);
            let notice = Notice { recipient: store.local_users[account].person, comment };
            create_notice(&mut store.comment_replies, notice);
            if do_send_email {
                let kind = if has_parent {
                    EmailKind::CommentReply
                } else {
                    EmailKind::PostReply
                };
                emails.push(Email { local_user: account, kind });
            }
        },
        None => {},
    }
    Ok(LocalNotifs { recipient_ids, emails })
}

/// A post as local sessions see it.
pub struct PostView {
    pub post: usize,
    pub community: usize,
    pub creator: usize,
    pub deleted: bool,
    pub removed: bool,
    pub featured_community: bool,
    /// The person for whom the view was made, if any.
    pub viewer: Option<usize>,
}

/// What is said about a post.
pub struct PostResponse {
    pub post_view: PostView,
}

/// A comment as local sessions see it. A comment that is deleted or removed
/// shows no content.
pub struct CommentView {
    pub comment: usize,
    pub post: usize,
    pub creator: usize,
    pub content: String,
    pub deleted: bool,
    pub removed: bool,
    pub viewer: Option<usize>,
}

/// What is said about a comment, whom it concerns, and the form that
/// caused it.
pub struct CommentResponse {
    pub comment_view: CommentView,
    pub recipient_ids: Vec<usize>,
    pub form_id: Option<String>,
}

/// Whether the viewer follows a community.
#[derive(Clone, Copy, Debug, PartialEq, Eq, Structural)]
pub enum SubscribedType {
    Subscribed,
    NotSubscribed,
    Pending,
}

/// A community as local sessions see it.
pub struct CommunityView {
    pub community: usize,
    pub deleted: bool,
    pub removed: bool,
    pub subscribed: SubscribedType,
}

/// What is said about a community.
pub struct CommunityResponse {
    pub community_view: CommunityView,
}

/// A private message as its two parties see it. A deleted message shows no
/// content.
pub struct PrivateMessageView {
    pub private_message: usize,
    pub creator: usize,
    pub recipient: usize,
    pub content: String,
    pub deleted: bool,
}

/// What is said about a private message.
pub struct PrivateMessageResponse {
    pub private_message_view: PrivateMessageView,
}

/// What goes out to local sessions about a post, and what the caller gets.
pub struct PostMessage {
    pub op: UserOperationCrud,
    pub response: PostResponse,
    /// The session that caused the change and is not told again.
    pub websocket_id: Option<usize>,
}

/// What goes out to local sessions about a comment (`sent`), and what the
/// caller gets (`returned`).
pub struct CommentMessage {
    pub op: UserOperationCrud,
    pub sent: CommentResponse,
    pub returned: CommentResponse,
    pub websocket_id: Option<usize>,
}

/// What goes out to the sessions that watch a community.
pub struct CommunityMessage {
    pub op: UserOperationCrud,
    pub response: CommunityResponse,
    pub room: usize,
    pub websocket_id: Option<usize>,
}

/// What goes out about a private message: to the sessions of the account
/// `room`, or to nobody where the recipient has no session to reach here.
pub struct PrivateMessageMessage {
    pub op: UserOperationCrud,
    pub response: PrivateMessageResponse,
    pub room: Option<usize>,
    pub websocket_id: Option<usize>,
}

/// The content that others see: none once the thing is gone.
pub open spec fn shown_content(content: Seq<char>, gone: bool) -> Seq<char> {
    if gone {
        Seq::empty()
    } else {
        content
    }
}

/// Copies `content`, or hands back the empty text where the thing is gone.
fn blank_out_deleted_or_removed_info(content: &String, gone: bool) -> (r: String)
    ensures
        r@ == shown_content(content@, gone),
{
    if gone {
        String::new()
    } else {
        content.clone()
    }
}

/// Prepares the message that tells local sessions of a change to the post in
/// row `post_id`. Fails with `NotFound` exactly where the store has no such
/// post.
pub fn send_post_ws_message(
    post_id: usize,
    op: UserOperationCrud,
    websocket_id: Option<usize>,
    person_id: Option<usize>,
    store: &Store,
) -> (r: Result<PostMessage, FederationError>)
    ensures
        r is Ok <==> post_id < store@.posts.len(),
        r matches Err(e) ==> e == FederationError::NotFound,
        r matches Ok(m) ==> {
            let row = store@.posts[post_id as int];
            &&& m.op == op
            &&& m.websocket_id == websocket_id
            &&& m.response.post_view.post == post_id
            &&& m.response.post_view.community == row.community
            &&& m.response.post_view.creator == row.creator
            &&& m.response.post_view.deleted == row.deleted
            &&& m.response.post_view.removed == row.removed
            &&& m.response.post_view.featured_community == row.featured_community
            &&& m.response.post_view.viewer == person_id
        },
{
    if post_id >= store.posts.len() {
        return Err(FederationError::NotFound);
    }
    let row = &store.posts[post_id];
    let post_view = PostView {
        post: post_id,
        community: row.community,
        creator: row.creator,
        deleted: row.deleted,
        removed: row.removed,
        featured_community: row.featured_community,
        viewer: person_id,
    };
    Ok(PostMessage { op, response: PostResponse { post_view }, websocket_id })
}

/// Whether `view` shows the comment in row `comment_id` of `store` to
/// `viewer`.
pub open spec fn is_comment_view(
    view: CommentView,
    store: StoreView,
    comment_id: usize,
    viewer: Option<usize>,
) -> bool {
    let row = store.comments[comment_id as int];
    &&& view.comment == comment_id
    &&& view.post == row.post
    &&& view.creator == row.creator
    &&& view.content@ == shown_content(row.content@, row.deleted || row.removed)
    &&& view.deleted == row.deleted
    &&& view.removed == row.removed
    &&& view.viewer == viewer
}

/// Makes the view of the comment in row `comment_id`.
fn read_comment_view(store: &Store, comment_id: usize, viewer: Option<usize>) -> (r: CommentView)
    requires
        comment_id < store@.comments.len(),
    ensures
        is_comment_view(r, store@, comment_id, viewer),
{
    let row = &store.comments[comment_id];
    CommentView {
        comment: comment_id,
        post: row.post,
        creator: row.creator,
        content: blank_out_deleted_or_removed_info(&row.content, row.deleted || row.removed),
        deleted: row.deleted,
        removed: row.removed,
        viewer,
    }
}

/// Prepares the message that tells local sessions of a change to the
/// comment in row `comment_id`. What goes out names the recipients and no
/// form; what the caller gets names the form and no recipients. Fails with
/// `NotFound` exactly where the store has no such comment.
pub fn send_comment_ws_message(
    comment_id: usize,
    op: UserOperationCrud,
    websocket_id: Option<usize>,
    form_id: Option<String>,
    person_id: Option<usize>,
    recipient_ids: Vec<usize>,
    store: &Store,
) -> (r: Result<CommentMessage, FederationError>)
    ensures
        r is Ok <==> comment_id < store@.comments.len(),
        r matches Err(e) ==> e == FederationError::NotFound,
        r matches Ok(m) ==> {
            &&& m.op == op
            &&& m.websocket_id == websocket_id
            &&& is_comment_view(m.sent.comment_view, store@, comment_id, person_id)
            &&& m.sent.recipient_ids == recipient_ids
            &&& m.sent.form_id is None
            &&& is_comment_view(m.returned.comment_view, store@, comment_id, person_id)
            &&& m.returned.recipient_ids@.len() == 0
            &&& m.returned.form_id == form_id
        },
{
    if comment_id >= store.comments.len() {
        return Err(FederationError::NotFound);
    }
    let sent = CommentResponse {
        comment_view: read_comment_view(store, comment_id, person_id),
        recipient_ids,
        form_id: None,
    };
    let returned = CommentResponse {
        comment_view: read_comment_view(store, comment_id, person_id),
        recipient_ids: Vec::new(),
        form_id,
    };
    Ok(CommentMessage { op, sent, returned, websocket_id })
}

/// As `send_comment_ws_message`, for a change that no session caused and
/// that names nobody.
pub fn send_comment_ws_message_simple(
    comment_id: usize,
    op: UserOperationCrud,
    store: &Store,
) -> (r:
    Result<CommentMessage, FederationError>)
    ensures
        r is Ok <==> comment_id < store@.comments.len(),
        r matches Err(e) ==> e == FederationError::NotFound,
        r matches Ok(m) ==> {
            &&& m.op == op
            &&& m.websocket_id is None
            &&& is_comment_view(m.sent.comment_view, store@, comment_id, None)
            &&& m.sent.recipient_ids@.len() == 0
            &&& m.sent.form_id is None
            &&& is_comment_view(m.returned.comment_view, store@, comment_id, None)
            &&& m.returned.recipient_ids@.len() == 0
            &&& m.returned.form_id is None
        },
{
    send_comment_ws_message(comment_id, op, None, None, None, Vec::new(), store)
}

/// Prepares the message that tells the sessions watching the community in
/// row `community_id` of a change to it. The view that goes out says
/// nothing of the viewer's own subscription. Fails with `NotFound` exactly
/// where the store has no such community.
pub fn send_community_ws_message(
    community_id: usize,
    op: UserOperationCrud,
    websocket_id: Option<usize>,
    person_id: Option<usize>,
    store: &Store,
) -> (r: Result<CommunityMessage, FederationError>)
    ensures
        r is Ok <==> community_id < store@.communities.len(),
        r matches Err(e) ==> e == FederationError::NotFound,
        r matches Ok(m) ==> {
            let row = store@.communities[community_id as int];
            &&& m.op == op
            &&& m.websocket_id == websocket_id
            &&& m.room == community_id
            &&& m.response.community_view.community == community_id
            &&& m.response.community_view.deleted == row.deleted
            &&& m.response.community_view.removed == row.removed
            &&& m.response.community_view.subscribed == SubscribedType::NotSubscribed
        },
{
    if community_id >= store.communities.len() {
        return Err(FederationError::NotFound);
    }
    let row = &store.communities[community_id];
    let community_view = CommunityView {
        community: community_id,
        deleted: row.deleted,
        removed: row.removed,
        subscribed: SubscribedType::NotSubscribed,
    };
    Ok(
        CommunityMessage {
            op,
            response: CommunityResponse { community_view },
            room: community_id,
            websocket_id,
        },
    )
}

impl StoreView {
    /// Whether the recipient of the private message in row `message` is a
    /// known person of this instance.
    pub open spec fn has_local_recipient(self, message: usize) -> bool {
        let recipient = self.private_messages[message as int].recipient;
        recipient < self.persons.len() && self.persons[recipient as int].local
    }
}

/// Prepares the message that tells the recipient of the private message in
/// row `private_message_id` of a change to it. Only a recipient of this
/// instance is told.
///
/// Fails with `NotFound` where the store has no such message, or where the
/// recipient is of this instance but has no account.
pub fn send_pm_ws_message(
    private_message_id: usize,
    op: UserOperationCrud,
    websocket_id: Option<usize>,
    store: &Store,
) -> (r: Result<PrivateMessageMessage, FederationError>)
    ensures
        r is Ok <==> private_message_id < store@.private_messages.len() && (
        store@.has_local_recipient(private_message_id) ==> store@.local_user_of(
            store@.private_messages[private_message_id as int].recipient,
        ) is Some),
        r matches Err(e) ==> e == FederationError::NotFound,
        r matches Ok(m) ==> {
            let row = store@.private_messages[private_message_id as int];
            let view = m.response.private_message_view;
            &&& m.op == op
            &&& m.websocket_id == websocket_id
            &&& view.private_message == private_message_id
            &&& view.creator == row.creator
            &&& view.recipient == row.recipient
            &&& view.content@ == shown_content(row.content@, row.deleted)
            &&& view.deleted == row.deleted
            &&& m.room == if store@.has_local_recipient(private_message_id) {
                store@.local_user_of(row.recipient)
            } else {
                None
            }
        },
{
    if private_message_id >= store.private_messages.len() {
        return Err(FederationError::NotFound);
    }
    let row = &store.private_messages[private_message_id];
    let view = PrivateMessageView {
        private_message: private_message_id,
        creator: row.creator,
        recipient: row.recipient,
        content: blank_out_deleted_or_removed_info(&row.content, row.deleted),
        deleted: row.deleted,
    };
    let mut room: Option<usize> = None;
    if row.recipient < store.persons.len() && store.persons[row.recipient].local {
        match read_person(store, row.recipient) {
            Some(account) => {
                room = Some(account);
            },
            None => {
                return Err(FederationError::NotFound);
            },
        }
    }
    Ok(
        PrivateMessageMessage {
            op,
            response: PrivateMessageResponse { private_message_view: view },
            room,
            websocket_id,
        },
    )
}

} // verus!
