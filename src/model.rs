use vstd::prelude::*;

verus! {

/// A comment row. Timestamps are seconds since the Unix epoch.
#[derive(Debug, Clone, PartialEq, Eq)]
pub struct Comment {
    pub id: i32,
    pub creator_id: i32,
    pub post_id: i32,
    pub parent_id: Option<i32>,
    pub content: String,
    pub removed: bool,
    pub read: bool,
    pub published: i64,
    pub updated: Option<i64>,
    pub deleted: bool,
    pub ap_id: String,
    pub local: bool,
}

/// A user row, sensitive fields included.
#[derive(Debug, Clone, PartialEq, Eq)]
pub struct User_ {
    pub id: i32,
    pub name: String,
    pub preferred_username: Option<String>,
    pub password_encrypted: String,
    pub email: Option<String>,
    pub avatar: Option<String>,
    pub admin: bool,
    pub banned: bool,
    pub published: i64,
    pub updated: Option<i64>,
    pub actor_id: String,
    pub bio: Option<String>,
    pub local: bool,
    pub deleted: bool,
}

/// The projection of a user that may be embedded in other views: no password, no email.
#[derive(Debug, Clone, PartialEq, Eq)]
pub struct UserSafe {
    pub id: i32,
    pub name: String,
    pub preferred_username: Option<String>,
    pub avatar: Option<String>,
    pub admin: bool,
    pub banned: bool,
    pub published: i64,
    pub updated: Option<i64>,
    pub actor_id: String,
    pub bio: Option<String>,
    pub local: bool,
    pub deleted: bool,
}

#[derive(Debug, Clone, PartialEq, Eq)]
pub struct Post {
    pub id: i32,
    pub name: String,
    pub url: Option<String>,
    pub body: Option<String>,
    pub creator_id: i32,
    pub community_id: i32,
    pub removed: bool,
    pub locked: bool,
    pub published: i64,
    pub updated: Option<i64>,
    pub deleted: bool,
    pub nsfw: bool,
    pub ap_id: String,
    pub local: bool,
}

/// A community row, keys included.
#[derive(Debug, Clone, PartialEq, Eq)]
pub struct Community {
    pub id: i32,
    pub name: String,
    pub title: String,
    pub description: Option<String>,
    pub creator_id: i32,
    pub removed: bool,
    pub published: i64,
    pub updated: Option<i64>,
    pub deleted: bool,
    pub nsfw: bool,
    pub actor_id: String,
    pub local: bool,
    pub private_key: Option<String>,
    pub public_key: Option<String>,
}

/// The projection of a community that may be embedded in other views: no keys.
#[derive(Debug, Clone, PartialEq, Eq)]
pub struct CommunitySafe {
    pub id: i32,
    pub name: String,
    pub title: String,
    pub description: Option<String>,
    pub creator_id: i32,
    pub removed: bool,
    pub published: i64,
    pub updated: Option<i64>,
    pub deleted: bool,
    pub nsfw: bool,
    pub actor_id: String,
    pub local: bool,
}

/// Pre-computed counters of one comment. `hot_rank` is the storage layer's
/// time-decayed popularity rank of the comment at query time.
#[derive(Debug, Clone, Copy, PartialEq, Eq)]
pub struct CommentAggregates {
    pub id: i32,
    pub comment_id: i32,
    pub score: i64,
    pub upvotes: i64,
    pub downvotes: i64,
    pub hot_rank: i32,
}

/// The comment author `user_id` is banned from `community_id`.
#[derive(Debug, Clone, Copy, PartialEq, Eq)]
pub struct CommunityUserBan {
    pub id: i32,
    pub community_id: i32,
    pub user_id: i32,
    pub published: i64,
}

/// `user_id` follows `community_id`.
#[derive(Debug, Clone, Copy, PartialEq, Eq)]
pub struct CommunityFollower {
    pub id: i32,
    pub community_id: i32,
    pub user_id: i32,
    pub published: i64,
    pub pending: Option<bool>,
}

/// `user_id` saved `comment_id`.
#[derive(Debug, Clone, Copy, PartialEq, Eq)]
pub struct CommentSaved {
    pub id: i32,
    pub comment_id: i32,
    pub user_id: i32,
    pub published: i64,
}

/// `user_id` voted `score` on `comment_id`.
#[derive(Debug, Clone, Copy, PartialEq, Eq)]
pub struct CommentLike {
    pub id: i32,
    pub user_id: i32,
    pub comment_id: i32,
    pub post_id: i32,
    pub score: i16,
    pub published: i64,
}

pub fn dup_str(s: &Option<String>) -> (r: Option<String>)
    ensures
        r == *s,
{
    match s {
        Some(x) => Some(x.clone()),
        None => None,
    }
}

impl Comment {
    pub fn duplicate(&self) -> (r: Comment)
        ensures
            r == *self,
    {
        Comment {
            id: self.id,
            creator_id: self.creator_id,
            post_id: self.post_id,
            parent_id: self.parent_id,
            content: self.content.clone(),
            removed: self.removed,
            read: self.read,
            published: self.published,
            updated: self.updated,
            deleted: self.deleted,
            ap_id: self.ap_id.clone(),
            local: self.local,
        }
    }
}

impl UserSafe {
    pub fn duplicate(&self) -> (r: UserSafe)
        ensures
            r == *self,
    {
        UserSafe {
            id: self.id,
            name: self.name.clone(),
            preferred_username: dup_str(&self.preferred_username),
            avatar: dup_str(&self.avatar),
            admin: self.admin,
            banned: self.banned,
            published: self.published,
            updated: self.updated,
            actor_id: self.actor_id.clone(),
            bio: dup_str(&self.bio),
            local: self.local,
            deleted: self.deleted,
        }
    }
}

impl User_ {
    /// The safe projection: every field but the password hash and the email.
    pub open spec fn safe(&self) -> UserSafe {
        UserSafe {
            id: self.id,
            name: self.name,
            preferred_username: self.preferred_username,
            avatar: self.avatar,
            admin: self.admin,
            banned: self.banned,
            published: self.published,
            updated: self.updated,
            actor_id: self.actor_id,
            bio: self.bio,
            local: self.local,
            deleted: self.deleted,
        }
    }

    pub fn to_safe(&self) -> (r: UserSafe)
        ensures
            r == self.safe(),
    {
        UserSafe {
            id: self.id,
            name: self.name.clone(),
            preferred_username: dup_str(&self.preferred_username),
            avatar: dup_str(&self.avatar),
            admin: self.admin,
            banned: self.banned,
            published: self.published,
            updated: self.updated,
            actor_id: self.actor_id.clone(),
            bio: dup_str(&self.bio),
            local: self.local,
            deleted: self.deleted,
        }
    }
}

impl Post {
    pub fn duplicate(&self) -> (r: Post)
        ensures
            r == *self,
    {
        Post {
            id: self.id,
            name: self.name.clone(),
            url: dup_str(&self.url),
            body: dup_str(&self.body),
            creator_id: self.creator_id,
            community_id: self.community_id,
            removed: self.removed,
            locked: self.locked,
            published: self.published,
            updated: self.updated,
            deleted: self.deleted,
            nsfw: self.nsfw,
            ap_id: self.ap_id.clone(),
            local: self.local,
        }
    }
}

impl CommunitySafe {
    pub fn duplicate(&self) -> (r: CommunitySafe)
        ensures
            r == *self,
    {
        CommunitySafe {
            id: self.id,
            name: self.name.clone(),
            title: self.title.clone(),
            description: dup_str(&self.description),
            creator_id: self.creator_id,
            removed: self.removed,
            published: self.published,
            updated: self.updated,
            deleted: self.deleted,
            nsfw: self.nsfw,
            actor_id: self.actor_id.clone(),
            local: self.local,
        }
    }
}

impl Community {
    /// The safe projection: every field but the key pair.
    pub open spec fn safe(&self) -> CommunitySafe {
        CommunitySafe {
            id: self.id,
            name: self.name,
            title: self.title,
            description: self.description,
            creator_id: self.creator_id,
            removed: self.removed,
            published: self.published,
            updated: self.updated,
            deleted: self.deleted,
            nsfw: self.nsfw,
            actor_id: self.actor_id,
            local: self.local,
        }
    }

    pub fn to_safe(&self) -> (r: CommunitySafe)
        ensures
            r == self.safe(),
    {
        CommunitySafe {
            id: self.id,
            name: self.name.clone(),
            title: self.title.clone(),
            description: dup_str(&self.description),
            creator_id: self.creator_id,
            removed: self.removed,
            published: self.published,
            updated: self.updated,
            deleted: self.deleted,
            nsfw: self.nsfw,
            actor_id: self.actor_id.clone(),
            local: self.local,
        }
    }
}

/// A table row that an equality join can match on one or two keys.
pub trait Row: Sized {
    spec fn matches_spec(&self, a: i32, b: i32) -> bool;

    fn matches(&self, a: i32, b: i32) -> (r: bool)
        ensures
            r == self.matches_spec(a, b),
    ;
}

impl Row for Comment {
    /// Matches on the comment id; `b` is unused.
    open spec fn matches_spec(&self, a: i32, b: i32) -> bool {
        self.id == a
    }

    fn matches(&self, a: i32, b: i32) -> (r: bool) {
        self.id == a
    }
}

impl Row for User_ {
    /// Matches on the user id; `b` is unused.
    open spec fn matches_spec(&self, a: i32, b: i32) -> bool {
        self.id == a
    }

    fn matches(&self, a: i32, b: i32) -> (r: bool) {
        self.id == a
    }
}

impl Row for Post {
    /// Matches on the post id; `b` is unused.
    open spec fn matches_spec(&self, a: i32, b: i32) -> bool {
        self.id == a
    }

    fn matches(&self, a: i32, b: i32) -> (r: bool) {
        self.id == a
    }
}

impl Row for Community {
    /// Matches on the community id; `b` is unused.
    open spec fn matches_spec(&self, a: i32, b: i32) -> bool {
        self.id == a
    }

    fn matches(&self, a: i32, b: i32) -> (r: bool) {
        self.id == a
    }
}

impl Row for CommentAggregates {
    /// Matches on the comment id; `b` is unused.
    open spec fn matches_spec(&self, a: i32, b: i32) -> bool {
        self.comment_id == a
    }

    fn matches(&self, a: i32, b: i32) -> (r: bool) {
        self.comment_id == a
    }
}

impl Row for CommunityUserBan {
    /// Matches on (community id, user id).
    open spec fn matches_spec(&self, a: i32, b: i32) -> bool {
        self.community_id == a && self.user_id == b
    }

    fn matches(&self, a: i32, b: i32) -> (r: bool) {
        self.community_id == a && self.user_id == b
    }
}

impl Row for CommunityFollower {
    /// Matches on (community id, user id).
    open spec fn matches_spec(&self, a: i32, b: i32) -> bool {
        self.community_id == a && self.user_id == b
    }

    fn matches(&self, a: i32, b: i32) -> (r: bool) {
        self.community_id == a && self.user_id == b
    }
}

impl Row for CommentSaved {
    /// Matches on (comment id, user id).
    open spec fn matches_spec(&self, a: i32, b: i32) -> bool {
        self.comment_id == a && self.user_id == b
    }

    fn matches(&self, a: i32, b: i32) -> (r: bool) {
        self.comment_id == a && self.user_id == b
    }
}

impl Row for CommentLike {
    /// Matches on (comment id, user id).
    open spec fn matches_spec(&self, a: i32, b: i32) -> bool {
        self.comment_id == a && self.user_id == b
    }

    fn matches(&self, a: i32, b: i32) -> (r: bool) {
        self.comment_id == a && self.user_id == b
    }
}

/// Index of the row of `s` that a join on `(a, b)` picks: the last one that
/// matches. With unique keys it is the only one.
pub open spec fn last_match<T: Row>(s: Seq<T>, a: i32, b: i32) -> Option<int>
    decreases s.len(),
{
    if s.len() == 0 {
        None
    } else if s.last().matches_spec(a, b) {
        Some(s.len() - 1)
    } else {
        last_match(s.drop_last(), a, b)
    }
}

/// The row a join on `(a, b)` picks, if any.
pub open spec fn lookup<T: Row>(s: Seq<T>, a: i32, b: i32) -> Option<T> {
    match last_match(s, a, b) {
        Some(i) => Some(s[i]),
        None => None,
    }
}

pub proof fn lemma_last_match<T: Row>(s: Seq<T>, a: i32, b: i32)
    ensures
        last_match(s, a, b) matches Some(i) ==> 0 <= i < s.len() && s[i].matches_spec(a, b),
        last_match(s, a, b) is None <==> forall|k: int| 0 <= k < s.len() ==> !#[trigger] s[k].matches_spec(a, b),
    decreases s.len(),
{
    if s.len() > 0 {
        lemma_last_match(s.drop_last(), a, b);
        if !s.last().matches_spec(a, b) {
            assert forall|k: int| 0 <= k < s.len() - 1 implies #[trigger] s[k].matches_spec(a, b) == s.drop_last()[k].matches_spec(a, b) by {}
        }
    }
}

/// Finds the row that a join on `(a, b)` picks.
pub fn find_row<T: Row>(v: &Vec<T>, a: i32, b: i32) -> (r: Option<usize>)
    ensures
        match r {
            Some(i) => last_match(v@, a, b) == Some(i as int) && i < v@.len(),
            None => last_match(v@, a, b) is None,
        },
{
    let mut r: Option<usize> = None;
    let mut i: usize = 0;
    while i < v.len()
        invariant
            0 <= i <= v@.len(),
            match r {
                Some(j) => last_match(v@.subrange(0, i as int), a, b) == Some(j as int) && j < i,
                None => last_match(v@.subrange(0, i as int), a, b) is None,
            },
        decreases v@.len() - i,
    {
        if v[i].matches(a, b) {
            r = Some(i);
        }
        assert(v@.subrange(0, i + 1).drop_last() =~= v@.subrange(0, i as int));
        i += 1;
    }
    assert(v@.subrange(0, v@.len() as int) =~= v@);
    r
}

/// A snapshot of the relations that a comment view is joined from.
pub struct Dataset {
    pub comments: Vec<Comment>,
    pub users: Vec<User_>,
    pub posts: Vec<Post>,
    pub communities: Vec<Community>,
    pub aggregates: Vec<CommentAggregates>,
    pub bans: Vec<CommunityUserBan>,
    pub follows: Vec<CommunityFollower>,
    pub saves: Vec<CommentSaved>,
    pub likes: Vec<CommentLike>,
}

impl Dataset {
    /// Real user identifiers are non-negative in every viewer-scoped table.
    pub open spec fn wf(&self) -> bool {
        &&& forall|i: int| 0 <= i < self.follows@.len() ==> #[trigger] self.follows@[i].user_id >= 0
        &&& forall|i: int| 0 <= i < self.saves@.len() ==> #[trigger] self.saves@[i].user_id >= 0
        &&& forall|i: int| 0 <= i < self.likes@.len() ==> #[trigger] self.likes@[i].user_id >= 0
    }
}

} // verus!
