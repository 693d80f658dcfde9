use vstd::prelude::*;
use crate::model::{find_row, lookup, Comment, Dataset, UserSafe};
use crate::view::{decode, CommentView, CommentViewRow};

verus! {

/// Which communities' comments a listing draws from.
#[derive(Debug, Clone, Copy, PartialEq, Eq)]
pub enum ListingType {
    All,
    Local,
    Subscribed,
}

/// How a listing is ranked.
#[derive(Debug, Clone, Copy, PartialEq, Eq)]
pub enum SortType {
    Active,
    Hot,
    New,
    TopDay,
    TopWeek,
    TopMonth,
    TopYear,
    TopAll,
}

/// The only failure: no comment with the requested id, or no complete row for it.
#[derive(Debug, Clone, Copy, PartialEq, Eq)]
pub enum QueryError {
    NotFound,
}

/// Stands for "no viewer" in the viewer-scoped joins; real ids are non-negative.
pub const NO_VIEWER: i32 = -1;

pub const DEFAULT_LIMIT: i64 = 10;

pub const MAX_LIMIT: i64 = 50;

pub open spec fn effective_viewer(my_user_id: Option<i32>) -> i32 {
    match my_user_id {
        Some(v) => v,
        None => NO_VIEWER,
    }
}

/// The id that the viewer-scoped joins match on.
pub fn effective_viewer_id(my_user_id: Option<i32>) -> (r: i32)
    ensures
        r == effective_viewer(my_user_id),
{
    match my_user_id {
        Some(v) => v,
        None => NO_VIEWER,
    }
}

pub open spec fn page_limit(limit: Option<i64>) -> int {
    match limit {
        None => DEFAULT_LIMIT as int,
        Some(l) => if l < 1 {
            1
        } else if l > MAX_LIMIT {
            MAX_LIMIT as int
        } else {
            l as int
        },
    }
}

/// `(page - 1) * limit` for a 1-indexed page (pages below 1 count as 1),
/// capped at `i64::MAX`.
pub open spec fn page_offset(page: Option<i64>, limit: Option<i64>) -> int {
    let p: int = match page {
        None => 1,
        Some(p) => if p < 1 {
            1
        } else {
            p as int
        },
    };
    let o = (p - 1) * page_limit(limit);
    if o > i64::MAX {
        i64::MAX as int
    } else {
        o
    }
}

/// Page math: unset limit is the default, a limit is clamped to `1..=MAX_LIMIT`,
/// pages are 1-indexed.
pub fn limit_and_offset(page: Option<i64>, limit: Option<i64>) -> (r: (i64, i64))
    ensures
        r.0 == page_limit(limit),
        r.1 == page_offset(page, limit),
{
    let l: i64 = match limit {
        None => DEFAULT_LIMIT,
        Some(l) => if l < 1 {
            1
        } else if l > MAX_LIMIT {
            MAX_LIMIT
        } else {
            l
        },
    };
    let p: i64 = match page {
        None => 1,
        Some(p) => if p < 1 {
            1
        } else {
            p
        },
    };
    let o: i64 = if p - 1 > i64::MAX / l {
        proof {
            assert((p - 1) * l > i64::MAX) by (nonlinear_arith)
                requires
                    p - 1 > i64::MAX / l,
                    l >= 1,
            ;
        }
        i64::MAX
    } else {
        proof {
            assert(0 <= (p - 1) * l <= i64::MAX) by (nonlinear_arith)
                requires
                    p - 1 <= i64::MAX / l,
                    l >= 1,
                    p >= 1,
            ;
        }
        (p - 1) * l
    };
    (l, o)
}

/// The segments that a join of comment `c` yields, for viewer-scoped joins
/// keyed by `viewer`; `None` where an inner join finds no row.
pub open spec fn parent_of(d: Dataset, c: Comment) -> Option<Comment> {
    match c.parent_id {
        Some(p) => lookup(d.comments@, p, 0),
        None => None,
    }
}

/// The safe projection of the parent's author, where both exist.
pub open spec fn recipient_of(d: Dataset, c: Comment) -> Option<UserSafe> {
    match parent_of(d, c) {
        Some(p) => match lookup(d.users@, p.creator_id, 0) {
            Some(u) => Some(u.safe()),
            None => None,
        },
        None => None,
    }
}

pub open spec fn vote_of(d: Dataset, c: Comment, viewer: i32) -> Option<i16> {
    match lookup(d.likes@, c.id, viewer) {
        Some(l) => Some(l.score),
        None => None,
    }
}

pub open spec fn join_spec(d: Dataset, c: Comment, viewer: i32) -> Option<CommentViewRow> {
    let parent = parent_of(d, c);
    let recipient = recipient_of(d, c);
    match (lookup(d.users@, c.creator_id, 0), lookup(d.posts@, c.post_id, 0)) {
        (Some(creator), Some(post)) => match (
            lookup(d.communities@, post.community_id, 0),
            lookup(d.aggregates@, c.id, 0),
        ) {
            (Some(community), Some(counts)) => Some(
                CommentViewRow {
                    comment: c,
                    creator: creator.safe(),
                    parent,
                    recipient,
                    post,
                    community: community.safe(),
                    counts,
                    creator_ban: lookup(d.bans@, community.id, c.creator_id),
                    subscription: lookup(d.follows@, post.community_id, viewer),
                    saved_mark: lookup(d.saves@, c.id, viewer),
                    my_vote: vote_of(d, c, viewer),
                },
            ),
            _ => None,
        },
        _ => None,
    }
}

/// Joins comment `c` with its author, parent, parent's author, post,
/// community, counters and the facts keyed by `viewer`.
fn find_parent(d: &Dataset, c: &Comment) -> (r: (Option<Comment>, Option<UserSafe>))
    ensures
        r.0 == parent_of(*d, *c),
        r.1 == recipient_of(*d, *c),
{
    let parent = match c.parent_id {
        Some(p) => match find_row(&d.comments, p, 0) {
            Some(i) => Some(d.comments[i].duplicate()),
            None => None,
        },
        None => None,
    };
    let recipient = match &parent {
        Some(p) => match find_row(&d.users, p.creator_id, 0) {
            Some(i) => Some(d.users[i].to_safe()),
            None => None,
        },
        None => None,
    };
    (parent, recipient)
}

#[verifier::rlimit(40)]
pub fn join_comment(d: &Dataset, c: &Comment, viewer: i32) -> (r: Option<CommentViewRow>)
    ensures
        r == join_spec(*d, *c, viewer),
{
    let (parent, recipient) = find_parent(d, c);
    let ui = match find_row(&d.users, c.creator_id, 0) {
        Some(i) => i,
        None => return None,
    };
    let pi = match find_row(&d.posts, c.post_id, 0) {
        Some(i) => i,
        None => return None,
    };
    let post = d.posts[pi].duplicate();
    let ci = match find_row(&d.communities, post.community_id, 0) {
        Some(i) => i,
        None => return None,
    };
    let ai = match find_row(&d.aggregates, c.id, 0) {
        Some(i) => i,
        None => return None,
    };
    let community = d.communities[ci].to_safe();
    let creator_ban = match find_row(&d.bans, community.id, c.creator_id) {
        Some(i) => Some(d.bans[i]),
        None => None,
    };
    let subscription = match find_row(&d.follows, post.community_id, viewer) {
        Some(i) => Some(d.follows[i]),
        None => None,
    };
    let saved_mark = match find_row(&d.saves, c.id, viewer) {
        Some(i) => Some(d.saves[i]),
        None => None,
    };
    let my_vote = match find_row(&d.likes, c.id, viewer) {
        Some(i) => Some(d.likes[i].score),
        None => None,
    };
    Some(
        CommentViewRow {
            comment: c.duplicate(),
            creator: d.users[ui].to_safe(),
            parent,
            recipient,
            post,
            community,
            counts: d.aggregates[ai],
            creator_ban,
            subscription,
            saved_mark,
            my_vote,
        },
    )
}

/// The lowercase form of a string, as std's `to_lowercase` gives it.
pub uninterp spec fn lower_of(s: Seq<char>) -> Seq<char>;

/// Relies on str::to_lowercase: the lowercase form depends on the characters alone.
#[verifier::external_body]
fn lowercase_chars(s: &String) -> (r: Vec<char>)
    ensures
        r@ == lower_of(s@),
{
    s.to_lowercase().chars().collect()
}

/// `needle` occurs in `hay` as a contiguous run.
pub open spec fn contains_run(hay: Seq<char>, needle: Seq<char>) -> bool {
    exists|i: int|
        0 <= i && i + needle.len() <= hay.len() && #[trigger] hay.subrange(i, i + needle.len())
            == needle
}

/// Whether `needle` occurs in `hay` as a contiguous run.
pub fn contains_chars(hay: &Vec<char>, needle: &Vec<char>) -> (r: bool)
    ensures
        r == contains_run(hay@, needle@),
{
    let n = needle.len();
    if n > hay.len() {
        return false;
    }
    if n == 0 {
        assert(hay@.subrange(0, 0 + needle@.len() as int) =~= needle@);
        return true;
    }
    let h = hay.len();
    let last = h - n;
    let mut i: usize = 0;
    while i <= last
        invariant
            n == needle@.len(),
            n > 0,
            h == hay@.len(),
            last + n == h,
            0 <= i <= last + 1,
            forall|k: int| 0 <= k < i ==> #[trigger] hay@.subrange(k, k + n) != needle@,
        decreases last + 1 - i,
    {
        let mut j: usize = 0;
        let mut same = true;
        while j < n
            invariant
                n == needle@.len(),
                h == hay@.len(),
                last + n == h,
                i <= last,
                0 <= j <= n,
                same ==> forall|k: int| 0 <= k < j ==> hay@[i + k] == needle@[k],
                !same ==> hay@.subrange(i as int, i + n) != needle@,
            decreases n - j,
        {
            if same && hay[i + j] != needle[j] {
                same = false;
                assert(hay@.subrange(i as int, i + n)[j as int] != needle@[j as int]);
            }
            j += 1;
        }
        if same {
            assert(hay@.subrange(i as int, i + n) =~= needle@);
            return true;
        }
        i += 1;
    }
    proof {
        assert forall|k: int|
            0 <= k && k + n <= hay@.len() implies #[trigger] hay@.subrange(k, k + n) != needle@ by {
            assert(k < i);
        }
    }
    false
}

/// Comments published after `now` minus the window of a top sort (a day, a
/// week, a month of 30 days, a year of 365 days); every comment for the
/// other sorts.
pub open spec fn in_window(sort: SortType, published: i64, now: i64) -> bool {
    match sort {
        SortType::TopDay => published > now - 86400,
        SortType::TopWeek => published > now - 604800,
        SortType::TopMonth => published > now - 2592000,
        SortType::TopYear => published > now - 31536000,
        _ => true,
    }
}

fn within_window(sort: SortType, published: i64, now: i64) -> (r: bool)
    ensures
        r == in_window(sort, published, now),
{
    let window: i128 = match sort {
        SortType::TopDay => 86400,
        SortType::TopWeek => 604800,
        SortType::TopMonth => 2592000,
        SortType::TopYear => 31536000,
        _ => return true,
    };
    published as i128 > now as i128 - window
}

/// The accumulated scope, filters, ranking and pagination of a comment listing.
pub struct CommentQueryBuilder {
    /// The effective viewer id: the viewer's id, or `NO_VIEWER`.
    pub my_user_id: i32,
    pub listing_type: ListingType,
    pub sort: SortType,
    pub for_community_id: Option<i32>,
    pub for_community_name: Option<String>,
    pub for_post_id: Option<i32>,
    pub for_creator_id: Option<i32>,
    pub for_recipient_id: Option<i32>,
    pub search_term: Option<String>,
    pub saved_only: bool,
    pub unread_only: bool,
    pub page: Option<i64>,
    pub limit: Option<i64>,
}

/// Whether row `r` passes every filter of `q`, the scope and the time window
/// of the sort, at time `now`.
pub open spec fn passes(q: CommentQueryBuilder, r: CommentViewRow, now: i64) -> bool {
    &&& match q.for_recipient_id {
        Some(id) => (match r.recipient {
            Some(u) => u.id == id,
            None => false,
        }) && !r.comment.deleted && !r.comment.removed,
        None => true,
    }
    &&& q.unread_only ==> !r.comment.read
    &&& match q.for_creator_id {
        Some(id) => r.comment.creator_id == id,
        None => true,
    }
    &&& match q.for_community_id {
        Some(id) => r.post.community_id == id,
        None => true,
    }
    &&& match q.for_community_name {
        Some(n) => r.community.name@ == n@ && r.comment.local,
        None => true,
    }
    &&& match q.for_post_id {
        Some(id) => r.comment.post_id == id,
        None => true,
    }
    &&& match q.search_term {
        Some(t) => contains_run(lower_of(r.comment.content@), lower_of(t@)),
        None => true,
    }
    &&& match q.listing_type {
        ListingType::All => true,
        ListingType::Local => r.community.local,
        ListingType::Subscribed => r.subscription is Some,
    }
    &&& q.saved_only ==> r.saved_mark is Some
    &&& in_window(q.sort, r.comment.published, now)
}

/// The ranking keys of a row, compared lexicographically, larger first.
pub open spec fn sort_key(sort: SortType, r: CommentViewRow) -> (i64, i64) {
    match sort {
        SortType::Hot | SortType::Active => (r.counts.hot_rank as i64, r.comment.published),
        SortType::New => (r.comment.published, 0),
        _ => (r.counts.score, 0),
    }
}

/// `x` ranks strictly ahead of `y`.
pub open spec fn ahead(sort: SortType, x: CommentViewRow, y: CommentViewRow) -> bool {
    let kx = sort_key(sort, x);
    let ky = sort_key(sort, y);
    kx.0 > ky.0 || (kx.0 == ky.0 && kx.1 > ky.1)
}

/// Where `x` goes in `s` from index `j` on: before the first row it ranks ahead of.
pub open spec fn slot_from(sort: SortType, s: Seq<CommentViewRow>, x: CommentViewRow, j: int) -> int
    decreases s.len() - j,
{
    if j < 0 || j >= s.len() {
        s.len() as int
    } else if ahead(sort, x, s[j]) {
        j
    } else {
        slot_from(sort, s, x, j + 1)
    }
}

/// Ranks `s` by inserting each row, in order, after every row it does not
/// rank ahead of: rows with equal keys keep their order.
pub open spec fn ranked(sort: SortType, s: Seq<CommentViewRow>) -> Seq<CommentViewRow>
    decreases s.len(),
{
    if s.len() == 0 {
        s
    } else {
        let t = ranked(sort, s.drop_last());
        t.insert(slot_from(sort, t, s.last(), 0), s.last())
    }
}

fn key_of(sort: SortType, r: &CommentViewRow) -> (k: (i64, i64))
    ensures
        k == sort_key(sort, *r),
{
    match sort {
        SortType::Hot | SortType::Active => (r.counts.hot_rank as i64, r.comment.published),
        SortType::New => (r.comment.published, 0),
        _ => (r.counts.score, 0),
    }
}

fn ranks_ahead(sort: SortType, x: &CommentViewRow, y: &CommentViewRow) -> (b: bool)
    ensures
        b == ahead(sort, *x, *y),
{
    let kx = key_of(sort, x);
    let ky = key_of(sort, y);
    kx.0 > ky.0 || (kx.0 == ky.0 && kx.1 > ky.1)
}

pub proof fn lemma_slot_bounds(sort: SortType, s: Seq<CommentViewRow>, x: CommentViewRow, j: int)
    requires
        0 <= j <= s.len(),
    ensures
        j <= slot_from(sort, s, x, j) <= s.len(),
    decreases s.len() - j,
{
    if j < s.len() && !ahead(sort, x, s[j]) {
        lemma_slot_bounds(sort, s, x, j + 1);
    }
}

/// Ranks `rows` as `ranked` does.
pub fn rank_rows(sort: SortType, rows: Vec<CommentViewRow>) -> (out: Vec<CommentViewRow>)
    ensures
        out@ == ranked(sort, rows@),
{
    let mut out: Vec<CommentViewRow> = Vec::new();
    let mut rest = rows;
    let ghost all = rest@;
    let n = rest.len();
    let mut i: usize = 0;
    while i < n
        invariant
            n == all.len(),
            0 <= i <= n,
            rest@ == all.subrange(i as int, n as int),
            out@ == ranked(sort, all.subrange(0, i as int)),
        decreases n - i,
    {
        let x = rest.remove(0);
        assert(x == all[i as int]);
        let mut j: usize = 0;
        while j < out.len() && !ranks_ahead(sort, &x, &out[j])
            invariant
                0 <= j <= out@.len(),
                slot_from(sort, out@, x, 0) == slot_from(sort, out@, x, j as int),
            decreases out@.len() - j,
        {
            j += 1;
        }
        proof {
            assert(all.subrange(0, i + 1).drop_last() =~= all.subrange(0, i as int));
            assert(all.subrange(0, i + 1).last() == x);
        }
        out.insert(j, x);
        i += 1;
    }
    assert(all.subrange(0, n as int) =~= all);
    out
}

/// The joined rows of `cs` that pass the filters of `q`, in table order.
pub open spec fn candidates(d: Dataset, q: CommentQueryBuilder, cs: Seq<Comment>, now: i64) -> Seq<
    CommentViewRow,
>
    decreases cs.len(),
{
    if cs.len() == 0 {
        Seq::empty()
    } else {
        let before = candidates(d, q, cs.drop_last(), now);
        match join_spec(d, cs.last(), q.my_user_id) {
            Some(r) => if passes(q, r, now) {
                before.push(r)
            } else {
                before
            },
            None => before,
        }
    }
}

/// The page of `s` that starts at `offset` and holds at most `limit` rows.
pub open spec fn page_of<T>(s: Seq<T>, limit: int, offset: int) -> Seq<T> {
    let lo = if offset < s.len() {
        offset
    } else {
        s.len() as int
    };
    let hi = if offset + limit < s.len() {
        offset + limit
    } else {
        s.len() as int
    };
    s.subrange(lo, hi)
}

/// The rows that a listing of `q` over `d` at time `now` returns, before decoding.
pub open spec fn listing(d: Dataset, q: CommentQueryBuilder, now: i64) -> Seq<CommentViewRow> {
    page_of(
        ranked(q.sort, candidates(d, q, d.comments@, now)),
        page_limit(q.limit),
        page_offset(q.page, q.limit),
    )
}

/// The view that a lookup of comment `id` for viewer `my_user_id` returns.
pub open spec fn read_spec(d: Dataset, id: i32, my_user_id: Option<i32>) -> Result<
    CommentView,
    QueryError,
> {
    match lookup(d.comments@, id, 0) {
        Some(c) => match join_spec(d, c, effective_viewer(my_user_id)) {
            Some(r) => Ok(decode(r)),
            None => Err(QueryError::NotFound),
        },
        None => Err(QueryError::NotFound),
    }
}

impl CommentView {
    /// Looks up one comment's view, as seen by viewer `my_user_id`.
    pub fn read(d: &Dataset, comment_id: i32, my_user_id: Option<i32>) -> (r: Result<
        CommentView,
        QueryError,
    >)
        ensures
            r == read_spec(*d, comment_id, my_user_id),
    {
        let viewer = effective_viewer_id(my_user_id);
        match find_row(&d.comments, comment_id, 0) {
            Some(i) => match join_comment(d, &d.comments[i], viewer) {
                Some(row) => Ok(CommentView::from_row(&row)),
                None => Err(QueryError::NotFound),
            },
            None => Err(QueryError::NotFound),
        }
    }
}

fn row_passes(q: &CommentQueryBuilder, r: &CommentViewRow, term: &Option<Vec<char>>, now: i64) -> (b:
    bool)
    requires
        match q.search_term {
            Some(t) => match *term {
                Some(v) => v@ == lower_of(t@),
                None => false,
            },
            None => term is None,
        },
    ensures
        b == passes(*q, *r, now),
{
    if let Some(id) = q.for_recipient_id {
        let to_them = match &r.recipient {
            Some(u) => u.id == id,
            None => false,
        };
        if !to_them || r.comment.deleted || r.comment.removed {
            return false;
        }
    }
    if q.unread_only && r.comment.read {
        return false;
    }
    if let Some(id) = q.for_creator_id {
        if r.comment.creator_id != id {
            return false;
        }
    }
    if let Some(id) = q.for_community_id {
        if r.post.community_id != id {
            return false;
        }
    }
    if let Some(n) = &q.for_community_name {
        if !(r.community.name == *n) || !r.comment.local {
            return false;
        }
    }
    if let Some(id) = q.for_post_id {
        if r.comment.post_id != id {
            return false;
        }
    }
    if let Some(t) = term {
        let content = lowercase_chars(&r.comment.content);
        if !contains_chars(&content, t) {
            return false;
        }
    }
    let in_scope = match q.listing_type {
        ListingType::All => true,
        ListingType::Local => r.community.local,
        ListingType::Subscribed => r.subscription.is_some(),
    };
    if !in_scope {
        return false;
    }
    if q.saved_only && r.saved_mark.is_none() {
        return false;
    }
    within_window(q.sort, r.comment.published, now)
}

impl CommentQueryBuilder {
    /// A listing for viewer `my_user_id`: every comment, newest first, first page.
    pub fn create(my_user_id: Option<i32>) -> (r: Self)
        ensures
            r.my_user_id == effective_viewer(my_user_id),
            r.listing_type == ListingType::All,
            r.sort == SortType::New,
            r.for_community_id is None,
            r.for_community_name is None,
            r.for_post_id is None,
            r.for_creator_id is None,
            r.for_recipient_id is None,
            r.search_term is None,
            !r.saved_only,
            !r.unread_only,
            r.page is None,
            r.limit is None,
    {
        CommentQueryBuilder {
            my_user_id: effective_viewer_id(my_user_id),
            listing_type: ListingType::All,
            sort: SortType::New,
            for_community_id: None,
            for_community_name: None,
            for_post_id: None,
            for_creator_id: None,
            for_recipient_id: None,
            search_term: None,
            saved_only: false,
            unread_only: false,
            page: None,
            limit: None,
        }
    }

    pub fn listing_type(self, listing_type: ListingType) -> (r: Self)
        ensures
            r == (CommentQueryBuilder { listing_type, ..self }),
    {
        let mut b = self;
        b.listing_type = listing_type;
        b
    }

    pub fn sort(self, sort: SortType) -> (r: Self)
        ensures
            r == (CommentQueryBuilder { sort, ..self }),
    {
        let mut b = self;
        b.sort = sort;
        b
    }

    pub fn for_post_id(self, for_post_id: Option<i32>) -> (r: Self)
        ensures
            r == (CommentQueryBuilder { for_post_id, ..self }),
    {
        let mut b = self;
        b.for_post_id = for_post_id;
        b
    }

    pub fn for_creator_id(self, for_creator_id: Option<i32>) -> (r: Self)
        ensures
            r == (CommentQueryBuilder { for_creator_id, ..self }),
    {
        let mut b = self;
        b.for_creator_id = for_creator_id;
        b
    }

    pub fn for_recipient_id(self, for_recipient_id: Option<i32>) -> (r: Self)
        ensures
            r == (CommentQueryBuilder { for_recipient_id, ..self }),
    {
        let mut b = self;
        b.for_recipient_id = for_recipient_id;
        b
    }

    pub fn for_community_id(self, for_community_id: Option<i32>) -> (r: Self)
        ensures
            r == (CommentQueryBuilder { for_community_id, ..self }),
    {
        let mut b = self;
        b.for_community_id = for_community_id;
        b
    }

    pub fn for_community_name(self, for_community_name: Option<String>) -> (r: Self)
        ensures
            r == (CommentQueryBuilder { for_community_name, ..self }),
    {
        let mut b = self;
        b.for_community_name = for_community_name;
        b
    }

    pub fn search_term(self, search_term: Option<String>) -> (r: Self)
        ensures
            r == (CommentQueryBuilder { search_term, ..self }),
    {
        let mut b = self;
        b.search_term = search_term;
        b
    }

    pub fn saved_only(self, saved_only: bool) -> (r: Self)
        ensures
            r == (CommentQueryBuilder { saved_only, ..self }),
    {
        let mut b = self;
        b.saved_only = saved_only;
        b
    }

    pub fn unread_only(self, unread_only: bool) -> (r: Self)
        ensures
            r == (CommentQueryBuilder { unread_only, ..self }),
    {
        let mut b = self;
        b.unread_only = unread_only;
        b
    }

    pub fn page(self, page: Option<i64>) -> (r: Self)
        ensures
            r == (CommentQueryBuilder { page, ..self }),
    {
        let mut b = self;
        b.page = page;
        b
    }

    pub fn limit(self, limit: Option<i64>) -> (r: Self)
        ensures
            r == (CommentQueryBuilder { limit, ..self }),
    {
        let mut b = self;
        b.limit = limit;
        b
    }

    /// Joins every comment, keeps those that pass the filters, ranks them and
    /// returns the requested page, decoded.
    pub fn list(self, d: &Dataset, now: i64) -> (r: Vec<CommentView>)
        ensures
            r@ == listing(*d, self, now).map_values(|x: CommentViewRow| decode(x)),
    {
        let term = match &self.search_term {
            Some(t) => Some(lowercase_chars(t)),
            None => None,
        };
        let mut rows: Vec<CommentViewRow> = Vec::new();
        let mut i: usize = 0;
        while i < d.comments.len()
            invariant
                0 <= i <= d.comments@.len(),
                rows@ == candidates(*d, self, d.comments@.subrange(0, i as int), now),
                match self.search_term {
                    Some(t) => match term {
                        Some(v) => v@ == lower_of(t@),
                        None => false,
                    },
                    None => term is None,
                },
            decreases d.comments@.len() - i,
        {
            proof {
                assert(d.comments@.subrange(0, i + 1).drop_last() =~= d.comments@.subrange(0, i as int));
            }
            match join_comment(d, &d.comments[i], self.my_user_id) {
                Some(row) => {
                    if row_passes(&self, &row, &term, now) {
                        rows.push(row);
                    }
                },
                None => {},
            }
            i += 1;
        }
        assert(d.comments@.subrange(0, d.comments@.len() as int) =~= d.comments@);
        let ranked_rows = rank_rows(self.sort, rows);
        let (limit, offset) = limit_and_offset(self.page, self.limit);
        let len = ranked_rows.len();
        let lo: usize = if (offset as i128) < (len as i128) {
            offset as usize
        } else {
            len
        };
        let hi: usize = if (offset as i128) + (limit as i128) < (len as i128) {
            ((offset as i128) + (limit as i128)) as usize
        } else {
            len
        };
        let ghost page = page_of(ranked_rows@, limit as int, offset as int);
        assert(page == ranked_rows@.subrange(lo as int, hi as int));
        let mut out: Vec<CommentView> = Vec::new();
        let mut k: usize = lo;
        while k < hi
            invariant
                lo <= k <= hi <= ranked_rows@.len(),
                out@ == ranked_rows@.subrange(lo as int, k as int).map_values(
                    |x: CommentViewRow| decode(x),
                ),
            decreases hi - k,
        {
            out.push(CommentView::from_row(&ranked_rows[k]));
            k += 1;
            assert(out@ =~= ranked_rows@.subrange(lo as int, k as int).map_values(
                |x: CommentViewRow| decode(x),
            ));
        }
        out
    }
}

} // verus!
