use lemmy_comment_view::model::{
    Comment, CommentAggregates, CommentLike, CommentSaved, Community, CommunityFollower,
    CommunityUserBan, Dataset, Post, User_,
};
use lemmy_comment_view::query::{
    contains_chars, effective_viewer_id, limit_and_offset, CommentQueryBuilder, ListingType,
    QueryError, SortType,
};
use lemmy_comment_view::view::CommentView;

const NOW: i64 = 1_700_000_000;
const HOUR: i64 = 3600;

fn user(id: i32, name: &str) -> User_ {
    User_ {
        id,
        name: name.to_string(),
        preferred_username: None,
        password_encrypted: "SECRET-REDACTED".to_string(),
        email: Some(format!("{}@example.com", name)),
        avatar: None,
        admin: false,
        banned: false,
        published: NOW - 1000 * HOUR,
        updated: None,
        actor_id: format!("https://example.com/u/{}", name),
        bio: None,
        local: true,
        deleted: false,
    }
}

fn community(id: i32, name: &str, local: bool) -> Community {
    Community {
        id,
        name: name.to_string(),
        title: name.to_uppercase(),
        description: None,
        creator_id: 1,
        removed: false,
        published: NOW - 1000 * HOUR,
        updated: None,
        deleted: false,
        nsfw: false,
        actor_id: format!("https://example.com/c/{}", name),
        local,
        private_key: Some("key".to_string()),
        public_key: Some("pub".to_string()),
    }
}

fn post(id: i32, community_id: i32) -> Post {
    Post {
        id,
        name: format!("post {}", id),
        url: None,
        body: None,
        creator_id: 1,
        community_id,
        removed: false,
        locked: false,
        published: NOW - 500 * HOUR,
        updated: None,
        deleted: false,
        nsfw: false,
        ap_id: format!("https://example.com/post/{}", id),
        local: true,
    }
}

fn comment(id: i32, creator_id: i32, post_id: i32, parent_id: Option<i32>, published: i64) -> Comment {
    Comment {
        id,
        creator_id,
        post_id,
        parent_id,
        content: format!("comment number {}", id),
        removed: false,
        read: false,
        published,
        updated: None,
        deleted: false,
        ap_id: format!("https://example.com/comment/{}", id),
        local: true,
    }
}

fn counts(comment_id: i32, score: i64, hot_rank: i32) -> CommentAggregates {
    CommentAggregates { id: comment_id, comment_id, score, upvotes: score, downvotes: 0, hot_rank }
}

fn empty() -> Dataset {
    Dataset {
        comments: vec![],
        users: vec![user(1, "alice"), user(2, "bob"), user(3, "carol")],
        posts: vec![post(10, 100), post(11, 101)],
        communities: vec![community(100, "main", true), community(101, "remote", false)],
        aggregates: vec![],
        bans: vec![],
        follows: vec![],
        saves: vec![],
        likes: vec![],
    }
}

fn add(d: &mut Dataset, c: Comment, score: i64, hot_rank: i32) {
    d.aggregates.push(counts(c.id, score, hot_rank));
    d.comments.push(c);
}

/// Comment 42 by alice, no parent, score 3; bob (id 2) upvoted and saved it.
fn scenario() -> Dataset {
    let mut d = empty();
    add(&mut d, comment(42, 1, 10, None, NOW - HOUR), 3, 0);
    d.likes.push(CommentLike { id: 1, user_id: 2, comment_id: 42, post_id: 10, score: 1, published: NOW });
    d.saves.push(CommentSaved { id: 1, comment_id: 42, user_id: 2, published: NOW });
    d.follows.push(CommunityFollower { id: 1, community_id: 100, user_id: 2, published: NOW, pending: None });
    d
}

fn ids(v: &[CommentView]) -> Vec<i32> {
    v.iter().map(|x| x.comment.id).collect()
}

#[test]
fn read_with_viewer() {
    let d = scenario();
    let v = CommentView::read(&d, 42, Some(2)).unwrap();
    assert_eq!(v.recipient, None);
    assert_eq!(v.counts.score, 3);
    assert!(v.saved);
    assert_eq!(v.my_vote, Some(1));
    assert!(v.subscribed);
    assert!(!v.creator_banned_from_community);
    assert_eq!(v.creator.name, "alice");
    assert_eq!(v.community.name, "main");
}

#[test]
fn read_without_viewer() {
    let d = scenario();
    let with = CommentView::read(&d, 42, Some(2)).unwrap();
    let without = CommentView::read(&d, 42, None).unwrap();
    assert!(!without.saved);
    assert_eq!(without.my_vote, None);
    assert!(!without.subscribed);
    assert_eq!(without.comment, with.comment);
    assert_eq!(without.creator, with.creator);
    assert_eq!(without.recipient, with.recipient);
    assert_eq!(without.post, with.post);
    assert_eq!(without.community, with.community);
    assert_eq!(without.counts, with.counts);
}

#[test]
fn read_missing_comment_is_not_found() {
    let d = scenario();
    assert_eq!(CommentView::read(&d, 7, None), Err(QueryError::NotFound));
}

#[test]
fn read_without_aggregates_is_not_found() {
    let mut d = scenario();
    d.comments.push(comment(43, 1, 10, None, NOW));
    assert_eq!(CommentView::read(&d, 43, None), Err(QueryError::NotFound));
}

#[test]
fn recipient_is_parent_author() {
    let mut d = scenario();
    add(&mut d, comment(50, 2, 10, Some(42), NOW), 0, 0);
    add(&mut d, comment(51, 2, 10, Some(999), NOW), 0, 0);
    let v = CommentView::read(&d, 50, None).unwrap();
    let r = v.recipient.unwrap();
    assert_eq!(r.id, 1);
    assert_eq!(r.name, "alice");
    assert_eq!(CommentView::read(&d, 51, None).unwrap().recipient, None);
}

#[test]
fn ban_is_the_authors_not_the_viewers() {
    let mut d = scenario();
    d.bans.push(CommunityUserBan { id: 1, community_id: 100, user_id: 1, published: NOW });
    assert!(CommentView::read(&d, 42, None).unwrap().creator_banned_from_community);
    assert!(CommentView::read(&d, 42, Some(3)).unwrap().creator_banned_from_community);
}

#[test]
fn other_viewer_sees_nothing_of_bob() {
    let d = scenario();
    let v = CommentView::read(&d, 42, Some(3)).unwrap();
    assert!(!v.saved);
    assert_eq!(v.my_vote, None);
    assert!(!v.subscribed);
}

#[test]
fn downvote_is_kept_signed() {
    let mut d = scenario();
    d.likes.push(CommentLike { id: 2, user_id: 3, comment_id: 42, post_id: 10, score: -1, published: NOW });
    assert_eq!(CommentView::read(&d, 42, Some(3)).unwrap().my_vote, Some(-1));
}

#[test]
fn sentinel_viewer() {
    assert_eq!(effective_viewer_id(None), -1);
    assert_eq!(effective_viewer_id(Some(5)), 5);
}

#[test]
fn page_math() {
    assert_eq!(limit_and_offset(None, None), (10, 0));
    assert_eq!(limit_and_offset(Some(2), Some(10)), (10, 10));
    assert_eq!(limit_and_offset(Some(3), Some(20)), (20, 40));
    assert_eq!(limit_and_offset(Some(1), Some(500)), (50, 0));
    assert_eq!(limit_and_offset(Some(0), Some(0)), (1, 0));
    assert_eq!(limit_and_offset(Some(i64::MAX), Some(50)), (50, i64::MAX));
}

#[test]
fn run_containment() {
    let hay: Vec<char> = "hello world".chars().collect();
    let yes: Vec<char> = "lo wo".chars().collect();
    let no: Vec<char> = "low".chars().collect();
    assert!(contains_chars(&hay, &yes));
    assert!(!contains_chars(&hay, &no));
    assert!(contains_chars(&hay, &vec![]));
    assert!(!contains_chars(&vec![], &no));
}

fn many() -> Dataset {
    let mut d = empty();
    for i in 0..25 {
        add(&mut d, comment(i, 1 + (i % 3), 10 + (i % 2), None, NOW - (i as i64) * HOUR), i as i64 % 7, 0);
    }
    d
}

#[test]
fn new_is_newest_first() {
    let d = many();
    let v = CommentQueryBuilder::create(None).limit(Some(50)).list(&d, NOW);
    assert_eq!(ids(&v), (0..25).collect::<Vec<i32>>());
    let again = CommentQueryBuilder::create(None).limit(Some(50)).list(&d, NOW);
    assert_eq!(v, again);
}

#[test]
fn default_page_is_ten() {
    let d = many();
    let v = CommentQueryBuilder::create(None).list(&d, NOW);
    assert_eq!(ids(&v), (0..10).collect::<Vec<i32>>());
}

#[test]
fn second_page_of_ten() {
    let d = many();
    let v = CommentQueryBuilder::create(None).page(Some(2)).limit(Some(10)).list(&d, NOW);
    assert_eq!(ids(&v), (10..20).collect::<Vec<i32>>());
    let last = CommentQueryBuilder::create(None).page(Some(3)).limit(Some(10)).list(&d, NOW);
    assert_eq!(ids(&last), (20..25).collect::<Vec<i32>>());
    let past = CommentQueryBuilder::create(None).page(Some(9)).limit(Some(10)).list(&d, NOW);
    assert!(past.is_empty());
}

#[test]
fn top_day_drops_old_comments() {
    let mut d = empty();
    add(&mut d, comment(1, 1, 10, None, NOW - 2 * HOUR), 1, 0);
    add(&mut d, comment(2, 1, 10, None, NOW - 25 * HOUR), 1000, 0);
    add(&mut d, comment(3, 1, 10, None, NOW - 3 * HOUR), 5, 0);
    let v = CommentQueryBuilder::create(None).sort(SortType::TopDay).list(&d, NOW);
    assert_eq!(ids(&v), vec![3, 1]);
    let all = CommentQueryBuilder::create(None).sort(SortType::TopAll).list(&d, NOW);
    assert_eq!(ids(&all), vec![2, 3, 1]);
    let week = CommentQueryBuilder::create(None).sort(SortType::TopWeek).list(&d, NOW);
    assert_eq!(ids(&week), vec![2, 3, 1]);
}

#[test]
fn hot_breaks_ties_by_newest() {
    let mut d = empty();
    add(&mut d, comment(1, 1, 10, None, NOW - 5 * HOUR), 0, 7);
    add(&mut d, comment(2, 1, 10, None, NOW - 1 * HOUR), 0, 7);
    add(&mut d, comment(3, 1, 10, None, NOW - 9 * HOUR), 0, 9);
    let hot = CommentQueryBuilder::create(None).sort(SortType::Hot).list(&d, NOW);
    assert_eq!(ids(&hot), vec![3, 2, 1]);
    let active = CommentQueryBuilder::create(None).sort(SortType::Active).list(&d, NOW);
    assert_eq!(ids(&active), vec![3, 2, 1]);
}

#[test]
fn subscribed_scope() {
    let mut d = scenario();
    add(&mut d, comment(43, 1, 11, None, NOW), 0, 0);
    let mine = CommentQueryBuilder::create(Some(2)).listing_type(ListingType::Subscribed).list(&d, NOW);
    assert_eq!(ids(&mine), vec![42]);
    let nobody = CommentQueryBuilder::create(None).listing_type(ListingType::Subscribed).list(&d, NOW);
    assert!(nobody.is_empty());
}

#[test]
fn local_scope() {
    let mut d = scenario();
    add(&mut d, comment(43, 1, 11, None, NOW), 0, 0);
    let v = CommentQueryBuilder::create(None).listing_type(ListingType::Local).list(&d, NOW);
    assert_eq!(ids(&v), vec![42]);
    let all = CommentQueryBuilder::create(None).listing_type(ListingType::All).list(&d, NOW);
    assert_eq!(ids(&all), vec![43, 42]);
}

#[test]
fn listing_without_viewer_has_no_viewer_facts() {
    let d = scenario();
    let v = CommentQueryBuilder::create(None).list(&d, NOW);
    assert_eq!(v.len(), 1);
    assert!(!v[0].saved && !v[0].subscribed && v[0].my_vote.is_none());
}

#[test]
fn saved_only_filter() {
    let mut d = scenario();
    add(&mut d, comment(43, 1, 10, None, NOW), 0, 0);
    let v = CommentQueryBuilder::create(Some(2)).saved_only(true).list(&d, NOW);
    assert_eq!(ids(&v), vec![42]);
    let none = CommentQueryBuilder::create(None).saved_only(true).list(&d, NOW);
    assert!(none.is_empty());
}

#[test]
fn unread_only_filter() {
    let mut d = empty();
    let mut read = comment(1, 1, 10, None, NOW);
    read.read = true;
    add(&mut d, read, 0, 0);
    add(&mut d, comment(2, 1, 10, None, NOW - 1), 0, 0);
    let v = CommentQueryBuilder::create(None).unread_only(true).list(&d, NOW);
    assert_eq!(ids(&v), vec![2]);
}

#[test]
fn recipient_filter_skips_deleted_and_keeps_creator() {
    let mut d = scenario();
    add(&mut d, comment(50, 2, 10, Some(42), NOW - 1), 0, 0);
    let mut gone = comment(51, 3, 10, Some(42), NOW - 2);
    gone.deleted = true;
    add(&mut d, gone, 0, 0);
    let mut removed = comment(52, 3, 10, Some(42), NOW - 3);
    removed.removed = true;
    add(&mut d, removed, 0, 0);
    add(&mut d, comment(53, 3, 10, Some(50), NOW - 4), 0, 0);
    let b = CommentQueryBuilder::create(Some(1)).for_recipient_id(Some(1));
    assert_eq!(b.for_creator_id, None);
    assert_eq!(ids(&b.list(&d, NOW)), vec![50]);
    let to_bob = CommentQueryBuilder::create(None).for_recipient_id(Some(2)).list(&d, NOW);
    assert_eq!(ids(&to_bob), vec![53]);
}

#[test]
fn creator_post_and_community_filters() {
    let d = many();
    let by_bob = CommentQueryBuilder::create(None).for_creator_id(Some(2)).limit(Some(50)).list(&d, NOW);
    assert!(by_bob.iter().all(|v| v.comment.creator_id == 2));
    assert_eq!(by_bob.len(), 8);
    let on_11 = CommentQueryBuilder::create(None).for_post_id(Some(11)).limit(Some(50)).list(&d, NOW);
    assert_eq!(on_11.len(), 12);
    let in_101 = CommentQueryBuilder::create(None).for_community_id(Some(101)).limit(Some(50)).list(&d, NOW);
    assert_eq!(ids(&in_101), ids(&on_11));
    let both = CommentQueryBuilder::create(None)
        .for_creator_id(Some(2))
        .for_post_id(Some(11))
        .limit(Some(50))
        .list(&d, NOW);
    assert!(both.iter().all(|v| v.comment.creator_id == 2 && v.comment.post_id == 11));
    assert_eq!(both.len(), 4);
}

#[test]
fn community_name_needs_local_comment() {
    let mut d = scenario();
    let mut federated = comment(43, 1, 10, None, NOW);
    federated.local = false;
    add(&mut d, federated, 0, 0);
    let v = CommentQueryBuilder::create(None).for_community_name(Some("main".to_string())).list(&d, NOW);
    assert_eq!(ids(&v), vec![42]);
    let other = CommentQueryBuilder::create(None).for_community_name(Some("remote".to_string())).list(&d, NOW);
    assert!(other.is_empty());
    let clash = CommentQueryBuilder::create(None)
        .for_community_name(Some("main".to_string()))
        .for_community_id(Some(101))
        .list(&d, NOW);
    assert!(clash.is_empty());
}

#[test]
fn search_ignores_case() {
    let mut d = scenario();
    let mut c = comment(43, 1, 10, None, NOW);
    c.content = "Hello World".to_string();
    add(&mut d, c, 0, 0);
    let v = CommentQueryBuilder::create(None).search_term(Some("WORLD".to_string())).list(&d, NOW);
    assert_eq!(ids(&v), vec![43]);
    let n = CommentQueryBuilder::create(None).search_term(Some("number".to_string())).list(&d, NOW);
    assert_eq!(ids(&n), vec![42]);
    let none = CommentQueryBuilder::create(None).search_term(Some("absent".to_string())).list(&d, NOW);
    assert!(none.is_empty());
}

#[test]
fn builder_defaults_and_setters() {
    let b = CommentQueryBuilder::create(Some(4));
    assert_eq!(b.my_user_id, 4);
    assert_eq!(b.listing_type, ListingType::All);
    assert_eq!(b.sort, SortType::New);
    assert!(!b.saved_only && !b.unread_only);
    let b = b.sort(SortType::TopYear).page(Some(3)).limit(Some(5)).sort(SortType::TopMonth);
    assert_eq!(b.sort, SortType::TopMonth);
    assert_eq!(b.page, Some(3));
    assert_eq!(b.limit, Some(5));
    assert_eq!(CommentQueryBuilder::create(None).my_user_id, -1);
}

#[test]
fn decode_rows() {
    let d = scenario();
    let v = CommentView::read(&d, 42, Some(2)).unwrap();
    assert_eq!(v.creator.id, 1);
    let empty: Vec<lemmy_comment_view::view::CommentViewRow> = vec![];
    assert!(CommentView::to_vec(&empty).is_empty());
}
