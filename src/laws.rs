use vstd::prelude::*;
use crate::model::{last_match, lemma_last_match, lookup, Comment, Dataset, Row, User_};
use crate::query::{
    ahead, candidates, effective_viewer, join_spec, listing, page_limit, page_offset, page_of,
    lemma_slot_bounds, passes, ranked, read_spec, recipient_of, slot_from, CommentQueryBuilder,
    ListingType, SortType, NO_VIEWER,
};
use crate::view::{decode, CommentViewRow};

verus! {

/// A comment without a parent has no recipient in any view joined from it.
pub proof fn lemma_no_parent_no_recipient(d: Dataset, c: Comment, viewer: i32)
    requires
        c.parent_id is None,
    ensures
        recipient_of(d, c) is None,
        join_spec(d, c, viewer) matches Some(r) ==> decode(r).recipient is None,
{
}

/// A comment whose parent `p` and whose parent's author `u` exist has the
/// safe projection of `u` as recipient in every view joined from it.
pub proof fn lemma_parent_author_is_recipient(
    d: Dataset,
    c: Comment,
    p: Comment,
    u: User_,
    viewer: i32,
)
    requires
        c.parent_id == Some(p.id),
        lookup(d.comments@, p.id, 0) == Some(p),
        lookup(d.users@, p.creator_id, 0) == Some(u),
    ensures
        recipient_of(d, c) == Some(u.safe()),
        join_spec(d, c, viewer) matches Some(r) ==> decode(r).recipient == Some(u.safe()),
{
}

/// Without a viewer, no subscription, saved mark or vote is found for any
/// comment; the author's ban shows only where a ban row for the author in
/// that community exists.
pub proof fn lemma_no_viewer(d: Dataset, c: Comment)
    requires
        d.wf(),
    ensures
        join_spec(d, c, effective_viewer(None)) matches Some(r) ==> {
            let v = decode(r);
            &&& !v.subscribed
            &&& !v.saved
            &&& v.my_vote is None
            &&& v.creator_banned_from_community <==> exists|k: int|
                0 <= k < d.bans@.len() && d.bans@[k].community_id == r.community.id
                    && #[trigger] d.bans@[k].user_id == c.creator_id
        },
{
    let viewer = effective_viewer(None);
    lemma_last_match(d.saves@, c.id, viewer);
    lemma_last_match(d.likes@, c.id, viewer);
    assert forall|k: int| 0 <= k < d.saves@.len() implies !#[trigger] d.saves@[k].matches_spec(
        c.id,
        viewer,
    ) by {
        assert(d.saves@[k].user_id >= 0);
    }
    assert forall|k: int| 0 <= k < d.likes@.len() implies !#[trigger] d.likes@[k].matches_spec(
        c.id,
        viewer,
    ) by {
        assert(d.likes@[k].user_id >= 0);
    }
    if let Some(r) = join_spec(d, c, viewer) {
        lemma_last_match(d.follows@, r.post.community_id, viewer);
        lemma_last_match(d.bans@, r.community.id, c.creator_id);
        assert forall|k: int| 0 <= k < d.follows@.len() implies !#[trigger] d.follows@[k].matches_spec(
            r.post.community_id,
            viewer,
        ) by {
            assert(d.follows@[k].user_id >= 0);
        }
        if r.creator_ban is None {
            assert forall|k: int|
                0 <= k < d.bans@.len() && d.bans@[k].community_id == r.community.id implies #[trigger] d.bans@[k].user_id
                != c.creator_id by {
                assert(!d.bans@[k].matches_spec(r.community.id, c.creator_id));
            }
        } else {
            let k = last_match(d.bans@, r.community.id, c.creator_id).unwrap();
            assert(d.bans@[k].user_id == c.creator_id);
        }
    }
}

/// With viewer `v`, a comment's view is saved exactly when `v` has a saved
/// mark on it, and carries `v`'s vote exactly when `v` voted on it.
pub proof fn lemma_viewer_facts(d: Dataset, c: Comment, v: i32)
    ensures
        join_spec(d, c, effective_viewer(Some(v))) matches Some(r) ==> {
            let view = decode(r);
            &&& view.saved <==> exists|k: int|
                0 <= k < d.saves@.len() && d.saves@[k].comment_id == c.id && #[trigger] d.saves@[k].user_id == v
            &&& view.my_vote is None <==> forall|k: int|
                0 <= k < d.likes@.len() && d.likes@[k].comment_id == c.id ==> #[trigger] d.likes@[k].user_id != v
            &&& view.my_vote matches Some(score) ==> exists|k: int|
                0 <= k < d.likes@.len() && d.likes@[k].comment_id == c.id && #[trigger] d.likes@[k].user_id == v
                    && d.likes@[k].score == score
        },
{
    lemma_last_match(d.saves@, c.id, v);
    lemma_last_match(d.likes@, c.id, v);
    if let Some(r) = join_spec(d, c, v) {
        if r.saved_mark is Some {
            let k = last_match(d.saves@, c.id, v).unwrap();
            assert(d.saves@[k].user_id == v);
        } else {
            assert forall|k: int|
                0 <= k < d.saves@.len() && d.saves@[k].comment_id == c.id implies #[trigger] d.saves@[k].user_id
                != v by {
                assert(!d.saves@[k].matches_spec(c.id, v));
            }
        }
        if r.my_vote is Some {
            let k = last_match(d.likes@, c.id, v).unwrap();
            assert(d.likes@[k].user_id == v);
        } else {
            assert forall|k: int|
                0 <= k < d.likes@.len() && d.likes@[k].comment_id == c.id implies #[trigger] d.likes@[k].user_id
                != v by {
                assert(!d.likes@[k].matches_spec(c.id, v));
            }
        }
    }
}

/// Every candidate row is the join of one of the comments and passes the filters.
pub proof fn lemma_candidates_from(d: Dataset, q: CommentQueryBuilder, cs: Seq<Comment>, now: i64)
    ensures
        forall|i: int|
            0 <= i < candidates(d, q, cs, now).len() ==> exists|j: int|
                0 <= j < cs.len() && join_spec(d, cs[j], q.my_user_id) == Some(
                    #[trigger] candidates(d, q, cs, now)[i],
                ) && passes(q, candidates(d, q, cs, now)[i], now),
    decreases cs.len(),
{
    if cs.len() > 0 {
        let before = candidates(d, q, cs.drop_last(), now);
        lemma_candidates_from(d, q, cs.drop_last(), now);
        let all = candidates(d, q, cs, now);
        assert forall|i: int| 0 <= i < all.len() implies exists|j: int|
            0 <= j < cs.len() && join_spec(d, cs[j], q.my_user_id) == Some(#[trigger] all[i])
                && passes(q, all[i], now) by {
            if i < before.len() {
                assert(all[i] == before[i]);
                let j = choose|j: int|
                    0 <= j < cs.drop_last().len() && join_spec(d, cs.drop_last()[j], q.my_user_id)
                        == Some(before[i]) && passes(q, before[i], now);
                assert(cs.drop_last()[j] == cs[j]);
            } else {
                assert(join_spec(d, cs[cs.len() - 1], q.my_user_id) == Some(all[i]));
            }
        }
    }
}

/// Ranking keeps the rows: the same number, each one from the input.
pub proof fn lemma_ranked_from(sort: SortType, s: Seq<CommentViewRow>)
    ensures
        ranked(sort, s).len() == s.len(),
        forall|i: int|
            0 <= i < s.len() ==> exists|j: int| 0 <= j < s.len() && #[trigger] ranked(sort, s)[i] == s[j],
    decreases s.len(),
{
    if s.len() > 0 {
        let t = ranked(sort, s.drop_last());
        lemma_ranked_from(sort, s.drop_last());
        let x = s.last();
        let pos = slot_from(sort, t, x, 0);
        lemma_slot_bounds(sort, t, x, 0);
        let out = ranked(sort, s);
        assert(out == t.insert(pos, x));
        assert forall|i: int| 0 <= i < s.len() implies exists|j: int|
            0 <= j < s.len() && #[trigger] out[i] == s[j] by {
            if i < pos {
                assert(out[i] == t[i]);
                let j = choose|j: int| 0 <= j < s.drop_last().len() && t[i] == s.drop_last()[j];
                assert(s.drop_last()[j] == s[j]);
            } else if i == pos {
                assert(out[i] == s[s.len() - 1]);
            } else {
                assert(out[i] == t[i - 1]);
                let j = choose|j: int| 0 <= j < s.drop_last().len() && t[i - 1] == s.drop_last()[j];
                assert(s.drop_last()[j] == s[j]);
            }
        }
    }
}

/// Every listed row is the join of one of the dataset's comments, for the
/// query's viewer, and passes all of the query's filters.
pub proof fn lemma_listed_rows(d: Dataset, q: CommentQueryBuilder, now: i64)
    ensures
        forall|i: int|
            0 <= i < listing(d, q, now).len() ==> exists|j: int|
                0 <= j < d.comments@.len() && join_spec(d, d.comments@[j], q.my_user_id) == Some(
                    #[trigger] listing(d, q, now)[i],
                ) && passes(q, listing(d, q, now)[i], now),
{
    let cand = candidates(d, q, d.comments@, now);
    let all = ranked(q.sort, cand);
    lemma_candidates_from(d, q, d.comments@, now);
    lemma_ranked_from(q.sort, cand);
    let l = page_limit(q.limit);
    let o = page_offset(q.page, q.limit);
    let lo = if o < all.len() {
        o
    } else {
        all.len() as int
    };
    let out = listing(d, q, now);
    assert forall|i: int| 0 <= i < out.len() implies exists|j: int|
        0 <= j < d.comments@.len() && join_spec(d, d.comments@[j], q.my_user_id) == Some(
            #[trigger] out[i],
        ) && passes(q, out[i], now) by {
        assert(out[i] == all[lo + i]);
        let k = choose|k: int| 0 <= k < cand.len() && all[lo + i] == cand[k];
        assert(cand[k] == out[i]);
    }
}

/// A listing without a viewer shows no subscription, saved mark or vote.
pub proof fn lemma_listing_without_viewer(d: Dataset, q: CommentQueryBuilder, now: i64)
    requires
        d.wf(),
        q.my_user_id == effective_viewer(None),
    ensures
        forall|i: int|
            0 <= i < listing(d, q, now).len() ==> {
                let v = decode(#[trigger] listing(d, q, now)[i]);
                !v.subscribed && !v.saved && v.my_vote is None
            },
{
    lemma_listed_rows(d, q, now);
    let out = listing(d, q, now);
    assert forall|i: int| 0 <= i < out.len() implies {
        let v = decode(#[trigger] out[i]);
        !v.subscribed && !v.saved && v.my_vote is None
    } by {
        let j = choose|j: int|
            0 <= j < d.comments@.len() && join_spec(d, d.comments@[j], q.my_user_id) == Some(out[i])
                && passes(q, out[i], now);
        lemma_no_viewer(d, d.comments@[j]);
    }
}

/// A subscribed listing holds only comments of communities that the viewer
/// follows; without a viewer it is empty.
pub proof fn lemma_subscribed_listing(d: Dataset, q: CommentQueryBuilder, now: i64)
    requires
        q.listing_type == ListingType::Subscribed,
    ensures
        forall|i: int|
            0 <= i < listing(d, q, now).len() ==> #[trigger] lookup(
                d.follows@,
                listing(d, q, now)[i].post.community_id,
                q.my_user_id,
            ) is Some,
        d.wf() && q.my_user_id == effective_viewer(None) ==> listing(d, q, now).len() == 0,
{
    lemma_listed_rows(d, q, now);
    let out = listing(d, q, now);
    assert forall|i: int| 0 <= i < out.len() implies #[trigger] lookup(
        d.follows@,
        out[i].post.community_id,
        q.my_user_id,
    ) is Some by {
        let j = choose|j: int|
            0 <= j < d.comments@.len() && join_spec(d, d.comments@[j], q.my_user_id) == Some(out[i])
                && passes(q, out[i], now);
    }
    if d.wf() && q.my_user_id == NO_VIEWER && out.len() > 0 {
        let j = choose|j: int|
            0 <= j < d.comments@.len() && join_spec(d, d.comments@[j], q.my_user_id) == Some(out[0])
                && passes(q, out[0], now);
        lemma_no_viewer(d, d.comments@[j]);
    }
}

/// A top-of-day listing holds only comments published in the 24 hours
/// before `now`, whatever their score.
pub proof fn lemma_top_day_window(d: Dataset, q: CommentQueryBuilder, now: i64)
    requires
        q.sort == SortType::TopDay,
    ensures
        forall|i: int|
            0 <= i < listing(d, q, now).len() ==> #[trigger] listing(d, q, now)[i].comment.published
                > now - 86400,
{
    lemma_listed_rows(d, q, now);
    let out = listing(d, q, now);
    assert forall|i: int| 0 <= i < out.len() implies #[trigger] out[i].comment.published > now
        - 86400 by {
        let j = choose|j: int|
            0 <= j < d.comments@.len() && join_spec(d, d.comments@[j], q.my_user_id) == Some(out[i])
                && passes(q, out[i], now);
    }
}

/// No row of a ranking is ahead of a row before it.
pub proof fn lemma_ranked_in_order(sort: SortType, s: Seq<CommentViewRow>)
    ensures
        forall|i: int, j: int|
            0 <= i < j < ranked(sort, s).len() ==> !ahead(
                sort,
                #[trigger] ranked(sort, s)[j],
                #[trigger] ranked(sort, s)[i],
            ),
    decreases s.len(),
{
    if s.len() > 0 {
        let t = ranked(sort, s.drop_last());
        lemma_ranked_in_order(sort, s.drop_last());
        let x = s.last();
        let pos = slot_from(sort, t, x, 0);
        lemma_slot_bounds(sort, t, x, 0);
        lemma_slot_facts(sort, t, x, 0);
        let out = ranked(sort, s);
        assert(out == t.insert(pos, x));
        assert forall|i: int, j: int| 0 <= i < j < out.len() implies !ahead(
            sort,
            #[trigger] out[j],
            #[trigger] out[i],
        ) by {
            if j < pos {
                assert(out[i] == t[i] && out[j] == t[j]);
            } else if j == pos {
                assert(out[i] == t[i]);
            } else if i < pos {
                assert(out[i] == t[i] && out[j] == t[j - 1]);
            } else if i == pos {
                assert(out[j] == t[j - 1]);
                assert(!ahead(sort, t[j - 1], t[pos]) || j - 1 == pos);
            } else {
                assert(out[i] == t[i - 1] && out[j] == t[j - 1]);
            }
        }
    }
}

proof fn lemma_slot_facts(sort: SortType, t: Seq<CommentViewRow>, x: CommentViewRow, j: int)
    requires
        0 <= j <= t.len(),
        forall|k: int| 0 <= k < j ==> !ahead(sort, x, #[trigger] t[k]),
    ensures
        forall|k: int| 0 <= k < slot_from(sort, t, x, j) ==> !ahead(sort, x, #[trigger] t[k]),
        slot_from(sort, t, x, j) < t.len() ==> ahead(sort, x, t[slot_from(sort, t, x, j)]),
    decreases t.len() - j,
{
    if j < t.len() && !ahead(sort, x, t[j]) {
        lemma_slot_facts(sort, t, x, j + 1);
    }
}

/// A listing by newest is ordered by publication time, newest first; any
/// listing is ordered by its ranking keys.
pub proof fn lemma_listing_in_order(d: Dataset, q: CommentQueryBuilder, now: i64)
    ensures
        forall|i: int, j: int|
            0 <= i < j < listing(d, q, now).len() ==> !ahead(
                q.sort,
                #[trigger] listing(d, q, now)[j],
                #[trigger] listing(d, q, now)[i],
            ),
        q.sort == SortType::New ==> forall|i: int, j: int|
            0 <= i < j < listing(d, q, now).len() ==> #[trigger] listing(d, q, now)[i].comment.published
                >= #[trigger] listing(d, q, now)[j].comment.published,
{
    let all = ranked(q.sort, candidates(d, q, d.comments@, now));
    lemma_ranked_in_order(q.sort, candidates(d, q, d.comments@, now));
    let o = page_offset(q.page, q.limit);
    let lo = if o < all.len() {
        o
    } else {
        all.len() as int
    };
    let out = listing(d, q, now);
    assert forall|i: int, j: int| 0 <= i < j < out.len() implies !ahead(
        q.sort,
        #[trigger] out[j],
        #[trigger] out[i],
    ) by {
        assert(out[i] == all[lo + i] && out[j] == all[lo + j]);
    }
}

/// Page two of ten rows is rows 10 to 19 of the ranked, filtered rows; a
/// page past the end is empty.
pub proof fn lemma_second_page(d: Dataset, q: CommentQueryBuilder, now: i64)
    requires
        q.page == Some(2i64),
        q.limit == Some(10i64),
    ensures
        ({
            let all = ranked(q.sort, candidates(d, q, d.comments@, now));
            let out = listing(d, q, now);
            &&& all.len() <= 10 ==> out.len() == 0
            &&& all.len() >= 20 ==> out.len() == 10
            &&& 10 <= all.len() < 20 ==> out.len() == all.len() - 10
            &&& forall|i: int| 0 <= i < out.len() ==> #[trigger] out[i] == all[10 + i]
        }),
{
    let all = ranked(q.sort, candidates(d, q, d.comments@, now));
    assert(page_limit(q.limit) == 10);
    assert(page_offset(q.page, q.limit) == 10);
    assert(listing(d, q, now) == page_of(all, 10, 10));
}

/// Rows past the end of the ranked, filtered rows make an empty page, not an error.
pub proof fn lemma_page_past_end(d: Dataset, q: CommentQueryBuilder, now: i64)
    requires
        page_offset(q.page, q.limit) >= ranked(q.sort, candidates(d, q, d.comments@, now)).len(),
    ensures
        listing(d, q, now).len() == 0,
{
}

/// The page and limit settings choose a page only: the ranked, filtered rows
/// they are taken from do not depend on them.
pub proof fn lemma_paging_keeps_order(
    d: Dataset,
    q: CommentQueryBuilder,
    page: Option<i64>,
    limit: Option<i64>,
    cs: Seq<Comment>,
    now: i64,
)
    ensures
        candidates(d, q, cs, now) == candidates(d, (CommentQueryBuilder { page, limit, ..q }), cs, now),
    decreases cs.len(),
{
    if cs.len() > 0 {
        lemma_paging_keeps_order(d, q, page, limit, cs.drop_last(), now);
    }
}

/// Reading a comment with or without a viewer finds the same comment, and
/// the two views differ only in what the viewer has done.
pub proof fn lemma_read_viewer_independent(d: Dataset, id: i32, v: i32)
    ensures
        read_spec(d, id, None) is Ok <==> read_spec(d, id, Some(v)) is Ok,
        read_spec(d, id, None) matches Ok(a) ==> read_spec(d, id, Some(v)) matches Ok(b) && {
            &&& a.comment == b.comment
            &&& a.creator == b.creator
            &&& a.recipient == b.recipient
            &&& a.post == b.post
            &&& a.community == b.community
            &&& a.counts == b.counts
            &&& a.creator_banned_from_community == b.creator_banned_from_community
        },
{
}

} // verus!
