use vstd::prelude::*;
use crate::model::{
    Comment, CommentAggregates, CommentSaved, CommunityFollower, CommunitySafe, CommunityUserBan,
    Post, UserSafe,
};

verus! {

/// One flat row of the comment join, with a named field per segment. A
/// left-joined segment is `None` exactly when its join found no row.
#[derive(Debug, Clone, PartialEq, Eq)]
pub struct CommentViewRow {
    pub comment: Comment,
    pub creator: UserSafe,
    pub parent: Option<Comment>,
    pub recipient: Option<UserSafe>,
    pub post: Post,
    pub community: CommunitySafe,
    pub counts: CommentAggregates,
    pub creator_ban: Option<CommunityUserBan>,
    pub subscription: Option<CommunityFollower>,
    pub saved_mark: Option<CommentSaved>,
    pub my_vote: Option<i16>,
}

/// A comment with its author, the author of its parent, its post, its
/// community, its counters and what the viewer has done with it.
#[derive(Debug, Clone, PartialEq, Eq)]
pub struct CommentView {
    pub comment: Comment,
    pub creator: UserSafe,
    pub recipient: Option<UserSafe>,
    pub post: Post,
    pub community: CommunitySafe,
    pub counts: CommentAggregates,
    pub creator_banned_from_community: bool,
    pub subscribed: bool,
    pub saved: bool,
    pub my_vote: Option<i16>,
}

/// The view that a row decodes to: each optional segment becomes its presence,
/// the vote keeps its value.
pub open spec fn decode(r: CommentViewRow) -> CommentView {
    CommentView {
        comment: r.comment,
        creator: r.creator,
        recipient: r.recipient,
        post: r.post,
        community: r.community,
        counts: r.counts,
        creator_banned_from_community: r.creator_ban is Some,
        subscribed: r.subscription is Some,
        saved: r.saved_mark is Some,
        my_vote: r.my_vote,
    }
}

pub fn dup_user(u: &Option<UserSafe>) -> (r: Option<UserSafe>)
    ensures
        r == *u,
{
    match u {
        Some(x) => Some(x.duplicate()),
        None => None,
    }
}

impl CommentView {
    /// Decodes one row.
    pub fn from_row(r: &CommentViewRow) -> (v: CommentView)
        ensures
            v == decode(*r),
    {
        CommentView {
            comment: r.comment.duplicate(),
            creator: r.creator.duplicate(),
            recipient: dup_user(&r.recipient),
            post: r.post.duplicate(),
            community: r.community.duplicate(),
            counts: r.counts,
            creator_banned_from_community: r.creator_ban.is_some(),
            subscribed: r.subscription.is_some(),
            saved: r.saved_mark.is_some(),
            my_vote: r.my_vote,
        }
    }

    /// Decodes every row, in order.
    pub fn to_vec(rows: &Vec<CommentViewRow>) -> (vs: Vec<CommentView>)
        ensures
            vs@ == rows@.map_values(|r: CommentViewRow| decode(r)),
    {
        let mut vs: Vec<CommentView> = Vec::new();
        let mut i: usize = 0;
        while i < rows.len()
            invariant
                0 <= i <= rows@.len(),
                vs@ == rows@.subrange(0, i as int).map_values(|r: CommentViewRow| decode(r)),
            decreases rows@.len() - i,
        {
            let v = CommentView::from_row(&rows[i]);
            vs.push(v);
            i += 1;
            assert(vs@ =~= rows@.subrange(0, i as int).map_values(|r: CommentViewRow| decode(r)));
        }
        assert(rows@.subrange(0, rows@.len() as int) =~= rows@);
        vs
    }
}

} // verus!
