//! The relationship store: like edges and follow edges.
//!
//! Both collections are unordered and unindexed, scanned linearly on
//! every operation — an accepted simplicity trade-off at small scale.
//! Adding an existing edge and removing an absent one are no-ops, so
//! duplicate client retries are absorbed by design.

use vstd::prelude::*;

use crate::errors::ApiError;
use crate::models::{Follow, Like};
use crate::seq_facts::{lemma_filter_all, lemma_filter_distinct, lemma_filter_take_step};

verus! {

/// True when `s` holds the edge "this user likes this post".
pub open spec fn has_like(s: Seq<Like>, user_id: u128, post_id: u128) -> bool {
    s.contains(Like { user_id, post_id })
}

/// The state after an idempotent like: unchanged when the edge is
/// already present, extended by it otherwise.
pub open spec fn like_add(s: Seq<Like>, user_id: u128, post_id: u128) -> Seq<Like> {
    if has_like(s, user_id, post_id) {
        s
    } else {
        s.push(Like { user_id, post_id })
    }
}

/// Keeps every like edge but this one.
pub open spec fn other_likes(user_id: u128, post_id: u128) -> spec_fn(Like) -> bool {
    |l: Like| l != (Like { user_id, post_id })
}

/// The state after an idempotent unlike: the edge is gone, everything
/// else stays, in order.
pub open spec fn like_remove(s: Seq<Like>, user_id: u128, post_id: u128) -> Seq<Like> {
    s.filter(other_likes(user_id, post_id))
}

/// The like edges on this post.
pub open spec fn likes_on(post_id: u128) -> spec_fn(Like) -> bool {
    |l: Like| l.post_id == post_id
}

/// True when `s` holds the edge "the follower follows the followed".
pub open spec fn follows_edge(s: Seq<Follow>, follower_id: u128, following_id: u128) -> bool {
    s.contains(Follow { follower_id, following_id })
}

/// The state after an idempotent follow.
pub open spec fn follow_add(s: Seq<Follow>, follower_id: u128, following_id: u128) -> Seq<Follow> {
    if follows_edge(s, follower_id, following_id) {
        s
    } else {
        s.push(Follow { follower_id, following_id })
    }
}

/// Keeps every follow edge but this one.
pub open spec fn other_follows(follower_id: u128, following_id: u128) -> spec_fn(Follow) -> bool {
    |f: Follow| f != (Follow { follower_id, following_id })
}

/// The state after an idempotent unfollow.
pub open spec fn follow_remove(s: Seq<Follow>, follower_id: u128, following_id: u128) -> Seq<
    Follow,
> {
    s.filter(other_follows(follower_id, following_id))
}

/// All like edges. `like` and `unlike` keep the collection free of
/// duplicates.
pub struct LikeStore {
    likes: Vec<Like>,
}

impl View for LikeStore {
    type V = Seq<Like>;

    closed spec fn view(&self) -> Seq<Like> {
        self.likes@
    }
}

impl LikeStore {
    /// Each (user, post) pair occurs at most once.
    pub open spec fn wf(self) -> bool {
        self@.no_duplicates()
    }

    pub fn new() -> (s: Self)
        ensures
            s@ == Seq::<Like>::empty(),
            s.wf(),
    {
        LikeStore { likes: Vec::new() }
    }

    /// Pure lookup: does this user like this post?
    pub fn contains_like(&self, user_id: u128, post_id: u128) -> (found: bool)
        ensures
            found == has_like(self@, user_id, post_id),
    {
        let mut i: usize = 0;
        while i < self.likes.len()
            invariant
                i <= self@.len(),
                forall|k: int|
                    0 <= k < i ==> #[trigger] self@[k] != (Like { user_id, post_id }),
            decreases self@.len() - i,
        {
            if self.likes[i].user_id == user_id && self.likes[i].post_id == post_id {
                assert(self@[i as int] == (Like { user_id, post_id }));
                return true;
            }
            i += 1;
        }
        false
    }

    /// Records that this user likes this post; a no-op when the edge
    /// already exists.
    pub fn like(&mut self, user_id: u128, post_id: u128)
        requires
            old(self).wf(),
        ensures
            final(self).wf(),
            final(self)@ == like_add(old(self)@, user_id, post_id),
    {
        if !self.contains_like(user_id, post_id) {
            self.likes.push(Like { user_id, post_id });
        }
    }

    /// Removes the edge; a no-op when it is absent.
    pub fn unlike(&mut self, user_id: u128, post_id: u128)
        requires
            old(self).wf(),
        ensures
            final(self).wf(),
            final(self)@ == like_remove(old(self)@, user_id, post_id),
    {
        let ghost s0 = self.likes@;
        let mut kept: Vec<Like> = Vec::new();
        let mut i: usize = 0;
        proof {
            reveal(Seq::filter);
            assert(s0.take(0) =~= Seq::<Like>::empty());
        }
        while i < self.likes.len()
            invariant
                i <= s0.len(),
                self.likes@ == s0,
                kept@ == like_remove(s0.take(i as int), user_id, post_id),
            decreases s0.len() - i,
        {
            proof {
                lemma_filter_take_step(s0, other_likes(user_id, post_id), i as int);
            }
            if !(self.likes[i].user_id == user_id && self.likes[i].post_id == post_id) {
                kept.push(self.likes[i]);
            }
            i += 1;
        }
        proof {
            assert(s0.take(s0.len() as int) =~= s0);
            lemma_filter_distinct(s0, other_likes(user_id, post_id));
        }
        self.likes = kept;
    }

    /// How many users like this post.
    pub fn count_likes(&self, post_id: u128) -> (n: usize)
        ensures
            n == self@.filter(likes_on(post_id)).len(),
    {
        let mut n: usize = 0;
        let mut i: usize = 0;
        proof {
            reveal(Seq::filter);
            assert(self@.take(0) =~= Seq::<Like>::empty());
        }
        while i < self.likes.len()
            invariant
                i <= self@.len(),
                n <= i,
                n == self@.take(i as int).filter(likes_on(post_id)).len(),
            decreases self@.len() - i,
        {
            proof {
                lemma_filter_take_step(self@, likes_on(post_id), i as int);
            }
            if self.likes[i].post_id == post_id {
                n += 1;
            }
            i += 1;
        }
        proof {
            assert(self@.take(self@.len() as int) =~= self@);
        }
        n
    }
}

/// All follow edges. `follow` and `unfollow` keep the collection free
/// of duplicates and of self-edges.
pub struct FollowStore {
    follows: Vec<Follow>,
}

impl View for FollowStore {
    type V = Seq<Follow>;

    closed spec fn view(&self) -> Seq<Follow> {
        self.follows@
    }
}

impl FollowStore {
    /// Each ordered pair occurs at most once, and no user follows
    /// itself.
    pub open spec fn wf(self) -> bool {
        self@.no_duplicates() && forall|i: int|
            0 <= i < self@.len() ==> (#[trigger] self@[i]).follower_id != self@[i].following_id
    }

    pub fn new() -> (s: Self)
        ensures
            s@ == Seq::<Follow>::empty(),
            s.wf(),
    {
        FollowStore { follows: Vec::new() }
    }

    /// Pure lookup: does the follower follow the followed?
    pub fn is_following(&self, follower_id: u128, following_id: u128) -> (found: bool)
        ensures
            found == follows_edge(self@, follower_id, following_id),
    {
        let mut i: usize = 0;
        while i < self.follows.len()
            invariant
                i <= self@.len(),
                forall|k: int|
                    0 <= k < i ==> #[trigger] self@[k] != (Follow { follower_id, following_id }),
            decreases self@.len() - i,
        {
            if self.follows[i].follower_id == follower_id && self.follows[i].following_id
                == following_id {
                assert(self@[i as int] == (Follow { follower_id, following_id }));
                return true;
            }
            i += 1;
        }
        false
    }

    /// Records the follow edge. Fails with `BadRequest` exactly when a
    /// user tries to follow itself, and never creates such an edge;
    /// otherwise an idempotent add.
    pub fn follow(&mut self, follower_id: u128, following_id: u128) -> (r: Result<(), ApiError>)
        requires
            old(self).wf(),
        ensures
            final(self).wf(),
            follower_id == following_id <==> r is Err,
            r is Err ==> r->Err_0 is BadRequest && r->Err_0->BadRequest_0@
                == "cannot follow yourself"@ && final(self)@ == old(self)@,
            follower_id != following_id ==> final(self)@ == follow_add(
                old(self)@,
                follower_id,
                following_id,
            ),
    {
        if follower_id == following_id {
            proof {
                reveal_strlit("cannot follow yourself");
            }
            return Err(ApiError::BadRequest("cannot follow yourself".to_owned()));
        }
        if !self.is_following(follower_id, following_id) {
            self.follows.push(Follow { follower_id, following_id });
        }
        Ok(())
    }

    /// Removes the edge; a no-op when it is absent.
    pub fn unfollow(&mut self, follower_id: u128, following_id: u128)
        requires
            old(self).wf(),
        ensures
            final(self).wf(),
            final(self)@ == follow_remove(old(self)@, follower_id, following_id),
    {
        let ghost s0 = self.follows@;
        let mut kept: Vec<Follow> = Vec::new();
        let mut i: usize = 0;
        proof {
            reveal(Seq::filter);
            assert(s0.take(0) =~= Seq::<Follow>::empty());
        }
        while i < self.follows.len()
            invariant
                i <= s0.len(),
                self.follows@ == s0,
                kept@ == follow_remove(s0.take(i as int), follower_id, following_id),
            decreases s0.len() - i,
        {
            proof {
                lemma_filter_take_step(s0, other_follows(follower_id, following_id), i as int);
            }
            if !(self.follows[i].follower_id == follower_id && self.follows[i].following_id
                == following_id) {
                kept.push(self.follows[i]);
            }
            i += 1;
        }
        proof {
            assert(s0.take(s0.len() as int) =~= s0);
            lemma_filter_distinct(s0, other_follows(follower_id, following_id));
            assert forall|k: int| 0 <= k < kept@.len() implies (#[trigger] kept@[k]).follower_id
                != kept@[k].following_id by {
                assert(kept@.contains(kept@[k]));
                s0.lemma_filter_contains_rev(other_follows(follower_id, following_id), kept@[k]);
                let j = choose|j: int| 0 <= j < s0.len() && s0[j] == kept@[k];
                assert(s0[j].follower_id != s0[j].following_id);
            }
        }
        self.follows = kept;
    }

    /// The ids this user currently follows.
    pub fn following_ids(&self, follower_id: u128) -> (r: Vec<u128>)
        ensures
            forall|id: u128| r@.contains(id) <==> follows_edge(self@, follower_id, id),
    {
        let mut r: Vec<u128> = Vec::new();
        let mut i: usize = 0;
        while i < self.follows.len()
            invariant
                i <= self@.len(),
                forall|id: u128|
                    #![trigger r@.contains(id)]
                    #![trigger follows_edge(self@.take(i as int), follower_id, id)]
                    r@.contains(id) <==> follows_edge(self@.take(i as int), follower_id, id),
            decreases self@.len() - i,
        {
            let ghost pre = r@;
            let f = self.follows[i];
            if f.follower_id == follower_id {
                r.push(f.following_id);
            }
            proof {
                let t0 = self@.take(i as int);
                let t1 = self@.take(i + 1);
                assert(t1[i as int] == self@[i as int]);
                assert forall|id: u128| #[trigger] r@.contains(id) implies follows_edge(
                    t1,
                    follower_id,
                    id,
                ) by {
                    if pre.contains(id) {
                        let e = Follow { follower_id, following_id: id };
                        let k = choose|k: int| 0 <= k < t0.len() && t0[k] == e;
                        assert(t1[k] == e);
                    } else {
                        let m = choose|m: int| 0 <= m < r@.len() && r@[m] == id;
                        assert(m == pre.len());
                        assert(t1[i as int] == (Follow { follower_id, following_id: id }));
                    }
                }
                assert forall|id: u128| #[trigger] follows_edge(t1, follower_id, id) implies r@
                    .contains(id) by {
                    let e = Follow { follower_id, following_id: id };
                    let k = choose|k: int| 0 <= k < t1.len() && t1[k] == e;
                    if k < i {
                        assert(t0[k] == e);
                        assert(follows_edge(t0, follower_id, id));
                        assert(pre.contains(id));
                        let m = choose|m: int| 0 <= m < pre.len() && pre[m] == id;
                        assert(r@[m] == id);
                    } else {
                        assert(self@[i as int] == e);
                        assert(r@[r@.len() - 1] == id);
                    }
                }
            }
            i += 1;
        }
        proof {
            assert(self@.take(self@.len() as int) =~= self@);
        }
        r
    }
}

/// Law: liking twice leaves exactly the state a single like leaves.
pub proof fn lemma_like_idempotent(s: Seq<Like>, user_id: u128, post_id: u128)
    ensures
        like_add(like_add(s, user_id, post_id), user_id, post_id) == like_add(
            s,
            user_id,
            post_id,
        ),
{
    if !has_like(s, user_id, post_id) {
        let e = Like { user_id, post_id };
        assert(s.push(e)[s.len() as int] == e);
    }
}

/// Law: unliking twice leaves exactly the state a single unlike leaves.
pub proof fn lemma_unlike_idempotent(s: Seq<Like>, user_id: u128, post_id: u128)
    ensures
        like_remove(like_remove(s, user_id, post_id), user_id, post_id) == like_remove(
            s,
            user_id,
            post_id,
        ),
{
    let pred = other_likes(user_id, post_id);
    let once = s.filter(pred);
    assert forall|i: int| 0 <= i < once.len() implies pred(#[trigger] once[i]) by {
        s.lemma_filter_pred(pred, i);
    }
    lemma_filter_all(once, pred);
}

/// Law: following twice leaves exactly the state a single follow
/// leaves.
pub proof fn lemma_follow_idempotent(s: Seq<Follow>, follower_id: u128, following_id: u128)
    ensures
        follow_add(follow_add(s, follower_id, following_id), follower_id, following_id)
            == follow_add(s, follower_id, following_id),
{
    if !follows_edge(s, follower_id, following_id) {
        let e = Follow { follower_id, following_id };
        assert(s.push(e)[s.len() as int] == e);
    }
}

/// Law: unfollowing twice leaves exactly the state a single unfollow
/// leaves.
pub proof fn lemma_unfollow_idempotent(s: Seq<Follow>, follower_id: u128, following_id: u128)
    ensures
        follow_remove(follow_remove(s, follower_id, following_id), follower_id, following_id)
            == follow_remove(s, follower_id, following_id),
{
    let pred = other_follows(follower_id, following_id);
    let once = s.filter(pred);
    assert forall|i: int| 0 <= i < once.len() implies pred(#[trigger] once[i]) by {
        s.lemma_filter_pred(pred, i);
    }
    lemma_filter_all(once, pred);
}

} // verus!
