//! The query engine's feed assembly: the posts of everyone the viewer
//! follows, newest first.
//!
//! The follow edges are read first and released, then the posts are
//! scanned; the two reads are not one atomic snapshot, matching the
//! per-collection locking discipline of the surrounding service.

use vstd::prelude::*;

use crate::content::PostStore;
use crate::models::{Follow, Post};
use crate::order::{insert_post_desc, posts_sorted_desc};
use crate::relations::{follow_remove, follows_edge, other_follows, FollowStore};
use crate::seq_facts::lemma_filter_take_step;

verus! {

/// The posts whose author the viewer follows.
pub open spec fn followed_author(follows: Seq<Follow>, viewer_id: u128) -> spec_fn(Post) -> bool {
    |p: Post| follows_edge(follows, viewer_id, p.author_id)
}

/// The feed's contents before sorting: every post whose author the
/// viewer follows, in store order.
pub open spec fn feed_of(follows: Seq<Follow>, posts: Seq<Post>, viewer_id: u128) -> Seq<Post> {
    posts.filter(followed_author(follows, viewer_id))
}

/// Pure lookup in a plain id list.
fn contains_id(v: &Vec<u128>, x: u128) -> (found: bool)
    ensures
        found == v@.contains(x),
{
    let mut i: usize = 0;
    while i < v.len()
        invariant
            i <= v@.len(),
            forall|k: int| 0 <= k < i ==> v@[k] != x,
        decreases v@.len() - i,
    {
        if v[i] == x {
            return true;
        }
        i += 1;
    }
    false
}

/// The viewer's feed: exactly the posts authored by someone the viewer
/// follows, newest first.
pub fn feed(follows: &FollowStore, posts: &PostStore, viewer_id: u128) -> (r: Vec<Post>)
    ensures
        posts_sorted_desc(r@),
        r@.to_multiset() == feed_of(follows@, posts@, viewer_id).to_multiset(),
{
    let following = follows.following_ids(viewer_id);
    let all = posts.raw();
    let mut result: Vec<Post> = Vec::new();
    let mut i: usize = 0;
    proof {
        reveal(Seq::filter);
        assert(posts@.take(0) =~= Seq::<Post>::empty());
    }
    while i < all.len()
        invariant
            i <= posts@.len(),
            all@ == posts@,
            forall|id: u128| following@.contains(id) <==> follows_edge(follows@, viewer_id, id),
            posts_sorted_desc(result@),
            result@.to_multiset() == feed_of(follows@, posts@.take(i as int), viewer_id)
                .to_multiset(),
        decreases posts@.len() - i,
    {
        proof {
            lemma_filter_take_step(posts@, followed_author(follows@, viewer_id), i as int);
            vstd::seq_lib::to_multiset_build(
                feed_of(follows@, posts@.take(i as int), viewer_id),
                posts@[i as int],
            );
        }
        if contains_id(&following, all[i].author_id) {
            insert_post_desc(&mut result, all[i].clone());
        }
        i += 1;
    }
    proof {
        assert(posts@.take(posts@.len() as int) =~= posts@);
    }
    result
}

/// Law: once the viewer unfollows an author, no post of that author
/// appears in the feed computed from the new edge set.
pub proof fn lemma_unfollow_clears_feed(
    follows: Seq<Follow>,
    posts: Seq<Post>,
    viewer_id: u128,
    author_id: u128,
)
    ensures
        forall|k: int|
            0 <= k < feed_of(follow_remove(follows, viewer_id, author_id), posts, viewer_id).len()
                ==> (#[trigger] feed_of(
                follow_remove(follows, viewer_id, author_id),
                posts,
                viewer_id,
            )[k]).author_id != author_id,
{
    let remaining = follow_remove(follows, viewer_id, author_id);
    let fd = feed_of(remaining, posts, viewer_id);
    assert forall|k: int| 0 <= k < fd.len() implies (#[trigger] fd[k]).author_id != author_id by {
        posts.lemma_filter_pred(followed_author(remaining, viewer_id), k);
        if fd[k].author_id == author_id {
            let e = Follow { follower_id: viewer_id, following_id: author_id };
            assert(follows_edge(remaining, viewer_id, author_id));
            let j = choose|j: int| 0 <= j < remaining.len() && remaining[j] == e;
            follows.lemma_filter_pred(other_follows(viewer_id, author_id), j);
        }
    }
}

} // verus!
