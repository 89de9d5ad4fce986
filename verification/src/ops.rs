//! Mutation operations that span two stores: each checks one store
//! and writes the other.
//!
//! How atomically the two stores are read is the caller's choice. A
//! service that guards each collection with its own lock may hold both
//! for the one call, making the check-then-write atomic, or check,
//! release, and then call with the answer in hand; since nothing is
//! ever deleted, an existence check cannot go stale, and both
//! disciplines give the same results.

use vstd::prelude::*;

use crate::content::{has_comment_id, has_post_id, CommentStore, PostStore};
use crate::errors::ApiError;
use crate::fresh::{fresh_id, now_micros};
use crate::identity::{has_user_id, IdentityStore};
use crate::models::{Comment, CreateCommentRequest};
use crate::relations::{follow_add, like_add, FollowStore, LikeStore};

verus! {

/// Records that the user likes the post, after checking that the post
/// exists; fails with `NotFound` exactly when it does not. A repeated
/// like is a no-op.
pub fn like_post(posts: &PostStore, likes: &mut LikeStore, user_id: u128, post_id: u128) -> (r:
    Result<(), ApiError>)
    requires
        old(likes).wf(),
    ensures
        final(likes).wf(),
        has_post_id(posts@, post_id) <==> r is Ok,
        r is Ok ==> final(likes)@ == like_add(old(likes)@, user_id, post_id),
        r is Err ==> r == Err::<(), ApiError>(ApiError::NotFound) && final(likes)@ == old(likes)@,
{
    if !posts.post_exists(post_id) {
        return Err(ApiError::NotFound);
    }
    likes.like(user_id, post_id);
    Ok(())
}

/// Adds a comment under an existing post, stamped with a fresh id and
/// the current time. Fails with `NotFound` exactly when the post is
/// absent, and with `Internal` only when the drawn id collides.
pub fn add_comment(
    posts: &PostStore,
    comments: &mut CommentStore,
    post_id: u128,
    author_id: u128,
    req: CreateCommentRequest,
) -> (r: Result<Comment, ApiError>)
    requires
        old(comments).wf(),
    ensures
        final(comments).wf(),
        r is Err ==> final(comments)@ == old(comments)@,
        (r is Err && r->Err_0 is NotFound) <==> !has_post_id(posts@, post_id),
        r is Err ==> (r->Err_0 is NotFound || r->Err_0 is Internal),
        r matches Ok(c) ==> !has_comment_id(old(comments)@, c.id) && c.post_id == post_id
            && c.author_id == author_id && c.text == req.text && final(comments)@ == old(
            comments,
        )@.push(c),
{
    if !posts.post_exists(post_id) {
        return Err(ApiError::NotFound);
    }
    let id = fresh_id();
    let created_at = now_micros();
    comments.create_comment_with(id, post_id, author_id, req.text, created_at)
}

/// Records the follow edge, after checking that the target exists.
/// Fails with `BadRequest` on a self-follow and with `NotFound` when
/// the target is unregistered; otherwise an idempotent add.
pub fn follow_user(
    users: &IdentityStore,
    follows: &mut FollowStore,
    user_id: u128,
    target_id: u128,
) -> (r: Result<(), ApiError>)
    requires
        old(follows).wf(),
    ensures
        final(follows).wf(),
        r is Ok <==> (user_id != target_id && has_user_id(users@, target_id)),
        user_id == target_id ==> r is Err && r->Err_0 is BadRequest && r->Err_0->BadRequest_0@
            == "cannot follow yourself"@ && final(follows)@ == old(follows)@,
        user_id != target_id && !has_user_id(users@, target_id) ==> r == Err::<(), ApiError>(
            ApiError::NotFound,
        ) && final(follows)@ == old(follows)@,
        r is Ok ==> final(follows)@ == follow_add(old(follows)@, user_id, target_id),
{
    if user_id == target_id {
        proof {
            reveal_strlit("cannot follow yourself");
        }
        return Err(ApiError::BadRequest("cannot follow yourself".to_owned()));
    }
    if !users.user_exists(target_id) {
        return Err(ApiError::NotFound);
    }
    follows.follow(user_id, target_id)
}

} // verus!
