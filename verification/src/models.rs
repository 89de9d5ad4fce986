//! The records held by the five stores, and the plain request payloads.
//!
//! Entities refer to one another by id only, never by reference: a
//! `Post` names its author through `author_id`, a `Comment` names its
//! post through `post_id`. Ids are 128-bit values; timestamps are
//! microseconds since the Unix epoch.

use vstd::prelude::*;

verus! {

/// A registered account.
#[derive(Debug, PartialEq, Eq)]
pub struct User {
    pub id: u128,
    pub username: String,
    /// Kept verbatim; this crate does no hashing.
    pub hashed_password: String,
}

impl Clone for User {
    fn clone(&self) -> (res: Self)
        ensures
            res == *self,
    {
        User {
            id: self.id,
            username: self.username.clone(),
            hashed_password: self.hashed_password.clone(),
        }
    }
}

/// A published post.
#[derive(Debug, PartialEq, Eq)]
pub struct Post {
    pub id: u128,
    pub author_id: u128,
    pub image_url: String,
    pub caption: String,
    pub created_at: i64,
}

impl Clone for Post {
    fn clone(&self) -> (res: Self)
        ensures
            res == *self,
    {
        Post {
            id: self.id,
            author_id: self.author_id,
            image_url: self.image_url.clone(),
            caption: self.caption.clone(),
            created_at: self.created_at,
        }
    }
}

/// A comment under a post.
#[derive(Debug, PartialEq, Eq)]
pub struct Comment {
    pub id: u128,
    pub post_id: u128,
    pub author_id: u128,
    pub text: String,
    pub created_at: i64,
}

impl Clone for Comment {
    fn clone(&self) -> (res: Self)
        ensures
            res == *self,
    {
        Comment {
            id: self.id,
            post_id: self.post_id,
            author_id: self.author_id,
            text: self.text.clone(),
            created_at: self.created_at,
        }
    }
}

/// A like edge: this user likes this post.
#[derive(Clone, Copy, Debug, PartialEq, Eq, Structural)]
pub struct Like {
    pub user_id: u128,
    pub post_id: u128,
}

/// A follow edge: the follower subscribes to the followed user's posts.
#[derive(Clone, Copy, Debug, PartialEq, Eq, Structural)]
pub struct Follow {
    pub follower_id: u128,
    pub following_id: u128,
}

/// The payload of a post-creation request.
pub struct CreatePostRequest {
    pub image_url: String,
    pub caption: String,
}

/// The payload of a comment-creation request.
pub struct CreateCommentRequest {
    pub text: String,
}

} // verus!
