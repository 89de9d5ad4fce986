//! The content store: posts and comments, each collection keyed by id.

use vstd::prelude::*;

use crate::errors::ApiError;
use crate::fresh::{fresh_id, now_micros};
use crate::models::{Comment, CreatePostRequest, Post};
use crate::order::{comments_sorted_asc, insert_comment_asc, insert_post_desc, posts_sorted_desc};
use crate::seq_facts::lemma_filter_take_step;

verus! {

/// True when some post in `s` carries this id.
pub open spec fn has_post_id(s: Seq<Post>, id: u128) -> bool {
    exists|i: int| 0 <= i < s.len() && s[i].id == id
}

/// True when some comment in `s` carries this id.
pub open spec fn has_comment_id(s: Seq<Comment>, id: u128) -> bool {
    exists|i: int| 0 <= i < s.len() && s[i].id == id
}

/// The posts written by this author.
pub open spec fn written_by(author_id: u128) -> spec_fn(Post) -> bool {
    |p: Post| p.author_id == author_id
}

/// The posts of `s` written by this author, in store order.
pub open spec fn posts_of_author(s: Seq<Post>, author_id: u128) -> Seq<Post> {
    s.filter(written_by(author_id))
}

/// The comments under this post.
pub open spec fn under_post(post_id: u128) -> spec_fn(Comment) -> bool {
    |c: Comment| c.post_id == post_id
}

/// The comments of `s` under this post, in store order.
pub open spec fn comments_of_post(s: Seq<Comment>, post_id: u128) -> Seq<Comment> {
    s.filter(under_post(post_id))
}

/// All published posts. Writers go through `create_post`, which keeps
/// ids unique. The store does not check that an author id names a
/// registered user: that is its callers' responsibility.
pub struct PostStore {
    posts: Vec<Post>,
}

impl View for PostStore {
    type V = Seq<Post>;

    closed spec fn view(&self) -> Seq<Post> {
        self.posts@
    }
}

impl PostStore {
    /// No two posts share an id.
    pub open spec fn wf(self) -> bool {
        forall|i: int, j: int|
            0 <= i < j < self@.len() ==> (#[trigger] self@[i]).id != (#[trigger] self@[j]).id
    }

    pub fn new() -> (s: Self)
        ensures
            s@ == Seq::<Post>::empty(),
            s.wf(),
    {
        PostStore { posts: Vec::new() }
    }

    /// Pure lookup: is this post id present?
    pub fn post_exists(&self, id: u128) -> (found: bool)
        ensures
            found == has_post_id(self@, id),
    {
        let mut i: usize = 0;
        while i < self.posts.len()
            invariant
                i <= self@.len(),
                forall|k: int| 0 <= k < i ==> (#[trigger] self@[k]).id != id,
            decreases self@.len() - i,
        {
            if self.posts[i].id == id {
                return true;
            }
            i += 1;
        }
        false
    }

    /// The creation step once an id and a timestamp are fixed: records
    /// the post and returns it, or rejects a colliding id with
    /// `Internal` (a fresh random id never collides in practice).
    pub fn create_post_with(
        &mut self,
        id: u128,
        author_id: u128,
        image_url: String,
        caption: String,
        created_at: i64,
    ) -> (r: Result<Post, ApiError>)
        requires
            old(self).wf(),
        ensures
            final(self).wf(),
            has_post_id(old(self)@, id) <==> r is Err,
            r is Err ==> final(self)@ == old(self)@ && r == Err::<Post, ApiError>(
                ApiError::Internal,
            ),
            r matches Ok(p) ==> p == (Post { id, author_id, image_url, caption, created_at })
                && final(self)@ == old(self)@.push(p),
    {
        if self.post_exists(id) {
            return Err(ApiError::Internal);
        }
        let ghost s0 = self.posts@;
        let post = Post { id, author_id, image_url, caption, created_at };
        self.posts.push(post.clone());
        proof {
            assert forall|i: int, j: int| 0 <= i < j < self@.len() implies (#[trigger] self@[i]).id
                != (#[trigger] self@[j]).id by {
                if j == s0.len() {
                    assert(!has_post_id(s0, id));
                }
            }
        }
        Ok(post)
    }

    /// Creates a post under a freshly drawn id, stamped with the
    /// current time. Fails only with `Internal`, in the (practically
    /// impossible) case that the drawn id collides.
    pub fn create_post(&mut self, author_id: u128, req: CreatePostRequest) -> (r: Result<
        Post,
        ApiError,
    >)
        requires
            old(self).wf(),
        ensures
            final(self).wf(),
            r is Err ==> final(self)@ == old(self)@ && r == Err::<Post, ApiError>(
                ApiError::Internal,
            ),
            r matches Ok(p) ==> !has_post_id(old(self)@, p.id) && p.author_id == author_id
                && p.image_url == req.image_url && p.caption == req.caption && final(self)@ == old(
                self,
            )@.push(p),
    {
        let id = fresh_id();
        let created_at = now_micros();
        self.create_post_with(id, author_id, req.image_url, req.caption, created_at)
    }

    /// Returns the post with this id, and `NotFound` when none exists.
    pub fn get_post(&self, id: u128) -> (r: Result<Post, ApiError>)
        ensures
            r is Ok <==> has_post_id(self@, id),
            r is Err ==> r == Err::<Post, ApiError>(ApiError::NotFound),
            r matches Ok(p) ==> p.id == id && self@.contains(p),
            self.wf() && r is Ok ==> forall|i: int|
                0 <= i < self@.len() && (#[trigger] self@[i]).id == id ==> self@[i] == r->Ok_0,
    {
        let mut i: usize = 0;
        while i < self.posts.len()
            invariant
                i <= self@.len(),
                forall|k: int| 0 <= k < i ==> (#[trigger] self@[k]).id != id,
            decreases self@.len() - i,
        {
            if self.posts[i].id == id {
                return Ok(self.posts[i].clone());
            }
            i += 1;
        }
        Err(ApiError::NotFound)
    }

    /// The stored posts, in insertion order; read-only access for the
    /// query engine.
    pub(crate) fn raw(&self) -> (r: &Vec<Post>)
        ensures
            r@ == self@,
    {
        &self.posts
    }

    /// All posts by this author, newest first.
    pub fn list_posts_by_author(&self, author_id: u128) -> (r: Vec<Post>)
        ensures
            posts_sorted_desc(r@),
            r@.to_multiset() == posts_of_author(self@, author_id).to_multiset(),
    {
        let mut result: Vec<Post> = Vec::new();
        let mut i: usize = 0;
        proof {
            reveal(Seq::filter);
            assert(self@.take(0) =~= Seq::<Post>::empty());
        }
        while i < self.posts.len()
            invariant
                i <= self@.len(),
                posts_sorted_desc(result@),
                result@.to_multiset() == posts_of_author(self@.take(i as int), author_id)
                    .to_multiset(),
            decreases self@.len() - i,
        {
            proof {
                lemma_filter_take_step(self@, written_by(author_id), i as int);
                vstd::seq_lib::to_multiset_build(
                    posts_of_author(self@.take(i as int), author_id),
                    self@[i as int],
                );
            }
            if self.posts[i].author_id == author_id {
                insert_post_desc(&mut result, self.posts[i].clone());
            }
            i += 1;
        }
        proof {
            assert(self@.take(self@.len() as int) =~= self@);
        }
        result
    }
}

/// All comments. Writers go through `create_comment_with`, which keeps
/// ids unique. That the commented post exists is checked one level up,
/// where both stores are in scope.
pub struct CommentStore {
    comments: Vec<Comment>,
}

impl View for CommentStore {
    type V = Seq<Comment>;

    closed spec fn view(&self) -> Seq<Comment> {
        self.comments@
    }
}

impl CommentStore {
    /// No two comments share an id.
    pub open spec fn wf(self) -> bool {
        forall|i: int, j: int|
            0 <= i < j < self@.len() ==> (#[trigger] self@[i]).id != (#[trigger] self@[j]).id
    }

    pub fn new() -> (s: Self)
        ensures
            s@ == Seq::<Comment>::empty(),
            s.wf(),
    {
        CommentStore { comments: Vec::new() }
    }

    /// Pure lookup: is this comment id present?
    pub fn comment_exists(&self, id: u128) -> (found: bool)
        ensures
            found == has_comment_id(self@, id),
    {
        let mut i: usize = 0;
        while i < self.comments.len()
            invariant
                i <= self@.len(),
                forall|k: int| 0 <= k < i ==> (#[trigger] self@[k]).id != id,
            decreases self@.len() - i,
        {
            if self.comments[i].id == id {
                return true;
            }
            i += 1;
        }
        false
    }

    /// The creation step once an id and a timestamp are fixed: records
    /// the comment and returns it, or rejects a colliding id with
    /// `Internal`.
    pub fn create_comment_with(
        &mut self,
        id: u128,
        post_id: u128,
        author_id: u128,
        text: String,
        created_at: i64,
    ) -> (r: Result<Comment, ApiError>)
        requires
            old(self).wf(),
        ensures
            final(self).wf(),
            has_comment_id(old(self)@, id) <==> r is Err,
            r is Err ==> final(self)@ == old(self)@ && r == Err::<Comment, ApiError>(
                ApiError::Internal,
            ),
            r matches Ok(c) ==> c == (Comment { id, post_id, author_id, text, created_at })
                && final(self)@ == old(self)@.push(c),
    {
        if self.comment_exists(id) {
            return Err(ApiError::Internal);
        }
        let ghost s0 = self.comments@;
        let comment = Comment { id, post_id, author_id, text, created_at };
        self.comments.push(comment.clone());
        proof {
            assert forall|i: int, j: int| 0 <= i < j < self@.len() implies (#[trigger] self@[i]).id
                != (#[trigger] self@[j]).id by {
                if j == s0.len() {
                    assert(!has_comment_id(s0, id));
                }
            }
        }
        Ok(comment)
    }

    /// All comments under this post, oldest first.
    pub fn list_comments_by_post(&self, post_id: u128) -> (r: Vec<Comment>)
        ensures
            comments_sorted_asc(r@),
            r@.to_multiset() == comments_of_post(self@, post_id).to_multiset(),
    {
        let mut result: Vec<Comment> = Vec::new();
        let mut i: usize = 0;
        proof {
            reveal(Seq::filter);
            assert(self@.take(0) =~= Seq::<Comment>::empty());
        }
        while i < self.comments.len()
            invariant
                i <= self@.len(),
                comments_sorted_asc(result@),
                result@.to_multiset() == comments_of_post(self@.take(i as int), post_id)
                    .to_multiset(),
            decreases self@.len() - i,
        {
            proof {
                lemma_filter_take_step(self@, under_post(post_id), i as int);
                vstd::seq_lib::to_multiset_build(
                    comments_of_post(self@.take(i as int), post_id),
                    self@[i as int],
                );
            }
            if self.comments[i].post_id == post_id {
                insert_comment_asc(&mut result, self.comments[i].clone());
            }
            i += 1;
        }
        proof {
            assert(self@.take(self@.len() as int) =~= self@);
        }
        result
    }
}

} // verus!
