//! Timestamp ordering of query results, and sorted insertion.
//!
//! Post listings come newest first, comment listings oldest first —
//! the two stores deliberately use opposite conventions.

use vstd::prelude::*;

use crate::models::{Comment, Post};

verus! {

/// Newest first: timestamps never increase along the sequence.
pub open spec fn posts_sorted_desc(s: Seq<Post>) -> bool {
    forall|i: int, j: int|
        0 <= i <= j < s.len() ==> (#[trigger] s[i]).created_at >= (#[trigger] s[j]).created_at
}

/// Oldest first: timestamps never decrease along the sequence.
pub open spec fn comments_sorted_asc(s: Seq<Comment>) -> bool {
    forall|i: int, j: int|
        0 <= i <= j < s.len() ==> (#[trigger] s[i]).created_at <= (#[trigger] s[j]).created_at
}

/// Inserts a post into a newest-first sequence, keeping it sorted.
pub(crate) fn insert_post_desc(v: &mut Vec<Post>, p: Post)
    requires
        posts_sorted_desc(old(v)@),
    ensures
        posts_sorted_desc(final(v)@),
        final(v)@.to_multiset() == old(v)@.to_multiset().insert(p),
{
    let mut idx: usize = 0;
    while idx < v.len() && v[idx].created_at >= p.created_at
        invariant
            idx <= v@.len(),
            v@ == old(v)@,
            forall|k: int| 0 <= k < idx ==> (#[trigger] v@[k]).created_at >= p.created_at,
        decreases v@.len() - idx,
    {
        idx += 1;
    }
    proof {
        vstd::seq_lib::to_multiset_insert(v@, idx as int, p);
    }
    v.insert(idx, p);
}

/// Inserts a comment into an oldest-first sequence, keeping it sorted.
pub(crate) fn insert_comment_asc(v: &mut Vec<Comment>, c: Comment)
    requires
        comments_sorted_asc(old(v)@),
    ensures
        comments_sorted_asc(final(v)@),
        final(v)@.to_multiset() == old(v)@.to_multiset().insert(c),
{
    let mut idx: usize = 0;
    while idx < v.len() && v[idx].created_at <= c.created_at
        invariant
            idx <= v@.len(),
            v@ == old(v)@,
            forall|k: int| 0 <= k < idx ==> (#[trigger] v@[k]).created_at <= c.created_at,
        decreases v@.len() - idx,
    {
        idx += 1;
    }
    proof {
        vstd::seq_lib::to_multiset_insert(v@, idx as int, c);
    }
    v.insert(idx, c);
}

} // verus!
