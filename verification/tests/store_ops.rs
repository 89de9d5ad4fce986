use social_core::config::{AppConfig, DEFAULT_PORT};
use social_core::content::{CommentStore, PostStore};
use social_core::errors::ApiError;
use social_core::identity::{extract_user_id, IdentityStore};
use social_core::models::CreateCommentRequest;
use social_core::ops::add_comment;
use social_core::relations::{FollowStore, LikeStore};

#[test]
fn authenticate_returns_the_matching_id() {
    let mut users = IdentityStore::new();
    let id = users.register("carol".to_string(), "secret".to_string()).unwrap();
    assert_eq!(
        users.authenticate(&"carol".to_string(), &"secret".to_string()),
        Ok(id)
    );
}

#[test]
fn authenticate_rejects_wrong_credentials() {
    let mut users = IdentityStore::new();
    users.register("carol".to_string(), "secret".to_string()).unwrap();
    assert_eq!(
        users.authenticate(&"carol".to_string(), &"wrong".to_string()),
        Err(ApiError::Unauthorized)
    );
    assert_eq!(
        users.authenticate(&"nobody".to_string(), &"secret".to_string()),
        Err(ApiError::Unauthorized)
    );
}

#[test]
fn like_twice_equals_like_once() {
    let mut a = LikeStore::new();
    a.like(1, 7);
    let mut b = LikeStore::new();
    b.like(1, 7);
    b.like(1, 7);
    assert_eq!(a.count_likes(7), b.count_likes(7));
    assert_eq!(a.contains_like(1, 7), b.contains_like(1, 7));
    assert_eq!(b.count_likes(7), 1);
}

#[test]
fn unlike_twice_equals_unlike_once() {
    let mut a = LikeStore::new();
    a.like(1, 7);
    a.like(2, 7);
    a.unlike(1, 7);
    a.unlike(1, 7);
    assert!(!a.contains_like(1, 7));
    assert!(a.contains_like(2, 7));
    assert_eq!(a.count_likes(7), 1);
}

#[test]
fn unlike_absent_edge_is_a_no_op() {
    let mut a = LikeStore::new();
    a.like(2, 7);
    a.unlike(1, 7);
    assert!(a.contains_like(2, 7));
    assert_eq!(a.count_likes(7), 1);
}

#[test]
fn follow_twice_equals_follow_once() {
    let mut fs = FollowStore::new();
    fs.follow(1, 2).unwrap();
    fs.follow(1, 2).unwrap();
    let ids = fs.following_ids(1);
    assert_eq!(ids, vec![2]);
}

#[test]
fn unfollow_twice_equals_unfollow_once() {
    let mut fs = FollowStore::new();
    fs.follow(1, 2).unwrap();
    fs.follow(1, 3).unwrap();
    fs.unfollow(1, 2);
    fs.unfollow(1, 2);
    assert!(!fs.is_following(1, 2));
    assert!(fs.is_following(1, 3));
}

#[test]
fn self_follow_is_rejected_and_creates_no_edge() {
    let mut fs = FollowStore::new();
    let r = fs.follow(5, 5);
    assert_eq!(
        r,
        Err(ApiError::BadRequest("cannot follow yourself".to_string()))
    );
    assert!(!fs.is_following(5, 5));
    assert_eq!(fs.following_ids(5).len(), 0);
}

#[test]
fn user_posts_come_newest_first() {
    let mut posts = PostStore::new();
    posts.create_post_with(1, 9, "u1".to_string(), "old".to_string(), 10).unwrap();
    posts.create_post_with(2, 9, "u2".to_string(), "new".to_string(), 30).unwrap();
    posts.create_post_with(3, 9, "u3".to_string(), "mid".to_string(), 20).unwrap();
    posts.create_post_with(4, 8, "u4".to_string(), "other author".to_string(), 40).unwrap();

    let listed = posts.list_posts_by_author(9);
    let stamps: Vec<i64> = listed.iter().map(|p| p.created_at).collect();
    assert_eq!(stamps, vec![30, 20, 10]);
    assert!(listed.iter().all(|p| p.author_id == 9));
    assert!(stamps.windows(2).all(|w| w[0] >= w[1]));
}

#[test]
fn comments_come_oldest_first() {
    let mut comments = CommentStore::new();
    comments.create_comment_with(1, 5, 1, "late".to_string(), 300).unwrap();
    comments.create_comment_with(2, 5, 2, "early".to_string(), 100).unwrap();
    comments.create_comment_with(3, 5, 1, "middle".to_string(), 200).unwrap();
    comments.create_comment_with(4, 6, 1, "other post".to_string(), 50).unwrap();

    let listed = comments.list_comments_by_post(5);
    let stamps: Vec<i64> = listed.iter().map(|c| c.created_at).collect();
    assert_eq!(stamps, vec![100, 200, 300]);
    assert!(listed.iter().all(|c| c.post_id == 5));
    assert!(stamps.windows(2).all(|w| w[0] <= w[1]));
}

#[test]
fn comment_requires_existing_post() {
    let mut posts = PostStore::new();
    let mut comments = CommentStore::new();
    let missing = add_comment(
        &posts,
        &mut comments,
        42,
        1,
        CreateCommentRequest { text: "hello".to_string() },
    );
    assert_eq!(missing.unwrap_err(), ApiError::NotFound);

    let p = posts.create_post_with(42, 1, "u".to_string(), "c".to_string(), 5).unwrap();
    let c = add_comment(
        &posts,
        &mut comments,
        p.id,
        2,
        CreateCommentRequest { text: "hello".to_string() },
    )
    .unwrap();
    assert_eq!(c.post_id, p.id);
    assert_eq!(c.author_id, 2);
    assert_eq!(c.text, "hello");
    assert_eq!(comments.list_comments_by_post(p.id).len(), 1);
}

#[test]
fn get_post_returns_the_stored_record() {
    let mut posts = PostStore::new();
    let p = posts
        .create_post_with(11, 3, "http://example.invalid/x.jpg".to_string(), "hi".to_string(), 77)
        .unwrap();
    let got = posts.get_post(11).unwrap();
    assert_eq!(got.id, p.id);
    assert_eq!(got.author_id, 3);
    assert_eq!(got.image_url, "http://example.invalid/x.jpg");
    assert_eq!(got.caption, "hi");
    assert_eq!(got.created_at, 77);
    assert!(posts.post_exists(11));
    assert!(!posts.post_exists(12));
}

#[test]
fn duplicate_post_id_is_an_internal_error() {
    let mut posts = PostStore::new();
    posts.create_post_with(1, 1, "a".to_string(), "a".to_string(), 1).unwrap();
    let dup = posts.create_post_with(1, 2, "b".to_string(), "b".to_string(), 2);
    assert_eq!(dup.unwrap_err(), ApiError::Internal);
}

#[test]
fn error_status_codes_match_the_taxonomy() {
    assert_eq!(ApiError::NotFound.status_code(), 404);
    assert_eq!(ApiError::BadRequest("x".to_string()).status_code(), 400);
    assert_eq!(ApiError::Unauthorized.status_code(), 401);
    assert_eq!(ApiError::Internal.status_code(), 500);
}

#[test]
fn config_port_falls_back_to_the_default() {
    assert_eq!(AppConfig::with_port(Some(8080)).port, 8080);
    assert_eq!(AppConfig::with_port(None).port, DEFAULT_PORT);
    assert_eq!(DEFAULT_PORT, 3000);
}

#[test]
fn identity_header_parses_to_the_denoted_id() {
    assert_eq!(
        extract_user_id(Some("00000000-0000-0000-0000-000000000001")),
        Ok(1)
    );
    assert_eq!(
        extract_user_id(Some("fe0a0000-0000-0000-0000-00000000beef")),
        Ok((0xfe0a_u128 << 112) | 0xbeef_u128)
    );
    assert_eq!(extract_user_id(Some("not-a-uuid")), Err(ApiError::Unauthorized));
    assert_eq!(extract_user_id(None), Err(ApiError::Unauthorized));
}

#[test]
fn registration_draws_distinct_usable_ids() {
    let mut users = IdentityStore::new();
    let a = users.register("u1".to_string(), "p1".to_string()).unwrap();
    let b = users.register("u2".to_string(), "p2".to_string()).unwrap();
    assert_ne!(a, b);
    assert!(users.user_exists(a));
    assert!(users.user_exists(b));
    assert!(users.username_taken(&"u1".to_string()));
    assert!(!users.username_taken(&"u3".to_string()));
}
