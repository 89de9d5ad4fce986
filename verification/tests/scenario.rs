use social_core::content::PostStore;
use social_core::errors::ApiError;
use social_core::identity::IdentityStore;
use social_core::models::CreatePostRequest;
use social_core::ops::{follow_user, like_post};
use social_core::query::feed;
use social_core::relations::{FollowStore, LikeStore};

#[test]
fn two_registrations_then_feed_round_trip() {
    let mut users = IdentityStore::new();
    let alice = users
        .register("alice".to_string(), "pw-a".to_string())
        .expect("first registration succeeds");
    let bob = users
        .register("bob".to_string(), "pw-b".to_string())
        .expect("second registration succeeds");
    assert_ne!(alice, bob);

    let taken = users.register("alice".to_string(), "pw-c".to_string());
    assert_eq!(
        taken,
        Err(ApiError::BadRequest("username already taken".to_string()))
    );

    let mut posts = PostStore::new();
    let p1 = posts
        .create_post(
            alice,
            CreatePostRequest {
                image_url: "http://example.invalid/p1.jpg".to_string(),
                caption: "first".to_string(),
            },
        )
        .expect("post creation succeeds");

    let mut follows = FollowStore::new();
    follow_user(&users, &mut follows, bob, alice).expect("follow succeeds");

    let bob_feed = feed(&follows, &posts, bob);
    assert_eq!(bob_feed.len(), 1);
    assert_eq!(bob_feed[0].id, p1.id);
    assert_eq!(bob_feed[0].author_id, alice);
    assert_eq!(bob_feed[0].caption, "first");

    follows.unfollow(bob, alice);
    let empty_feed = feed(&follows, &posts, bob);
    assert_eq!(empty_feed.len(), 0);

    let mut likes = LikeStore::new();
    like_post(&posts, &mut likes, alice, p1.id).expect("like succeeds");
    like_post(&posts, &mut likes, alice, p1.id).expect("repeated like succeeds");
    assert_eq!(likes.count_likes(p1.id), 1);

    let unused_id: u128 = 0x2f9c_1d44_7b1e_4e0a_9c3d_5a66_0e81_aa55;
    assert_eq!(posts.get_post(unused_id), Err(ApiError::NotFound));
}

#[test]
fn feed_holds_exactly_followed_authors_posts() {
    let mut users = IdentityStore::new();
    let ann = users.register("ann".to_string(), "a".to_string()).unwrap();
    let ben = users.register("ben".to_string(), "b".to_string()).unwrap();
    let eve = users.register("eve".to_string(), "e".to_string()).unwrap();

    let mut posts = PostStore::new();
    let a1 = posts
        .create_post_with(1, ann, "u1".to_string(), "ann early".to_string(), 100)
        .unwrap();
    let b1 = posts
        .create_post_with(2, ben, "u2".to_string(), "ben mid".to_string(), 200)
        .unwrap();
    let a2 = posts
        .create_post_with(3, ann, "u3".to_string(), "ann late".to_string(), 300)
        .unwrap();

    let mut follows = FollowStore::new();
    follow_user(&users, &mut follows, eve, ann).unwrap();

    let eve_feed = feed(&follows, &posts, eve);
    let ids: Vec<u128> = eve_feed.iter().map(|p| p.id).collect();
    assert_eq!(ids, vec![a2.id, a1.id]);
    assert!(ids.iter().all(|&id| id != b1.id));

    follow_user(&users, &mut follows, eve, ben).unwrap();
    let wider_feed = feed(&follows, &posts, eve);
    let wider: Vec<u128> = wider_feed.iter().map(|p| p.id).collect();
    assert_eq!(wider, vec![a2.id, b1.id, a1.id]);
}

#[test]
fn post_must_exist_before_like() {
    let posts = PostStore::new();
    let mut likes = LikeStore::new();
    assert_eq!(like_post(&posts, &mut likes, 1, 99), Err(ApiError::NotFound));
    assert_eq!(likes.count_likes(99), 0);
}

#[test]
fn follow_target_must_exist() {
    let users = IdentityStore::new();
    let mut follows = FollowStore::new();
    assert_eq!(follow_user(&users, &mut follows, 1, 2), Err(ApiError::NotFound));
    assert!(!follows.is_following(1, 2));
}
