use posts_service::models::NewPost;
use posts_service::posts::{add_post, get_all_posts, hello, publish_post, update_post, ApiError};
use posts_service::store::PostsTable;

fn payload(title: &str, body: &str) -> NewPost {
    NewPost { title: title.to_string(), body: body.to_string() }
}

#[test]
fn create_valid_payload_returns_post() {
    let mut table = PostsTable::new();
    let post = add_post(&mut table, &payload("Ten characters!", "hi")).unwrap();
    assert_eq!(post.id, 1);
    assert_eq!(post.title, "Ten characters!");
    assert_eq!(post.body, "hi");
    assert!(!post.published);
}

#[test]
fn create_assigns_increasing_identifiers() {
    let mut table = PostsTable::new();
    let first = add_post(&mut table, &payload("first title here", "a")).unwrap();
    let second = add_post(&mut table, &payload("second title here", "b")).unwrap();
    assert_eq!(first.id, 1);
    assert_eq!(second.id, 2);
}

#[test]
fn create_short_title_is_rejected() {
    let mut table = PostsTable::new();
    let r = add_post(&mut table, &payload("short", "x"));
    assert_eq!(r.unwrap_err(), ApiError::Validation);
    assert!(get_all_posts(&table).is_empty());
}

#[test]
fn create_long_title_is_rejected() {
    let mut table = PostsTable::new();
    let title = "x".repeat(101);
    let r = add_post(&mut table, &payload(&title, "body"));
    assert_eq!(r.unwrap_err(), ApiError::Validation);
    assert!(get_all_posts(&table).is_empty());
}

#[test]
fn title_length_bounds_are_inclusive() {
    let mut table = PostsTable::new();
    assert!(add_post(&mut table, &payload(&"a".repeat(10), "b")).is_ok());
    assert!(add_post(&mut table, &payload(&"a".repeat(100), "b")).is_ok());
    assert_eq!(
        add_post(&mut table, &payload(&"a".repeat(9), "b")).unwrap_err(),
        ApiError::Validation
    );
    assert_eq!(
        add_post(&mut table, &payload(&"a".repeat(101), "b")).unwrap_err(),
        ApiError::Validation
    );
}

#[test]
fn title_length_is_counted_in_characters() {
    let mut table = PostsTable::new();
    // Ten characters, thirty bytes: the rule counts characters.
    let title = "\u{00e9}".repeat(5) + &"\u{4e16}".repeat(5);
    assert!(title.len() > 10);
    let post = add_post(&mut table, &payload(&title, "b")).unwrap();
    assert_eq!(post.title, title);
}

#[test]
fn update_replaces_title_and_body() {
    let mut table = PostsTable::new();
    let post = add_post(&mut table, &payload("original title", "old body")).unwrap();
    let updated = update_post(&mut table, post.id, &payload("replacement title", "new body"))
        .unwrap();
    assert_eq!(updated.id, post.id);
    assert_eq!(updated.title, "replacement title");
    assert_eq!(updated.body, "new body");
    assert!(!updated.published);
}

#[test]
fn update_keeps_the_published_flag() {
    let mut table = PostsTable::new();
    let post = add_post(&mut table, &payload("original title", "old body")).unwrap();
    publish_post(&mut table, post.id).unwrap();
    let updated = update_post(&mut table, post.id, &payload("replacement title", "b")).unwrap();
    assert!(updated.published);
}

#[test]
fn update_validates_before_looking_up() {
    let mut table = PostsTable::new();
    let r = update_post(&mut table, 7, &payload("short", "b"));
    assert_eq!(r.unwrap_err(), ApiError::Validation);
}

#[test]
fn update_missing_post_is_a_client_error() {
    let mut table = PostsTable::new();
    add_post(&mut table, &payload("some valid title", "b")).unwrap();
    let r = update_post(&mut table, 42, &payload("another valid title", "b"));
    let e = r.unwrap_err();
    assert_eq!(e, ApiError::NotFound);
    assert_eq!(e.status_code(), 400);
    assert_eq!(e.message(), "Could not find post");
}

#[test]
fn publish_sets_the_flag() {
    let mut table = PostsTable::new();
    let post = add_post(&mut table, &payload("some valid title", "b")).unwrap();
    let published = publish_post(&mut table, post.id).unwrap();
    assert_eq!(published.id, post.id);
    assert!(published.published);
}

#[test]
fn publish_twice_is_idempotent() {
    let mut table = PostsTable::new();
    let post = add_post(&mut table, &payload("some valid title", "b")).unwrap();
    let first = publish_post(&mut table, post.id).unwrap();
    let second = publish_post(&mut table, post.id).unwrap();
    assert!(first.published);
    assert!(second.published);
    assert_eq!(second.title, first.title);
    assert_eq!(second.body, first.body);
}

#[test]
fn publish_missing_post_is_a_client_error() {
    let mut table = PostsTable::new();
    let e = publish_post(&mut table, 42).unwrap_err();
    assert_eq!(e, ApiError::NotFound);
    assert_eq!(e.status_code(), 400);
}

#[test]
fn list_returns_all_posts_when_few() {
    let mut table = PostsTable::new();
    add_post(&mut table, &payload("first title here", "a")).unwrap();
    add_post(&mut table, &payload("second title here", "b")).unwrap();
    let all = get_all_posts(&table);
    assert_eq!(all.len(), 2);
    assert_eq!(all[0].title, "first title here");
    assert_eq!(all[1].title, "second title here");
}

#[test]
fn list_never_returns_more_than_one_hundred() {
    let mut table = PostsTable::new();
    for i in 0..105 {
        let title = format!("generated title number {}", i);
        add_post(&mut table, &payload(&title, "b")).unwrap();
    }
    assert_eq!(get_all_posts(&table).len(), 100);
}

#[test]
fn create_then_publish_then_list() {
    let mut table = PostsTable::new();
    let post = add_post(&mut table, &payload("Ten characters!", "hi")).unwrap();
    assert!(!post.published);
    let published = publish_post(&mut table, post.id).unwrap();
    assert!(published.published);
    let all = get_all_posts(&table);
    assert_eq!(all.len(), 1);
    assert_eq!(all[0].id, post.id);
    assert_eq!(all[0].title, "Ten characters!");
    assert_eq!(all[0].body, "hi");
    assert!(all[0].published);
}

#[test]
fn rejected_create_leaves_no_trace() {
    let mut table = PostsTable::new();
    let r = add_post(&mut table, &payload("short", "x"));
    assert_eq!(r.unwrap_err().status_code(), 400);
    assert!(get_all_posts(&table).is_empty());
}

#[test]
fn error_statuses_and_messages() {
    assert_eq!(ApiError::Validation.status_code(), 400);
    assert_eq!(ApiError::NotFound.status_code(), 400);
    assert_eq!(ApiError::Database.status_code(), 500);
    assert_eq!(ApiError::Database.message(), "Database connection failed");
    assert_eq!(
        ApiError::Validation.message(),
        "Title must be between 10 and 100 characters long"
    );
}

#[test]
fn greeting_route_body() {
    assert_eq!(hello(), "Hello, World!");
}

#[test]
fn validate_checks_the_title_alone() {
    assert!(payload("a valid title!", "").validate());
    assert!(!payload("", "a body of any length is fine").validate());
}

#[test]
fn found_outcome_becomes_the_post_or_a_not_found_error() {
    let mut table = PostsTable::new();
    let post = add_post(&mut table, &payload("some valid title", "b")).unwrap();
    let ok = posts_service::posts::respond_found(Some(post));
    assert_eq!(ok.unwrap().id, 1);
    let err = posts_service::posts::respond_found(None);
    assert_eq!(err.unwrap_err(), ApiError::NotFound);
}
