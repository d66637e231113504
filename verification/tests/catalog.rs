use blog_graphql::graphql::QueryRoot;
use blog_graphql::posts::{catalog_posts, checked_listing, Posts};
use blog_graphql::validation::{validate_id, ID_NOT_POSITIVE};

fn post(id: i32, title: &str) -> Posts {
    Posts { id, title: title.to_string(), body: format!("body of {}", title) }
}

#[test]
fn posts_lists_the_two_catalog_entries_in_order() {
    let listing = QueryRoot.posts().unwrap();
    assert_eq!(listing.len(), 2);
    assert_eq!(listing[0].id, 1);
    assert_eq!(listing[0].title, "First Post");
    assert_eq!(listing[0].body, "This is the body of the first post");
    assert_eq!(listing[1].id, 2);
    assert_eq!(listing[1].title, "Second Post");
    assert_eq!(listing[1].body, "This is the body of the second post");
}

#[test]
fn posts_gives_the_same_listing_on_every_call() {
    let first = QueryRoot.posts();
    let second = QueryRoot.posts();
    assert_eq!(first, second);
    assert_eq!(first, Ok(catalog_posts()));
}

#[test]
fn checked_listing_returns_a_valid_listing_whole() {
    let listing = vec![post(1, "a"), post(7, "b"), post(i32::MAX, "c")];
    let expected = vec![post(1, "a"), post(7, "b"), post(i32::MAX, "c")];
    assert_eq!(checked_listing(listing), Ok(expected));
}

#[test]
fn checked_listing_accepts_an_empty_listing() {
    assert_eq!(checked_listing(Vec::new()), Ok(Vec::new()));
}

#[test]
fn checked_listing_refuses_a_post_with_id_zero() {
    let res = checked_listing(vec![post(0, "a"), post(2, "b")]);
    assert_eq!(res, Err("Validation error: id must be greater than 0".to_string()));
}

#[test]
fn checked_listing_refuses_a_post_with_a_negative_id() {
    let res = checked_listing(vec![post(1, "a"), post(-3, "b"), post(2, "c")]);
    assert_eq!(res, Err("Validation error: id must be greater than 0".to_string()));
}

#[test]
fn checked_listing_returns_no_part_of_a_listing_whose_last_post_is_invalid() {
    let res = checked_listing(vec![post(1, "a"), post(2, "b"), post(i32::MIN, "c")]);
    assert!(res.is_err());
    assert_eq!(res.unwrap_err(), format!("Validation error: {}", ID_NOT_POSITIVE));
}

#[test]
fn validate_id_accepts_one_and_above() {
    assert!(validate_id(1).is_ok());
    assert!(validate_id(2).is_ok());
    assert!(validate_id(i32::MAX).is_ok());
}

#[test]
fn validate_id_refuses_zero_and_below() {
    assert!(validate_id(0).is_err());
    assert!(validate_id(-1).is_err());
    assert!(validate_id(i32::MIN).is_err());
}

#[test]
fn validate_id_reports_the_code_of_the_rule() {
    let error = validate_id(0).unwrap_err();
    assert_eq!(error.code, "id must be greater than 0");
    assert_eq!(error.code, ID_NOT_POSITIVE);
    assert_eq!(error.message, None);
    assert!(error.params.is_empty());
    assert_eq!(error, validator::ValidationError::new("id must be greater than 0"));
}
