use wishlist::query::{default_offset, default_size, CategoryQuery, ListQuery};
use wishlist::reject::{
    get_bad_request_message, get_internal_error_message, get_not_found_message, rejection_message,
    Rejection,
};
use wishlist::Error;

#[test]
fn empty_result_is_answered_200() {
    let m = Error::EmptyResult.to_error_message();
    assert_eq!(m.code, 200);
    assert_eq!(m.message, "Empty Result");
}

#[test]
fn missing_field_is_answered_500() {
    let m = Error::FieldNotLoaded("wishlist", "product_ids").to_error_message();
    assert_eq!(m.code, 500);
    assert_eq!(m.message, "Internal server error");
}

#[test]
fn fixed_replies() {
    let n = get_not_found_message();
    assert_eq!((n.code, n.message.as_str()), (404, "Page not found"));
    let b = get_bad_request_message();
    assert_eq!((b.code, b.message.as_str()), (400, "Bad request"));
    let i = get_internal_error_message();
    assert_eq!((i.code, i.message.as_str()), (500, "Internal server error"));
}

#[test]
fn rejections_map_to_replies() {
    let m = rejection_message(Rejection::NotFound);
    assert_eq!((m.code, m.message.as_str()), (404, "Page not found"));
    let e = Error::EmptyResult;
    let m = rejection_message(Rejection::Failed(&e));
    assert_eq!((m.code, m.message.as_str()), (200, "Empty Result"));
    let f = Error::FieldNotLoaded("product", "source_id");
    let m = rejection_message(Rejection::Failed(&f));
    assert_eq!((m.code, m.message.as_str()), (500, "Internal server error"));
    let m = rejection_message(Rejection::BadBody);
    assert_eq!((m.code, m.message.as_str()), (400, "Bad request"));
    let m = rejection_message(Rejection::Unhandled);
    assert_eq!((m.code, m.message.as_str()), (500, "Internal server error"));
}

#[test]
fn list_query_defaults() {
    assert_eq!(default_offset(), 0);
    assert_eq!(default_size(), 10);
    let q = ListQuery::new(None, None);
    assert_eq!((q.get_offset(), q.get_size()), (0, 10));
    let q = ListQuery::new(Some(20), None);
    assert_eq!((q.get_offset(), q.get_size()), (20, 10));
    let q = ListQuery::new(None, Some(5));
    assert_eq!((q.get_offset(), q.get_size()), (0, 5));
}

#[test]
fn category_query_gives_its_name() {
    let q = CategoryQuery::new(Some("Kitchen".to_string()));
    assert_eq!(q.get_category(), Some("Kitchen"));
    let none = CategoryQuery::new(None);
    assert_eq!(none.get_category(), None);
}
