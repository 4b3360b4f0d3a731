use bson::oid::ObjectId;
use bson::{Bson, Document};
use wishlist::handler::{
    archive_page, category_filter, category_from_lookup, required_product_ids, source_from_lookup,
    wishlist_from_lookup, CategoryFilter,
};
use wishlist::model::{Category, Product, Source, Wishlist};
use wishlist::newest::{new_products, NewestProductsScan};
use wishlist::query::ListQuery;
use wishlist::sources::{SourceLoader, SourceStep};
use wishlist::Error;

fn id(n: u8) -> [u8; 12] {
    [0, 0, 0, 0, 0, 0, 0, 0, 0, 0, 0, n]
}

fn wishlist_with_ids(ids: &[u8]) -> Wishlist {
    let mut d = Document::new();
    d.insert("timestamp", 1i32);
    d.insert(
        "products",
        Bson::Array(ids.iter().map(|n| Bson::ObjectId(ObjectId::with_bytes(id(*n)))).collect()),
    );
    Wishlist::from_document(&d)
}

fn product(name: &str, first_seen: Option<i32>, source: Option<u8>) -> Product {
    let mut d = Document::new();
    d.insert("name", name);
    if let Some(t) = first_seen {
        d.insert("first_seen", t);
    }
    if let Some(s) = source {
        d.insert("source", ObjectId::with_bytes(id(s)));
    }
    Product::from_document(&d)
}

fn names(ps: &[Product]) -> Vec<String> {
    ps.iter().map(|p| p.name.clone().unwrap_or_default()).collect()
}

#[test]
fn required_ids_present_or_field_not_loaded() {
    let w = wishlist_with_ids(&[1, 2]);
    assert_eq!(required_product_ids(&w).unwrap().len(), 2);
    let bare = Wishlist::from_document(&Document::new());
    match required_product_ids(&bare) {
        Err(Error::FieldNotLoaded(a, b)) => assert_eq!((a, b), ("wishlist", "product_ids")),
        _ => panic!("expected a missing field"),
    }
}

#[test]
fn archive_page_takes_offset_and_size() {
    let w = wishlist_with_ids(&[4, 5, 6]);
    let page = archive_page(&w, &ListQuery::new(Some(30), Some(15))).ok().unwrap();
    assert_eq!(page.excluded.len(), 3);
    assert_eq!(page.excluded[2].to_bytes(), id(6));
    assert_eq!((page.skip, page.limit), (30, 15));
    let defaults = archive_page(&w, &ListQuery::new(None, None)).ok().unwrap();
    assert_eq!((defaults.skip, defaults.limit), (0, 10));
}

#[test]
fn archive_page_keeps_the_bits_of_huge_numbers() {
    let w = wishlist_with_ids(&[]);
    let page = archive_page(&w, &ListQuery::new(Some(u64::MAX), Some(1u64 << 63))).ok().unwrap();
    assert_eq!(page.skip, -1);
    assert_eq!(page.limit, i64::MIN);
}

#[test]
fn archive_page_needs_product_ids() {
    let bare = Wishlist::from_document(&Document::new());
    assert!(matches!(
        archive_page(&bare, &ListQuery::new(None, None)),
        Err(Error::FieldNotLoaded("wishlist", "product_ids"))
    ));
}

#[test]
fn category_filters() {
    assert!(matches!(category_filter(None), Ok(CategoryFilter::Uncategorized)));
    let mut d = Document::new();
    d.insert("_id", ObjectId::with_bytes(id(7)));
    let c = Category::from_document(&d);
    match category_filter(Some(&c)) {
        Ok(CategoryFilter::InCategory(k)) => assert_eq!(k.to_bytes(), id(7)),
        _ => panic!("expected the category's id"),
    }
    let no_id = Category::default();
    assert!(matches!(
        category_filter(Some(&no_id)),
        Err(Error::FieldNotLoaded("wishlist", "product_ids"))
    ));
}

#[test]
fn lookups_that_find_nothing_are_empty_results() {
    assert!(matches!(category_from_lookup(None), Err(Error::EmptyResult)));
    assert!(matches!(wishlist_from_lookup(None), Err(Error::EmptyResult)));
    assert!(matches!(source_from_lookup(None), Err(Error::EmptyResult)));
    let mut d = Document::new();
    d.insert("name", "Found");
    d.insert("timestamp", 3i32);
    assert_eq!(category_from_lookup(Some(&d)).ok().unwrap().name.as_deref(), Some("Found"));
    assert_eq!(source_from_lookup(Some(&d)).ok().unwrap().name.as_deref(), Some("Found"));
    assert_eq!(wishlist_from_lookup(Some(&d)).ok().unwrap().timestamp, Some(3));
}

#[test]
fn new_products_are_those_first_seen_at_the_timestamp() {
    let mut w = wishlist_with_ids(&[]);
    w.timestamp = Some(5);
    w.set_products(vec![
        product("a", Some(5), None),
        product("b", Some(4), None),
        product("c", None, None),
        product("d", Some(5), None),
    ]);
    assert_eq!(names(&new_products(&w)), vec!["a", "d"]);
}

#[test]
fn without_timestamp_new_products_are_those_never_seen() {
    let mut w = Wishlist::from_document(&Document::new());
    w.set_products(vec![product("a", Some(5), None), product("c", None, None)]);
    assert_eq!(names(&new_products(&w)), vec!["c"]);
    let unloaded = Wishlist::from_document(&Document::new());
    assert!(new_products(&unloaded).is_empty());
}

fn snapshot(t: i32, fresh: &[&str]) -> Wishlist {
    let mut w = wishlist_with_ids(&[]);
    w.timestamp = Some(t);
    let mut ps: Vec<Product> = fresh.iter().map(|n| product(n, Some(t), None)).collect();
    ps.push(product("old", Some(t - 100), None));
    w.set_products(ps);
    w
}

#[test]
fn newest_stops_after_three_lists_that_added_products() {
    let lists = vec![
        snapshot(10, &["a"]),
        snapshot(9, &[]),
        snapshot(8, &["b", "c"]),
        snapshot(7, &[]),
        snapshot(6, &["d"]),
        snapshot(5, &["e"]),
    ];
    let mut scan = NewestProductsScan::new();
    let mut asked = Vec::new();
    while let Some(i) = scan.next_request() {
        asked.push(i);
        scan.accept(&lists[i as usize]);
    }
    assert_eq!(asked, vec![0, 1, 2, 3, 4]);
    assert_eq!(names(&scan.finish()), vec!["a", "b", "c", "d"]);
}

#[test]
fn newest_looks_back_over_at_most_ten_lists() {
    let lists: Vec<Wishlist> = (0..12).map(|i| snapshot(100 - i, if i == 11 { &["late"] } else { &[] })).collect();
    let mut scan = NewestProductsScan::new();
    let mut asked = Vec::new();
    while let Some(i) = scan.next_request() {
        asked.push(i);
        scan.accept(&lists[i as usize]);
    }
    assert_eq!(asked, (0..10).collect::<Vec<i64>>());
    assert!(scan.finish().is_empty());
}

fn source(n: u8, name: &str) -> Source {
    let mut d = Document::new();
    d.insert("_id", ObjectId::with_bytes(id(n)));
    d.insert("name", name);
    Source::from_document(&d)
}

#[test]
fn each_source_is_fetched_once_and_shared() {
    let products = vec![
        product("p1", None, Some(1)),
        product("p2", None, Some(2)),
        product("p3", None, Some(1)),
        product("p4", None, Some(2)),
        product("p5", None, Some(3)),
    ];
    let mut loader = SourceLoader::new(products);
    let mut fetched = Vec::new();
    loop {
        match loader.step() {
            SourceStep::Done => break,
            SourceStep::Failed(_) => panic!("no product lacks its source"),
            SourceStep::Fetch(k) => {
                let n = k.to_bytes()[11];
                fetched.push(n);
                loader.supply(source(n, &format!("shop{}", n)));
            }
        }
    }
    assert_eq!(fetched, vec![1, 2, 3]);
    let done = loader.into_products();
    let shops: Vec<String> = done
        .iter()
        .map(|p| p.source.as_ref().unwrap().name.clone().unwrap())
        .collect();
    assert_eq!(shops, vec!["shop1", "shop2", "shop1", "shop2", "shop3"]);
    assert_eq!(names(&done), vec!["p1", "p2", "p3", "p4", "p5"]);
}

#[test]
fn a_product_without_source_id_fails_the_load() {
    let products = vec![product("p1", None, Some(1)), product("p2", None, None), product("p3", None, Some(1))];
    let mut loader = SourceLoader::new(products);
    match loader.step() {
        SourceStep::Fetch(k) => {
            assert_eq!(k.to_bytes(), id(1));
            loader.supply(source(1, "shop1"));
        }
        _ => panic!("expected a fetch"),
    }
    match loader.step() {
        SourceStep::Failed(Error::FieldNotLoaded(a, b)) => assert_eq!((a, b), ("product", "source_id")),
        _ => panic!("expected a missing source id"),
    }
}

#[test]
fn no_products_need_no_sources() {
    let mut loader = SourceLoader::new(Vec::new());
    assert!(matches!(loader.step(), SourceStep::Done));
    assert!(loader.into_products().is_empty());
}
