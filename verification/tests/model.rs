use bson::oid::ObjectId;
use bson::{Bson, Document};
use wishlist::model::{Category, Datapoint, Product, Source, Wishlist};
use wishlist::object_key::ObjectKey;

fn id(n: u8) -> [u8; 12] {
    [n, 0, 0, 0, 0, 0, 0, 0, 0, 0, 0, n]
}

fn product_document() -> Document {
    let mut d = Document::new();
    d.insert("_id", ObjectId::with_bytes(id(1)));
    d.insert("name", "Kettle");
    d.insert("price", 2599i32);
    d.insert("quantity", 3i32);
    d.insert("stars", 4i32);
    d.insert("url", "https://shop.example/kettle");
    d.insert("url_img", "https://shop.example/kettle.png");
    d.insert("item_id", "K-17");
    d.insert("first_seen", 100i32);
    d.insert("last_seen", 200i32);
    d.insert("source", ObjectId::with_bytes(id(2)));
    d.insert("category", ObjectId::with_bytes(id(3)));
    d
}

#[test]
fn product_reads_every_field() {
    let p = Product::from_document(&product_document());
    assert_eq!(p.id.map(|k| k.to_bytes()), Some(id(1)));
    assert_eq!(p.name.as_deref(), Some("Kettle"));
    assert_eq!(p.price, Some(2599));
    assert_eq!(p.quantity, Some(3));
    assert_eq!(p.stars, Some(4));
    assert_eq!(p.url.as_deref(), Some("https://shop.example/kettle"));
    assert_eq!(p.url_img.as_deref(), Some("https://shop.example/kettle.png"));
    assert_eq!(p.item_id.as_deref(), Some("K-17"));
    assert_eq!(p.first_seen, Some(100));
    assert_eq!(p.last_seen, Some(200));
    assert_eq!(p.source_id.map(|k| k.to_bytes()), Some(id(2)));
    assert_eq!(p.get_source_id().map(|k| k.to_bytes()), Some(id(2)));
    assert!(p.source.is_none());
    assert_eq!(p.category_id.map(|k| k.to_bytes()), Some(id(3)));
    assert_eq!(p.get_first_seen(), Some(100));
}

#[test]
fn product_fields_of_another_kind_are_absent() {
    let mut d = Document::new();
    d.insert("name", 12i32);
    d.insert("price", "cheap");
    d.insert("first_seen", 7i64);
    d.insert("source", "not an id");
    let p = Product::from_document(&d);
    assert!(p.name.is_none());
    assert!(p.price.is_none());
    assert!(p.first_seen.is_none());
    assert!(p.source_id.is_none());
    assert!(p.id.is_none());
    assert!(p.url.is_none());
}

#[test]
fn empty_document_gives_empty_records() {
    let d = Document::new();
    let p = Product::from_document(&d);
    assert!(p.id.is_none() && p.name.is_none() && p.price.is_none() && p.source.is_none());
    let s = Source::from_document(&d);
    assert!(s.id.is_none() && s.name.is_none() && s.url.is_none());
    let c = Category::from_document(&d);
    assert!(c.id.is_none() && c.name.is_none());
    let w = Wishlist::from_document(&d);
    assert!(w.id.is_none() && w.timestamp.is_none() && w.product_ids.is_none() && w.products.is_none());
    let dp = Datapoint::from_document(&d);
    assert!(dp.date.is_none() && dp.value.is_none());
}

#[test]
fn source_and_category_read_their_fields() {
    let mut d = Document::new();
    d.insert("_id", ObjectId::with_bytes(id(9)));
    d.insert("name", "Shop");
    d.insert("url", "https://shop.example");
    let s = Source::from_document(&d);
    assert_eq!(s.id.map(|k| k.to_bytes()), Some(id(9)));
    assert_eq!(s.name.as_deref(), Some("Shop"));
    assert_eq!(s.url.as_deref(), Some("https://shop.example"));
    let c = Category::from_document(&d);
    assert_eq!(c.get_id().map(|k| k.to_bytes()), Some(id(9)));
    assert_eq!(c.name.as_deref(), Some("Shop"));
}

#[test]
fn category_default_is_empty() {
    let c = Category::default();
    assert!(c.id.is_none());
    assert!(c.name.is_none());
    assert!(c.get_id().is_none());
}

#[test]
fn datapoint_reads_date_and_value() {
    let mut d = Document::new();
    d.insert("date", "2020-05-01");
    d.insert("value", 1999i32);
    let dp = Datapoint::from_document(&d);
    assert_eq!(dp.date.as_deref(), Some("2020-05-01"));
    assert_eq!(dp.value, Some(1999));
}

#[test]
fn wishlist_keeps_only_object_ids_of_its_array() {
    let mut d = Document::new();
    d.insert("_id", ObjectId::with_bytes(id(5)));
    d.insert("timestamp", 42i32);
    d.insert(
        "products",
        Bson::Array(vec![
            Bson::ObjectId(ObjectId::with_bytes(id(1))),
            Bson::String("stray".to_string()),
            Bson::ObjectId(ObjectId::with_bytes(id(2))),
            Bson::Int32(3),
            Bson::ObjectId(ObjectId::with_bytes(id(1))),
        ]),
    );
    let w = Wishlist::from_document(&d);
    assert_eq!(w.get_timestamp(), Some(42));
    assert_eq!(w.id.map(|k| k.to_bytes()), Some(id(5)));
    let ids: Vec<[u8; 12]> = w.get_product_ids().unwrap().iter().map(|k| k.to_bytes()).collect();
    assert_eq!(ids, vec![id(1), id(2), id(1)]);
    assert!(w.get_products().is_none());
}

#[test]
fn wishlist_products_of_another_kind_are_absent() {
    let mut d = Document::new();
    d.insert("products", "none");
    let w = Wishlist::from_document(&d);
    assert!(w.get_product_ids().is_none());
    let mut e = Document::new();
    e.insert("products", Bson::Array(vec![]));
    let w2 = Wishlist::from_document(&e);
    assert_eq!(w2.get_product_ids().map(|s| s.len()), Some(0));
}

#[test]
fn set_products_and_set_source_change_one_field() {
    let mut w = Wishlist::from_document(&Document::new());
    w.timestamp = Some(8);
    let p = Product::from_document(&product_document());
    w.set_products(vec![p]);
    assert_eq!(w.get_timestamp(), Some(8));
    assert_eq!(w.get_products().map(|s| s.len()), Some(1));
    let mut p = Product::from_document(&product_document());
    let mut sd = Document::new();
    sd.insert("name", "Shop");
    p.set_source(Source::from_document(&sd));
    assert_eq!(p.source.as_ref().and_then(|s| s.name.as_deref()), Some("Shop"));
    assert_eq!(p.name.as_deref(), Some("Kettle"));
}

#[test]
fn clones_keep_every_field() {
    let p = Product::from_document(&product_document());
    let q = p.clone();
    assert_eq!(q.name, p.name);
    assert_eq!(q.price, p.price);
    assert_eq!(q.url_img, p.url_img);
    assert_eq!(q.source_id.map(|k| k.to_bytes()), p.source_id.map(|k| k.to_bytes()));
}

#[test]
fn object_key_ordinal_is_big_endian() {
    let k = ObjectKey::from_bytes([0, 0, 0, 0, 0, 0, 0, 0, 0, 0, 1, 2]);
    assert_eq!(k.ordinal(), 258);
    let top = ObjectKey::from_bytes([255; 12]);
    assert_eq!(top.ordinal(), (1u128 << 96) - 1);
    let first = ObjectKey::from_bytes([1, 0, 0, 0, 0, 0, 0, 0, 0, 0, 0, 0]);
    assert_eq!(first.ordinal(), 1u128 << 88);
    assert_eq!(k.to_bytes(), [0, 0, 0, 0, 0, 0, 0, 0, 0, 0, 1, 2]);
}
