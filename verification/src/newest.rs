//! The listing of the newest products: the products that entered one of the
//! latest wishlists, taken from the latest three wishlists that added any,
//! looking back over at most ten.

use crate::model::wishlist::products_view;
use crate::model::{Product, ProductView, Wishlist, WishlistView};
use vstd::prelude::*;

verus! {

/// How many wishlists that added products the listing collects from.
pub const WANTED_LISTS: u64 = 3;

/// How many wishlists, newest first, the listing looks at at most.
pub const SCANNED_LISTS: i64 = 10;

/// The products among `products` that were first seen at `t`, in order.
pub open spec fn first_seen_at(products: Seq<ProductView>, t: Option<i32>) -> Seq<ProductView>
    decreases products.len(),
{
    if products.len() == 0 {
        Seq::empty()
    } else {
        let rest = first_seen_at(products.drop_last(), t);
        if products.last().first_seen == t {
            rest.push(products.last())
        } else {
            rest
        }
    }
}

/// The products that entered the wishlist `w`: those first seen when it was
/// taken. A wishlist whose products were not loaded has none.
pub open spec fn new_products_of(w: WishlistView) -> Seq<ProductView> {
    match w.products {
        Some(ps) => first_seen_at(ps, w.timestamp),
        None => Seq::empty(),
    }
}

/// How many of the wishlists `ws` added products.
pub open spec fn lists_with_new(ws: Seq<WishlistView>) -> nat
    decreases ws.len(),
{
    if ws.len() == 0 {
        0
    } else {
        lists_with_new(ws.drop_last()) + if new_products_of(ws.last()).len() > 0 {
            1nat
        } else {
            0nat
        }
    }
}

/// The products that the wishlists `ws` added, wishlist by wishlist.
pub open spec fn collected_products(ws: Seq<WishlistView>) -> Seq<ProductView>
    decreases ws.len(),
{
    if ws.len() == 0 {
        Seq::empty()
    } else {
        collected_products(ws.drop_last()) + new_products_of(ws.last())
    }
}

/// Which wishlist the listing asks for after it has looked at `ws`: the next
/// one back, counted from the latest, while fewer than three of them added
/// products and fewer than ten were looked at; none once it is done.
pub open spec fn next_wishlist(ws: Seq<WishlistView>) -> Option<int> {
    if lists_with_new(ws) < WANTED_LISTS && ws.len() < SCANNED_LISTS {
        Some(ws.len() as int)
    } else {
        None
    }
}

/// The products that entered `wishlist`, in the order in which it lists them.
pub fn new_products(wishlist: &Wishlist) -> (r: Vec<Product>)
    ensures
        products_view(r@) == new_products_of(wishlist@),
        products_view(r@) == match wishlist@.products {
            Some(ps) => ps.filter(|p: ProductView| p.first_seen == wishlist@.timestamp),
            None => Seq::<ProductView>::empty(),
        },
{
    proof {
        lemma_new_products_are_first_seen(wishlist@);
    }
    let mut out: Vec<Product> = Vec::new();
    let timestamp = wishlist.get_timestamp();
    match wishlist.get_products() {
        None => {},
        Some(products) => {
            let mut i: usize = 0;
            while i < products.len()
                invariant
                    i <= products@.len(),
                    wishlist.products matches Some(v) && products@ == v@,
                    timestamp == wishlist.timestamp,
                    products_view(out@) == first_seen_at(
                        products_view(products@).take(i as int),
                        timestamp,
                    ),
                decreases products@.len() - i,
            {
                let ghost seen = products_view(products@).take(i as int + 1);
                assert(seen.drop_last() =~= products_view(products@).take(i as int));
                let p = &products[i];
                let same = match (p.get_first_seen(), timestamp) {
                    (Some(a), Some(b)) => a == b,
                    (None, None) => true,
                    _ => false,
                };
                if same {
                    out.push(p.clone());
                }
                assert(products_view(out@) =~= first_seen_at(seen, timestamp));
                i = i + 1;
            }
            assert(products_view(products@).take(products@.len() as int) =~= products_view(
                products@,
            ));
        },
    }
    out
}

/// The listing in progress: the wishlists looked at so far, newest first, and
/// what they added.
pub struct NewestProductsScan {
    lists_with_new: u64,
    scanned: i64,
    products: Vec<Product>,
    seen: Ghost<Seq<WishlistView>>,
}

impl NewestProductsScan {
    /// The wishlists looked at so far, the latest first.
    pub closed spec fn history(&self) -> Seq<WishlistView> {
        self.seen@
    }

    /// The scan's fields agree with the wishlists it has looked at.
    pub closed spec fn wf(&self) -> bool {
        &&& self.lists_with_new == lists_with_new(self.seen@)
        &&& self.scanned == self.seen@.len()
        &&& self.seen@.len() <= SCANNED_LISTS
        &&& products_view(self.products@) == collected_products(self.seen@)
    }

    /// A scan that has looked at nothing yet.
    pub fn new() -> (s: NewestProductsScan)
        ensures
            s.wf(),
            s.history() == Seq::<WishlistView>::empty(),
    {
        let s = NewestProductsScan {
            lists_with_new: 0,
            scanned: 0,
            products: Vec::new(),
            seen: Ghost(Seq::empty()),
        };
        assert(products_view(s.products@) =~= Seq::<ProductView>::empty());
        s
    }

    /// How many wishlists back, from the latest, the next one to fetch is;
    /// `None` once the listing is complete.
    pub fn next_request(&self) -> (r: Option<i64>)
        requires
            self.wf(),
        ensures
            r matches Some(i) ==> next_wishlist(self.history()) == Some(i as int),
            r is None ==> next_wishlist(self.history()) is None,
            r is Some <==> (self.history().filter(|w: WishlistView| new_products_of(w).len() > 0).len()
                < 3 && self.history().len() < 10),
            r matches Some(i) ==> i == self.history().len(),
    {
        proof {
            lemma_next_wishlist_rule(self.history());
        }
        if self.lists_with_new < WANTED_LISTS && self.scanned < SCANNED_LISTS {
            Some(self.scanned)
        } else {
            None
        }
    }

    /// Takes in the wishlist that [`Self::next_request`] asked for, with its
    /// products loaded, and keeps the products that entered it.
    pub fn accept(&mut self, wishlist: &Wishlist)
        requires
            old(self).wf(),
            next_wishlist(old(self).history()) is Some,
        ensures
            final(self).wf(),
            final(self).history() == old(self).history().push(wishlist@),
    {
        let ghost before = self.seen@;
        let ghost after = before.push(wishlist@);
        assert(after.drop_last() =~= before);
        let mut added = new_products(wishlist);
        if added.len() > 0 {
            self.lists_with_new = self.lists_with_new + 1;
        }
        let ghost old_products = self.products@;
        self.products.append(&mut added);
        assert(products_view(self.products@) =~= products_view(old_products) + new_products_of(
            wishlist@,
        ));
        self.scanned = self.scanned + 1;
        self.seen = Ghost(after);
    }

    /// The products collected, from the latest wishlist back.
    pub fn finish(self) -> (r: Vec<Product>)
        requires
            self.wf(),
        ensures
            products_view(r@) == collected_products(self.history()),
            products_view(r@) == self.history().map_values(|w: WishlistView| new_products_of(w)).flatten(),
    {
        proof {
            lemma_collected_is_concatenation(self.history());
        }
        self.products
    }
}

/// A scan that is let run looks at no more than ten wishlists and collects
/// from no more than three: for wishlists `ws` taken in one by one, each asked
/// for in turn, `ws` has at most ten entries and at most three of them added
/// products.
pub proof fn lemma_scan_bounded(ws: Seq<WishlistView>)
    requires
        forall|k: int| 0 <= k < ws.len() ==> #[trigger] next_wishlist(ws.take(k)) is Some,
    ensures
        ws.len() <= SCANNED_LISTS,
        lists_with_new(ws) <= WANTED_LISTS,
    decreases ws.len(),
{
    if ws.len() > 0 {
        let prefix = ws.drop_last();
        assert forall|k: int| 0 <= k < prefix.len() implies #[trigger] next_wishlist(prefix.take(k)) is Some by {
            assert(prefix.take(k) =~= ws.take(k));
            assert(next_wishlist(ws.take(k)) is Some);
        }
        lemma_scan_bounded(prefix);
        assert(ws.take(prefix.len() as int) =~= prefix);
        assert(next_wishlist(ws.take(prefix.len() as int)) is Some);
    }
}

/// The products first seen at `t` are the products whose `first_seen` is `t`,
/// in order: a plain filter on that one field.
proof fn lemma_first_seen_at_is_filter(products: Seq<ProductView>, t: Option<i32>)
    ensures
        first_seen_at(products, t) == products.filter(|p: ProductView| p.first_seen == t),
    decreases products.len(),
{
    reveal(Seq::filter);
    if products.len() > 0 {
        lemma_first_seen_at_is_filter(products.drop_last(), t);
    }
}

/// The products that entered a wishlist are exactly those of its products
/// whose `first_seen` equals the wishlist's timestamp, in the wishlist's
/// order, whatever else a product holds; a wishlist whose products are not
/// loaded added none.
pub proof fn lemma_new_products_are_first_seen(w: WishlistView)
    ensures
        new_products_of(w) == match w.products {
            Some(ps) => ps.filter(|p: ProductView| p.first_seen == w.timestamp),
            None => Seq::<ProductView>::empty(),
        },
        w.products matches Some(ps) ==> forall|i: int|
            0 <= i < ps.len() && ps[i].first_seen == w.timestamp
                ==> new_products_of(w).contains(#[trigger] ps[i]),
        forall|i: int|
            0 <= i < new_products_of(w).len() ==> (#[trigger] new_products_of(w)[i]).first_seen
                == w.timestamp,
{
    broadcast use vstd::seq_lib::group_filter_ensures;
    match w.products {
        Some(ps) => {
            lemma_first_seen_at_is_filter(ps, w.timestamp);
        },
        None => {},
    }
}

/// How many of the wishlists `ws` added products is the number of them whose
/// new products are not empty.
proof fn lemma_lists_with_new_counts(ws: Seq<WishlistView>)
    ensures
        lists_with_new(ws) == ws.filter(|w: WishlistView| new_products_of(w).len() > 0).len(),
    decreases ws.len(),
{
    reveal(Seq::filter);
    if ws.len() > 0 {
        lemma_lists_with_new_counts(ws.drop_last());
    }
}

/// After the wishlists `ws`, the listing asks for the next one back exactly
/// while fewer than three of them added products and fewer than ten were
/// looked at; how many products were collected plays no part.
pub proof fn lemma_next_wishlist_rule(ws: Seq<WishlistView>)
    ensures
        next_wishlist(ws) == if ws.filter(|w: WishlistView| new_products_of(w).len() > 0).len() < 3
            && ws.len() < 10 {
            Some(ws.len() as int)
        } else {
            None::<int>
        },
{
    lemma_lists_with_new_counts(ws);
}

/// The products collected from the wishlists `ws` are the products that each
/// of them added, wishlist after wishlist in the order they were looked at,
/// each wishlist's in its own order.
pub proof fn lemma_collected_is_concatenation(ws: Seq<WishlistView>)
    ensures
        collected_products(ws) == ws.map_values(|w: WishlistView| new_products_of(w)).flatten(),
    decreases ws.len(),
{
    if ws.len() > 0 {
        lemma_collected_is_concatenation(ws.drop_last());
        let m = ws.map_values(|w: WishlistView| new_products_of(w));
        assert(m =~= ws.drop_last().map_values(|w: WishlistView| new_products_of(w)).push(
            new_products_of(ws.last()),
        ));
        ws.drop_last().map_values(|w: WishlistView| new_products_of(w)).lemma_flatten_push(
            new_products_of(ws.last()),
        );
    } else {
        assert(ws.map_values(|w: WishlistView| new_products_of(w)) =~= Seq::<Seq<ProductView>>::empty());
    }
}

} // verus!
