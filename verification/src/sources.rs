//! Attaching to each product the shop it is offered by. Each shop is fetched
//! from the database once, when the first product that names it comes up;
//! later products that name it get the same record.

use crate::error::Error;
use crate::model::wishlist::products_view;
use crate::model::{Product, ProductView, Source, SourceView};
use crate::object_key::{lemma_ordinal_fits, lemma_ordinal_injective, ordinal_of, ObjectKey};
use std::collections::BTreeMap;
use vstd::prelude::*;

verus! {

/// `p` with the shop `s` attached.
pub open spec fn with_source(p: ProductView, s: SourceView) -> ProductView {
    ProductView { source: Some(s), ..p }
}

/// What the loader needs next.
pub enum SourceStep {
    /// Every product has its shop.
    Done,
    /// The shop with this id is to be fetched and handed to
    /// [`SourceLoader::supply`].
    Fetch(ObjectKey),
    /// A product names no shop: the operation fails with this error.
    Failed(Error),
}

/// Products whose shops are being attached, front to back.
pub struct SourceLoader {
    products: Vec<Product>,
    next: usize,
    cache: BTreeMap<u128, Source>,
    original: Ghost<Seq<ProductView>>,
}

impl SourceLoader {
    /// The products as they were handed in.
    pub closed spec fn original(&self) -> Seq<ProductView> {
        self.original@
    }

    /// The products as they are now.
    pub closed spec fn current(&self) -> Seq<ProductView> {
        products_view(self.products@)
    }

    /// How many products, from the front, have their shop.
    pub closed spec fn done(&self) -> nat {
        self.next as nat
    }

    /// The shops fetched so far, by id.
    pub closed spec fn fetched(&self) -> Map<Seq<u8>, SourceView> {
        Map::new(
            |b: Seq<u8>| b.len() == 12 && self.cache@.contains_key(ordinal_of(b) as u128),
            |b: Seq<u8>| self.cache@[ordinal_of(b) as u128]@,
        )
    }

    /// The first `done` products carry the shop fetched for their id, the
    /// others are as handed in; every id is twelve bytes long.
    pub open spec fn attached(
        original: Seq<ProductView>,
        current: Seq<ProductView>,
        fetched: Map<Seq<u8>, SourceView>,
        done: nat,
    ) -> bool {
        &&& current.len() == original.len()
        &&& done <= original.len()
        &&& forall|j: int|
            0 <= j < original.len() ==> ((#[trigger] original[j]).source_id matches Some(b)
                ==> b.len() == 12)
        &&& forall|j: int|
            0 <= j < done ==> {
                &&& (#[trigger] original[j]).source_id is Some
                &&& fetched.contains_key(original[j].source_id->0)
                &&& current[j] == with_source(original[j], fetched[original[j].source_id->0])
            }
        &&& forall|j: int| done <= j < original.len() ==> #[trigger] current[j] == original[j]
    }

    /// The loader's state is consistent.
    pub closed spec fn wf(&self) -> bool {
        &&& Self::attached(self.original(), self.current(), self.fetched(), self.done())
    }

    /// Starts on `products`, none of whose shops is fetched yet.
    pub fn new(products: Vec<Product>) -> (s: SourceLoader)
        ensures
            s.wf(),
            Self::attached(s.original(), s.current(), s.fetched(), s.done()),
            s.original() == products_view(products@),
            s.current() == products_view(products@),
            s.done() == 0,
            s.fetched() == Map::<Seq<u8>, SourceView>::empty(),
    {
        let s = SourceLoader {
            products,
            next: 0,
            cache: BTreeMap::new(),
            original: Ghost(products_view(products@)),
        };
        assert(s.fetched() =~= Map::<Seq<u8>, SourceView>::empty());
        assert forall|j: int| 0 <= j < s.original().len() implies ((#[trigger] s.original()[j]).source_id matches Some(b) ==> b.len() == 12) by {
            let p = s.products@[j];
            match p.source_id {
                Some(k) => k.lemma_len(),
                None => {},
            }
        }
        s
    }

    /// Moves on over the products whose shop was already fetched, attaching
    /// it, up to the first product that names no shop, the first whose shop
    /// is still to be fetched, or the end.
    pub fn step(&mut self) -> (r: SourceStep)
        requires
            old(self).wf(),
        ensures
            final(self).wf(),
            Self::attached(final(self).original(), final(self).current(), final(self).fetched(), final(self).done()),
            final(self).original() == old(self).original(),
            final(self).fetched() == old(self).fetched(),
            old(self).done() <= final(self).done(),
            match r {
                SourceStep::Done => final(self).done() == final(self).original().len(),
                SourceStep::Fetch(k) => {
                    &&& final(self).done() < final(self).original().len()
                    &&& final(self).original()[final(self).done() as int].source_id == Some(k@)
                    &&& !final(self).fetched().contains_key(k@)
                },
                SourceStep::Failed(e) => {
                    &&& final(self).done() < final(self).original().len()
                    &&& final(self).original()[final(self).done() as int].source_id is None
                    &&& e == Error::FieldNotLoaded("product", "source_id")
                },
            },
    {
        while self.next < self.products.len()
            invariant
                self.wf(),
                self.original() == old(self).original(),
                self.fetched() == old(self).fetched(),
                old(self).done() <= self.done(),
            decreases self.products@.len() - self.next,
        {
            let i = self.next;
            assert(self.current()[i as int] == self.original()[i as int]);
            match self.products[i].source_id {
                None => {
                    return SourceStep::Failed(Error::FieldNotLoaded("product", "source_id"));
                },
                Some(k) => {
                    let key = k.ordinal();
                    proof {
                        k.lemma_len();
                        lemma_ordinal_fits(k@);
                    }
                    match self.cache.get(&key) {
                        Some(s) => {
                            let source = s.clone();
                            let ghost before = self.products@;
                            self.products[i].set_source(source);
                            self.next = i + 1;
                            assert(self.fetched().contains_key(k@));
                            assert forall|j: int| 0 <= j < self.products@.len() && j != i implies self.products@[j] == before[j] by {}
                        },
                        None => {
                            assert(!self.fetched().contains_key(k@));
                            return SourceStep::Fetch(k);
                        },
                    }
                },
            }
        }
        SourceStep::Done
    }

    /// Takes in the shop that [`Self::step`] asked for, attaches it to the
    /// product that named it, and moves past that product.
    pub fn supply(&mut self, source: Source)
        requires
            old(self).wf(),
            old(self).done() < old(self).original().len(),
            old(self).original()[old(self).done() as int].source_id matches Some(b) && !old(
                self,
            ).fetched().contains_key(b),
        ensures
            final(self).wf(),
            Self::attached(final(self).original(), final(self).current(), final(self).fetched(), final(self).done()),
            final(self).original() == old(self).original(),
            final(self).done() == old(self).done() + 1,
            final(self).fetched() == old(self).fetched().insert(
                old(self).original()[old(self).done() as int].source_id->0,
                source@,
            ),
    {
        let i = self.next;
        let len = self.products.len();
        assert(i < len);
        assert(self.current()[i as int] == self.original()[i as int]);
        let k = match self.products[i].source_id {
            Some(k) => k,
            None => {
                assert(false);
                return;
            },
        };
        proof {
            k.lemma_len();
            lemma_ordinal_fits(k@);
        }
        let key = k.ordinal();
        let ghost old_fetched = self.fetched();
        let ghost before = self.products@;
        let attached = source.clone();
        self.cache.insert(key, source);
        self.products[i].set_source(attached);
        self.next = i + 1;
        assert forall|b: Seq<u8>| #[trigger] self.fetched().contains_key(b) == old_fetched.insert(k@, source@).contains_key(b) && (self.fetched().contains_key(b) ==> self.fetched()[b] == old_fetched.insert(k@, source@)[b]) by {
            if b.len() == 12 {
                lemma_ordinal_fits(b);
                if ordinal_of(b) == ordinal_of(k@) {
                    lemma_ordinal_injective(b, k@);
                }
            }
        }
        assert(self.fetched() =~= old_fetched.insert(k@, source@));
        assert forall|j: int| 0 <= j < self.products@.len() && j != i implies self.products@[j] == before[j] by {}
    }

    /// The products, with the shops attached so far.
    pub fn into_products(self) -> (r: Vec<Product>)
        requires
            self.wf(),
        ensures
            products_view(r@) == self.current(),
            r@.len() == self.original().len(),
    {
        self.products
    }
}

/// Once every product has been passed, each one is the product handed in
/// with the shop fetched for its id attached, and products that name the same
/// shop carry the same record.
pub proof fn lemma_sources_attached(loader: SourceLoader)
    requires
        loader.wf(),
        loader.done() == loader.original().len(),
    ensures
        loader.current().len() == loader.original().len(),
        forall|j: int|
            0 <= j < loader.original().len() ==> ((#[trigger] loader.original()[j]).source_id matches Some(b)
                && loader.fetched().contains_key(b) && loader.current()[j] == with_source(
                loader.original()[j],
                loader.fetched()[b],
            )),
        forall|i: int, j: int|
            0 <= i < loader.original().len() && 0 <= j < loader.original().len()
                && #[trigger] loader.original()[i].source_id == #[trigger] loader.original()[j].source_id
                ==> loader.current()[i].source == loader.current()[j].source,
        forall|j: int|
            0 <= j < loader.original().len() ==> #[trigger] loader.current()[j] == (ProductView {
                source: Some(loader.fetched()[loader.original()[j].source_id->0]),
                ..loader.original()[j]
            }),
{
    assert forall|i: int, j: int|
        0 <= i < loader.original().len() && 0 <= j < loader.original().len()
            && #[trigger] loader.original()[i].source_id == #[trigger] loader.original()[j].source_id
            implies loader.current()[i].source == loader.current()[j].source by {
        assert(loader.current()[i] == with_source(loader.original()[i], loader.fetched()[loader.original()[i].source_id->0]));
        assert(loader.current()[j] == with_source(loader.original()[j], loader.fetched()[loader.original()[j].source_id->0]));
    }
}

} // verus!
