use vstd::prelude::*;
use crate::listing::{FilterKey, Listing};
use crate::tier::Tier;

verus! {

/// No listing of the sequence costs more than one that follows it.
pub open spec fn sorted_by_cost(listings: Seq<Listing>) -> bool {
    forall|i: int, j: int| 0 <= i <= j < listings.len() ==> listings[i].cost <= listings[j].cost
}

/// Where a listing of the given cost goes: right behind the last listing that
/// costs no more than it.
pub open spec fn insertion_point(listings: Seq<Listing>, cost: i64) -> int
    decreases listings.len(),
{
    if listings.len() == 0 {
        0
    } else if listings.last().cost <= cost {
        listings.len() as int
    } else {
        insertion_point(listings.drop_last(), cost)
    }
}

/// The bucket after a listing has joined it: what appending the listing and
/// then sorting by cost, equal costs kept in their order, makes of a sorted bucket.
pub open spec fn with_listing(listings: Seq<Listing>, listing: Listing) -> Seq<Listing> {
    listings.insert(insertion_point(listings, listing.cost), listing)
}

/// The bucket of a key, empty where the key has none.
pub open spec fn bucket_or_empty(
    buckets: Map<(Tier, Seq<char>), Seq<Listing>>,
    key: (Tier, Seq<char>),
) -> Seq<Listing> {
    if buckets.contains_key(key) {
        buckets[key]
    } else {
        Seq::empty()
    }
}

pub proof fn lemma_insertion_point_bounds(listings: Seq<Listing>, cost: i64)
    ensures
        0 <= insertion_point(listings, cost) <= listings.len(),
        forall|i: int|
            insertion_point(listings, cost) <= i < listings.len() ==> listings[i].cost > cost,
        insertion_point(listings, cost) > 0 ==> listings[insertion_point(listings, cost) - 1].cost
            <= cost,
    decreases listings.len(),
{
    if listings.len() > 0 && listings.last().cost > cost {
        let front = listings.drop_last();
        lemma_insertion_point_bounds(front, cost);
        assert forall|i: int|
            insertion_point(listings, cost) <= i < listings.len() implies listings[i].cost
            > cost by {
            if i < front.len() {
                assert(front[i] == listings[i]);
            }
        }
        if insertion_point(listings, cost) > 0 {
            assert(front[insertion_point(listings, cost) - 1] == listings[insertion_point(
                listings,
                cost,
            ) - 1]);
        }
    }
}

/// A sorted bucket is still sorted after a listing has joined it, and holds
/// what it held and the new listing: it is the bucket with the listing
/// appended, sorted again.
pub proof fn lemma_with_listing_sorted(listings: Seq<Listing>, listing: Listing)
    requires
        sorted_by_cost(listings),
    ensures
        sorted_by_cost(with_listing(listings, listing)),
        with_listing(listings, listing).len() == listings.len() + 1,
        with_listing(listings, listing).to_multiset() == listings.push(listing).to_multiset(),
{
    lemma_insertion_point_bounds(listings, listing.cost);
    vstd::seq_lib::to_multiset_insert(listings, insertion_point(listings, listing.cost), listing);
    vstd::seq_lib::to_multiset_build(listings, listing);
    let p = insertion_point(listings, listing.cost);
    let after = with_listing(listings, listing);
    assert forall|i: int, j: int| 0 <= i <= j < after.len() implies after[i].cost
        <= after[j].cost by {
        if i < p {
            assert(after[i] == listings[i]);
            assert(listings[i].cost <= listings[p - 1].cost);
        }
        if j > p {
            assert(after[j] == listings[j - 1]);
        }
    }
}

/// A listing that joins a bucket twice stands in it twice: nothing is
/// taken for a duplicate, and the listings that were there keep their order.
pub proof fn lemma_twice_inserted_stands_twice(listings: Seq<Listing>, listing: Listing)
    ensures
        ({
            let once = with_listing(listings, listing);
            let twice = with_listing(once, listing);
            let first = insertion_point(listings, listing.cost);
            let second = insertion_point(once, listing.cost);
            &&& twice.len() == listings.len() + 2
            &&& 0 <= first < second < twice.len()
            &&& twice[first] == listing
            &&& twice[second] == listing
            &&& twice.remove(second).remove(first) == listings
        }),
{
    let once = with_listing(listings, listing);
    let twice = with_listing(once, listing);
    let first = insertion_point(listings, listing.cost);
    let second = insertion_point(once, listing.cost);
    lemma_insertion_point_bounds(listings, listing.cost);
    lemma_insertion_point_bounds(once, listing.cost);
    assert(once[first] == listing);
    if second <= first {
        assert(once[first].cost > listing.cost);
    }
    assert(twice.remove(second) =~= once);
    assert(once.remove(first) =~= listings);
}

/// The key of a lookup has no bucket.
#[derive(Clone, Copy, Debug, PartialEq, Eq, Structural)]
pub struct KeyNotFound;

/// For each filter key the live listings of that key, cheapest first.
pub struct LowestPriceIndex {
    keys: Vec<FilterKey>,
    buckets: Vec<Vec<Listing>>,
}

impl LowestPriceIndex {
    spec fn has(&self, key: (Tier, Seq<char>)) -> bool {
        exists|i: int| 0 <= i < self.keys@.len() && self.keys@[i]@ == key
    }

    spec fn slot(&self, key: (Tier, Seq<char>)) -> int {
        choose|i: int| 0 <= i < self.keys@.len() && self.keys@[i]@ == key
    }

    /// The buckets by key.
    pub closed spec fn view(&self) -> Map<(Tier, Seq<char>), Seq<Listing>> {
        Map::new(|key: (Tier, Seq<char>)| self.has(key), |key: (Tier, Seq<char>)| self.buckets@[self.slot(key)]@)
    }

    /// Each key stands once, and its bucket is sorted by cost and not empty.
    pub closed spec fn wf(&self) -> bool {
        &&& self.keys@.len() == self.buckets@.len()
        &&& forall|i: int, j: int|
            0 <= i < j < self.keys@.len() ==> self.keys@[i]@ != self.keys@[j]@
        &&& forall|i: int|
            0 <= i < self.buckets@.len() ==> self.buckets@[i]@.len() > 0 && sorted_by_cost(
                #[trigger] self.buckets@[i]@,
            )
    }

    /// Whatever was inserted, and in whatever order, every bucket of an index
    /// is sorted by cost and holds at least one listing.
    pub proof fn lemma_buckets_sorted(&self, key: (Tier, Seq<char>))
        requires
            self.wf(),
            self@.contains_key(key),
        ensures
            sorted_by_cost(self@[key]),
            self@[key].len() > 0,
    {
        let i = self.slot(key);
        assert(sorted_by_cost(self.buckets@[i]@));
    }

    pub fn new() -> (index: Self)
        ensures
            index.wf(),
            index@ == Map::<(Tier, Seq<char>), Seq<Listing>>::empty(),
            index.key_order() == Seq::<(Tier, Seq<char>)>::empty(),
    {
        let index = LowestPriceIndex { keys: Vec::new(), buckets: Vec::new() };
        assert(index@ =~= Map::<(Tier, Seq<char>), Seq<Listing>>::empty());
        assert(index.key_order() =~= Seq::<(Tier, Seq<char>)>::empty());
        index
    }

    fn find(&self, key: &FilterKey) -> (found: Option<usize>)
        requires
            self.wf(),
        ensures
            match found {
                Some(i) => i < self.keys@.len() && self.keys@[i as int]@ == key@ && self.has(key@)
                    && self.slot(key@) == i,
                None => !self.has(key@),
            },
    {
        let mut i: usize = 0;
        while i < self.keys.len()
            invariant
                self.wf(),
                i <= self.keys@.len(),
                forall|j: int| 0 <= j < i ==> self.keys@[j]@ != key@,
            decreases self.keys@.len() - i,
        {
            if self.keys[i].same_as(key) {
                proof {
                    assert(self.has(key@));
                    let w = self.slot(key@);
                    assert(self.keys@[w]@ == key@);
                    if w > i {
                        assert(self.keys@[i as int]@ != self.keys@[w]@);
                    }
                }
                return Some(i);
            }
            i += 1;
        }
        None
    }

    /// The keys in the order in which each was first seen.
    pub closed spec fn key_order(&self) -> Seq<(Tier, Seq<char>)> {
        self.keys@.map_values(|key: FilterKey| key@)
    }

    /// The order of the keys names each key of the index once.
    pub proof fn lemma_key_order(&self)
        requires
            self.wf(),
        ensures
            self.key_order().no_duplicates(),
            self.key_order().to_set() == self@.dom(),
    {
        let keys = self.key_order();
        assert(keys.no_duplicates());
        assert(keys.to_set() =~= self@.dom()) by {
            assert forall|key: (Tier, Seq<char>)| keys.to_set().contains(key) <==> self@.dom().contains(key) by {
                if keys.to_set().contains(key) {
                    let i = choose|i: int| 0 <= i < keys.len() && keys[i] == key;
                    assert(self.keys@[i]@ == key);
                }
                if self.has(key) {
                    let i = self.slot(key);
                    assert(keys[i] == key);
                }
            }
        }
    }

    /// Number of keys that have a bucket.
    pub fn key_count(&self) -> (count: usize)
        requires
            self.wf(),
        ensures
            count == self.key_order().len(),
    {
        self.keys.len()
    }

    /// The key that stands at a position of the order.
    pub fn key_at(&self, position: usize) -> (key: &FilterKey)
        requires
            self.wf(),
            position < self.key_order().len(),
        ensures
            key@ == self.key_order()[position as int],
            self@.contains_key(key@),
    {
        assert(self.keys@[position as int]@ == self.key_order()[position as int]);
        &self.keys[position]
    }

    /// Adds a listing to the bucket of its key, which is made if it is not
    /// there, at the place that keeps the bucket sorted by cost.
    pub fn insert(&mut self, key: FilterKey, listing: Listing)
        requires
            old(self).wf(),
        ensures
            final(self).wf(),
            final(self)@ == old(self)@.insert(
                key@,
                with_listing(bucket_or_empty(old(self)@, key@), listing),
            ),
            final(self).key_order() == if old(self)@.contains_key(key@) {
                old(self).key_order()
            } else {
                old(self).key_order().push(key@)
            },
    {
        let ghost before = *self;
        let ghost key_view = key@;
        match self.find(&key) {
            Some(i) => {
                let mut bucket: Vec<Listing> = self.buckets.remove(i);
                let ghost listings = bucket@;
                let mut p: usize = bucket.len();
                assert(listings.subrange(0, p as int) =~= listings);
                while p > 0 && bucket[p - 1].cost > listing.cost
                    invariant
                        p <= bucket@.len(),
                        bucket@ == listings,
                        insertion_point(listings, listing.cost) == insertion_point(
                            listings.subrange(0, p as int),
                            listing.cost,
                        ),
                    decreases p,
                {
                    assert(listings.subrange(0, p as int).drop_last() =~= listings.subrange(
                        0,
                        p - 1,
                    ));
                    p -= 1;
                }
                proof {
                    lemma_with_listing_sorted(listings, listing);
                }
                bucket.insert(p, listing);
                self.buckets.insert(i, bucket);
                proof {
                    assert(self.keys@ == before.keys@);
                    assert(self.buckets@ =~= before.buckets@.update(i as int, bucket));
                    assert(self.wf()) by {
                        assert forall|k: int| 0 <= k < self.buckets@.len() implies self.buckets@[k]@.len() > 0
                            && sorted_by_cost(#[trigger] self.buckets@[k]@) by {
                            if k != i {
                                assert(self.buckets@[k] == before.buckets@[k]);
                            }
                        }
                    }
                    assert forall|k: (Tier, Seq<char>)| self.has(k) == before.has(k) by {
                        if self.has(k) {
                            let w = self.slot(k);
                            assert(before.keys@[w]@ == k);
                        }
                        if before.has(k) {
                            let w = before.slot(k);
                            assert(self.keys@[w]@ == k);
                        }
                    }
                    assert forall|k: (Tier, Seq<char>)| self.has(k) implies self.slot(k) == before.slot(k) by {
                    }
                    assert(self@ =~= before@.insert(
                        key_view,
                        with_listing(bucket_or_empty(before@, key_view), listing),
                    ));
                }
            },
            None => {
                proof {
                    assert(with_listing(Seq::<Listing>::empty(), listing) =~= seq![listing]);
                }
                let mut bucket: Vec<Listing> = Vec::new();
                bucket.push(listing);
                self.keys.push(key);
                self.buckets.push(bucket);
                proof {
                    let n = before.keys@.len() as int;
                    assert(self.keys@[n]@ == key_view);
                    assert(self.wf()) by {
                        assert forall|a: int, b: int| 0 <= a < b < self.keys@.len() implies self.keys@[a]@
                            != self.keys@[b]@ by {
                            if b == n {
                                assert(before.keys@[a]@ != key_view);
                            }
                        }
                        assert forall|k: int| 0 <= k < self.buckets@.len() implies self.buckets@[k]@.len() > 0
                            && sorted_by_cost(#[trigger] self.buckets@[k]@) by {
                            if k < n {
                                assert(self.buckets@[k] == before.buckets@[k]);
                            }
                        }
                    }
                    assert forall|k: (Tier, Seq<char>)| self.has(k) == (before.has(k) || k == key_view) by {
                        if self.has(k) {
                            let w = self.slot(k);
                            if w < n {
                                assert(before.keys@[w]@ == k);
                            }
                        }
                        if before.has(k) {
                            let w = before.slot(k);
                            assert(self.keys@[w]@ == k);
                        }
                    }
                    assert forall|k: (Tier, Seq<char>)| before.has(k) implies self.slot(k) == before.slot(k) by {
                        let w = before.slot(k);
                        assert(self.keys@[w]@ == k);
                    }
                    assert(self.slot(key_view) == n);
                    assert(self@ =~= before@.insert(
                        key_view,
                        with_listing(bucket_or_empty(before@, key_view), listing),
                    ));
                }
            },
        }
    }

    /// Adds a listing to the bucket of its own key.
    pub fn add(&mut self, listing: Listing)
        requires
            old(self).wf(),
        ensures
            final(self).wf(),
            final(self)@ == old(self)@.insert(
                listing.key(),
                with_listing(bucket_or_empty(old(self)@, listing.key()), listing),
            ),
    {
        let key = listing.filter_key();
        self.insert(key, listing);
    }

    /// The bucket of a key, cheapest listing first.
    pub fn lookup(&self, key: &FilterKey) -> (found: Result<&Vec<Listing>, KeyNotFound>)
        requires
            self.wf(),
        ensures
            match found {
                Ok(bucket) => self@.contains_key(key@) && bucket@ == self@[key@] && bucket@.len() > 0
                    && sorted_by_cost(bucket@),
                Err(_) => !self@.contains_key(key@),
            },
    {
        match self.find(key) {
            Some(i) => {
                assert(sorted_by_cost(self.buckets@[i as int]@));
                Ok(&self.buckets[i])
            },
            None => Err(KeyNotFound),
        }
    }
}

} // verus!
