use vstd::prelude::*;
use crate::index::LowestPriceIndex;
use crate::listing::Listing;
use crate::prices::{CommodityPrice, PriceTable, ReforgeCost, ReforgeTable, reforges_complete};
use crate::tier::Tier;
use crate::valuation::{ENCHANTMENT_LIMIT, ValuationError, estimate_worth, valuation};

verus! {

/// A bucket with fewer listings than this is too thin to compare its two cheapest.
pub const SNIPE_MIN_LISTINGS: usize = 25;

/// A snipe must gain more than this.
pub const SNIPE_MIN_PROFIT: i128 = 500_000;

/// A snipe must cost less than this.
pub const SNIPE_MAX_COST: i64 = 12_000_000;

/// A flip must be worth more than its cost by more than this.
pub const FLIP_MIN_MARGIN: i128 = 3_000_000;

/// A listing priced far below the next cheapest of its key.
#[derive(Clone, Debug)]
pub struct Snipe {
    pub listing_id: String,
    pub cheapest_cost: i64,
    pub second_cheapest_cost: i64,
    pub profit: i128,
}

/// A listing priced far below its estimated worth.
#[derive(Clone, Debug)]
pub struct Flip {
    pub listing_id: String,
    pub cost: i64,
    pub estimated_worth: i128,
    pub margin: i128,
}

/// Whether the cheapest listing of a bucket is a snipe.
pub open spec fn has_snipe(bucket: Seq<Listing>) -> bool {
    &&& bucket.len() >= SNIPE_MIN_LISTINGS
    &&& bucket[1].cost - bucket[0].cost > SNIPE_MIN_PROFIT
    &&& bucket[0].cost < SNIPE_MAX_COST
}

/// The snipe that a bucket with one holds.
pub open spec fn snipe_of(bucket: Seq<Listing>) -> Snipe {
    Snipe {
        listing_id: bucket[0].id,
        cheapest_cost: bucket[0].cost,
        second_cheapest_cost: bucket[1].cost,
        profit: (bucket[1].cost - bucket[0].cost) as i128,
    }
}

/// The snipes of the buckets of some keys, in the order of the keys.
pub open spec fn snipes_of(buckets: Map<(Tier, Seq<char>), Seq<Listing>>, keys: Seq<(Tier, Seq<char>)>) -> Seq<Snipe>
    decreases keys.len(),
{
    if keys.len() == 0 {
        Seq::empty()
    } else if has_snipe(buckets[keys.last()]) {
        snipes_of(buckets, keys.drop_last()).push(snipe_of(buckets[keys.last()]))
    } else {
        snipes_of(buckets, keys.drop_last())
    }
}

/// Whether a listing of a cost and a worth is a flip.
pub open spec fn has_flip(cost: i64, worth: int) -> bool {
    worth - cost > FLIP_MIN_MARGIN
}

/// The snipe of one bucket, if it holds one.
pub fn find_snipe(bucket: &Vec<Listing>) -> (snipe: Option<Snipe>)
    ensures
        snipe == if has_snipe(bucket@) {
            Some(snipe_of(bucket@))
        } else {
            None
        },
{
    if bucket.len() < SNIPE_MIN_LISTINGS {
        return None;
    }
    let cheapest: &Listing = &bucket[0];
    let second: &Listing = &bucket[1];
    let profit: i128 = second.cost as i128 - cheapest.cost as i128;
    if profit > SNIPE_MIN_PROFIT && cheapest.cost < SNIPE_MAX_COST {
        Some(
            Snipe {
                listing_id: cheapest.id.clone(),
                cheapest_cost: cheapest.cost,
                second_cheapest_cost: second.cost,
                profit,
            },
        )
    } else {
        None
    }
}

/// The snipes of all buckets of an index, in the order in which its keys
/// were first seen.
pub fn scan_snipes(index: &LowestPriceIndex) -> (snipes: Vec<Snipe>)
    requires
        index.wf(),
    ensures
        snipes@ == snipes_of(index@, index.key_order()),
{
    let mut snipes: Vec<Snipe> = Vec::new();
    let count: usize = index.key_count();
    let mut i: usize = 0;
    while i < count
        invariant
            index.wf(),
            count == index.key_order().len(),
            i <= count,
            snipes@ == snipes_of(index@, index.key_order().subrange(0, i as int)),
        decreases count - i,
    {
        let key = index.key_at(i);
        proof {
            assert(index.key_order().subrange(0, i + 1).drop_last() =~= index.key_order().subrange(
                0,
                i as int,
            ));
        }
        match index.lookup(key) {
            Ok(bucket) => {
                match find_snipe(bucket) {
                    Some(snipe) => {
                        snipes.push(snipe);
                    },
                    None => {},
                }
            },
            Err(_) => {},
        }
        i += 1;
    }
    proof {
        assert(index.key_order().subrange(0, i as int) =~= index.key_order());
    }
    snipes
}

/// The flip that a listing of a known worth gives, if it gives one.
pub fn find_flip(listing: &Listing, worth: i128) -> (flip: Option<Flip>)
    requires
        i128::MIN <= worth - listing.cost <= i128::MAX,
    ensures
        flip == if has_flip(listing.cost, worth as int) {
            Some(flip_of(*listing, worth as int))
        } else {
            None
        },
{
    let margin: i128 = worth - listing.cost as i128;
    if margin > FLIP_MIN_MARGIN {
        Some(
            Flip {
                listing_id: listing.id.clone(),
                cost: listing.cost,
                estimated_worth: worth,
                margin,
            },
        )
    } else {
        None
    }
}

/// The flip that a listing with one gives.
pub open spec fn flip_of(listing: Listing, worth: int) -> Flip {
    Flip {
        listing_id: listing.id,
        cost: listing.cost,
        estimated_worth: worth as i128,
        margin: (worth - listing.cost) as i128,
    }
}

/// The flips among some listings, in their order. A listing without a
/// worth gives none.
pub open spec fn flips_of(
    listings: Seq<Listing>,
    buckets: Map<(Tier, Seq<char>), Seq<Listing>>,
    prices: Map<Seq<char>, CommodityPrice>,
    reforges: Map<Seq<char>, ReforgeCost>,
) -> Seq<Flip>
    decreases listings.len(),
{
    if listings.len() == 0 {
        Seq::empty()
    } else {
        let rest = flips_of(listings.drop_last(), buckets, prices, reforges);
        match valuation(listings.last(), buckets, prices, reforges) {
            Ok(worth) => if has_flip(listings.last().cost, worth) {
                rest.push(flip_of(listings.last(), worth))
            } else {
                rest
            },
            Err(_) => rest,
        }
    }
}

/// Whether a listing stops a scan: it claims more stars than an item can have.
pub open spec fn stops_scan(
    listing: Listing,
    buckets: Map<(Tier, Seq<char>), Seq<Listing>>,
    prices: Map<Seq<char>, CommodityPrice>,
    reforges: Map<Seq<char>, ReforgeCost>,
) -> bool {
    valuation(listing, buckets, prices, reforges) == Err::<int, ValuationError>(
        ValuationError::InvalidStarCount,
    )
}

/// The flips among the listings. A listing that has no comparable listing, or
/// whose reagent has no price, is passed over; one with an invalid count of
/// stars ends the scan with its error.
pub fn scan_flips(
    listings: &Vec<Listing>,
    index: &LowestPriceIndex,
    prices: &PriceTable,
    reforges: &ReforgeTable,
) -> (flips: Result<Vec<Flip>, ValuationError>)
    requires
        index.wf(),
        reforges_complete(reforges@),
        forall|i: int|
            0 <= i < listings@.len() ==> (#[trigger] listings@[i]).attributes.enchantments@.len()
                <= ENCHANTMENT_LIMIT,
    ensures
        match flips {
            Ok(found) => found@ == flips_of(listings@, index@, prices@, reforges@) && forall|i: int|
                0 <= i < listings@.len() ==> !stops_scan(
                    #[trigger] listings@[i],
                    index@,
                    prices@,
                    reforges@,
                ),
            Err(error) => error == ValuationError::InvalidStarCount && exists|i: int|
                0 <= i < listings@.len() && stops_scan(
                    #[trigger] listings@[i],
                    index@,
                    prices@,
                    reforges@,
                ),
        },
{
    let mut flips: Vec<Flip> = Vec::new();
    let mut i: usize = 0;
    while i < listings.len()
        invariant
            index.wf(),
            reforges_complete(reforges@),
            forall|k: int|
                0 <= k < listings@.len() ==> (#[trigger] listings@[k]).attributes.enchantments@.len()
                    <= ENCHANTMENT_LIMIT,
            i <= listings@.len(),
            flips@ == flips_of(listings@.subrange(0, i as int), index@, prices@, reforges@),
            forall|k: int|
                0 <= k < i ==> !stops_scan(#[trigger] listings@[k], index@, prices@, reforges@),
        decreases listings@.len() - i,
    {
        let listing: &Listing = &listings[i];
        proof {
            assert(listings@.subrange(0, i + 1).drop_last() =~= listings@.subrange(0, i as int));
            assert(listings@.subrange(0, i + 1).last() == listings@[i as int]);
        }
        match estimate_worth(listing, index, prices, reforges) {
            Ok(worth) => {
                match find_flip(listing, worth) {
                    Some(flip) => {
                        flips.push(flip);
                    },
                    None => {},
                }
            },
            Err(ValuationError::InvalidStarCount) => {
                return Err(ValuationError::InvalidStarCount);
            },
            Err(_) => {},
        }
        i += 1;
    }
    proof {
        assert(listings@.subrange(0, i as int) =~= listings@);
    }
    Ok(flips)
}

} // verus!
