use vstd::prelude::*;
use crate::index::LowestPriceIndex;
use crate::listing::{AttributeBundle, Enchantment, Listing};
use crate::prices::{CommodityPrice, PriceTable, ReforgeCost, ReforgeTable, reforges_complete, sell_price_or_zero};
use crate::text::{
    enchantment_commodity, enchantment_commodity_id, ultimate_enchantment_commodity,
    ultimate_enchantment_commodity_id,
};
use crate::tier::{Tier, tier_rank_of};

verus! {

/// Upgrade books up to this count are of the primary kind, the rest of the secondary.
pub const PRIMARY_BOOK_LIMIT: u32 = 10;

/// Stars up to this count are priced into the baseline, the rest are master stars.
pub const NORMAL_STAR_LIMIT: u32 = 5;

/// An item carries at most this many master stars.
pub const MASTER_STAR_LIMIT: u32 = 5;

/// The most enchantments a bundle may hold for its worth to be summed.
pub const ENCHANTMENT_LIMIT: usize = 0xFFFF_FFFF;

/// No estimate lies below this.
pub const WORTH_MIN: i128 = -0x1_0000_0000_0000_0000;

/// No estimate lies above this.
pub const WORTH_MAX: i128 = 0x10_0000_0000_0000_0000_0000_0000;

/// Why a listing has no estimated worth.
#[derive(Clone, Copy, Debug, PartialEq, Eq, Structural)]
pub enum ValuationError {
    /// No listing is comparable with this one.
    MissingBaseline,
    /// The price table lacks the quality-upgrade reagent.
    MissingCommodity,
    /// The item claims more master stars than there are positions.
    InvalidStarCount,
}

impl ValuationError {
    pub fn message(&self) -> (text: String)
        ensures
            text@ == match *self {
                ValuationError::MissingBaseline => "no comparable listing"@,
                ValuationError::MissingCommodity => "missing commodity price"@,
                ValuationError::InvalidStarCount => "too many master stars"@,
            },
    {
        match self {
            ValuationError::MissingBaseline => "no comparable listing".to_owned(),
            ValuationError::MissingCommodity => "missing commodity price".to_owned(),
            ValuationError::InvalidStarCount => "too many master stars".to_owned(),
        }
    }
}

pub open spec fn quality_reagent() -> Seq<char> {
    "RECOMBOBULATOR_3000"@
}

pub open spec fn primary_book() -> Seq<char> {
    "HOT_POTATO_BOOK"@
}

pub open spec fn secondary_book() -> Seq<char> {
    "FUMING_POTATO_BOOK"@
}

/// The commodity that the master star of a position, from 1 to 5, is made with.
pub open spec fn master_star_commodity(position: int) -> Seq<char> {
    if position == 1 {
        "FIRST_MASTER_STAR"@
    } else if position == 2 {
        "SECOND_MASTER_STAR"@
    } else if position == 3 {
        "THIRD_MASTER_STAR"@
    } else if position == 4 {
        "FOURTH_MASTER_STAR"@
    } else {
        "FIFTH_MASTER_STAR"@
    }
}

/// How many of an item's stars are master stars.
pub open spec fn master_stars(star_count: u32) -> int {
    if star_count > NORMAL_STAR_LIMIT {
        star_count - NORMAL_STAR_LIMIT
    } else {
        0
    }
}

/// The price of the reagent for each quality upgrade.
pub open spec fn quality_cost(prices: Map<Seq<char>, CommodityPrice>, count: u32) -> int {
    count * sell_price_or_zero(prices, quality_reagent())
}

/// The price of the upgrade books: the first ten of the primary kind, the
/// others of the secondary.
pub open spec fn book_cost(prices: Map<Seq<char>, CommodityPrice>, count: u32) -> int {
    let primary_books: int = if count < PRIMARY_BOOK_LIMIT {
        count as int
    } else {
        PRIMARY_BOOK_LIMIT as int
    };
    let secondary_books: int = count - primary_books;
    primary_books * sell_price_or_zero(prices, primary_book()) + secondary_books
        * sell_price_or_zero(prices, secondary_book())
}

/// The price of the materials for the master stars of the positions 1 to `positions`.
pub open spec fn master_star_cost(prices: Map<Seq<char>, CommodityPrice>, positions: int) -> int
    decreases positions,
{
    if positions <= 0 {
        0
    } else {
        master_star_cost(prices, positions - 1) + sell_price_or_zero(
            prices,
            master_star_commodity(positions),
        )
    }
}

/// The price of one enchantment: that of its commodity, else that of its
/// ultimate variant, else nothing.
pub open spec fn enchantment_price(prices: Map<Seq<char>, CommodityPrice>, enchantment: Enchantment) -> int {
    if prices.contains_key(enchantment_commodity(enchantment.name@, enchantment.level)) {
        prices[enchantment_commodity(enchantment.name@, enchantment.level)].instant_sell as int
    } else {
        sell_price_or_zero(
            prices,
            ultimate_enchantment_commodity(enchantment.name@, enchantment.level),
        )
    }
}

pub open spec fn enchantment_cost(prices: Map<Seq<char>, CommodityPrice>, enchantments: Seq<Enchantment>) -> int
    decreases enchantments.len(),
{
    if enchantments.len() == 0 {
        0
    } else {
        enchantment_cost(prices, enchantments.drop_last()) + enchantment_price(
            prices,
            enchantments.last(),
        )
    }
}

/// The cost of application that a table of per-rank costs has for a tier:
/// that of the tier's rank, or the last one where the table is shorter.
pub open spec fn application_cost(costs: Seq<i64>, tier: Tier) -> int {
    if tier_rank_of(tier) < costs.len() {
        costs[tier_rank_of(tier) as int] as int
    } else {
        costs[costs.len() - 1] as int
    }
}

/// The price of a reforge: its stone and its application; nothing where the
/// item has no reforge or the table does not know it.
pub open spec fn reforge_cost(
    prices: Map<Seq<char>, CommodityPrice>,
    reforges: Map<Seq<char>, ReforgeCost>,
    reforge_name: Option<String>,
    tier: Tier,
) -> int {
    match reforge_name {
        Some(name) => if reforges.contains_key(name@) {
            sell_price_or_zero(prices, reforges[name@].stone_identity@) + application_cost(
                reforges[name@].application_costs@,
                tier,
            )
        } else {
            0
        },
        None => 0,
    }
}

/// What an item's enhancements add to its baseline.
pub open spec fn enhancement_cost(
    attributes: AttributeBundle,
    tier: Tier,
    prices: Map<Seq<char>, CommodityPrice>,
    reforges: Map<Seq<char>, ReforgeCost>,
) -> int {
    quality_cost(prices, attributes.quality_upgrade_count) + book_cost(
        prices,
        attributes.upgrade_book_count,
    ) + master_star_cost(prices, master_stars(attributes.star_count)) + enchantment_cost(
        prices,
        attributes.enchantments@,
    ) + reforge_cost(prices, reforges, attributes.reforge_name, tier)
}

/// The estimated worth of a listing, or why it has none: the cost of the
/// cheapest comparable listing and the price of each enhancement.
pub open spec fn valuation(
    listing: Listing,
    buckets: Map<(Tier, Seq<char>), Seq<Listing>>,
    prices: Map<Seq<char>, CommodityPrice>,
    reforges: Map<Seq<char>, ReforgeCost>,
) -> Result<int, ValuationError> {
    if !buckets.contains_key(listing.key()) {
        Err(ValuationError::MissingBaseline)
    } else if master_stars(listing.attributes.star_count) > MASTER_STAR_LIMIT {
        Err(ValuationError::InvalidStarCount)
    } else if !prices.contains_key(quality_reagent()) {
        Err(ValuationError::MissingCommodity)
    } else {
        Ok(
            buckets[listing.key()][0].cost + enhancement_cost(
                listing.attributes,
                listing.base_tier,
                prices,
                reforges,
            ),
        )
    }
}

proof fn lemma_product_bound(count: int, price: int, most: int)
    requires
        0 <= count <= most,
        0 <= price <= u64::MAX,
    ensures
        0 <= count * price <= most * u64::MAX,
{
    assert(0 <= count * price <= most * price) by (nonlinear_arith)
        requires
            0 <= count <= most,
            0 <= price,
    ;
    assert(most * price <= most * u64::MAX) by (nonlinear_arith)
        requires
            0 <= most,
            0 <= price <= u64::MAX,
    ;
}

proof fn lemma_master_star_cost_bound(prices: Map<Seq<char>, CommodityPrice>, positions: int)
    requires
        0 <= positions,
    ensures
        0 <= master_star_cost(prices, positions) <= positions * u64::MAX,
    decreases positions,
{
    if positions > 0 {
        lemma_master_star_cost_bound(prices, positions - 1);
        assert((positions - 1) * u64::MAX + u64::MAX == positions * u64::MAX) by (nonlinear_arith);
    }
}

/// The price of the master stars from the first to the one at `positions`.
pub fn master_star_price(prices: &PriceTable, positions: u32) -> (cost: i128)
    requires
        positions <= MASTER_STAR_LIMIT,
    ensures
        cost == master_star_cost(prices@, positions as int),
{
    let mut cost: i128 = 0;
    let mut position: u32 = 0;
    while position < positions
        invariant
            position <= positions <= MASTER_STAR_LIMIT,
            cost == master_star_cost(prices@, position as int),
        decreases positions - position,
    {
        position += 1;
        let price: u64 = if position == 1 {
            prices.sell_price_or_zero("FIRST_MASTER_STAR")
        } else if position == 2 {
            prices.sell_price_or_zero("SECOND_MASTER_STAR")
        } else if position == 3 {
            prices.sell_price_or_zero("THIRD_MASTER_STAR")
        } else if position == 4 {
            prices.sell_price_or_zero("FOURTH_MASTER_STAR")
        } else {
            prices.sell_price_or_zero("FIFTH_MASTER_STAR")
        };
        proof {
            lemma_master_star_cost_bound(prices@, position as int - 1);
        }
        cost = cost + price as i128;
    }
    cost
}

/// The price of one enchantment.
pub fn price_enchantment(prices: &PriceTable, enchantment: &Enchantment) -> (price: u64)
    ensures
        price == enchantment_price(prices@, *enchantment),
{
    let identity: String = enchantment_commodity_id(enchantment.name.as_str(), enchantment.level);
    match prices.get(identity.as_str()) {
        Some(entry) => entry.instant_sell,
        None => {
            let ultimate: String = ultimate_enchantment_commodity_id(
                enchantment.name.as_str(),
                enchantment.level,
            );
            prices.sell_price_or_zero(ultimate.as_str())
        },
    }
}

proof fn lemma_enchantment_cost_bound(prices: Map<Seq<char>, CommodityPrice>, enchantments: Seq<Enchantment>)
    ensures
        0 <= enchantment_cost(prices, enchantments) <= enchantments.len() * u64::MAX,
    decreases enchantments.len(),
{
    if enchantments.len() > 0 {
        lemma_enchantment_cost_bound(prices, enchantments.drop_last());
        assert((enchantments.len() - 1) * u64::MAX + u64::MAX == enchantments.len() * u64::MAX)
            by (nonlinear_arith);
    }
}

/// The price of all enchantments of a bundle.
pub fn price_enchantments(prices: &PriceTable, enchantments: &Vec<Enchantment>) -> (cost: i128)
    requires
        enchantments@.len() <= ENCHANTMENT_LIMIT,
    ensures
        cost == enchantment_cost(prices@, enchantments@),
        0 <= cost <= ENCHANTMENT_LIMIT * u64::MAX,
{
    let mut cost: i128 = 0;
    let mut i: usize = 0;
    while i < enchantments.len()
        invariant
            i <= enchantments@.len() <= ENCHANTMENT_LIMIT,
            cost == enchantment_cost(prices@, enchantments@.subrange(0, i as int)),
        decreases enchantments@.len() - i,
    {
        let price: u64 = price_enchantment(prices, &enchantments[i]);
        proof {
            let done = enchantments@.subrange(0, i as int);
            lemma_enchantment_cost_bound(prices@, done);
            lemma_product_bound(i as int, u64::MAX as int, ENCHANTMENT_LIMIT as int);
            assert(enchantments@.subrange(0, i + 1).drop_last() =~= done);
        }
        cost = cost + price as i128;
        i += 1;
    }
    proof {
        assert(enchantments@.subrange(0, i as int) =~= enchantments@);
        lemma_enchantment_cost_bound(prices@, enchantments@);
        lemma_product_bound(i as int, u64::MAX as int, ENCHANTMENT_LIMIT as int);
    }
    cost
}

/// The price of the reforge that a bundle names, for an item of a tier.
pub fn price_reforge(
    prices: &PriceTable,
    reforges: &ReforgeTable,
    reforge_name: &Option<String>,
    tier: Tier,
) -> (cost: i128)
    requires
        reforges_complete(reforges@),
    ensures
        cost == reforge_cost(prices@, reforges@, *reforge_name, tier),
        i64::MIN <= cost <= u64::MAX + i64::MAX,
{
    match reforge_name {
        Some(name) => match reforges.get(name.as_str()) {
            Some(reforge) => {
                let stone: u64 = prices.sell_price_or_zero(reforge.stone_identity.as_str());
                let rank: usize = tier.rank();
                let last: usize = reforge.application_costs.len() - 1;
                let application: i64 = if rank < reforge.application_costs.len() {
                    reforge.application_costs[rank]
                } else {
                    reforge.application_costs[last]
                };
                stone as i128 + application as i128
            },
            None => 0,
        },
        None => 0,
    }
}

/// Estimates what a listing is worth: the cost of the cheapest listing of its
/// key, and the price of each of its enhancements.
pub fn estimate_worth(
    listing: &Listing,
    index: &LowestPriceIndex,
    prices: &PriceTable,
    reforges: &ReforgeTable,
) -> (worth: Result<i128, ValuationError>)
    requires
        index.wf(),
        reforges_complete(reforges@),
        listing.attributes.enchantments@.len() <= ENCHANTMENT_LIMIT,
    ensures
        match worth {
            Ok(value) => valuation(*listing, index@, prices@, reforges@) == Ok::<int, ValuationError>(
                value as int,
            ) && WORTH_MIN <= value <= WORTH_MAX,
            Err(error) => valuation(*listing, index@, prices@, reforges@) == Err::<int, ValuationError>(
                error,
            ),
        },
{
    let key = listing.filter_key();
    let baseline: i64 = match index.lookup(&key) {
        Ok(bucket) => bucket[0].cost,
        Err(_) => {
            return Err(ValuationError::MissingBaseline);
        },
    };
    let attributes = &listing.attributes;
    let master: u32 = if attributes.star_count > NORMAL_STAR_LIMIT {
        attributes.star_count - NORMAL_STAR_LIMIT
    } else {
        0
    };
    if master > MASTER_STAR_LIMIT {
        return Err(ValuationError::InvalidStarCount);
    }
    let reagent: u64 = match prices.get("RECOMBOBULATOR_3000") {
        Some(entry) => entry.instant_sell,
        None => {
            return Err(ValuationError::MissingCommodity);
        },
    };
    let primary: u64 = prices.sell_price_or_zero("HOT_POTATO_BOOK");
    let secondary: u64 = prices.sell_price_or_zero("FUMING_POTATO_BOOK");
    let primary_books: u32 = if attributes.upgrade_book_count < PRIMARY_BOOK_LIMIT {
        attributes.upgrade_book_count
    } else {
        PRIMARY_BOOK_LIMIT
    };
    let secondary_books: u32 = attributes.upgrade_book_count - primary_books;
    proof {
        lemma_product_bound(
            attributes.quality_upgrade_count as int,
            reagent as int,
            u32::MAX as int,
        );
        lemma_product_bound(primary_books as int, primary as int, u32::MAX as int);
        lemma_product_bound(secondary_books as int, secondary as int, u32::MAX as int);
        lemma_master_star_cost_bound(prices@, master as int);
        lemma_product_bound(master as int, u64::MAX as int, MASTER_STAR_LIMIT as int);
    }
    let quality: i128 = attributes.quality_upgrade_count as i128 * reagent as i128;
    let books: i128 = primary_books as i128 * primary as i128 + secondary_books as i128
        * secondary as i128;
    let stars: i128 = master_star_price(prices, master);
    let enchantments: i128 = price_enchantments(prices, &attributes.enchantments);
    let reforge: i128 = price_reforge(prices, reforges, &attributes.reforge_name, listing.base_tier);
    Ok(baseline as i128 + quality + books + stars + enchantments + reforge)
}

proof fn lemma_master_star_cost_monotone(prices: Map<Seq<char>, CommodityPrice>, fewer: int, more: int)
    requires
        fewer <= more,
    ensures
        master_star_cost(prices, fewer) <= master_star_cost(prices, more),
    decreases more - fewer,
{
    if fewer < more {
        lemma_master_star_cost_monotone(prices, fewer, more - 1);
        if more - 1 > 0 {
            lemma_master_star_cost_bound(prices, more - 1);
        }
    }
}

/// More enhancement never lowers the estimate: of two listings that differ
/// only in their counts of quality upgrades, upgrade books and stars, the one
/// with the higher counts is worth at least as much, wherever it has a worth.
pub proof fn lemma_worth_monotone(
    lesser: Listing,
    greater: Listing,
    buckets: Map<(Tier, Seq<char>), Seq<Listing>>,
    prices: Map<Seq<char>, CommodityPrice>,
    reforges: Map<Seq<char>, ReforgeCost>,
)
    requires
        lesser.key() == greater.key(),
        lesser.attributes.enchantments@ == greater.attributes.enchantments@,
        lesser.attributes.reforge_name == greater.attributes.reforge_name,
        lesser.attributes.quality_upgrade_count <= greater.attributes.quality_upgrade_count,
        lesser.attributes.upgrade_book_count <= greater.attributes.upgrade_book_count,
        lesser.attributes.star_count <= greater.attributes.star_count,
        valuation(greater, buckets, prices, reforges) is Ok,
    ensures
        valuation(lesser, buckets, prices, reforges) is Ok,
        valuation(lesser, buckets, prices, reforges)->Ok_0 <= valuation(
            greater,
            buckets,
            prices,
            reforges,
        )->Ok_0,
{
    let reagent = sell_price_or_zero(prices, quality_reagent());
    let primary = sell_price_or_zero(prices, primary_book());
    let secondary = sell_price_or_zero(prices, secondary_book());
    let a = lesser.attributes;
    let b = greater.attributes;
    assert(a.quality_upgrade_count * reagent <= b.quality_upgrade_count * reagent)
        by (nonlinear_arith)
        requires
            a.quality_upgrade_count <= b.quality_upgrade_count,
            0 <= reagent,
    ;
    assert(book_cost(prices, a.upgrade_book_count) <= book_cost(prices, b.upgrade_book_count)) by {
        lemma_book_cost_monotone(
            a.upgrade_book_count as int,
            b.upgrade_book_count as int,
            primary,
            secondary,
        );
    }
    lemma_master_star_cost_monotone(prices, master_stars(a.star_count), master_stars(b.star_count));
}

proof fn lemma_book_cost_monotone(fewer: int, more: int, primary: int, secondary: int)
    requires
        0 <= fewer <= more,
        0 <= primary,
        0 <= secondary,
    ensures
        ({
            let fewer_primary = if fewer < PRIMARY_BOOK_LIMIT { fewer } else { PRIMARY_BOOK_LIMIT as int };
            let more_primary = if more < PRIMARY_BOOK_LIMIT { more } else { PRIMARY_BOOK_LIMIT as int };
            fewer_primary * primary + (fewer - fewer_primary) * secondary <= more_primary * primary
                + (more - more_primary) * secondary
        }),
{
    let fewer_primary = if fewer < PRIMARY_BOOK_LIMIT { fewer } else { PRIMARY_BOOK_LIMIT as int };
    let more_primary = if more < PRIMARY_BOOK_LIMIT { more } else { PRIMARY_BOOK_LIMIT as int };
    assert(fewer_primary * primary <= more_primary * primary) by (nonlinear_arith)
        requires
            fewer_primary <= more_primary,
            0 <= primary,
    ;
    assert((fewer - fewer_primary) * secondary <= (more - more_primary) * secondary)
        by (nonlinear_arith)
        requires
            fewer - fewer_primary <= more - more_primary,
            0 <= secondary,
    ;
}

/// An item of seven stars pays for the master stars of the first and the
/// second position and for no other.
pub proof fn lemma_seven_stars_cost_two(prices: Map<Seq<char>, CommodityPrice>)
    ensures
        master_star_cost(prices, master_stars(7)) == sell_price_or_zero(
            prices,
            "FIRST_MASTER_STAR"@,
        ) + sell_price_or_zero(prices, "SECOND_MASTER_STAR"@),
{
    reveal_with_fuel(master_star_cost, 3);
}

/// A listing of more than ten stars has no worth, whatever the tables hold.
pub proof fn lemma_too_many_stars_has_no_worth(
    listing: Listing,
    buckets: Map<(Tier, Seq<char>), Seq<Listing>>,
    prices: Map<Seq<char>, CommodityPrice>,
    reforges: Map<Seq<char>, ReforgeCost>,
)
    requires
        listing.attributes.star_count > NORMAL_STAR_LIMIT + MASTER_STAR_LIMIT,
    ensures
        valuation(listing, buckets, prices, reforges) is Err,
        buckets.contains_key(listing.key()) ==> valuation(listing, buckets, prices, reforges)
            == Err::<int, ValuationError>(ValuationError::InvalidStarCount),
{
}

} // verus!
