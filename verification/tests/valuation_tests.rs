use bin_sniper::index::LowestPriceIndex;
use bin_sniper::listing::{AttributeBundle, Enchantment, Listing};
use bin_sniper::prices::{
    parse_application_cost, reforge_key, CommodityPrice, PriceTable, ReforgeCost, ReforgeTable,
};
use bin_sniper::tier::Tier;
use bin_sniper::valuation::{
    estimate_worth, master_star_price, price_enchantment, price_enchantments, price_reforge,
    ValuationError,
};

fn price(sell: u64) -> CommodityPrice {
    CommodityPrice { instant_buy: sell + 1, instant_sell: sell, buy_volume: 0, sell_volume: 0, name: String::new() }
}

fn prices(entries: &[(&str, u64)]) -> PriceTable {
    let mut table = PriceTable::new();
    for (identity, sell) in entries {
        table.insert(identity.to_string(), price(*sell));
    }
    table
}

fn standard_prices() -> PriceTable {
    prices(&[
        ("RECOMBOBULATOR_3000", 1_000_000),
        ("HOT_POTATO_BOOK", 1_000),
        ("FUMING_POTATO_BOOK", 50_000),
        ("FIRST_MASTER_STAR", 11),
        ("SECOND_MASTER_STAR", 22),
        ("THIRD_MASTER_STAR", 33),
        ("FOURTH_MASTER_STAR", 44),
        ("FIFTH_MASTER_STAR", 55),
        ("ENCHANTMENT_SHARPNESS_5", 700),
        ("ENCHANTMENT_ULTIMATE_WISE_3", 9_000),
        ("STONE_X", 300_000),
    ])
}

fn reforges() -> ReforgeTable {
    let mut table = ReforgeTable::new();
    table.insert(
        "fabled".to_string(),
        ReforgeCost { stone_identity: "STONE_X".to_string(), application_costs: vec![10, 20, 30, 40, 50, 60] },
    );
    table.insert(
        "lost".to_string(),
        ReforgeCost { stone_identity: "STONE_GONE".to_string(), application_costs: vec![7] },
    );
    table
}

fn listing(cost: i64, tier: Tier) -> Listing {
    Listing {
        id: "id".to_string(),
        cost,
        start_time: 0,
        end_time: 0,
        claimed: false,
        display_name: "Sword".to_string(),
        attributes: AttributeBundle {
            identity: "SWORD".to_string(),
            quality_upgrade_count: 0,
            enchantments: Vec::new(),
            upgrade_book_count: 0,
            reforge_name: None,
            star_count: 0,
        },
        base_tier: tier,
        identity: "SWORD".to_string(),
        collection_level: None,
    }
}

fn index_with_baseline(baseline: i64, tier: Tier) -> LowestPriceIndex {
    let mut index = LowestPriceIndex::new();
    index.add(listing(baseline + 500, tier));
    index.add(listing(baseline, tier));
    index
}

#[test]
fn plain_listing_is_worth_the_cheapest_of_its_key() {
    let index = index_with_baseline(2_000_000, Tier::Epic);
    let l = listing(9_999_999, Tier::Epic);
    assert_eq!(estimate_worth(&l, &index, &standard_prices(), &reforges()), Ok(2_000_000));
}

#[test]
fn missing_baseline() {
    let index = index_with_baseline(2_000_000, Tier::Epic);
    let l = listing(1, Tier::Legendary);
    assert_eq!(
        estimate_worth(&l, &index, &standard_prices(), &reforges()),
        Err(ValuationError::MissingBaseline)
    );
}

#[test]
fn missing_reagent_price() {
    let index = index_with_baseline(2_000_000, Tier::Epic);
    let l = listing(1, Tier::Epic);
    let table = prices(&[("HOT_POTATO_BOOK", 1_000)]);
    assert_eq!(estimate_worth(&l, &index, &table, &reforges()), Err(ValuationError::MissingCommodity));
}

#[test]
fn optional_prices_default_to_zero() {
    let index = index_with_baseline(100, Tier::Epic);
    let mut l = listing(1, Tier::Epic);
    l.attributes.upgrade_book_count = 15;
    l.attributes.star_count = 8;
    l.attributes.quality_upgrade_count = 1;
    let table = prices(&[("RECOMBOBULATOR_3000", 5)]);
    assert_eq!(estimate_worth(&l, &index, &table, &reforges()), Ok(105));
}

#[test]
fn quality_upgrades_cost_the_reagent_each() {
    let index = index_with_baseline(100, Tier::Epic);
    let mut l = listing(1, Tier::Epic);
    l.attributes.quality_upgrade_count = 1;
    assert_eq!(estimate_worth(&l, &index, &standard_prices(), &reforges()), Ok(1_000_100));
    l.attributes.quality_upgrade_count = 3;
    assert_eq!(estimate_worth(&l, &index, &standard_prices(), &reforges()), Ok(3_000_100));
}

#[test]
fn books_split_at_ten() {
    let index = index_with_baseline(0, Tier::Epic);
    let mut l = listing(1, Tier::Epic);
    l.attributes.upgrade_book_count = 7;
    assert_eq!(estimate_worth(&l, &index, &standard_prices(), &reforges()), Ok(7_000));
    l.attributes.upgrade_book_count = 10;
    assert_eq!(estimate_worth(&l, &index, &standard_prices(), &reforges()), Ok(10_000));
    l.attributes.upgrade_book_count = 12;
    assert_eq!(estimate_worth(&l, &index, &standard_prices(), &reforges()), Ok(110_000));
    l.attributes.upgrade_book_count = 15;
    assert_eq!(estimate_worth(&l, &index, &standard_prices(), &reforges()), Ok(260_000));
}

#[test]
fn seven_stars_cost_the_first_two_master_stars() {
    let index = index_with_baseline(0, Tier::Epic);
    let mut l = listing(1, Tier::Epic);
    l.attributes.star_count = 7;
    assert_eq!(estimate_worth(&l, &index, &standard_prices(), &reforges()), Ok(33));
    assert_eq!(master_star_price(&standard_prices(), 2), 33);
}

#[test]
fn normal_stars_cost_nothing_and_ten_cost_all_five() {
    let index = index_with_baseline(0, Tier::Epic);
    let mut l = listing(1, Tier::Epic);
    for stars in 0..=5 {
        l.attributes.star_count = stars;
        assert_eq!(estimate_worth(&l, &index, &standard_prices(), &reforges()), Ok(0));
    }
    l.attributes.star_count = 6;
    assert_eq!(estimate_worth(&l, &index, &standard_prices(), &reforges()), Ok(11));
    l.attributes.star_count = 10;
    assert_eq!(estimate_worth(&l, &index, &standard_prices(), &reforges()), Ok(165));
    assert_eq!(master_star_price(&standard_prices(), 0), 0);
    assert_eq!(master_star_price(&standard_prices(), 5), 165);
}

#[test]
fn too_many_stars_are_an_error() {
    let index = index_with_baseline(0, Tier::Epic);
    let mut l = listing(1, Tier::Epic);
    for stars in [11u32, 12, 13, 1_000, u32::MAX] {
        l.attributes.star_count = stars;
        assert_eq!(
            estimate_worth(&l, &index, &standard_prices(), &reforges()),
            Err(ValuationError::InvalidStarCount)
        );
    }
}

#[test]
fn enchantments_price_plain_then_ultimate_then_nothing() {
    let table = standard_prices();
    let sharp = Enchantment { name: "sharpness".to_string(), level: 5 };
    let wise = Enchantment { name: "wise".to_string(), level: 3 };
    let spaced = Enchantment { name: " Sharpness ".to_string(), level: 5 };
    let unknown = Enchantment { name: "sharpness".to_string(), level: 6 };
    assert_eq!(price_enchantment(&table, &sharp), 700);
    assert_eq!(price_enchantment(&table, &wise), 9_000);
    assert_eq!(price_enchantment(&table, &spaced), 700);
    assert_eq!(price_enchantment(&table, &unknown), 0);
    assert_eq!(price_enchantments(&table, &vec![sharp.clone(), wise.clone(), unknown.clone()]), 9_700);
    assert_eq!(price_enchantments(&table, &Vec::new()), 0);

    let index = index_with_baseline(1, Tier::Epic);
    let mut l = listing(1, Tier::Epic);
    l.attributes.enchantments = vec![sharp, wise, unknown];
    assert_eq!(estimate_worth(&l, &index, &table, &reforges()), Ok(9_701));
}

#[test]
fn reforge_costs_stone_and_application_by_rank() {
    let table = standard_prices();
    let known = Some("fabled".to_string());
    assert_eq!(price_reforge(&table, &reforges(), &known, Tier::Common), 300_010);
    assert_eq!(price_reforge(&table, &reforges(), &known, Tier::Epic), 300_040);
    assert_eq!(price_reforge(&table, &reforges(), &known, Tier::Mythic), 300_060);
    // ranks past the table take its last entry
    assert_eq!(price_reforge(&table, &reforges(), &known, Tier::Divine), 300_060);
    assert_eq!(price_reforge(&table, &reforges(), &known, Tier::Ultimate), 300_060);
    // stone without a price: only the application
    assert_eq!(price_reforge(&table, &reforges(), &Some("lost".to_string()), Tier::Rare), 7);
    assert_eq!(price_reforge(&table, &reforges(), &Some("nope".to_string()), Tier::Rare), 0);
    assert_eq!(price_reforge(&table, &reforges(), &None, Tier::Rare), 0);
}

#[test]
fn all_contributions_add_up() {
    let index = index_with_baseline(2_000_000, Tier::Legendary);
    let mut l = listing(5, Tier::Legendary);
    l.attributes.quality_upgrade_count = 1;
    l.attributes.upgrade_book_count = 12;
    l.attributes.star_count = 7;
    l.attributes.enchantments = vec![Enchantment { name: "sharpness".to_string(), level: 5 }];
    l.attributes.reforge_name = Some("fabled".to_string());
    // 2_000_000 + 1_000_000 + (10_000 + 100_000) + 33 + 700 + (300_000 + 50)
    assert_eq!(estimate_worth(&l, &index, &standard_prices(), &reforges()), Ok(3_410_783));
}

#[test]
fn more_enhancement_never_lowers_the_worth() {
    let index = index_with_baseline(1_000, Tier::Epic);
    let table = standard_prices();
    let mut last: i128 = 0;
    for n in 0..=10u32 {
        let mut l = listing(1, Tier::Epic);
        l.attributes.quality_upgrade_count = n;
        l.attributes.upgrade_book_count = 2 * n;
        l.attributes.star_count = n;
        let worth = estimate_worth(&l, &index, &table, &reforges()).unwrap();
        assert!(worth >= last);
        last = worth;
    }
}

#[test]
fn error_messages() {
    assert_eq!(ValuationError::MissingBaseline.message(), "no comparable listing");
    assert_eq!(ValuationError::MissingCommodity.message(), "missing commodity price");
    assert_eq!(ValuationError::InvalidStarCount.message(), "too many master stars");
}

#[test]
fn a_later_price_replaces_an_earlier_one() {
    let mut table = PriceTable::new();
    assert!(table.get("X").is_none());
    assert_eq!(table.sell_price_or_zero("X"), 0);
    table.insert("X".to_string(), price(5));
    table.insert("X".to_string(), price(9));
    assert_eq!(table.get("X").unwrap().instant_sell, 9);
    assert_eq!(table.sell_price_or_zero("X"), 9);
    let r = reforges();
    assert_eq!(r.get("fabled").unwrap().stone_identity, "STONE_X");
    assert!(r.get("Fabled").is_none());
}

#[test]
fn application_costs_are_read_with_their_commas() {
    assert_eq!(parse_application_cost("1,250,000"), Some(1_250_000));
    assert_eq!(parse_application_cost(" 600 "), Some(600));
    assert_eq!(parse_application_cost("-5"), Some(-5));
    assert_eq!(parse_application_cost("12 000"), None);
    assert_eq!(parse_application_cost("free"), None);
    assert_eq!(parse_application_cost(""), None);
}

#[test]
fn reforges_are_kept_in_lower_case() {
    assert_eq!(reforge_key("Fabled"), "fabled");
    assert_eq!(reforge_key("withered"), "withered");
}
