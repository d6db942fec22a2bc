use bin_sniper::listing::{
    collectible_identity_of, collectible_level_of, is_eligible, AttributeBundle, Listing,
};
use bin_sniper::text::{
    enchantment_commodity_id, normalize_name, strip_commas, ultimate_enchantment_commodity_id,
    underscore_spaces,
};
use bin_sniper::tier::Tier;

fn bundle(identity: &str, quality_upgrade_count: u32) -> AttributeBundle {
    AttributeBundle {
        identity: identity.to_string(),
        quality_upgrade_count,
        enchantments: Vec::new(),
        upgrade_book_count: 0,
        reforge_name: None,
        star_count: 0,
    }
}

#[test]
fn names_are_trimmed_uppercased_and_underscored() {
    assert_eq!(normalize_name(" ender dragon "), "ENDER_DRAGON");
    assert_eq!(normalize_name("Bee"), "BEE");
    assert_eq!(normalize_name("a  b"), "A__B");
    assert_eq!(normalize_name(""), "");
}

#[test]
fn enchantment_commodities() {
    assert_eq!(enchantment_commodity_id("sharpness", 5), "ENCHANTMENT_SHARPNESS_5");
    assert_eq!(enchantment_commodity_id(" first strike", 4), "ENCHANTMENT_FIRST_STRIKE_4");
    assert_eq!(enchantment_commodity_id("x", -1), "ENCHANTMENT_X_-1");
    assert_eq!(ultimate_enchantment_commodity_id("wise", 3), "ENCHANTMENT_ULTIMATE_WISE_3");
}

#[test]
fn collectibles_of_every_level_share_an_identity() {
    assert_eq!(collectible_identity_of("[Lvl 1] Ender Dragon"), "ENDER_DRAGON");
    assert_eq!(collectible_identity_of("[Lvl 15] Ender Dragon"), "ENDER_DRAGON");
    assert_eq!(collectible_identity_of("[Lvl 100] Ender Dragon"), "ENDER_DRAGON");
    assert_eq!(collectible_identity_of("  [Lvl 7] Bee "), "BEE");
    assert_eq!(collectible_identity_of("Bee"), "BEE");
    assert_eq!(collectible_identity_of("[Lvl 3 Bee"), "[LVL_3_BEE");
    assert_eq!(collectible_identity_of("[Lvl 3]"), "");
}

#[test]
fn collectible_levels() {
    assert_eq!(collectible_level_of("[Lvl 1] Ender Dragon"), 1);
    assert_eq!(collectible_level_of("[Lvl 100] Ender Dragon"), 100);
    assert_eq!(collectible_level_of(" [Lvl 42] Bee"), 42);
    assert_eq!(collectible_level_of("[Lvl x] Bee"), 0);
    assert_eq!(collectible_level_of("[Level 5] Bee"), 0);
    assert_eq!(collectible_level_of("Bee"), 0);
}

#[test]
fn listing_takes_the_identity_of_its_attributes() {
    let l = Listing::new(
        false,
        1_500,
        "Sharp Sword".to_string(),
        "abc".to_string(),
        10,
        20,
        bundle("SWORD", 0),
        "EPIC",
    )
    .unwrap();
    assert_eq!(l.id, "abc");
    assert_eq!(l.cost, 1_500);
    assert_eq!(l.start_time, 10);
    assert_eq!(l.end_time, 20);
    assert!(!l.claimed);
    assert_eq!(l.display_name, "Sharp Sword");
    assert_eq!(l.identity, "SWORD");
    assert_eq!(l.base_tier, Tier::Epic);
    assert_eq!(l.collection_level, None);
    assert_eq!(l.attributes.identity, "SWORD");
    assert_eq!(l.seconds_since_start(4_010), 4);
    assert_eq!(l.seconds_until_end(4_010), -4);
}

#[test]
fn upgraded_listing_is_grouped_one_tier_down() {
    let l = Listing::new(false, 1, "S".to_string(), "a".to_string(), 0, 0, bundle("SWORD", 1), "LEGENDARY")
        .unwrap();
    assert_eq!(l.base_tier, Tier::Epic);
    assert_eq!(l.attributes.quality_upgrade_count, 1);
    let d = Listing::new(false, 1, "S".to_string(), "a".to_string(), 0, 0, bundle("SWORD", 1), "SUPREME")
        .unwrap();
    assert_eq!(d.base_tier, Tier::Mythic);
}

#[test]
fn listing_with_an_unknown_tier_is_refused() {
    assert!(Listing::new(false, 1, "S".to_string(), "a".to_string(), 0, 0, bundle("SWORD", 0), "SHINY").is_err());
    assert!(Listing::new(false, 1, "S".to_string(), "a".to_string(), 0, 0, bundle("SWORD", 1), "COMMON").is_err());
    assert!(Listing::new(false, 1, "S".to_string(), "a".to_string(), 0, 0, bundle("SWORD", 1), "ULTIMATE").is_err());
}

#[test]
fn leveled_collectible_is_known_by_its_name() {
    let l = Listing::new(
        false,
        1,
        "[Lvl 100] Ender Dragon".to_string(),
        "a".to_string(),
        0,
        0,
        bundle("PET", 0),
        "LEGENDARY",
    )
    .unwrap();
    assert_eq!(l.identity, "ENDER_DRAGON");
    assert_eq!(l.collection_level, Some(100));
    let key = l.filter_key();
    assert_eq!(key.identity, "ENDER_DRAGON");
    assert_eq!(key.tier, Tier::Legendary);
}

#[test]
fn only_unclaimed_fixed_price_records_are_taken() {
    assert!(is_eligible(true, false));
    assert!(!is_eligible(true, true));
    assert!(!is_eligible(false, false));
    assert!(!is_eligible(false, true));
}

#[test]
fn spaces_become_underscores_and_commas_go() {
    assert_eq!(underscore_spaces("a b  c"), "a_b__c");
    assert_eq!(underscore_spaces(" "), "_");
    assert_eq!(underscore_spaces("none"), "none");
    assert_eq!(underscore_spaces(""), "");
    assert_eq!(underscore_spaces("caf\u{e9} au lait"), "caf\u{e9}_au_lait");
    assert_eq!(strip_commas("1,000,000"), "1000000");
    assert_eq!(strip_commas(",,"), "");
    assert_eq!(strip_commas("a b"), "a b");
}
