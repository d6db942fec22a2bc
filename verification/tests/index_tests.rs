use bin_sniper::index::{KeyNotFound, LowestPriceIndex};
use bin_sniper::listing::{AttributeBundle, FilterKey, Listing};
use bin_sniper::tier::Tier;

fn plain_listing(id: &str, cost: i64, tier: Tier, identity: &str) -> Listing {
    Listing {
        id: id.to_string(),
        cost,
        start_time: 0,
        end_time: 0,
        claimed: false,
        display_name: identity.to_string(),
        attributes: AttributeBundle {
            identity: identity.to_string(),
            quality_upgrade_count: 0,
            enchantments: Vec::new(),
            upgrade_book_count: 0,
            reforge_name: None,
            star_count: 0,
        },
        base_tier: tier,
        identity: identity.to_string(),
        collection_level: None,
    }
}

fn key(tier: Tier, identity: &str) -> FilterKey {
    FilterKey { tier, identity: identity.to_string() }
}

fn costs(index: &LowestPriceIndex, k: &FilterKey) -> Vec<i64> {
    index.lookup(k).unwrap().iter().map(|l| l.cost).collect()
}

fn ids(index: &LowestPriceIndex, k: &FilterKey) -> Vec<String> {
    index.lookup(k).unwrap().iter().map(|l| l.id.clone()).collect()
}

#[test]
fn lookup_of_a_key_never_inserted_fails() {
    let index = LowestPriceIndex::new();
    assert!(matches!(index.lookup(&key(Tier::Epic, "SWORD")), Err(KeyNotFound)));
    assert_eq!(index.key_count(), 0);
}

#[test]
fn bucket_is_sorted_after_any_inserts() {
    let mut index = LowestPriceIndex::new();
    let k = key(Tier::Epic, "SWORD");
    for (i, cost) in [50i64, 10, 40, 10, 30, 70, 20, -5].iter().enumerate() {
        index.insert(key(Tier::Epic, "SWORD"), plain_listing(&format!("a{}", i), *cost, Tier::Epic, "SWORD"));
        let seen = costs(&index, &k);
        let mut sorted = seen.clone();
        sorted.sort();
        assert_eq!(seen, sorted);
        assert_eq!(seen.len(), i + 1);
    }
    assert_eq!(costs(&index, &k), vec![-5, 10, 10, 20, 30, 40, 50, 70]);
}

#[test]
fn equal_costs_keep_their_order_of_arrival() {
    let mut index = LowestPriceIndex::new();
    let k = key(Tier::Rare, "BOW");
    index.insert(key(Tier::Rare, "BOW"), plain_listing("first", 10, Tier::Rare, "BOW"));
    index.insert(key(Tier::Rare, "BOW"), plain_listing("second", 10, Tier::Rare, "BOW"));
    index.insert(key(Tier::Rare, "BOW"), plain_listing("cheap", 5, Tier::Rare, "BOW"));
    index.insert(key(Tier::Rare, "BOW"), plain_listing("third", 10, Tier::Rare, "BOW"));
    assert_eq!(ids(&index, &k), vec!["cheap", "first", "second", "third"]);
}

#[test]
fn same_listing_twice_stands_twice() {
    let mut index = LowestPriceIndex::new();
    let listing = plain_listing("dup", 100, Tier::Epic, "SWORD");
    index.add(plain_listing("other", 50, Tier::Epic, "SWORD"));
    index.add(listing.clone());
    index.add(listing.clone());
    let k = key(Tier::Epic, "SWORD");
    assert_eq!(ids(&index, &k), vec!["other", "dup", "dup"]);
    assert_eq!(costs(&index, &k), vec![50, 100, 100]);
}

#[test]
fn tiers_and_identities_are_kept_apart() {
    let mut index = LowestPriceIndex::new();
    index.add(plain_listing("a", 3, Tier::Epic, "SWORD"));
    index.add(plain_listing("b", 2, Tier::Legendary, "SWORD"));
    index.add(plain_listing("c", 1, Tier::Epic, "BOW"));
    index.add(plain_listing("d", 0, Tier::Epic, "SWORD"));
    assert_eq!(index.key_count(), 3);
    assert_eq!(ids(&index, &key(Tier::Epic, "SWORD")), vec!["d", "a"]);
    assert_eq!(ids(&index, &key(Tier::Legendary, "SWORD")), vec!["b"]);
    assert_eq!(ids(&index, &key(Tier::Epic, "BOW")), vec!["c"]);
    assert!(index.lookup(&key(Tier::Rare, "BOW")).is_err());
    assert_eq!(index.key_at(0).identity, "SWORD");
    assert_eq!(index.key_at(0).tier, Tier::Epic);
    assert_eq!(index.key_at(1).tier, Tier::Legendary);
    assert_eq!(index.key_at(2).identity, "BOW");
}

#[test]
fn filter_keys_compare_by_tier_and_identity() {
    assert!(key(Tier::Epic, "A").same_as(&key(Tier::Epic, "A")));
    assert!(!key(Tier::Epic, "A").same_as(&key(Tier::Rare, "A")));
    assert!(!key(Tier::Epic, "A").same_as(&key(Tier::Epic, "B")));
    let l = plain_listing("x", 1, Tier::Divine, "ORB");
    assert!(l.filter_key().same_as(&key(Tier::Divine, "ORB")));
}
