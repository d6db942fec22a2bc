use vstd::prelude::*;
use vstd::string::*;
use crate::decode::{DecodeError, count_at, decode_attributes, describes, attributes_compound};
use crate::text::{normalize_name, normalized_name, parse_number, parsed_number, trim_text, trimmed_text};
use crate::time::{compare_time_diff, whole_seconds};
use crate::tier::{Tier, UnknownTier, resolve_tier, resolved_tier, same_text, tier_named};

verus! {

/// One enchantment of an item: its name as the metadata spells it, and its level.
#[derive(Clone, Debug)]
pub struct Enchantment {
    pub name: String,
    pub level: i32,
}

/// The attributes of an item that bear on its price, flattened out of its metadata.
#[derive(Clone, Debug)]
pub struct AttributeBundle {
    pub identity: String,
    pub quality_upgrade_count: u32,
    pub enchantments: Vec<Enchantment>,
    pub upgrade_book_count: u32,
    pub reforge_name: Option<String>,
    pub star_count: u32,
}

/// One live fixed-price listing.
#[derive(Clone, Debug)]
pub struct Listing {
    pub id: String,
    pub cost: i64,
    pub start_time: i64,
    pub end_time: i64,
    pub claimed: bool,
    pub display_name: String,
    pub attributes: AttributeBundle,
    /// The tier the listing is grouped under, quality upgrades already applied.
    pub base_tier: Tier,
    /// What the item is, whatever its level.
    pub identity: String,
    pub collection_level: Option<i32>,
}

/// Why a record of the feed gave no listing.
#[derive(Clone, Copy, Debug, PartialEq, Eq, Structural)]
pub enum ListingError {
    /// The metadata of the item could not be read.
    Decode(DecodeError),
    /// The tier is not known, or cannot carry the item's quality upgrade.
    UnknownTier,
}

/// The group of listings that are comparable with one another.
#[derive(Clone, Debug)]
pub struct FilterKey {
    pub tier: Tier,
    pub identity: String,
}

impl View for FilterKey {
    type V = (Tier, Seq<char>);

    open spec fn view(&self) -> (Tier, Seq<char>) {
        (self.tier, self.identity@)
    }
}

impl FilterKey {
    pub fn same_as(&self, other: &FilterKey) -> (same: bool)
        ensures
            same == (self@ == other@),
    {
        self.tier == other.tier && self.identity == other.identity
    }
}

/// Whether the first closing bracket of a name stands at a position.
pub open spec fn is_bracket_end(name: Seq<char>, position: int) -> bool {
    &&& 0 <= position < name.len()
    &&& name[position] == ']'
    &&& forall|j: int| 0 <= j < position ==> name[j] != ']'
}

/// Whether a name begins with a bracket that is closed further on.
pub open spec fn has_level_bracket(name: Seq<char>) -> bool {
    name.len() > 0 && name[0] == '[' && exists|k: int| is_bracket_end(name, k)
}

/// Where the leading bracket of a name is closed.
pub open spec fn bracket_end(name: Seq<char>) -> int {
    choose|k: int| is_bracket_end(name, k)
}

/// Whether a name begins with the marker of a level.
pub open spec fn has_level_marker(name: Seq<char>) -> bool {
    name.len() >= 4 && name[0] == '[' && name[1] == 'L' && name[2] == 'v' && name[3] == 'l'
}

/// The identity of a leveled collectible: its display name without the
/// leading bracket of its level, normalized.
pub open spec fn collectible_identity(display_name: Seq<char>) -> Seq<char> {
    let name = trimmed_text(display_name);
    if has_level_bracket(name) {
        normalized_name(name.subrange(bracket_end(name) + 1, name.len() as int))
    } else {
        normalized_name(name)
    }
}

/// The level of a leveled collectible: the number in the leading bracket of
/// its display name, zero where none can be read.
pub open spec fn collectible_level(display_name: Seq<char>) -> i32 {
    let name = trimmed_text(display_name);
    if has_level_bracket(name) && has_level_marker(name) {
        match parsed_number(trimmed_text(name.subrange(4, bracket_end(name)))) {
            Some(level) => level,
            None => 0,
        }
    } else {
        0
    }
}

/// Whether an identity of the metadata is that of the leveled collectibles.
pub open spec fn is_collectible(identity: Seq<char>) -> bool {
    identity == "PET"@
}

/// The identity a listing is grouped under.
pub open spec fn listing_identity(identity: Seq<char>, display_name: Seq<char>) -> Seq<char> {
    if is_collectible(identity) {
        collectible_identity(display_name)
    } else {
        identity
    }
}

/// The level of a listing, where it is a leveled collectible.
pub open spec fn listing_level(identity: Seq<char>, display_name: Seq<char>) -> Option<i32> {
    if is_collectible(identity) {
        Some(collectible_level(display_name))
    } else {
        None
    }
}

/// Whether a record of the feed is taken in: only what is sold at a fixed
/// price and not yet claimed.
pub fn is_eligible(is_fixed_price: bool, claimed: bool) -> (eligible: bool)
    ensures
        eligible == (is_fixed_price && !claimed),
{
    is_fixed_price && !claimed
}

fn find_bracket_end(name: &str) -> (found: Option<usize>)
    ensures
        match found {
            Some(k) => is_bracket_end(name@, k as int) && bracket_end(name@) == k,
            None => forall|k: int| !is_bracket_end(name@, k),
        },
{
    let length: usize = name.unicode_len();
    let mut k: usize = 0;
    while k < length
        invariant
            length == name@.len(),
            k <= length,
            forall|j: int| 0 <= j < k ==> name@[j] != ']',
        decreases length - k,
    {
        if name.get_char(k) == ']' {
            proof {
                assert(is_bracket_end(name@, k as int));
                let other = bracket_end(name@);
                assert(is_bracket_end(name@, other));
                assert(other == k);
            }
            return Some(k);
        }
        k += 1;
    }
    None
}

/// The identity of a leveled collectible of a display name.
pub fn collectible_identity_of(display_name: &str) -> (identity: String)
    ensures
        identity@ == collectible_identity(display_name@),
{
    let name: String = trim_text(display_name);
    let text: &str = name.as_str();
    let length: usize = text.unicode_len();
    if length > 0 && text.get_char(0) == '[' {
        match find_bracket_end(text) {
            Some(k) => {
                return normalize_name(text.substring_char(k + 1, length));
            },
            None => {},
        }
    }
    normalize_name(text)
}

/// The level of a leveled collectible of a display name.
pub fn collectible_level_of(display_name: &str) -> (level: i32)
    ensures
        level == collectible_level(display_name@),
{
    let name: String = trim_text(display_name);
    let text: &str = name.as_str();
    let length: usize = text.unicode_len();
    if length >= 4 && text.get_char(0) == '[' && text.get_char(1) == 'L' && text.get_char(2) == 'v'
        && text.get_char(3) == 'l' {
        match find_bracket_end(text) {
            Some(k) => {
                let inner: String = trim_text(text.substring_char(4, k));
                return match parse_number(inner.as_str()) {
                    Some(level) => level,
                    None => 0,
                };
            },
            None => {},
        }
    }
    0
}

impl Listing {
    /// Makes the listing of a record of the feed and of the attributes of its
    /// item. The tier is that of the name, shifted where the item carries a
    /// quality upgrade; a leveled collectible is known by its display name.
    pub fn new(
        claimed: bool,
        cost: i64,
        name: String,
        auction_id: String,
        start: i64,
        end: i64,
        attributes: AttributeBundle,
        tier: &str,
    ) -> (made: Result<Listing, UnknownTier>)
        ensures
            match made {
                Ok(listing) => {
                    &&& tier_named(tier@) is Some
                    &&& resolved_tier(tier_named(tier@)->Some_0, attributes.quality_upgrade_count)
                        == Some(listing.base_tier)
                    &&& listing.claimed == claimed
                    &&& listing.cost == cost
                    &&& listing.display_name == name
                    &&& listing.id == auction_id
                    &&& listing.start_time == start
                    &&& listing.end_time == end
                    &&& listing.attributes == attributes
                    &&& listing.identity@ == listing_identity(attributes.identity@, name@)
                    &&& listing.collection_level == listing_level(attributes.identity@, name@)
                },
                Err(_) => tier_named(tier@) is None || resolved_tier(
                    tier_named(tier@)->Some_0,
                    attributes.quality_upgrade_count,
                ) is None,
            },
    {
        let raw: Tier = match Tier::from_name(tier) {
            Ok(raw) => raw,
            Err(error) => {
                return Err(error);
            },
        };
        let base_tier: Tier = match resolve_tier(raw, attributes.quality_upgrade_count) {
            Ok(resolved) => resolved,
            Err(error) => {
                return Err(error);
            },
        };
        let collectible: bool = same_text(attributes.identity.as_str(), "PET");
        let identity: String = if collectible {
            collectible_identity_of(name.as_str())
        } else {
            attributes.identity.clone()
        };
        let collection_level: Option<i32> = if collectible {
            Some(collectible_level_of(name.as_str()))
        } else {
            None
        };
        Ok(
            Listing {
                id: auction_id,
                cost,
                start_time: start,
                end_time: end,
                claimed,
                display_name: name,
                attributes,
                base_tier,
                identity,
                collection_level,
            },
        )
    }

    /// Makes the listing of a record of the feed: reads the attributes of its
    /// item from the tag tree of its metadata, then builds the listing from them.
    pub fn from_record(
        claimed: bool,
        cost: i64,
        name: String,
        auction_id: String,
        start: i64,
        end: i64,
        metadata: &quartz_nbt::NbtCompound,
        tier: &str,
    ) -> (made: Result<Listing, ListingError>)
        ensures
            match made {
                Ok(listing) => {
                    &&& attributes_compound(*metadata) is Ok
                    &&& describes(listing.attributes, attributes_compound(*metadata)->Ok_0)
                    &&& tier_named(tier@) is Some
                    &&& resolved_tier(
                        tier_named(tier@)->Some_0,
                        listing.attributes.quality_upgrade_count,
                    ) == Some(listing.base_tier)
                    &&& listing.claimed == claimed
                    &&& listing.cost == cost
                    &&& listing.display_name == name
                    &&& listing.id == auction_id
                    &&& listing.start_time == start
                    &&& listing.end_time == end
                    &&& listing.identity@ == listing_identity(listing.attributes.identity@, name@)
                    &&& listing.collection_level == listing_level(
                        listing.attributes.identity@,
                        name@,
                    )
                },
                Err(ListingError::Decode(error)) => attributes_compound(*metadata) == Err::<
                    quartz_nbt::NbtCompound,
                    DecodeError,
                >(error),
                Err(ListingError::UnknownTier) => {
                    &&& attributes_compound(*metadata) is Ok
                    &&& (tier_named(tier@) is None || resolved_tier(
                        tier_named(tier@)->Some_0,
                        count_at(attributes_compound(*metadata)->Ok_0, "rarity_upgrades"@) as u32,
                    ) is None)
                },
            },
    {
        let attributes: AttributeBundle = match decode_attributes(metadata) {
            Ok(attributes) => attributes,
            Err(error) => {
                return Err(ListingError::Decode(error));
            },
        };
        match Listing::new(claimed, cost, name, auction_id, start, end, attributes, tier) {
            Ok(listing) => Ok(listing),
            Err(_) => Err(ListingError::UnknownTier),
        }
    }

    /// Whole seconds from the start of the listing to an instant in milliseconds.
    pub fn seconds_since_start(&self, now: i64) -> (seconds: i64)
        ensures
            seconds == whole_seconds(now as int) - whole_seconds(self.start_time as int),
    {
        compare_time_diff(self.start_time, now)
    }

    /// Whole seconds from an instant in milliseconds to the end of the listing.
    pub fn seconds_until_end(&self, now: i64) -> (seconds: i64)
        ensures
            seconds == whole_seconds(self.end_time as int) - whole_seconds(now as int),
    {
        compare_time_diff(now, self.end_time)
    }

    /// The key of the group this listing belongs to.
    pub open spec fn key(&self) -> (Tier, Seq<char>) {
        (self.base_tier, self.identity@)
    }

    pub fn filter_key(&self) -> (key: FilterKey)
        ensures
            key@ == self.key(),
    {
        FilterKey { tier: self.base_tier, identity: self.identity.clone() }
    }
}

} // verus!
