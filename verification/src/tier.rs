use vstd::prelude::*;

verus! {

/// Quality grade of an item. Equipment grades run from `Common` up to `Mythic`;
/// the remaining grades are used for special categories of goods.
#[derive(Clone, Copy, Debug, PartialEq, Eq, Structural, Hash)]
pub enum Tier {
    Mythic,
    Legendary,
    Epic,
    Rare,
    Uncommon,
    Common,
    Special,
    VerySpecial,
    Divine,
    Ultimate,
}

/// A tier name, or a tier shift, that the tables do not know.
#[derive(Clone, Copy, Debug, PartialEq, Eq, Structural)]
pub struct UnknownTier;

impl UnknownTier {
    pub fn message(&self) -> (text: String)
        ensures
            text@ == "unknown tier"@,
    {
        "unknown tier".to_owned()
    }
}

/// The tier one step below `tier` in the shift table, where the table has one.
pub open spec fn shifted_down(tier: Tier) -> Option<Tier> {
    match tier {
        Tier::Uncommon => Some(Tier::Common),
        Tier::Rare => Some(Tier::Uncommon),
        Tier::Epic => Some(Tier::Rare),
        Tier::Legendary => Some(Tier::Epic),
        Tier::Mythic => Some(Tier::Legendary),
        Tier::VerySpecial => Some(Tier::Special),
        Tier::Divine => Some(Tier::Mythic),
        _ => None,
    }
}

/// The tier that a listing of raw tier `raw` is grouped under, given how many
/// quality upgrades it carries: no upgrade leaves the tier, any positive count
/// shifts it by exactly one step.
pub open spec fn resolved_tier(raw: Tier, quality_upgrade_count: u32) -> Option<Tier> {
    if quality_upgrade_count == 0 {
        Some(raw)
    } else {
        shifted_down(raw)
    }
}

/// Position of a tier in a table of per-tier costs.
pub open spec fn tier_rank_of(tier: Tier) -> nat {
    match tier {
        Tier::Common => 0,
        Tier::Uncommon => 1,
        Tier::Rare => 2,
        Tier::Epic => 3,
        Tier::Legendary => 4,
        Tier::Mythic => 5,
        Tier::Divine => 6,
        Tier::Special => 7,
        Tier::VerySpecial => 8,
        Tier::Ultimate => 9,
    }
}

/// The tier that a name of the listing feed stands for.
pub open spec fn tier_named(name: Seq<char>) -> Option<Tier> {
    if name == "MYTHIC"@ {
        Some(Tier::Mythic)
    } else if name == "LEGENDARY"@ {
        Some(Tier::Legendary)
    } else if name == "EPIC"@ {
        Some(Tier::Epic)
    } else if name == "RARE"@ {
        Some(Tier::Rare)
    } else if name == "UNCOMMON"@ {
        Some(Tier::Uncommon)
    } else if name == "COMMON"@ {
        Some(Tier::Common)
    } else if name == "SPECIAL"@ {
        Some(Tier::Special)
    } else if name == "VERY_SPECIAL"@ {
        Some(Tier::VerySpecial)
    } else if name == "SUPREME"@ {
        Some(Tier::Divine)
    } else if name == "ULTIMATE"@ {
        Some(Tier::Ultimate)
    } else {
        None
    }
}

/// Whether two string slices hold the same characters.
pub fn same_text(a: &str, b: &str) -> (same: bool)
    ensures
        same == (a@ == b@),
{
    let left: String = a.to_owned();
    let right: String = b.to_owned();
    left == right
}

impl Tier {
    pub fn from_name(name: &str) -> (parsed: Result<Tier, UnknownTier>)
        ensures
            parsed == match tier_named(name@) {
                Some(tier) => Ok::<Tier, UnknownTier>(tier),
                None => Err::<Tier, UnknownTier>(UnknownTier),
            },
    {
        if same_text(name, "MYTHIC") {
            Ok(Tier::Mythic)
        } else if same_text(name, "LEGENDARY") {
            Ok(Tier::Legendary)
        } else if same_text(name, "EPIC") {
            Ok(Tier::Epic)
        } else if same_text(name, "RARE") {
            Ok(Tier::Rare)
        } else if same_text(name, "UNCOMMON") {
            Ok(Tier::Uncommon)
        } else if same_text(name, "COMMON") {
            Ok(Tier::Common)
        } else if same_text(name, "SPECIAL") {
            Ok(Tier::Special)
        } else if same_text(name, "VERY_SPECIAL") {
            Ok(Tier::VerySpecial)
        } else if same_text(name, "SUPREME") {
            Ok(Tier::Divine)
        } else if same_text(name, "ULTIMATE") {
            Ok(Tier::Ultimate)
        } else {
            Err(UnknownTier)
        }
    }

    pub fn rank(&self) -> (rank: usize)
        ensures
            rank == tier_rank_of(*self),
    {
        match self {
            Tier::Common => 0,
            Tier::Uncommon => 1,
            Tier::Rare => 2,
            Tier::Epic => 3,
            Tier::Legendary => 4,
            Tier::Mythic => 5,
            Tier::Divine => 6,
            Tier::Special => 7,
            Tier::VerySpecial => 8,
            Tier::Ultimate => 9,
        }
    }
}

pub fn resolve_tier(raw: Tier, quality_upgrade_count: u32) -> (resolved: Result<Tier, UnknownTier>)
    ensures
        resolved == match resolved_tier(raw, quality_upgrade_count) {
            Some(tier) => Ok::<Tier, UnknownTier>(tier),
            None => Err::<Tier, UnknownTier>(UnknownTier),
        },
{
    if quality_upgrade_count == 0 {
        return Ok(raw);
    }
    match raw {
        Tier::Uncommon => Ok(Tier::Common),
        Tier::Rare => Ok(Tier::Uncommon),
        Tier::Epic => Ok(Tier::Rare),
        Tier::Legendary => Ok(Tier::Epic),
        Tier::Mythic => Ok(Tier::Legendary),
        Tier::VerySpecial => Ok(Tier::Special),
        Tier::Divine => Ok(Tier::Mythic),
        _ => Err(UnknownTier),
    }
}

/// Number of shift steps that lead from a tier to the bottom of its chain.
pub open spec fn shift_depth(tier: Tier) -> nat {
    match tier {
        Tier::Uncommon => 1,
        Tier::Rare => 2,
        Tier::Epic => 3,
        Tier::Legendary => 4,
        Tier::Mythic => 5,
        Tier::Divine => 6,
        Tier::VerySpecial => 1,
        _ => 0,
    }
}

/// A single upgrade resolves exactly the tiers of the shift table, and every
/// shift moves strictly down a chain: the result is never the tier it started
/// from, and no sequence of shifts leads back to it. Any positive count of
/// upgrades resolves as a single one does.
pub proof fn lemma_shift_is_one_way(tier: Tier, count: u32)
    ensures
        resolved_tier(tier, 1) is Some <==> (tier == Tier::Uncommon || tier == Tier::Rare || tier
            == Tier::Epic || tier == Tier::Legendary || tier == Tier::Mythic || tier
            == Tier::VerySpecial || tier == Tier::Divine),
        resolved_tier(tier, 1) is Some ==> resolved_tier(tier, 1) != Some(tier),
        resolved_tier(tier, 1) is Some ==> shift_depth(resolved_tier(tier, 1).unwrap()) + 1
            == shift_depth(tier),
        count >= 1 ==> resolved_tier(tier, count) == resolved_tier(tier, 1),
{
}

} // verus!
