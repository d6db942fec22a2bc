use vstd::prelude::*;
use vstd::hash_map::StringHashMap;
use vstd::string::*;
use crate::text::{
    lowercase_text, lowercased_text, parse_long, parsed_long, strip_commas, trim_text, trimmed_text,
    without_commas,
};

verus! {

/// What a commodity trades at, in whole currency units, and how much of it
/// was traded in a week.
#[derive(Clone, Debug)]
pub struct CommodityPrice {
    pub instant_buy: u64,
    pub instant_sell: u64,
    pub buy_volume: i64,
    pub sell_volume: i64,
    pub name: String,
}

/// The instant-sell price of a commodity, zero where the table lacks it.
pub open spec fn sell_price_or_zero(prices: Map<Seq<char>, CommodityPrice>, identity: Seq<char>) -> int {
    if prices.contains_key(identity) {
        prices[identity].instant_sell as int
    } else {
        0
    }
}

/// The prices of one snapshot, by the commodity's identity.
pub struct PriceTable {
    entries: StringHashMap<CommodityPrice>,
}

impl PriceTable {
    pub closed spec fn view(&self) -> Map<Seq<char>, CommodityPrice> {
        self.entries@
    }

    pub fn new() -> (table: Self)
        ensures
            table@ == Map::<Seq<char>, CommodityPrice>::empty(),
    {
        PriceTable { entries: StringHashMap::new() }
    }

    /// Sets the price of a commodity; a price that was there is replaced.
    pub fn insert(&mut self, identity: String, price: CommodityPrice)
        ensures
            final(self)@ == old(self)@.insert(identity@, price),
    {
        self.entries.insert(identity, price);
    }

    pub fn get(&self, identity: &str) -> (found: Option<&CommodityPrice>)
        ensures
            match found {
                Some(price) => self@.contains_key(identity@) && *price == self@[identity@],
                None => !self@.contains_key(identity@),
            },
    {
        self.entries.get(identity)
    }

    pub fn sell_price_or_zero(&self, identity: &str) -> (price: u64)
        ensures
            price == sell_price_or_zero(self@, identity@),
    {
        match self.entries.get(identity) {
            Some(entry) => entry.instant_sell,
            None => 0,
        }
    }
}

/// What a reforge costs: the commodity of its stone, and the cost of applying
/// it by tier rank.
#[derive(Clone, Debug)]
pub struct ReforgeCost {
    pub stone_identity: String,
    pub application_costs: Vec<i64>,
}

/// The cost that a text of the reference data spells: a number in decimal,
/// which may be grouped by commas and stand between white space.
pub open spec fn application_cost_of(text: Seq<char>) -> Option<i64> {
    parsed_long(without_commas(trimmed_text(text)))
}

/// Reads a cost of application from its text in the reference data.
pub fn parse_application_cost(text: &str) -> (cost: Option<i64>)
    ensures
        cost == application_cost_of(text@),
{
    let trimmed: String = trim_text(text);
    let digits: String = strip_commas(trimmed.as_str());
    parse_long(digits.as_str())
}

/// The name under which the table holds a reforge: its name in lower case.
pub fn reforge_key(name: &str) -> (key: String)
    ensures
        key@ == lowercased_text(name@),
{
    lowercase_text(name)
}

/// Every reforge of the table has a cost of application for at least one rank.
pub open spec fn reforges_complete(reforges: Map<Seq<char>, ReforgeCost>) -> bool {
    forall|name: Seq<char>| #[trigger]
        reforges.contains_key(name) ==> reforges[name].application_costs@.len() > 0
}

/// The reforge costs by the reforge's name, in lower case.
pub struct ReforgeTable {
    entries: StringHashMap<ReforgeCost>,
}

impl ReforgeTable {
    pub closed spec fn view(&self) -> Map<Seq<char>, ReforgeCost> {
        self.entries@
    }

    pub fn new() -> (table: Self)
        ensures
            table@ == Map::<Seq<char>, ReforgeCost>::empty(),
            reforges_complete(table@),
    {
        ReforgeTable { entries: StringHashMap::new() }
    }

    /// Sets the cost of a reforge; a cost that was there is replaced.
    pub fn insert(&mut self, name: String, cost: ReforgeCost)
        requires
            cost.application_costs@.len() > 0,
        ensures
            final(self)@ == old(self)@.insert(name@, cost),
            reforges_complete(old(self)@) ==> reforges_complete(final(self)@),
    {
        self.entries.insert(name, cost);
    }

    pub fn get(&self, name: &str) -> (found: Option<&ReforgeCost>)
        ensures
            match found {
                Some(cost) => self@.contains_key(name@) && *cost == self@[name@],
                None => !self@.contains_key(name@),
            },
    {
        self.entries.get(name)
    }
}

} // verus!
