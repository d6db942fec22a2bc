use vstd::prelude::*;
use crate::listing::{AttributeBundle, Enchantment};

verus! {

#[verifier::external_type_specification]
#[verifier::external_body]
pub struct ExNbtCompound(quartz_nbt::NbtCompound);

#[verifier::external_type_specification]
#[verifier::external_body]
pub struct ExNbtList(quartz_nbt::NbtList);

#[verifier::external_type_specification]
#[verifier::external_body]
pub struct ExNbtTag(quartz_nbt::NbtTag);

/// The bytes that a text in standard base64 stands for, if it is one.
pub uninterp spec fn base64_decoded(text: Seq<char>) -> Option<Seq<u8>>;

/// The compound that a compound holds under a name.
pub uninterp spec fn compound_at(parent: quartz_nbt::NbtCompound, name: Seq<char>) -> Option<quartz_nbt::NbtCompound>;

/// The list that a compound holds under a name.
pub uninterp spec fn list_at(parent: quartz_nbt::NbtCompound, name: Seq<char>) -> Option<quartz_nbt::NbtList>;

/// The text that a compound holds under a name.
pub uninterp spec fn text_at(parent: quartz_nbt::NbtCompound, name: Seq<char>) -> Option<Seq<char>>;

/// The 32-bit integer that a compound holds under a name.
pub uninterp spec fn int_at(parent: quartz_nbt::NbtCompound, name: Seq<char>) -> Option<i32>;

/// The names under which a compound holds a tag.
pub uninterp spec fn tag_names(parent: quartz_nbt::NbtCompound) -> Set<Seq<char>>;

/// The compound that stands first in a list.
pub uninterp spec fn first_compound_of(list: quartz_nbt::NbtList) -> Option<quartz_nbt::NbtCompound>;

/// Calls `base64::decode`, which decodes with the standard alphabet and
/// padding. `None` stands for its error.
#[verifier::external_body]
fn decode_base64(text: &str) -> (bytes: Option<Vec<u8>>)
    ensures
        match bytes {
            Some(decoded) => base64_decoded(text@) == Some(decoded@),
            None => base64_decoded(text@) is None,
        },
{
    #[allow(deprecated)]
    match base64::decode(text) {
        Ok(decoded) => Some(decoded),
        Err(_) => None,
    }
}

/// Looks a name up in the map of `NbtCompound::inner` and keeps a copy of the
/// tag where it is a compound.
#[verifier::external_body]
fn child_compound(parent: &quartz_nbt::NbtCompound, name: &str) -> (child: Option<quartz_nbt::NbtCompound>)
    ensures
        child == compound_at(*parent, name@),
{
    match parent.inner().get(name) {
        Some(quartz_nbt::NbtTag::Compound(inner)) => Some(inner.clone()),
        _ => None,
    }
}

/// Looks a name up in the map of `NbtCompound::inner` and keeps a copy of the
/// tag where it is a list.
#[verifier::external_body]
fn child_list(parent: &quartz_nbt::NbtCompound, name: &str) -> (child: Option<quartz_nbt::NbtList>)
    ensures
        child == list_at(*parent, name@),
{
    match parent.inner().get(name) {
        Some(quartz_nbt::NbtTag::List(inner)) => Some(inner.clone()),
        _ => None,
    }
}

/// Looks a name up in the map of `NbtCompound::inner` and keeps a copy of the
/// tag where it is a string.
#[verifier::external_body]
fn child_text(parent: &quartz_nbt::NbtCompound, name: &str) -> (child: Option<String>)
    ensures
        match child {
            Some(text) => text_at(*parent, name@) == Some(text@),
            None => text_at(*parent, name@) is None,
        },
{
    match parent.inner().get(name) {
        Some(quartz_nbt::NbtTag::String(inner)) => Some(inner.clone()),
        _ => None,
    }
}

/// Looks a name up in the map of `NbtCompound::inner` and keeps the tag's
/// value where it is an `Int`. A name that is found is one of the map's names.
#[verifier::external_body]
fn child_int(parent: &quartz_nbt::NbtCompound, name: &str) -> (child: Option<i32>)
    ensures
        child == int_at(*parent, name@),
        child is Some ==> tag_names(*parent).contains(name@),
{
    match parent.inner().get(name) {
        Some(quartz_nbt::NbtTag::Int(inner)) => Some(*inner),
        _ => None,
    }
}

/// Takes the first tag of an `NbtList` and keeps a copy where it is a compound.
#[verifier::external_body]
fn first_compound(list: &quartz_nbt::NbtList) -> (first: Option<quartz_nbt::NbtCompound>)
    ensures
        first == first_compound_of(*list),
{
    match list.iter().next() {
        Some(quartz_nbt::NbtTag::Compound(inner)) => Some(inner.clone()),
        _ => None,
    }
}

/// Walks the map of `NbtCompound::inner` and hands out a copy of each name
/// it holds a tag under: each name once, in no stated order, and none left out.
#[verifier::external_body]
fn child_names(parent: &quartz_nbt::NbtCompound) -> (names: Vec<String>)
    ensures
        forall|i: int| 0 <= i < names@.len() ==> tag_names(*parent).contains(#[trigger] names@[i]@),
        forall|i: int, j: int|
            0 <= i < j < names@.len() ==> (#[trigger] names@[i])@ != (#[trigger] names@[j])@,
        forall|name: Seq<char>| #[trigger]
            tag_names(*parent).contains(name) ==> exists|i: int|
                0 <= i < names@.len() && (#[trigger] names@[i])@ == name,
{
    parent.inner().keys().cloned().collect()
}

/// The entries are the integers of the compound, each under its name and once.
pub open spec fn lists_ints_of(entries: Seq<Enchantment>, parent: quartz_nbt::NbtCompound) -> bool {
    &&& forall|i: int|
        0 <= i < entries.len() ==> int_at(parent, (#[trigger] entries[i]).name@) == Some(
            entries[i].level,
        )
    &&& forall|i: int, j: int|
        0 <= i < j < entries.len() ==> (#[trigger] entries[i]).name@ != (#[trigger] entries[j]).name@
    &&& forall|name: Seq<char>|
        tag_names(parent).contains(name) && (#[trigger] int_at(parent, name)) is Some ==> exists|
            i: int,
        |
            0 <= i < entries.len() && (#[trigger] entries[i]).name@ == name
}

/// The entries that come from the first names of a compound: its integers
/// under those names, each once.
spec fn lists_ints_under(entries: Seq<Enchantment>, parent: quartz_nbt::NbtCompound, names: Seq<String>, done: int) -> bool {
    &&& forall|i: int|
        0 <= i < entries.len() ==> int_at(parent, (#[trigger] entries[i]).name@) == Some(
            entries[i].level,
        )
    &&& forall|i: int|
        0 <= i < entries.len() ==> exists|k: int|
            0 <= k < done && (#[trigger] names[k])@ == (#[trigger] entries[i]).name@
    &&& forall|i: int, j: int|
        0 <= i < j < entries.len() ==> (#[trigger] entries[i]).name@ != (#[trigger] entries[j]).name@
    &&& forall|k: int|
        0 <= k < done && int_at(parent, (#[trigger] names[k])@) is Some ==> exists|i: int|
            0 <= i < entries.len() && (#[trigger] entries[i]).name@ == names[k]@
}

/// The integers that a compound holds, each with its name.
pub fn int_entries(parent: &quartz_nbt::NbtCompound) -> (entries: Vec<Enchantment>)
    ensures
        lists_ints_of(entries@, *parent),
{
    let names: Vec<String> = child_names(parent);
    let mut entries: Vec<Enchantment> = Vec::new();
    let mut k: usize = 0;
    while k < names.len()
        invariant
            k <= names@.len(),
            forall|i: int, j: int|
                0 <= i < j < names@.len() ==> (#[trigger] names@[i])@ != (#[trigger] names@[j])@,
            lists_ints_under(entries@, *parent, names@, k as int),
        decreases names@.len() - k,
    {
        let ghost before = entries@;
        match child_int(parent, names[k].as_str()) {
            Some(level) => {
                let name: String = names[k].clone();
                entries.push(Enchantment { name, level });
                proof {
                    let added = entries@[before.len() as int];
                    assert(added.name@ == names@[k as int]@);
                    assert forall|i: int| 0 <= i < entries@.len() implies exists|w: int|
                        0 <= w < k + 1 && (#[trigger] names@[w])@ == (#[trigger] entries@[i]).name@ by {
                        if i < before.len() {
                            assert(entries@[i] == before[i]);
                            let w = choose|w: int|
                                0 <= w < k && (#[trigger] names@[w])@ == before[i].name@;
                            assert(names@[w]@ == entries@[i].name@);
                        } else {
                            assert(names@[k as int]@ == entries@[i].name@);
                        }
                    }
                    assert forall|i: int, j: int| 0 <= i < j < entries@.len() implies (
                    #[trigger] entries@[i]).name@ != (#[trigger] entries@[j]).name@ by {
                        assert(entries@[i] == before[i]);
                        if j < before.len() {
                            assert(entries@[j] == before[j]);
                        } else {
                            let w = choose|w: int|
                                0 <= w < k && (#[trigger] names@[w])@ == before[i].name@;
                            assert(names@[w]@ != names@[k as int]@);
                        }
                    }
                    assert forall|w: int|
                        0 <= w < k + 1 && int_at(*parent, (#[trigger] names@[w])@) is Some implies exists|
                        i: int,
                    |
                        0 <= i < entries@.len() && (#[trigger] entries@[i]).name@ == names@[w]@ by {
                        if w < k {
                            let i = choose|i: int|
                                0 <= i < before.len() && (#[trigger] before[i]).name@ == names@[w]@;
                            assert(entries@[i] == before[i]);
                        } else {
                            assert(entries@[before.len() as int].name@ == names@[w]@);
                        }
                    }
                    assert forall|i: int| 0 <= i < entries@.len() implies int_at(
                        *parent,
                        (#[trigger] entries@[i]).name@,
                    ) == Some(entries@[i].level) by {
                        if i < before.len() {
                            assert(entries@[i] == before[i]);
                        }
                    }
                }
            },
            None => {},
        }
        k += 1;
    }
    proof {
        assert forall|name: Seq<char>|
            tag_names(*parent).contains(name) && (#[trigger] int_at(*parent, name)) is Some implies exists|
            i: int,
        |
            0 <= i < entries@.len() && (#[trigger] entries@[i]).name@ == name by {
            let w = choose|w: int| 0 <= w < names@.len() && (#[trigger] names@[w])@ == name;
            assert(int_at(*parent, names@[w]@) is Some);
        }
    }
    entries
}

/// Why the metadata of an item gave no attributes.
#[derive(Clone, Copy, Debug, PartialEq, Eq, Structural)]
pub enum DecodeError {
    /// The text is not base64.
    Encoding,
    /// The tree lacks the item's attributes.
    Shape,
    /// A count of the attributes is negative.
    NegativeCount,
}

impl DecodeError {
    pub fn message(&self) -> (text: String)
        ensures
            text@ == match *self {
                DecodeError::Encoding => "metadata is not base64"@,
                DecodeError::Shape => "metadata lacks the item attributes"@,
                DecodeError::NegativeCount => "negative count in the item attributes"@,
            },
    {
        match self {
            DecodeError::Encoding => "metadata is not base64".to_owned(),
            DecodeError::Shape => "metadata lacks the item attributes".to_owned(),
            DecodeError::NegativeCount => "negative count in the item attributes".to_owned(),
        }
    }
}

/// The compound of an item's attributes within the tree of its metadata: that
/// of the first item of the tree, under its tag.
pub open spec fn attributes_within(tree: quartz_nbt::NbtCompound) -> Option<quartz_nbt::NbtCompound> {
    match list_at(tree, "i"@) {
        Some(items) => match first_compound_of(items) {
            Some(item) => match compound_at(item, "tag"@) {
                Some(tag) => compound_at(tag, "ExtraAttributes"@),
                None => None,
            },
            None => None,
        },
        None => None,
    }
}

/// The count that stands under a name: zero where there is none.
pub open spec fn count_at(extra: quartz_nbt::NbtCompound, name: Seq<char>) -> int {
    match int_at(extra, name) {
        Some(count) => count as int,
        None => 0,
    }
}

/// Whether the counts of the attributes can be taken as they stand.
pub open spec fn counts_valid(extra: quartz_nbt::NbtCompound) -> bool {
    &&& count_at(extra, "rarity_upgrades"@) >= 0
    &&& count_at(extra, "hot_potato_count"@) >= 0
    &&& count_at(extra, "upgrade_level"@) >= 0
}

/// Whether a bundle says what the compound of the attributes holds.
pub open spec fn describes(bundle: AttributeBundle, extra: quartz_nbt::NbtCompound) -> bool {
    &&& bundle.identity@ == match text_at(extra, "id"@) {
        Some(identity) => identity,
        None => "none"@,
    }
    &&& bundle.quality_upgrade_count == count_at(extra, "rarity_upgrades"@)
    &&& bundle.upgrade_book_count == count_at(extra, "hot_potato_count"@)
    &&& bundle.star_count == count_at(extra, "upgrade_level"@)
    &&& match text_at(extra, "modifier"@) {
        Some(reforge) => bundle.reforge_name is Some && bundle.reforge_name->Some_0@ == reforge,
        None => bundle.reforge_name is None,
    }
    &&& match compound_at(extra, "enchantments"@) {
        Some(enchantments) => lists_ints_of(bundle.enchantments@, enchantments),
        None => bundle.enchantments@.len() == 0,
    }
}

fn read_count(extra: &quartz_nbt::NbtCompound, name: &str) -> (count: Option<u32>)
    ensures
        match count {
            Some(value) => value == count_at(*extra, name@),
            None => count_at(*extra, name@) < 0,
        },
{
    match child_int(extra, name) {
        Some(value) => {
            if value < 0 {
                None
            } else {
                Some(value as u32)
            }
        },
        None => Some(0),
    }
}

/// Finds the compound of the item's attributes in the tree of its metadata.
pub fn find_attributes(tree: &quartz_nbt::NbtCompound) -> (extra: Option<quartz_nbt::NbtCompound>)
    ensures
        extra == attributes_within(*tree),
{
    let items = match child_list(tree, "i") {
        Some(items) => items,
        None => {
            return None;
        },
    };
    let item = match first_compound(&items) {
        Some(item) => item,
        None => {
            return None;
        },
    };
    match child_compound(&item, "tag") {
        Some(tag) => child_compound(&tag, "ExtraAttributes"),
        None => None,
    }
}

/// Flattens the compound of an item's attributes into a bundle.
pub fn bundle_from_attributes(extra: &quartz_nbt::NbtCompound) -> (bundle: Result<AttributeBundle, DecodeError>)
    ensures
        match bundle {
            Ok(attributes) => counts_valid(*extra) && describes(attributes, *extra),
            Err(error) => error == DecodeError::NegativeCount && !counts_valid(*extra),
        },
{
    let identity: String = match child_text(extra, "id") {
        Some(identity) => identity,
        None => "none".to_owned(),
    };
    let quality_upgrade_count: u32 = match read_count(extra, "rarity_upgrades") {
        Some(count) => count,
        None => {
            return Err(DecodeError::NegativeCount);
        },
    };
    let upgrade_book_count: u32 = match read_count(extra, "hot_potato_count") {
        Some(count) => count,
        None => {
            return Err(DecodeError::NegativeCount);
        },
    };
    let star_count: u32 = match read_count(extra, "upgrade_level") {
        Some(count) => count,
        None => {
            return Err(DecodeError::NegativeCount);
        },
    };
    let reforge_name: Option<String> = child_text(extra, "modifier");
    let enchantments: Vec<Enchantment> = match child_compound(extra, "enchantments") {
        Some(compound) => int_entries(&compound),
        None => Vec::new(),
    };
    Ok(
        AttributeBundle {
            identity,
            quality_upgrade_count,
            enchantments,
            upgrade_book_count,
            reforge_name,
            star_count,
        },
    )
}

/// The compound of the attributes that a tag tree holds, its counts being
/// valid, or why the tree gives no attributes.
pub open spec fn attributes_compound(tree: quartz_nbt::NbtCompound) -> Result<quartz_nbt::NbtCompound, DecodeError> {
    match attributes_within(tree) {
        None => Err(DecodeError::Shape),
        Some(extra) => if counts_valid(extra) {
            Ok(extra)
        } else {
            Err(DecodeError::NegativeCount)
        },
    }
}

/// Flattens the tag tree of an item's metadata into the bundle of its attributes.
pub fn decode_attributes(tree: &quartz_nbt::NbtCompound) -> (bundle: Result<AttributeBundle, DecodeError>)
    ensures
        match bundle {
            Ok(attributes) => attributes_compound(*tree) is Ok && describes(
                attributes,
                attributes_compound(*tree)->Ok_0,
            ),
            Err(error) => attributes_compound(*tree) == Err::<quartz_nbt::NbtCompound, DecodeError>(
                error,
            ),
        },
{
    match find_attributes(tree) {
        Some(extra) => bundle_from_attributes(&extra),
        None => Err(DecodeError::Shape),
    }
}

/// The bytes of an item's metadata, which the feed carries in base64.
pub fn metadata_bytes(item_bytes: &str) -> (bytes: Result<Vec<u8>, DecodeError>)
    ensures
        match bytes {
            Ok(decoded) => base64_decoded(item_bytes@) == Some(decoded@),
            Err(error) => error == DecodeError::Encoding && base64_decoded(item_bytes@) is None,
        },
{
    match decode_base64(item_bytes) {
        Some(decoded) => Ok(decoded),
        None => Err(DecodeError::Encoding),
    }
}

} // verus!
