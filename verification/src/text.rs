use vstd::prelude::*;
use vstd::string::*;

verus! {

/// A text without the white space at its two ends, as `str::trim` gives it.
pub uninterp spec fn trimmed_text(text: Seq<char>) -> Seq<char>;

/// A text in upper case, as `str::to_uppercase` gives it.
pub uninterp spec fn uppercased_text(text: Seq<char>) -> Seq<char>;

/// A number written in decimal, as `i32::to_string` writes it.
pub uninterp spec fn decimal_text(number: i32) -> Seq<char>;

/// The number that a text spells in decimal, if it spells one, as
/// `str::parse` reads it.
pub uninterp spec fn parsed_number(text: Seq<char>) -> Option<i32>;

/// A text in lower case, as `str::to_lowercase` gives it.
pub uninterp spec fn lowercased_text(text: Seq<char>) -> Seq<char>;

/// The 64-bit number that a text spells in decimal, if it spells one, as
/// `str::parse` reads it.
pub uninterp spec fn parsed_long(text: Seq<char>) -> Option<i64>;

/// A text without its commas.
pub open spec fn without_commas(text: Seq<char>) -> Seq<char> {
    text.filter(|c: char| c != ',')
}

/// A text with an underscore in place of each space.
pub open spec fn underscored_text(text: Seq<char>) -> Seq<char> {
    text.map_values(
        |c: char|
            if c == ' ' {
                '_'
            } else {
                c
            },
    )
}

/// The form in which a name of a display or of the metadata enters an
/// identity: trimmed, in upper case, with underscores for spaces.
pub open spec fn normalized_name(name: Seq<char>) -> Seq<char> {
    underscored_text(uppercased_text(trimmed_text(name)))
}

/// Calls `str::trim` of std and copies the slice it returns. Nothing is
/// claimed of the result but that it is the same for the same text.
#[verifier::external_body]
pub(crate) fn trim_text(text: &str) -> (trimmed: String)
    ensures
        trimmed@ == trimmed_text(text@),
{
    text.trim().to_string()
}

/// Calls `str::to_uppercase` of std. Nothing is claimed of the result but
/// that it is the same for the same text.
#[verifier::external_body]
fn uppercase_text(text: &str) -> (upper: String)
    ensures
        upper@ == uppercased_text(text@),
{
    text.to_uppercase()
}

/// Puts an underscore in place of each space of a text.
pub fn underscore_spaces(text: &str) -> (replaced: String)
    ensures
        replaced@ == underscored_text(text@),
{
    let length: usize = text.unicode_len();
    let mut replaced: String = String::new();
    let mut i: usize = 0;
    assert(underscored_text(text@.subrange(0, 0)) =~= Seq::<char>::empty());
    while i < length
        invariant
            length == text@.len(),
            i <= length,
            replaced@ == underscored_text(text@.subrange(0, i as int)),
        decreases length - i,
    {
        proof {
            reveal_strlit("_");
            assert("_"@ =~= seq!['_']);
            assert(text@.subrange(i as int, i + 1) =~= seq![text@[i as int]]);
        }
        if text.get_char(i) == ' ' {
            replaced.append("_");
        } else {
            replaced.append(text.substring_char(i, i + 1));
        }
        assert(replaced@ =~= underscored_text(text@.subrange(0, i + 1)));
        i += 1;
    }
    assert(text@.subrange(0, length as int) =~= text@);
    replaced
}

/// Calls `i32::to_string` of std. Nothing is claimed of the digits but that
/// they are the same for the same number.
#[verifier::external_body]
fn number_text(number: i32) -> (digits: String)
    ensures
        digits@ == decimal_text(number),
{
    number.to_string()
}

/// Calls `str::parse` of std for an `i32`. `None` stands for its error;
/// nothing is claimed of the number but that it is the same for the same text.
#[verifier::external_body]
pub(crate) fn parse_number(text: &str) -> (number: Option<i32>)
    ensures
        number == parsed_number(text@),
{
    match text.parse::<i32>() {
        Ok(number) => Some(number),
        Err(_) => None,
    }
}

/// Calls `str::to_lowercase` of std. Nothing is claimed of the result but
/// that it is the same for the same text.
#[verifier::external_body]
pub(crate) fn lowercase_text(text: &str) -> (lower: String)
    ensures
        lower@ == lowercased_text(text@),
{
    text.to_lowercase()
}

/// Takes the commas out of a text.
pub fn strip_commas(text: &str) -> (stripped: String)
    ensures
        stripped@ == without_commas(text@),
{
    let length: usize = text.unicode_len();
    let mut stripped: String = String::new();
    let mut i: usize = 0;
    proof {
        reveal(Seq::filter);
        assert(without_commas(text@.subrange(0, 0)) =~= Seq::<char>::empty());
    }
    while i < length
        invariant
            length == text@.len(),
            i <= length,
            stripped@ == without_commas(text@.subrange(0, i as int)),
        decreases length - i,
    {
        proof {
            reveal(Seq::filter);
            assert(text@.subrange(i as int, i + 1) =~= seq![text@[i as int]]);
            assert(text@.subrange(0, i + 1).drop_last() =~= text@.subrange(0, i as int));
        }
        if text.get_char(i) != ',' {
            stripped.append(text.substring_char(i, i + 1));
        }
        assert(stripped@ =~= without_commas(text@.subrange(0, i + 1)));
        i += 1;
    }
    assert(text@.subrange(0, length as int) =~= text@);
    stripped
}

/// Calls `str::parse` of std for an `i64`. `None` stands for its error;
/// nothing is claimed of the number but that it is the same for the same text.
#[verifier::external_body]
pub(crate) fn parse_long(text: &str) -> (number: Option<i64>)
    ensures
        number == parsed_long(text@),
{
    match text.parse::<i64>() {
        Ok(number) => Some(number),
        Err(_) => None,
    }
}

pub fn normalize_name(name: &str) -> (normalized: String)
    ensures
        normalized@ == normalized_name(name@),
{
    let trimmed: String = trim_text(name);
    let upper: String = uppercase_text(trimmed.as_str());
    underscore_spaces(upper.as_str())
}

/// The commodity that an enchantment of a name and level is traded as.
pub open spec fn enchantment_commodity(name: Seq<char>, level: i32) -> Seq<char> {
    "ENCHANTMENT_"@ + normalized_name(name) + "_"@ + decimal_text(level)
}

/// The commodity of the same enchantment where it is of the ultimate kind.
pub open spec fn ultimate_enchantment_commodity(name: Seq<char>, level: i32) -> Seq<char> {
    "ENCHANTMENT_ULTIMATE_"@ + normalized_name(name) + "_"@ + decimal_text(level)
}

fn prefixed_commodity(prefix: &str, name: &str, level: i32) -> (identity: String)
    ensures
        identity@ == prefix@ + normalized_name(name@) + "_"@ + decimal_text(level),
{
    let normalized: String = normalize_name(name);
    let digits: String = number_text(level);
    let mut identity: String = prefix.to_owned();
    identity.append(normalized.as_str());
    identity.append("_");
    identity.append(digits.as_str());
    identity
}

pub fn enchantment_commodity_id(name: &str, level: i32) -> (identity: String)
    ensures
        identity@ == enchantment_commodity(name@, level),
{
    prefixed_commodity("ENCHANTMENT_", name, level)
}

pub fn ultimate_enchantment_commodity_id(name: &str, level: i32) -> (identity: String)
    ensures
        identity@ == ultimate_enchantment_commodity(name@, level),
{
    prefixed_commodity("ENCHANTMENT_ULTIMATE_", name, level)
}

} // verus!
